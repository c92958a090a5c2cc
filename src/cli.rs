//! The driver's command line: `<driver> 3ds <verb> [args...]`.

use vstd::prelude::*;

verus! {

/// What the user asked for.
#[derive(Clone, Copy, Debug, PartialEq, Eq, Structural)]
pub enum Verb {
    /// `build`: the three build stages.
    Build,
    /// `link`: the build stages, then the upload.
    BuildAndUpload,
}

/// Optimization level; it names the artifact directory.
#[derive(Clone, Copy, Debug, PartialEq, Eq, Structural)]
pub enum OptLevel {
    Debug,
    Release,
}

/// A parsed command line.
pub struct CommandLine {
    pub verb: Verb,
    pub opt_level: OptLevel,
    /// Everything after the verb, in order, for the cross-compile stage.
    pub passthrough: Vec<String>,
}

/// Why the command line was refused.
#[derive(Clone, Copy, Debug, PartialEq, Eq, Structural)]
pub enum UsageError {
    /// No verb after the driver prefix.
    MissingCommand,
    /// A verb other than `build` or `link`.
    InvalidCommand,
}

/// The characters of an optional string.
pub open spec fn opt_text(o: Option<String>) -> Option<Seq<char>> {
    match o {
        Some(s) => Some(s@),
        None => None,
    }
}

/// The character sequences of a vector of strings.
pub open spec fn texts(v: Seq<String>) -> Seq<Seq<char>> {
    v.map_values(|s: String| s@)
}

pub open spec fn release_requested(argv: Seq<Seq<char>>) -> bool {
    exists|i: int| 0 <= i < argv.len() && argv[i] == "--release"@
}

pub open spec fn opt_level_of(argv: Seq<Seq<char>>) -> OptLevel {
    if release_requested(argv) {
        OptLevel::Release
    } else {
        OptLevel::Debug
    }
}

pub open spec fn verb_of(word: Seq<char>) -> Option<Verb> {
    if word == "build"@ {
        Some(Verb::Build)
    } else if word == "link"@ {
        Some(Verb::BuildAndUpload)
    } else {
        None
    }
}

impl OptLevel {
    /// The artifact directory's name.
    pub open spec fn segment(self) -> Seq<char> {
        match self {
            OptLevel::Debug => "debug"@,
            OptLevel::Release => "release"@,
        }
    }

    /// The artifact directory's name: `debug` or `release`.
    pub fn as_str(&self) -> (r: &'static str)
        ensures
            r@ == self.segment(),
    {
        match self {
            OptLevel::Debug => "debug",
            OptLevel::Release => "release",
        }
    }
}

/// Mapping a vector of strings to characters commutes with pushing one more.
pub(crate) proof fn lemma_texts_push(v: Seq<String>, s: String)
    ensures
        texts(v.push(s)) == texts(v).push(s@),
{
    assert(texts(v.push(s)) =~= texts(v).push(s@));
}

/// Whether two strings hold the same characters.
pub fn str_eq(a: &str, b: &str) -> (r: bool)
    ensures
        r == (a@ == b@),
{
    let n = a.unicode_len();
    if n != b.unicode_len() {
        return false;
    }
    let mut i: usize = 0;
    while i < n
        invariant
            n == a@.len() == b@.len(),
            i <= n,
            a@.subrange(0, i as int) == b@.subrange(0, i as int),
        decreases n - i,
    {
        if a.get_char(i) != b.get_char(i) {
            return false;
        }
        assert(a@.subrange(0, i + 1) == a@.subrange(0, i as int).push(a@[i as int]));
        assert(b@.subrange(0, i + 1) == b@.subrange(0, i as int).push(b@[i as int]));
        i = i + 1;
    }
    assert(a@ == a@.subrange(0, n as int));
    assert(b@ == b@.subrange(0, n as int));
    true
}

/// Whether `--release` occurs anywhere in `argv`.
pub fn has_release_flag(argv: &Vec<String>) -> (r: bool)
    ensures
        r == release_requested(texts(argv@)),
{
    let mut i: usize = 0;
    while i < argv.len()
        invariant
            i <= argv@.len(),
            forall|j: int| 0 <= j < i ==> argv@[j]@ != "--release"@,
        decreases argv@.len() - i,
    {
        if str_eq(argv[i].as_str(), "--release") {
            assert(texts(argv@)[i as int] == "--release"@);
            return true;
        }
        i = i + 1;
    }
    assert forall|j: int| 0 <= j < texts(argv@).len() implies texts(argv@)[j] != "--release"@ by {
        assert(texts(argv@)[j] == argv@[j]@);
    }
    false
}

/// Splits the driver's own argument vector. The first two positions are the
/// driver prefix (`cargo 3ds`); the third is the verb; the rest is passed on.
/// The optimization level is `Release` exactly when `--release` occurs at any
/// position.
pub fn parse_command_line(argv: &Vec<String>) -> (r: Result<CommandLine, UsageError>)
    ensures
        argv@.len() < 3 ==> r == Err::<CommandLine, UsageError>(UsageError::MissingCommand),
        argv@.len() >= 3 && verb_of(argv@[2]@).is_none() ==> r == Err::<CommandLine, UsageError>(
            UsageError::InvalidCommand,
        ),
        argv@.len() >= 3 && verb_of(argv@[2]@).is_some() ==> r.is_ok(),
        r matches Ok(cmd) ==> {
            &&& cmd.verb == verb_of(argv@[2]@).unwrap()
            &&& cmd.opt_level == opt_level_of(texts(argv@))
            &&& texts(cmd.passthrough@) == texts(argv@).skip(3)
        },
{
    if argv.len() < 3 {
        return Err(UsageError::MissingCommand);
    }
    let word = argv[2].as_str();
    let verb = if str_eq(word, "build") {
        Verb::Build
    } else if str_eq(word, "link") {
        Verb::BuildAndUpload
    } else {
        return Err(UsageError::InvalidCommand);
    };
    let opt_level = if has_release_flag(argv) {
        OptLevel::Release
    } else {
        OptLevel::Debug
    };
    let mut passthrough: Vec<String> = Vec::new();
    let mut i: usize = 3;
    while i < argv.len()
        invariant
            3 <= i <= argv@.len(),
            texts(passthrough@) == texts(argv@).subrange(3, i as int),
        decreases argv@.len() - i,
    {
        let ghost before = passthrough@;
        passthrough.push(argv[i].clone());
        proof {
            lemma_texts_push(before, argv@[i as int]);
            assert(texts(argv@).subrange(3, i + 1) =~= texts(argv@).subrange(3, i as int).push(
                argv@[i as int]@,
            ));
        }
        i = i + 1;
    }
    assert(texts(argv@).skip(3) == texts(argv@).subrange(3, argv@.len() as int));
    Ok(CommandLine { verb, opt_level, passthrough })
}

} // verus!
