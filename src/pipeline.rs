//! The build stages as argument vectors, and how the driver moves between them.

use vstd::prelude::*;
use crate::cli::{opt_text, verb_of, CommandLine, OptLevel, Verb, texts, lemma_texts_push, release_requested, opt_level_of};
use crate::config::CTRConfig;

verus! {

/// A child process to run: the program, its arguments, and the environment
/// variables set on top of the inherited ones. Streams are always inherited.
pub struct Invocation {
    pub program: String,
    pub args: Vec<String>,
    pub env: Vec<(String, String)>,
}

pub ghost struct InvocationView {
    pub program: Seq<char>,
    pub args: Seq<Seq<char>>,
    pub env: Seq<(Seq<char>, Seq<char>)>,
}

impl View for Invocation {
    type V = InvocationView;

    open spec fn view(&self) -> InvocationView {
        InvocationView {
            program: self.program@,
            args: texts(self.args@),
            env: self.env@.map_values(|p: (String, String)| (p.0@, p.1@)),
        }
    }
}

/// The linker arguments added to `RUSTFLAGS` for the console target.
pub open spec fn link_flags() -> Seq<char> {
    "-Clink-arg=-specs=3dsx.specs -Clink-arg=-z -Clink-arg=muldefs -Clink-arg=-D__3DS__"@
}

/// `RUSTFLAGS` for the cross-compile: the caller's value, a space, then the
/// linker arguments; the linker arguments alone when the caller set none.
pub open spec fn merged_flags(existing: Option<Seq<char>>) -> Seq<char> {
    match existing {
        Some(x) => x + " "@ + link_flags(),
        None => link_flags(),
    }
}

/// `./target/armv6k-nintendo-3ds/<level>/<name>.<ext>`
pub open spec fn artifact(opt: OptLevel, name: Seq<char>, ext: Seq<char>) -> Seq<char> {
    "./target/armv6k-nintendo-3ds/"@ + opt.segment() + "/"@ + name + "."@ + ext
}

pub open spec fn cross_compile_prefix() -> Seq<Seq<char>> {
    seq![
        "build"@,
        "-Z"@,
        "unstable-options"@,
        "-Z"@,
        "build-std"@,
        "--target"@,
        "armv6k-nintendo-3ds"@,
    ]
}

/// Stage A: the host build driver, cross-compiling the ELF.
pub open spec fn elf_stage(passthrough: Seq<Seq<char>>, rustflags: Option<Seq<char>>) -> InvocationView {
    InvocationView {
        program: "cargo"@,
        args: cross_compile_prefix() + passthrough,
        env: seq![("RUSTFLAGS"@, merged_flags(rustflags))],
    }
}

/// Stage B: the SMDH packer.
pub open spec fn smdh_stage(
    name: Seq<char>,
    author: Seq<char>,
    description: Seq<char>,
    icon: Seq<char>,
    opt: OptLevel,
) -> InvocationView {
    InvocationView {
        program: "smdhtool"@,
        args: seq!["--create"@, name, description, author, icon, artifact(opt, name, "smdh"@)],
        env: seq![],
    }
}

/// Stage C: the 3DSX container tool, with the resource bundle when present.
pub open spec fn dsx_stage(name: Seq<char>, opt: OptLevel, romfs_present: bool) -> InvocationView {
    let base = seq![
        artifact(opt, name, "elf"@),
        artifact(opt, name, "3dsx"@),
        "--smdh="@ + artifact(opt, name, "smdh"@),
    ];
    InvocationView {
        program: "3dsxtool"@,
        args: if romfs_present {
            base.push("--romfs=./romfs"@)
        } else {
            base
        },
        env: seq![],
    }
}

/// The upload stage.
pub open spec fn upload_stage(name: Seq<char>, opt: OptLevel) -> InvocationView {
    InvocationView { program: "3dslink"@, args: seq![artifact(opt, name, "3dsx"@)], env: seq![] }
}

/// The value of `RUSTFLAGS` for the cross-compile stage.
pub fn merge_rustflags(existing: Option<String>) -> (r: String)
    ensures
        r@ == merged_flags(opt_text(existing)),
{
    let flags = "-Clink-arg=-specs=3dsx.specs -Clink-arg=-z -Clink-arg=muldefs -Clink-arg=-D__3DS__";
    match existing {
        Some(x) => x.concat(" ").concat(flags),
        None => String::from_str(flags),
    }
}

/// The path of a build artifact.
pub fn artifact_path(opt: OptLevel, name: &str, ext: &str) -> (r: String)
    ensures
        r@ == artifact(opt, name@, ext@),
{
    String::from_str("./target/armv6k-nintendo-3ds/").concat(opt.as_str()).concat("/").concat(
        name,
    ).concat(".").concat(ext)
}

fn push_text(v: &mut Vec<String>, s: String)
    ensures
        texts(final(v)@) == texts(old(v)@).push(s@),
{
    proof {
        lemma_texts_push(old(v)@, s);
    }
    v.push(s);
}

/// Stage A: `cargo build -Z unstable-options -Z build-std --target
/// armv6k-nintendo-3ds` followed by the user's arguments, with the linker
/// arguments merged into `RUSTFLAGS`.
pub fn build_elf(cmd: &CommandLine, rustflags: Option<String>) -> (r: Invocation)
    ensures
        r@ == elf_stage(texts(cmd.passthrough@), opt_text(rustflags)),
{
    let mut args: Vec<String> = Vec::new();
    push_text(&mut args, String::from_str("build"));
    push_text(&mut args, String::from_str("-Z"));
    push_text(&mut args, String::from_str("unstable-options"));
    push_text(&mut args, String::from_str("-Z"));
    push_text(&mut args, String::from_str("build-std"));
    push_text(&mut args, String::from_str("--target"));
    push_text(&mut args, String::from_str("armv6k-nintendo-3ds"));
    assert(texts(args@) =~= cross_compile_prefix());
    let mut i: usize = 0;
    while i < cmd.passthrough.len()
        invariant
            i <= cmd.passthrough@.len(),
            texts(args@) == cross_compile_prefix() + texts(cmd.passthrough@).subrange(0, i as int),
        decreases cmd.passthrough@.len() - i,
    {
        push_text(&mut args, cmd.passthrough[i].clone());
        assert(texts(cmd.passthrough@).subrange(0, i + 1) =~= texts(cmd.passthrough@).subrange(
            0,
            i as int,
        ).push(cmd.passthrough@[i as int]@));
        i = i + 1;
    }
    assert(texts(cmd.passthrough@).subrange(0, i as int) =~= texts(cmd.passthrough@));
    let mut env: Vec<(String, String)> = Vec::new();
    env.push((String::from_str("RUSTFLAGS"), merge_rustflags(rustflags)));
    let r = Invocation { program: String::from_str("cargo"), args, env };
    assert(r@.env =~= seq![("RUSTFLAGS"@, merged_flags(opt_text(rustflags)))]);
    assert(r@.args =~= elf_stage(texts(cmd.passthrough@), opt_text(rustflags)).args);
    r
}

/// Stage B: `smdhtool --create <name> <description> <author> <icon> <smdh>`.
pub fn build_smdh(config: &CTRConfig, opt: OptLevel) -> (r: Invocation)
    ensures
        r@ == smdh_stage(config.name@, config.author@, config.description@, config.icon@, opt),
{
    let mut args: Vec<String> = Vec::new();
    push_text(&mut args, String::from_str("--create"));
    push_text(&mut args, config.name.clone());
    push_text(&mut args, config.description.clone());
    push_text(&mut args, config.author.clone());
    push_text(&mut args, config.icon.clone());
    push_text(&mut args, artifact_path(opt, config.name.as_str(), "smdh"));
    let r = Invocation { program: String::from_str("smdhtool"), args, env: Vec::new() };
    assert(r@.args =~= smdh_stage(
        config.name@,
        config.author@,
        config.description@,
        config.icon@,
        opt,
    ).args);
    assert(r@.env =~= seq![]);
    r
}

/// Stage C: `3dsxtool <elf> <3dsx> --smdh=<smdh>`, followed by
/// `--romfs=./romfs` when that directory exists.
pub fn build_dsx(config: &CTRConfig, opt: OptLevel, romfs_present: bool) -> (r: Invocation)
    ensures
        r@ == dsx_stage(config.name@, opt, romfs_present),
{
    let name = config.name.as_str();
    let mut args: Vec<String> = Vec::new();
    push_text(&mut args, artifact_path(opt, name, "elf"));
    push_text(&mut args, artifact_path(opt, name, "3dsx"));
    push_text(&mut args, String::from_str("--smdh=").concat(artifact_path(opt, name, "smdh").as_str()));
    if romfs_present {
        push_text(&mut args, String::from_str("--romfs=./romfs"));
    }
    let r = Invocation { program: String::from_str("3dsxtool"), args, env: Vec::new() };
    assert(r@.args =~= dsx_stage(config.name@, opt, romfs_present).args);
    assert(r@.env =~= seq![]);
    r
}

/// Stages B and C: pack the metadata, then assemble the 3DSX container.
pub fn build_3dsx(config: &CTRConfig, opt: OptLevel, romfs_present: bool) -> (r: Vec<Invocation>)
    ensures
        r@.len() == 2,
        r@[0]@ == smdh_stage(config.name@, config.author@, config.description@, config.icon@, opt),
        r@[1]@ == dsx_stage(config.name@, opt, romfs_present),
{
    let mut r: Vec<Invocation> = Vec::new();
    r.push(build_smdh(config, opt));
    r.push(build_dsx(config, opt, romfs_present));
    r
}

/// The upload stage: `3dslink <3dsx>`.
pub fn link(name: &str, opt: OptLevel) -> (r: Invocation)
    ensures
        r@ == upload_stage(name@, opt),
{
    let mut args: Vec<String> = Vec::new();
    push_text(&mut args, artifact_path(opt, name, "3dsx"));
    let r = Invocation { program: String::from_str("3dslink"), args, env: Vec::new() };
    assert(r@.args =~= upload_stage(name@, opt).args);
    assert(r@.env =~= seq![]);
    r
}

/// Every stage of a command, in the order they run.
pub open spec fn stage_views(
    cmd: &CommandLine,
    config: &CTRConfig,
    rustflags: Option<Seq<char>>,
    romfs_present: bool,
) -> Seq<InvocationView> {
    let build = seq![
        elf_stage(texts(cmd.passthrough@), rustflags),
        smdh_stage(config.name@, config.author@, config.description@, config.icon@, cmd.opt_level),
        dsx_stage(config.name@, cmd.opt_level, romfs_present),
    ];
    match cmd.verb {
        Verb::Build => build,
        Verb::BuildAndUpload => build.push(upload_stage(config.name@, cmd.opt_level)),
    }
}

/// The stages a command runs: the three build stages, then the upload for `link`.
pub fn stages(cmd: &CommandLine, config: &CTRConfig, rustflags: Option<String>, romfs_present: bool) -> (r:
    Vec<Invocation>)
    ensures
        r@.map_values(|i: Invocation| i@) == stage_views(
            cmd,
            config,
            opt_text(rustflags),
            romfs_present,
        ),
{
    let mut r: Vec<Invocation> = Vec::new();
    r.push(build_elf(cmd, rustflags));
    let mut rest = build_3dsx(config, cmd.opt_level, romfs_present);
    let dsx = rest.pop().unwrap();
    let smdh = rest.pop().unwrap();
    r.push(smdh);
    r.push(dsx);
    match cmd.verb {
        Verb::Build => {},
        Verb::BuildAndUpload => {
            r.push(link(config.name.as_str(), cmd.opt_level));
        },
    }
    assert(r@.map_values(|i: Invocation| i@) =~= stage_views(
        cmd,
        config,
        opt_text(rustflags),
        romfs_present,
    ));
    r
}

pub open spec fn programs(stages: Seq<InvocationView>) -> Seq<Seq<char>> {
    stages.map_values(|i: InvocationView| i.program)
}

/// `build` runs the cross-compile, the SMDH packer and the 3DSX tool, and
/// nothing else; `link` runs the same three and then the upload tool.
pub proof fn lemma_verb_dispatch(
    cmd: &CommandLine,
    config: &CTRConfig,
    rustflags: Option<Seq<char>>,
    romfs_present: bool,
)
    ensures
        cmd.verb == Verb::Build ==> programs(stage_views(cmd, config, rustflags, romfs_present))
            == seq!["cargo"@, "smdhtool"@, "3dsxtool"@],
        cmd.verb == Verb::BuildAndUpload ==> programs(
            stage_views(cmd, config, rustflags, romfs_present),
        ) == seq!["cargo"@, "smdhtool"@, "3dsxtool"@, "3dslink"@],
{
    assert(programs(stage_views(cmd, config, rustflags, romfs_present)) =~= match cmd.verb {
        Verb::Build => seq!["cargo"@, "smdhtool"@, "3dsxtool"@],
        Verb::BuildAndUpload => seq!["cargo"@, "smdhtool"@, "3dsxtool"@, "3dslink"@],
    });
}

/// Dispatch on the verb word: `build` gives a command that runs the three
/// build stages and nothing else, `link` one that runs them and then the
/// upload, and any other word gives no command at all (the command line is
/// refused before any stage exists).
pub proof fn lemma_dispatch_by_word(
    word: Seq<char>,
    cmd: &CommandLine,
    config: &CTRConfig,
    rustflags: Option<Seq<char>>,
    romfs_present: bool,
)
    ensures
        verb_of(word) is None <==> (word != "build"@ && word != "link"@),
        word == "build"@ && cmd.verb == verb_of(word).unwrap() ==> programs(
            stage_views(cmd, config, rustflags, romfs_present),
        ) == seq!["cargo"@, "smdhtool"@, "3dsxtool"@],
        word == "link"@ && cmd.verb == verb_of(word).unwrap() ==> programs(
            stage_views(cmd, config, rustflags, romfs_present),
        ) == seq!["cargo"@, "smdhtool"@, "3dsxtool"@, "3dslink"@],
{
    reveal_strlit("build");
    reveal_strlit("link");
    assert("build"@ != "link"@) by {
        assert("build"@.len() != "link"@.len());
    }
    lemma_verb_dispatch(cmd, config, rustflags, romfs_present);
}

/// The artifact directory is `release` exactly when `--release` occurs in the
/// argument vector, at any position, and `debug` otherwise.
pub proof fn lemma_optimization_path(argv: Seq<Seq<char>>, name: Seq<char>, ext: Seq<char>)
    ensures
        release_requested(argv) ==> artifact(opt_level_of(argv), name, ext)
            == "./target/armv6k-nintendo-3ds/"@ + "release"@ + "/"@ + name + "."@ + ext,
        !release_requested(argv) ==> artifact(opt_level_of(argv), name, ext)
            == "./target/armv6k-nintendo-3ds/"@ + "debug"@ + "/"@ + name + "."@ + ext,
{
}

/// The user's arguments after the verb reach the cross-compile stage whole
/// and in order, after its fixed arguments.
pub proof fn lemma_flag_passthrough(argv: Seq<Seq<char>>, rustflags: Option<Seq<char>>)
    requires
        argv.len() >= 3,
    ensures
        elf_stage(argv.skip(3), rustflags).args.skip(cross_compile_prefix().len() as int)
            == argv.skip(3),
        forall|i: int|
            3 <= i < argv.len() ==> elf_stage(argv.skip(3), rustflags).args[i + 4] == argv[i],
{
    assert(elf_stage(argv.skip(3), rustflags).args.skip(cross_compile_prefix().len() as int)
        =~= argv.skip(3));
}

/// A caller's `RUSTFLAGS=X` reaches the cross-compile as `X`, a space, and the
/// linker arguments.
pub proof fn lemma_rustflags_merge(passthrough: Seq<Seq<char>>, x: Seq<char>)
    ensures
        elf_stage(passthrough, Some(x)).env == seq![("RUSTFLAGS"@, x + " "@ + link_flags())],
{
}

/// The 3DSX tool is given `--romfs=./romfs` exactly when the directory exists.
pub proof fn lemma_romfs_inclusion(name: Seq<char>, opt: OptLevel, romfs_present: bool)
    ensures
        dsx_stage(name, opt, romfs_present).args.contains("--romfs=./romfs"@) <==> romfs_present,
{
    let args = dsx_stage(name, opt, romfs_present).args;
    let romfs = "--romfs=./romfs"@;
    reveal_strlit("--romfs=./romfs");
    reveal_strlit("./target/armv6k-nintendo-3ds/");
    reveal_strlit("--smdh=");
    assert(artifact(opt, name, "elf"@)[0] == '.');
    assert(artifact(opt, name, "3dsx"@)[0] == '.');
    assert(("--smdh="@ + artifact(opt, name, "smdh"@))[2] == 's');
    assert(romfs[0] == '-' && romfs[2] == 'r');
    if romfs_present {
        assert(args[3] == romfs);
    } else {
        assert forall|i: int| 0 <= i < args.len() implies args[i] != romfs by {
            if i == 0 || i == 1 {
                assert(args[i][0] != romfs[0]);
            } else {
                assert(args[i][2] != romfs[2]);
            }
        }
    }
}

} // verus!
