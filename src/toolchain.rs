//! The toolchain check: the compiler must be a recent enough nightly.

use vstd::prelude::*;
use crate::cli::opt_text;
use crate::date::{CommitDate, is_date_text, date_of_text};

verus! {

/// Release channel of the compiler, from the strictest to the loosest.
#[derive(Clone, Copy, Debug, PartialEq, Eq, Structural)]
pub enum Channel {
    Stable,
    Beta,
    Nightly,
    Dev,
}

impl Channel {
    /// Position in the order stable < beta < nightly < dev.
    pub open spec fn rank(self) -> int {
        match self {
            Channel::Stable => 0,
            Channel::Beta => 1,
            Channel::Nightly => 2,
            Channel::Dev => 3,
        }
    }

    /// Whether the channel offers the unstable flags the build needs.
    pub fn allows_unstable(&self) -> (r: bool)
        ensures
            r == (self.rank() >= Channel::Nightly.rank()),
    {
        match self {
            Channel::Nightly | Channel::Dev => true,
            _ => false,
        }
    }
}

/// A compiler's semantic version. `pre_release` is set when the version
/// carries a pre-release tag (`1.56.0-nightly`), which orders it below the
/// plain release of the same numbers.
#[derive(Clone, Copy, Debug, PartialEq, Eq, Structural)]
pub struct SemVer {
    pub major: u64,
    pub minor: u64,
    pub patch: u64,
    pub pre_release: bool,
}

/// What the compiler reports about itself.
pub struct RustcInfo {
    pub version: SemVer,
    pub channel: Channel,
    /// The commit date as the compiler prints it, when it prints one.
    pub commit_date: Option<String>,
}

/// Why a compiler is turned away.
#[derive(Clone, Copy, Debug, PartialEq, Eq, Structural)]
pub enum ToolchainError {
    /// Stable or beta: the unstable flags are missing there.
    NotNightly,
    /// Older than the minimum version or the minimum commit date.
    TooOld,
    /// The reported commit date is not in `YYYY-MM-DD` form.
    BadCommitDate,
}

pub const MINIMUM_MAJOR: u64 = 1;

pub const MINIMUM_MINOR: u64 = 56;

pub const MINIMUM_PATCH: u64 = 0;

pub open spec fn minimum_commit_date() -> CommitDate {
    CommitDate { year: 2021, month: 10, day: 1 }
}

/// The oldest commit date the build supports.
pub fn minimum_date() -> (r: CommitDate)
    ensures
        r == minimum_commit_date(),
{
    CommitDate { year: 2021, month: 10, day: 1 }
}

/// Semantic-version precedence against the plain release
/// `MINIMUM_MAJOR.MINIMUM_MINOR.MINIMUM_PATCH`.
pub open spec fn meets_minimum_version(v: SemVer) -> bool {
    if v.major != MINIMUM_MAJOR {
        v.major > MINIMUM_MAJOR
    } else if v.minor != MINIMUM_MINOR {
        v.minor > MINIMUM_MINOR
    } else if v.patch != MINIMUM_PATCH {
        v.patch > MINIMUM_PATCH
    } else {
        !v.pre_release
    }
}

/// The verdict on a version, a channel and an optional commit date.
pub open spec fn toolchain_verdict(v: SemVer, channel: Channel, date: Option<Seq<char>>) -> Result<
    (),
    ToolchainError,
> {
    if channel.rank() < Channel::Nightly.rank() {
        Err(ToolchainError::NotNightly)
    } else if date.is_some() && !is_date_text(date.unwrap()) {
        Err(ToolchainError::BadCommitDate)
    } else if !meets_minimum_version(v) || (date.is_some() && date_of_text(date.unwrap()).earlier(
        minimum_commit_date(),
    )) {
        Err(ToolchainError::TooOld)
    } else {
        Ok(())
    }
}

impl RustcInfo {
    pub open spec fn verdict(&self) -> Result<(), ToolchainError> {
        toolchain_verdict(self.version, self.channel, opt_text(self.commit_date))
    }
}

/// Whether `v` is at least the minimum supported compiler version.
pub fn version_meets_minimum(v: &SemVer) -> (r: bool)
    ensures
        r == meets_minimum_version(*v),
{
    if v.major != MINIMUM_MAJOR {
        v.major > MINIMUM_MAJOR
    } else if v.minor != MINIMUM_MINOR {
        v.minor > MINIMUM_MINOR
    } else if v.patch != MINIMUM_PATCH {
        v.patch > MINIMUM_PATCH
    } else {
        !v.pre_release
    }
}

/// Accepts a nightly (or dev) compiler no older than the minimum version and,
/// when it reports one, the minimum commit date.
pub fn check_rust_version(info: &RustcInfo) -> (r: Result<(), ToolchainError>)
    ensures
        r == info.verdict(),
{
    if !info.channel.allows_unstable() {
        return Err(ToolchainError::NotNightly);
    }
    let old_version = !version_meets_minimum(&info.version);
    let old_commit = match &info.commit_date {
        None => false,
        Some(text) => match CommitDate::parse(text.as_str()) {
            None => return Err(ToolchainError::BadCommitDate),
            Some(date) => date.is_earlier_than(&minimum_date()),
        },
    };
    if old_version || old_commit {
        Err(ToolchainError::TooOld)
    } else {
        Ok(())
    }
}

/// With a well-formed commit date (or none), the check lets a compiler through
/// exactly when its channel is nightly or looser, its version is at least the
/// minimum, and its commit date, if any, is not before the minimum date.
pub proof fn lemma_toolchain_accepted_exactly(v: SemVer, channel: Channel, date: Option<Seq<char>>)
    requires
        date.is_some() ==> is_date_text(date.unwrap()),
    ensures
        toolchain_verdict(v, channel, date) is Ok <==> {
            &&& channel.rank() >= Channel::Nightly.rank()
            &&& meets_minimum_version(v)
            &&& date.is_some() ==> !date_of_text(date.unwrap()).earlier(minimum_commit_date())
        },
        !(toolchain_verdict(v, channel, date) is Ok) ==> toolchain_verdict(v, channel, date) != Err::<
            (),
            ToolchainError,
        >(ToolchainError::BadCommitDate),
{
}

impl ToolchainError {
    /// The one-line explanation and the remediation hint shown to the user.
    pub fn diagnostic(&self) -> (r: (String, String))
        ensures
            *self == ToolchainError::NotNightly ==> r.0@ == "cargo-3ds requires a nightly rustc version."@
                && r.1@
                == "Please run `rustup override set nightly` to use nightly in the current directory."@,
            *self == ToolchainError::TooOld ==> r.0@ == "cargo-3ds requires rustc nightly version >= "@
                + minimum_commit_date().text() && r.1@
                == "Please run `rustup update nightly` to upgrade your nightly version"@,
            *self == ToolchainError::BadCommitDate ==> r.0@
                == "could not parse `rustc --version` commit date"@ && r.1@
                == "Please run `rustup update nightly` to upgrade your nightly version"@,
    {
        match self {
            ToolchainError::NotNightly => (
                String::from_str("cargo-3ds requires a nightly rustc version."),
                String::from_str(
                    "Please run `rustup override set nightly` to use nightly in the current directory.",
                ),
            ),
            ToolchainError::TooOld => {
                let line = String::from_str("cargo-3ds requires rustc nightly version >= ");
                let date = minimum_date().to_string();
                (
                    line.concat(date.as_str()),
                    String::from_str(
                        "Please run `rustup update nightly` to upgrade your nightly version",
                    ),
                )
            },
            ToolchainError::BadCommitDate => (
                String::from_str("could not parse `rustc --version` commit date"),
                String::from_str(
                    "Please run `rustup update nightly` to upgrade your nightly version",
                ),
            ),
        }
    }
}

} // verus!
