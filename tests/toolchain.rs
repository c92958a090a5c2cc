use cargo_3ds::toolchain::{check_rust_version, version_meets_minimum, Channel, ToolchainError, RustcInfo, SemVer};

fn semver(major: u64, minor: u64, patch: u64, pre_release: bool) -> SemVer {
    SemVer { major, minor, patch, pre_release }
}

fn info(channel: Channel, version: SemVer, date: Option<&str>) -> RustcInfo {
    RustcInfo { version, channel, commit_date: date.map(String::from) }
}

#[test]
fn nightly_meeting_floor_passes() {
    let i = info(Channel::Nightly, semver(1, 58, 0, true), Some("2021-11-20"));
    assert_eq!(check_rust_version(&i), Ok(()));
    let i = info(Channel::Dev, semver(1, 56, 1, false), None);
    assert_eq!(check_rust_version(&i), Ok(()));
    let i = info(Channel::Nightly, semver(1, 56, 0, false), Some("2021-10-01"));
    assert_eq!(check_rust_version(&i), Ok(()));
}

#[test]
fn stable_compiler_rejected() {
    let i = info(Channel::Stable, semver(1, 70, 0, false), Some("2023-06-01"));
    let e = check_rust_version(&i).unwrap_err();
    assert_eq!(e, ToolchainError::NotNightly);
    let (line, hint) = e.diagnostic();
    assert_eq!(line, "cargo-3ds requires a nightly rustc version.");
    assert!(hint.contains("rustup override set nightly"));
}

#[test]
fn beta_compiler_rejected() {
    let i = info(Channel::Beta, semver(1, 70, 0, false), None);
    assert_eq!(check_rust_version(&i), Err(ToolchainError::NotNightly));
}

#[test]
fn old_version_rejected() {
    let i = info(Channel::Nightly, semver(1, 55, 9, false), Some("2021-12-01"));
    let e = check_rust_version(&i).unwrap_err();
    assert_eq!(e, ToolchainError::TooOld);
    let (line, hint) = e.diagnostic();
    assert_eq!(line, "cargo-3ds requires rustc nightly version >= 2021-10-01");
    assert!(hint.contains("rustup update nightly"));
    let i = info(Channel::Nightly, semver(0, 99, 0, false), None);
    assert_eq!(check_rust_version(&i), Err(ToolchainError::TooOld));
}

#[test]
fn old_commit_date_rejected() {
    let i = info(Channel::Nightly, semver(1, 57, 0, false), Some("2021-09-30"));
    assert_eq!(check_rust_version(&i), Err(ToolchainError::TooOld));
}

#[test]
fn malformed_commit_date_rejected() {
    let i = info(Channel::Nightly, semver(1, 57, 0, false), Some("2021-9-30"));
    assert_eq!(check_rust_version(&i), Err(ToolchainError::BadCommitDate));
}

#[test]
fn prerelease_of_minimum_is_below_it() {
    assert!(!version_meets_minimum(&semver(1, 56, 0, true)));
    assert!(version_meets_minimum(&semver(1, 56, 0, false)));
    assert!(version_meets_minimum(&semver(2, 0, 0, true)));
    assert!(!version_meets_minimum(&semver(1, 55, 100, false)));
}
