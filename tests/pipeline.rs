use cargo_3ds::cli::{has_release_flag, parse_command_line, str_eq, CommandLine, OptLevel, UsageError, Verb};
use cargo_3ds::config::CTRConfig;
use cargo_3ds::driver::{after_stage, first_step, Step};
use cargo_3ds::pipeline::{artifact_path, build_3dsx, build_elf, link, merge_rustflags, stages, Invocation};

const LINK_FLAGS: &str =
    "-Clink-arg=-specs=3dsx.specs -Clink-arg=-z -Clink-arg=muldefs -Clink-arg=-D__3DS__";

fn argv(items: &[&str]) -> Vec<String> {
    items.iter().map(|s| s.to_string()).collect()
}

fn hello_config(icon: &str) -> CTRConfig {
    CTRConfig {
        name: "hello".to_string(),
        author: "Ann".to_string(),
        description: "Homebrew Application".to_string(),
        icon: icon.to_string(),
    }
}

fn args_of(i: &Invocation) -> Vec<&str> {
    i.args.iter().map(|s| s.as_str()).collect()
}

/// Runs the stages with the given exit codes; returns the programs spawned and
/// the final exit status.
fn simulate(plan: &[Invocation], codes: &[Option<i32>]) -> (Vec<String>, i32) {
    let mut spawned = Vec::new();
    let mut step = first_step(plan.len());
    loop {
        match step {
            Step::Spawn(k) => {
                spawned.push(plan[k].program.clone());
                step = after_stage(k, plan.len(), codes[k]);
            }
            Step::Exit(c) => return (spawned, c),
        }
    }
}

#[test]
fn verb_build_and_link() {
    let c = parse_command_line(&argv(&["cargo", "3ds", "build"])).unwrap();
    assert_eq!(c.verb, Verb::Build);
    assert_eq!(c.opt_level, OptLevel::Debug);
    assert!(c.passthrough.is_empty());
    let c = parse_command_line(&argv(&["cargo", "3ds", "link", "--release"])).unwrap();
    assert_eq!(c.verb, Verb::BuildAndUpload);
    assert_eq!(c.opt_level, OptLevel::Release);
    assert_eq!(c.passthrough, argv(&["--release"]));
}

#[test]
fn unknown_verb_rejected() {
    let r = parse_command_line(&argv(&["cargo", "3ds", "clean"]));
    assert!(matches!(r, Err(UsageError::InvalidCommand)));
}

#[test]
fn missing_verb_rejected() {
    let r = parse_command_line(&argv(&["cargo", "3ds"]));
    assert!(matches!(r, Err(UsageError::MissingCommand)));
    let r = parse_command_line(&argv(&[]));
    assert!(matches!(r, Err(UsageError::MissingCommand)));
}

#[test]
fn release_flag_anywhere() {
    assert!(has_release_flag(&argv(&["cargo", "3ds", "build", "-p", "x", "--release"])));
    assert!(!has_release_flag(&argv(&["cargo", "3ds", "build", "--releases", "release"])));
    let c = parse_command_line(&argv(&["cargo", "3ds", "build", "--features", "a", "--release"])).unwrap();
    assert_eq!(c.opt_level, OptLevel::Release);
    assert_eq!(c.opt_level.as_str(), "release");
    assert_eq!(OptLevel::Debug.as_str(), "debug");
}

#[test]
fn str_eq_compares_characters() {
    assert!(str_eq("link", "link"));
    assert!(!str_eq("link", "lin"));
    assert!(!str_eq("link", "lank"));
    assert!(str_eq("", ""));
}

#[test]
fn passthrough_keeps_order() {
    let c = parse_command_line(&argv(&["cargo", "3ds", "build", "-p", "demo", "--release", "--features", "x"])).unwrap();
    let a = build_elf(&c, None);
    assert_eq!(a.program, "cargo");
    assert_eq!(
        args_of(&a),
        vec![
            "build", "-Z", "unstable-options", "-Z", "build-std", "--target", "armv6k-nintendo-3ds",
            "-p", "demo", "--release", "--features", "x",
        ]
    );
}

#[test]
fn rustflags_merge_appends_with_space() {
    assert_eq!(merge_rustflags(Some("-Copt-level=s".to_string())), format!("-Copt-level=s {}", LINK_FLAGS));
    assert_eq!(merge_rustflags(None), LINK_FLAGS);
    assert_eq!(merge_rustflags(Some(String::new())), format!(" {}", LINK_FLAGS));
    let c = CommandLine { verb: Verb::Build, opt_level: OptLevel::Debug, passthrough: vec![] };
    let a = build_elf(&c, Some("X".to_string()));
    assert_eq!(a.env, vec![("RUSTFLAGS".to_string(), format!("X {}", LINK_FLAGS))]);
}

#[test]
fn artifact_paths() {
    assert_eq!(artifact_path(OptLevel::Debug, "hello", "elf"), "./target/armv6k-nintendo-3ds/debug/hello.elf");
    assert_eq!(artifact_path(OptLevel::Release, "hello", "3dsx"), "./target/armv6k-nintendo-3ds/release/hello.3dsx");
}

#[test]
fn romfs_included_only_when_present() {
    let cfg = hello_config("./icon.png");
    let with = build_3dsx(&cfg, OptLevel::Release, true);
    assert!(args_of(&with[1]).contains(&"--romfs=./romfs"));
    let without = build_3dsx(&cfg, OptLevel::Release, false);
    assert!(!args_of(&without[1]).contains(&"--romfs=./romfs"));
}

#[test]
fn happy_debug_build() {
    let c = parse_command_line(&argv(&["cargo", "3ds", "build"])).unwrap();
    let cfg = hello_config("/opt/devkitpro/libctru/default_icon.png");
    let plan = stages(&c, &cfg, None, false);
    assert_eq!(plan.len(), 3);
    assert_eq!(plan[0].program, "cargo");
    assert_eq!(plan[1].program, "smdhtool");
    assert_eq!(
        args_of(&plan[1]),
        vec![
            "--create", "hello", "Homebrew Application", "Ann",
            "/opt/devkitpro/libctru/default_icon.png",
            "./target/armv6k-nintendo-3ds/debug/hello.smdh",
        ]
    );
    assert_eq!(plan[2].program, "3dsxtool");
    assert_eq!(
        args_of(&plan[2]),
        vec![
            "./target/armv6k-nintendo-3ds/debug/hello.elf",
            "./target/armv6k-nintendo-3ds/debug/hello.3dsx",
            "--smdh=./target/armv6k-nintendo-3ds/debug/hello.smdh",
        ]
    );
    let (spawned, code) = simulate(&plan, &[Some(0), Some(0), Some(0)]);
    assert_eq!(spawned, vec!["cargo", "smdhtool", "3dsxtool"]);
    assert_eq!(code, 0);
}

#[test]
fn release_build_with_icon_and_romfs() {
    let c = parse_command_line(&argv(&["cargo", "3ds", "build", "--release"])).unwrap();
    let cfg = hello_config("./icon.png");
    let plan = stages(&c, &cfg, None, true);
    assert_eq!(plan.len(), 3);
    assert_eq!(args_of(&plan[1])[4], "./icon.png");
    assert_eq!(
        args_of(&plan[2]),
        vec![
            "./target/armv6k-nintendo-3ds/release/hello.elf",
            "./target/armv6k-nintendo-3ds/release/hello.3dsx",
            "--smdh=./target/armv6k-nintendo-3ds/release/hello.smdh",
            "--romfs=./romfs",
        ]
    );
    let (_, code) = simulate(&plan, &[Some(0), Some(0), Some(0)]);
    assert_eq!(code, 0);
}

#[test]
fn build_and_upload() {
    let c = parse_command_line(&argv(&["cargo", "3ds", "link", "--release"])).unwrap();
    let cfg = hello_config("./icon.png");
    let plan = stages(&c, &cfg, None, false);
    assert_eq!(plan.len(), 4);
    assert_eq!(plan[3].program, "3dslink");
    assert_eq!(args_of(&plan[3]), vec!["./target/armv6k-nintendo-3ds/release/hello.3dsx"]);
    let up = link("hello", OptLevel::Release);
    assert_eq!(args_of(&up), args_of(&plan[3]));
    let (spawned, code) = simulate(&plan, &[Some(0), Some(0), Some(0), Some(0)]);
    assert_eq!(spawned, vec!["cargo", "smdhtool", "3dsxtool", "3dslink"]);
    assert_eq!(code, 0);
}

#[test]
fn stage_b_failure_stops_the_run() {
    let c = parse_command_line(&argv(&["cargo", "3ds", "link"])).unwrap();
    let plan = stages(&c, &hello_config("./icon.png"), None, false);
    let (spawned, code) = simulate(&plan, &[Some(0), Some(2), Some(0), Some(0)]);
    assert_eq!(spawned, vec!["cargo", "smdhtool"]);
    assert_eq!(code, 2);
}

#[test]
fn signal_killed_child_exits_one() {
    assert_eq!(after_stage(0, 3, None), Step::Exit(1));
    assert_eq!(after_stage(2, 3, Some(-3)), Step::Exit(-3));
    assert_eq!(after_stage(2, 3, Some(0)), Step::Exit(0));
    assert_eq!(after_stage(1, 3, Some(0)), Step::Spawn(2));
    assert_eq!(first_step(0), Step::Exit(0));
}
