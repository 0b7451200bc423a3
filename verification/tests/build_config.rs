use rarog::cli::{Config, Invocation, parse_args, parse_u16};
use rarog::plan::{
    BuildStep, LlvmProfdataNext, RustTargetNext, build_banner, dist_binary_check,
    encoded_rustflags, llvm_profdata_after_install, llvm_profdata_next, merge_inputs_check,
    render_path, require_host_target, run, rust_target_next, rust_target_result,
};
use rarog::release::{
    Arch, arch_arg_name, asset_arch_name, asset_name, binary_path, default_arch, default_target,
    ensure_arch_target_pair, ensure_native_is_buildable, exe_suffix, os_name,
    pext_build_is_supported, program_file_names, sanitize, target_dir, tool_name,
};

fn strings(items: &[&str]) -> Vec<String> {
    items.iter().map(|s| s.to_string()).collect()
}

#[test]
fn names_of_each_arch() {
    assert_eq!(arch_arg_name(Arch::Base), "base");
    assert_eq!(arch_arg_name(Arch::Arm64), "arm64");
    assert_eq!(asset_arch_name(Arch::Base), "x86-64");
    assert_eq!(asset_arch_name(Arch::Avx2), "avx2");
}

#[test]
fn target_triples_name_os_and_suffix() {
    assert_eq!(os_name("x86_64-pc-windows-msvc"), "windows");
    assert_eq!(os_name("aarch64-apple-darwin"), "macos");
    assert_eq!(os_name("x86_64-unknown-linux-gnu"), "linux");
    assert_eq!(exe_suffix("aarch64-pc-windows-msvc"), ".exe");
    assert_eq!(exe_suffix("aarch64-apple-darwin"), "");
    assert_eq!(tool_name("llvm-profdata", true), "llvm-profdata.exe");
    assert_eq!(tool_name("llvm-profdata", false), "llvm-profdata");
}

#[test]
fn sanitize_replaces_everything_but_ascii_alphanumerics() {
    assert_eq!(sanitize("x86_64-pc-windows-msvc"), "x86-64-pc-windows-msvc");
    assert_eq!(sanitize("a.b/c\u{e9}9"), "a-b-c-9");
    assert_eq!(sanitize(""), "");
}

#[test]
fn directories_and_asset_names_are_exact() {
    let dir = target_dir("pgo-gen", Arch::Pext, true, "x86_64-pc-windows-msvc");
    assert_eq!(dir, strings(&["target", "xtask", "pgo-gen-x86-64-pc-windows-msvc-pext-native"]));
    assert_eq!(
        binary_path(&dir, "x86_64-pc-windows-msvc"),
        strings(&[
            "target",
            "xtask",
            "pgo-gen-x86-64-pc-windows-msvc-pext-native",
            "x86_64-pc-windows-msvc",
            "release",
            "rarog.exe"
        ])
    );
    assert_eq!(
        asset_name(Arch::Pext, true, "x86_64-pc-windows-msvc", true, "2.3.2"),
        "rarog-v2.3.2-windows-pext-native-pgo.exe"
    );
    assert_eq!(
        asset_name(Arch::Base, false, "x86_64-unknown-linux-gnu", false, "2.3.2"),
        "rarog-v2.3.2-linux-x86-64"
    );
    assert_eq!(render_path(&strings(&["target", "pgo", "raw"]), '/'), "target/pgo/raw");
    assert_eq!(render_path(&strings(&["target", "pgo"]), '\\'), "target\\pgo");
    assert_eq!(render_path(&strings(&[]), '/'), "");
}

#[test]
fn defaults_follow_the_host() {
    assert_eq!(default_arch("aarch64-apple-darwin"), Arch::Arm64);
    assert_eq!(default_arch("x86_64-unknown-linux-gnu"), Arch::Base);
    assert_eq!(default_arch(""), Arch::Base);
    assert_eq!(default_target(Arch::Arm64, "x86_64-pc-windows-msvc"), "aarch64-pc-windows-msvc");
    assert_eq!(default_target(Arch::Avx2, "aarch64-apple-darwin"), "x86_64-apple-darwin");
    assert_eq!(default_target(Arch::Base, ""), "x86_64-unknown-linux-gnu");
    assert_eq!(
        default_target(Arch::Arm64, "aarch64-unknown-linux-gnu"),
        "aarch64-unknown-linux-gnu"
    );
}

#[test]
fn mismatched_arch_and_target_are_explained() {
    assert_eq!(
        ensure_arch_target_pair(Arch::Avx2, "aarch64-apple-darwin"),
        Err("`--arch avx2` requires an x86_64 target, got `aarch64-apple-darwin`".to_string())
    );
    assert_eq!(
        ensure_arch_target_pair(Arch::Arm64, "x86_64-pc-windows-msvc"),
        Err("`--arch arm64` requires an aarch64 target, got `x86_64-pc-windows-msvc`".to_string())
    );
}

#[test]
fn native_pext_for_a_host_without_bmi2_is_refused() {
    let host = "x86_64-unknown-linux-gnu";
    let err = ensure_native_is_buildable(Arch::Pext, true, host, host, false).unwrap_err();
    assert!(err.starts_with("`--arch pext --native` needs BMI2"), "{err}");
    assert!(ensure_native_is_buildable(Arch::Pext, true, host, host, true).is_ok());
    assert!(pext_build_is_supported(false, false));
    assert!(pext_build_is_supported(true, true));
    assert!(!pext_build_is_supported(true, false));
}

#[test]
fn bench_depth_is_a_decimal_u16() {
    assert_eq!(parse_u16("13"), Some(13));
    assert_eq!(parse_u16("+7"), Some(7));
    assert_eq!(parse_u16("0065535"), Some(65535));
    assert_eq!(parse_u16("65536"), None);
    assert_eq!(parse_u16("99999999999"), None);
    assert_eq!(parse_u16(""), None);
    assert_eq!(parse_u16("+"), None);
    assert_eq!(parse_u16("-1"), None);
    assert_eq!(parse_u16("1a"), None);
    assert_eq!(parse_u16(" 1"), None);
    for s in ["0", "1", "255", "65535", "+12", "x", "", "70000", "-0"] {
        assert_eq!(parse_u16(s), s.parse::<u16>().ok(), "{s}");
    }
}

fn config(arch: Arch, native: bool, target: &str, pgo: bool, depth: u16) -> Config {
    Config { arch, native, target: target.to_string(), pgo, bench_depth: depth }
}

#[test]
fn command_lines_parse_as_documented() {
    let host = "x86_64-unknown-linux-gnu";
    let p = parse_args(&strings(&[]), host, true);
    assert_eq!(p.legacy_native_notes, 0);
    assert_eq!(p.result, Ok(Invocation::Build(config(Arch::Base, false, host, false, 13))));

    let p = parse_args(&strings(&["help"]), host, true);
    assert_eq!(p.result, Ok(Invocation::Help));
    let p = parse_args(&strings(&["build", "--pgo", "-h"]), host, true);
    assert_eq!(p.result, Ok(Invocation::Help));

    let p = parse_args(&strings(&["bogus"]), host, true);
    assert_eq!(
        p.result,
        Err("unknown command `bogus`; expected `build`. Run `cargo xtask help`.".to_string())
    );

    let p = parse_args(
        &strings(&["build", "--arch", "ARM64", "--target", "aarch64-apple-darwin", "--pgo"]),
        host,
        true,
    );
    assert_eq!(
        p.result,
        Ok(Invocation::Build(config(Arch::Arm64, false, "aarch64-apple-darwin", true, 13)))
    );

    let p = parse_args(&strings(&["build", "-a", "Native", "--bench-depth", "9"]), host, true);
    assert_eq!(p.legacy_native_notes, 1);
    assert_eq!(p.result, Ok(Invocation::Build(config(Arch::Pext, true, host, false, 9))));

    let p = parse_args(&strings(&["build", "--arch", "native"]), host, false);
    assert_eq!(p.legacy_native_notes, 1);
    assert!(p.result.unwrap_err().contains("needs BMI2"));

    let p = parse_args(&strings(&["build", "--arch"]), host, true);
    assert_eq!(p.result, Err("`--arch` requires a value".to_string()));
    let p = parse_args(&strings(&["build", "-t"]), host, true);
    assert_eq!(p.result, Err("`--target` requires a value".to_string()));
    let p = parse_args(&strings(&["build", "--bench-depth", "deep"]), host, true);
    assert_eq!(p.result, Err("invalid bench depth `deep`".to_string()));
    let p = parse_args(&strings(&["build", "--arch", "mips"]), host, true);
    assert_eq!(
        p.result,
        Err("unknown arch `mips`; expected base, avx2, pext, or arm64".to_string())
    );
    let p = parse_args(&strings(&["build", "--frob"]), host, true);
    assert_eq!(p.result, Err("unknown argument `--frob`".to_string()));

    let p = parse_args(&strings(&["build", "--native"]), "aarch64-apple-darwin", true);
    assert_eq!(
        p.result,
        Ok(Invocation::Build(config(Arch::Arm64, true, "aarch64-apple-darwin", false, 13)))
    );
}

#[test]
fn a_plain_build_is_built_then_copied() {
    let steps = run(&config(Arch::Avx2, false, "x86_64-unknown-linux-gnu", false, 13), '/').unwrap();
    let dir = strings(&["target", "xtask", "release-x86-64-unknown-linux-gnu-avx2"]);
    let mut binary = dir.clone();
    binary.extend(strings(&["x86_64-unknown-linux-gnu", "release", "rarog"]));
    assert_eq!(
        steps,
        vec![
            BuildStep::EnsureRustTarget { target: "x86_64-unknown-linux-gnu".to_string() },
            BuildStep::CargoBuild {
                target: "x86_64-unknown-linux-gnu".to_string(),
                arch: Arch::Avx2,
                dir,
                flags: strings(&["-C", "target-cpu=x86-64-v3"]),
                with_profile: false,
            },
            BuildStep::CopyDist {
                binary,
                arch: Arch::Avx2,
                native: false,
                target: "x86_64-unknown-linux-gnu".to_string(),
                pgo: false,
            },
        ]
    );
}

#[test]
fn a_pgo_build_instruments_trains_merges_and_rebuilds() {
    let target = "x86_64-unknown-linux-gnu";
    let steps = run(&config(Arch::Pext, true, target, true, 11), '/').unwrap();
    assert_eq!(steps.len(), 9);
    assert_eq!(steps[1], BuildStep::RequireHostTarget { target: target.to_string() });
    assert_eq!(steps[2], BuildStep::EnsureLlvmProfdata);
    let raw = strings(&["target", "pgo", "x86-64-unknown-linux-gnu", "pext-native", "raw"]);
    assert_eq!(steps[3], BuildStep::ResetDir { dir: raw.clone() });
    match &steps[4] {
        BuildStep::CargoBuild { flags, with_profile, dir, .. } => {
            assert!(with_profile);
            assert_eq!(dir[2], "pgo-gen-x86-64-unknown-linux-gnu-pext-native");
            assert_eq!(
                *flags,
                strings(&[
                    "-C",
                    "profile-generate=target/pgo/x86-64-unknown-linux-gnu/pext-native/raw",
                    "--cfg",
                    "rarog_pext",
                    "-C",
                    "target-cpu=native",
                    "-C",
                    "target-feature=+bmi2",
                ])
            );
        },
        other => panic!("unexpected step {other:?}"),
    }
    match &steps[5] {
        BuildStep::TrainingBench { depth, raw_dir, binary } => {
            assert_eq!(*depth, 11);
            assert_eq!(*raw_dir, raw);
            assert_eq!(binary.last().unwrap(), "rarog");
        },
        other => panic!("unexpected step {other:?}"),
    }
    match &steps[7] {
        BuildStep::CargoBuild { flags, .. } => {
            assert_eq!(
                flags[1],
                "profile-use=target/pgo/x86-64-unknown-linux-gnu/pext-native/rarog.profdata"
            );
        },
        other => panic!("unexpected step {other:?}"),
    }
    match &steps[8] {
        BuildStep::CopyDist { pgo, native, .. } => assert!(*pgo && *native),
        other => panic!("unexpected step {other:?}"),
    }
}

#[test]
fn a_plan_for_a_mismatched_target_is_refused() {
    let res = run(&config(Arch::Arm64, false, "x86_64-unknown-linux-gnu", false, 13), '/');
    assert_eq!(
        res,
        Err("`--arch arm64` requires an aarch64 target, got `x86_64-unknown-linux-gnu`".to_string())
    );
}

#[test]
fn cargo_receives_encoded_flags_and_a_banner() {
    assert_eq!(
        encoded_rustflags(&strings(&["-C", "target-cpu=native"])),
        "-C\x1ftarget-cpu=native"
    );
    assert_eq!(encoded_rustflags(&strings(&[])), "");
    let flags = strings(&["--cfg", "rarog_pext", "-C", "x y"]);
    assert_eq!(encoded_rustflags(&flags), flags.join("\x1f"));
    assert_eq!(
        build_banner(Arch::Base, "x86_64-unknown-linux-gnu", false),
        "Building Rarog x86-64 for x86_64-unknown-linux-gnu"
    );
    assert_eq!(
        build_banner(Arch::Pext, "x86_64-pc-windows-msvc", true),
        "Building Rarog pext for x86_64-pc-windows-msvc with PGO flags"
    );
}

#[test]
fn programs_are_looked_up_with_the_windows_suffix() {
    assert_eq!(program_file_names("rustup", false), strings(&["rustup"]));
    assert_eq!(program_file_names("rustup", true), strings(&["rustup", "rustup.exe"]));
    assert_eq!(program_file_names("rustup.exe", true), strings(&["rustup.exe"]));
}

#[test]
fn step_outcomes_of_the_build_helper() {
    let host = "x86_64-unknown-linux-gnu";
    assert_eq!(require_host_target(host, host), Ok(()));
    assert_eq!(
        require_host_target("aarch64-apple-darwin", host),
        Err("PGO training must run the instrumented binary locally, so target `aarch64-apple-darwin` must match host `x86_64-unknown-linux-gnu`".to_string())
    );
    assert_eq!(
        rust_target_next(host, false),
        RustTargetNext::Warn(
            "rustup not found; if `x86_64-unknown-linux-gnu` is not installed, run `rustup target add x86_64-unknown-linux-gnu`.".to_string()
        )
    );
    assert_eq!(rust_target_next(host, true), RustTargetNext::RunRustup);
    assert_eq!(rust_target_result(host, true), Ok(()));
    assert_eq!(
        rust_target_result(host, false),
        Err("failed to install target `x86_64-unknown-linux-gnu`; run `rustup target add x86_64-unknown-linux-gnu` manually".to_string())
    );
    assert_eq!(llvm_profdata_next(Some(7), false), LlvmProfdataNext::UseFound(7));
    assert_eq!(llvm_profdata_next(None::<u8>, true), LlvmProfdataNext::Install);
    assert_eq!(
        llvm_profdata_next(None::<u8>, false),
        LlvmProfdataNext::Fail("llvm-profdata was not found. Install it with `rustup component add llvm-tools-preview` or add LLVM's bin directory to PATH.".to_string())
    );
    assert_eq!(llvm_profdata_after_install(true, Some(3)), Ok(3));
    assert_eq!(
        llvm_profdata_after_install(false, Some(3)),
        Err("failed to install llvm-tools-preview; run `rustup component add llvm-tools-preview` manually".to_string())
    );
    assert_eq!(
        llvm_profdata_after_install(true, None::<u8>),
        Err("llvm-profdata was still not found after installing llvm-tools-preview".to_string())
    );
    assert_eq!(merge_inputs_check(2, "target/pgo/raw"), Ok(()));
    assert_eq!(
        merge_inputs_check(0, "target/pgo/raw"),
        Err("no .profraw files found in `target/pgo/raw`".to_string())
    );
    assert_eq!(dist_binary_check(true, "x/rarog"), Ok(()));
    assert_eq!(
        dist_binary_check(false, "x/rarog"),
        Err("expected binary `x/rarog` does not exist".to_string())
    );
}

#[test]
fn defaulted_targets_suit_the_arch_and_keep_the_host_os() {
    for host in [
        "x86_64-pc-windows-msvc",
        "aarch64-apple-darwin",
        "x86_64-unknown-linux-gnu",
        "",
        "riscv64gc-unknown-freebsd",
    ] {
        for arch in [Arch::Base, Arch::Avx2, Arch::Pext, Arch::Arm64] {
            let target = default_target(arch, host);
            assert!(ensure_arch_target_pair(arch, &target).is_ok(), "{arch:?} {host}");
            assert_eq!(os_name(&target), os_name(host), "{arch:?} {host}");
        }
    }
}
