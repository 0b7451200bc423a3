use rarog::cli::parse_arch;
use rarog::plan::profile_flags;
use rarog::release::{
    Arch, asset_name, ensure_arch_target_pair, ensure_native_is_buildable, flavour_name,
    pgo_merge_hint, rustflags, target_dir,
};

/// A host that reports no BMI2: the worst case for the BMI2 guard.
const HOST: &str = "x86_64-unknown-linux-gnu";
const VERSION: &str = "2.3.2";

fn flags(arch: Arch, native: bool) -> String {
    rustflags(arch, native).join(" ")
}

#[test]
fn native_is_orthogonal_to_arch() {
    for arch in [Arch::Base, Arch::Avx2, Arch::Arm64] {
        for native in [false, true] {
            let f = flags(arch, native);
            assert!(
                !f.contains("rarog_pext"),
                "{arch:?} native={native} must not enable the PEXT source path: {f}"
            );
            assert!(!f.contains("bmi2"), "{arch:?} native={native} must not require BMI2: {f}");
        }
    }
    for arch in [Arch::Base, Arch::Avx2, Arch::Pext, Arch::Arm64] {
        assert!(
            flags(arch, true).contains("target-cpu=native"),
            "{arch:?} --native must target the host CPU"
        );
        assert!(
            !flags(arch, false).contains("target-cpu=native"),
            "{arch:?} without --native must stay portable"
        );
    }
}

#[test]
fn portable_baselines_are_pinned() {
    assert_eq!(flags(Arch::Base, false), "-C target-cpu=x86-64");
    assert_eq!(flags(Arch::Avx2, false), "-C target-cpu=x86-64-v3");
    assert_eq!(
        flags(Arch::Pext, false),
        "--cfg rarog_pext -C target-cpu=x86-64-v3 -C target-feature=+bmi2"
    );
    assert_eq!(flags(Arch::Arm64, false), "-C target-cpu=generic");
}

#[test]
fn pext_requires_bmi2_even_when_native() {
    let f = flags(Arch::Pext, true);
    assert!(f.contains("--cfg rarog_pext"), "{f}");
    assert!(f.contains("target-feature=+bmi2"), "{f}");
    assert!(f.contains("target-cpu=native"), "{f}");
}

#[test]
fn pgo_merge_hint_fires_only_for_windows_arm64() {
    let hint = pgo_merge_hint("aarch64-pc-windows-msvc");
    assert!(
        hint.contains("known toolchain limitation") && hint.contains("--pgo"),
        "windows-arm64 merge failure must explain itself: {hint}"
    );
    for target in [
        "aarch64-apple-darwin",
        "aarch64-unknown-linux-gnu",
        "x86_64-pc-windows-msvc",
        "x86_64-unknown-linux-gnu",
    ] {
        assert!(
            pgo_merge_hint(target).is_empty(),
            "{target} has working PGO and must not claim otherwise"
        );
    }
}

#[test]
fn pgo_flags_compose_with_every_flavour() {
    for arch in [Arch::Base, Arch::Avx2, Arch::Pext, Arch::Arm64] {
        for native in [false, true] {
            for phase in ["profile-generate=/tmp/raw", "profile-use=/tmp/x.profdata"] {
                let mut composed = vec!["-C".to_string(), phase.to_string()];
                composed.extend(rustflags(arch, native));
                let joined = composed.join(" ");
                assert!(joined.contains(phase), "{joined}");
                for flag in rustflags(arch, native) {
                    assert!(
                        joined.contains(&flag),
                        "PGO composition dropped `{flag}` for {arch:?} native={native}"
                    );
                }
                assert_eq!(profile_flags(phase.to_string(), arch, native), composed);
            }
        }
    }
}

#[test]
fn native_builds_are_tagged_everywhere() {
    let portable = asset_name(Arch::Pext, false, "x86_64-pc-windows-msvc", true, VERSION);
    let native = asset_name(Arch::Pext, true, "x86_64-pc-windows-msvc", true, VERSION);
    assert!(!portable.contains("native"), "{portable}");
    assert!(native.contains("-native"), "{native}");
    assert!(portable.ends_with("-pgo.exe") && native.ends_with("-pgo.exe"));
    assert_ne!(portable, native);

    assert_eq!(flavour_name(Arch::Pext, false), "pext");
    assert_eq!(flavour_name(Arch::Pext, true), "pext-native");
    assert_ne!(
        target_dir("pgo-gen", Arch::Pext, false, "x86_64-pc-windows-msvc"),
        target_dir("pgo-gen", Arch::Pext, true, "x86_64-pc-windows-msvc"),
        "native and portable PGO builds must not share an intermediate dir"
    );
}

#[test]
fn native_is_not_an_arch() {
    assert!(parse_arch("native").is_err());
    assert_eq!(parse_arch("pext").unwrap(), Arch::Pext);
    assert_eq!(parse_arch("bmi2").unwrap(), Arch::Pext);
    assert_eq!(parse_arch("x86-64").unwrap(), Arch::Base);
    assert_eq!(parse_arch("aarch64").unwrap(), Arch::Arm64);
}

#[test]
fn arch_and_target_must_agree() {
    assert!(ensure_arch_target_pair(Arch::Pext, "x86_64-pc-windows-msvc").is_ok());
    assert!(ensure_arch_target_pair(Arch::Pext, "aarch64-apple-darwin").is_err());
    assert!(ensure_arch_target_pair(Arch::Arm64, "aarch64-apple-darwin").is_ok());
    assert!(ensure_arch_target_pair(Arch::Arm64, "x86_64-unknown-linux-gnu").is_err());
}

#[test]
fn bmi2_guard_only_fires_for_native_pext_on_host() {
    assert!(
        ensure_native_is_buildable(Arch::Pext, false, "x86_64-pc-windows-msvc", HOST, false)
            .is_ok()
    );
    assert!(
        ensure_native_is_buildable(Arch::Base, true, "x86_64-pc-windows-msvc", HOST, false).is_ok()
    );
    assert!(
        ensure_native_is_buildable(Arch::Avx2, true, "x86_64-pc-windows-msvc", HOST, false).is_ok()
    );
    assert!(ensure_native_is_buildable(Arch::Pext, true, "some-other-triple", HOST, false).is_ok());
    // For the host itself the guard decides by the CPU.
    assert!(ensure_native_is_buildable(Arch::Pext, true, HOST, HOST, true).is_ok());
    assert!(ensure_native_is_buildable(Arch::Pext, true, HOST, HOST, false).is_err());
}
