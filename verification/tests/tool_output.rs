use rarog::bench::{
    BenchAction, BenchEvent, WaitNext, bench_outcome, bench_step, is_profraw_file,
    merge_failure_message, wait_step,
};
use rarog::hce::{ABI_VERSION, REJECTED_SCORE, Side, hce_input_side, rarog_hce_abi_version};
use rarog::lines::{find_rustup_llvm_profdata, host_triple, package_version, trim, trim_quotes};

#[test]
fn host_triple_is_read_from_rustc_version_output() {
    let out = "rustc 1.80.0 (051478957 2024-07-21)\nbinary: rustc\ncommit-hash: 0514\nhost: x86_64-unknown-linux-gnu\nrelease: 1.80.0\n";
    assert_eq!(host_triple(out), Ok("x86_64-unknown-linux-gnu".to_string()));
    assert_eq!(
        host_triple("rustc 1.80.0\r\nhost: aarch64-pc-windows-msvc\r\nrelease: 1.80.0\r\n"),
        Ok("aarch64-pc-windows-msvc".to_string())
    );
    assert_eq!(host_triple("  host: x86_64-apple-darwin  \n"), Ok("x86_64-apple-darwin".to_string()));
    assert_eq!(host_triple("rustc 1.80.0\n"), Err("failed to parse rustc host triple".to_string()));
    assert_eq!(host_triple(""), Err("failed to parse rustc host triple".to_string()));
    assert_eq!(host_triple("x host: y"), Err("failed to parse rustc host triple".to_string()));
}

#[test]
fn package_version_is_the_first_version_line() {
    let manifest = "[package]\nname = \"rarog\"\n  version = \"2.3.2\"  \nedition = \"2021\"\n[dependencies]\nversion = \"9\"\n";
    assert_eq!(package_version(manifest), Ok("2.3.2".to_string()));
    assert_eq!(package_version("version = 1.0\r\n"), Ok("1.0".to_string()));
    assert_eq!(
        package_version("[package]\nname = \"rarog\"\n"),
        Err("failed to find package version in Cargo.toml".to_string())
    );
    assert_eq!(
        package_version("version=\"1\"\n"),
        Err("failed to find package version in Cargo.toml".to_string())
    );
}

#[test]
fn trimming_matches_the_standard_library() {
    for s in ["", "  a b  ", "\t\n x \u{3000}", "\u{85}y\u{a0}", "none", " \r\n "] {
        assert_eq!(trim(s), s.trim(), "{s:?}");
    }
    for s in ["\"1.0\"", "\"\"x\"", "plain", "\"", ""] {
        assert_eq!(trim_quotes(s), s.trim_matches('"'), "{s:?}");
    }
}

#[test]
fn rustup_keeps_llvm_profdata_under_the_sysroot() {
    assert_eq!(
        find_rustup_llvm_profdata("/home/u/.rustup/toolchains/stable\n", "x86_64-unknown-linux-gnu", false),
        vec![
            "/home/u/.rustup/toolchains/stable".to_string(),
            "lib".to_string(),
            "rustlib".to_string(),
            "x86_64-unknown-linux-gnu".to_string(),
            "bin".to_string(),
            "llvm-profdata".to_string(),
        ]
    );
    let win = find_rustup_llvm_profdata("C:\\rust", "x86_64-pc-windows-msvc", true);
    assert_eq!(win.last().unwrap(), "llvm-profdata.exe");
}

#[test]
fn training_bench_events_are_judged() {
    let mut saw = false;
    assert_eq!(bench_step(&mut saw, BenchEvent::Line("info depth 3".to_string())), BenchAction::Continue);
    assert!(!saw);
    assert_eq!(
        bench_step(&mut saw, BenchEvent::Line("position 4: failed to parse FEN".to_string())),
        BenchAction::Fail {
            kill: true,
            msg: "PGO training hit an illegal bench position: position 4: failed to parse FEN"
                .to_string()
        }
    );
    assert_eq!(
        bench_step(&mut saw, BenchEvent::Line("more than 8 pawns".to_string())),
        BenchAction::Fail {
            kill: true,
            msg: "PGO training hit an illegal bench position: more than 8 pawns".to_string()
        }
    );
    assert_eq!(
        bench_step(&mut saw, BenchEvent::Line("Nodes/second: 1234567".to_string())),
        BenchAction::Finish
    );
    assert!(saw);
    assert_eq!(
        bench_step(&mut saw, BenchEvent::DeadlinePassed),
        BenchAction::Fail { kill: true, msg: "training bench timed out after 1200 seconds".to_string() }
    );
    assert_eq!(
        bench_step(&mut saw, BenchEvent::ReadFailed("broken pipe".to_string())),
        BenchAction::Fail { kill: true, msg: "failed reading engine output: broken pipe".to_string() }
    );
    assert_eq!(bench_step(&mut saw, BenchEvent::Quiet { exited: None }), BenchAction::Continue);
    assert_eq!(
        bench_step(&mut saw, BenchEvent::Quiet { exited: Some((true, "exit status: 0".to_string())) }),
        BenchAction::Finish
    );
    assert_eq!(
        bench_step(&mut saw, BenchEvent::Quiet { exited: Some((false, "exit status: 3".to_string())) }),
        BenchAction::Fail { kill: false, msg: "training bench exited with status exit status: 3".to_string() }
    );
    assert_eq!(bench_step(&mut saw, BenchEvent::Disconnected), BenchAction::Finish);
}

#[test]
fn a_training_run_needs_a_clean_exit_and_a_summary() {
    assert_eq!(bench_outcome(true, true, "exit status: 0"), Ok(()));
    assert_eq!(
        bench_outcome(false, true, "exit status: 0"),
        Err("training bench did not produce a bench summary".to_string())
    );
    assert_eq!(
        bench_outcome(true, false, "exit status: 1"),
        Err("training bench exited with status exit status: 1".to_string())
    );
}

#[test]
fn raw_profiles_are_found_by_extension() {
    assert!(is_profraw_file("rarog-123-456.profraw"));
    assert!(is_profraw_file(".hidden.profraw"));
    assert!(!is_profraw_file(".profraw"));
    assert!(!is_profraw_file("profraw"));
    assert!(!is_profraw_file("a.profraw.tmp"));
    assert!(!is_profraw_file("a.PROFRAW"));
    for name in ["x.profraw", ".profraw", "a.b.profraw", "noext", "a.", ".", ""] {
        let std_says = std::path::Path::new(name).extension().map_or(false, |e| e == "profraw");
        assert_eq!(is_profraw_file(name), std_says, "{name}");
    }
}

#[test]
fn merge_failures_carry_the_target_hint() {
    assert_eq!(
        merge_failure_message("exit status: 1", "x86_64-unknown-linux-gnu"),
        "llvm-profdata merge failed with status exit status: 1"
    );
    let msg = merge_failure_message("exit status: 1", "aarch64-pc-windows-msvc");
    assert!(msg.starts_with("llvm-profdata merge failed with status exit status: 1\n\nnote: PGO"));
    assert!(msg.contains("`aarch64-pc-windows-msvc`"));
}

#[test]
fn evaluation_adapter_handshake_and_input_checks() {
    assert_eq!(rarog_hce_abi_version(), 1);
    assert_eq!(ABI_VERSION, 1);
    assert_eq!(hce_input_side(true, 0), Ok(Side::White));
    assert_eq!(hce_input_side(true, 1), Ok(Side::Black));
    assert_eq!(hce_input_side(true, 2), Err(REJECTED_SCORE));
    assert_eq!(hce_input_side(false, 0), Err(i32::MIN));
}

#[test]
fn line_reading_agrees_with_the_standard_library() {
    let inputs = [
        "a\nhost: x\n",
        "host: \n",
        "\n\nhost: y\r\nhost: z",
        "host: w\r",
        "lead\rhost: v\n",
        "  version = \"1\"\nversion = \"2\"",
        "version = \"\"\"3\"\"\"\r\n",
        "\r\n\r\n",
        "x\n\u{2028}version = 4 \u{3000}\n",
    ];
    for input in inputs {
        let expected_host = input
            .trim()
            .lines()
            .find_map(|line| line.strip_prefix("host: ").map(str::to_string))
            .ok_or_else(|| "failed to parse rustc host triple".to_string());
        assert_eq!(host_triple(input), expected_host, "{input:?}");
        let expected_version = input
            .lines()
            .find_map(|line| {
                line.trim()
                    .strip_prefix("version = ")
                    .map(|v| v.trim_matches('"').to_string())
            })
            .ok_or_else(|| "failed to find package version in Cargo.toml".to_string());
        assert_eq!(package_version(input), expected_version, "{input:?}");
    }
}

#[test]
fn waiting_for_exit_takes_an_exit_even_at_the_deadline() {
    assert_eq!(wait_step(Some(0), false), WaitNext::Exited(0));
    assert_eq!(wait_step(Some(3), true), WaitNext::Exited(3));
    assert_eq!(wait_step(None::<u8>, true), WaitNext::KillAndWait);
    assert_eq!(wait_step(None::<u8>, false), WaitNext::Sleep);
}
