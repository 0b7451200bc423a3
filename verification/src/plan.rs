//! The steps of a release build, from a parsed command line: a plain build
//! and copy, or the instrument / train / merge / rebuild sequence of a
//! profile-guided one. The caller performs the steps in order and stops at
//! the first that fails.
use vstd::prelude::*;
use crate::cli::Config;
use crate::release::{
    Arch, arch_target_error_spec, arch_matches_target, binary_path, binary_path_spec,
    ensure_arch_target_pair, flavour_name, flavour_name_spec, rustflags, rustflags_spec,
    sanitize, sanitize_spec, strings_view, target_dir, target_dir_spec,
};
use crate::text::{push_char, seq_join, seq_starts_with, str_equals, string_of};

verus! {

/// One step of a release build. Paths are lists of components under the
/// workspace root.
#[derive(Clone, Debug, PartialEq, Eq)]
pub enum BuildStep {
    /// Make sure the Rust standard library for the target is installed.
    EnsureRustTarget { target: String },
    /// Refuse unless the target is the host's own triple: the instrumented
    /// binary has to run here.
    RequireHostTarget { target: String },
    /// Find `llvm-profdata`, installing it if need be.
    EnsureLlvmProfdata,
    /// Remove the directory if it exists and create it empty.
    ResetDir { dir: Vec<String> },
    /// `cargo build --release` for the target into the directory, with the
    /// codegen flags; `with_profile` says the flags carry a profile flag.
    CargoBuild { target: String, arch: Arch, dir: Vec<String>, flags: Vec<String>, with_profile: bool },
    /// Run the engine's bench at the depth, writing raw profiles to the directory.
    TrainingBench { binary: Vec<String>, raw_dir: Vec<String>, depth: u16 },
    /// Merge the raw profiles into one profile file.
    MergeProfiles { raw_dir: Vec<String>, profdata: Vec<String>, target: String },
    /// Copy the finished binary to the distribution directory under its asset name.
    CopyDist { binary: Vec<String>, arch: Arch, native: bool, target: String, pgo: bool },
}

/// A build step in terms of characters.
pub enum StepSpec {
    EnsureRustTarget { target: Seq<char> },
    RequireHostTarget { target: Seq<char> },
    EnsureLlvmProfdata,
    ResetDir { dir: Seq<Seq<char>> },
    CargoBuild {
        target: Seq<char>,
        arch: Arch,
        dir: Seq<Seq<char>>,
        flags: Seq<Seq<char>>,
        with_profile: bool,
    },
    TrainingBench { binary: Seq<Seq<char>>, raw_dir: Seq<Seq<char>>, depth: u16 },
    MergeProfiles { raw_dir: Seq<Seq<char>>, profdata: Seq<Seq<char>>, target: Seq<char> },
    CopyDist { binary: Seq<Seq<char>>, arch: Arch, native: bool, target: Seq<char>, pgo: bool },
}

pub open spec fn step_view(s: BuildStep) -> StepSpec {
    match s {
        BuildStep::EnsureRustTarget { target } => StepSpec::EnsureRustTarget { target: target@ },
        BuildStep::RequireHostTarget { target } => StepSpec::RequireHostTarget { target: target@ },
        BuildStep::EnsureLlvmProfdata => StepSpec::EnsureLlvmProfdata,
        BuildStep::ResetDir { dir } => StepSpec::ResetDir { dir: strings_view(dir@) },
        BuildStep::CargoBuild { target, arch, dir, flags, with_profile } => StepSpec::CargoBuild {
            target: target@,
            arch,
            dir: strings_view(dir@),
            flags: strings_view(flags@),
            with_profile,
        },
        BuildStep::TrainingBench { binary, raw_dir, depth } => StepSpec::TrainingBench {
            binary: strings_view(binary@),
            raw_dir: strings_view(raw_dir@),
            depth,
        },
        BuildStep::MergeProfiles { raw_dir, profdata, target } => StepSpec::MergeProfiles {
            raw_dir: strings_view(raw_dir@),
            profdata: strings_view(profdata@),
            target: target@,
        },
        BuildStep::CopyDist { binary, arch, native, target, pgo } => StepSpec::CopyDist {
            binary: strings_view(binary@),
            arch,
            native,
            target: target@,
            pgo,
        },
    }
}

pub open spec fn steps_view(steps: Seq<BuildStep>) -> Seq<StepSpec> {
    steps.map_values(|s: BuildStep| step_view(s))
}

// ---------------------------------------------------------------- paths

/// Components joined by the platform's separator, as a path is displayed.
pub open spec fn render_path_spec(parts: Seq<Seq<char>>, sep: char) -> Seq<char> {
    seq_join(parts, sep)
}

pub fn render_path(parts: &Vec<String>, sep: char) -> (text: String)
    ensures
        text@ == render_path_spec(strings_view(parts@), sep),
{
    let ghost view = strings_view(parts@);
    let n = parts.len();
    let mut text = String::new();
    let mut i: usize = 0;
    while i < n
        invariant
            n == parts@.len(),
            view == strings_view(parts@),
            i <= n,
            text@ == render_path_spec(view.subrange(0, i as int), sep),
        decreases n - i,
    {
        if i > 0 {
            push_char(&mut text, sep);
        }
        text.append(parts[i].as_str());
        assert(view.subrange(0, i + 1).drop_last() =~= view.subrange(0, i as int));
        proof {
            if i == 0 {
                assert(render_path_spec(view.subrange(0, 0), sep) =~= Seq::<char>::empty());
                assert(text@ =~= view[0]);
            }
        }
        i += 1;
    }
    assert(view.subrange(0, n as int) =~= view);
    text
}

/// Directory of a profile-guided build's profiles.
pub open spec fn pgo_dir_spec(arch: Arch, native: bool, target: Seq<char>) -> Seq<Seq<char>> {
    seq!["target"@, "pgo"@, sanitize_spec(target), flavour_name_spec(arch, native)]
}

pub fn pgo_dir(arch: Arch, native: bool, target: &str) -> (dir: Vec<String>)
    ensures
        strings_view(dir@) == pgo_dir_spec(arch, native, target@),
{
    let mut dir: Vec<String> = Vec::new();
    dir.push(string_of("target"));
    dir.push(string_of("pgo"));
    dir.push(sanitize(target));
    dir.push(flavour_name(arch, native));
    assert(strings_view(dir@) =~= pgo_dir_spec(arch, native, target@));
    dir
}

fn with_component(dir: &Vec<String>, leaf: &str) -> (path: Vec<String>)
    ensures
        strings_view(path@) == strings_view(dir@).push(leaf@),
{
    let mut path: Vec<String> = Vec::new();
    let n = dir.len();
    let mut i: usize = 0;
    while i < n
        invariant
            n == dir@.len(),
            i <= n,
            path@.len() == i,
            strings_view(path@) == strings_view(dir@).subrange(0, i as int),
        decreases n - i,
    {
        let item = dir[i].clone();
        path.push(item);
        assert(path@[i as int]@ == dir@[i as int]@);
        assert(strings_view(path@) =~= strings_view(dir@).subrange(0, i + 1));
        i += 1;
    }
    path.push(string_of(leaf));
    assert(strings_view(dir@).subrange(0, n as int) =~= strings_view(dir@));
    assert(strings_view(path@) =~= strings_view(dir@).push(leaf@));
    path
}

// ---------------------------------------------------------------- flags

/// A profile flag put in front of the arch's own flags, which it leaves as
/// they are.
pub open spec fn profile_flags_spec(phase: Seq<char>, arch: Arch, native: bool) -> Seq<Seq<char>> {
    seq!["-C"@, phase] + rustflags_spec(arch, native)
}

pub fn profile_flags(phase: String, arch: Arch, native: bool) -> (flags: Vec<String>)
    ensures
        strings_view(flags@) == profile_flags_spec(phase@, arch, native),
{
    let ghost phase_view = phase@;
    let mut flags: Vec<String> = Vec::new();
    flags.push(string_of("-C"));
    flags.push(phase);
    let mut rest = rustflags(arch, native);
    let ghost rest_view = strings_view(rest@);
    let ghost head = flags@;
    assert(strings_view(head) =~= seq!["-C"@, phase_view]);
    flags.append(&mut rest);
    assert(strings_view(flags@) =~= strings_view(head) + rest_view);
    flags
}

/// The flags as cargo reads them from `CARGO_ENCODED_RUSTFLAGS`: joined by
/// the unit separator `\x1f`, so a flag may itself hold spaces.
pub open spec fn encoded_rustflags_spec(flags: Seq<Seq<char>>) -> Seq<char> {
    seq_join(flags, '\u{1f}')
}

pub fn encoded_rustflags(flags: &Vec<String>) -> (text: String)
    ensures
        text@ == encoded_rustflags_spec(strings_view(flags@)),
{
    render_path(flags, '\u{1f}')
}

/// The line announcing a cargo build.
pub open spec fn build_banner_spec(arch: Arch, target: Seq<char>, with_profile: bool) -> Seq<char> {
    "Building Rarog "@ + crate::release::asset_arch_name_spec(arch) + " for "@ + target + if with_profile {
        " with PGO flags"@
    } else {
        ""@
    }
}

pub fn build_banner(arch: Arch, target: &str, with_profile: bool) -> (line: String)
    ensures
        line@ == build_banner_spec(arch, target@, with_profile),
{
    let mut line = string_of("Building Rarog ");
    line.append(crate::release::asset_arch_name(arch));
    line.append(" for ");
    line.append(target);
    line.append(
        if with_profile {
            " with PGO flags"
        } else {
            ""
        },
    );
    line
}

// ---------------------------------------------------------------- step outcomes

/// A profile-guided build runs its instrumented engine here, so it refuses
/// a target that is not the host.
pub open spec fn require_host_target_spec(target: Seq<char>, host: Seq<char>) -> Result<(), Seq<char>> {
    if target == host {
        Ok(())
    } else {
        Err(
            "PGO training must run the instrumented binary locally, so target `"@ + target
                + "` must match host `"@ + host + "`"@,
        )
    }
}

pub fn require_host_target(target: &str, host: &str) -> (r: Result<(), String>)
    ensures
        r is Ok <==> target@ == host@,
        match r {
            Ok(()) => require_host_target_spec(target@, host@) == Ok::<(), Seq<char>>(()),
            Err(m) => require_host_target_spec(target@, host@) == Err::<(), Seq<char>>(m@),
        },
{
    if str_equals(target, host) {
        Ok(())
    } else {
        let mut msg = string_of("PGO training must run the instrumented binary locally, so target `");
        msg.append(target);
        msg.append("` must match host `");
        msg.append(host);
        msg.append("`");
        Err(msg)
    }
}

/// What installing the target's standard library starts with.
#[derive(Clone, Debug, PartialEq, Eq)]
pub enum RustTargetNext {
    /// Without rustup nothing can be installed: warn with this text and go on.
    Warn(String),
    /// Run `rustup target add` for the target.
    RunRustup,
}

pub open spec fn rust_target_warning_spec(target: Seq<char>) -> Seq<char> {
    "rustup not found; if `"@ + target + "` is not installed, run `rustup target add "@ + target
        + "`."@
}

pub fn rust_target_next(target: &str, rustup_found: bool) -> (n: RustTargetNext)
    ensures
        match n {
            RustTargetNext::Warn(m) => !rustup_found && m@ == rust_target_warning_spec(target@),
            RustTargetNext::RunRustup => rustup_found,
        },
{
    if rustup_found {
        RustTargetNext::RunRustup
    } else {
        let mut msg = string_of("rustup not found; if `");
        msg.append(target);
        msg.append("` is not installed, run `rustup target add ");
        msg.append(target);
        msg.append("`.");
        RustTargetNext::Warn(msg)
    }
}

/// The outcome of `rustup target add`: success, or an error telling the
/// user to install the target by hand.
pub open spec fn rust_target_result_spec(target: Seq<char>, success: bool) -> Result<(), Seq<char>> {
    if success {
        Ok(())
    } else {
        Err(
            "failed to install target `"@ + target + "`; run `rustup target add "@ + target
                + "` manually"@,
        )
    }
}

pub fn rust_target_result(target: &str, success: bool) -> (r: Result<(), String>)
    ensures
        match r {
            Ok(()) => rust_target_result_spec(target@, success) == Ok::<(), Seq<char>>(()),
            Err(m) => rust_target_result_spec(target@, success) == Err::<(), Seq<char>>(m@),
        },
{
    if success {
        Ok(())
    } else {
        let mut msg = string_of("failed to install target `");
        msg.append(target);
        msg.append("`; run `rustup target add ");
        msg.append(target);
        msg.append("` manually");
        Err(msg)
    }
}

/// What finding `llvm-profdata` does after looking on `PATH` and in rustup's
/// toolchain.
#[derive(Clone, Debug, PartialEq, Eq)]
pub enum LlvmProfdataNext<T> {
    /// Use the copy that was found.
    UseFound(T),
    /// Install `llvm-tools-preview` with rustup, then look again.
    Install,
    /// Give up with this message.
    Fail(String),
}

pub open spec fn llvm_profdata_missing_spec() -> Seq<char> {
    "llvm-profdata was not found. Install it with `rustup component add llvm-tools-preview` or add LLVM's bin directory to PATH."@
}

/// `found` is the copy found, if any; `rustup_found` whether rustup is on `PATH`.
pub fn llvm_profdata_next<T>(found: Option<T>, rustup_found: bool) -> (n: LlvmProfdataNext<T>)
    ensures
        match n {
            LlvmProfdataNext::UseFound(t) => found == Some(t),
            LlvmProfdataNext::Install => found is None && rustup_found,
            LlvmProfdataNext::Fail(m) => found is None && !rustup_found && m@
                == llvm_profdata_missing_spec(),
        },
{
    match found {
        Some(t) => LlvmProfdataNext::UseFound(t),
        None => if !rustup_found {
            LlvmProfdataNext::Fail(
                string_of(
                    "llvm-profdata was not found. Install it with `rustup component add llvm-tools-preview` or add LLVM's bin directory to PATH.",
                ),
            )
        } else {
            LlvmProfdataNext::Install
        },
    }
}

pub open spec fn llvm_install_failed_spec() -> Seq<char> {
    "failed to install llvm-tools-preview; run `rustup component add llvm-tools-preview` manually"@
}

pub open spec fn llvm_still_missing_spec() -> Seq<char> {
    "llvm-profdata was still not found after installing llvm-tools-preview"@
}

/// After the install: a failed install, or a tool still missing, is an
/// error; otherwise the copy found by the second look is used.
pub fn llvm_profdata_after_install<T>(install_ok: bool, found: Option<T>) -> (r: Result<T, String>)
    ensures
        match r {
            Ok(t) => install_ok && found == Some(t),
            Err(m) => (!install_ok && m@ == llvm_install_failed_spec()) || (install_ok && found is None
                && m@ == llvm_still_missing_spec()),
        },
{
    if !install_ok {
        return Err(
            string_of(
                "failed to install llvm-tools-preview; run `rustup component add llvm-tools-preview` manually",
            ),
        );
    }
    match found {
        Some(t) => Ok(t),
        None => Err(string_of("llvm-profdata was still not found after installing llvm-tools-preview")),
    }
}

/// A merge needs at least one raw profile; `raw_dir` is the directory as displayed.
pub open spec fn merge_inputs_check_spec(count: int, raw_dir: Seq<char>) -> Result<(), Seq<char>> {
    if count == 0 {
        Err("no .profraw files found in `"@ + raw_dir + "`"@)
    } else {
        Ok(())
    }
}

pub fn merge_inputs_check(count: usize, raw_dir: &str) -> (r: Result<(), String>)
    ensures
        match r {
            Ok(()) => merge_inputs_check_spec(count as int, raw_dir@) == Ok::<(), Seq<char>>(()),
            Err(m) => merge_inputs_check_spec(count as int, raw_dir@) == Err::<(), Seq<char>>(m@),
        },
{
    if count == 0 {
        let mut msg = string_of("no .profraw files found in `");
        msg.append(raw_dir);
        msg.append("`");
        Err(msg)
    } else {
        Ok(())
    }
}

/// The finished binary must exist before it is copied; `binary` is its path
/// as displayed.
pub open spec fn dist_binary_check_spec(exists: bool, binary: Seq<char>) -> Result<(), Seq<char>> {
    if exists {
        Ok(())
    } else {
        Err("expected binary `"@ + binary + "` does not exist"@)
    }
}

pub fn dist_binary_check(exists: bool, binary: &str) -> (r: Result<(), String>)
    ensures
        match r {
            Ok(()) => dist_binary_check_spec(exists, binary@) == Ok::<(), Seq<char>>(()),
            Err(m) => dist_binary_check_spec(exists, binary@) == Err::<(), Seq<char>>(m@),
        },
{
    if exists {
        Ok(())
    } else {
        let mut msg = string_of("expected binary `");
        msg.append(binary);
        msg.append("` does not exist");
        Err(msg)
    }
}

// ---------------------------------------------------------------- the plan

pub open spec fn plain_plan_spec(arch: Arch, native: bool, target: Seq<char>) -> Seq<StepSpec> {
    let dir = target_dir_spec("release"@, arch, native, target);
    seq![
        StepSpec::EnsureRustTarget { target },
        StepSpec::CargoBuild {
            target,
            arch,
            dir,
            flags: rustflags_spec(arch, native),
            with_profile: false,
        },
        StepSpec::CopyDist {
            binary: binary_path_spec(dir, target),
            arch,
            native,
            target,
            pgo: false,
        },
    ]
}

pub open spec fn pgo_plan_spec(
    arch: Arch,
    native: bool,
    target: Seq<char>,
    depth: u16,
    sep: char,
) -> Seq<StepSpec> {
    let pgo = pgo_dir_spec(arch, native, target);
    let raw = pgo.push("raw"@);
    let profdata = pgo.push("rarog.profdata"@);
    let gen_dir = target_dir_spec("pgo-gen"@, arch, native, target);
    let use_dir = target_dir_spec("pgo-use"@, arch, native, target);
    seq![
        StepSpec::EnsureRustTarget { target },
        StepSpec::RequireHostTarget { target },
        StepSpec::EnsureLlvmProfdata,
        StepSpec::ResetDir { dir: raw },
        StepSpec::CargoBuild {
            target,
            arch,
            dir: gen_dir,
            flags: profile_flags_spec(
                "profile-generate="@ + render_path_spec(raw, sep),
                arch,
                native,
            ),
            with_profile: true,
        },
        StepSpec::TrainingBench { binary: binary_path_spec(gen_dir, target), raw_dir: raw, depth },
        StepSpec::MergeProfiles { raw_dir: raw, profdata, target },
        StepSpec::CargoBuild {
            target,
            arch,
            dir: use_dir,
            flags: profile_flags_spec(
                "profile-use="@ + render_path_spec(profdata, sep),
                arch,
                native,
            ),
            with_profile: true,
        },
        StepSpec::CopyDist {
            binary: binary_path_spec(use_dir, target),
            arch,
            native,
            target,
            pgo: true,
        },
    ]
}

/// The plan for a configuration: refused when arch and target disagree,
/// else the profile-guided or the plain sequence.
pub open spec fn run_spec(
    arch: Arch,
    native: bool,
    target: Seq<char>,
    pgo: bool,
    depth: u16,
    sep: char,
) -> Result<Seq<StepSpec>, Seq<char>> {
    if !arch_matches_target(arch, target) {
        Err(arch_target_error_spec(arch, target))
    } else if pgo {
        Ok(pgo_plan_spec(arch, native, target, depth, sep))
    } else {
        Ok(plain_plan_spec(arch, native, target))
    }
}

fn pgo_plan(config: &Config, sep: char) -> (steps: Vec<BuildStep>)
    ensures
        steps_view(steps@) == pgo_plan_spec(
            config.arch,
            config.native,
            config.target@,
            config.bench_depth,
            sep,
        ),
{
    let arch = config.arch;
    let native = config.native;
    let target = config.target.as_str();
    let pgo = pgo_dir(arch, native, target);
    let raw = with_component(&pgo, "raw");
    let profdata = with_component(&pgo, "rarog.profdata");
    let gen_dir = target_dir("pgo-gen", arch, native, target);
    let use_dir = target_dir("pgo-use", arch, native, target);

    let mut generate = string_of("profile-generate=");
    let raw_text = render_path(&raw, sep);
    generate.append(raw_text.as_str());
    let generate_flags = profile_flags(generate, arch, native);
    let mut use_phase = string_of("profile-use=");
    let profdata_text = render_path(&profdata, sep);
    use_phase.append(profdata_text.as_str());
    let use_flags = profile_flags(use_phase, arch, native);
    let gen_binary = binary_path(&gen_dir, target);
    let use_binary = binary_path(&use_dir, target);

    let mut steps: Vec<BuildStep> = Vec::new();
    steps.push(BuildStep::EnsureRustTarget { target: string_of(target) });
    steps.push(BuildStep::RequireHostTarget { target: string_of(target) });
    steps.push(BuildStep::EnsureLlvmProfdata);
    steps.push(BuildStep::ResetDir { dir: raw.clone() });
    steps.push(
        BuildStep::CargoBuild {
            target: string_of(target),
            arch,
            dir: gen_dir,
            flags: generate_flags,
            with_profile: true,
        },
    );
    steps.push(
        BuildStep::TrainingBench {
            binary: gen_binary,
            raw_dir: raw.clone(),
            depth: config.bench_depth,
        },
    );
    steps.push(
        BuildStep::MergeProfiles { raw_dir: raw, profdata, target: string_of(target) },
    );
    steps.push(
        BuildStep::CargoBuild {
            target: string_of(target),
            arch,
            dir: use_dir,
            flags: use_flags,
            with_profile: true,
        },
    );
    steps.push(
        BuildStep::CopyDist { binary: use_binary, arch, native, target: string_of(target), pgo: true },
    );
    assert(steps_view(steps@) =~= pgo_plan_spec(
        arch,
        native,
        config.target@,
        config.bench_depth,
        sep,
    ));
    steps
}

fn plain_plan(config: &Config) -> (steps: Vec<BuildStep>)
    ensures
        steps_view(steps@) == plain_plan_spec(config.arch, config.native, config.target@),
{
    let arch = config.arch;
    let native = config.native;
    let target = config.target.as_str();
    let dir = target_dir("release", arch, native, target);
    let binary = binary_path(&dir, target);
    let flags = rustflags(arch, native);
    let mut steps: Vec<BuildStep> = Vec::new();
    steps.push(BuildStep::EnsureRustTarget { target: string_of(target) });
    steps.push(
        BuildStep::CargoBuild { target: string_of(target), arch, dir, flags, with_profile: false },
    );
    steps.push(BuildStep::CopyDist { binary, arch, native, target: string_of(target), pgo: false });
    assert(steps_view(steps@) =~= plain_plan_spec(arch, native, config.target@));
    steps
}

/// The steps of the build a configuration asks for. `sep` is the platform's
/// path separator, used where a path is written into a codegen flag.
pub fn run(config: &Config, sep: char) -> (res: Result<Vec<BuildStep>, String>)
    ensures
        match res {
            Ok(steps) => run_spec(
                config.arch,
                config.native,
                config.target@,
                config.pgo,
                config.bench_depth,
                sep,
            ) == Ok::<Seq<StepSpec>, Seq<char>>(steps_view(steps@)),
            Err(msg) => run_spec(
                config.arch,
                config.native,
                config.target@,
                config.pgo,
                config.bench_depth,
                sep,
            ) == Err::<Seq<StepSpec>, Seq<char>>(msg@),
        },
{
    match ensure_arch_target_pair(config.arch, config.target.as_str()) {
        Err(msg) => Err(msg),
        Ok(()) => {
            if config.pgo {
                Ok(pgo_plan(config, sep))
            } else {
                Ok(plain_plan(config))
            }
        },
    }
}

// ---------------------------------------------------------------- laws

/// Profile guidance is a third independent axis: every cargo build of a
/// profile-guided plan passes `-C`, one profile flag (`profile-generate=`
/// for the instrumented build, `profile-use=` for the final one), and then
/// exactly the flags of the arch and native choice; a plain plan passes
/// exactly those flags.
pub proof fn lemma_pgo_flags_compose(arch: Arch, native: bool, target: Seq<char>, depth: u16, sep: char)
    ensures
        forall|k: int|
            0 <= k < pgo_plan_spec(arch, native, target, depth, sep).len() ==> match #[trigger] pgo_plan_spec(
                arch,
                native,
                target,
                depth,
                sep,
            )[k] {
                StepSpec::CargoBuild { flags, with_profile, .. } => with_profile && flags.len()
                    == rustflags_spec(arch, native).len() + 2 && flags[0] == "-C"@ && flags.subrange(
                    2,
                    flags.len() as int,
                ) == rustflags_spec(arch, native) && (seq_starts_with(
                    flags[1],
                    "profile-generate="@,
                ) || seq_starts_with(flags[1], "profile-use="@)),
                _ => true,
            },
        forall|k: int|
            0 <= k < plain_plan_spec(arch, native, target).len() ==> match #[trigger] plain_plan_spec(
                arch,
                native,
                target,
            )[k] {
                StepSpec::CargoBuild { flags, with_profile, .. } => !with_profile && flags
                    == rustflags_spec(arch, native),
                _ => true,
            },
{
    let plan = pgo_plan_spec(arch, native, target, depth, sep);
    let pgo = pgo_dir_spec(arch, native, target);
    let generate = "profile-generate="@ + render_path_spec(pgo.push("raw"@), sep);
    let use_phase = "profile-use="@ + render_path_spec(pgo.push("rarog.profdata"@), sep);
    assert(generate.subrange(0, "profile-generate="@.len() as int) =~= "profile-generate="@);
    assert(use_phase.subrange(0, "profile-use="@.len() as int) =~= "profile-use="@);
    let rest = rustflags_spec(arch, native);
    assert(profile_flags_spec(generate, arch, native).subrange(2, rest.len() + 2int) =~= rest);
    assert(profile_flags_spec(use_phase, arch, native).subrange(2, rest.len() + 2int) =~= rest);
}

/// A profile-guided build cannot be cross-compiled: before anything is
/// built it requires the target to be the host, since training runs the
/// instrumented engine here; and the profile is merged only after training.
pub proof fn lemma_pgo_runs_on_the_host(arch: Arch, native: bool, target: Seq<char>, depth: u16, sep: char)
    ensures
        pgo_plan_spec(arch, native, target, depth, sep)[1] == (StepSpec::RequireHostTarget { target }),
        forall|k: int|
            0 <= k < 4 ==> !(#[trigger] pgo_plan_spec(arch, native, target, depth, sep)[k] is CargoBuild),
        pgo_plan_spec(arch, native, target, depth, sep)[5] is TrainingBench,
        pgo_plan_spec(arch, native, target, depth, sep)[6] is MergeProfiles,
{
}

/// The steps of a profile-guided plan hand their files on to each other:
/// the directory that is reset is the one the instrumented build writes its
/// raw profiles to (named in its `profile-generate=` flag), the one training
/// fills and the one the merge reads; the merged file is the one the final
/// build's `profile-use=` flag names; training runs the instrumented build's
/// binary and the copy takes the final build's, from two different build
/// directories.
pub proof fn lemma_pgo_steps_agree(arch: Arch, native: bool, target: Seq<char>, depth: u16, sep: char)
    ensures
        ({
            let plan = pgo_plan_spec(arch, native, target, depth, sep);
            plan[3] matches StepSpec::ResetDir { dir: reset }
            && plan[4] matches StepSpec::CargoBuild { dir: gen_dir, flags: gen_flags, .. }
            && plan[5] matches StepSpec::TrainingBench { binary: trained, raw_dir: written, depth: d }
            && plan[6] matches StepSpec::MergeProfiles { raw_dir: read, profdata, target: merge_target }
            && plan[7] matches StepSpec::CargoBuild { dir: use_dir, flags: use_flags, .. }
            && plan[8] matches StepSpec::CopyDist { binary: copied, .. }
            && reset == written && written == read && reset.last() == "raw"@
            && profdata.last() == "rarog.profdata"@
            && reset.drop_last() == profdata.drop_last()
            && gen_flags[1] == "profile-generate="@ + render_path_spec(reset, sep)
            && use_flags[1] == "profile-use="@ + render_path_spec(profdata, sep)
            && trained == binary_path_spec(gen_dir, target)
            && copied == binary_path_spec(use_dir, target)
            && gen_dir != use_dir && d == depth && merge_target == target
        }),
{
    reveal_strlit("pgo-gen");
    reveal_strlit("pgo-use");
    let plan = pgo_plan_spec(arch, native, target, depth, sep);
    let gen_dir = target_dir_spec("pgo-gen"@, arch, native, target);
    let use_dir = target_dir_spec("pgo-use"@, arch, native, target);
    assert(gen_dir[2][4] != use_dir[2][4]);
    let pgo = pgo_dir_spec(arch, native, target);
    assert(pgo.push("raw"@).drop_last() =~= pgo);
    assert(pgo.push("rarog.profdata"@).drop_last() =~= pgo);
}

/// Native and portable profile-guided builds of one arch never share a
/// profile directory.
pub proof fn lemma_native_pgo_dirs_differ(arch: Arch, target: Seq<char>)
    ensures
        pgo_dir_spec(arch, true, target) != pgo_dir_spec(arch, false, target),
{
    reveal_strlit("-native");
    assert(pgo_dir_spec(arch, true, target)[3].len() == pgo_dir_spec(arch, false, target)[3].len()
        + 7);
}

} // verus!
