//! How a release binary is named, where it is built and which codegen flags
//! it is built with.
use vstd::prelude::*;
use crate::text::{
    char_is_ascii_alphanumeric, is_ascii_alphanumeric, push_char, seq_contains, seq_occurs_at,
    seq_ends_with, seq_join, seq_starts_with, lemma_join_contains_part, lemma_join_occurrence,
    lemma_missing_char_blocks, lemma_missing_char_nowhere, seq_has_char,
    str_contains, str_ends_with, str_equals, str_starts_with, string_of,
};

verus! {

/// The instruction-set contract a release binary is built against.
#[derive(Copy, Clone, Debug, PartialEq, Eq, Structural)]
pub enum Arch {
    Base,
    Avx2,
    Pext,
    Arm64,
}

/// The characters of each `String` of a sequence.
pub open spec fn strings_view(v: Seq<String>) -> Seq<Seq<char>> {
    v.map_values(|s: String| s@)
}

// ---------------------------------------------------------------- names

/// The spelling of an arch on the command line.
pub open spec fn arch_arg_name_spec(arch: Arch) -> Seq<char> {
    match arch {
        Arch::Base => "base"@,
        Arch::Avx2 => "avx2"@,
        Arch::Pext => "pext"@,
        Arch::Arm64 => "arm64"@,
    }
}

pub fn arch_arg_name(arch: Arch) -> (name: &'static str)
    ensures
        name@ == arch_arg_name_spec(arch),
{
    match arch {
        Arch::Base => "base",
        Arch::Avx2 => "avx2",
        Arch::Pext => "pext",
        Arch::Arm64 => "arm64",
    }
}

/// The arch as it appears in a published asset's file name.
pub open spec fn asset_arch_name_spec(arch: Arch) -> Seq<char> {
    match arch {
        Arch::Base => "x86-64"@,
        Arch::Avx2 => "avx2"@,
        Arch::Pext => "pext"@,
        Arch::Arm64 => "arm64"@,
    }
}

pub fn asset_arch_name(arch: Arch) -> (name: &'static str)
    ensures
        name@ == asset_arch_name_spec(arch),
{
    match arch {
        Arch::Base => "x86-64",
        Arch::Avx2 => "avx2",
        Arch::Pext => "pext",
        Arch::Arm64 => "arm64",
    }
}

/// Directory and file-name tag of an (arch, native) pair: a native build is
/// tagged `-native`, so it never shares a directory with a portable one.
pub open spec fn flavour_name_spec(arch: Arch, native: bool) -> Seq<char> {
    if native {
        arch_arg_name_spec(arch) + "-native"@
    } else {
        arch_arg_name_spec(arch)
    }
}

pub fn flavour_name(arch: Arch, native: bool) -> (name: String)
    ensures
        name@ == flavour_name_spec(arch, native),
{
    let mut name = string_of(arch_arg_name(arch));
    if native {
        name.append("-native");
    }
    name
}

/// Operating system named by a target triple.
pub open spec fn os_name_spec(target: Seq<char>) -> Seq<char> {
    if seq_contains(target, "windows"@) {
        "windows"@
    } else if seq_contains(target, "apple-darwin"@) {
        "macos"@
    } else {
        "linux"@
    }
}

pub fn os_name(target: &str) -> (name: &'static str)
    ensures
        name@ == os_name_spec(target@),
{
    if str_contains(target, "windows") {
        "windows"
    } else if str_contains(target, "apple-darwin") {
        "macos"
    } else {
        "linux"
    }
}

/// Executable suffix of a target triple.
pub open spec fn exe_suffix_spec(target: Seq<char>) -> Seq<char> {
    if seq_contains(target, "windows"@) {
        ".exe"@
    } else {
        ""@
    }
}

pub fn exe_suffix(target: &str) -> (suffix: &'static str)
    ensures
        suffix@ == exe_suffix_spec(target@),
{
    if str_contains(target, "windows") {
        ".exe"
    } else {
        ""
    }
}

/// File name of a host tool; `windows` says whether the host is Windows.
pub open spec fn tool_name_spec(name: Seq<char>, windows: bool) -> Seq<char> {
    if windows {
        name + ".exe"@
    } else {
        name
    }
}

pub fn tool_name(name: &str, windows: bool) -> (tool: String)
    ensures
        tool@ == tool_name_spec(name@, windows),
{
    let mut tool = string_of(name);
    if windows {
        tool.append(".exe");
    }
    tool
}

/// File names tried for a program in each directory of `PATH`: the name
/// itself, and on Windows also the name with `.exe` unless it has it.
pub open spec fn program_file_names_spec(program: Seq<char>, windows: bool) -> Seq<Seq<char>> {
    if windows && !seq_ends_with(program, ".exe"@) {
        seq![program, program + ".exe"@]
    } else {
        seq![program]
    }
}

pub fn program_file_names(program: &str, windows: bool) -> (names: Vec<String>)
    ensures
        strings_view(names@) == program_file_names_spec(program@, windows),
{
    let mut names: Vec<String> = Vec::new();
    names.push(string_of(program));
    if windows && !str_ends_with(program, ".exe") {
        names.push(tool_name(program, true));
    }
    assert(strings_view(names@) =~= program_file_names_spec(program@, windows));
    names
}

pub open spec fn sanitize_char(c: char) -> char {
    if is_ascii_alphanumeric(c) {
        c
    } else {
        '-'
    }
}

/// Every character that is not an ASCII letter or digit replaced by `-`.
pub open spec fn sanitize_spec(value: Seq<char>) -> Seq<char> {
    value.map_values(|c: char| sanitize_char(c))
}

pub fn sanitize(value: &str) -> (clean: String)
    ensures
        clean@ == sanitize_spec(value@),
{
    let n = value.unicode_len();
    let mut clean = String::new();
    let mut i: usize = 0;
    while i < n
        invariant
            n == value@.len(),
            i <= n,
            clean@ == sanitize_spec(value@.subrange(0, i as int)),
        decreases n - i,
    {
        let c = value.get_char(i);
        let kept = if char_is_ascii_alphanumeric(c) {
            c
        } else {
            '-'
        };
        push_char(&mut clean, kept);
        assert(sanitize_spec(value@.subrange(0, i + 1)) =~= sanitize_spec(
            value@.subrange(0, i as int),
        ).push(sanitize_char(c)));
        i += 1;
    }
    assert(value@.subrange(0, n as int) =~= value@);
    clean
}

// ---------------------------------------------------------------- flags

/// `-C target-cpu=...`: the host CPU under `native`, else the portable baseline.
pub open spec fn cpu_flags_spec(native: bool, portable: Seq<char>) -> Seq<Seq<char>> {
    seq![
        "-C"@,
        if native {
            "target-cpu=native"@
        } else {
            "target-cpu="@ + portable
        },
    ]
}

/// Codegen flags of an (arch, native) pair. `arch` chooses the source path
/// and required features; `native` only swaps the portable CPU baseline.
pub open spec fn rustflags_spec(arch: Arch, native: bool) -> Seq<Seq<char>> {
    match arch {
        Arch::Base => cpu_flags_spec(native, "x86-64"@),
        Arch::Avx2 => cpu_flags_spec(native, "x86-64-v3"@),
        Arch::Pext => seq!["--cfg"@, "rarog_pext"@] + cpu_flags_spec(native, "x86-64-v3"@) + seq![
            "-C"@,
            "target-feature=+bmi2"@,
        ],
        Arch::Arm64 => cpu_flags_spec(native, "generic"@),
    }
}

fn push_cpu_flags(flags: &mut Vec<String>, native: bool, portable: &str)
    ensures
        strings_view(final(flags)@) == strings_view(old(flags)@) + cpu_flags_spec(
            native,
            portable@,
        ),
{
    let ghost before = flags@;
    flags.push(string_of("-C"));
    if native {
        flags.push(string_of("target-cpu=native"));
    } else {
        let mut cpu = string_of("target-cpu=");
        cpu.append(portable);
        flags.push(cpu);
    }
    assert(strings_view(flags@) =~= strings_view(before) + cpu_flags_spec(native, portable@));
}

pub fn rustflags(arch: Arch, native: bool) -> (flags: Vec<String>)
    ensures
        strings_view(flags@) == rustflags_spec(arch, native),
{
    let mut flags: Vec<String> = Vec::new();
    assert(strings_view(flags@) =~= Seq::<Seq<char>>::empty());
    match arch {
        Arch::Base => {
            push_cpu_flags(&mut flags, native, "x86-64");
            assert(strings_view(flags@) =~= rustflags_spec(arch, native));
        },
        Arch::Avx2 => {
            push_cpu_flags(&mut flags, native, "x86-64-v3");
            assert(strings_view(flags@) =~= rustflags_spec(arch, native));
        },
        Arch::Pext => {
            flags.push(string_of("--cfg"));
            flags.push(string_of("rarog_pext"));
            let ghost head = flags@;
            assert(strings_view(head) =~= seq!["--cfg"@, "rarog_pext"@]);
            push_cpu_flags(&mut flags, native, "x86-64-v3");
            let ghost mid = flags@;
            flags.push(string_of("-C"));
            flags.push(string_of("target-feature=+bmi2"));
            assert(strings_view(flags@) =~= strings_view(mid) + seq![
                "-C"@,
                "target-feature=+bmi2"@,
            ]);
            assert(strings_view(flags@) =~= rustflags_spec(arch, native));
        },
        Arch::Arm64 => {
            push_cpu_flags(&mut flags, native, "generic");
            assert(strings_view(flags@) =~= rustflags_spec(arch, native));
        },
    }
    flags
}

/// Text appended to a failed profile merge: only the one target whose
/// profiling runtime cannot produce a mergeable profile gets an explanation.
pub open spec fn pgo_merge_hint_spec(target: Seq<char>) -> Seq<char> {
    if seq_starts_with(target, "aarch64-pc-windows"@) {
        "\n\nnote: PGO is a known toolchain limitation on `"@ + target
            + "`. The profiling runtime emits .profraw files with an empty symbol-name table, so no profile can ever be merged. Build this target without `--pgo`; the binary is correct, only slower."@
    } else {
        ""@
    }
}

pub fn pgo_merge_hint(target: &str) -> (hint: String)
    ensures
        hint@ == pgo_merge_hint_spec(target@),
{
    if str_starts_with(target, "aarch64-pc-windows") {
        let mut hint = string_of("\n\nnote: PGO is a known toolchain limitation on `");
        hint.append(target);
        hint.append(
            "`. The profiling runtime emits .profraw files with an empty symbol-name table, so no profile can ever be merged. Build this target without `--pgo`; the binary is correct, only slower.",
        );
        hint
    } else {
        proof {
            reveal_strlit("");
        }
        String::new()
    }
}

// ---------------------------------------------------------------- choices

/// Arch built when none is asked for: ARM64 on an aarch64 host, else x86-64.
pub open spec fn default_arch_spec(host: Seq<char>) -> Arch {
    if seq_starts_with(host, "aarch64-"@) {
        Arch::Arm64
    } else {
        Arch::Base
    }
}

pub fn default_arch(host: &str) -> (arch: Arch)
    ensures
        arch == default_arch_spec(host@),
{
    if str_starts_with(host, "aarch64-") {
        Arch::Arm64
    } else {
        Arch::Base
    }
}

/// Target triple built when none is asked for: the arch's triple for the
/// host's operating system.
pub open spec fn default_target_spec(arch: Arch, host: Seq<char>) -> Seq<char> {
    let windows = seq_contains(host, "windows"@);
    let macos = seq_contains(host, "apple-darwin"@);
    if arch == Arch::Arm64 {
        if windows {
            "aarch64-pc-windows-msvc"@
        } else if macos {
            "aarch64-apple-darwin"@
        } else {
            "aarch64-unknown-linux-gnu"@
        }
    } else {
        if windows {
            "x86_64-pc-windows-msvc"@
        } else if macos {
            "x86_64-apple-darwin"@
        } else {
            "x86_64-unknown-linux-gnu"@
        }
    }
}

pub fn default_target(arch: Arch, host: &str) -> (target: String)
    ensures
        target@ == default_target_spec(arch, host@),
{
    let windows = str_contains(host, "windows");
    let macos = !windows && str_contains(host, "apple-darwin");
    let name = match arch {
        Arch::Arm64 => if windows {
            "aarch64-pc-windows-msvc"
        } else if macos {
            "aarch64-apple-darwin"
        } else {
            "aarch64-unknown-linux-gnu"
        },
        _ => if windows {
            "x86_64-pc-windows-msvc"
        } else if macos {
            "x86_64-apple-darwin"
        } else {
            "x86_64-unknown-linux-gnu"
        },
    };
    string_of(name)
}

/// Error text for an arch asked of a target of another family.
pub open spec fn arch_target_error_spec(arch: Arch, target: Seq<char>) -> Seq<char> {
    if arch == Arch::Arm64 {
        "`--arch arm64` requires an aarch64 target, got `"@ + target + "`"@
    } else {
        "`--arch "@ + arch_arg_name_spec(arch) + "` requires an x86_64 target, got `"@ + target
            + "`"@
    }
}

/// The target belongs to the arch's family: `x86_64-` for the x86 archs,
/// `aarch64-` for ARM64.
pub open spec fn arch_matches_target(arch: Arch, target: Seq<char>) -> bool {
    if arch == Arch::Arm64 {
        seq_starts_with(target, "aarch64-"@)
    } else {
        seq_starts_with(target, "x86_64-"@)
    }
}

pub fn ensure_arch_target_pair(arch: Arch, target: &str) -> (res: Result<(), String>)
    ensures
        res is Ok <==> arch_matches_target(arch, target@),
        res matches Err(msg) ==> msg@ == arch_target_error_spec(arch, target@),
{
    match arch {
        Arch::Arm64 => {
            if str_starts_with(target, "aarch64-") {
                Ok(())
            } else {
                let mut msg = string_of("`--arch arm64` requires an aarch64 target, got `");
                msg.append(target);
                msg.append("`");
                Err(msg)
            }
        },
        _ => {
            if str_starts_with(target, "x86_64-") {
                Ok(())
            } else {
                let mut msg = string_of("`--arch ");
                msg.append(arch_arg_name(arch));
                msg.append("` requires an x86_64 target, got `");
                msg.append(target);
                msg.append("`");
                Err(msg)
            }
        },
    }
}

/// Error text for a native PEXT build on a host without BMI2.
pub open spec fn native_bmi2_error_spec() -> Seq<char> {
    "`--arch pext --native` needs BMI2, which this CPU does not report.              Use `--arch avx2 --native` or `--arch base --native` for a native              build here, or drop `--native` to cross-build a portable pext asset."@
}

/// A native PEXT build for the host itself is refused when the host has no
/// BMI2; every other combination, cross-builds included, is accepted.
pub open spec fn native_is_buildable_spec(
    arch: Arch,
    native: bool,
    target: Seq<char>,
    host: Seq<char>,
    bmi2_available: bool,
) -> bool {
    !native || arch != Arch::Pext || target != host || bmi2_available
}

/// `host` is the host's triple (empty when it could not be learned);
/// `bmi2_available` says whether the host CPU can run PEXT code (true where
/// no such check applies).
pub fn ensure_native_is_buildable(
    arch: Arch,
    native: bool,
    target: &str,
    host: &str,
    bmi2_available: bool,
) -> (res: Result<(), String>)
    ensures
        res is Ok <==> native_is_buildable_spec(arch, native, target@, host@, bmi2_available),
        res matches Err(msg) ==> msg@ == native_bmi2_error_spec(),
{
    if !native || arch != Arch::Pext {
        return Ok(());
    }
    if !str_equals(target, host) {
        return Ok(());
    }
    if !bmi2_available {
        return Err(
            string_of(
                "`--arch pext --native` needs BMI2, which this CPU does not report.              Use `--arch avx2 --native` or `--arch base --native` for a native              build here, or drop `--native` to cross-build a portable pext asset.",
            ),
        );
    }
    Ok(())
}

/// A PEXT engine build can run only on a CPU with BMI2; other builds always can.
pub open spec fn pext_build_is_supported_spec(pext_build: bool, bmi2_available: bool) -> bool {
    !pext_build || bmi2_available
}

pub fn pext_build_is_supported(pext_build: bool, bmi2_available: bool) -> (ok: bool)
    ensures
        ok == pext_build_is_supported_spec(pext_build, bmi2_available),
{
    !pext_build || bmi2_available
}

// ---------------------------------------------------------------- paths

/// Intermediate build directory, as path components under the workspace.
pub open spec fn target_dir_spec(kind: Seq<char>, arch: Arch, native: bool, target: Seq<char>) -> Seq<
    Seq<char>,
> {
    seq![
        "target"@,
        "xtask"@,
        kind + "-"@ + sanitize_spec(target) + "-"@ + flavour_name_spec(arch, native),
    ]
}

pub fn target_dir(kind: &str, arch: Arch, native: bool, target: &str) -> (dir: Vec<String>)
    ensures
        strings_view(dir@) == target_dir_spec(kind@, arch, native, target@),
{
    let mut leaf = string_of(kind);
    leaf.append("-");
    let clean = sanitize(target);
    leaf.append(clean.as_str());
    leaf.append("-");
    let flavour = flavour_name(arch, native);
    leaf.append(flavour.as_str());
    let mut dir: Vec<String> = Vec::new();
    dir.push(string_of("target"));
    dir.push(string_of("xtask"));
    dir.push(leaf);
    assert(strings_view(dir@) =~= target_dir_spec(kind@, arch, native, target@));
    dir
}

/// The engine binary inside a build directory, as path components.
pub open spec fn binary_path_spec(dir: Seq<Seq<char>>, target: Seq<char>) -> Seq<Seq<char>> {
    dir + seq![target, "release"@, "rarog"@ + exe_suffix_spec(target)]
}

pub fn binary_path(dir: &Vec<String>, target: &str) -> (path: Vec<String>)
    ensures
        strings_view(path@) == binary_path_spec(strings_view(dir@), target@),
{
    let mut path: Vec<String> = Vec::new();
    let n = dir.len();
    let mut i: usize = 0;
    while i < n
        invariant
            n == dir@.len(),
            i <= n,
            path@.len() == i,
            strings_view(path@) == strings_view(dir@).subrange(0, i as int),
        decreases n - i,
    {
        let item = dir[i].clone();
        path.push(item);
        assert(path@[i as int]@ == dir@[i as int]@);
        assert(strings_view(path@) =~= strings_view(dir@).subrange(0, i + 1));
        i += 1;
    }
    let ghost prefix = path@;
    path.push(string_of(target));
    path.push(string_of("release"));
    let mut exe = string_of("rarog");
    exe.append(exe_suffix(target));
    path.push(exe);
    assert(strings_view(dir@).subrange(0, n as int) =~= strings_view(dir@));
    assert(strings_view(path@) =~= binary_path_spec(strings_view(dir@), target@));
    path
}

/// File name of a finished binary: version, operating system and arch, then
/// `-native` for a host-tuned build, `-pgo` for a profile-guided one, and the
/// executable suffix.
pub open spec fn asset_name_spec(
    arch: Arch,
    native: bool,
    target: Seq<char>,
    pgo: bool,
    version: Seq<char>,
) -> Seq<char> {
    "rarog-v"@ + version + "-"@ + os_name_spec(target) + "-"@ + asset_arch_name_spec(arch) + (
    if native {
        "-native"@
    } else {
        ""@
    }) + (if pgo {
        "-pgo"@
    } else {
        ""@
    }) + exe_suffix_spec(target)
}

/// `version` is the package version read from the manifest.
pub fn asset_name(arch: Arch, native: bool, target: &str, pgo: bool, version: &str) -> (name:
    String)
    ensures
        name@ == asset_name_spec(arch, native, target@, pgo, version@),
{
    let mut name = string_of("rarog-v");
    name.append(version);
    name.append("-");
    name.append(os_name(target));
    name.append("-");
    name.append(asset_arch_name(arch));
    name.append(
        if native {
            "-native"
        } else {
            ""
        },
    );
    name.append(
        if pgo {
            "-pgo"
        } else {
            ""
        },
    );
    name.append(exe_suffix(target));
    name
}

// ---------------------------------------------------------------- laws

proof fn lemma_cpu_flag_shape(native: bool, portable: Seq<char>)
    requires
        portable == "x86-64"@ || portable == "x86-64-v3"@ || portable == "generic"@,
    ensures
        cpu_flags_spec(native, portable).len() == 2,
        cpu_flags_spec(native, portable)[0] == "-C"@,
        cpu_flags_spec(native, portable)[1] == "target-cpu=native"@ <==> native,
        cpu_flags_spec(native, portable)[1] != "rarog_pext"@,
        cpu_flags_spec(native, portable)[1] != "--cfg"@,
        cpu_flags_spec(native, portable)[1] != "target-feature=+bmi2"@,
        "-C"@ != "target-cpu=native"@,
        "-C"@ != "rarog_pext"@,
        "-C"@ != "--cfg"@,
        "-C"@ != "target-feature=+bmi2"@,
{
    reveal_strlit("-C");
    reveal_strlit("--cfg");
    reveal_strlit("rarog_pext");
    reveal_strlit("target-feature=+bmi2");
    reveal_strlit("target-cpu=native");
    reveal_strlit("target-cpu=");
    reveal_strlit("x86-64");
    reveal_strlit("x86-64-v3");
    reveal_strlit("generic");
    let flag = cpu_flags_spec(native, portable)[1];
    assert("-C"@.len() == 2);
    assert("target-cpu=native"@.len() == 17);
    assert("rarog_pext"@.len() == 10);
    assert("--cfg"@.len() == 5);
    assert("target-feature=+bmi2"@.len() == 20);
    if !native {
        assert(flag[11] != "target-cpu=native"@[11]);
        assert(flag[0] != "rarog_pext"@[0]);
        assert(flag[1] != "--cfg"@[1]);
        assert(flag[7] != "target-feature=+bmi2"@[7]);
    }
}

/// `--arch` and `--native` are independent: every arch targets the host CPU
/// exactly when `native` is set, and no arch but PEXT ever turns on the PEXT
/// source path or demands BMI2, native or not.
pub proof fn lemma_native_is_orthogonal_to_arch(arch: Arch, native: bool)
    ensures
        rustflags_spec(arch, native).contains("target-cpu=native"@) <==> native,
        arch != Arch::Pext ==> !rustflags_spec(arch, native).contains("rarog_pext"@),
        arch != Arch::Pext ==> !rustflags_spec(arch, native).contains("--cfg"@),
        arch != Arch::Pext ==> !rustflags_spec(arch, native).contains("target-feature=+bmi2"@),
{
    reveal_strlit("--cfg");
    reveal_strlit("rarog_pext");
    reveal_strlit("target-feature=+bmi2");
    reveal_strlit("target-cpu=native");
    let portable = match arch {
        Arch::Base => "x86-64"@,
        Arch::Avx2 => "x86-64-v3"@,
        Arch::Pext => "x86-64-v3"@,
        Arch::Arm64 => "generic"@,
    };
    lemma_cpu_flag_shape(native, portable);
    let cpu = cpu_flags_spec(native, portable);
    let flags = rustflags_spec(arch, native);
    if arch == Arch::Pext {
        assert(flags[3] == cpu[1]);
        assert(flags =~= seq!["--cfg"@, "rarog_pext"@, "-C"@, cpu[1], "-C"@, "target-feature=+bmi2"@]);
        if native {
            assert(flags[3] == "target-cpu=native"@);
        } else {
            assert forall|i: int| 0 <= i < flags.len() implies flags[i] != "target-cpu=native"@ by {
                if i == 0 {
                    assert("--cfg"@.len() != "target-cpu=native"@.len());
                }
                if i == 1 {
                    assert("rarog_pext"@.len() != "target-cpu=native"@.len());
                }
                if i == 5 {
                    assert("target-feature=+bmi2"@.len() != "target-cpu=native"@.len());
                }
            }
        }
    } else {
        assert(flags == cpu);
        if native {
            assert(flags[1] == "target-cpu=native"@);
        }
    }
}

/// A PEXT build always compiles the PEXT source path and always demands
/// BMI2, whether or not it is tuned for the host.
pub proof fn lemma_pext_requires_bmi2_even_when_native(native: bool)
    ensures
        rustflags_spec(Arch::Pext, native).contains("--cfg"@),
        rustflags_spec(Arch::Pext, native).contains("rarog_pext"@),
        rustflags_spec(Arch::Pext, native).contains("target-feature=+bmi2"@),
        native ==> rustflags_spec(Arch::Pext, native).contains("target-cpu=native"@),
{
    let flags = rustflags_spec(Arch::Pext, native);
    assert(flags[0] == "--cfg"@);
    assert(flags[1] == "rarog_pext"@);
    assert(flags[5] == "target-feature=+bmi2"@);
    if native {
        assert(flags[3] == "target-cpu=native"@);
    }
}

/// Only targets starting `aarch64-pc-windows` get a merge-failure hint, and
/// that hint names the target and tells the user to drop `--pgo`.
pub proof fn lemma_pgo_merge_hint_only_for_windows_arm64(target: Seq<char>)
    ensures
        pgo_merge_hint_spec(target).len() == 0 <==> !seq_starts_with(target, "aarch64-pc-windows"@),
        seq_starts_with(target, "aarch64-pc-windows"@) ==> seq_contains(
            pgo_merge_hint_spec(target),
            "`--pgo`"@,
        ),
{
    reveal_strlit("");
    let head = "\n\nnote: PGO is a known toolchain limitation on `"@;
    let tail = "`. The profiling runtime emits .profraw files with an empty symbol-name table, so no profile can ever be merged. Build this target without `--pgo`; the binary is correct, only slower."@;
    if seq_starts_with(target, "aarch64-pc-windows"@) {
        reveal_strlit("\n\nnote: PGO is a known toolchain limitation on `");
        reveal_strlit("`. The profiling runtime emits .profraw files with an empty symbol-name table, so no profile can ever be merged. Build this target without `--pgo`; the binary is correct, only slower.");
        reveal_strlit("`--pgo`");
        let hint = pgo_merge_hint_spec(target);
        assert(hint == head + target + tail);
        let at: int = head.len() + target.len() + 139int;
        assert(hint.subrange(at, at + 7) =~= "`--pgo`"@);
        assert(seq_occurs_at(hint, "`--pgo`"@, at));
    }
}

/// A native build can never be mistaken for a portable one: its asset name,
/// its flavour tag and its intermediate directory all differ from the
/// portable build's.
pub proof fn lemma_native_builds_are_tagged(
    arch: Arch,
    target: Seq<char>,
    pgo: bool,
    version: Seq<char>,
    kind: Seq<char>,
)
    ensures
        asset_name_spec(arch, true, target, pgo, version) != asset_name_spec(
            arch,
            false,
            target,
            pgo,
            version,
        ),
        flavour_name_spec(arch, true) != flavour_name_spec(arch, false),
        target_dir_spec(kind, arch, true, target) != target_dir_spec(kind, arch, false, target),
{
    reveal_strlit("-native");
    reveal_strlit("");
    assert(asset_name_spec(arch, true, target, pgo, version).len() == asset_name_spec(
        arch,
        false,
        target,
        pgo,
        version,
    ).len() + 7);
    assert(flavour_name_spec(arch, true).len() == flavour_name_spec(arch, false).len() + 7);
    assert(target_dir_spec(kind, arch, true, target)[2].len() == target_dir_spec(
        kind,
        arch,
        false,
        target,
    )[2].len() + 7);
}

/// The same independence read on the flag text as cargo's users see it,
/// the flags joined by spaces: `target-cpu=native` appears in it exactly
/// when `native` is set, and for every arch but PEXT neither `rarog_pext`
/// nor `bmi2` appears anywhere in it.
pub proof fn lemma_joined_flags_are_orthogonal(arch: Arch, native: bool)
    ensures
        seq_contains(seq_join(rustflags_spec(arch, native), ' '), "target-cpu=native"@) <==> native,
        arch != Arch::Pext ==> !seq_contains(
            seq_join(rustflags_spec(arch, native), ' '),
            "rarog_pext"@,
        ),
        arch != Arch::Pext ==> !seq_contains(seq_join(rustflags_spec(arch, native), ' '), "bmi2"@),
{
    let flags = rustflags_spec(arch, native);
    let text = seq_join(flags, ' ');
    lemma_flag_pattern_facts();
    reveal_strlit("target-cpu=native");
    reveal_strlit("rarog_pext");
    reveal_strlit("bmi2");
    let cpu_index: int = if arch == Arch::Pext {
        3
    } else {
        1
    };
    assert(flags[cpu_index] == cpu_flags_spec(
        native,
        match arch {
            Arch::Base => "x86-64"@,
            Arch::Avx2 => "x86-64-v3"@,
            Arch::Pext => "x86-64-v3"@,
            Arch::Arm64 => "generic"@,
        },
    )[1]);
    if native {
        lemma_join_contains_part(flags, ' ', cpu_index);
    } else if seq_contains(text, "target-cpu=native"@) {
        lemma_join_occurrence(flags, ' ', "target-cpu=native"@);
        let k = choose|k: int| 0 <= k < flags.len() && seq_contains(#[trigger] flags[k], "target-cpu=native"@);
        assert(k == cpu_index || flags[k] == "-C"@ || flags[k] == "--cfg"@ || flags[k] == "rarog_pext"@
            || flags[k] == "target-feature=+bmi2"@);
    }
    if arch != Arch::Pext {
        assert(flags.len() == 2);
        assert(flags[0] == "-C"@);
        if seq_contains(text, "rarog_pext"@) {
            lemma_join_occurrence(flags, ' ', "rarog_pext"@);
            let k = choose|k: int| 0 <= k < flags.len() && seq_contains(#[trigger] flags[k], "rarog_pext"@);
            assert(k == 0 || k == 1);
        }
        if seq_contains(text, "bmi2"@) {
            lemma_join_occurrence(flags, ' ', "bmi2"@);
            let k = choose|k: int| 0 <= k < flags.len() && seq_contains(#[trigger] flags[k], "bmi2"@);
            assert(k == 0 || k == 1);
        }
    }
}

/// A defaulted target always suits the arch it was chosen for and names the
/// host's operating system.
pub proof fn lemma_default_target_suits(arch: Arch, host: Seq<char>)
    ensures
        arch_matches_target(arch, default_target_spec(arch, host)),
        os_name_spec(default_target_spec(arch, host)) == os_name_spec(host),
{
    reveal_strlit("aarch64-pc-windows-msvc");
    reveal_strlit("aarch64-apple-darwin");
    reveal_strlit("aarch64-unknown-linux-gnu");
    reveal_strlit("x86_64-pc-windows-msvc");
    reveal_strlit("x86_64-apple-darwin");
    reveal_strlit("x86_64-unknown-linux-gnu");
    reveal_strlit("aarch64-");
    reveal_strlit("x86_64-");
    reveal_strlit("windows");
    reveal_strlit("apple-darwin");
    reveal_with_fuel(seq_has_char, 26);
    let t = default_target_spec(arch, host);
    let windows = "windows"@;
    let darwin = "apple-darwin"@;
    if arch == Arch::Arm64 {
        assert(t.subrange(0, 8) =~= "aarch64-"@);
    } else {
        assert(t.subrange(0, 7) =~= "x86_64-"@);
    }
    if seq_contains(host, windows) {
        let at: int = if arch == Arch::Arm64 {
            11
        } else {
            10
        };
        assert(t.subrange(at, at + 7) =~= windows);
        assert(seq_occurs_at(t, windows, at));
    } else if seq_contains(host, darwin) {
        let at: int = if arch == Arch::Arm64 {
            8
        } else {
            7
        };
        assert(t.subrange(at, at + 12) =~= darwin);
        assert(seq_occurs_at(t, darwin, at));
        lemma_missing_char_blocks(t, windows, 4);
    } else {
        lemma_missing_char_blocks(t, windows, 3);
        lemma_missing_char_blocks(t, darwin, 1);
    }
}

/// Without `--arch` the build follows the host: ARM64 on every host whose
/// triple starts `aarch64-`, x86-64 on every other, never AVX2 or PEXT.
pub proof fn lemma_default_arch_follows_host(host: Seq<char>)
    ensures
        (default_arch_spec(host) == Arch::Arm64) <==> seq_starts_with(host, "aarch64-"@),
        (default_arch_spec(host) == Arch::Base) <==> !seq_starts_with(host, "aarch64-"@),
{
}

/// On each of the six triples releases are built for, a build with neither
/// `--arch` nor `--target` builds for the host's own triple.
pub proof fn lemma_defaults_build_for_the_host(host: Seq<char>)
    requires
        host == "x86_64-pc-windows-msvc"@ || host == "x86_64-apple-darwin"@ || host
            == "x86_64-unknown-linux-gnu"@ || host == "aarch64-pc-windows-msvc"@ || host
            == "aarch64-apple-darwin"@ || host == "aarch64-unknown-linux-gnu"@,
    ensures
        default_target_spec(default_arch_spec(host), host) == host,
{
    reveal_strlit("aarch64-pc-windows-msvc");
    reveal_strlit("aarch64-apple-darwin");
    reveal_strlit("aarch64-unknown-linux-gnu");
    reveal_strlit("x86_64-pc-windows-msvc");
    reveal_strlit("x86_64-apple-darwin");
    reveal_strlit("x86_64-unknown-linux-gnu");
    reveal_strlit("aarch64-");
    reveal_strlit("windows");
    reveal_strlit("apple-darwin");
    reveal_with_fuel(seq_has_char, 26);
    let windows = "windows"@;
    let darwin = "apple-darwin"@;
    let arm = host[0] == 'a';
    if arm {
        assert(host.subrange(0, 8) =~= "aarch64-"@);
    } else {
        assert(host.subrange(0, 8)[0] != "aarch64-"@[0]);
    }
    let k: int = if arm {
        8
    } else {
        7
    };
    if host[k] == 'p' {
        let at: int = k + 3;
        assert(host.subrange(at, at + 7) =~= windows);
        assert(seq_occurs_at(host, windows, at));
    } else if host[k] == 'a' {
        let at: int = if arm {
            8
        } else {
            7
        };
        assert(host.subrange(at, at + 12) =~= darwin);
        assert(seq_occurs_at(host, darwin, at));
        lemma_missing_char_blocks(host, windows, 4);
    } else {
        lemma_missing_char_blocks(host, windows, 3);
        lemma_missing_char_blocks(host, darwin, 1);
    }
}

/// The arch part of an asset name is the `--arch` spelling, except that the
/// baseline x86 build is named `x86-64`: x86-64, avx2, pext, arm64; and
/// distinct archs never share an asset name.
pub proof fn lemma_asset_arch_names(arch: Arch, other: Arch)
    ensures
        asset_arch_name_spec(arch) == (if arch == Arch::Base {
            "x86-64"@
        } else {
            arch_arg_name_spec(arch)
        }),
        asset_arch_name_spec(Arch::Base) == "x86-64"@,
        asset_arch_name_spec(Arch::Avx2) == "avx2"@,
        asset_arch_name_spec(Arch::Pext) == "pext"@,
        asset_arch_name_spec(Arch::Arm64) == "arm64"@,
        arch != other ==> asset_arch_name_spec(arch) != asset_arch_name_spec(other),
{
    reveal_strlit("x86-64");
    reveal_strlit("avx2");
    reveal_strlit("pext");
    reveal_strlit("arm64");
    assert("x86-64"@[0] != "avx2"@[0]);
    assert("x86-64"@[0] != "pext"@[0]);
    assert("x86-64"@[0] != "arm64"@[0]);
    assert("avx2"@[0] != "pext"@[0]);
    assert("avx2"@.len() != "arm64"@.len());
    assert("pext"@.len() != "arm64"@.len());
}

/// Every asset name carries its arch's name between dashes or at the end:
/// the part after `rarog-v<version>-<os>-` begins with the asset arch name.
pub proof fn lemma_asset_name_names_the_arch(
    arch: Arch,
    native: bool,
    target: Seq<char>,
    pgo: bool,
    version: Seq<char>,
)
    ensures
        ({
            let name = asset_name_spec(arch, native, target, pgo, version);
            let at = "rarog-v"@.len() + version.len() + 1 + os_name_spec(target).len() + 1;
            seq_occurs_at(name, asset_arch_name_spec(arch), at as int)
                && seq_occurs_at(name, "-"@ + asset_arch_name_spec(arch), at - 1)
        }),
        arch == Arch::Arm64 ==> seq_contains(
            asset_name_spec(arch, native, target, pgo, version),
            "-arm64"@,
        ),
{
    let name = asset_name_spec(arch, native, target, pgo, version);
    let head = "rarog-v"@ + version + "-"@ + os_name_spec(target);
    let at: int = ("rarog-v"@.len() + version.len() + 1 + os_name_spec(target).len() + 1) as int;
    reveal_strlit("-");
    let a = asset_arch_name_spec(arch);
    assert(name.subrange(at, at + a.len() as int) =~= a);
    assert(name.subrange(at - 1, at + a.len() as int) =~= "-"@ + a);
    if arch == Arch::Arm64 {
        reveal_strlit("arm64");
        reveal_strlit("-arm64");
        assert("-"@ + a =~= "-arm64"@);
        assert(seq_occurs_at(name, "-arm64"@, at - 1));
    }
}

/// The three patterns have no space, and each flag text they must not be
/// found in lacks one of the pattern's characters.
proof fn lemma_flag_pattern_facts()
    ensures
        forall|j: int| 0 <= j < "target-cpu=native"@.len() ==> "target-cpu=native"@[j] != ' ',
        forall|j: int| 0 <= j < "rarog_pext"@.len() ==> "rarog_pext"@[j] != ' ',
        forall|j: int| 0 <= j < "bmi2"@.len() ==> "bmi2"@[j] != ' ',
        "target-cpu=native"@.len() > 0,
        "rarog_pext"@.len() > 0,
        "bmi2"@.len() > 0,
        !seq_contains("-C"@, "target-cpu=native"@),
        !seq_contains("--cfg"@, "target-cpu=native"@),
        !seq_contains("rarog_pext"@, "target-cpu=native"@),
        !seq_contains("target-feature=+bmi2"@, "target-cpu=native"@),
        !seq_contains("target-cpu="@ + "x86-64"@, "target-cpu=native"@),
        !seq_contains("target-cpu="@ + "x86-64-v3"@, "target-cpu=native"@),
        !seq_contains("target-cpu="@ + "generic"@, "target-cpu=native"@),
        !seq_contains("-C"@, "rarog_pext"@),
        !seq_contains("target-cpu=native"@, "rarog_pext"@),
        !seq_contains("target-cpu="@ + "x86-64"@, "rarog_pext"@),
        !seq_contains("target-cpu="@ + "x86-64-v3"@, "rarog_pext"@),
        !seq_contains("target-cpu="@ + "generic"@, "rarog_pext"@),
        !seq_contains("-C"@, "bmi2"@),
        !seq_contains("target-cpu=native"@, "bmi2"@),
        !seq_contains("target-cpu="@ + "x86-64"@, "bmi2"@),
        !seq_contains("target-cpu="@ + "x86-64-v3"@, "bmi2"@),
        !seq_contains("target-cpu="@ + "generic"@, "bmi2"@),
{
    reveal_strlit("-C");
    reveal_strlit("--cfg");
    reveal_strlit("rarog_pext");
    reveal_strlit("target-feature=+bmi2");
    reveal_strlit("target-cpu=native");
    reveal_strlit("target-cpu=");
    reveal_strlit("x86-64");
    reveal_strlit("x86-64-v3");
    reveal_strlit("generic");
    reveal_strlit("bmi2");
    reveal_with_fuel(seq_has_char, 21);
    let native = "target-cpu=native"@;
    let pext = "rarog_pext"@;
    let bmi2 = "bmi2"@;
    let x86 = "target-cpu="@ + "x86-64"@;
    let v3 = "target-cpu="@ + "x86-64-v3"@;
    let generic = "target-cpu="@ + "generic"@;
    lemma_missing_char_nowhere(native, ' ');
    lemma_missing_char_nowhere(pext, ' ');
    lemma_missing_char_nowhere(bmi2, ' ');
    // 't' of "target-cpu=native" is missing from `-C` and `--cfg`, 'c' from
    // `rarog_pext` and the feature flag, 'i' from the x86 baselines and 'v'
    // from `generic`.
    lemma_missing_char_blocks("-C"@, native, 0);
    lemma_missing_char_blocks("--cfg"@, native, 0);
    lemma_missing_char_blocks(pext, native, 7);
    lemma_missing_char_blocks("target-feature=+bmi2"@, native, 7);
    lemma_missing_char_blocks(x86, native, 14);
    lemma_missing_char_blocks(v3, native, 14);
    lemma_missing_char_blocks(generic, native, 15);
    // '_' of "rarog_pext" and 'b' of "bmi2" are missing from every CPU flag.
    lemma_missing_char_blocks("-C"@, pext, 5);
    lemma_missing_char_blocks(native, pext, 5);
    lemma_missing_char_blocks(x86, pext, 5);
    lemma_missing_char_blocks(v3, pext, 5);
    lemma_missing_char_blocks(generic, pext, 5);
    lemma_missing_char_blocks("-C"@, bmi2, 0);
    lemma_missing_char_blocks(native, bmi2, 0);
    lemma_missing_char_blocks(x86, bmi2, 0);
    lemma_missing_char_blocks(v3, bmi2, 0);
    lemma_missing_char_blocks(generic, bmi2, 0);
}

} // verus!
