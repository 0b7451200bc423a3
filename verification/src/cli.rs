//! The build helper's command line.
use vstd::prelude::*;
use crate::release::{
    Arch, default_arch, default_arch_spec, default_target, default_target_spec,
    ensure_native_is_buildable, native_bmi2_error_spec, native_is_buildable_spec,
};
use crate::text::{
    is_ascii_digit, seq_ascii_lower, str_ascii_lower, str_equals, string_of,
};

verus! {

/// A release build as asked for on the command line.
#[derive(Clone, Debug, PartialEq, Eq)]
pub struct Config {
    pub arch: Arch,
    /// Tune for the host CPU instead of the arch's portable baseline.
    pub native: bool,
    pub target: String,
    pub pgo: bool,
    pub bench_depth: u16,
}

/// What the command line asks for.
#[derive(Clone, Debug, PartialEq, Eq)]
pub enum Invocation {
    /// Print the usage text and stop successfully.
    Help,
    Build(Config),
}

/// A parsed command line. `legacy_native_notes` counts the `--arch native`
/// spellings met before parsing ended, each of which earns a deprecation note.
#[derive(Debug, PartialEq, Eq)]
pub struct ParsedArgs {
    pub legacy_native_notes: usize,
    pub result: Result<Invocation, String>,
}

// ---------------------------------------------------------------- arch

/// The arch a user spelling names, ASCII case ignored.
pub open spec fn arch_from_name(lower: Seq<char>) -> Option<Arch> {
    if lower == "base"@ || lower == "x86-64"@ || lower == "x86_64"@ || lower == "x64"@ {
        Some(Arch::Base)
    } else if lower == "avx2"@ {
        Some(Arch::Avx2)
    } else if lower == "pext"@ || lower == "bmi2"@ {
        Some(Arch::Pext)
    } else if lower == "arm64"@ || lower == "aarch64"@ {
        Some(Arch::Arm64)
    } else {
        None
    }
}

pub open spec fn unknown_arch_error(value: Seq<char>) -> Seq<char> {
    "unknown arch `"@ + value + "`; expected base, avx2, pext, or arm64"@
}

pub open spec fn parse_arch_spec(value: Seq<char>) -> Result<Arch, Seq<char>> {
    match arch_from_name(seq_ascii_lower(value)) {
        Some(arch) => Ok(arch),
        None => Err(unknown_arch_error(value)),
    }
}

/// Reads an arch name. `native` is not an arch: host tuning is a separate flag.
pub fn parse_arch(value: &str) -> (res: Result<Arch, String>)
    ensures
        match res {
            Ok(arch) => parse_arch_spec(value@) == Ok::<Arch, Seq<char>>(arch),
            Err(msg) => parse_arch_spec(value@) == Err::<Arch, Seq<char>>(msg@),
        },
{
    let lower = str_ascii_lower(value);
    let l = lower.as_str();
    if str_equals(l, "base") || str_equals(l, "x86-64") || str_equals(l, "x86_64") || str_equals(
        l,
        "x64",
    ) {
        Ok(Arch::Base)
    } else if str_equals(l, "avx2") {
        Ok(Arch::Avx2)
    } else if str_equals(l, "pext") || str_equals(l, "bmi2") {
        Ok(Arch::Pext)
    } else if str_equals(l, "arm64") || str_equals(l, "aarch64") {
        Ok(Arch::Arm64)
    } else {
        let mut msg = string_of("unknown arch `");
        msg.append(value);
        msg.append("`; expected base, avx2, pext, or arm64");
        Err(msg)
    }
}

// ---------------------------------------------------------------- numbers

/// Value of a string of decimal digits.
pub open spec fn decimal_value(d: Seq<char>) -> int
    decreases d.len(),
{
    if d.len() == 0 {
        0
    } else {
        decimal_value(d.drop_last()) * 10 + (d.last() as int - '0' as int)
    }
}

pub open spec fn all_digits(d: Seq<char>) -> bool {
    forall|i: int| 0 <= i < d.len() ==> is_ascii_digit(#[trigger] d[i])
}

/// A `u16` written in decimal: an optional `+`, then at least one digit,
/// with a value that fits in 16 bits.
pub open spec fn parse_u16_spec(s: Seq<char>) -> Option<u16> {
    let d = if s.len() > 0 && s[0] == '+' {
        s.drop_first()
    } else {
        s
    };
    if d.len() > 0 && all_digits(d) && decimal_value(d) <= u16::MAX {
        Some(decimal_value(d) as u16)
    } else {
        None
    }
}

pub fn parse_u16(s: &str) -> (res: Option<u16>)
    ensures
        res == parse_u16_spec(s@),
{
    let n = s.unicode_len();
    let start: usize = if n > 0 && s.get_char(0) == '+' {
        1
    } else {
        0
    };
    let ghost d = s@.subrange(start as int, n as int);
    assert(d =~= (if s@.len() > 0 && s@[0] == '+' {
        s@.drop_first()
    } else {
        s@
    }));
    if start == n {
        assert(d.len() == 0);
        return None;
    }
    let mut acc: u32 = 0;
    let mut over = false;
    let mut i = start;
    while i < n
        invariant
            n == s@.len(),
            start <= i <= n,
            d == s@.subrange(start as int, n as int),
            d == (if s@.len() > 0 && s@[0] == '+' {
                s@.drop_first()
            } else {
                s@
            }),
            all_digits(s@.subrange(start as int, i as int)),
            over ==> decimal_value(s@.subrange(start as int, i as int)) > u16::MAX,
            !over ==> acc == decimal_value(s@.subrange(start as int, i as int)),
            acc <= u16::MAX,
        decreases n - i,
    {
        let c = s.get_char(i);
        let ghost prefix = s@.subrange(start as int, i as int);
        let ghost next = s@.subrange(start as int, i + 1);
        assert(next.drop_last() =~= prefix);
        if !('0' <= c && c <= '9') {
            assert(d[i - start] == c);
            assert(!is_ascii_digit(d[i - start]));
            return None;
        }
        assert(all_digits(next)) by {
            assert forall|k: int| 0 <= k < next.len() implies is_ascii_digit(#[trigger] next[k]) by {
                if k < prefix.len() {
                    assert(next[k] == prefix[k]);
                }
            }
        }
        if !over {
            let digit: u32 = (c as u32) - ('0' as u32);
            let value = acc * 10 + digit;
            if value > 65535 {
                over = true;
            } else {
                acc = value;
            }
        }
        i += 1;
    }
    assert(s@.subrange(start as int, n as int) == d);
    if over {
        None
    } else {
        Some(acc as u16)
    }
}

// ---------------------------------------------------------------- arguments

/// Settings gathered while reading the arguments after the command.
pub struct ScanState {
    pub arch: Option<Arch>,
    pub target: Option<Seq<char>>,
    pub pgo: bool,
    pub native: bool,
    pub bench_depth: u16,
    pub notes: nat,
}

/// Where reading the arguments ends.
pub enum ScanEnd {
    Help { notes: nat },
    Fail { notes: nat, msg: Seq<char> },
    Done(ScanState),
}

pub open spec fn missing_value_error(flag: Seq<char>) -> Seq<char> {
    "`"@ + flag + "` requires a value"@
}

pub open spec fn invalid_depth_error(value: Seq<char>) -> Seq<char> {
    "invalid bench depth `"@ + value + "`"@
}

pub open spec fn unknown_argument_error(arg: Seq<char>) -> Seq<char> {
    "unknown argument `"@ + arg + "`"@
}

/// Reading `args[i..]` from state `st`. Flags that take a value consume the
/// argument after them.
pub open spec fn scan_args(args: Seq<Seq<char>>, i: int, st: ScanState) -> ScanEnd
    decreases args.len() - i,
{
    if i < 0 || i >= args.len() {
        ScanEnd::Done(st)
    } else {
        let a = args[i];
        let has_value = i + 1 < args.len();
        if a == "--arch"@ || a == "-a"@ {
            if !has_value {
                ScanEnd::Fail { notes: st.notes, msg: missing_value_error("--arch"@) }
            } else if seq_ascii_lower(args[i + 1]) == "native"@ {
                scan_args(
                    args,
                    i + 2,
                    ScanState { arch: Some(Arch::Pext), native: true, notes: st.notes + 1, ..st },
                )
            } else {
                match parse_arch_spec(args[i + 1]) {
                    Ok(arch) => scan_args(args, i + 2, ScanState { arch: Some(arch), ..st }),
                    Err(msg) => ScanEnd::Fail { notes: st.notes, msg },
                }
            }
        } else if a == "--target"@ || a == "-t"@ {
            if !has_value {
                ScanEnd::Fail { notes: st.notes, msg: missing_value_error("--target"@) }
            } else {
                scan_args(args, i + 2, ScanState { target: Some(args[i + 1]), ..st })
            }
        } else if a == "--pgo"@ {
            scan_args(args, i + 1, ScanState { pgo: true, ..st })
        } else if a == "--native"@ {
            scan_args(args, i + 1, ScanState { native: true, ..st })
        } else if a == "--bench-depth"@ {
            if !has_value {
                ScanEnd::Fail { notes: st.notes, msg: missing_value_error("--bench-depth"@) }
            } else {
                match parse_u16_spec(args[i + 1]) {
                    Some(depth) => scan_args(args, i + 2, ScanState { bench_depth: depth, ..st }),
                    None => ScanEnd::Fail { notes: st.notes, msg: invalid_depth_error(args[i + 1]) },
                }
            }
        } else if a == "--help"@ || a == "-h"@ {
            ScanEnd::Help { notes: st.notes }
        } else {
            ScanEnd::Fail { notes: st.notes, msg: unknown_argument_error(a) }
        }
    }
}

/// The state before any option is read: bench depth 13, everything else off.
pub open spec fn initial_scan_state() -> ScanState {
    ScanState { arch: None, target: None, pgo: false, native: false, bench_depth: 13, notes: 0 }
}

/// The command line's meaning, as a spec: `Ok(None)` is a request for help,
/// `Ok(Some(..))` a build as (arch, native, target, pgo, bench depth), and
/// the note count is that of `--arch native` spellings read before the end.
pub open spec fn parse_args_spec(args: Seq<Seq<char>>, host: Seq<char>, bmi2_available: bool) -> (
    nat,
    Result<Option<(Arch, bool, Seq<char>, bool, u16)>, Seq<char>>,
) {
    let command = if args.len() == 0 {
        "build"@
    } else {
        args[0]
    };
    if command == "help"@ || command == "--help"@ || command == "-h"@ {
        (0, Ok(None))
    } else if command != "build"@ {
        (
            0,
            Err(
                "unknown command `"@ + command + "`; expected `build`. Run `cargo xtask help`."@,
            ),
        )
    } else {
        finish_scan(scan_args(args, 1, initial_scan_state()), host, bmi2_available)
    }
}

/// The command line's meaning once the options after `build` are read:
/// defaults filled in for what was not given, then the BMI2 guard.
pub open spec fn finish_scan(end: ScanEnd, host: Seq<char>, bmi2_available: bool) -> (
    nat,
    Result<Option<(Arch, bool, Seq<char>, bool, u16)>, Seq<char>>,
) {
    match end {
        ScanEnd::Help { notes } => (notes, Ok(None)),
        ScanEnd::Fail { notes, msg } => (notes, Err(msg)),
        ScanEnd::Done(st) => {
            let arch = match st.arch {
                Some(a) => a,
                None => default_arch_spec(host),
            };
            let target = match st.target {
                Some(t) => t,
                None => default_target_spec(arch, host),
            };
            if native_is_buildable_spec(arch, st.native, target, host, bmi2_available) {
                (st.notes, Ok(Some((arch, st.native, target, st.pgo, st.bench_depth))))
            } else {
                (st.notes, Err(native_bmi2_error_spec()))
            }
        },
    }
}

pub open spec fn args_view(args: Seq<String>) -> Seq<Seq<char>> {
    args.map_values(|s: String| s@)
}

/// What a parsed command line says, in the terms of `parse_args_spec`.
pub open spec fn parsed_view(p: ParsedArgs) -> (
    nat,
    Result<Option<(Arch, bool, Seq<char>, bool, u16)>, Seq<char>>,
) {
    (
        p.legacy_native_notes as nat,
        match p.result {
            Ok(Invocation::Help) => Ok(None),
            Ok(Invocation::Build(c)) => Ok(Some((c.arch, c.native, c.target@, c.pgo, c.bench_depth))),
            Err(msg) => Err(msg@),
        },
    )
}

fn fail(notes: usize, msg: String) -> (p: ParsedArgs)
    ensures
        p.legacy_native_notes == notes,
        p.result matches Err(m) && m@ == msg@,
{
    ParsedArgs { legacy_native_notes: notes, result: Err(msg) }
}

fn missing_value(notes: usize, flag: &str) -> (p: ParsedArgs)
    ensures
        p.legacy_native_notes == notes,
        p.result matches Err(m) && m@ == missing_value_error(flag@),
{
    let mut msg = string_of("`");
    msg.append(flag);
    msg.append("` requires a value");
    fail(notes, msg)
}

/// Reads the arguments after the program name. `host` is the host's triple
/// (empty when it could not be learned) and `bmi2_available` whether the
/// host CPU can run PEXT code.
pub fn parse_args(args: &Vec<String>, host: &str, bmi2_available: bool) -> (p: ParsedArgs)
    requires
        args@.len() < usize::MAX,
    ensures
        parsed_view(p) == parse_args_spec(args_view(args@), host@, bmi2_available),
{
    let ghost av = args_view(args@);
    let n = args.len();
    if n > 0 {
        let command = args[0].as_str();
        if str_equals(command, "help") || str_equals(command, "--help") || str_equals(command, "-h") {
            return ParsedArgs { legacy_native_notes: 0, result: Ok(Invocation::Help) };
        }
        if !str_equals(command, "build") {
            let mut msg = string_of("unknown command `");
            msg.append(command);
            msg.append("`; expected `build`. Run `cargo xtask help`.");
            return fail(0, msg);
        }
    } else {
        proof {
            reveal_strlit("build");
            reveal_strlit("help");
            reveal_strlit("--help");
            reveal_strlit("-h");
            assert("build"@.len() != "help"@.len());
            assert("build"@.len() != "--help"@.len());
            assert("build"@.len() != "-h"@.len());
        }
    }
    let mut arch: Option<Arch> = None;
    let mut target: Option<String> = None;
    let mut pgo = false;
    let mut native = false;
    let mut bench_depth: u16 = 13;
    let mut notes: usize = 0;
    let mut i: usize = 1;
    while i < n
        invariant
            n == args@.len(),
            n < usize::MAX,
            av == args_view(args@),
            1 <= i,
            notes <= i,
            parse_args_spec(av, host@, bmi2_available) == finish_scan(
                scan_args(av, 1, initial_scan_state()),
                host@,
                bmi2_available,
            ),
            scan_args(av, 1, initial_scan_state()) == scan_args(
                av,
                i as int,
                ScanState {
                    arch,
                    target: match target {
                        Some(t) => Some(t@),
                        None => None,
                    },
                    pgo,
                    native,
                    bench_depth,
                    notes: notes as nat,
                },
            ),
        decreases n - i,
    {
        let a = args[i].as_str();
        let has_value = i + 1 < n;
        assert(av[i as int] == a@);
        assert(has_value ==> av[i + 1] == args@[i + 1]@);
        if str_equals(a, "--arch") || str_equals(a, "-a") {
            if !has_value {
                return missing_value(notes, "--arch");
            }
            let value = args[i + 1].as_str();
            let lower = str_ascii_lower(value);
            if str_equals(lower.as_str(), "native") {
                arch = Some(Arch::Pext);
                native = true;
                notes = notes + 1;
            } else {
                match parse_arch(value) {
                    Ok(a) => {
                        arch = Some(a);
                    },
                    Err(msg) => {
                        return fail(notes, msg);
                    },
                }
            }
            i = i + 2;
        } else if str_equals(a, "--target") || str_equals(a, "-t") {
            if !has_value {
                return missing_value(notes, "--target");
            }
            target = Some(args[i + 1].clone());
            i = i + 2;
        } else if str_equals(a, "--pgo") {
            pgo = true;
            i = i + 1;
        } else if str_equals(a, "--native") {
            native = true;
            i = i + 1;
        } else if str_equals(a, "--bench-depth") {
            if !has_value {
                return missing_value(notes, "--bench-depth");
            }
            let value = args[i + 1].as_str();
            match parse_u16(value) {
                Some(depth) => {
                    bench_depth = depth;
                },
                None => {
                    let mut msg = string_of("invalid bench depth `");
                    msg.append(value);
                    msg.append("`");
                    return fail(notes, msg);
                },
            }
            i = i + 2;
        } else if str_equals(a, "--help") || str_equals(a, "-h") {
            return ParsedArgs { legacy_native_notes: notes, result: Ok(Invocation::Help) };
        } else {
            let mut msg = string_of("unknown argument `");
            msg.append(a);
            msg.append("`");
            return fail(notes, msg);
        }
    }
    let arch = match arch {
        Some(a) => a,
        None => default_arch(host),
    };
    let target = match target {
        Some(t) => t,
        None => default_target(arch, host),
    };
    match ensure_native_is_buildable(arch, native, target.as_str(), host, bmi2_available) {
        Ok(()) => ParsedArgs {
            legacy_native_notes: notes,
            result: Ok(Invocation::Build(Config { arch, native, target, pgo, bench_depth })),
        },
        Err(msg) => fail(notes, msg),
    }
}

// ---------------------------------------------------------------- laws

/// `native` is not an arch, in any letter case: host tuning is the separate
/// `--native` flag.
pub proof fn lemma_native_is_not_an_arch(value: Seq<char>)
    requires
        seq_ascii_lower(value) == "native"@,
    ensures
        parse_arch_spec(value) is Err,
{
    reveal_strlit("native");
    reveal_strlit("base");
    reveal_strlit("x86-64");
    reveal_strlit("x86_64");
    reveal_strlit("x64");
    reveal_strlit("avx2");
    reveal_strlit("pext");
    reveal_strlit("bmi2");
    reveal_strlit("arm64");
    reveal_strlit("aarch64");
    let l = seq_ascii_lower(value);
    assert(l[0] == 'n');
    assert(l != "x86-64"@) by {
        assert("x86-64"@[0] == 'x');
    }
    assert(l != "x86_64"@) by {
        assert("x86_64"@[0] == 'x');
    }
    assert(l.len() == 6);
}

} // verus!
