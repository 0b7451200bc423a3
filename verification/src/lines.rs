//! Reading tool output and manifests: lines, trimming and the two fields the
//! build helper needs from them.
use vstd::prelude::*;
use crate::release::{strings_view, tool_name, tool_name_spec};
use crate::text::{seq_starts_with, str_starts_with, string_of};

verus! {

// ---------------------------------------------------------------- whitespace

/// Unicode `White_Space`, the set `char::is_whitespace` documents.
pub open spec fn is_whitespace(c: char) -> bool {
    ('\u{9}' <= c && c <= '\u{d}') || c == ' ' || c == '\u{85}' || c == '\u{a0}' || c == '\u{1680}'
        || ('\u{2000}' <= c && c <= '\u{200a}') || c == '\u{2028}' || c == '\u{2029}' || c
        == '\u{202f}' || c == '\u{205f}' || c == '\u{3000}'
}

pub fn char_is_whitespace(c: char) -> (b: bool)
    ensures
        b == is_whitespace(c),
{
    ('\u{9}' <= c && c <= '\u{d}') || c == ' ' || c == '\u{85}' || c == '\u{a0}' || c == '\u{1680}'
        || ('\u{2000}' <= c && c <= '\u{200a}') || c == '\u{2028}' || c == '\u{2029}' || c
        == '\u{202f}' || c == '\u{205f}' || c == '\u{3000}'
}

/// A character trimmed away: white space, or the double quote when `quote`.
pub open spec fn trimmed_char(c: char, quote: bool) -> bool {
    if quote {
        c == '"'
    } else {
        is_whitespace(c)
    }
}

/// First index at or after `i` holding a character that is not trimmed.
pub open spec fn trim_start_from(s: Seq<char>, i: int, quote: bool) -> int
    decreases s.len() - i,
{
    if 0 <= i < s.len() && trimmed_char(s[i], quote) {
        trim_start_from(s, i + 1, quote)
    } else {
        i
    }
}

/// End of `s[lo..j]` once trimmed characters are removed from its end.
pub open spec fn trim_end_to(s: Seq<char>, lo: int, j: int) -> int
    decreases j - lo,
{
    if lo < j && j <= s.len() && is_whitespace(s[j - 1]) {
        trim_end_to(s, lo, j - 1)
    } else {
        j
    }
}

pub open spec fn trim_quote_end_to(s: Seq<char>, lo: int, j: int) -> int
    decreases j - lo,
{
    if lo < j && j <= s.len() && s[j - 1] == '"' {
        trim_quote_end_to(s, lo, j - 1)
    } else {
        j
    }
}

/// `s` without leading and trailing white space, as `str::trim` gives it.
pub open spec fn trim_spec(s: Seq<char>) -> Seq<char> {
    let a = trim_start_from(s, 0, false);
    s.subrange(a, trim_end_to(s, a, s.len() as int))
}

/// `s` without leading and trailing double quotes.
pub open spec fn trim_quotes_spec(s: Seq<char>) -> Seq<char> {
    let a = trim_start_from(s, 0, true);
    s.subrange(a, trim_quote_end_to(s, a, s.len() as int))
}

fn char_is_trimmed(c: char, quote: bool) -> (b: bool)
    ensures
        b == trimmed_char(c, quote),
{
    if quote {
        c == '"'
    } else {
        char_is_whitespace(c)
    }
}

fn trim_bounds(s: &str, quote: bool) -> (r: (usize, usize))
    ensures
        r.0 == trim_start_from(s@, 0, quote),
        quote ==> r.1 == trim_quote_end_to(s@, r.0 as int, s@.len() as int),
        !quote ==> r.1 == trim_end_to(s@, r.0 as int, s@.len() as int),
        r.0 <= r.1 <= s@.len(),
{
    let n = s.unicode_len();
    let mut a: usize = 0;
    while a < n && char_is_trimmed(s.get_char(a), quote)
        invariant
            n == s@.len(),
            a <= n,
            trim_start_from(s@, 0, quote) == trim_start_from(s@, a as int, quote),
        decreases n - a,
    {
        a += 1;
    }
    let mut b: usize = n;
    while b > a && char_is_trimmed(s.get_char(b - 1), quote)
        invariant
            n == s@.len(),
            a <= b <= n,
            quote ==> trim_quote_end_to(s@, a as int, n as int) == trim_quote_end_to(
                s@,
                a as int,
                b as int,
            ),
            !quote ==> trim_end_to(s@, a as int, n as int) == trim_end_to(s@, a as int, b as int),
        decreases b - a,
    {
        b -= 1;
    }
    (a, b)
}

pub fn trim(s: &str) -> (r: &str)
    ensures
        r@ == trim_spec(s@),
{
    let (a, b) = trim_bounds(s, false);
    s.substring_char(a, b)
}

pub fn trim_quotes(s: &str) -> (r: &str)
    ensures
        r@ == trim_quotes_spec(s@),
{
    let (a, b) = trim_bounds(s, true);
    s.substring_char(a, b)
}

// ---------------------------------------------------------------- lines

/// Index of the first `\n` at or after `j`, or the length when there is none.
pub open spec fn next_newline(s: Seq<char>, j: int) -> int
    decreases s.len() - j,
{
    if j < 0 || j >= s.len() {
        s.len() as int
    } else if s[j] == '\n' {
        j
    } else {
        next_newline(s, j + 1)
    }
}

/// The line running from `start` to the end `e`, without its terminator: a
/// `\r` is dropped only when a `\n` follows it.
pub open spec fn line_at(s: Seq<char>, start: int, e: int) -> Seq<char> {
    let raw = s.subrange(start, e);
    if e < s.len() && raw.len() > 0 && raw.last() == '\r' {
        raw.drop_last()
    } else {
        raw
    }
}

/// The lines of `s[start..]`, as `str::lines` yields them.
pub open spec fn lines_from(s: Seq<char>, start: int) -> Seq<Seq<char>>
    decreases s.len() + 1 - start,
{
    if start < 0 || start >= s.len() {
        Seq::empty()
    } else {
        let e = next_newline(s, start);
        proof {
            lemma_next_newline_bounds(s, start);
        }
        seq![line_at(s, start, e)] + lines_from(s, e + 1)
    }
}

pub proof fn lemma_next_newline_bounds(s: Seq<char>, j: int)
    requires
        0 <= j,
    ensures
        j <= next_newline(s, j) <= s.len() || (j > s.len() && next_newline(s, j) == s.len()),
        next_newline(s, j) < s.len() ==> s[next_newline(s, j)] == '\n',
    decreases s.len() - j,
{
    if j < s.len() && s[j] != '\n' {
        lemma_next_newline_bounds(s, j + 1);
    }
}

/// The line starting at `start`: its end (the `\n` or the end of `s`) and its text.
fn line_from(s: &str, start: usize) -> (r: (usize, &str))
    requires
        start < s@.len(),
    ensures
        r.0 == next_newline(s@, start as int),
        r.1@ == line_at(s@, start as int, r.0 as int),
{
    proof {
        lemma_next_newline_bounds(s@, start as int);
    }
    let n = s.unicode_len();
    let mut e = start;
    while e < n && s.get_char(e) != '\n'
        invariant
            n == s@.len(),
            start <= e <= n,
            next_newline(s@, start as int) == next_newline(s@, e as int),
        decreases n - e,
    {
        e += 1;
    }
    let raw = s.substring_char(start, e);
    if e < n && e > start && s.get_char(e - 1) == '\r' {
        assert(raw@.last() == s@[e - 1]);
        (e, s.substring_char(start, e - 1))
    } else {
        (e, raw)
    }
}

// ---------------------------------------------------------------- host triple

/// The rest of the first line that starts with `host: `.
pub open spec fn first_host_line(lines: Seq<Seq<char>>) -> Option<Seq<char>>
    decreases lines.len(),
{
    if lines.len() == 0 {
        None
    } else if seq_starts_with(lines[0], "host: "@) {
        Some(lines[0].subrange("host: "@.len() as int, lines[0].len() as int))
    } else {
        first_host_line(lines.drop_first())
    }
}

pub open spec fn host_triple_spec(output: Seq<char>) -> Result<Seq<char>, Seq<char>> {
    match first_host_line(lines_from(trim_spec(output), 0)) {
        Some(host) => Ok(host),
        None => Err("failed to parse rustc host triple"@),
    }
}

/// The host triple from the output of `rustc -vV`.
pub fn host_triple(output: &str) -> (res: Result<String, String>)
    ensures
        match res {
            Ok(h) => host_triple_spec(output@) == Ok::<Seq<char>, Seq<char>>(h@),
            Err(m) => host_triple_spec(output@) == Err::<Seq<char>, Seq<char>>(m@),
        },
{
    let text = trim(output);
    let n = text.unicode_len();
    let ghost t = text@;
    let mut start: usize = 0;
    proof {
        reveal_strlit("host: ");
    }
    while start < n
        invariant
            n == t.len(),
            t == text@,
            t == trim_spec(output@),
            "host: "@.len() == 6,
            first_host_line(lines_from(t, 0)) == first_host_line(lines_from(t, start as int)),
        decreases n - start,
    {
        let (e, line) = line_from(text, start);
        proof {
            lemma_next_newline_bounds(t, start as int);
        }
        let ghost rest = lines_from(t, e + 1);
        assert(lines_from(t, start as int) == seq![line@] + rest);
        assert((seq![line@] + rest).drop_first() =~= rest);
        assert((seq![line@] + rest)[0] == line@);
        if str_starts_with(line, "host: ") {
            let value = line.substring_char(6, line.unicode_len());
            return Ok(string_of(value));
        }
        if e >= n {
            assert(rest =~= Seq::<Seq<char>>::empty());
            assert(first_host_line(lines_from(t, start as int)) == first_host_line(rest));
            assert(first_host_line(rest) == None::<Seq<char>>);
            return Err(string_of("failed to parse rustc host triple"));
        }
        start = e + 1;
    }
    Err(string_of("failed to parse rustc host triple"))
}

// ---------------------------------------------------------------- package version

/// The value of the first line that, trimmed, starts with `version = `,
/// with surrounding double quotes removed.
pub open spec fn first_version_line(lines: Seq<Seq<char>>) -> Option<Seq<char>>
    decreases lines.len(),
{
    if lines.len() == 0 {
        None
    } else {
        let t = trim_spec(lines[0]);
        if seq_starts_with(t, "version = "@) {
            Some(trim_quotes_spec(t.subrange("version = "@.len() as int, t.len() as int)))
        } else {
            first_version_line(lines.drop_first())
        }
    }
}

pub open spec fn package_version_spec(manifest: Seq<char>) -> Result<Seq<char>, Seq<char>> {
    match first_version_line(lines_from(manifest, 0)) {
        Some(v) => Ok(v),
        None => Err("failed to find package version in Cargo.toml"@),
    }
}

/// The package version from the text of `Cargo.toml`.
pub fn package_version(manifest: &str) -> (res: Result<String, String>)
    ensures
        match res {
            Ok(v) => package_version_spec(manifest@) == Ok::<Seq<char>, Seq<char>>(v@),
            Err(m) => package_version_spec(manifest@) == Err::<Seq<char>, Seq<char>>(m@),
        },
{
    let n = manifest.unicode_len();
    let ghost t = manifest@;
    let mut start: usize = 0;
    proof {
        reveal_strlit("version = ");
    }
    while start < n
        invariant
            n == t.len(),
            t == manifest@,
            "version = "@.len() == 10,
            first_version_line(lines_from(t, 0)) == first_version_line(
                lines_from(t, start as int),
            ),
        decreases n - start,
    {
        let (e, line) = line_from(manifest, start);
        proof {
            lemma_next_newline_bounds(t, start as int);
        }
        let ghost rest = lines_from(t, e + 1);
        assert(lines_from(t, start as int) == seq![line@] + rest);
        assert((seq![line@] + rest).drop_first() =~= rest);
        assert((seq![line@] + rest)[0] == line@);
        let trimmed = trim(line);
        if str_starts_with(trimmed, "version = ") {
            let value = trimmed.substring_char(10, trimmed.unicode_len());
            return Ok(string_of(trim_quotes(value)));
        }
        if e >= n {
            assert(rest =~= Seq::<Seq<char>>::empty());
            assert(first_version_line(lines_from(t, start as int)) == first_version_line(rest));
            assert(first_version_line(rest) == None::<Seq<char>>);
            return Err(string_of("failed to find package version in Cargo.toml"));
        }
        start = e + 1;
    }
    Err(string_of("failed to find package version in Cargo.toml"))
}

// ---------------------------------------------------------------- tool paths

/// Where rustup keeps `llvm-profdata` for the host, as path components:
/// under the sysroot `rustc --print sysroot` reports.
pub open spec fn rustup_llvm_profdata_spec(sysroot_output: Seq<char>, host: Seq<char>, windows: bool) -> Seq<
    Seq<char>,
> {
    seq![
        trim_spec(sysroot_output),
        "lib"@,
        "rustlib"@,
        host,
        "bin"@,
        tool_name_spec("llvm-profdata"@, windows),
    ]
}

/// The candidate path of rustup's `llvm-profdata`, from the raw output of
/// `rustc --print sysroot`, the host triple, and whether the host is Windows.
pub fn find_rustup_llvm_profdata(sysroot_output: &str, host: &str, windows: bool) -> (path: Vec<
    String,
>)
    ensures
        strings_view(path@) == rustup_llvm_profdata_spec(sysroot_output@, host@, windows),
{
    let mut path: Vec<String> = Vec::new();
    path.push(string_of(trim(sysroot_output)));
    path.push(string_of("lib"));
    path.push(string_of("rustlib"));
    path.push(string_of(host));
    path.push(string_of("bin"));
    path.push(tool_name("llvm-profdata", windows));
    assert(strings_view(path@) =~= rustup_llvm_profdata_spec(sysroot_output@, host@, windows));
    path
}

} // verus!
