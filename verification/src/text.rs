//! Character-level helpers on `&str`, each tied to a statement over `Seq<char>`.
use vstd::prelude::*;

verus! {

/// `p` is a prefix of `s`.
pub open spec fn seq_starts_with(s: Seq<char>, p: Seq<char>) -> bool {
    p.len() <= s.len() && s.subrange(0, p.len() as int) == p
}

/// `p` is a suffix of `s`.
pub open spec fn seq_ends_with(s: Seq<char>, p: Seq<char>) -> bool {
    p.len() <= s.len() && s.subrange(s.len() - p.len(), s.len() as int) == p
}

/// `p` occurs in `s` starting at position `i`.
pub open spec fn seq_occurs_at(s: Seq<char>, p: Seq<char>, i: int) -> bool {
    0 <= i && i + p.len() <= s.len() && s.subrange(i, i + p.len()) == p
}

/// `p` occurs somewhere in `s`.
pub open spec fn seq_contains(s: Seq<char>, p: Seq<char>) -> bool {
    exists|i: int| #[trigger] seq_occurs_at(s, p, i)
}

/// An ASCII letter or digit.
pub open spec fn is_ascii_alphanumeric(c: char) -> bool {
    ('a' <= c && c <= 'z') || ('A' <= c && c <= 'Z') || ('0' <= c && c <= '9')
}

/// An ASCII decimal digit.
pub open spec fn is_ascii_digit(c: char) -> bool {
    '0' <= c && c <= '9'
}

/// ASCII `A`..`Z` mapped to `a`..`z`; every other character unchanged.
pub open spec fn ascii_lower(c: char) -> char {
    if 'A' <= c && c <= 'Z' {
        (c as u32 + 32) as char
    } else {
        c
    }
}

pub open spec fn seq_ascii_lower(s: Seq<char>) -> Seq<char> {
    s.map_values(|c: char| ascii_lower(c))
}

/// Appends one character to a `String`.
#[verifier::external_body]
pub(crate) fn push_char(s: &mut String, c: char)
    ensures
        final(s)@ == old(s)@.push(c),
{
    s.push(c);
}

/// Lower-cases one ASCII letter.
fn char_to_ascii_lowercase(c: char) -> (r: char)
    ensures
        r == ascii_lower(c),
{
    if 'A' <= c && c <= 'Z' {
        ((c as u32 + 32) as u8) as char
    } else {
        c
    }
}

pub fn char_is_ascii_alphanumeric(c: char) -> (b: bool)
    ensures
        b == is_ascii_alphanumeric(c),
{
    ('a' <= c && c <= 'z') || ('A' <= c && c <= 'Z') || ('0' <= c && c <= '9')
}

/// `c` occurs in `s`.
pub open spec fn seq_has_char(s: Seq<char>, c: char) -> bool
    decreases s.len(),
{
    if s.len() == 0 {
        false
    } else {
        s[0] == c || seq_has_char(s.drop_first(), c)
    }
}

pub proof fn lemma_has_char_at(s: Seq<char>, c: char, k: int)
    requires
        0 <= k < s.len(),
        s[k] == c,
    ensures
        seq_has_char(s, c),
    decreases k,
{
    if k > 0 {
        lemma_has_char_at(s.drop_first(), c, k - 1);
    }
}

/// A pattern one of whose characters occurs nowhere in `s` does not occur in `s`.
pub proof fn lemma_missing_char_blocks(s: Seq<char>, p: Seq<char>, j: int)
    requires
        0 <= j < p.len(),
        !seq_has_char(s, p[j]),
    ensures
        !seq_contains(s, p),
{
    if seq_contains(s, p) {
        let i = choose|i: int| seq_occurs_at(s, p, i);
        assert(s[i + j] == s.subrange(i, i + p.len())[j]);
        lemma_has_char_at(s, p[j], i + j);
    }
}

/// A character that does not occur in `s` is at none of its positions.
pub proof fn lemma_missing_char_nowhere(s: Seq<char>, c: char)
    requires
        !seq_has_char(s, c),
    ensures
        forall|j: int| 0 <= j < s.len() ==> s[j] != c,
{
    assert forall|j: int| 0 <= j < s.len() implies s[j] != c by {
        if s[j] == c {
            lemma_has_char_at(s, c, j);
        }
    }
}

/// The parts joined by the separator, as `[..].join(sep)` gives them.
pub open spec fn seq_join(parts: Seq<Seq<char>>, sep: char) -> Seq<char>
    decreases parts.len(),
{
    if parts.len() == 0 {
        Seq::empty()
    } else if parts.len() == 1 {
        parts[0]
    } else {
        seq_join(parts.drop_last(), sep).push(sep) + parts.last()
    }
}

/// Every part occurs in the joined text.
pub proof fn lemma_join_contains_part(parts: Seq<Seq<char>>, sep: char, k: int)
    requires
        0 <= k < parts.len(),
    ensures
        seq_contains(seq_join(parts, sep), parts[k]),
    decreases parts.len(),
{
    let j = seq_join(parts, sep);
    if parts.len() == 1 {
        assert(j.subrange(0, parts[0].len() as int) =~= parts[0]);
        assert(seq_occurs_at(j, parts[k], 0));
    } else if k == parts.len() - 1 {
        let head = seq_join(parts.drop_last(), sep).push(sep);
        assert(j.subrange(head.len() as int, head.len() + parts[k].len() as int) =~= parts[k]);
        assert(seq_occurs_at(j, parts[k], head.len() as int));
    } else {
        let prefix = parts.drop_last();
        lemma_join_contains_part(prefix, sep, k);
        let jp = seq_join(prefix, sep);
        let i = choose|i: int| seq_occurs_at(jp, prefix[k], i);
        assert(j.subrange(i, i + parts[k].len()) =~= jp.subrange(i, i + parts[k].len()));
        assert(seq_occurs_at(j, parts[k], i));
    }
}

/// A pattern free of the separator that occurs in the joined text occurs
/// within one of the parts.
pub proof fn lemma_join_occurrence(parts: Seq<Seq<char>>, sep: char, p: Seq<char>)
    requires
        p.len() > 0,
        forall|j: int| 0 <= j < p.len() ==> p[j] != sep,
        seq_contains(seq_join(parts, sep), p),
    ensures
        exists|k: int| 0 <= k < parts.len() && seq_contains(#[trigger] parts[k], p),
    decreases parts.len(),
{
    let j = seq_join(parts, sep);
    let i = choose|i: int| seq_occurs_at(j, p, i);
    if parts.len() == 1 {
        assert(seq_contains(parts[0], p));
    } else {
        let prefix = parts.drop_last();
        let jp = seq_join(prefix, sep);
        let last = parts.last();
        let m = p.len();
        if i + m <= jp.len() {
            assert(jp.subrange(i, i + m) =~= j.subrange(i, i + m));
            assert(seq_occurs_at(jp, p, i));
            lemma_join_occurrence(prefix, sep, p);
            let k = choose|k: int| 0 <= k < prefix.len() && seq_contains(#[trigger] prefix[k], p);
            assert(parts[k] == prefix[k]);
        } else if i > jp.len() {
            let o = i - jp.len() - 1;
            assert(last.subrange(o, o + m) =~= j.subrange(i, i + m));
            assert(seq_occurs_at(last, p, o));
            assert(seq_contains(parts[parts.len() - 1], p));
        } else {
            assert(j[jp.len() as int] == sep);
            assert(p[jp.len() - i] == j.subrange(i, i + m)[jp.len() - i]);
        }
    }
}

pub fn string_of(s: &str) -> (r: String)
    ensures
        r@ == s@,
{
    String::from_str(s)
}

/// `a` and `b` hold the same characters.
pub fn str_equals(a: &str, b: &str) -> (r: bool)
    ensures
        r == (a@ == b@),
{
    let n = a.unicode_len();
    let m = b.unicode_len();
    if n != m {
        return false;
    }
    let mut i: usize = 0;
    while i < n
        invariant
            n == a@.len(),
            m == b@.len(),
            n == m,
            i <= n,
            forall|j: int| 0 <= j < i ==> a@[j] == b@[j],
        decreases n - i,
    {
        if a.get_char(i) != b.get_char(i) {
            return false;
        }
        i += 1;
    }
    assert(a@ =~= b@);
    true
}

/// Whether `p` occurs in `s` at position `i`.
pub fn str_occurs_at(s: &str, p: &str, i: usize) -> (r: bool)
    ensures
        r == seq_occurs_at(s@, p@, i as int),
{
    let n = s.unicode_len();
    let m = p.unicode_len();
    if i > n || m > n - i {
        return false;
    }
    let mut k: usize = 0;
    while k < m
        invariant
            n == s@.len(),
            m == p@.len(),
            i + m <= n,
            k <= m,
            forall|j: int| 0 <= j < k ==> s@[i + j] == p@[j],
        decreases m - k,
    {
        if s.get_char(i + k) != p.get_char(k) {
            assert(s@.subrange(i as int, i + m)[k as int] != p@[k as int]);
            return false;
        }
        k += 1;
    }
    assert(s@.subrange(i as int, i + m) =~= p@);
    true
}

pub fn str_starts_with(s: &str, p: &str) -> (r: bool)
    ensures
        r == seq_starts_with(s@, p@),
{
    str_occurs_at(s, p, 0)
}

pub fn str_ends_with(s: &str, p: &str) -> (r: bool)
    ensures
        r == seq_ends_with(s@, p@),
{
    let n = s.unicode_len();
    let m = p.unicode_len();
    if m > n {
        return false;
    }
    str_occurs_at(s, p, n - m)
}

pub fn str_contains(s: &str, p: &str) -> (r: bool)
    ensures
        r == seq_contains(s@, p@),
{
    let n = s.unicode_len();
    let m = p.unicode_len();
    if m > n {
        assert forall|i: int| !seq_occurs_at(s@, p@, i) by {}
        return false;
    }
    let mut i: usize = 0;
    loop
        invariant
            n == s@.len(),
            m == p@.len(),
            m <= n,
            i <= n - m,
            forall|j: int| 0 <= j < i ==> !seq_occurs_at(s@, p@, j),
        ensures
            forall|j: int| 0 <= j <= n - m ==> !seq_occurs_at(s@, p@, j),
        decreases n - m - i,
    {
        if str_occurs_at(s, p, i) {
            return true;
        }
        if i == n - m {
            break;
        }
        i += 1;
    }
    assert forall|j: int| !seq_occurs_at(s@, p@, j) by {
        if 0 <= j <= n - m {
        }
    }
    false
}

/// `s` with ASCII letters lower-cased.
pub fn str_ascii_lower(s: &str) -> (r: String)
    ensures
        r@ == seq_ascii_lower(s@),
{
    let n = s.unicode_len();
    let mut out = String::new();
    let mut i: usize = 0;
    while i < n
        invariant
            n == s@.len(),
            i <= n,
            out@ == seq_ascii_lower(s@.subrange(0, i as int)),
        decreases n - i,
    {
        let c = s.get_char(i);
        push_char(&mut out, char_to_ascii_lowercase(c));
        assert(seq_ascii_lower(s@.subrange(0, i + 1)) =~= seq_ascii_lower(
            s@.subrange(0, i as int),
        ).push(ascii_lower(c)));
        i += 1;
    }
    assert(s@.subrange(0, n as int) =~= s@);
    out
}

} // verus!
