//! Character-level helpers over `&str`: ASCII case folding, hexadecimal
//! digits, prefixes and concatenation.

use vstd::prelude::*;
use vstd::string::*;

verus! {

/// The ASCII lower-case form of `c`; every other character is left alone.
pub open spec fn lower(c: char) -> char {
    if 'A' <= c && c <= 'Z' {
        ((c as u8 + 32) as u8) as char
    } else {
        c
    }
}

/// `s` with every ASCII upper-case letter folded to lower case.
pub open spec fn lower_text(s: Seq<char>) -> Seq<char> {
    s.map_values(|c: char| lower(c))
}

/// Whether two texts are equal once ASCII case is set aside.
pub open spec fn same_ignoring_case(a: Seq<char>, b: Seq<char>) -> bool {
    lower_text(a) == lower_text(b)
}

/// Whether `s` begins with `prefix`, ASCII case set aside.
pub open spec fn has_prefix_ignoring_case(s: Seq<char>, prefix: Seq<char>) -> bool {
    prefix.len() <= s.len() && same_ignoring_case(s.subrange(0, prefix.len() as int), prefix)
}

/// The texts that a sequence of strings holds.
pub open spec fn texts(v: Seq<String>) -> Seq<Seq<char>> {
    v.map_values(|s: String| s@)
}

/// Whether `s` begins with `prefix`.
pub open spec fn has_prefix(s: Seq<char>, prefix: Seq<char>) -> bool {
    prefix.len() <= s.len() && s.subrange(0, prefix.len() as int) == prefix
}

/// Whether `s` ends with `suffix`.
pub open spec fn has_suffix(s: Seq<char>, suffix: Seq<char>) -> bool {
    suffix.len() <= s.len() && s.subrange(s.len() - suffix.len(), s.len() as int) == suffix
}

/// Whether `needle` occurs somewhere in `s`.
pub open spec fn has_infix(s: Seq<char>, needle: Seq<char>) -> bool {
    exists|i: int|
        0 <= i <= s.len() - needle.len() && #[trigger] s.subrange(i, i + needle.len()) == needle
}

/// Whether `c` is one of `0-9`, `a-f`, `A-F`.
pub open spec fn is_hex_digit(c: char) -> bool {
    ('0' <= c && c <= '9') || ('a' <= c && c <= 'f') || ('A' <= c && c <= 'F')
}

pub fn to_lower(c: char) -> (r: char)
    ensures
        r == lower(c),
{
    if 'A' <= c && c <= 'Z' {
        ((c as u8) + 32) as char
    } else {
        c
    }
}

pub fn hex_digit(c: char) -> (r: bool)
    ensures
        r == is_hex_digit(c),
{
    ('0' <= c && c <= '9') || ('a' <= c && c <= 'f') || ('A' <= c && c <= 'F')
}

/// Compares the first `n` characters of `a` and `b`, ASCII case set aside.
fn same_head(a: &str, b: &str, n: usize) -> (r: bool)
    requires
        n <= a@.len(),
        n <= b@.len(),
    ensures
        r == same_ignoring_case(a@.subrange(0, n as int), b@.subrange(0, n as int)),
{
    let ghost x = a@.subrange(0, n as int);
    let ghost y = b@.subrange(0, n as int);
    let mut i: usize = 0;
    while i < n
        invariant
            i <= n,
            n <= a@.len(),
            n <= b@.len(),
            x == a@.subrange(0, n as int),
            y == b@.subrange(0, n as int),
            forall|j: int| 0 <= j < i ==> lower(x[j]) == lower(y[j]),
        decreases n - i,
    {
        if to_lower(a.get_char(i)) != to_lower(b.get_char(i)) {
            assert(lower_text(x)[i as int] != lower_text(y)[i as int]);
            return false;
        }
        i += 1;
    }
    assert(lower_text(x) =~= lower_text(y));
    true
}

/// Whether `a` and `b` are the same text, ASCII case set aside.
pub fn eq_ignore_case(a: &str, b: &str) -> (r: bool)
    ensures
        r == same_ignoring_case(a@, b@),
{
    let n = a.unicode_len();
    if n != b.unicode_len() {
        assert(lower_text(a@).len() != lower_text(b@).len());
        return false;
    }
    assert(a@.subrange(0, n as int) =~= a@);
    assert(b@.subrange(0, n as int) =~= b@);
    same_head(a, b, n)
}

/// Whether `s` begins with `prefix`, ASCII case set aside.
pub fn starts_with_ignore_case(s: &str, prefix: &str) -> (r: bool)
    ensures
        r == has_prefix_ignoring_case(s@, prefix@),
{
    let n = prefix.unicode_len();
    if n > s.unicode_len() {
        return false;
    }
    assert(prefix@.subrange(0, n as int) =~= prefix@);
    same_head(s, prefix, n)
}

/// Whether the `n` characters of `a` from `from` on are the first `n`
/// characters of `b`.
fn same_run(a: &str, from: usize, b: &str, n: usize) -> (r: bool)
    requires
        from + n <= a@.len(),
        from + n <= usize::MAX,
        n <= b@.len(),
    ensures
        r == (a@.subrange(from as int, from + n) == b@.subrange(0, n as int)),
{
    let ghost x = a@.subrange(from as int, from + n);
    let ghost y = b@.subrange(0, n as int);
    let mut i: usize = 0;
    while i < n
        invariant
            i <= n,
            from + n <= a@.len(),
            from + n <= usize::MAX,
            n <= b@.len(),
            x == a@.subrange(from as int, from + n),
            y == b@.subrange(0, n as int),
            forall|j: int| 0 <= j < i ==> x[j] == y[j],
        decreases n - i,
    {
        if a.get_char(from + i) != b.get_char(i) {
            assert(x[i as int] != y[i as int]);
            return false;
        }
        i += 1;
    }
    assert(x =~= y);
    true
}

/// Whether `a` and `b` are the same text.
pub fn eq_text(a: &str, b: &str) -> (r: bool)
    ensures
        r == (a@ == b@),
{
    let n = a.unicode_len();
    if n != b.unicode_len() {
        return false;
    }
    assert(a@.subrange(0, n as int) =~= a@);
    assert(b@.subrange(0, n as int) =~= b@);
    same_run(a, 0, b, n)
}

/// Whether `s` begins with `prefix`.
pub fn starts_with(s: &str, prefix: &str) -> (r: bool)
    ensures
        r == has_prefix(s@, prefix@),
{
    let n = prefix.unicode_len();
    if n > s.unicode_len() {
        return false;
    }
    assert(prefix@.subrange(0, n as int) =~= prefix@);
    same_run(s, 0, prefix, n)
}

/// Whether `s` ends with `suffix`.
pub fn ends_with(s: &str, suffix: &str) -> (r: bool)
    ensures
        r == has_suffix(s@, suffix@),
{
    let n = suffix.unicode_len();
    let len = s.unicode_len();
    if n > len {
        return false;
    }
    assert(suffix@.subrange(0, n as int) =~= suffix@);
    same_run(s, len - n, suffix, n)
}

/// Whether `needle` occurs somewhere in `s`.
pub fn contains(s: &str, needle: &str) -> (r: bool)
    ensures
        r == has_infix(s@, needle@),
{
    let n = needle.unicode_len();
    let len = s.unicode_len();
    if n > len {
        return false;
    }
    assert(needle@.subrange(0, n as int) =~= needle@);
    let last = len - n;
    let mut i: usize = 0;
    loop
        invariant
            n == needle@.len(),
            len == s@.len(),
            last == len - n,
            i <= last,
            needle@.subrange(0, n as int) == needle@,
            forall|j: int| 0 <= j < i ==> #[trigger] s@.subrange(j, j + n) != needle@,
        decreases last - i,
    {
        if same_run(s, i, needle, n) {
            return true;
        }
        if i == last {
            return false;
        }
        i += 1;
    }
}

/// `a` followed by `b`.
pub fn join2(a: &str, b: &str) -> (r: String)
    ensures
        r@ == a@ + b@,
{
    String::from_str(a).concat(b)
}

/// `a`, then `b`, then `c`.
pub fn join3(a: &str, b: &str, c: &str) -> (r: String)
    ensures
        r@ == a@ + b@ + c@,
{
    String::from_str(a).concat(b).concat(c)
}

} // verus!
