//! Character-level text helpers: Unicode white space, trimming, ASCII case
//! folding, equality and prefixes, each stated over the `Seq<char>` view.

use vstd::prelude::*;

verus! {

/// The Unicode `White_Space` property, as `char::is_whitespace` and
/// `str::trim` use it.
pub open spec fn is_white_space(c: char) -> bool {
    let v = c as u32;
    ||| 0x09 <= v <= 0x0D
    ||| v == 0x20
    ||| v == 0x85
    ||| v == 0xA0
    ||| v == 0x1680
    ||| 0x2000 <= v <= 0x200A
    ||| v == 0x2028
    ||| v == 0x2029
    ||| v == 0x202F
    ||| v == 0x205F
    ||| v == 0x3000
}

/// Index of the first character at or after `i` that is not white space
/// (`s.len()` when there is none).
pub open spec fn first_solid_from(s: Seq<char>, i: int) -> int
    decreases s.len() - i,
{
    if i >= s.len() {
        s.len() as int
    } else if !is_white_space(s[i]) {
        i
    } else {
        first_solid_from(s, i + 1)
    }
}

/// The end of the last non-white-space character in `s[lo..j]`
/// (`lo` when there is none).
pub open spec fn last_solid_end(s: Seq<char>, lo: int, j: int) -> int
    decreases j - lo,
{
    if j <= lo {
        lo
    } else if !is_white_space(s[j - 1]) {
        j
    } else {
        last_solid_end(s, lo, j - 1)
    }
}

pub open spec fn trim_start(s: Seq<char>) -> int {
    first_solid_from(s, 0)
}

pub open spec fn trim_end(s: Seq<char>) -> int {
    last_solid_end(s, trim_start(s), s.len() as int)
}

/// `s` without its leading and trailing white space.
pub open spec fn trimmed(s: Seq<char>) -> Seq<char> {
    s.subrange(trim_start(s), trim_end(s))
}

pub open spec fn ascii_lower_char(c: char) -> char {
    if 'A' <= c && c <= 'Z' {
        ((c as u32) + 32) as char
    } else {
        c
    }
}

/// `s` with each ASCII capital replaced by its small letter.
pub open spec fn ascii_lower(s: Seq<char>) -> Seq<char> {
    s.map_values(|c: char| ascii_lower_char(c))
}

proof fn lemma_first_solid_from(s: Seq<char>, i: int)
    requires
        0 <= i <= s.len(),
    ensures
        i <= first_solid_from(s, i) <= s.len(),
        forall|k: int| i <= k < first_solid_from(s, i) ==> is_white_space(#[trigger] s[k]),
        first_solid_from(s, i) < s.len() ==> !is_white_space(s[first_solid_from(s, i)]),
    decreases s.len() - i,
{
    if i < s.len() && is_white_space(s[i]) {
        lemma_first_solid_from(s, i + 1);
    }
}

proof fn lemma_last_solid_end(s: Seq<char>, lo: int, j: int)
    requires
        0 <= lo <= j <= s.len(),
    ensures
        lo <= last_solid_end(s, lo, j) <= j,
        forall|k: int| last_solid_end(s, lo, j) <= k < j ==> is_white_space(#[trigger] s[k]),
        last_solid_end(s, lo, j) > lo ==> !is_white_space(s[last_solid_end(s, lo, j) - 1]),
    decreases j - lo,
{
    if j > lo && is_white_space(s[j - 1]) {
        lemma_last_solid_end(s, lo, j - 1);
    }
}

/// The trimmed text is a window of `s`: everything before and after it is
/// white space, and it neither starts nor ends with white space.
pub proof fn lemma_trim_window(s: Seq<char>)
    ensures
        0 <= trim_start(s) <= trim_end(s) <= s.len(),
        forall|k: int| 0 <= k < trim_start(s) ==> is_white_space(#[trigger] s[k]),
        forall|k: int| trim_end(s) <= k < s.len() ==> is_white_space(#[trigger] s[k]),
        trimmed(s).len() > 0 ==> !is_white_space(trimmed(s)[0]),
        trimmed(s).len() > 0 ==> !is_white_space(trimmed(s)[trimmed(s).len() - 1]),
        trimmed(s).len() == 0 ==> forall|k: int| 0 <= k < s.len() ==> is_white_space(#[trigger] s[k]),
{
    lemma_first_solid_from(s, 0);
    lemma_last_solid_end(s, trim_start(s), s.len() as int);
}

/// Trimming text that has no white space at either end leaves it unchanged.
proof fn lemma_trim_of_solid_ends(s: Seq<char>)
    requires
        s.len() > 0 ==> !is_white_space(s[0]),
        s.len() > 0 ==> !is_white_space(s[s.len() - 1]),
    ensures
        trimmed(s) == s,
{
    lemma_trim_window(s);
    if s.len() > 0 {
        assert(trim_start(s) == 0);
        assert(trim_end(s) == s.len());
    }
    assert(trimmed(s) =~= s);
}

/// Trimming twice gives what trimming once gives.
pub proof fn lemma_trim_idempotent(s: Seq<char>)
    ensures
        trimmed(trimmed(s)) == trimmed(s),
{
    lemma_trim_window(s);
    lemma_trim_of_solid_ends(trimmed(s));
}

/// Whether `c` is white space in the sense of `is_white_space`.
pub fn char_is_white_space(c: char) -> (b: bool)
    ensures
        b == is_white_space(c),
{
    let v: u32 = c as u32;
    (0x09 <= v && v <= 0x0D) || v == 0x20 || v == 0x85 || v == 0xA0 || v == 0x1680 || (0x2000 <= v
        && v <= 0x200A) || v == 0x2028 || v == 0x2029 || v == 0x202F || v == 0x205F || v == 0x3000
}

/// `s` with leading and trailing white space removed, as `str::trim` does.
pub fn trim_text(s: &str) -> (r: &str)
    ensures
        r@ == trimmed(s@),
{
    let n: usize = s.unicode_len();
    let mut a: usize = 0;
    while a < n && char_is_white_space(s.get_char(a))
        invariant
            n == s@.len(),
            0 <= a <= n,
            first_solid_from(s@, a as int) == trim_start(s@),
        decreases n - a,
    {
        a = a + 1;
    }
    let mut b: usize = n;
    while b > a && char_is_white_space(s.get_char(b - 1))
        invariant
            n == s@.len(),
            a == trim_start(s@),
            a <= b <= n,
            last_solid_end(s@, a as int, b as int) == trim_end(s@),
        decreases b - a,
    {
        b = b - 1;
    }
    s.substring_char(a, b)
}

/// Whether `a` and `b` hold the same characters.
pub fn text_equals(a: &str, b: &str) -> (r: bool)
    ensures
        r == (a@ == b@),
{
    let n: usize = a.unicode_len();
    let m: usize = b.unicode_len();
    if n != m {
        return false;
    }
    let mut i: usize = 0;
    while i < n
        invariant
            n == a@.len(),
            n == b@.len(),
            0 <= i <= n,
            forall|k: int| 0 <= k < i ==> a@[k] == b@[k],
        decreases n - i,
    {
        if a.get_char(i) != b.get_char(i) {
            return false;
        }
        i = i + 1;
    }
    assert(a@ =~= b@);
    true
}

/// Whether the ASCII lower-case form of `a` is exactly `b`.
pub fn ascii_lower_equals(a: &str, b: &str) -> (r: bool)
    ensures
        r == (ascii_lower(a@) == b@),
{
    let n: usize = a.unicode_len();
    let m: usize = b.unicode_len();
    if n != m {
        assert(ascii_lower(a@).len() != b@.len());
        return false;
    }
    let mut i: usize = 0;
    while i < n
        invariant
            n == a@.len(),
            n == b@.len(),
            0 <= i <= n,
            forall|k: int| 0 <= k < i ==> ascii_lower_char(a@[k]) == b@[k],
        decreases n - i,
    {
        let c: char = a.get_char(i);
        let d: char = b.get_char(i);
        let code: u32 = c as u32;
        let lowered: u32 = if 'A' <= c && c <= 'Z' {
            code + 32
        } else {
            code
        };
        if lowered != d as u32 {
            assert(ascii_lower(a@)[i as int] != b@[i as int]);
            return false;
        }
        i = i + 1;
    }
    assert(ascii_lower(a@) =~= b@);
    true
}

/// Whether `s` begins with `prefix`.
pub fn text_starts_with(s: &str, prefix: &str) -> (r: bool)
    ensures
        r == prefix@.is_prefix_of(s@),
{
    let n: usize = s.unicode_len();
    let m: usize = prefix.unicode_len();
    if m > n {
        return false;
    }
    let mut i: usize = 0;
    while i < m
        invariant
            n == s@.len(),
            m == prefix@.len(),
            m <= n,
            0 <= i <= m,
            forall|k: int| 0 <= k < i ==> prefix@[k] == s@[k],
        decreases m - i,
    {
        if prefix.get_char(i) != s.get_char(i) {
            return false;
        }
        i = i + 1;
    }
    true
}

} // verus!
