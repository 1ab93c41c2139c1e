//! Text handling on sequences of characters: trimming, prefixes and suffixes,
//! searching.

use vstd::prelude::*;
use vstd::slice::slice_subrange;

verus! {

/// The characters with the Unicode property `White_Space`.
pub open spec fn is_whitespace(c: char) -> bool {
    let u = c as u32;
    ||| 0x09 <= u <= 0x0D
    ||| u == 0x20
    ||| u == 0x85
    ||| u == 0xA0
    ||| u == 0x1680
    ||| 0x2000 <= u <= 0x200A
    ||| u == 0x2028
    ||| u == 0x2029
    ||| u == 0x202F
    ||| u == 0x205F
    ||| u == 0x3000
}

/// The least index at or after `i` that holds no whitespace; `s.len()` if
/// there is none.
pub open spec fn skip_whitespace(s: Seq<char>, i: int) -> int
    decreases s.len() - i,
{
    if 0 <= i < s.len() && is_whitespace(s[i]) {
        skip_whitespace(s, i + 1)
    } else {
        i
    }
}

/// The least end `j >= start` such that `s[j - 1]` is no whitespace, going
/// down from `j`.
pub open spec fn drop_whitespace(s: Seq<char>, start: int, j: int) -> int
    decreases j,
{
    if 0 <= start < j <= s.len() && is_whitespace(s[j - 1]) {
        drop_whitespace(s, start, j - 1)
    } else {
        j
    }
}

/// Where the trimmed text begins.
pub open spec fn trim_start(s: Seq<char>) -> int {
    skip_whitespace(s, 0)
}

/// Where the trimmed text ends.
pub open spec fn trim_end(s: Seq<char>) -> int {
    drop_whitespace(s, trim_start(s), s.len() as int)
}

/// `s` without its leading and trailing whitespace.
pub open spec fn trimmed(s: Seq<char>) -> Seq<char> {
    s.subrange(trim_start(s), trim_end(s))
}

/// The least index at or after `i` that holds `c`; `s.len()` if there is none.
pub open spec fn find_char(s: Seq<char>, c: char, i: int) -> int
    decreases s.len() - i,
{
    if 0 <= i < s.len() && s[i] != c {
        find_char(s, c, i + 1)
    } else {
        i
    }
}

/// Whether `needle` occurs in `hay` at index `i`.
pub open spec fn occurs_at(hay: Seq<char>, needle: Seq<char>, i: int) -> bool {
    0 <= i && i + needle.len() <= hay.len() && hay.subrange(i, i + needle.len()) == needle
}

/// Whether `needle` occurs somewhere in `hay`. The empty text occurs in every
/// text.
pub open spec fn occurs_in(hay: Seq<char>, needle: Seq<char>) -> bool {
    exists|i: int| occurs_at(hay, needle, i)
}

/// `skip_whitespace` passes over whitespace only and stops at the first
/// character that is none.
pub proof fn lemma_skip_whitespace_bounds(s: Seq<char>, i: int)
    requires
        0 <= i <= s.len(),
    ensures
        i <= skip_whitespace(s, i) <= s.len(),
        forall|k: int| i <= k < skip_whitespace(s, i) ==> is_whitespace(#[trigger] s[k]),
        skip_whitespace(s, i) < s.len() ==> !is_whitespace(s[skip_whitespace(s, i)]),
    decreases s.len() - i,
{
    if i < s.len() && is_whitespace(s[i]) {
        lemma_skip_whitespace_bounds(s, i + 1);
    }
}

/// `drop_whitespace` gives up whitespace only and stops behind the last
/// character that is none.
pub proof fn lemma_drop_whitespace_bounds(s: Seq<char>, start: int, j: int)
    requires
        0 <= start <= j <= s.len(),
    ensures
        start <= drop_whitespace(s, start, j) <= j,
        forall|k: int| drop_whitespace(s, start, j) <= k < j ==> is_whitespace(#[trigger] s[k]),
        start < drop_whitespace(s, start, j) ==> !is_whitespace(
            s[drop_whitespace(s, start, j) - 1],
        ),
    decreases j,
{
    if start < j && is_whitespace(s[j - 1]) {
        lemma_drop_whitespace_bounds(s, start, j - 1);
    }
}

/// Trimming keeps a piece of the text that neither starts nor ends with
/// whitespace, and drops nothing but whitespace.
pub proof fn lemma_trimmed(s: Seq<char>)
    ensures
        0 <= trim_start(s) <= trim_end(s) <= s.len(),
        forall|k: int| 0 <= k < trim_start(s) ==> is_whitespace(#[trigger] s[k]),
        forall|k: int| trim_end(s) <= k < s.len() ==> is_whitespace(#[trigger] s[k]),
        trimmed(s).len() > 0 ==> !is_whitespace(trimmed(s).first()) && !is_whitespace(
            trimmed(s).last(),
        ),
{
    lemma_skip_whitespace_bounds(s, 0);
    lemma_drop_whitespace_bounds(s, trim_start(s), s.len() as int);
}

/// `find_char` passes over other characters only and stops at the first
/// `c`.
pub proof fn lemma_find_char_bounds(s: Seq<char>, c: char, i: int)
    requires
        0 <= i <= s.len(),
    ensures
        i <= find_char(s, c, i) <= s.len(),
        forall|k: int| i <= k < find_char(s, c, i) ==> #[trigger] s[k] != c,
        find_char(s, c, i) < s.len() ==> s[find_char(s, c, i)] == c,
    decreases s.len() - i,
{
    if i < s.len() && s[i] != c {
        lemma_find_char_bounds(s, c, i + 1);
    }
}

/// Whether `c` is a whitespace character.
pub fn char_is_whitespace(c: char) -> (r: bool)
    ensures
        r == is_whitespace(c),
{
    let u: u32 = c as u32;
    (0x09 <= u && u <= 0x0D) || u == 0x20 || u == 0x85 || u == 0xA0 || u == 0x1680 || (0x2000 <= u
        && u <= 0x200A) || u == 0x2028 || u == 0x2029 || u == 0x202F || u == 0x205F || u == 0x3000
}

/// The characters of `s`, in order.
pub fn chars_of(s: &str) -> (out: Vec<char>)
    ensures
        out@ == s@,
{
    broadcast use vstd::string::group_string_axioms;

    let mut out: Vec<char> = Vec::new();
    for c in it: s.chars()
        invariant
            it.seq() == s@,
            out@ == s@.take(it.index()),
    {
        out.push(c);
    }
    out
}

/// The bounds of `s` once trimmed.
pub fn trim_bounds(s: &[char]) -> (r: (usize, usize))
    ensures
        r.0 == trim_start(s@),
        r.1 == trim_end(s@),
        r.0 <= r.1 <= s@.len(),
{
    let n = s.len();
    let mut a: usize = 0;
    while a < n && char_is_whitespace(s[a])
        invariant
            n == s@.len(),
            a <= n,
            skip_whitespace(s@, a as int) == skip_whitespace(s@, 0),
        decreases n - a,
    {
        a += 1;
    }
    let mut b: usize = n;
    while a < b && char_is_whitespace(s[b - 1])
        invariant
            n == s@.len(),
            a <= b <= n,
            drop_whitespace(s@, a as int, b as int) == drop_whitespace(s@, a as int, n as int),
        decreases b,
    {
        b -= 1;
    }
    (a, b)
}

/// Whether `s` begins with `prefix`.
pub fn starts_with(s: &[char], prefix: &[char]) -> (r: bool)
    ensures
        r == prefix@.is_prefix_of(s@),
{
    let m = prefix.len();
    if m > s.len() {
        return false;
    }
    let mut i: usize = 0;
    while i < m
        invariant
            m == prefix@.len(),
            m <= s@.len(),
            i <= m,
            forall|k: int| 0 <= k < i ==> s@[k] == prefix@[k],
        decreases m - i,
    {
        if s[i] != prefix[i] {
            return false;
        }
        i += 1;
    }
    true
}

/// Whether `s` ends with `suffix`.
pub fn ends_with(s: &[char], suffix: &[char]) -> (r: bool)
    ensures
        r == suffix@.is_suffix_of(s@),
{
    let m = suffix.len();
    let n = s.len();
    if m > n {
        return false;
    }
    let start = n - m;
    let mut i: usize = 0;
    while i < m
        invariant
            m == suffix@.len(),
            n == s@.len(),
            m <= n,
            start == n - m,
            i <= m,
            forall|k: int| 0 <= k < i ==> s@[start + k] == suffix@[k],
        decreases m - i,
    {
        if s[start + i] != suffix[i] {
            return false;
        }
        i += 1;
    }
    true
}

/// The index of the first `c` in `s` at or after `from`; `s.len()` if there
/// is none.
pub fn find_char_from(s: &[char], c: char, from: usize) -> (r: usize)
    requires
        from <= s@.len(),
    ensures
        r == find_char(s@, c, from as int),
        from <= r <= s@.len(),
{
    let n = s.len();
    let mut i: usize = from;
    while i < n && s[i] != c
        invariant
            n == s@.len(),
            from <= i <= n,
            find_char(s@, c, i as int) == find_char(s@, c, from as int),
        decreases n - i,
    {
        i += 1;
    }
    i
}

/// Whether `needle` occurs in `hay`.
pub fn contains_text(hay: &[char], needle: &[char]) -> (r: bool)
    ensures
        r == occurs_in(hay@, needle@),
{
    let n = hay.len();
    let m = needle.len();
    if m > n {
        return false;
    }
    let last = n - m;
    let mut i: usize = 0;
    while i <= last
        invariant
            n == hay@.len(),
            m == needle@.len(),
            m <= n,
            last == n - m,
            i <= last + 1,
            forall|k: int| 0 <= k < i ==> !occurs_at(hay@, needle@, k),
        decreases last + 1 - i,
    {
        let rest = slice_subrange(hay, i, n);
        assert(rest@.subrange(0, m as int) =~= hay@.subrange(i as int, i + m));
        if starts_with(rest, needle) {
            assert(occurs_at(hay@, needle@, i as int));
            return true;
        }
        i += 1;
    }
    false
}

} // verus!
