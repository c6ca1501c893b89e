//! Character-level text utilities: searching, trimming and case-insensitive
//! comparison.
//!
//! Header values and request fields are parsed character by character, so
//! each operation has a spec-level definition over `Seq<char>` that the
//! executable form is proved against.

use vstd::prelude::*;

verus! {

/// Optional whitespace around header fields: space or horizontal tab.
pub open spec fn is_ows(c: char) -> bool {
    c == ' ' || c == '\t'
}

/// The index of the first occurrence of `t` in `s`, or `s.len()` if there is
/// none.
pub open spec fn find_char_idx(s: Seq<char>, t: char) -> int
    decreases s.len(),
{
    if s.len() == 0 {
        0
    } else if s[0] == t {
        0
    } else {
        1 + find_char_idx(s.drop_first(), t)
    }
}

/// The index of the first character that is not optional whitespace, or
/// `s.len()` if all of `s` is whitespace.
pub open spec fn trim_start_idx(s: Seq<char>) -> int
    decreases s.len(),
{
    if s.len() == 0 {
        0
    } else if !is_ows(s[0]) {
        0
    } else {
        1 + trim_start_idx(s.drop_first())
    }
}

/// One past the index of the last character that is not optional whitespace,
/// or `0` if all of `s` is whitespace.
pub open spec fn trim_end_idx(s: Seq<char>) -> int
    decreases s.len(),
{
    if s.len() == 0 {
        0
    } else if !is_ows(s.last()) {
        s.len() as int
    } else {
        trim_end_idx(s.drop_last())
    }
}

/// `s` with optional whitespace removed from both ends.
pub open spec fn trim_ows(s: Seq<char>) -> Seq<char> {
    if trim_start_idx(s) <= trim_end_idx(s) {
        s.subrange(trim_start_idx(s), trim_end_idx(s))
    } else {
        Seq::empty()
    }
}

/// The character's code point, with an upper-case ASCII letter folded to its
/// lower-case counterpart.
pub open spec fn lower_code(c: char) -> int {
    if 'A' <= c && c <= 'Z' {
        c as u32 + 32
    } else {
        c as u32 as int
    }
}

/// Equality of two character strings up to ASCII case.
pub open spec fn eq_ignore_ascii_case(a: Seq<char>, b: Seq<char>) -> bool {
    a.len() == b.len() && forall|i: int|
        0 <= i < a.len() ==> lower_code(a[i]) == lower_code(#[trigger] b[i])
}

/// `find_char_idx` stays within the bounds of the string.
pub proof fn lemma_find_char_idx_bounds(s: Seq<char>, t: char)
    ensures
        0 <= find_char_idx(s, t) <= s.len(),
    decreases s.len(),
{
    if s.len() > 0 && s[0] != t {
        lemma_find_char_idx_bounds(s.drop_first(), t);
    }
}

/// `find_char_idx` is the unique index with no occurrence of `t` before it
/// and, unless it is the length, an occurrence of `t` at it.
pub proof fn lemma_find_char_idx_is(s: Seq<char>, t: char, i: int)
    requires
        0 <= i <= s.len(),
        forall|j: int| 0 <= j < i ==> s[j] != t,
        i < s.len() ==> s[i] == t,
    ensures
        find_char_idx(s, t) == i,
    decreases s.len(),
{
    if s.len() > 0 && s[0] != t {
        lemma_find_char_idx_is(s.drop_first(), t, i - 1);
    }
}

/// `trim_start_idx` is the unique index with only whitespace before it and,
/// unless it is the length, a non-whitespace character at it.
pub proof fn lemma_trim_start_idx_is(s: Seq<char>, i: int)
    requires
        0 <= i <= s.len(),
        forall|j: int| 0 <= j < i ==> is_ows(#[trigger] s[j]),
        i < s.len() ==> !is_ows(s[i]),
    ensures
        trim_start_idx(s) == i,
    decreases s.len(),
{
    if s.len() > 0 && is_ows(s[0]) {
        lemma_trim_start_idx_is(s.drop_first(), i - 1);
    }
}

/// `trim_end_idx` is the unique bound with only whitespace at and after it
/// and, unless it is zero, a non-whitespace character just before it.
pub proof fn lemma_trim_end_idx_is(s: Seq<char>, i: int)
    requires
        0 <= i <= s.len(),
        forall|j: int| i <= j < s.len() ==> is_ows(#[trigger] s[j]),
        i > 0 ==> !is_ows(s[i - 1]),
    ensures
        trim_end_idx(s) == i,
    decreases s.len(),
{
    if s.len() > 0 && is_ows(s.last()) {
        lemma_trim_end_idx_is(s.drop_last(), i);
    }
}

/// Whether a character is optional whitespace.
fn is_ows_char(c: char) -> (r: bool)
    ensures
        r == is_ows(c),
{
    c == ' ' || c == '\t'
}

/// The index of the first occurrence of `t` in `s`, or the length of `s` if
/// there is none.
pub fn find_char(s: &str, t: char) -> (r: usize)
    ensures
        r == find_char_idx(s@, t),
        r <= s@.len(),
        r < s@.len() ==> s@[r as int] == t,
        forall|j: int| 0 <= j < r ==> s@[j] != t,
{
    let n = s.unicode_len();
    let mut i: usize = 0;
    while i < n
        invariant
            n == s@.len(),
            i <= n,
            forall|j: int| 0 <= j < i ==> s@[j] != t,
        decreases n - i,
    {
        if s.get_char(i) == t {
            proof {
                lemma_find_char_idx_is(s@, t, i as int);
            }
            return i;
        }
        i = i + 1;
    }
    proof {
        lemma_find_char_idx_is(s@, t, n as int);
    }
    n
}

/// `s` with optional whitespace removed from both ends.
pub fn trim_ows_str(s: &str) -> (r: &str)
    ensures
        r@ == trim_ows(s@),
{
    let n = s.unicode_len();
    let mut start: usize = 0;
    while start < n && is_ows_char(s.get_char(start))
        invariant
            n == s@.len(),
            start <= n,
            forall|j: int| 0 <= j < start ==> is_ows(#[trigger] s@[j]),
        decreases n - start,
    {
        start = start + 1;
    }
    proof {
        lemma_trim_start_idx_is(s@, start as int);
    }
    let mut end: usize = n;
    while end > start && is_ows_char(s.get_char(end - 1))
        invariant
            n == s@.len(),
            start <= end <= n,
            forall|j: int| end <= j < n ==> is_ows(#[trigger] s@[j]),
        decreases end,
    {
        end = end - 1;
    }
    proof {
        if end == start {
            // Both loops consumed everything: the string is all whitespace.
            assert(start == n);
            lemma_trim_end_idx_is(s@, 0);
        } else {
            lemma_trim_end_idx_is(s@, end as int);
        }
        assert(trim_ows(s@) =~= s@.subrange(start as int, end as int));
    }
    s.substring_char(start, end)
}

/// The character's code point, with an upper-case ASCII letter folded to
/// lower case.
fn lower_code_char(c: char) -> (r: u32)
    ensures
        r == lower_code(c),
{
    if 'A' <= c && c <= 'Z' {
        c as u32 + 32
    } else {
        c as u32
    }
}

/// Compares two strings for equality up to ASCII case.
pub fn eq_ignore_ascii_case_str(a: &str, b: &str) -> (r: bool)
    ensures
        r == eq_ignore_ascii_case(a@, b@),
{
    let n = a.unicode_len();
    if n != b.unicode_len() {
        return false;
    }
    let mut i: usize = 0;
    while i < n
        invariant
            n == a@.len(),
            n == b@.len(),
            i <= n,
            forall|j: int| 0 <= j < i ==> lower_code(a@[j]) == lower_code(#[trigger] b@[j]),
        decreases n - i,
    {
        if lower_code_char(a.get_char(i)) != lower_code_char(b.get_char(i)) {
            return false;
        }
        i = i + 1;
    }
    true
}

/// Compares two strings for (case-sensitive) equality.
pub fn str_eq(a: &str, b: &str) -> (r: bool)
    ensures
        r == (a@ == b@),
{
    let n = a.unicode_len();
    if n != b.unicode_len() {
        return false;
    }
    let mut i: usize = 0;
    while i < n
        invariant
            n == a@.len(),
            n == b@.len(),
            i <= n,
            forall|j: int| 0 <= j < i ==> a@[j] == #[trigger] b@[j],
        decreases n - i,
    {
        if a.get_char(i) != b.get_char(i) {
            return false;
        }
        i = i + 1;
    }
    proof {
        assert(a@ =~= b@);
    }
    true
}

} // verus!
