//! Small verified helpers over strings and character sequences.
//!
//! Command output arrives as `&str`; the parsers in this crate work over the
//! string's character view. The helpers here copy a string into an indexable
//! character vector, compare strings, locate substrings and classify
//! whitespace, each with an exact contract over `Seq<char>`.

use vstd::prelude::*;
use vstd::string::StrSliceExecFns;

verus! {

/// Copy the characters of `s` into a vector, so that later scans can index
/// in constant time.
pub fn chars_vec(s: &str) -> (v: Vec<char>)
    ensures
        v@ == s@,
{
    let n = s.unicode_len();
    let mut v: Vec<char> = Vec::new();
    let mut i: usize = 0;
    while i < n
        invariant
            i <= n,
            n == s@.len(),
            v@ == s@.subrange(0, i as int),
        decreases n - i,
    {
        v.push(s.get_char(i));
        i += 1;
        proof {
            assert(v@ =~= s@.subrange(0, i as int));
        }
    }
    proof {
        assert(v@ =~= s@);
    }
    v
}

/// Character-for-character string equality.
pub fn str_eq(a: &str, b: &str) -> (r: bool)
    ensures
        r == (a@ == b@),
{
    let n = a.unicode_len();
    let m = b.unicode_len();
    if n != m {
        proof {
            assert(a@.len() != b@.len());
        }
        return false;
    }
    let mut i: usize = 0;
    while i < n
        invariant
            i <= n,
            n == a@.len(),
            n == b@.len(),
            forall|j: int| 0 <= j < i ==> a@[j] == b@[j],
        decreases n - i,
    {
        if a.get_char(i) != b.get_char(i) {
            return false;
        }
        i += 1;
    }
    proof {
        assert(a@ =~= b@);
    }
    true
}

/// True for exactly the characters Rust's `char::is_whitespace` accepts.
pub open spec fn is_space(c: char) -> bool {
    c == ' ' || c == '\t' || c == '\n' || c == '\r' || c == '\u{b}' || c == '\u{c}'
        || c == '\u{85}' || c == '\u{a0}' || c == '\u{1680}'
        || ('\u{2000}' <= c && c <= '\u{200a}') || c == '\u{2028}' || c == '\u{2029}'
        || c == '\u{202f}' || c == '\u{205f}' || c == '\u{3000}'
}

/// Decide `is_space` on a concrete character.
pub fn is_space_char(c: char) -> (r: bool)
    ensures
        r == is_space(c),
{
    c == ' ' || c == '\t' || c == '\n' || c == '\r' || c == '\u{b}' || c == '\u{c}'
        || c == '\u{85}' || c == '\u{a0}' || c == '\u{1680}'
        || ('\u{2000}' <= c && c <= '\u{200a}') || c == '\u{2028}' || c == '\u{2029}'
        || c == '\u{202f}' || c == '\u{205f}' || c == '\u{3000}'
}

/// True when `w` occurs in `s` starting at index `i`.
pub open spec fn occurs_at(s: Seq<char>, i: int, w: Seq<char>) -> bool {
    0 <= i && i + w.len() <= s.len() && s.subrange(i, i + w.len()) == w
}

/// The least index at or after `from` where `w` occurs in `s`, if any.
pub open spec fn first_occurrence_from(s: Seq<char>, from: int, w: Seq<char>) -> Option<int>
    decreases s.len() - from,
{
    if from < 0 || from > s.len() {
        None
    } else if occurs_at(s, from, w) {
        Some(from)
    } else if from == s.len() {
        None
    } else {
        first_occurrence_from(s, from + 1, w)
    }
}

/// Whether `w` occurs anywhere in `s`.
pub open spec fn contains_seq(s: Seq<char>, w: Seq<char>) -> bool {
    first_occurrence_from(s, 0, w) is Some
}

pub proof fn lemma_first_occurrence_bounds(s: Seq<char>, from: int, w: Seq<char>)
    requires
        0 <= from <= s.len(),
        first_occurrence_from(s, from, w) is Some,
    ensures
        from <= first_occurrence_from(s, from, w)->Some_0,
        first_occurrence_from(s, from, w)->Some_0 + w.len() <= s.len(),
        occurs_at(s, first_occurrence_from(s, from, w)->Some_0, w),
    decreases s.len() - from,
{
    if occurs_at(s, from, w) {
    } else if from < s.len() {
        lemma_first_occurrence_bounds(s, from + 1, w);
    }
}

/// Check whether `w` occurs in `v` at position `i`.
pub fn occurs_at_x(v: &Vec<char>, i: usize, w: &Vec<char>) -> (r: bool)
    ensures
        r == occurs_at(v@, i as int, w@),
{
    if w.len() > v.len() || i > v.len() - w.len() {
        return false;
    }
    let mut j: usize = 0;
    while j < w.len()
        invariant
            j <= w.len(),
            i + w.len() <= v.len(),
            forall|k: int| 0 <= k < j ==> v@[i + k] == w@[k],
        decreases w.len() - j,
    {
        if v[i + j] != w[j] {
            proof {
                assert(v@.subrange(i as int, i + w@.len())[j as int] == v@[i + j]);
            }
            return false;
        }
        j += 1;
    }
    proof {
        assert(v@.subrange(i as int, i + w@.len()) =~= w@);
    }
    true
}

/// Find the least occurrence of `w` in `v` at or after `from`.
pub fn find_from(v: &Vec<char>, from: usize, w: &Vec<char>) -> (r: Option<usize>)
    requires
        from <= v@.len(),
    ensures
        match r {
            Some(i) => from <= i && first_occurrence_from(v@, from as int, w@) == Some(i as int),
            None => first_occurrence_from(v@, from as int, w@) is None,
        },
{
    let mut i: usize = from;
    loop
        invariant
            from <= i <= v@.len(),
            first_occurrence_from(v@, from as int, w@) == first_occurrence_from(v@, i as int, w@),
        decreases v@.len() - i,
    {
        if occurs_at_x(v, i, w) {
            return Some(i);
        }
        if i == v.len() {
            return None;
        }
        i += 1;
    }
}

/// Whether `w` occurs anywhere in `v`.
pub fn contains_x(v: &Vec<char>, w: &Vec<char>) -> (r: bool)
    ensures
        r == contains_seq(v@, w@),
{
    find_from(v, 0, w).is_some()
}

/// The index just past the last non-whitespace character of `s`, or 0 when
/// `s` is all whitespace.
pub open spec fn trim_end_idx(s: Seq<char>) -> int
    decreases s.len(),
{
    if s.len() == 0 {
        0
    } else if is_space(s.last()) {
        trim_end_idx(s.drop_last())
    } else {
        s.len() as int
    }
}

pub proof fn lemma_trim_end_idx_bounds(s: Seq<char>)
    ensures
        0 <= trim_end_idx(s) <= s.len(),
    decreases s.len(),
{
    if s.len() > 0 && is_space(s.last()) {
        lemma_trim_end_idx_bounds(s.drop_last());
    }
}

/// The index of the first non-whitespace character of `s`, or the length of
/// `s` when it is all whitespace.
pub open spec fn trim_start_idx(s: Seq<char>) -> int
    decreases s.len(),
{
    trim_start_idx_from(s, 0)
}

/// Helper for `trim_start_idx`: first non-whitespace index at or after `i`.
pub open spec fn trim_start_idx_from(s: Seq<char>, i: int) -> int
    decreases s.len() - i,
{
    if i < 0 || i >= s.len() {
        i
    } else if is_space(s[i]) {
        trim_start_idx_from(s, i + 1)
    } else {
        i
    }
}

pub proof fn lemma_trim_start_idx_from_bounds(s: Seq<char>, i: int)
    requires
        0 <= i <= s.len(),
    ensures
        i <= trim_start_idx_from(s, i) <= s.len(),
    decreases s.len() - i,
{
    if i < s.len() && is_space(s[i]) {
        lemma_trim_start_idx_from_bounds(s, i + 1);
    }
}

pub proof fn lemma_trim_start_idx_from_char(s: Seq<char>, i: int)
    requires
        0 <= i <= s.len(),
    ensures
        trim_start_idx_from(s, i) < s.len() ==> !is_space(s[trim_start_idx_from(s, i)]),
    decreases s.len() - i,
{
    if i < s.len() && is_space(s[i]) {
        lemma_trim_start_idx_from_char(s, i + 1);
    }
}

/// What Rust's `str::trim` leaves of `s`: the contents between the leading
/// and trailing whitespace runs.
pub open spec fn trimmed(s: Seq<char>) -> Seq<char> {
    let a = trim_start_idx(s);
    let b = trim_end_idx(s);
    if b <= a {
        Seq::empty()
    } else {
        s.subrange(a, b)
    }
}

/// Compute the first non-whitespace index at or after `i`.
pub fn trim_start_idx_from_x(v: &Vec<char>, i: usize) -> (r: usize)
    requires
        i <= v@.len(),
    ensures
        r == trim_start_idx_from(v@, i as int),
        i <= r <= v@.len(),
{
    let mut j: usize = i;
    while j < v.len() && is_space_char(v[j])
        invariant
            i <= j <= v@.len(),
            trim_start_idx_from(v@, i as int) == trim_start_idx_from(v@, j as int),
        decreases v@.len() - j,
    {
        j += 1;
    }
    proof {
        lemma_trim_start_idx_from_bounds(v@, j as int);
    }
    j
}

/// The first whitespace index at or after `i`, or the length of `s`.
pub open spec fn word_end(s: Seq<char>, i: int) -> int
    decreases s.len() - i,
{
    if i < 0 || i >= s.len() {
        i
    } else if is_space(s[i]) {
        i
    } else {
        word_end(s, i + 1)
    }
}

pub proof fn lemma_word_end_bounds(s: Seq<char>, i: int)
    requires
        0 <= i <= s.len(),
    ensures
        i <= word_end(s, i) <= s.len(),
    decreases s.len() - i,
{
    if i < s.len() && !is_space(s[i]) {
        lemma_word_end_bounds(s, i + 1);
    }
}

/// Compute `word_end` on a character vector.
pub fn word_end_x(v: &Vec<char>, i: usize) -> (r: usize)
    requires
        i <= v@.len(),
    ensures
        r == word_end(v@, i as int),
        i <= r <= v@.len(),
{
    let mut j: usize = i;
    while j < v.len() && !is_space_char(v[j])
        invariant
            i <= j <= v@.len(),
            word_end(v@, i as int) == word_end(v@, j as int),
        decreases v@.len() - j,
    {
        j += 1;
    }
    proof {
        lemma_word_end_bounds(v@, j as int);
    }
    j
}

/// The whitespace-separated words of `s` from index `i` on.
pub open spec fn split_ws_from(s: Seq<char>, i: int) -> Seq<Seq<char>>
    decreases s.len() - i,
{
    if i < 0 || i > s.len() {
        Seq::empty()
    } else {
        let j0 = trim_start_idx_from(s, i);
        let j = if j0 < i { i } else { j0 };
        if j >= s.len() {
            Seq::empty()
        } else {
            let k0 = word_end(s, j);
            let k = if k0 <= j || k0 > s.len() { j + 1 } else { k0 };
            seq![s.subrange(j, k)] + split_ws_from(s, k)
        }
    }
}

/// Split `s` into its whitespace-separated words, as Rust's
/// `str::split_whitespace` does.
pub fn split_whitespace_x(s: &str) -> (r: Vec<String>)
    ensures
        r.deep_view() == split_ws_from(s@, 0),
{
    let v = chars_vec(s);
    let n = v.len();
    let mut out: Vec<String> = Vec::new();
    let mut i: usize = 0;
    loop
        invariant_except_break
            i <= n,
            n == s@.len(),
            v@ == s@,
            out.deep_view() + split_ws_from(s@, i as int) == split_ws_from(s@, 0),
        ensures
            out.deep_view() == split_ws_from(s@, 0),
        decreases n - i,
    {
        let j = trim_start_idx_from_x(&v, i);
        if j >= n {
            proof {
                assert(split_ws_from(s@, i as int) =~= Seq::<Seq<char>>::empty());
                assert(out.deep_view() =~= out.deep_view() + Seq::<Seq<char>>::empty());
            }
            break;
        }
        let k = word_end_x(&v, j);
        proof {
            lemma_trim_start_idx_from_char(s@, i as int);
            assert(!is_space(s@[j as int]));
            assert(word_end(s@, j as int) == word_end(s@, j + 1));
            lemma_word_end_bounds(s@, j + 1);
        }
        let ghost pre = out.deep_view();
        out.push(s.substring_char(j, k).to_owned());
        proof {
            assert(out.deep_view() =~= pre.push(s@.subrange(j as int, k as int)));
            assert(split_ws_from(s@, i as int)
                =~= seq![s@.subrange(j as int, k as int)] + split_ws_from(s@, k as int));
            assert(out.deep_view() + split_ws_from(s@, k as int)
                =~= pre + split_ws_from(s@, i as int));
        }
        i = k;
    }
    out
}

/// Trim leading and trailing whitespace from `s`.
pub fn trim_str(s: &str) -> (r: String)
    ensures
        r@ == trimmed(s@),
{
    let v = chars_vec(s);
    let a = trim_start_idx_from_x(&v, 0);
    let mut b: usize = v.len();
    proof {
        assert(v@.subrange(0, b as int) =~= v@);
    }
    while b > 0 && is_space_char(v[b - 1])
        invariant
            b <= v@.len(),
            trim_end_idx(v@) == trim_end_idx(v@.subrange(0, b as int)),
        decreases b,
    {
        proof {
            assert(v@.subrange(0, b as int).drop_last() =~= v@.subrange(0, b - 1));
        }
        b -= 1;
    }
    proof {
        if b > 0 {
            assert(v@.subrange(0, b as int).last() == v@[b - 1]);
        }
        assert(trim_end_idx(v@) == b);
    }
    if b <= a {
        let r = String::new();
        return r;
    }
    let sub = s.substring_char(a, b);
    sub.to_owned()
}

} // verus!
