//! Version extraction from command output and version comparison.
//!
//! A version number is `X.Y.Z` or `X.Y.Z.W`, each component a run of decimal
//! digits, optionally preceded by a single `v`. Extraction scans output
//! text in priority order: a version number immediately after the word
//! `version` (separated by whitespace) wins; otherwise the leftmost version
//! number anywhere in the text; otherwise the sentinel `unknown`.
//!
//! Comparison treats versions as dot-separated integer tuples: components
//! are compared left to right, missing trailing components count as zero,
//! and components that are not plain decimal numbers fitting in 32 bits are
//! ignored.

use vstd::prelude::*;
use vstd::string::StrSliceExecFns;
use vstd::string::StringExecFns;
use crate::clock::now_timestamp;
use crate::config::ToolConfig;
use crate::platform::Platform;
use crate::strmap::StringMap;
use crate::strutil::{chars_vec, is_space, is_space_char, str_eq};

verus! {

/// True for the ASCII decimal digits.
pub open spec fn is_digit(c: char) -> bool {
    48 <= c as u32 <= 57
}

/// Decide `is_digit` on a concrete character.
pub fn is_digit_char(c: char) -> (r: bool)
    ensures
        r == is_digit(c),
{
    let n = c as u32;
    48 <= n && n <= 57
}

/// The first index at or after `i` holding a non-digit, or the length of
/// `s` if digits run to the end.
pub open spec fn digit_run_end(s: Seq<char>, i: int) -> int
    decreases s.len() - i,
{
    if i < 0 || i >= s.len() {
        i
    } else if is_digit(s[i]) {
        digit_run_end(s, i + 1)
    } else {
        i
    }
}

pub proof fn lemma_digit_run_end_bounds(s: Seq<char>, i: int)
    requires
        0 <= i <= s.len(),
    ensures
        i <= digit_run_end(s, i) <= s.len(),
    decreases s.len() - i,
{
    if i < s.len() && is_digit(s[i]) {
        lemma_digit_run_end_bounds(s, i + 1);
    }
}

/// Compute `digit_run_end` on a character vector.
pub fn digit_run_end_x(v: &Vec<char>, i: usize) -> (r: usize)
    requires
        i <= v@.len(),
    ensures
        r == digit_run_end(v@, i as int),
        i <= r <= v@.len(),
{
    let mut j: usize = i;
    while j < v.len() && is_digit_char(v[j])
        invariant
            i <= j <= v@.len(),
            digit_run_end(v@, i as int) == digit_run_end(v@, j as int),
        decreases v@.len() - j,
    {
        j += 1;
    }
    proof {
        lemma_digit_run_end_bounds(v@, j as int);
    }
    j
}

/// The first index at or after `i` holding a non-whitespace character.
pub open spec fn space_run_end(s: Seq<char>, i: int) -> int
    decreases s.len() - i,
{
    if i < 0 || i >= s.len() {
        i
    } else if is_space(s[i]) {
        space_run_end(s, i + 1)
    } else {
        i
    }
}

pub proof fn lemma_space_run_end_bounds(s: Seq<char>, i: int)
    requires
        0 <= i <= s.len(),
    ensures
        i <= space_run_end(s, i) <= s.len(),
    decreases s.len() - i,
{
    if i < s.len() && is_space(s[i]) {
        lemma_space_run_end_bounds(s, i + 1);
    }
}

/// Compute `space_run_end` on a character vector.
pub fn space_run_end_x(v: &Vec<char>, i: usize) -> (r: usize)
    requires
        i <= v@.len(),
    ensures
        r == space_run_end(v@, i as int),
        i <= r <= v@.len(),
{
    let mut j: usize = i;
    while j < v.len() && is_space_char(v[j])
        invariant
            i <= j <= v@.len(),
            space_run_end(v@, i as int) == space_run_end(v@, j as int),
        decreases v@.len() - j,
    {
        j += 1;
    }
    proof {
        lemma_space_run_end_bounds(v@, j as int);
    }
    j
}

/// Where a version number beginning at `i` ends (exclusive), if one begins
/// there: three digit runs separated by dots, plus an optional fourth.
pub open spec fn version_end(s: Seq<char>, i: int) -> Option<int> {
    let e1 = digit_run_end(s, i);
    let e2 = digit_run_end(s, e1 + 1);
    let e3 = digit_run_end(s, e2 + 1);
    let e4 = digit_run_end(s, e3 + 1);
    if e1 == i || e1 >= s.len() || s[e1] != '.' {
        None
    } else if e2 == e1 + 1 || e2 >= s.len() || s[e2] != '.' {
        None
    } else if e3 == e2 + 1 {
        None
    } else if e3 < s.len() && s[e3] == '.' && e4 > e3 + 1 {
        Some(e4)
    } else {
        Some(e3)
    }
}

/// Compute `version_end` on a character vector.
pub fn version_end_x(v: &Vec<char>, i: usize) -> (r: Option<usize>)
    requires
        i <= v@.len(),
    ensures
        match r {
            Some(e) => version_end(v@, i as int) == Some(e as int) && i < e <= v@.len(),
            None => version_end(v@, i as int) is None,
        },
{
    let e1 = digit_run_end_x(v, i);
    if e1 == i || e1 >= v.len() || v[e1] != '.' {
        return None;
    }
    let e2 = digit_run_end_x(v, e1 + 1);
    if e2 == e1 + 1 || e2 >= v.len() || v[e2] != '.' {
        return None;
    }
    let e3 = digit_run_end_x(v, e2 + 1);
    if e3 == e2 + 1 {
        return None;
    }
    if e3 < v.len() && v[e3] == '.' {
        let e4 = digit_run_end_x(v, e3 + 1);
        if e4 > e3 + 1 {
            return Some(e4);
        }
    }
    Some(e3)
}

/// The capture (start and end of the bare version number) of a `v`-prefixed
/// or bare version number beginning at `i`, if one begins there. A leading
/// `v` is consumed but not captured.
pub open spec fn vnum_capture_at(s: Seq<char>, i: int) -> Option<(int, int)> {
    if 0 <= i < s.len() && s[i] == 'v' && version_end(s, i + 1) is Some {
        Some((i + 1, version_end(s, i + 1)->Some_0))
    } else if version_end(s, i) is Some {
        Some((i, version_end(s, i)->Some_0))
    } else {
        None
    }
}

/// Compute `vnum_capture_at` on a character vector.
pub fn vnum_capture_at_x(v: &Vec<char>, i: usize) -> (r: Option<(usize, usize)>)
    requires
        i <= v@.len(),
    ensures
        match r {
            Some((a, b)) => vnum_capture_at(v@, i as int) == Some((a as int, b as int))
                && a < b <= v@.len(),
            None => vnum_capture_at(v@, i as int) is None,
        },
{
    if i < v.len() && v[i] == 'v' {
        if let Some(e) = version_end_x(v, i + 1) {
            return Some((i + 1, e));
        }
    }
    match version_end_x(v, i) {
        Some(e) => Some((i, e)),
        None => None,
    }
}

/// The leftmost `v?`-version capture at or after `from`, if any.
pub open spec fn first_vnum_from(s: Seq<char>, from: int) -> Option<(int, int)>
    decreases s.len() - from,
{
    if from < 0 || from > s.len() {
        None
    } else if vnum_capture_at(s, from) is Some {
        vnum_capture_at(s, from)
    } else if from == s.len() {
        None
    } else {
        first_vnum_from(s, from + 1)
    }
}

/// Compute `first_vnum_from` on a character vector.
pub fn first_vnum_from_x(v: &Vec<char>, from: usize) -> (r: Option<(usize, usize)>)
    requires
        from <= v@.len(),
    ensures
        match r {
            Some((a, b)) => first_vnum_from(v@, from as int) == Some((a as int, b as int))
                && a < b <= v@.len(),
            None => first_vnum_from(v@, from as int) is None,
        },
{
    let mut i: usize = from;
    loop
        invariant
            from <= i <= v@.len(),
            first_vnum_from(v@, from as int) == first_vnum_from(v@, i as int),
        decreases v@.len() - i,
    {
        if let Some(c) = vnum_capture_at_x(v, i) {
            return Some(c);
        }
        if i == v.len() {
            return None;
        }
        i += 1;
    }
}

/// The characters of the word `version`.
pub open spec fn version_word() -> Seq<char> {
    seq!['v', 'e', 'r', 's', 'i', 'o', 'n']
}

/// The characters of the sentinel `unknown`.
pub open spec fn unknown_seq() -> Seq<char> {
    seq!['u', 'n', 'k', 'n', 'o', 'w', 'n']
}

/// The capture of a version number immediately after the word `version` at
/// index `i`: the word itself, at least one whitespace character, then a
/// `v`-prefixed or bare version number.
pub open spec fn version_word_capture_at(s: Seq<char>, i: int) -> Option<(int, int)> {
    if crate::strutil::occurs_at(s, i, version_word()) {
        let j = space_run_end(s, i + 7);
        if j > i + 7 {
            vnum_capture_at(s, j)
        } else {
            None
        }
    } else {
        None
    }
}

/// The leftmost `version`-word capture at or after `from`, if any.
pub open spec fn first_version_word_from(s: Seq<char>, from: int) -> Option<(int, int)>
    decreases s.len() - from,
{
    if from < 0 || from > s.len() {
        None
    } else if version_word_capture_at(s, from) is Some {
        version_word_capture_at(s, from)
    } else if from == s.len() {
        None
    } else {
        first_version_word_from(s, from + 1)
    }
}

/// The version string that extraction yields for output text `s`: the
/// capture after the word `version` if present, else the leftmost version
/// number, else the sentinel `unknown`.
pub open spec fn extracted_version(s: Seq<char>) -> Seq<char> {
    if first_version_word_from(s, 0) is Some {
        let (a, b) = first_version_word_from(s, 0)->Some_0;
        s.subrange(a, b)
    } else if first_vnum_from(s, 0) is Some {
        let (a, b) = first_vnum_from(s, 0)->Some_0;
        s.subrange(a, b)
    } else {
        unknown_seq()
    }
}

/// Compute `version_word_capture_at` on a character vector; `w` must hold
/// the characters of the word `version`.
fn version_word_capture_at_x(v: &Vec<char>, i: usize, w: &Vec<char>) -> (r: Option<(usize, usize)>)
    requires
        i <= v@.len(),
        w@ == version_word(),
    ensures
        match r {
            Some((a, b)) => version_word_capture_at(v@, i as int) == Some((a as int, b as int))
                && a < b <= v@.len(),
            None => version_word_capture_at(v@, i as int) is None,
        },
{
    if !crate::strutil::occurs_at_x(v, i, w) {
        return None;
    }
    let n = v.len();
    proof {
        assert(i + 7 <= n);
    }
    let j = space_run_end_x(v, i + 7);
    if j == i + 7 {
        return None;
    }
    vnum_capture_at_x(v, j)
}

/// The leftmost `version`-word capture at or after `from`.
fn first_version_word_from_x(v: &Vec<char>, from: usize, w: &Vec<char>) -> (r: Option<(usize, usize)>)
    requires
        from <= v@.len(),
        w@ == version_word(),
    ensures
        match r {
            Some((a, b)) => first_version_word_from(v@, from as int) == Some((a as int, b as int))
                && a < b <= v@.len(),
            None => first_version_word_from(v@, from as int) is None,
        },
{
    let mut i: usize = from;
    loop
        invariant
            from <= i <= v@.len(),
            w@ == version_word(),
            first_version_word_from(v@, from as int) == first_version_word_from(v@, i as int),
        decreases v@.len() - i,
    {
        if let Some(c) = version_word_capture_at_x(v, i, w) {
            return Some(c);
        }
        if i == v.len() {
            return None;
        }
        i += 1;
    }
}

/// Extract a version string from command output, or the sentinel `unknown`
/// when the output holds no version number.
pub fn parse_version_string(s: &str) -> (r: String)
    ensures
        r@ == extracted_version(s@),
{
    let v = chars_vec(s);
    let w = chars_vec("version");
    proof {
        reveal_strlit("version");
        assert(w@ =~= version_word());
    }
    if let Some((a, b)) = first_version_word_from_x(&v, 0, &w) {
        let sub = s.substring_char(a, b);
        return sub.to_owned();
    }
    if let Some((a, b)) = first_vnum_from_x(&v, 0) {
        let sub = s.substring_char(a, b);
        return sub.to_owned();
    }
    let r = String::from_str("unknown");
    proof {
        reveal_strlit("unknown");
        assert(r@ =~= unknown_seq());
    }
    r
}

/// The numeric value of a run of digit characters, most significant first.
pub open spec fn digits_value(c: Seq<char>) -> int
    decreases c.len(),
{
    if c.len() == 0 {
        0
    } else {
        digits_value(c.drop_last()) * 10 + (c.last() as u32 - 48)
    }
}

/// Every character of `c` is an ASCII digit.
pub open spec fn all_digits(c: Seq<char>) -> bool {
    forall|i: int| 0 <= i < c.len() ==> is_digit(#[trigger] c[i])
}

/// A component counts as numeric when it is a non-empty run of digits whose
/// value fits in 32 bits; anything else is ignored by the comparison.
pub open spec fn is_numeric_component(c: Seq<char>) -> bool {
    c.len() > 0 && all_digits(c) && digits_value(c) <= u32::MAX
}

pub proof fn lemma_digits_value_nonneg(c: Seq<char>)
    requires
        all_digits(c),
    ensures
        digits_value(c) >= 0,
    decreases c.len(),
{
    if c.len() > 0 {
        assert(all_digits(c.drop_last())) by {
            assert(forall|i: int| 0 <= i < c.len() - 1 ==> is_digit(#[trigger] c.drop_last()[i]));
        }
        lemma_digits_value_nonneg(c.drop_last());
    }
}

pub proof fn lemma_digits_value_prefix_le(c: Seq<char>, k: int)
    requires
        all_digits(c),
        0 <= k <= c.len(),
    ensures
        digits_value(c.take(k)) <= digits_value(c),
    decreases c.len(),
{
    if k < c.len() {
        assert(all_digits(c.drop_last())) by {
            assert(forall|i: int| 0 <= i < c.len() - 1 ==> is_digit(#[trigger] c.drop_last()[i]));
        }
        assert(c.take(k) =~= c.drop_last().take(k));
        lemma_digits_value_prefix_le(c.drop_last(), k);
        lemma_digits_value_nonneg(c.drop_last());
    } else {
        assert(c.take(k) =~= c);
    }
}

/// The first index at or after `i` holding a dot, or the length of `s`.
pub open spec fn dot_run_end(s: Seq<char>, i: int) -> int
    decreases s.len() - i,
{
    if i < 0 || i >= s.len() {
        i
    } else if s[i] == '.' {
        i
    } else {
        dot_run_end(s, i + 1)
    }
}

pub proof fn lemma_dot_run_end_bounds(s: Seq<char>, i: int)
    requires
        0 <= i <= s.len(),
    ensures
        i <= dot_run_end(s, i) <= s.len(),
    decreases s.len() - i,
{
    if i < s.len() && s[i] != '.' {
        lemma_dot_run_end_bounds(s, i + 1);
    }
}

/// Compute `dot_run_end` on a character vector.
fn dot_run_end_x(v: &Vec<char>, i: usize) -> (r: usize)
    requires
        i <= v@.len(),
    ensures
        r == dot_run_end(v@, i as int),
        i <= r <= v@.len(),
{
    let mut j: usize = i;
    while j < v.len() && v[j] != '.'
        invariant
            i <= j <= v@.len(),
            dot_run_end(v@, i as int) == dot_run_end(v@, j as int),
        decreases v@.len() - j,
    {
        j += 1;
    }
    proof {
        lemma_dot_run_end_bounds(v@, j as int);
    }
    j
}

/// The first index at or after `i` holding something other than `v`.
pub open spec fn v_run_end(s: Seq<char>, i: int) -> int
    decreases s.len() - i,
{
    if i < 0 || i >= s.len() {
        i
    } else if s[i] == 'v' {
        v_run_end(s, i + 1)
    } else {
        i
    }
}

pub proof fn lemma_v_run_end_bounds(s: Seq<char>, i: int)
    requires
        0 <= i <= s.len(),
    ensures
        i <= v_run_end(s, i) <= s.len(),
    decreases s.len() - i,
{
    if i < s.len() && s[i] == 'v' {
        lemma_v_run_end_bounds(s, i + 1);
    }
}

/// The dot-separated pieces of `s` from index `i` on, kept verbatim.
pub open spec fn raw_components_from(s: Seq<char>, i: int) -> Seq<Seq<char>>
    decreases s.len() - i,
{
    if i < 0 || i > s.len() {
        Seq::empty()
    } else {
        let e = dot_run_end(s, i);
        let cut = if e < i { i } else { e };
        if cut >= s.len() {
            seq![s.subrange(i, cut)]
        } else {
            seq![s.subrange(i, cut)] + raw_components_from(s, cut + 1)
        }
    }
}

/// The values of the numeric components among `cs`, in order.
pub open spec fn numeric_values(cs: Seq<Seq<char>>) -> Seq<u32>
    decreases cs.len(),
{
    if cs.len() == 0 {
        Seq::empty()
    } else {
        let rest = numeric_values(cs.drop_first());
        if is_numeric_component(cs.first()) {
            seq![digits_value(cs.first()) as u32] + rest
        } else {
            rest
        }
    }
}

proof fn lemma_numeric_values_cons(p: Seq<char>, rest: Seq<Seq<char>>)
    ensures
        numeric_values(seq![p] + rest) == if is_numeric_component(p) {
            seq![digits_value(p) as u32] + numeric_values(rest)
        } else {
            numeric_values(rest)
        },
{
    let cs = seq![p] + rest;
    assert(cs.first() == p);
    assert(cs.drop_first() =~= rest);
}

/// The integer tuple a version string denotes: leading `v` characters are
/// stripped, the rest is split on dots, and the numeric components are kept.
pub open spec fn parsed_version(s: Seq<char>) -> Seq<u32> {
    numeric_values(raw_components_from(s, v_run_end(s, 0)))
}

/// The component of `s` at position `i`, counting missing components as 0.
pub open spec fn comp_at(s: Seq<u32>, i: int) -> u32 {
    if 0 <= i < s.len() {
        s[i]
    } else {
        0
    }
}

/// Strict lexicographic order on integer tuples, missing trailing
/// components treated as zero.
pub open spec fn version_lt(a: Seq<u32>, b: Seq<u32>) -> bool {
    exists|i: int|
        0 <= i < a.len() + b.len()
        && #[trigger] comp_at(a, i) < comp_at(b, i)
        && (forall|j: int| 0 <= j < i ==> comp_at(a, j) == comp_at(b, j))
}

/// Parse the numeric value of `v[a..b]` if it is a numeric component.
fn numeric_value_of(v: &Vec<char>, a: usize, b: usize) -> (r: Option<u32>)
    requires
        a <= b <= v@.len(),
    ensures
        match r {
            Some(x) => is_numeric_component(v@.subrange(a as int, b as int))
                && x == digits_value(v@.subrange(a as int, b as int)),
            None => !is_numeric_component(v@.subrange(a as int, b as int)),
        },
{
    let ghost whole = v@.subrange(a as int, b as int);
    if a == b {
        return None;
    }
    let mut acc: u64 = 0;
    let mut j: usize = a;
    while j < b
        invariant
            a <= j <= b <= v@.len(),
            whole == v@.subrange(a as int, b as int),
            all_digits(v@.subrange(a as int, j as int)),
            acc == digits_value(v@.subrange(a as int, j as int)),
            acc <= u32::MAX,
        decreases b - j,
    {
        let c = v[j];
        if !is_digit_char(c) {
            proof {
                assert(whole[j - a] == c);
            }
            return None;
        }
        let d = (c as u32 - 48) as u64;
        acc = acc * 10 + d;
        j += 1;
        proof {
            let prev = v@.subrange(a as int, j - 1);
            let cur = v@.subrange(a as int, j as int);
            assert(cur.drop_last() =~= prev);
            assert(cur.last() == c);
            assert(forall|k: int| 0 <= k < j - a ==> is_digit(#[trigger] cur[k]));
        }
        if acc > 0xffff_ffff {
            proof {
                let pre = v@.subrange(a as int, j as int);
                if is_numeric_component(whole) {
                    assert(pre =~= whole.take(j - a));
                    lemma_digits_value_prefix_le(whole, j - a);
                }
            }
            return None;
        }
    }
    proof {
        assert(v@.subrange(a as int, j as int) =~= whole);
    }
    Some(acc as u32)
}

/// Split a version string into its numeric components.
pub fn parse_components(s: &str) -> (r: Vec<u32>)
    ensures
        r@ == parsed_version(s@),
{
    let v = chars_vec(s);
    let n = v.len();
    let mut i: usize = 0;
    while i < n && v[i] == 'v'
        invariant
            i <= n,
            n == v@.len(),
            v_run_end(v@, 0) == v_run_end(v@, i as int),
        decreases n - i,
    {
        i += 1;
    }
    proof {
        lemma_v_run_end_bounds(v@, i as int);
    }
    let ghost start = i as int;
    let mut out: Vec<u32> = Vec::new();
    loop
        invariant_except_break
            i <= n,
            n == v@.len(),
            out@ + numeric_values(raw_components_from(v@, i as int))
                == numeric_values(raw_components_from(v@, start)),
        ensures
            out@ == numeric_values(raw_components_from(v@, start)),
        decreases n - i,
    {
        let e = dot_run_end_x(&v, i);
        let ghost piece = v@.subrange(i as int, e as int);
        let ghost tail = if e >= n { Seq::<Seq<char>>::empty() } else {
            raw_components_from(v@, e + 1)
        };
        proof {
            if e >= n {
                assert(raw_components_from(v@, i as int) == seq![piece]);
                assert(seq![piece] =~= seq![piece] + tail);
            } else {
                assert(raw_components_from(v@, i as int) == seq![piece] + tail);
            }
            lemma_numeric_values_cons(piece, tail);
        }
        let ghost out_pre = out@;
        match numeric_value_of(&v, i, e) {
            Some(x) => {
                out.push(x);
                proof {
                    assert(out@ =~= out_pre + seq![x]);
                    assert(out@ + numeric_values(tail)
                        =~= out_pre + (seq![x] + numeric_values(tail)));
                }
            },
            None => {},
        }
        proof {
            assert(out@ + numeric_values(tail)
                == numeric_values(raw_components_from(v@, start)));
        }
        if e >= n {
            proof {
                assert(numeric_values(Seq::<Seq<char>>::empty()) == Seq::<u32>::empty());
                assert(out@ =~= out@ + numeric_values(Seq::<Seq<char>>::empty()));
            }
            break;
        }
        i = e + 1;
    }
    out
}

/// Decide `version_lt` on component vectors.
fn version_lt_x(a: &Vec<u32>, b: &Vec<u32>) -> (r: bool)
    ensures
        r == version_lt(a@, b@),
{
    let mut i: usize = 0;
    let n = if a.len() > b.len() { a.len() } else { b.len() };
    proof {
        assert(a@.len() + b@.len() <= 2 * n);
    }
    while i < n
        invariant
            i <= n,
            n <= a@.len() + b@.len() || (a@.len() == 0 && b@.len() == 0),
            n >= a@.len() && n >= b@.len(),
            forall|j: int| 0 <= j < i ==> comp_at(a@, j) == comp_at(b@, j),
        decreases n - i,
    {
        let x = if i < a.len() { a[i] } else { 0 };
        let y = if i < b.len() { b[i] } else { 0 };
        proof {
            assert(x == comp_at(a@, i as int));
            assert(y == comp_at(b@, i as int));
        }
        if x < y {
            proof {
                assert(0 <= i < a@.len() + b@.len() && comp_at(a@, i as int) < comp_at(b@, i as int)
                    && (forall|j: int| 0 <= j < i ==> comp_at(a@, j) == comp_at(b@, j)));
            }
            return true;
        }
        if x > y {
            proof {
                assert forall|k: int| !(0 <= k < a@.len() + b@.len()
                    && comp_at(a@, k) < comp_at(b@, k)
                    && (forall|j: int| 0 <= j < k ==> comp_at(a@, j) == comp_at(b@, j))) by {
                    if 0 <= k < a@.len() + b@.len() && comp_at(a@, k) < comp_at(b@, k) {
                        if k > i {
                            assert(comp_at(a@, i as int) != comp_at(b@, i as int));
                        }
                    }
                }
            }
            return false;
        }
        i += 1;
    }
    proof {
        assert forall|k: int| !(0 <= k < a@.len() + b@.len()
            && comp_at(a@, k) < comp_at(b@, k)
            && (forall|j: int| 0 <= j < k ==> comp_at(a@, j) == comp_at(b@, j))) by {
            if 0 <= k < a@.len() + b@.len() && comp_at(a@, k) < comp_at(b@, k) {
                assert(k < n || (comp_at(a@, k) == 0 && comp_at(b@, k) == 0));
            }
        }
    }
    false
}

/// Whether `candidate` denotes a strictly newer version than `current`.
pub fn is_version_newer(candidate: &str, current: &str) -> (r: bool)
    ensures
        r == version_lt(parsed_version(current@), parsed_version(candidate@)),
{
    let cur = parse_components(current);
    let cand = parse_components(candidate);
    version_lt_x(&cur, &cand)
}

/// The capture of the first version number after the first occurrence of
/// word `w` at or after `from`, if both exist.
pub open spec fn capture_after_word_from(s: Seq<char>, from: int, w: Seq<char>)
    -> Option<(int, int)> {
    match crate::strutil::first_occurrence_from(s, from, w) {
        Some(i) => first_vnum_from(s, i + w.len()),
        None => None,
    }
}

/// The capture of the first version number after the first occurrence of
/// `w2` that follows the first occurrence of `w1`.
pub open spec fn capture_after_two_words(s: Seq<char>, w1: Seq<char>, w2: Seq<char>)
    -> Option<(int, int)> {
    match crate::strutil::first_occurrence_from(s, 0, w1) {
        Some(i) => capture_after_word_from(s, i + w1.len(), w2),
        None => None,
    }
}

/// What self-update probe output resolves to: the literal `current` when the
/// output announces the tool is up to date; otherwise the first version
/// number after an update-availability phrase, the phrases tried in priority
/// order; otherwise whatever plain extraction yields.
pub open spec fn latest_from_output(s: Seq<char>) -> Seq<char> {
    if crate::strutil::contains_seq(s, "up to date"@)
        || crate::strutil::contains_seq(s, "already latest"@) {
        "current"@
    } else if capture_after_two_words(s, "update"@, "available"@) is Some {
        let (a, b) = capture_after_two_words(s, "update"@, "available"@)->Some_0;
        s.subrange(a, b)
    } else if capture_after_two_words(s, "new"@, "version"@) is Some {
        let (a, b) = capture_after_two_words(s, "new"@, "version"@)->Some_0;
        s.subrange(a, b)
    } else if capture_after_word_from(s, 0, "latest"@) is Some {
        let (a, b) = capture_after_word_from(s, 0, "latest"@)->Some_0;
        s.subrange(a, b)
    } else {
        extracted_version(s)
    }
}

/// Compute `capture_after_word_from` on a character vector.
fn capture_after_word_from_x(v: &Vec<char>, from: usize, w: &Vec<char>)
    -> (r: Option<(usize, usize)>)
    requires
        from <= v@.len(),
    ensures
        match r {
            Some((a, b)) => capture_after_word_from(v@, from as int, w@)
                == Some((a as int, b as int)) && a < b <= v@.len(),
            None => capture_after_word_from(v@, from as int, w@) is None,
        },
{
    match crate::strutil::find_from(v, from, w) {
        Some(i) => {
            let n = v.len();
            proof {
                crate::strutil::lemma_first_occurrence_bounds(v@, from as int, w@);
                assert(i + w@.len() <= n);
            }
            first_vnum_from_x(v, i + w.len())
        },
        None => None,
    }
}

/// Compute `capture_after_two_words` on a character vector.
fn capture_after_two_words_x(v: &Vec<char>, w1: &Vec<char>, w2: &Vec<char>)
    -> (r: Option<(usize, usize)>)
    ensures
        match r {
            Some((a, b)) => capture_after_two_words(v@, w1@, w2@)
                == Some((a as int, b as int)) && a < b <= v@.len(),
            None => capture_after_two_words(v@, w1@, w2@) is None,
        },
{
    match crate::strutil::find_from(v, 0, w1) {
        Some(i) => {
            let n = v.len();
            proof {
                crate::strutil::lemma_first_occurrence_bounds(v@, 0, w1@);
                assert(i + w1@.len() <= n);
            }
            capture_after_word_from_x(v, i + w1.len(), w2)
        },
        None => None,
    }
}

/// Parse the latest version announced by a self-update probe's output.
pub fn parse_latest_version_from_output(s: &str) -> (r: String)
    ensures
        r@ == latest_from_output(s@),
{
    let v = chars_vec(s);
    let up_to_date = chars_vec("up to date");
    let already_latest = chars_vec("already latest");
    if crate::strutil::contains_x(&v, &up_to_date) || crate::strutil::contains_x(&v, &already_latest) {
        return String::from_str("current");
    }
    let update = chars_vec("update");
    let available = chars_vec("available");
    if let Some((a, b)) = capture_after_two_words_x(&v, &update, &available) {
        return s.substring_char(a, b).to_owned();
    }
    let new_w = chars_vec("new");
    let version_w = chars_vec("version");
    if let Some((a, b)) = capture_after_two_words_x(&v, &new_w, &version_w) {
        return s.substring_char(a, b).to_owned();
    }
    let latest_w = chars_vec("latest");
    if let Some((a, b)) = capture_after_word_from_x(&v, 0, &latest_w) {
        return s.substring_char(a, b).to_owned();
    }
    parse_version_string(s)
}

/// The first index at or after `i` holding a newline, or the length of `s`.
pub open spec fn line_end(s: Seq<char>, i: int) -> int
    decreases s.len() - i,
{
    if i < 0 || i >= s.len() {
        i
    } else if s[i] == '\n' {
        i
    } else {
        line_end(s, i + 1)
    }
}

pub proof fn lemma_line_end_bounds(s: Seq<char>, i: int)
    requires
        0 <= i <= s.len(),
    ensures
        i <= line_end(s, i) <= s.len(),
    decreases s.len() - i,
{
    if i < s.len() && s[i] != '\n' {
        lemma_line_end_bounds(s, i + 1);
    }
}

/// Compute `line_end` on a character vector.
pub fn line_end_x(v: &Vec<char>, i: usize) -> (r: usize)
    requires
        i <= v@.len(),
    ensures
        r == line_end(v@, i as int),
        i <= r <= v@.len(),
{
    let mut j: usize = i;
    while j < v.len() && v[j] != '\n'
        invariant
            i <= j <= v@.len(),
            line_end(v@, i as int) == line_end(v@, j as int),
        decreases v@.len() - j,
    {
        j += 1;
    }
    proof {
        lemma_line_end_bounds(v@, j as int);
    }
    j
}

/// The first index at or after `i` holding whitespace, or the length of `s`.
pub open spec fn token_end(s: Seq<char>, i: int) -> int
    decreases s.len() - i,
{
    if i < 0 || i >= s.len() {
        i
    } else if is_space(s[i]) {
        i
    } else {
        token_end(s, i + 1)
    }
}

pub proof fn lemma_token_end_bounds(s: Seq<char>, i: int)
    requires
        0 <= i <= s.len(),
    ensures
        i <= token_end(s, i) <= s.len(),
    decreases s.len() - i,
{
    if i < s.len() && !is_space(s[i]) {
        lemma_token_end_bounds(s, i + 1);
    }
}

/// Compute `token_end` on a character vector.
fn token_end_x(v: &Vec<char>, i: usize) -> (r: usize)
    requires
        i <= v@.len(),
    ensures
        r == token_end(v@, i as int),
        i <= r <= v@.len(),
{
    let mut j: usize = i;
    while j < v.len() && !is_space_char(v[j])
        invariant
            i <= j <= v@.len(),
            token_end(v@, i as int) == token_end(v@, j as int),
        decreases v@.len() - j,
    {
        j += 1;
    }
    proof {
        lemma_token_end_bounds(v@, j as int);
    }
    j
}

/// Scanning lines from position `i` on, the first whitespace-separated token
/// that opens a line whose first non-whitespace character is a decimal
/// digit, as a start/end pair.
pub open spec fn first_numeric_line_token(s: Seq<char>, i: int) -> Option<(int, int)>
    decreases s.len() - i,
{
    if i < 0 || i > s.len() {
        None
    } else {
        let e = line_end(s, i);
        let b = if e < i { i } else { e };
        let j = crate::strutil::trim_start_idx_from(s, i);
        if j < b && is_digit(s[j]) {
            Some((j, token_end(s, j)))
        } else if b >= s.len() {
            None
        } else {
            first_numeric_line_token(s, b + 1)
        }
    }
}

/// Compute `first_numeric_line_token` on a character vector.
fn first_numeric_line_token_x(v: &Vec<char>) -> (r: Option<(usize, usize)>)
    ensures
        match r {
            Some((a, b)) => first_numeric_line_token(v@, 0) == Some((a as int, b as int))
                && a <= b <= v@.len(),
            None => first_numeric_line_token(v@, 0) is None,
        },
{
    let mut i: usize = 0;
    loop
        invariant
            i <= v@.len(),
            first_numeric_line_token(v@, 0) == first_numeric_line_token(v@, i as int),
        decreases v@.len() - i,
    {
        let b = line_end_x(v, i);
        let j = crate::strutil::trim_start_idx_from_x(v, i);
        if j < b && is_digit_char(v[j]) {
            let k = token_end_x(v, j);
            return Some((j, k));
        }
        if b >= v.len() {
            return None;
        }
        i = b + 1;
    }
}

/// What pip's version-index output resolves to: when the output announces
/// available versions, the first token of the first line that opens with a
/// decimal digit.
pub open spec fn pip_latest(s: Seq<char>) -> Option<Seq<char>> {
    if crate::strutil::contains_seq(s, "Available versions:"@) {
        match first_numeric_line_token(s, 0) {
            Some((a, b)) => Some(s.subrange(a, b)),
            None => None,
        }
    } else {
        None
    }
}

/// Parse the latest version out of pip's version-index output.
pub fn parse_pip_version_output(s: &str) -> (r: Option<String>)
    ensures
        match r {
            Some(t) => pip_latest(s@) == Some(t@),
            None => pip_latest(s@) is None,
        },
{
    let v = chars_vec(s);
    let marker = chars_vec("Available versions:");
    if !crate::strutil::contains_x(&v, &marker) {
        return None;
    }
    match first_numeric_line_token_x(&v) {
        Some((a, b)) => Some(s.substring_char(a, b).to_owned()),
        None => None,
    }
}

/// The view of an optional string.
pub open spec fn opt_view(o: Option<String>) -> Option<Seq<char>> {
    match o {
        Some(s) => Some(s@),
        None => None,
    }
}

/// Whether an update is available, given the resolved current and latest
/// version strings: both must be known, a `latest` equal to the sentinel
/// `current` means the tool is up to date, and otherwise the integer tuples
/// are compared.
pub open spec fn spec_update_available(
    current: Option<Seq<char>>,
    latest: Option<Seq<char>>,
) -> bool {
    match (current, latest) {
        (Some(c), Some(l)) => l != "current"@ && version_lt(parsed_version(c), parsed_version(l)),
        _ => false,
    }
}

/// Decide `spec_update_available` on resolved version strings.
pub fn update_available(current: &Option<String>, latest: &Option<String>) -> (r: bool)
    ensures
        r == spec_update_available(opt_view(*current), opt_view(*latest)),
{
    match (current, latest) {
        (Some(c), Some(l)) => {
            if crate::strutil::str_eq(l.as_str(), "current") {
                false
            } else {
                is_version_newer(l.as_str(), c.as_str())
            }
        },
        _ => false,
    }
}

/// Resolved version facts for one tool: what is installed, what is
/// available, whether the latter is newer, which strategy produced the
/// answer, and when (seconds since the Unix epoch).
#[derive(Debug, PartialEq, Eq)]
pub struct VersionInfo {
    pub current: Option<String>,
    pub latest: Option<String>,
    pub update_available: bool,
    pub check_method: String,
    pub last_checked: i64,
}

impl Clone for VersionInfo {
    fn clone(&self) -> (r: Self)
        ensures
            r == *self,
    {
        VersionInfo {
            current: match &self.current {
                Some(s) => Some(s.clone()),
                None => None,
            },
            latest: match &self.latest {
                Some(s) => Some(s.clone()),
                None => None,
            },
            update_available: self.update_available,
            check_method: self.check_method.clone(),
            last_checked: self.last_checked,
        }
    }
}

/// The interchangeable algorithms for resolving a tool's latest version.
#[derive(Debug, Clone, Copy, PartialEq, Eq, Structural)]
pub enum VersionCheckStrategy {
    /// Try each source in decreasing order of accuracy until one answers.
    Auto,
    /// Ask the tool's own update-check command.
    SelfCheck,
    /// Ask the package manager that installed the tool.
    PackageManager,
    /// Consult the offline version table.
    LocalDatabase,
}

impl Default for VersionCheckStrategy {
    fn default() -> (r: Self)
        ensures
            r == VersionCheckStrategy::Auto,
    {
        VersionCheckStrategy::Auto
    }
}

/// The sources a strategy consults, in order. `Auto` starts with the tool's
/// own update check only when one is configured, falls back to the package
/// manager, and ends at the offline table; a concrete strategy consults its
/// one source.
pub open spec fn spec_fallback_chain(
    strategy: VersionCheckStrategy,
    has_update_check: bool,
) -> Seq<VersionCheckStrategy> {
    match strategy {
        VersionCheckStrategy::Auto => if has_update_check {
            seq![
                VersionCheckStrategy::SelfCheck,
                VersionCheckStrategy::PackageManager,
                VersionCheckStrategy::LocalDatabase,
            ]
        } else {
            seq![VersionCheckStrategy::PackageManager, VersionCheckStrategy::LocalDatabase]
        },
        s => seq![s],
    }
}

/// Compute the fallback chain of a strategy.
pub fn fallback_chain(strategy: VersionCheckStrategy, has_update_check: bool)
    -> (r: Vec<VersionCheckStrategy>)
    ensures
        r@ == spec_fallback_chain(strategy, has_update_check),
{
    let r = match strategy {
        VersionCheckStrategy::Auto => {
            if has_update_check {
                vec![
                    VersionCheckStrategy::SelfCheck,
                    VersionCheckStrategy::PackageManager,
                    VersionCheckStrategy::LocalDatabase,
                ]
            } else {
                vec![VersionCheckStrategy::PackageManager, VersionCheckStrategy::LocalDatabase]
            }
        },
        s => vec![s],
    };
    proof {
        assert(r@ =~= spec_fallback_chain(strategy, has_update_check));
    }
    r
}

/// The automatic strategy can never run out of sources: whether or not a
/// self-update probe is configured, and however the earlier sources fail,
/// its chain is finite, never empty, and its final source is the offline
/// table — which always yields an answer rather than hanging or erroring.
pub proof fn lemma_auto_fallback_reaches_local_database(has_update_check: bool)
    ensures
        spec_fallback_chain(VersionCheckStrategy::Auto, has_update_check).len() >= 1,
        spec_fallback_chain(VersionCheckStrategy::Auto, has_update_check).last()
            == VersionCheckStrategy::LocalDatabase,
        spec_fallback_chain(VersionCheckStrategy::Auto, has_update_check)
            .contains(VersionCheckStrategy::LocalDatabase),
{
    let chain = spec_fallback_chain(VersionCheckStrategy::Auto, has_update_check);
    assert(chain[chain.len() - 1] == VersionCheckStrategy::LocalDatabase);
}

/// Version facts resolved through the tool's own update check: `latest`
/// parses the probe's output when the probe ran and succeeded.
pub fn self_check_info(
    current: Option<String>,
    update_output: Option<String>,
    now: i64,
) -> (r: VersionInfo)
    ensures
        r.current == current,
        match update_output {
            Some(out) => r.latest is Some && r.latest->0@ == latest_from_output(out@),
            None => r.latest is None,
        },
        r.update_available == spec_update_available(opt_view(r.current), opt_view(r.latest)),
        r.check_method@ == "self-check"@,
        r.last_checked == now,
{
    let latest = match update_output {
        Some(out) => Some(parse_latest_version_from_output(out.as_str())),
        None => None,
    };
    let avail = update_available(&current, &latest);
    VersionInfo {
        current,
        latest,
        update_available: avail,
        check_method: String::from_str("self-check"),
        last_checked: now,
    }
}

/// Version facts resolved through a package manager's metadata query.
pub fn package_manager_info(
    current: Option<String>,
    method: &str,
    latest: Option<String>,
    now: i64,
) -> (r: VersionInfo)
    ensures
        r.current == current,
        r.latest == latest,
        r.update_available == spec_update_available(opt_view(current), opt_view(latest)),
        r.check_method@ == "package-manager-"@ + method@,
        r.last_checked == now,
{
    let avail = update_available(&current, &latest);
    let mut check_method = String::from_str("package-manager-");
    check_method.append(method);
    VersionInfo {
        current,
        latest,
        update_available: avail,
        check_method,
        last_checked: now,
    }
}

/// Version facts resolved from the offline version table.
pub fn local_database_info(
    current: Option<String>,
    latest: Option<String>,
    now: i64,
) -> (r: VersionInfo)
    ensures
        r.current == current,
        r.latest == latest,
        r.update_available == spec_update_available(opt_view(current), opt_view(latest)),
        r.check_method@ == "local-database"@,
        r.last_checked == now,
{
    let avail = update_available(&current, &latest);
    VersionInfo {
        current,
        latest,
        update_available: avail,
        check_method: String::from_str("local-database"),
        last_checked: now,
    }
}

/// What a successful version-check run of the tool itself resolves to: the
/// extracted version on success, no version otherwise.
pub fn current_version_from_output(success: bool, stdout: &str) -> (r: Option<String>)
    ensures
        match r {
            Some(ver) => success && ver@ == extracted_version(stdout@),
            None => !success,
        },
{
    if success {
        Some(parse_version_string(stdout))
    } else {
        None
    }
}

/// One tool's row in the offline version table. Times are seconds since the
/// Unix epoch.
#[derive(Debug)]
pub struct ToolVersionInfo {
    pub latest_version: String,
    pub release_date: i64,
    pub download_url: Option<String>,
    pub changelog_url: Option<String>,
}

impl Clone for ToolVersionInfo {
    fn clone(&self) -> (r: Self)
        ensures
            r == *self,
    {
        ToolVersionInfo {
            latest_version: self.latest_version.clone(),
            release_date: self.release_date,
            download_url: match &self.download_url {
                Some(u) => Some(u.clone()),
                None => None,
            },
            changelog_url: match &self.changelog_url {
                Some(u) => Some(u.clone()),
                None => None,
            },
        }
    }
}

/// The number of whole days between two instants, truncated toward zero.
pub open spec fn days_between(later: int, earlier: int) -> int {
    if later >= earlier {
        (later - earlier) / 86400
    } else {
        -((earlier - later) / 86400)
    }
}

/// The offline version table for the local-database strategy, refreshable
/// and markable stale after a configurable age.
pub struct VersionDatabase {
    pub last_updated: i64,
    pub tools: StringMap<ToolVersionInfo>,
}

impl VersionDatabase {
    /// An empty table stamped with the given time.
    pub fn new_at(now: i64) -> (r: Self)
        ensures
            r.last_updated == now,
            r.tools@ == Map::<Seq<char>, ToolVersionInfo>::empty(),
    {
        VersionDatabase { last_updated: now, tools: StringMap::new() }
    }

    /// An empty table stamped with the current time.
    pub fn new() -> (r: Self)
        ensures
            r.tools@ == Map::<Seq<char>, ToolVersionInfo>::empty(),
    {
        let now = now_timestamp();
        Self::new_at(now)
    }

    /// The latest version recorded for a tool, if any.
    pub fn get_latest_version(&self, tool_id: &str) -> (r: Option<&String>)
        ensures
            match r {
                Some(v) => self.tools@.contains_key(tool_id@)
                    && *v == self.tools@[tool_id@].latest_version,
                None => !self.tools@.contains_key(tool_id@),
            },
    {
        match self.tools.get(tool_id) {
            Some(info) => Some(&info.latest_version),
            None => None,
        }
    }

    /// Record a tool's row and stamp the table with the given time.
    pub fn update_tool_version_at(&mut self, tool_id: String, info: ToolVersionInfo, now: i64)
        ensures
            final(self).tools@ == old(self).tools@.insert(tool_id@, info),
            final(self).last_updated == now,
    {
        self.tools.insert(tool_id, info);
        self.last_updated = now;
    }

    /// Record a tool's row and stamp the table with the current time.
    pub fn update_tool_version(&mut self, tool_id: String, info: ToolVersionInfo)
        ensures
            final(self).tools@ == old(self).tools@.insert(tool_id@, info),
    {
        let now = now_timestamp();
        self.update_tool_version_at(tool_id, info, now);
    }

    /// Whether the table is older than `max_age_days` whole days at `now`.
    pub fn is_stale_at(&self, max_age_days: i64, now: i64) -> (r: bool)
        ensures
            r == (days_between(now as int, self.last_updated as int) > max_age_days),
    {
        let days: i128 = if now >= self.last_updated {
            ((now as i128) - (self.last_updated as i128)) / 86400
        } else {
            -(((self.last_updated as i128) - (now as i128)) / 86400)
        };
        days > max_age_days as i128
    }

    /// Whether the table is older than `max_age_days` whole days now; the
    /// exact rule is `is_stale_at`, applied to the clock's reading.
    pub fn is_stale(&self, max_age_days: i64) -> bool {
        let now = now_timestamp();
        self.is_stale_at(max_age_days, now)
    }
}

/// The metadata-query argv of a package manager: what to run to learn the
/// latest published version of `package`.
pub open spec fn spec_package_query_argv(method: Seq<char>, package: Seq<char>)
    -> Option<Seq<Seq<char>>> {
    if method == "npm"@ {
        Some(seq!["npm"@, "view"@, package, "version"@])
    } else if method == "brew"@ {
        Some(seq!["brew"@, "info"@, package, "--json=v1"@])
    } else if method == "pip"@ {
        Some(seq!["pip"@, "index"@, "versions"@, package])
    } else {
        None
    }
}

/// Build the metadata-query argv for a package manager, or nothing when the
/// manager's query is not supported.
pub fn package_query_argv(method: &str, package: &str) -> (r: Option<Vec<String>>)
    ensures
        match r {
            Some(cmd) => spec_package_query_argv(method@, package@) == Some(cmd.deep_view()),
            None => spec_package_query_argv(method@, package@) is None,
        },
{
    if str_eq(method, "npm") {
        let cmd = vec![
            String::from_str("npm"),
            String::from_str("view"),
            package.to_owned(),
            String::from_str("version"),
        ];
        proof {
            assert(cmd.deep_view() =~= spec_package_query_argv(method@, package@)->Some_0);
        }
        Some(cmd)
    } else if str_eq(method, "brew") {
        let cmd = vec![
            String::from_str("brew"),
            String::from_str("info"),
            package.to_owned(),
            String::from_str("--json=v1"),
        ];
        proof {
            assert(cmd.deep_view() =~= spec_package_query_argv(method@, package@)->Some_0);
        }
        Some(cmd)
    } else if str_eq(method, "pip") {
        let cmd = vec![
            String::from_str("pip"),
            String::from_str("index"),
            String::from_str("versions"),
            package.to_owned(),
        ];
        proof {
            assert(cmd.deep_view() =~= spec_package_query_argv(method@, package@)->Some_0);
        }
        Some(cmd)
    } else {
        None
    }
}

/// What npm's registry query resolves to: its trimmed standard output when
/// the query succeeded.
pub fn npm_latest_from_output(success: bool, stdout: &str) -> (r: Option<String>)
    ensures
        match r {
            Some(v) => success && v@ == crate::strutil::trimmed(stdout@),
            None => !success,
        },
{
    if success {
        Some(crate::strutil::trim_str(stdout))
    } else {
        None
    }
}

/// Resolve the package name a metadata query should ask about: the
/// platform's install method must use the given manager, and the name comes
/// from `package_name` or, failing that, from the last word of an explicit
/// install command.
pub fn extract_package_name_from_config(
    config: &ToolConfig,
    platform: Platform,
    method: &str,
) -> (r: Result<String, crate::error::ToolError>)
    ensures
        match r {
            Ok(p) => {
                &&& config.install.spec_get(platform) is Some
                &&& config.install.spec_get(platform)->Some_0.method@ == method@
                &&& {
                    let m = config.install.spec_get(platform)->Some_0;
                    match m.package_name {
                        Some(pn) => p == pn,
                        None => m.command is Some && m.command->Some_0@.len() > 0
                            && p == m.command->Some_0@.last(),
                    }
                }
            },
            Err(e) => match e {
                crate::error::ToolError::NotSupported(_) =>
                    config.install.spec_get(platform) is None
                        || config.install.spec_get(platform)->Some_0.method@ != method@,
                crate::error::ToolError::ConfigError(_) => {
                    let m = config.install.spec_get(platform)->Some_0;
                    &&& config.install.spec_get(platform) is Some
                    &&& m.method@ == method@
                    &&& m.package_name is None
                    &&& (m.command is None || m.command->Some_0@.len() == 0)
                },
                _ => false,
            },
        },
{
    let install = match config.install.get(platform) {
        Some(m) => m,
        None => {
            let mut msg = String::from_str("Platform ");
            msg.append(platform.key());
            msg.append(" not supported");
            return Err(crate::error::ToolError::NotSupported(msg));
        },
    };
    if !str_eq(install.method.as_str(), method) {
        let mut msg = String::from_str("Method ");
        msg.append(method);
        msg.append(" not supported");
        return Err(crate::error::ToolError::NotSupported(msg));
    }
    if let Some(package_name) = &install.package_name {
        return Ok(package_name.clone());
    }
    if let Some(command) = &install.command {
        if command.len() > 0 {
            let last = command[command.len() - 1].clone();
            return Ok(last);
        }
    }
    let mut msg = String::from_str("No package name found for ");
    msg.append(config.id.as_str());
    Err(crate::error::ToolError::ConfigError(msg))
}

/// The strategy engine: resolves current and latest versions from probe
/// results and the offline table. Front ends run the subprocesses a
/// strategy asks for and feed the outputs back in.
pub struct VersionChecker {
    pub local_db: Option<VersionDatabase>,
}

impl VersionChecker {
    /// A checker with no offline table loaded.
    pub fn new() -> (r: Self)
        ensures
            r.local_db is None,
    {
        VersionChecker { local_db: None }
    }

    /// A checker over a loaded offline table.
    pub fn with_database(db: VersionDatabase) -> (r: Self)
        ensures
            r.local_db == Some(db),
    {
        VersionChecker { local_db: Some(db) }
    }

    /// Version facts resolved from the offline table, stamped `now`.
    pub fn check_via_local_database_at(
        &self,
        tool_id: &str,
        current: Option<String>,
        now: i64,
    ) -> (r: VersionInfo)
        ensures
            r.current == current,
            match r.latest {
                Some(l) => self.local_db is Some
                    && self.local_db->Some_0.tools@.contains_key(tool_id@)
                    && l == self.local_db->Some_0.tools@[tool_id@].latest_version,
                None => self.local_db is None
                    || !self.local_db->Some_0.tools@.contains_key(tool_id@),
            },
            r.update_available == spec_update_available(opt_view(r.current), opt_view(r.latest)),
            r.check_method@ == "local-database"@,
            r.last_checked == now,
    {
        let latest: Option<String> = match &self.local_db {
            Some(db) => match db.get_latest_version(tool_id) {
                Some(v) => Some(v.clone()),
                None => None,
            },
            None => None,
        };
        local_database_info(current, latest, now)
    }
}

} // verus!
