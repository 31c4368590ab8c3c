//! Recognizers for code-shaped tokens: procedure codes, provider
//! identifiers, modifier codes, and diagnosis codes.
//!
//! Each recognizer has a positional specification — what it means for
//! a token to match at a position of the text — and a collector that
//! is proved to return exactly the matching tokens, in text order.

use vstd::prelude::*;
use vstd::string::StrSliceExecFns;
use crate::text::{
    boundary_at, boundary_before, class_run, exec_is_upper, exec_is_word, is_upper,
    lemma_run_len, run_len, CharClass,
};

verus! {

/// A word-bounded run of exactly `k` digits begins at `i`.
pub open spec fn digit_code_at(t: Seq<char>, i: int, k: int) -> bool {
    &&& 0 <= i
    &&& boundary_before(t, i)
    &&& run_len(t, CharClass::Digit, i) == k
    &&& boundary_at(t, i + k)
}

/// All word-bounded `k`-digit tokens that begin before position `n`,
/// in order of appearance.
pub open spec fn digit_code_list(t: Seq<char>, k: int, n: int) -> Seq<Seq<char>>
    decreases n,
{
    if n <= 0 {
        Seq::empty()
    } else if digit_code_at(t, n - 1, k) {
        digit_code_list(t, k, n - 1).push(t.subrange(n - 1, n - 1 + k))
    } else {
        digit_code_list(t, k, n - 1)
    }
}

/// The procedure codes of the text: every word-bounded run of exactly
/// five digits, in order of appearance, duplicates kept.
pub open spec fn spec_cpt_codes(t: Seq<char>) -> Seq<Seq<char>> {
    digit_code_list(t, 5, t.len() as int)
}

/// The position of the first word-bounded `k`-digit token at or after `i`.
pub open spec fn first_digit_code_from(t: Seq<char>, k: int, i: int) -> Option<int>
    decreases t.len() - i,
{
    if i < 0 || i >= t.len() {
        None
    } else if digit_code_at(t, i, k) {
        Some(i)
    } else {
        first_digit_code_from(t, k, i + 1)
    }
}

/// The provider identifier of the text: the first word-bounded run of
/// exactly ten digits, if any; later runs are ignored.
pub open spec fn spec_npi(t: Seq<char>) -> Option<Seq<char>> {
    match first_digit_code_from(t, 10, 0) {
        Some(i) => Some(t.subrange(i, i + 10)),
        None => None,
    }
}

/// A word-bounded token of exactly two uppercase letters begins at `i`.
pub open spec fn modifier_at(t: Seq<char>, i: int) -> bool {
    &&& 0 <= i && i + 2 <= t.len()
    &&& boundary_before(t, i)
    &&& is_upper(t[i]) && is_upper(t[i + 1])
    &&& boundary_at(t, i + 2)
}

/// All two-letter modifier tokens that begin before position `n`.
pub open spec fn modifier_list(t: Seq<char>, n: int) -> Seq<Seq<char>>
    decreases n,
{
    if n <= 0 {
        Seq::empty()
    } else if modifier_at(t, n - 1) {
        modifier_list(t, n - 1).push(t.subrange(n - 1, n + 1))
    } else {
        modifier_list(t, n - 1)
    }
}

/// The modifier codes of the text.  The two-uppercase-letter shape is
/// deliberately broad and also catches unrelated abbreviations; that
/// is a known limitation of the pattern, not corrected here.
pub open spec fn spec_modifiers(t: Seq<char>) -> Seq<Seq<char>> {
    modifier_list(t, t.len() as int)
}

/// The fractional part of a diagnosis token at `i` matches: after the
/// two or three digits stands a point, at least one digit, and a word
/// boundary.
pub open spec fn diag_frac_at(t: Seq<char>, i: int) -> bool {
    let r = run_len(t, CharClass::Digit, i + 1);
    let p = i + 1 + r;
    &&& p < t.len() && t[p] == '.'
    &&& run_len(t, CharClass::Digit, p + 1) >= 1
    &&& boundary_at(t, p + 1 + run_len(t, CharClass::Digit, p + 1))
}

/// A diagnosis token begins at `i`: one uppercase letter, then two or
/// three digits, then either a word boundary or a point followed by
/// digits up to a word boundary.  A point whose fraction fails the
/// boundary is left out of the token; the point itself already closes
/// it.
pub open spec fn diag_at(t: Seq<char>, i: int) -> bool {
    let r = run_len(t, CharClass::Digit, i + 1);
    &&& 0 <= i < t.len()
    &&& boundary_before(t, i)
    &&& is_upper(t[i])
    &&& (r == 2 || r == 3)
    &&& (diag_frac_at(t, i) || boundary_at(t, i + 1 + r))
}

/// Where the diagnosis token beginning at `i` ends.
pub open spec fn diag_end(t: Seq<char>, i: int) -> int {
    let r = run_len(t, CharClass::Digit, i + 1);
    let p = i + 1 + r;
    if diag_frac_at(t, i) {
        p + 1 + run_len(t, CharClass::Digit, p + 1)
    } else {
        p
    }
}

/// All diagnosis tokens that begin before position `n`.
pub open spec fn diag_list(t: Seq<char>, n: int) -> Seq<Seq<char>>
    decreases n,
{
    if n <= 0 {
        Seq::empty()
    } else if diag_at(t, n - 1) {
        diag_list(t, n - 1).push(t.subrange(n - 1, diag_end(t, n - 1)))
    } else {
        diag_list(t, n - 1)
    }
}

/// The diagnosis codes of the text.
pub open spec fn spec_diagnosis_codes(t: Seq<char>) -> Seq<Seq<char>> {
    diag_list(t, t.len() as int)
}

/// Tests `boundary_before` at `i`.
pub fn check_boundary_before(t: &Vec<char>, i: usize) -> (r: bool)
    requires
        i <= t@.len(),
    ensures
        r == boundary_before(t@, i as int),
{
    i == 0 || !exec_is_word(t[i - 1])
}

/// Tests `boundary_at` at `i`.
pub fn check_boundary_at(t: &Vec<char>, i: usize) -> (r: bool)
    requires
        i <= t@.len(),
    ensures
        r == boundary_at(t@, i as int),
{
    i == t.len() || !exec_is_word(t[i])
}

/// Tests whether a word-bounded `k`-digit token begins at `i`.
pub fn check_digit_code(t: &Vec<char>, i: usize, k: usize) -> (r: bool)
    requires
        i <= t@.len(),
    ensures
        r == digit_code_at(t@, i as int, k as int),
{
    let n: usize = t.len();
    if !check_boundary_before(t, i) {
        return false;
    }
    let run: usize = class_run(t, CharClass::Digit, i);
    if run != k {
        return false;
    }
    assert(i + run <= n);
    check_boundary_at(t, i + run)
}

/// Collects every word-bounded `k`-digit token of the text, in order.
pub fn scan_digit_codes(text: &str, t: &Vec<char>, k: usize) -> (r: Vec<String>)
    requires
        t@ == text@,
        1 <= k,
    ensures
        r@.map_values(|s: String| s@) == digit_code_list(t@, k as int, t@.len() as int),
{
    let mut r: Vec<String> = Vec::new();
    let mut i: usize = 0;
    while i < t.len()
        invariant
            t@ == text@,
            1 <= k,
            i <= t@.len(),
            r@.map_values(|s: String| s@) == digit_code_list(t@, k as int, i as int),
        decreases t@.len() - i,
    {
        if check_digit_code(t, i, k) {
            proof {
                lemma_run_len(t@, CharClass::Digit, i as int);
            }
            let token = text.substring_char(i, i + k).to_owned();
            r.push(token);
            assert(r@.map_values(|s: String| s@) =~= digit_code_list(
                t@,
                k as int,
                i as int + 1,
            ));
        }
        i = i + 1;
    }
    r
}

/// Finds the first word-bounded `k`-digit token of the text, if any.
pub fn find_first_digit_code(text: &str, t: &Vec<char>, k: usize) -> (r: Option<String>)
    requires
        t@ == text@,
        1 <= k,
    ensures
        crate::types::opt_str_view(r) == (match first_digit_code_from(t@, k as int, 0) {
            Some(i) => Some(t@.subrange(i, i + k)),
            None => None::<Seq<char>>,
        }),
{
    let mut i: usize = 0;
    while i < t.len()
        invariant
            t@ == text@,
            1 <= k,
            i <= t@.len(),
            first_digit_code_from(t@, k as int, 0) == first_digit_code_from(t@, k as int, i as int),
            forall|j: int| 0 <= j < i ==> !digit_code_at(t@, j, k as int),
        decreases t@.len() - i,
    {
        if check_digit_code(t, i, k) {
            proof {
                lemma_run_len(t@, CharClass::Digit, i as int);
            }
            let token = text.substring_char(i, i + k).to_owned();
            return Some(token);
        }
        i = i + 1;
    }
    None
}

/// Tests whether a two-letter modifier token begins at `i`.
pub fn check_modifier(t: &Vec<char>, i: usize) -> (r: bool)
    requires
        i <= t@.len(),
    ensures
        r == modifier_at(t@, i as int),
{
    if t.len() - i < 2 {
        return false;
    }
    check_boundary_before(t, i) && exec_is_upper(t[i]) && exec_is_upper(t[i + 1])
        && check_boundary_at(t, i + 2)
}

/// Collects every two-letter modifier token of the text, in order.
pub fn scan_modifiers(text: &str, t: &Vec<char>) -> (r: Vec<String>)
    requires
        t@ == text@,
    ensures
        r@.map_values(|s: String| s@) == spec_modifiers(t@),
{
    let mut r: Vec<String> = Vec::new();
    let mut i: usize = 0;
    while i < t.len()
        invariant
            t@ == text@,
            i <= t@.len(),
            r@.map_values(|s: String| s@) == modifier_list(t@, i as int),
        decreases t@.len() - i,
    {
        if check_modifier(t, i) {
            let token = text.substring_char(i, i + 2).to_owned();
            r.push(token);
            assert(r@.map_values(|s: String| s@) =~= modifier_list(t@, i as int + 1));
        }
        i = i + 1;
    }
    r
}

/// Tests whether a diagnosis token begins at `i`, and if so where it
/// ends.
pub fn check_diag(t: &Vec<char>, i: usize) -> (r: Option<usize>)
    requires
        i < t@.len(),
    ensures
        r is Some <==> diag_at(t@, i as int),
        r matches Some(e) ==> e == diag_end(t@, i as int) && i < e <= t@.len(),
{
    let n: usize = t.len();
    if !check_boundary_before(t, i) || !exec_is_upper(t[i]) {
        return None;
    }
    let run: usize = class_run(t, CharClass::Digit, i + 1);
    if run != 2 && run != 3 {
        return None;
    }
    let p: usize = i + 1 + run;
    proof {
        lemma_run_len(t@, CharClass::Digit, i as int + 1);
    }
    // A fraction extends the token only when its own end is word-bounded.
    if p < t.len() && t[p] == '.' {
        let frac: usize = class_run(t, CharClass::Digit, p + 1);
        proof {
            lemma_run_len(t@, CharClass::Digit, p as int + 1);
        }
        if frac >= 1 && check_boundary_at(t, p + 1 + frac) {
            return Some(p + 1 + frac);
        }
        // The point is not a word character, so the token closes at it.
        return Some(p);
    }
    if check_boundary_at(t, p) {
        Some(p)
    } else {
        None
    }
}

/// Collects every diagnosis token of the text, in order.
pub fn scan_diagnosis_codes(text: &str, t: &Vec<char>) -> (r: Vec<String>)
    requires
        t@ == text@,
    ensures
        r@.map_values(|s: String| s@) == spec_diagnosis_codes(t@),
{
    let mut r: Vec<String> = Vec::new();
    let mut i: usize = 0;
    while i < t.len()
        invariant
            t@ == text@,
            i <= t@.len(),
            r@.map_values(|s: String| s@) == diag_list(t@, i as int),
        decreases t@.len() - i,
    {
        if let Some(e) = check_diag(t, i) {
            let token = text.substring_char(i, e).to_owned();
            r.push(token);
            assert(r@.map_values(|s: String| s@) =~= diag_list(t@, i as int + 1));
        }
        i = i + 1;
    }
    r
}

} // verus!
