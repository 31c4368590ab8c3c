//! Recognizers for the payer keyword and the patient and provider
//! names.
//!
//! The payer is the first keyword of a fixed, ordered list found
//! anywhere in the text, compared without regard to ASCII case; the
//! list order decides between two keywords that are both present, not
//! their position in the text.  The names follow a label token
//! ("patient" or "provider", in any ASCII case), a run of colons and
//! whitespace, and one or more capitalized words; only the first
//! occurrence in the text is used.

use vstd::prelude::*;
use vstd::string::StrSliceExecFns;
use crate::text::{chars_vec, class_run, exec_is_upper, is_upper, lower, run_len, CharClass};
use crate::types::opt_str_view;

verus! {

/// The keyword `kw` (given in lowercase) stands at `i` of `t`, with
/// ASCII case ignored.
pub open spec fn ci_match_at(t: Seq<char>, kw: Seq<char>, i: int) -> bool {
    &&& 0 <= i && i + kw.len() <= t.len()
    &&& forall|j: int| 0 <= j < kw.len() ==> lower(t[i + j]) == kw[j]
}

/// The keyword occurs somewhere in the text, ASCII case ignored.
pub open spec fn contains_ci(t: Seq<char>, kw: Seq<char>) -> bool {
    exists|i: int| ci_match_at(t, kw, i)
}

/// The payer of the text: the first keyword of the fixed list that
/// the text contains.
pub open spec fn spec_payer(t: Seq<char>) -> Option<Seq<char>> {
    if contains_ci(t, "medicare"@) {
        Some("medicare"@)
    } else if contains_ci(t, "medicaid"@) {
        Some("medicaid"@)
    } else if contains_ci(t, "aetna"@) {
        Some("aetna"@)
    } else if contains_ci(t, "blue cross"@) {
        Some("blue cross"@)
    } else if contains_ci(t, "cigna"@) {
        Some("cigna"@)
    } else if contains_ci(t, "humana"@) {
        Some("humana"@)
    } else if contains_ci(t, "unitedhealth"@) {
        Some("unitedhealth"@)
    } else {
        None
    }
}

/// A capitalized word begins at `j`: an uppercase letter followed by
/// at least one lowercase letter.
pub open spec fn name_tok_at(t: Seq<char>, j: int) -> bool {
    &&& 0 <= j < t.len()
    &&& is_upper(t[j])
    &&& run_len(t, CharClass::Lower, j + 1) >= 1
}

/// Where the capitalized word beginning at `j` ends.
pub open spec fn tok_end(t: Seq<char>, j: int) -> int {
    j + 1 + run_len(t, CharClass::Lower, j + 1)
}

/// A patient-name match begins at `i`: the label "patient", a run of
/// colons and whitespace, and two capitalized words separated by
/// whitespace.
pub open spec fn patient_at(t: Seq<char>, i: int) -> bool {
    let k = "patient"@.len() as int;
    let f = i + k + run_len(t, CharClass::Label, i + k);
    &&& ci_match_at(t, "patient"@, i)
    &&& run_len(t, CharClass::Label, i + k) >= 1
    &&& name_tok_at(t, f)
    &&& run_len(t, CharClass::Space, tok_end(t, f)) >= 1
    &&& name_tok_at(t, tok_end(t, f) + run_len(t, CharClass::Space, tok_end(t, f)))
}

/// The name captured by the patient-name match at `i`: the two words
/// joined by a single space.
pub open spec fn patient_name_at(t: Seq<char>, i: int) -> Seq<char> {
    let k = "patient"@.len() as int;
    let f = i + k + run_len(t, CharClass::Label, i + k);
    let g = tok_end(t, f) + run_len(t, CharClass::Space, tok_end(t, f));
    t.subrange(f, tok_end(t, f)) + seq![' '] + t.subrange(g, tok_end(t, g))
}

/// The position of the first patient-name match at or after `i`.
pub open spec fn patient_from(t: Seq<char>, i: int) -> Option<int>
    decreases t.len() - i,
{
    if i < 0 || i >= t.len() {
        None
    } else if patient_at(t, i) {
        Some(i)
    } else {
        patient_from(t, i + 1)
    }
}

/// The patient name of the text, from its first match only.
pub open spec fn spec_patient_name(t: Seq<char>) -> Option<Seq<char>> {
    match patient_from(t, 0) {
        Some(i) => Some(patient_name_at(t, i)),
        None => None,
    }
}

/// Where the chain of further capitalized words ends, starting from
/// position `pos` just after an accepted word: each step takes a run
/// of whitespace and one more capitalized word.
pub open spec fn chain_end(t: Seq<char>, pos: int) -> int
    decreases t.len() - pos,
{
    let w = run_len(t, CharClass::Space, pos);
    let g = pos + w;
    let e = tok_end(t, g);
    if 0 <= pos && w >= 1 && g < t.len() && is_upper(t[g]) && run_len(t, CharClass::Lower, g + 1)
        >= 1 && pos < e <= t.len() {
        chain_end(t, e)
    } else {
        pos
    }
}

/// A provider-name match begins at `i`: the label "provider", a run
/// of colons and whitespace, and at least one capitalized word.
pub open spec fn provider_at(t: Seq<char>, i: int) -> bool {
    let k = "provider"@.len() as int;
    let f = i + k + run_len(t, CharClass::Label, i + k);
    &&& ci_match_at(t, "provider"@, i)
    &&& run_len(t, CharClass::Label, i + k) >= 1
    &&& name_tok_at(t, f)
}

/// The name captured by the provider-name match at `i`: the words and
/// the whitespace between them, verbatim.
pub open spec fn provider_name_at(t: Seq<char>, i: int) -> Seq<char> {
    let k = "provider"@.len() as int;
    let f = i + k + run_len(t, CharClass::Label, i + k);
    t.subrange(f, chain_end(t, tok_end(t, f)))
}

/// The position of the first provider-name match at or after `i`.
pub open spec fn provider_from(t: Seq<char>, i: int) -> Option<int>
    decreases t.len() - i,
{
    if i < 0 || i >= t.len() {
        None
    } else if provider_at(t, i) {
        Some(i)
    } else {
        provider_from(t, i + 1)
    }
}

/// The provider name of the text, from its first match only.
pub open spec fn spec_provider_name(t: Seq<char>) -> Option<Seq<char>> {
    match provider_from(t, 0) {
        Some(i) => Some(provider_name_at(t, i)),
        None => None,
    }
}

/// Lowers one character, as `lower` says.
pub fn exec_lower(c: char) -> (r: char)
    ensures
        r == lower(c),
{
    if 'A' <= c && c <= 'Z' {
        ((c as u8) + 32) as char
    } else {
        c
    }
}

/// Tests whether `kw` stands at `i` of `t`, ASCII case ignored.
pub fn match_kw_ci(t: &Vec<char>, kw: &Vec<char>, i: usize) -> (r: bool)
    requires
        i <= t@.len(),
    ensures
        r == ci_match_at(t@, kw@, i as int),
{
    let n: usize = t.len();
    if n - i < kw.len() {
        return false;
    }
    let mut j: usize = 0;
    while j < kw.len()
        invariant
            n == t@.len(),
            i + kw@.len() <= t@.len(),
            0 <= j <= kw@.len(),
            forall|m: int| 0 <= m < j ==> lower(t@[i + m]) == kw@[m],
        decreases kw@.len() - j,
    {
        if exec_lower(t[i + j]) != kw[j] {
            return false;
        }
        j = j + 1;
    }
    true
}

/// Tests whether the text contains `kw` anywhere, ASCII case ignored.
pub fn contains_kw(t: &Vec<char>, kw: &str) -> (r: bool)
    ensures
        r == contains_ci(t@, kw@),
{
    let kv = chars_vec(kw);
    if kv.len() == 0 {
        assert(ci_match_at(t@, kw@, 0));
        return true;
    }
    let n: usize = t.len();
    if kv.len() > n {
        return false;
    }
    let last: usize = n - kv.len();
    let mut i: usize = 0;
    while i <= last
        invariant
            kv@ == kw@,
            kw@.len() >= 1,
            last == n - kw@.len(),
            n == t@.len(),
            i <= last + 1,
            forall|j: int| 0 <= j < i ==> !ci_match_at(t@, kw@, j),
        decreases last + 1 - i,
    {
        if match_kw_ci(t, &kv, i) {
            return true;
        }
        i = i + 1;
    }
    assert(!contains_ci(t@, kw@)) by {
        if contains_ci(t@, kw@) {
            let j = choose|j: int| ci_match_at(t@, kw@, j);
            assert(!ci_match_at(t@, kw@, j));
        }
    }
    false
}

/// Finds the payer keyword: the first of the fixed list that the
/// text contains, in list order.
pub fn find_payer(t: &Vec<char>) -> (r: Option<String>)
    ensures
        opt_str_view(r) == spec_payer(t@),
{
    if contains_kw(t, "medicare") {
        return Some("medicare".to_owned());
    }
    if contains_kw(t, "medicaid") {
        return Some("medicaid".to_owned());
    }
    if contains_kw(t, "aetna") {
        return Some("aetna".to_owned());
    }
    if contains_kw(t, "blue cross") {
        return Some("blue cross".to_owned());
    }
    if contains_kw(t, "cigna") {
        return Some("cigna".to_owned());
    }
    if contains_kw(t, "humana") {
        return Some("humana".to_owned());
    }
    if contains_kw(t, "unitedhealth") {
        return Some("unitedhealth".to_owned());
    }
    None
}

/// Tests for a patient-name match at `i`; yields the spans of the two
/// captured words.
pub fn check_patient(t: &Vec<char>, kw: &Vec<char>, i: usize) -> (r: Option<(usize, usize, usize, usize)>)
    requires
        kw@ == "patient"@,
        i < t@.len(),
    ensures
        r is Some <==> patient_at(t@, i as int),
        r matches Some(v) ==> {
            let k = "patient"@.len() as int;
            let f = i + k + run_len(t@, CharClass::Label, i + k);
            let g = tok_end(t@, f) + run_len(t@, CharClass::Space, tok_end(t@, f));
            &&& v.0 == f && v.1 == tok_end(t@, f)
            &&& v.2 == g && v.3 == tok_end(t@, g)
            &&& i < v.0 <= v.1 <= v.2 <= v.3 <= t@.len()
        },
{
    let n: usize = t.len();
    if !match_kw_ci(t, kw, i) {
        return None;
    }
    let k: usize = kw.len();
    let sep: usize = class_run(t, CharClass::Label, i + k);
    if sep < 1 {
        return None;
    }
    let f: usize = i + k + sep;
    if f >= n || !exec_is_upper(t[f]) {
        return None;
    }
    let lf: usize = class_run(t, CharClass::Lower, f + 1);
    if lf < 1 {
        return None;
    }
    let fe: usize = f + 1 + lf;
    let w: usize = class_run(t, CharClass::Space, fe);
    if w < 1 {
        return None;
    }
    let g: usize = fe + w;
    if g >= n || !exec_is_upper(t[g]) {
        return None;
    }
    let lg: usize = class_run(t, CharClass::Lower, g + 1);
    if lg < 1 {
        return None;
    }
    Some((f, fe, g, g + 1 + lg))
}

/// Finds the first patient-name match and captures its two words,
/// joined by a single space.
pub fn find_patient_name(text: &str, t: &Vec<char>) -> (r: Option<String>)
    requires
        t@ == text@,
    ensures
        opt_str_view(r) == spec_patient_name(t@),
{
    let kw = chars_vec("patient");
    proof {
        reveal_strlit("patient");
    }
    let mut i: usize = 0;
    while i < t.len()
        invariant
            t@ == text@,
            kw@ == "patient"@,
            i <= t@.len(),
            patient_from(t@, 0) == patient_from(t@, i as int),
        decreases t@.len() - i,
    {
        if let Some(v) = check_patient(t, &kw, i) {
            let mut name = text.substring_char(v.0, v.1).to_owned();
            name.append(" ");
            name.append(text.substring_char(v.2, v.3));
            proof {
                reveal_strlit(" ");
                assert(" "@ =~= seq![' ']);
                assert(name@ =~= patient_name_at(t@, i as int));
            }
            return Some(name);
        }
        i = i + 1;
    }
    None
}

/// Tests for a provider-name match at `i`; yields the span of the
/// captured words.
pub fn check_provider(t: &Vec<char>, kw: &Vec<char>, i: usize) -> (r: Option<(usize, usize)>)
    requires
        kw@ == "provider"@,
        i < t@.len(),
    ensures
        r is Some <==> provider_at(t@, i as int),
        r matches Some(v) ==> {
            let k = "provider"@.len() as int;
            let f = i + k + run_len(t@, CharClass::Label, i + k);
            &&& v.0 == f && v.1 == chain_end(t@, tok_end(t@, f))
            &&& i < v.0 <= v.1 <= t@.len()
        },
{
    let n: usize = t.len();
    if !match_kw_ci(t, kw, i) {
        return None;
    }
    let k: usize = kw.len();
    let sep: usize = class_run(t, CharClass::Label, i + k);
    if sep < 1 {
        return None;
    }
    let f: usize = i + k + sep;
    if f >= n || !exec_is_upper(t[f]) {
        return None;
    }
    let lf: usize = class_run(t, CharClass::Lower, f + 1);
    if lf < 1 {
        return None;
    }
    // Walk the chain of further capitalized words.
    let mut cur: usize = f + 1 + lf;
    let ghost start = cur as int;
    loop
        invariant
            t@.len() == n,
            0 <= cur <= n,
            start <= cur as int,
            chain_end(t@, start) == chain_end(t@, cur as int),
        ensures
            cur <= n,
            start <= cur as int,
            chain_end(t@, start) == cur,
        decreases n - cur,
    {
        let w: usize = class_run(t, CharClass::Space, cur);
        let g: usize = cur + w;
        if w >= 1 && g < n && exec_is_upper(t[g]) {
            let lg: usize = class_run(t, CharClass::Lower, g + 1);
            if lg >= 1 {
                cur = g + 1 + lg;
                continue;
            }
        }
        proof {
            assert(chain_end(t@, cur as int) == cur as int);
        }
        break;
    }
    Some((f, cur))
}

/// Finds the first provider-name match and captures its words.
pub fn find_provider_name(text: &str, t: &Vec<char>) -> (r: Option<String>)
    requires
        t@ == text@,
    ensures
        opt_str_view(r) == spec_provider_name(t@),
{
    let kw = chars_vec("provider");
    proof {
        reveal_strlit("provider");
    }
    let mut i: usize = 0;
    while i < t.len()
        invariant
            t@ == text@,
            kw@ == "provider"@,
            i <= t@.len(),
            provider_from(t@, 0) == provider_from(t@, i as int),
        decreases t@.len() - i,
    {
        if let Some(v) = check_provider(t, &kw, i) {
            let name = text.substring_char(v.0, v.1).to_owned();
            return Some(name);
        }
        i = i + 1;
    }
    None
}

} // verus!
