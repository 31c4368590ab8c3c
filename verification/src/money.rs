//! Recognizer for dollar amounts.
//!
//! An amount token is a dollar sign, a run of digits and commas, and
//! optionally a point followed by digits.  The stored amount is the
//! token with the dollar sign and the commas stripped; a token whose
//! stripped text holds no digit at all does not parse as a number and
//! is dropped.

use vstd::prelude::*;
use vstd::string::StrSliceExecFns;
use crate::text::{class_run, exec_is_digit, is_digit, lemma_run_len, run_len, CharClass};
use crate::types::Charge;

verus! {

/// An amount token begins at `i`: a dollar sign followed by at least
/// one digit or comma.
pub open spec fn charge_at(t: Seq<char>, i: int) -> bool {
    &&& 0 <= i < t.len()
    &&& t[i] == '$'
    &&& run_len(t, CharClass::Amount, i + 1) >= 1
}

/// Where the amount token beginning at `i` ends: after the digit-and-
/// comma run, a point and the digit run behind it are taken when the
/// point is there.
pub open spec fn charge_end(t: Seq<char>, i: int) -> int {
    let q = i + 1 + run_len(t, CharClass::Amount, i + 1);
    if q < t.len() && t[q] == '.' {
        q + 1 + run_len(t, CharClass::Digit, q + 1)
    } else {
        q
    }
}

/// A character that survives the stripping: everything but the dollar
/// sign and the thousands separators.
pub open spec fn keep_money(c: char) -> bool {
    c != '$' && c != ','
}

/// The kept characters of the first `n` characters of `s`, in order.
pub open spec fn money_prefix(s: Seq<char>, n: int) -> Seq<char>
    decreases n,
{
    if n <= 0 {
        Seq::empty()
    } else if keep_money(s[n - 1]) {
        money_prefix(s, n - 1).push(s[n - 1])
    } else {
        money_prefix(s, n - 1)
    }
}

/// The amount text of a token span: its kept characters.
pub open spec fn money_text(s: Seq<char>) -> Seq<char> {
    money_prefix(s, s.len() as int)
}

/// Whether `s` holds at least one digit.
pub open spec fn has_digit(s: Seq<char>) -> bool {
    exists|i: int| 0 <= i < s.len() && is_digit(#[trigger] s[i])
}

/// The amount texts of all parsable amount tokens that begin before
/// position `n`, in order of appearance.
pub open spec fn charge_list(t: Seq<char>, n: int) -> Seq<Seq<char>>
    decreases n,
{
    if n <= 0 {
        Seq::empty()
    } else {
        let rest = charge_list(t, n - 1);
        if charge_at(t, n - 1) && has_digit(money_text(t.subrange(n - 1, charge_end(t, n - 1)))) {
            rest.push(money_text(t.subrange(n - 1, charge_end(t, n - 1))))
        } else {
            rest
        }
    }
}

/// The charges of the text.
pub open spec fn spec_charges(t: Seq<char>) -> Seq<Seq<char>> {
    charge_list(t, t.len() as int)
}

/// Every charge that extraction yields has the documented shape of a
/// stored amount: decimal digits with at most one point, and at
/// least one digit.
pub proof fn lemma_charges_shape(t: Seq<char>, i: int)
    requires
        0 <= i < spec_charges(t).len(),
    ensures
        crate::types::is_amount_text(spec_charges(t)[i]),
{
    lemma_charge_list_shape(t, t.len() as int, i);
}

proof fn lemma_charge_list_shape(t: Seq<char>, n: int, i: int)
    requires
        n <= t.len(),
        0 <= i < charge_list(t, n).len(),
    ensures
        crate::types::is_amount_text(charge_list(t, n)[i]),
    decreases n,
{
    if n > 0 {
        let kept = charge_at(t, n - 1) && has_digit(
            money_text(t.subrange(n - 1, charge_end(t, n - 1))),
        );
        if kept && i == charge_list(t, n - 1).len() {
            lemma_money_span(t, n - 1);
        } else {
            lemma_charge_list_shape(t, n - 1, i);
        }
    }
}

proof fn lemma_money_span(t: Seq<char>, p: int)
    requires
        charge_at(t, p),
        has_digit(money_text(t.subrange(p, charge_end(t, p)))),
    ensures
        crate::types::is_amount_text(money_text(t.subrange(p, charge_end(t, p)))),
{
    let m = run_len(t, CharClass::Amount, p + 1);
    lemma_run_len(t, CharClass::Amount, p + 1);
    let q = p + 1 + m;
    let e = charge_end(t, p);
    let dotted = q < t.len() && t[q] == '.';
    if dotted {
        lemma_run_len(t, CharClass::Digit, q + 1);
    }
    let span = t.subrange(p, e);
    let dp = q - p;
    assert forall|j: int| 0 <= j < span.len() implies (span[j] == '$' || is_digit(span[j])
        || span[j] == ',' || (j == dp && span[j] == '.')) by {
        assert(span[j] == t[p + j]);
    }
    lemma_money_prefix_shape(span, span.len() as int, dp);
    assert(money_text(span).len() > 0);
}

proof fn lemma_money_prefix_shape(s: Seq<char>, n: int, dp: int)
    requires
        n <= s.len(),
        forall|j: int|
            0 <= j < s.len() ==> (#[trigger] s[j] == '$' || is_digit(s[j]) || s[j] == ',' || (j
                == dp && s[j] == '.')),
    ensures
        forall|k: int|
            0 <= k < money_prefix(s, n).len() ==> (is_digit(#[trigger] money_prefix(s, n)[k])
                || money_prefix(s, n)[k] == '.'),
        forall|k: int|
            0 <= k < money_prefix(s, n).len() ==> (#[trigger] money_prefix(s, n)[k] == '.' ==> 0
                <= dp < n),
        forall|a: int, b: int|
            0 <= a < b < money_prefix(s, n).len() ==> !(#[trigger] money_prefix(s, n)[a] == '.'
                && #[trigger] money_prefix(s, n)[b] == '.'),
    decreases n,
{
    if n > 0 {
        lemma_money_prefix_shape(s, n - 1, dp);
        if keep_money(s[n - 1]) {
            assert(money_prefix(s, n) == money_prefix(s, n - 1).push(s[n - 1]));
        }
    }
}

/// Tests whether an amount token begins at `i`, and if so where it ends.
pub fn check_charge(t: &Vec<char>, i: usize) -> (r: Option<usize>)
    requires
        i < t@.len(),
    ensures
        r is Some <==> charge_at(t@, i as int),
        r matches Some(e) ==> e == charge_end(t@, i as int) && i < e <= t@.len(),
{
    let n: usize = t.len();
    if t[i] != '$' {
        return None;
    }
    let run: usize = class_run(t, CharClass::Amount, i + 1);
    if run < 1 {
        return None;
    }
    let q: usize = i + 1 + run;
    if q < n && t[q] == '.' {
        let frac: usize = class_run(t, CharClass::Digit, q + 1);
        Some(q + 1 + frac)
    } else {
        Some(q)
    }
}

/// Strips the span `[i, e)` of the text down to its amount text, and
/// keeps it only when a digit is left.
pub fn strip_amount(text: &str, t: &Vec<char>, i: usize, e: usize) -> (r: Option<Charge>)
    requires
        t@ == text@,
        i <= e <= t@.len(),
    ensures
        r is Some <==> has_digit(money_text(t@.subrange(i as int, e as int))),
        r matches Some(c) ==> c@ == money_text(t@.subrange(i as int, e as int)),
{
    let ghost span = t@.subrange(i as int, e as int);
    let mut s = String::new();
    let mut found = false;
    let mut j: usize = i;
    while j < e
        invariant
            t@ == text@,
            i <= j <= e <= t@.len(),
            span == t@.subrange(i as int, e as int),
            s@ == money_prefix(span, j - i),
            found == has_digit(money_prefix(span, j - i)),
        decreases e - j,
    {
        let c = t[j];
        assert(span[j - i] == t@[j as int]);
        if c != '$' && c != ',' {
            let piece = text.substring_char(j, j + 1);
            assert(piece@ =~= seq![t@[j as int]]);
            s.append(piece);
            assert(s@ =~= money_prefix(span, j - i + 1));
            if exec_is_digit(c) {
                found = true;
                assert(has_digit(money_prefix(span, j - i + 1))) by {
                    let m = money_prefix(span, j - i + 1);
                    assert(m[m.len() - 1] == span[j - i]);
                }
            } else {
                assert(money_prefix(span, j - i + 1) == money_prefix(span, j - i).push(
                    span[j - i],
                ));
                assert(found == has_digit(money_prefix(span, j - i + 1))) by {
                    let m0 = money_prefix(span, j - i);
                    let m1 = money_prefix(span, j - i + 1);
                    if has_digit(m0) {
                        let w = choose|x: int| 0 <= x < m0.len() && is_digit(m0[x]);
                        assert(m1[w] == m0[w]);
                    }
                    if has_digit(m1) {
                        let w = choose|x: int| 0 <= x < m1.len() && is_digit(m1[x]);
                        if w < m0.len() {
                            assert(m0[w] == m1[w]);
                        } else {
                            assert(m1[w] == span[j - i]);
                        }
                    }
                }
            }
        }
        j = j + 1;
    }
    assert(money_prefix(span, e - i) == money_text(span)) by {
        assert(span.len() == e - i);
    }
    if found {
        Some(Charge { amount: s })
    } else {
        None
    }
}

/// Collects the amount text of every parsable amount token, in order.
pub fn scan_charges(text: &str, t: &Vec<char>) -> (r: Vec<Charge>)
    requires
        t@ == text@,
    ensures
        r@.map_values(|c: Charge| c@) == spec_charges(t@),
{
    let mut r: Vec<Charge> = Vec::new();
    let mut i: usize = 0;
    while i < t.len()
        invariant
            t@ == text@,
            i <= t@.len(),
            r@.map_values(|c: Charge| c@) == charge_list(t@, i as int),
        decreases t@.len() - i,
    {
        if let Some(e) = check_charge(t, i) {
            if let Some(c) = strip_amount(text, t, i, e) {
                r.push(c);
                assert(r@.map_values(|c: Charge| c@) =~= charge_list(t@, i as int + 1));
            }
        }
        i = i + 1;
    }
    r
}

} // verus!
