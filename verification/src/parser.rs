//! The field extractor: raw document text in, structured field set out.
//!
//! Extraction never fails: a field that is not recognized is simply
//! absent or empty.  Each field is recovered by an independent scan
//! over the whole text, so the fields do not influence one another.

use vstd::prelude::*;
use crate::codes::{
    digit_code_at, find_first_digit_code, scan_diagnosis_codes, scan_digit_codes, scan_modifiers,
    spec_cpt_codes, spec_diagnosis_codes, spec_modifiers, spec_npi, digit_code_list,
    first_digit_code_from,
};
use crate::datefind::{scan_dates, spec_dates};
use crate::money::{scan_charges, spec_charges};
use crate::names::{
    find_patient_name, find_payer, find_provider_name, spec_patient_name, spec_payer,
    spec_provider_name,
};
use crate::text::{chars_vec, is_digit, lemma_run_len, run_len, CharClass};
use crate::types::{ExtractedData, ExtractionView};

verus! {

/// What extraction recovers from the text `t`: each field is a pure
/// function of the text, so extraction is deterministic.
pub open spec fn spec_extract(t: Seq<char>) -> ExtractionView {
    ExtractionView {
        payer: spec_payer(t),
        patient_name: spec_patient_name(t),
        patient_id: None,
        cpt_codes: spec_cpt_codes(t),
        modifiers: spec_modifiers(t),
        charges: spec_charges(t),
        dates: spec_dates(t),
        provider_name: spec_provider_name(t),
        provider_npi: spec_npi(t),
        diagnosis_codes: spec_diagnosis_codes(t),
        raw_text: t,
    }
}

/// The field extractor.
pub struct ClaimParser {}

impl ClaimParser {
    pub fn new() -> (r: ClaimParser) {
        ClaimParser {  }
    }

    /// Recovers every billing field of `text`.  Never fails; on text
    /// with nothing to recover every field comes back empty.
    pub fn parse_text(&self, text: &str) -> (r: ExtractedData)
        ensures
            r@ == spec_extract(text@),
    {
        let t = chars_vec(text);
        let cpt_codes = scan_digit_codes(text, &t, 5);
        let modifiers = scan_modifiers(text, &t);
        let charges = scan_charges(text, &t);
        let dates = scan_dates(&t);
        let diagnosis_codes = scan_diagnosis_codes(text, &t);
        let provider_npi = find_first_digit_code(text, &t, 10);
        let payer = find_payer(&t);
        let patient_name = find_patient_name(text, &t);
        let provider_name = find_provider_name(text, &t);
        ExtractedData {
            payer,
            patient_name,
            patient_id: None,
            cpt_codes,
            modifiers,
            charges,
            dates,
            provider_name,
            provider_npi,
            diagnosis_codes,
            raw_text: text.to_owned(),
        }
    }
}

/// Extraction is a function of the text alone: two field sets that
/// both satisfy the extraction contract for the same text agree on
/// every field.
pub proof fn lemma_extract_deterministic(t: Seq<char>, a: ExtractionView, b: ExtractionView)
    requires
        a == spec_extract(t),
        b == spec_extract(t),
    ensures
        a == b,
{
}

/// Every procedure code that extraction yields has exactly five
/// characters, each a digit; a four- or six-digit token never gets in.
pub proof fn lemma_cpt_code_shape(t: Seq<char>, i: int)
    requires
        0 <= i < spec_cpt_codes(t).len(),
    ensures
        spec_cpt_codes(t)[i].len() == 5,
        forall|j: int| 0 <= j < 5 ==> is_digit(#[trigger] spec_cpt_codes(t)[i][j]),
{
    lemma_code_list_shape(t, 5, t.len() as int, i);
}

proof fn lemma_code_list_shape(t: Seq<char>, k: int, n: int, i: int)
    requires
        1 <= k,
        n <= t.len(),
        0 <= i < digit_code_list(t, k, n).len(),
    ensures
        digit_code_list(t, k, n)[i].len() == k,
        forall|j: int| 0 <= j < k ==> is_digit(#[trigger] digit_code_list(t, k, n)[i][j]),
    decreases n,
{
    if n > 0 {
        if digit_code_at(t, n - 1, k) && i == digit_code_list(t, k, n - 1).len() {
            lemma_run_len(t, CharClass::Digit, n - 1);
            assert(digit_code_list(t, k, n)[i] == t.subrange(n - 1, n - 1 + k));
        } else {
            lemma_code_list_shape(t, k, n - 1, i);
        }
    }
}

/// Text in which no maximal digit run has length five yields no
/// procedure codes at all.
pub proof fn lemma_no_five_digit_run(t: Seq<char>)
    requires
        forall|i: int| 0 <= i < t.len() ==> run_len(t, CharClass::Digit, i) != 5,
    ensures
        spec_cpt_codes(t).len() == 0,
{
    lemma_code_list_empty(t, t.len() as int);
}

proof fn lemma_code_list_empty(t: Seq<char>, n: int)
    requires
        n <= t.len(),
        forall|i: int| 0 <= i < t.len() ==> run_len(t, CharClass::Digit, i) != 5,
    ensures
        digit_code_list(t, 5, n).len() == 0,
    decreases n,
{
    if n > 0 {
        assert(!digit_code_at(t, n - 1, 5));
        lemma_code_list_empty(t, n - 1);
    }
}

/// The provider identifier is the first ten-digit run: where a
/// word-bounded ten-digit token stands at `i` and none stands before
/// it, extraction yields exactly that token, whatever follows later
/// in the text.
pub proof fn lemma_npi_first_match(t: Seq<char>, i: int)
    requires
        digit_code_at(t, i, 10),
        forall|j: int| 0 <= j < i ==> !digit_code_at(t, j, 10),
    ensures
        spec_npi(t) == Some(t.subrange(i, i + 10)),
{
    lemma_run_len(t, CharClass::Digit, 0);
    assert(0 <= i < t.len()) by {
        assert(run_len(t, CharClass::Digit, i) == 10);
    }
    lemma_first_from(t, 0, i);
}

proof fn lemma_first_from(t: Seq<char>, m: int, i: int)
    requires
        0 <= m <= i < t.len(),
        digit_code_at(t, i, 10),
        forall|j: int| m <= j < i ==> !digit_code_at(t, j, 10),
    ensures
        first_digit_code_from(t, 10, m) == Some(i),
    decreases i - m,
{
    if m < i {
        lemma_first_from(t, m + 1, i);
    }
}

} // verus!
