//! The validation engine: a fixed, ordered set of independent rules
//! evaluated against an extracted field set.
//!
//! Rule order determines output order.  Each finding's confidence is
//! a constant of the rule definition, in hundredths of the unit
//! score.  The freshly drawn finding identifiers are the only part
//! of the output that is not a function of the input.

use vstd::prelude::*;
use crate::decimal::{dec_digits, u64_to_string};
use crate::ids::fresh_id;
use crate::text::{chars_vec, exec_is_digit, is_digit};
use crate::types::{Claim, ExtractedData, ExtractionView, FindingCore, Severity, ValidationResult};

verus! {

/// A procedure code of the expected shape: exactly five digits.
pub open spec fn is_valid_cpt(c: Seq<char>) -> bool {
    c.len() == 5 && forall|i: int| 0 <= i < c.len() ==> is_digit(#[trigger] c[i])
}

/// The finding fired when no procedure code was recovered.
pub open spec fn missing_cpt_core() -> FindingCore {
    FindingCore {
        rule_id: "missing_cpt_codes"@,
        rule_name: "Missing CPT Codes"@,
        severity: Severity::Critical,
        message: "No CPT codes found in the claim"@,
        field: Some("cpt_codes"@),
        suggested_fix: Some("Add appropriate CPT codes for the services provided"@),
        confidence: 100,
    }
}

/// The finding fired for one malformed procedure code.
pub open spec fn invalid_cpt_core(code: Seq<char>) -> FindingCore {
    FindingCore {
        rule_id: "invalid_cpt_code"@,
        rule_name: "Invalid CPT Code Format"@,
        severity: Severity::Critical,
        message: "Invalid CPT code format: "@ + code,
        field: Some("cpt_codes"@),
        suggested_fix: Some("Ensure CPT codes are 5-digit numbers"@),
        confidence: 100,
    }
}

/// The finding fired when the patient name is absent.
pub open spec fn missing_patient_core() -> FindingCore {
    FindingCore {
        rule_id: "missing_patient_name"@,
        rule_name: "Missing Patient Name"@,
        severity: Severity::Critical,
        message: "Patient name not found in the claim"@,
        field: Some("patient_name"@),
        suggested_fix: Some("Add patient name to the claim"@),
        confidence: 90,
    }
}

/// The finding fired when the provider name is absent.
pub open spec fn missing_provider_core() -> FindingCore {
    FindingCore {
        rule_id: "missing_provider_name"@,
        rule_name: "Missing Provider Name"@,
        severity: Severity::Warning,
        message: "Provider name not found in the claim"@,
        field: Some("provider_name"@),
        suggested_fix: Some("Add provider name to the claim"@),
        confidence: 80,
    }
}

/// The finding fired when the provider identifier is absent.
pub open spec fn missing_npi_core() -> FindingCore {
    FindingCore {
        rule_id: "missing_npi"@,
        rule_name: "Missing Provider NPI"@,
        severity: Severity::Critical,
        message: "Provider NPI not found in the claim"@,
        field: Some("provider_npi"@),
        suggested_fix: Some("Add valid 10-digit NPI to the claim"@),
        confidence: 90,
    }
}

/// The finding fired when no charge was recovered.
pub open spec fn missing_charges_core() -> FindingCore {
    FindingCore {
        rule_id: "missing_charges"@,
        rule_name: "Missing Charges"@,
        severity: Severity::Critical,
        message: "No charges found in the claim"@,
        field: Some("charges"@),
        suggested_fix: Some("Add service charges to the claim"@),
        confidence: 100,
    }
}

/// The finding fired when no service date was recovered.
pub open spec fn missing_dates_core() -> FindingCore {
    FindingCore {
        rule_id: "missing_dates"@,
        rule_name: "Missing Service Dates"@,
        severity: Severity::Warning,
        message: "No service dates found in the claim"@,
        field: Some("dates"@),
        suggested_fix: Some("Add service dates to the claim"@),
        confidence: 80,
    }
}

/// The finding fired when the payer is absent.
pub open spec fn missing_payer_core() -> FindingCore {
    FindingCore {
        rule_id: "missing_payer"@,
        rule_name: "Missing Payer Information"@,
        severity: Severity::Warning,
        message: "Payer information not found in the claim"@,
        field: Some("payer"@),
        suggested_fix: Some("Add payer information to the claim"@),
        confidence: 70,
    }
}

/// The finding fired when no diagnosis code was recovered.
pub open spec fn missing_diagnosis_core() -> FindingCore {
    FindingCore {
        rule_id: "missing_diagnosis_codes"@,
        rule_name: "Missing Diagnosis Codes"@,
        severity: Severity::Warning,
        message: "No diagnosis codes found in the claim"@,
        field: Some("diagnosis_codes"@),
        suggested_fix: Some("Add appropriate ICD-10 diagnosis codes"@),
        confidence: 80,
    }
}

/// The finding fired once per distinct duplicated procedure code,
/// naming the code and how often it occurs in all.
pub open spec fn duplicate_cpt_core(code: Seq<char>, count: int) -> FindingCore {
    FindingCore {
        rule_id: "duplicate_cpt_code"@,
        rule_name: "Duplicate CPT Code"@,
        severity: Severity::Warning,
        message: "CPT code "@ + code + " appears "@ + dec_digits(count as nat) + " times"@,
        field: Some("cpt_codes"@),
        suggested_fix: Some("Review if duplicate codes are intentional or remove duplicates"@),
        confidence: 100,
    }
}

/// A one-finding segment, present exactly when its rule fires.
pub open spec fn when_firing(cond: bool, f: FindingCore) -> Seq<FindingCore> {
    if cond {
        seq![f]
    } else {
        Seq::empty()
    }
}

/// One finding per malformed code among the first `n`, in order.
pub open spec fn invalid_cpt_list(codes: Seq<Seq<char>>, n: int) -> Seq<FindingCore>
    decreases n,
{
    if n <= 0 {
        Seq::empty()
    } else if !is_valid_cpt(codes[n - 1]) {
        invalid_cpt_list(codes, n - 1).push(invalid_cpt_core(codes[n - 1]))
    } else {
        invalid_cpt_list(codes, n - 1)
    }
}

/// How often `v` occurs among the first `n` codes.
pub open spec fn occurrences(codes: Seq<Seq<char>>, v: Seq<char>, n: int) -> int
    decreases n,
{
    if n <= 0 {
        0
    } else {
        occurrences(codes, v, n - 1) + if codes[n - 1] == v {
            1int
        } else {
            0int
        }
    }
}

/// The code at `n` already occurs somewhere before it.
pub open spec fn seen_before(codes: Seq<Seq<char>>, n: int) -> bool {
    exists|j: int| 0 <= j < n && codes[j] == codes[n]
}

/// One finding per distinct duplicated code value whose first
/// occurrence lies before `n`, in first-occurrence order.
pub open spec fn duplicate_list(codes: Seq<Seq<char>>, n: int) -> Seq<FindingCore>
    decreases n,
{
    if n <= 0 {
        Seq::empty()
    } else {
        let rest = duplicate_list(codes, n - 1);
        let total = occurrences(codes, codes[n - 1], codes.len() as int);
        if !seen_before(codes, n - 1) && total >= 2 {
            rest.push(duplicate_cpt_core(codes[n - 1], total))
        } else {
            rest
        }
    }
}

/// What the two procedure-code rules say: the missing-codes finding,
/// then one finding per malformed code.
pub open spec fn cpt_findings(d: ExtractionView) -> Seq<FindingCore> {
    when_firing(d.cpt_codes.len() == 0, missing_cpt_core()) + invalid_cpt_list(
        d.cpt_codes,
        d.cpt_codes.len() as int,
    )
}

/// What the first four presence rules say: patient name, provider
/// name, provider identifier, charges.
pub open spec fn presence_front(d: ExtractionView) -> Seq<FindingCore> {
    when_firing(d.patient_name is None, missing_patient_core()) + when_firing(
        d.provider_name is None,
        missing_provider_core(),
    ) + when_firing(d.provider_npi is None, missing_npi_core()) + when_firing(
        d.charges.len() == 0,
        missing_charges_core(),
    )
}

/// What the last three presence rules say: service dates, payer,
/// diagnosis codes.
pub open spec fn presence_back(d: ExtractionView) -> Seq<FindingCore> {
    when_firing(d.dates.len() == 0, missing_dates_core()) + when_firing(
        d.payer is None,
        missing_payer_core(),
    ) + when_firing(d.diagnosis_codes.len() == 0, missing_diagnosis_core())
}

/// What the seven presence rules say, in rule order.
pub open spec fn presence_findings(d: ExtractionView) -> Seq<FindingCore> {
    presence_front(d) + presence_back(d)
}

/// Everything validation says of an extracted field set, in rule
/// order.
pub open spec fn spec_findings(d: ExtractionView) -> Seq<FindingCore> {
    cpt_findings(d) + presence_findings(d) + duplicate_list(
        d.cpt_codes,
        d.cpt_codes.len() as int,
    )
}

/// Tests a recovered code for the five-digit shape.
fn check_valid_cpt(code: &String) -> (r: bool)
    ensures
        r == is_valid_cpt(code@),
{
    let cv = chars_vec(code.as_str());
    if cv.len() != 5 {
        return false;
    }
    let mut i: usize = 0;
    while i < cv.len()
        invariant
            cv@ == code@,
            cv@.len() == 5,
            i <= 5,
            forall|j: int| 0 <= j < i ==> is_digit(#[trigger] code@[j]),
        decreases cv@.len() - i,
    {
        if !exec_is_digit(cv[i]) {
            return false;
        }
        i = i + 1;
    }
    true
}

/// Appends the findings of the two procedure-code rules.
#[verifier::rlimit(100)]
fn push_cpt_findings(out: &mut Vec<ValidationResult>, codes: &Vec<String>)
    ensures
        final(out)@.map_values(|f: ValidationResult| f.content()) == old(out)@.map_values(
            |f: ValidationResult| f.content(),
        ) + cpt_findings_of(codes@.map_values(|s: String| s@)),
{
    let ghost base = out@.map_values(|f: ValidationResult| f.content());
    let ghost cv = codes@.map_values(|s: String| s@);
    if codes.len() == 0 {
        out.push(
            ValidationResult {
                id: fresh_id(),
                rule_id: "missing_cpt_codes".to_owned(),
                rule_name: "Missing CPT Codes".to_owned(),
                severity: Severity::Critical,
                message: "No CPT codes found in the claim".to_owned(),
                field: Some("cpt_codes".to_owned()),
                suggested_fix: Some(
                    "Add appropriate CPT codes for the services provided".to_owned(),
                ),
                confidence: 100,
            },
        );
    }
    let ghost head = when_firing(cv.len() == 0, missing_cpt_core());
    assert(out@.map_values(|f: ValidationResult| f.content()) =~= base + head);
    let mut i: usize = 0;
    while i < codes.len()
        invariant
            i <= codes@.len(),
            cv == codes@.map_values(|s: String| s@),
            head == when_firing(cv.len() == 0, missing_cpt_core()),
            out@.map_values(|f: ValidationResult| f.content()) == base + head + invalid_cpt_list(
                cv,
                i as int,
            ),
        decreases codes@.len() - i,
    {
        let code = &codes[i];
        assert(code@ == cv[i as int]);
        if !check_valid_cpt(code) {
            let mut message = "Invalid CPT code format: ".to_owned();
            message.append(code.as_str());
            assert(message@ =~= "Invalid CPT code format: "@ + cv[i as int]);
            let ghost premap = out@.map_values(|f: ValidationResult| f.content());
            out.push(
                ValidationResult {
                    id: fresh_id(),
                    rule_id: "invalid_cpt_code".to_owned(),
                    rule_name: "Invalid CPT Code Format".to_owned(),
                    severity: Severity::Critical,
                    message,
                    field: Some("cpt_codes".to_owned()),
                    suggested_fix: Some("Ensure CPT codes are 5-digit numbers".to_owned()),
                    confidence: 100,
                },
            );
            proof {
                assert(out@.map_values(|f: ValidationResult| f.content()) =~= premap.push(
                    invalid_cpt_core(cv[i as int]),
                ));
                assert(invalid_cpt_list(cv, i as int + 1) == invalid_cpt_list(cv, i as int).push(
                    invalid_cpt_core(cv[i as int]),
                ));
            }
        }
        assert(out@.map_values(|f: ValidationResult| f.content()) =~= base + head
            + invalid_cpt_list(cv, i as int + 1));
        i = i + 1;
    }
    assert(base + head + invalid_cpt_list(cv, cv.len() as int) =~= base + cpt_findings_of(cv));
}

/// The findings of the two procedure-code rules, from the code list
/// alone.
pub open spec fn cpt_findings_of(codes: Seq<Seq<char>>) -> Seq<FindingCore> {
    when_firing(codes.len() == 0, missing_cpt_core()) + invalid_cpt_list(
        codes,
        codes.len() as int,
    )
}

/// Appends the findings of the first four presence rules.
#[verifier::rlimit(100)]
fn push_presence_front(out: &mut Vec<ValidationResult>, data: &ExtractedData)
    ensures
        final(out)@.map_values(|f: ValidationResult| f.content()) == old(out)@.map_values(
            |f: ValidationResult| f.content(),
        ) + presence_front(data@),
{
    let ghost base = out@.map_values(|f: ValidationResult| f.content());
    let ghost d = data@;

    if data.patient_name.is_none() {
        out.push(
            ValidationResult {
                id: fresh_id(),
                rule_id: "missing_patient_name".to_owned(),
                rule_name: "Missing Patient Name".to_owned(),
                severity: Severity::Critical,
                message: "Patient name not found in the claim".to_owned(),
                field: Some("patient_name".to_owned()),
                suggested_fix: Some("Add patient name to the claim".to_owned()),
                confidence: 90,
            },
        );
    }
    let ghost acc = when_firing(d.patient_name is None, missing_patient_core());
    assert(out@.map_values(|f: ValidationResult| f.content()) =~= base + acc);

    if data.provider_name.is_none() {
        out.push(
            ValidationResult {
                id: fresh_id(),
                rule_id: "missing_provider_name".to_owned(),
                rule_name: "Missing Provider Name".to_owned(),
                severity: Severity::Warning,
                message: "Provider name not found in the claim".to_owned(),
                field: Some("provider_name".to_owned()),
                suggested_fix: Some("Add provider name to the claim".to_owned()),
                confidence: 80,
            },
        );
    }
    let ghost acc = acc + when_firing(d.provider_name is None, missing_provider_core());
    assert(out@.map_values(|f: ValidationResult| f.content()) =~= base + acc);

    if data.provider_npi.is_none() {
        out.push(
            ValidationResult {
                id: fresh_id(),
                rule_id: "missing_npi".to_owned(),
                rule_name: "Missing Provider NPI".to_owned(),
                severity: Severity::Critical,
                message: "Provider NPI not found in the claim".to_owned(),
                field: Some("provider_npi".to_owned()),
                suggested_fix: Some("Add valid 10-digit NPI to the claim".to_owned()),
                confidence: 90,
            },
        );
    }
    let ghost acc = acc + when_firing(d.provider_npi is None, missing_npi_core());
    assert(out@.map_values(|f: ValidationResult| f.content()) =~= base + acc);

    if data.charges.len() == 0 {
        out.push(
            ValidationResult {
                id: fresh_id(),
                rule_id: "missing_charges".to_owned(),
                rule_name: "Missing Charges".to_owned(),
                severity: Severity::Critical,
                message: "No charges found in the claim".to_owned(),
                field: Some("charges".to_owned()),
                suggested_fix: Some("Add service charges to the claim".to_owned()),
                confidence: 100,
            },
        );
    }
    let ghost acc = acc + when_firing(d.charges.len() == 0, missing_charges_core());
    assert(out@.map_values(|f: ValidationResult| f.content()) =~= base + acc);
    assert(acc =~= presence_front(d));
}

/// Appends the findings of the last three presence rules.
#[verifier::rlimit(100)]
fn push_presence_back(out: &mut Vec<ValidationResult>, data: &ExtractedData)
    ensures
        final(out)@.map_values(|f: ValidationResult| f.content()) == old(out)@.map_values(
            |f: ValidationResult| f.content(),
        ) + presence_back(data@),
{
    let ghost base = out@.map_values(|f: ValidationResult| f.content());
    let ghost d = data@;
    let ghost acc = Seq::<FindingCore>::empty();
    assert(out@.map_values(|f: ValidationResult| f.content()) =~= base + acc);

    if data.dates.len() == 0 {
        out.push(
            ValidationResult {
                id: fresh_id(),
                rule_id: "missing_dates".to_owned(),
                rule_name: "Missing Service Dates".to_owned(),
                severity: Severity::Warning,
                message: "No service dates found in the claim".to_owned(),
                field: Some("dates".to_owned()),
                suggested_fix: Some("Add service dates to the claim".to_owned()),
                confidence: 80,
            },
        );
    }
    let ghost acc = acc + when_firing(d.dates.len() == 0, missing_dates_core());
    assert(out@.map_values(|f: ValidationResult| f.content()) =~= base + acc);

    if data.payer.is_none() {
        out.push(
            ValidationResult {
                id: fresh_id(),
                rule_id: "missing_payer".to_owned(),
                rule_name: "Missing Payer Information".to_owned(),
                severity: Severity::Warning,
                message: "Payer information not found in the claim".to_owned(),
                field: Some("payer".to_owned()),
                suggested_fix: Some("Add payer information to the claim".to_owned()),
                confidence: 70,
            },
        );
    }
    let ghost acc = acc + when_firing(d.payer is None, missing_payer_core());
    assert(out@.map_values(|f: ValidationResult| f.content()) =~= base + acc);

    if data.diagnosis_codes.len() == 0 {
        out.push(
            ValidationResult {
                id: fresh_id(),
                rule_id: "missing_diagnosis_codes".to_owned(),
                rule_name: "Missing Diagnosis Codes".to_owned(),
                severity: Severity::Warning,
                message: "No diagnosis codes found in the claim".to_owned(),
                field: Some("diagnosis_codes".to_owned()),
                suggested_fix: Some("Add appropriate ICD-10 diagnosis codes".to_owned()),
                confidence: 80,
            },
        );
    }
    let ghost acc = acc + when_firing(d.diagnosis_codes.len() == 0, missing_diagnosis_core());
    assert(out@.map_values(|f: ValidationResult| f.content()) =~= base + acc);
    assert(acc =~= presence_back(d));
}

/// Appends the findings of the duplicate rule: one finding per
/// distinct duplicated code value, at its first occurrence, naming
/// its total count.
#[verifier::rlimit(100)]
fn push_duplicate_findings(out: &mut Vec<ValidationResult>, codes: &Vec<String>)
    ensures
        final(out)@.map_values(|f: ValidationResult| f.content()) == old(out)@.map_values(
            |f: ValidationResult| f.content(),
        ) + duplicate_list(
            codes@.map_values(|s: String| s@),
            codes@.len() as int,
        ),
{
    let ghost base = out@.map_values(|f: ValidationResult| f.content());
    let ghost cv = codes@.map_values(|s: String| s@);
    assert(out@.map_values(|f: ValidationResult| f.content()) =~= base + duplicate_list(cv, 0));
    let mut i: usize = 0;
    while i < codes.len()
        invariant
            i <= codes@.len(),
            cv == codes@.map_values(|s: String| s@),
            out@.map_values(|f: ValidationResult| f.content()) == base + duplicate_list(
                cv,
                i as int,
            ),
        decreases codes@.len() - i,
    {
        assert(codes@[i as int]@ == cv[i as int]);
        let mut seen = false;
        let mut j: usize = 0;
        while j < i
            invariant
                i < codes@.len(),
                cv == codes@.map_values(|s: String| s@),
                j <= i,
                seen == exists|x: int| 0 <= x < j && cv[x] == cv[i as int],
            decreases i - j,
        {
            assert(codes@[j as int]@ == cv[j as int]);
            assert(codes@[i as int]@ == cv[i as int]);
            if codes[j] == codes[i] {
                seen = true;
                assert(cv[j as int] == cv[i as int]);
            }
            j = j + 1;
        }
        if !seen {
            let mut count: usize = 0;
            let mut j: usize = 0;
            while j < codes.len()
                invariant
                    i < codes@.len(),
                    cv == codes@.map_values(|s: String| s@),
                    j <= codes@.len(),
                    count <= j,
                    count == occurrences(cv, cv[i as int], j as int),
                decreases codes@.len() - j,
            {
                assert(codes@[j as int]@ == cv[j as int]);
                assert(codes@[i as int]@ == cv[i as int]);
                if codes[j] == codes[i] {
                    count = count + 1;
                }
                j = j + 1;
            }
            if count >= 2 {
                let mut message = "CPT code ".to_owned();
                message.append(codes[i].as_str());
                message.append(" appears ");
                let rendered = u64_to_string(count as u64);
                message.append(rendered.as_str());
                message.append(" times");
                assert(message@ =~= "CPT code "@ + cv[i as int] + " appears "@ + dec_digits(
                    count as nat,
                ) + " times"@);
                let ghost premap = out@.map_values(|f: ValidationResult| f.content());
                out.push(
                    ValidationResult {
                        id: fresh_id(),
                        rule_id: "duplicate_cpt_code".to_owned(),
                        rule_name: "Duplicate CPT Code".to_owned(),
                        severity: Severity::Warning,
                        message,
                        field: Some("cpt_codes".to_owned()),
                        suggested_fix: Some(
                            "Review if duplicate codes are intentional or remove duplicates".to_owned(),
                        ),
                        confidence: 100,
                    },
                );
                proof {
                    let total = occurrences(cv, cv[i as int], cv.len() as int);
                    assert(count as int == total);
                    assert(out@.map_values(|f: ValidationResult| f.content()) =~= premap.push(
                        duplicate_cpt_core(cv[i as int], total),
                    ));
                    assert(duplicate_list(cv, i as int + 1) == duplicate_list(cv, i as int).push(
                        duplicate_cpt_core(cv[i as int], total),
                    ));
                }
            }
        }
        assert(out@.map_values(|f: ValidationResult| f.content()) =~= base + duplicate_list(
            cv,
            i as int + 1,
        ));
        i = i + 1;
    }
}

/// The validation engine.
pub struct RulesEngine {}

impl RulesEngine {
    pub fn new() -> (r: RulesEngine) {
        RulesEngine {  }
    }

    /// Evaluates every rule against the claim's extracted data, in
    /// rule order.  Apart from the freshly drawn identifiers, the
    /// findings are a pure function of the extracted data.
    pub fn validate_claim(&self, claim: &Claim) -> (r: Vec<ValidationResult>)
        ensures
            r@.map_values(|f: ValidationResult| f.content()) == spec_findings(
                claim.extracted_data@,
            ),
    {
        let data = &claim.extracted_data;
        let ghost d = claim.extracted_data@;
        let mut out: Vec<ValidationResult> = Vec::new();
        assert(out@.map_values(|f: ValidationResult| f.content()) =~= Seq::<FindingCore>::empty());
        push_cpt_findings(&mut out, &data.cpt_codes);
        push_presence_front(&mut out, data);
        push_presence_back(&mut out, data);
        push_duplicate_findings(&mut out, &data.cpt_codes);
        proof {
            assert(cpt_findings_of(d.cpt_codes) =~= cpt_findings(d));
            assert(out@.map_values(|f: ValidationResult| f.content()) =~= spec_findings(d));
        }
        out
    }
}


/// When no procedure code was recovered, the very first finding is
/// the critical missing-codes finding.
/// Text in which no maximal digit run has length five comes out of
/// extraction with no procedure codes, and its validation opens with
/// the critical missing-codes finding.
pub proof fn lemma_no_codes_in_text_flagged(t: Seq<char>)
    requires
        forall|i: int|
            0 <= i < t.len() ==> crate::text::run_len(t, crate::text::CharClass::Digit, i) != 5,
    ensures
        crate::parser::spec_extract(t).cpt_codes.len() == 0,
        spec_findings(crate::parser::spec_extract(t)).len() >= 1,
        spec_findings(crate::parser::spec_extract(t))[0] == missing_cpt_core(),
        spec_findings(crate::parser::spec_extract(t))[0].severity == Severity::Critical,
{
    crate::parser::lemma_no_five_digit_run(t);
    lemma_missing_codes_flagged(crate::parser::spec_extract(t));
}

#[verifier::rlimit(100)]
pub proof fn lemma_missing_codes_flagged(d: ExtractionView)
    requires
        d.cpt_codes.len() == 0,
    ensures
        spec_findings(d).len() >= 1,
        spec_findings(d)[0] == missing_cpt_core(),
        spec_findings(d)[0].severity == Severity::Critical,
{
    let head = when_firing(d.cpt_codes.len() == 0, missing_cpt_core());
    assert(head == seq![missing_cpt_core()]);
    assert(spec_findings(d)[0] == head[0]);
}

} // verus!
