//! The data model: extracted field sets, validation findings,
//! queues, and the claim record itself.

use vstd::prelude::*;
use crate::date::{Date, DateView};

verus! {

/// How serious a validation finding is.  `Critical` blocks approval,
/// `Warning` flags the claim for review, `Info` is reserved and fired
/// by no rule.
#[derive(Clone, Copy, PartialEq, Eq, Structural, Debug)]
pub enum Severity {
    Critical,
    Warning,
    Info,
}

/// The triage bucket a claim is routed to after validation.
#[derive(Clone, Copy, PartialEq, Eq, Structural, Debug)]
pub enum QueueType {
    CriticalErrors,
    WarningsOnly,
    ApprovedClaims,
}

/// Where a claim stands in its processing lifecycle.
#[derive(Clone, Copy, PartialEq, Eq, Structural, Debug)]
pub enum ClaimStatus {
    Uploaded,
    Processing,
    Processed,
    UnderReview,
    Approved,
    Rejected,
    Submitted,
    Paid,
}

/// A dollar amount recovered from the text, kept as its decimal
/// digits with the thousands separators already stripped.
#[derive(Clone, PartialEq, Eq, Debug)]
pub struct Charge {
    pub amount: String,
}

impl View for Charge {
    type V = Seq<char>;

    open spec fn view(&self) -> Seq<char> {
        self.amount@
    }
}

/// The shape of a stored amount: decimal digits with at most one
/// point, and at least one digit.
pub open spec fn is_amount_text(s: Seq<char>) -> bool {
    &&& forall|i: int|
        0 <= i < s.len() ==> (crate::text::is_digit(#[trigger] s[i]) || s[i] == '.')
    &&& exists|i: int| 0 <= i < s.len() && crate::text::is_digit(#[trigger] s[i])
    &&& forall|i: int, j: int|
        0 <= i < j < s.len() ==> !(#[trigger] s[i] == '.' && #[trigger] s[j] == '.')
}

impl Charge {
    pub open spec fn wf(self) -> bool {
        is_amount_text(self@)
    }
}

/// The structured field set recovered from one document's text.
///
/// Every sequence lists its tokens in order of appearance in the
/// source text, duplicates preserved; a field that was not recognized
/// is `None` or empty.  `patient_id` is reserved and never filled by
/// extraction.  `raw_text` retains the source text verbatim.
#[derive(Clone, PartialEq, Debug)]
pub struct ExtractedData {
    pub payer: Option<String>,
    pub patient_name: Option<String>,
    pub patient_id: Option<String>,
    pub cpt_codes: Vec<String>,
    pub modifiers: Vec<String>,
    pub charges: Vec<Charge>,
    pub dates: Vec<Date>,
    pub provider_name: Option<String>,
    pub provider_npi: Option<String>,
    pub diagnosis_codes: Vec<String>,
    pub raw_text: String,
}

/// The mathematical value of an `ExtractedData`.
pub ghost struct ExtractionView {
    pub payer: Option<Seq<char>>,
    pub patient_name: Option<Seq<char>>,
    pub patient_id: Option<Seq<char>>,
    pub cpt_codes: Seq<Seq<char>>,
    pub modifiers: Seq<Seq<char>>,
    pub charges: Seq<Seq<char>>,
    pub dates: Seq<DateView>,
    pub provider_name: Option<Seq<char>>,
    pub provider_npi: Option<Seq<char>>,
    pub diagnosis_codes: Seq<Seq<char>>,
    pub raw_text: Seq<char>,
}

/// The view of an optional owned string.
pub open spec fn opt_str_view(o: Option<String>) -> Option<Seq<char>> {
    match o {
        Some(s) => Some(s@),
        None => None,
    }
}

impl View for ExtractedData {
    type V = ExtractionView;

    open spec fn view(&self) -> ExtractionView {
        ExtractionView {
            payer: opt_str_view(self.payer),
            patient_name: opt_str_view(self.patient_name),
            patient_id: opt_str_view(self.patient_id),
            cpt_codes: self.cpt_codes@.map_values(|s: String| s@),
            modifiers: self.modifiers@.map_values(|s: String| s@),
            charges: self.charges@.map_values(|c: Charge| c@),
            dates: self.dates@.map_values(|d: Date| d@),
            provider_name: opt_str_view(self.provider_name),
            provider_npi: opt_str_view(self.provider_npi),
            diagnosis_codes: self.diagnosis_codes@.map_values(|s: String| s@),
            raw_text: self.raw_text@,
        }
    }
}

/// One validation finding: a rule that fired on the extracted data.
///
/// `confidence` is a fixed constant attached to the rule definition,
/// in hundredths of the unit score (100 stands for a score of 1.0).
/// `id` is a freshly drawn identifier and the only field that is not
/// a function of the extracted data.
#[derive(Clone, PartialEq, Eq, Debug)]
pub struct ValidationResult {
    pub id: u128,
    pub rule_id: String,
    pub rule_name: String,
    pub severity: Severity,
    pub message: String,
    pub field: Option<String>,
    pub suggested_fix: Option<String>,
    pub confidence: u64,
}

/// Everything a finding says, apart from its freshly drawn identifier.
pub ghost struct FindingCore {
    pub rule_id: Seq<char>,
    pub rule_name: Seq<char>,
    pub severity: Severity,
    pub message: Seq<char>,
    pub field: Option<Seq<char>>,
    pub suggested_fix: Option<Seq<char>>,
    pub confidence: int,
}

impl ValidationResult {
    /// The finding without its identifier: the part that is a pure
    /// function of the extracted data.
    pub open spec fn content(self) -> FindingCore {
        FindingCore {
            rule_id: self.rule_id@,
            rule_name: self.rule_name@,
            severity: self.severity,
            message: self.message@,
            field: opt_str_view(self.field),
            suggested_fix: opt_str_view(self.suggested_fix),
            confidence: self.confidence as int,
        }
    }
}

/// A note attached to a claim.
#[derive(Clone, PartialEq, Eq, Debug)]
pub struct Comment {
    pub id: u128,
    pub user_id: u128,
    pub content: String,
    pub created_at: u64,
}

/// One billing claim as it moves through the pipeline.  Timestamps
/// are milliseconds since the Unix epoch, supplied by the caller.
#[derive(Clone, PartialEq, Debug)]
pub struct Claim {
    pub id: u128,
    pub filename: String,
    pub file_path: String,
    pub status: ClaimStatus,
    pub extracted_data: ExtractedData,
    pub validation_results: Vec<ValidationResult>,
    pub queue: QueueType,
    pub assigned_to: Option<u128>,
    pub created_at: u64,
    pub updated_at: u64,
    pub comments: Vec<Comment>,
}

} // verus!
