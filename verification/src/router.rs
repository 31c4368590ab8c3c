//! The queue router: findings in, triage bucket out.
//!
//! The policy is severity dominance, in fixed priority order: any
//! critical finding routes to the critical queue; otherwise any
//! warning routes to the warnings queue; otherwise the claim is
//! approved.  Informational findings never affect routing, and an
//! empty finding list is approved.

use vstd::prelude::*;
use crate::types::{FindingCore, QueueType, Severity, ValidationResult};

verus! {

/// Some finding of the list carries the severity `s`.
pub open spec fn has_severity(fs: Seq<FindingCore>, s: Severity) -> bool {
    exists|i: int| 0 <= i < fs.len() && fs[i].severity == s
}

/// Where a list of findings routes to.
pub open spec fn spec_route(fs: Seq<FindingCore>) -> QueueType {
    if has_severity(fs, Severity::Critical) {
        QueueType::CriticalErrors
    } else if has_severity(fs, Severity::Warning) {
        QueueType::WarningsOnly
    } else {
        QueueType::ApprovedClaims
    }
}

/// Routes a claim by its validation findings.
pub fn route(results: &Vec<ValidationResult>) -> (q: QueueType)
    ensures
        q == spec_route(results@.map_values(|f: ValidationResult| f.content())),
{
    let ghost fs = results@.map_values(|f: ValidationResult| f.content());
    let mut any_critical = false;
    let mut any_warning = false;
    let mut i: usize = 0;
    while i < results.len()
        invariant
            fs == results@.map_values(|f: ValidationResult| f.content()),
            i <= results@.len(),
            any_critical == exists|j: int|
                0 <= j < i && fs[j].severity == Severity::Critical,
            any_warning == exists|j: int| 0 <= j < i && fs[j].severity == Severity::Warning,
        decreases results@.len() - i,
    {
        assert(fs[i as int].severity == results@[i as int].severity);
        match results[i].severity {
            Severity::Critical => {
                any_critical = true;
                assert(fs[i as int].severity == Severity::Critical);
            },
            Severity::Warning => {
                any_warning = true;
                assert(fs[i as int].severity == Severity::Warning);
            },
            Severity::Info => {
            },
        }
        i = i + 1;
    }
    if any_critical {
        QueueType::CriticalErrors
    } else if any_warning {
        QueueType::WarningsOnly
    } else {
        QueueType::ApprovedClaims
    }
}

/// Severity dominance: a single critical finding routes the claim to
/// the critical queue, however many warnings or informational
/// findings stand beside it.
pub proof fn lemma_critical_dominates(fs: Seq<FindingCore>)
    requires
        has_severity(fs, Severity::Critical),
    ensures
        spec_route(fs) == QueueType::CriticalErrors,
{
}

/// A list with no critical finding but at least one warning goes to
/// the warnings queue, and a list with neither is approved; the
/// empty list is approved.
pub proof fn lemma_route_exhaustive(fs: Seq<FindingCore>)
    ensures
        !has_severity(fs, Severity::Critical) && has_severity(fs, Severity::Warning)
            ==> spec_route(fs) == QueueType::WarningsOnly,
        !has_severity(fs, Severity::Critical) && !has_severity(fs, Severity::Warning)
            ==> spec_route(fs) == QueueType::ApprovedClaims,
        fs.len() == 0 ==> spec_route(fs) == QueueType::ApprovedClaims,
{
}

} // verus!
