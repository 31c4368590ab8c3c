use claimcheck::router::route;
use claimcheck::rules::RulesEngine;
use claimcheck::types::{Claim, ClaimStatus, QueueType, Severity, ValidationResult};

fn finding(rule_id: &str, severity: Severity) -> ValidationResult {
    ValidationResult {
        id: 1,
        rule_id: rule_id.to_string(),
        rule_name: rule_id.to_string(),
        severity,
        message: "m".to_string(),
        field: None,
        suggested_fix: None,
        confidence: 100,
    }
}

#[test]
fn critical_dominates_routing() {
    let results = vec![
        finding("a", Severity::Warning),
        finding("b", Severity::Info),
        finding("c", Severity::Critical),
        finding("d", Severity::Warning),
    ];
    assert!(matches!(route(&results), QueueType::CriticalErrors));
}

#[test]
fn warnings_without_critical_route_to_warnings() {
    let results = vec![finding("a", Severity::Info), finding("b", Severity::Warning)];
    assert!(matches!(route(&results), QueueType::WarningsOnly));
}

#[test]
fn info_alone_and_empty_list_are_approved() {
    let results = vec![finding("a", Severity::Info)];
    assert!(matches!(route(&results), QueueType::ApprovedClaims));
    let none: Vec<ValidationResult> = Vec::new();
    assert!(matches!(route(&none), QueueType::ApprovedClaims));
}

#[test]
fn uploaded_claim_starts_blank() {
    let claim = Claim::new_uploaded(42, "a.pdf".to_string(), "/docs/a.pdf".to_string(), 500);
    assert_eq!(claim.id, 42);
    assert_eq!(claim.filename, "a.pdf");
    assert_eq!(claim.file_path, "/docs/a.pdf");
    assert!(matches!(claim.status, ClaimStatus::Uploaded));
    assert!(claim.extracted_data.cpt_codes.is_empty());
    assert!(claim.validation_results.is_empty());
    assert!(matches!(claim.queue, QueueType::CriticalErrors));
    assert_eq!(claim.assigned_to, None);
    assert_eq!(claim.created_at, 500);
    assert_eq!(claim.updated_at, 500);
    assert!(claim.comments.is_empty());
}

#[test]
fn processing_transitions_and_fills_extraction() {
    let mut claim = Claim::new_uploaded(1, "b.png".to_string(), "/b.png".to_string(), 10);
    claim.begin_processing(20);
    assert!(matches!(claim.status, ClaimStatus::Processing));
    assert_eq!(claim.updated_at, 20);
    claim.finish_processing("Patient: John Smith CPT 99213", 30);
    assert!(matches!(claim.status, ClaimStatus::Processed));
    assert_eq!(claim.updated_at, 30);
    assert_eq!(claim.extracted_data.patient_name.as_deref(), Some("John Smith"));
    assert_eq!(claim.extracted_data.cpt_codes, vec!["99213".to_string()]);
    assert_eq!(claim.created_at, 10);
}

#[test]
fn validation_overwrites_findings_and_queue_but_not_status() {
    let mut claim = Claim::new_uploaded(2, "c.png".to_string(), "/c.png".to_string(), 10);
    claim.begin_processing(20);
    claim.finish_processing("nothing recoverable here", 30);
    claim.apply_validation(40);
    assert!(matches!(claim.status, ClaimStatus::Processed));
    assert_eq!(claim.updated_at, 40);
    assert!(matches!(claim.queue, QueueType::CriticalErrors));
    assert!(!claim.validation_results.is_empty());
    let full = "Patient: John Smith ... Provider: Jane Doe ... NPI 1234567890 ... CPT 99213 ... $150.00 ... 01/15/2024 ... Medicare ... E119";
    claim.finish_processing(full, 50);
    claim.apply_validation(60);
    assert!(claim.validation_results.is_empty());
    assert!(matches!(claim.queue, QueueType::ApprovedClaims));
}

#[test]
fn rerunning_validation_is_idempotent_apart_from_ids() {
    let mut claim = Claim::new_uploaded(3, "d.png".to_string(), "/d.png".to_string(), 10);
    claim.finish_processing("CPT 99213 99213", 20);
    let engine = RulesEngine::new();
    let first = engine.validate_claim(&claim);
    let second = engine.validate_claim(&claim);
    assert_eq!(first.len(), second.len());
    for (a, b) in first.iter().zip(second.iter()) {
        assert_eq!(a.rule_id, b.rule_id);
        assert_eq!(a.rule_name, b.rule_name);
        assert_eq!(a.message, b.message);
        assert_eq!(a.field, b.field);
        assert_eq!(a.suggested_fix, b.suggested_fix);
        assert_eq!(a.confidence, b.confidence);
        assert!(matches!(
            (&a.severity, &b.severity),
            (Severity::Critical, Severity::Critical)
                | (Severity::Warning, Severity::Warning)
                | (Severity::Info, Severity::Info)
        ));
    }
}

#[test]
fn text_without_code_runs_flags_missing_codes() {
    let mut claim = Claim::new_uploaded(4, "e.png".to_string(), "/e.png".to_string(), 10);
    claim.finish_processing("no digit runs of the right size 1234 123456", 20);
    assert!(claim.extracted_data.cpt_codes.is_empty());
    claim.apply_validation(30);
    let first = &claim.validation_results[0];
    assert_eq!(first.rule_id, "missing_cpt_codes");
    assert!(matches!(first.severity, Severity::Critical));
}
