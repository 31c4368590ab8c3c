use claimcheck::parser::ClaimParser;
use claimcheck::rules::RulesEngine;
use claimcheck::types::{Claim, ExtractedData, Severity, ValidationResult};

fn claim_with(data: ExtractedData) -> Claim {
    let mut claim = Claim::new_uploaded(7, "scan.png".to_string(), "/tmp/scan.png".to_string(), 1000);
    claim.extracted_data = data;
    claim
}

fn validate(data: ExtractedData) -> Vec<ValidationResult> {
    RulesEngine::new().validate_claim(&claim_with(data))
}

fn rule_ids(results: &[ValidationResult]) -> Vec<&str> {
    results.iter().map(|r| r.rule_id.as_str()).collect()
}

#[test]
fn empty_extraction_fires_every_presence_rule_in_order() {
    let results = validate(ExtractedData::blank());
    assert_eq!(
        rule_ids(&results),
        vec![
            "missing_cpt_codes",
            "missing_patient_name",
            "missing_provider_name",
            "missing_npi",
            "missing_charges",
            "missing_dates",
            "missing_payer",
            "missing_diagnosis_codes",
        ]
    );
    let critical: Vec<&str> = results
        .iter()
        .filter(|r| matches!(r.severity, Severity::Critical))
        .map(|r| r.rule_id.as_str())
        .collect();
    assert_eq!(
        critical,
        vec!["missing_cpt_codes", "missing_patient_name", "missing_npi", "missing_charges"]
    );
}

#[test]
fn duplicate_codes_yield_one_finding_per_distinct_value() {
    let mut data = ExtractedData::blank();
    data.cpt_codes = vec!["99213".to_string(), "99213".to_string(), "99214".to_string()];
    let results = validate(data);
    let duplicates: Vec<&ValidationResult> = results
        .iter()
        .filter(|r| r.rule_id == "duplicate_cpt_code")
        .collect();
    assert_eq!(duplicates.len(), 1);
    assert_eq!(duplicates[0].message, "CPT code 99213 appears 2 times");
    assert!(matches!(duplicates[0].severity, Severity::Warning));
    assert_eq!(duplicates[0].confidence, 100);
}

#[test]
fn triple_occurrence_counts_to_three() {
    let mut data = ExtractedData::blank();
    data.cpt_codes = vec![
        "80050".to_string(),
        "80050".to_string(),
        "99213".to_string(),
        "80050".to_string(),
    ];
    let results = validate(data);
    let duplicates: Vec<&ValidationResult> = results
        .iter()
        .filter(|r| r.rule_id == "duplicate_cpt_code")
        .collect();
    assert_eq!(duplicates.len(), 1);
    assert_eq!(duplicates[0].message, "CPT code 80050 appears 3 times");
}

#[test]
fn malformed_code_fires_one_finding_per_code() {
    let mut data = ExtractedData::blank();
    data.cpt_codes = vec!["99213".to_string(), "abc12".to_string(), "1234".to_string()];
    let results = validate(data);
    let invalid: Vec<&ValidationResult> = results
        .iter()
        .filter(|r| r.rule_id == "invalid_cpt_code")
        .collect();
    assert_eq!(invalid.len(), 2);
    assert_eq!(invalid[0].message, "Invalid CPT code format: abc12");
    assert_eq!(invalid[1].message, "Invalid CPT code format: 1234");
    assert!(matches!(invalid[0].severity, Severity::Critical));
    assert!(results.iter().all(|r| r.rule_id != "missing_cpt_codes"));
}

#[test]
fn finding_constants_match_the_rule_table() {
    let results = validate(ExtractedData::blank());
    let by_id = |id: &str| results.iter().find(|r| r.rule_id == id).unwrap();
    assert_eq!(by_id("missing_cpt_codes").confidence, 100);
    assert_eq!(by_id("missing_patient_name").confidence, 90);
    assert_eq!(by_id("missing_provider_name").confidence, 80);
    assert_eq!(by_id("missing_npi").confidence, 90);
    assert_eq!(by_id("missing_charges").confidence, 100);
    assert_eq!(by_id("missing_dates").confidence, 80);
    assert_eq!(by_id("missing_payer").confidence, 70);
    assert_eq!(by_id("missing_diagnosis_codes").confidence, 80);
    assert_eq!(by_id("missing_cpt_codes").rule_name, "Missing CPT Codes");
    assert_eq!(by_id("missing_cpt_codes").message, "No CPT codes found in the claim");
    assert_eq!(by_id("missing_cpt_codes").field.as_deref(), Some("cpt_codes"));
    assert!(matches!(by_id("missing_provider_name").severity, Severity::Warning));
    assert!(matches!(by_id("missing_dates").severity, Severity::Warning));
    assert!(matches!(by_id("missing_payer").severity, Severity::Warning));
    assert!(matches!(by_id("missing_diagnosis_codes").severity, Severity::Warning));
}

#[test]
fn complete_data_yields_no_findings() {
    let text = "Patient: John Smith ... Provider: Jane Doe ... NPI 1234567890 ... CPT 99213 ... $150.00 ... 01/15/2024 ... Medicare ... E119";
    let data = ClaimParser::new().parse_text(text);
    let results = validate(data);
    assert!(results.is_empty());
}
