use claimcheck::date::Date;
use claimcheck::parser::ClaimParser;

fn parse(text: &str) -> claimcheck::types::ExtractedData {
    ClaimParser::new().parse_text(text)
}

#[test]
fn end_to_end_full_document() {
    let text = "Patient: John Smith ... Provider: Jane Doe ... NPI 1234567890 ... CPT 99213 ... $150.00 ... 01/15/2024 ... Medicare ... E119";
    let data = parse(text);
    assert_eq!(data.patient_name.as_deref(), Some("John Smith"));
    assert_eq!(data.provider_name.as_deref(), Some("Jane Doe"));
    assert_eq!(data.provider_npi.as_deref(), Some("1234567890"));
    assert_eq!(data.cpt_codes, vec!["99213".to_string()]);
    assert_eq!(data.charges.len(), 1);
    assert_eq!(data.charges[0].amount, "150.00");
    assert_eq!(data.dates, vec![Date { year: 2024, month: 1, day: 15 }]);
    assert_eq!(data.payer.as_deref(), Some("medicare"));
    assert_eq!(data.diagnosis_codes, vec!["E119".to_string()]);
    assert_eq!(data.patient_id, None);
    assert_eq!(data.raw_text, text);
}

#[test]
fn empty_text_yields_empty_fields() {
    let data = parse("");
    assert_eq!(data.payer, None);
    assert_eq!(data.patient_name, None);
    assert_eq!(data.patient_id, None);
    assert!(data.cpt_codes.is_empty());
    assert!(data.modifiers.is_empty());
    assert!(data.charges.is_empty());
    assert!(data.dates.is_empty());
    assert_eq!(data.provider_name, None);
    assert_eq!(data.provider_npi, None);
    assert!(data.diagnosis_codes.is_empty());
    assert_eq!(data.raw_text, "");
}

#[test]
fn extraction_is_idempotent() {
    let text = "Patient: Ann Lee, CPT 99213 99213, $12.50, 03/04/2021, Aetna, E11.9";
    let first = parse(text);
    let second = parse(text);
    assert_eq!(first, second);
}

#[test]
fn cpt_codes_keep_duplicates_in_order() {
    let data = parse("codes 99213 then 99214 then 99213 again");
    assert_eq!(
        data.cpt_codes,
        vec!["99213".to_string(), "99214".to_string(), "99213".to_string()]
    );
}

#[test]
fn four_and_six_digit_runs_are_not_codes() {
    let data = parse("1234 123456 99x99 12 345");
    assert!(data.cpt_codes.is_empty());
    let data = parse("a12345b 12345");
    assert_eq!(data.cpt_codes, vec!["12345".to_string()]);
}

#[test]
fn npi_takes_first_ten_digit_run_only() {
    let data = parse("NPI 1234567890 backup 0987654321");
    assert_eq!(data.provider_npi.as_deref(), Some("1234567890"));
}

#[test]
fn eleven_digit_run_is_no_npi() {
    let data = parse("12345678901");
    assert_eq!(data.provider_npi, None);
}

#[test]
fn modifiers_are_two_uppercase_letters() {
    let data = parse("modifiers LT and RT but not ABC or Xy");
    assert_eq!(data.modifiers, vec!["LT".to_string(), "RT".to_string()]);
}

#[test]
fn charges_strip_separators_and_keep_order() {
    let data = parse("totals $1,234.56 and $15 and $0.99");
    let amounts: Vec<&str> = data.charges.iter().map(|c| c.amount.as_str()).collect();
    assert_eq!(amounts, vec!["1234.56", "15", "0.99"]);
}

#[test]
fn charge_with_no_digits_is_dropped() {
    let data = parse("only $, here");
    assert!(data.charges.is_empty());
}

#[test]
fn dates_in_all_three_shapes() {
    let data = parse("seen 01/15/2024 then 2023-12-31 then 7-4-1776");
    assert_eq!(
        data.dates,
        vec![
            Date { year: 2024, month: 1, day: 15 },
            Date { year: 2023, month: 12, day: 31 },
            Date { year: 1776, month: 7, day: 4 },
        ]
    );
}

#[test]
fn slash_dates_come_before_dashed_dates() {
    let data = parse("2023-12-31 and 01/15/2024");
    assert_eq!(
        data.dates,
        vec![
            Date { year: 2024, month: 1, day: 15 },
            Date { year: 2023, month: 12, day: 31 },
        ]
    );
}

#[test]
fn impossible_calendar_dates_are_dropped() {
    let data = parse("13/45/2024 and 02/29/2023 and 00/10/2024");
    assert!(data.dates.is_empty());
    let data = parse("02/29/2024");
    assert_eq!(data.dates, vec![Date { year: 2024, month: 2, day: 29 }]);
}

#[test]
fn diagnosis_codes_of_varied_shape() {
    let data = parse("dx E11.9 and Z99 and M545 and E1192");
    assert_eq!(
        data.diagnosis_codes,
        vec!["E11.9".to_string(), "Z99".to_string(), "M545".to_string()]
    );
}

#[test]
fn payer_priority_follows_the_fixed_list() {
    let data = parse("secondary Cigna, primary Aetna");
    assert_eq!(data.payer.as_deref(), Some("aetna"));
    let data = parse("UNITEDHEALTH only");
    assert_eq!(data.payer.as_deref(), Some("unitedhealth"));
    let data = parse("blue cross member");
    assert_eq!(data.payer.as_deref(), Some("blue cross"));
}

#[test]
fn patient_label_is_case_insensitive_but_name_is_capitalized() {
    let data = parse("PATIENT: Mary Poppins");
    assert_eq!(data.patient_name.as_deref(), Some("Mary Poppins"));
    let data = parse("patient: mary poppins");
    assert_eq!(data.patient_name, None);
}

#[test]
fn patient_name_takes_exactly_two_words_from_first_match() {
    let data = parse("Patient: Ann Lee Smith, Patient: Bob Ray");
    assert_eq!(data.patient_name.as_deref(), Some("Ann Lee"));
}

#[test]
fn provider_name_takes_all_following_capitalized_words() {
    let data = parse("Provider: Mary Jane Watson Parker md");
    assert_eq!(data.provider_name.as_deref(), Some("Mary Jane Watson Parker"));
}

#[test]
fn provider_name_is_first_match_only() {
    let data = parse("Provider: Jane Doe and Provider: John Roe");
    assert_eq!(data.provider_name.as_deref(), Some("Jane Doe"));
}
