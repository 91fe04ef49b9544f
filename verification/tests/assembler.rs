use anaf::ApiError;
use anaf::BalanceIndicator;
use anaf::BalanceRawResponse;
use anaf::BalanceResponse;
use anaf::CompanyBalanceIndicatorKind;
use anaf::DecodeError;
use anaf::EntityKind;
use anaf::NgoBalanceIndicatorKind;
use anaf::RawBalance;

fn record(code: &str, value: isize) -> RawBalance {
    RawBalance { code: code.to_owned(), name: format!("record {}", code), value }
}

fn raw(records: Vec<RawBalance>) -> BalanceRawResponse {
    BalanceRawResponse {
        year: 2022,
        unique_registration_code: 40914732,
        name: "EXAMPLE ENTITY".to_owned(),
        activity_code: 6201,
        activity_name: "Custom software".to_owned(),
        balance: records,
    }
}

#[test]
fn ngo_detection_by_i46() {
    let response =
        BalanceResponse::from_raw(raw(vec![record("I1", 100), record("I46", 4)])).unwrap();
    assert_eq!(response.kind, EntityKind::Ngo);
    assert_eq!(response.year, 2022);
    assert_eq!(response.unique_registration_code, 40914732);
    let key =
        BalanceIndicator::Ngo(NgoBalanceIndicatorKind::PersonnelEffectiveInEconomicActivity);
    let found = response.balance.get(key).unwrap();
    assert_eq!(found.code, "I46");
    assert_eq!(found.value, 4);
    for entry in response.balance.iter() {
        assert!(entry.0.is_ngo());
    }
}

#[test]
fn company_detection_without_i46() {
    let response =
        BalanceResponse::from_raw(raw(vec![record("I13", 5000), record("I18", 1200)])).unwrap();
    assert_eq!(response.kind, EntityKind::Company);
    let profit = BalanceIndicator::Company(CompanyBalanceIndicatorKind::NetProfit);
    let turnover = BalanceIndicator::Company(CompanyBalanceIndicatorKind::NetTurnorver);
    assert_eq!(response.balance.get(profit).unwrap().value, 1200);
    assert_eq!(response.balance.get(turnover).unwrap().value, 5000);
    let keys: Vec<BalanceIndicator> = response.balance.iter().iter().map(|e| e.0).collect();
    assert_eq!(keys, vec![profit, turnover]);
    for entry in response.balance.iter() {
        assert!(entry.0.is_company());
    }
}

#[test]
fn unknown_code_is_a_fatal_decode_error() {
    let err = BalanceResponse::from_raw(raw(vec![record("I1", 1), record("I99", 2)])).unwrap_err();
    assert!(matches!(
        err,
        ApiError::ParseError(DecodeError::UnknownIndicator(code)) if code == "I99"
    ));
}

#[test]
fn company_code_above_twenty_is_unknown() {
    let err = BalanceResponse::from_raw(raw(vec![record("I21", 1)])).unwrap_err();
    assert!(matches!(
        err,
        ApiError::ParseError(DecodeError::UnknownIndicator(code)) if code == "I21"
    ));
}

#[test]
fn code_meaning_is_gated_by_the_marker() {
    // Without I46, I20 is the company's employee count; with it, the NGO's
    // non-profit deficit.
    let company = BalanceResponse::from_raw(raw(vec![record("I20", 12)])).unwrap();
    assert!(company
        .balance
        .get(BalanceIndicator::Company(CompanyBalanceIndicatorKind::AverageNumberOfEmployees))
        .is_some());
    let ngo = BalanceResponse::from_raw(raw(vec![record("I20", 12), record("I46", 1)])).unwrap();
    assert!(ngo
        .balance
        .get(BalanceIndicator::Ngo(NgoBalanceIndicatorKind::DeficitFromNonProfitActivity))
        .is_some());
}

#[test]
fn duplicate_records_keep_the_last() {
    let response =
        BalanceResponse::from_raw(raw(vec![record("I18", 1), record("I18", 2)])).unwrap();
    let key = BalanceIndicator::Company(CompanyBalanceIndicatorKind::NetProfit);
    assert_eq!(response.balance.len(), 1);
    assert_eq!(response.balance.get(key).unwrap().value, 2);
}

#[test]
fn empty_record_set_assembles_an_empty_company_balance() {
    let response = BalanceResponse::from_raw(raw(vec![])).unwrap();
    assert_eq!(response.kind, EntityKind::Company);
    assert!(response.balance.is_empty());
}

#[test]
fn full_ngo_record_set_is_ordered_by_descending_code() {
    let mut records = Vec::new();
    for n in 1u8..=46 {
        records.push(record(&format!("I{}", n), n as isize));
    }
    let response = BalanceResponse::from_raw(raw(records)).unwrap();
    assert_eq!(response.kind, EntityKind::Ngo);
    assert_eq!(response.balance.len(), 46);
    let entries = response.balance.into_inner();
    for (i, entry) in entries.iter().enumerate() {
        assert_eq!(entry.0.ngo().code_index(), 46 - i as u8);
    }
}
