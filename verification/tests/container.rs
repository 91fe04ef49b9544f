use anaf::Balance;
use anaf::BalanceIndicator;
use anaf::CompanyBalanceIndicatorKind;
use anaf::RawBalance;

fn record(code: &str, value: isize) -> RawBalance {
    RawBalance { code: code.to_owned(), name: format!("record {}", code), value }
}

fn company(kind: CompanyBalanceIndicatorKind) -> BalanceIndicator {
    BalanceIndicator::Company(kind)
}

#[test]
fn empty_container() {
    let b = Balance::new();
    assert_eq!(b.len(), 0);
    assert!(b.is_empty());
    assert!(b.get(company(CompanyBalanceIndicatorKind::Debt)).is_none());
}

#[test]
fn insert_and_get() {
    let mut b = Balance::new();
    b.insert(company(CompanyBalanceIndicatorKind::NetProfit), record("I18", 1200));
    b.insert(company(CompanyBalanceIndicatorKind::Debt), record("I4", -7));
    assert_eq!(b.len(), 2);
    assert!(!b.is_empty());
    let got = b.get(company(CompanyBalanceIndicatorKind::NetProfit)).unwrap();
    assert_eq!(got.code, "I18");
    assert_eq!(got.value, 1200);
    assert!(b.get(company(CompanyBalanceIndicatorKind::NetLoss)).is_none());
}

#[test]
fn insert_repeated_key_keeps_last_write() {
    let mut b = Balance::new();
    b.insert(company(CompanyBalanceIndicatorKind::NetProfit), record("I18", 1));
    b.insert(company(CompanyBalanceIndicatorKind::NetProfit), record("I18", 2));
    assert_eq!(b.len(), 1);
    assert_eq!(b.get(company(CompanyBalanceIndicatorKind::NetProfit)).unwrap().value, 2);
}

#[test]
fn iteration_is_in_dictionary_order_not_insertion_order() {
    let mut b = Balance::new();
    b.insert(company(CompanyBalanceIndicatorKind::FixedAssets), record("I1", 10));
    b.insert(company(CompanyBalanceIndicatorKind::AverageNumberOfEmployees), record("I20", 3));
    b.insert(company(CompanyBalanceIndicatorKind::NetProfit), record("I18", 99));
    let keys: Vec<BalanceIndicator> = b.iter().iter().map(|e| e.0).collect();
    assert_eq!(
        keys,
        vec![
            company(CompanyBalanceIndicatorKind::AverageNumberOfEmployees),
            company(CompanyBalanceIndicatorKind::NetProfit),
            company(CompanyBalanceIndicatorKind::FixedAssets),
        ]
    );
}

#[test]
fn remove_returns_the_stored_record() {
    let mut b = Balance::new();
    b.insert(company(CompanyBalanceIndicatorKind::Debt), record("I4", 5));
    b.insert(company(CompanyBalanceIndicatorKind::Inventories), record("I3", 6));
    let removed = b.remove(company(CompanyBalanceIndicatorKind::Debt)).unwrap();
    assert_eq!(removed.code, "I4");
    assert_eq!(removed.value, 5);
    assert_eq!(b.len(), 1);
    assert!(b.remove(company(CompanyBalanceIndicatorKind::Debt)).is_none());
}

#[test]
fn get_mut_updates_in_place() {
    let mut b = Balance::new();
    b.insert(company(CompanyBalanceIndicatorKind::Debt), record("I4", 5));
    {
        let r = b.get_mut(company(CompanyBalanceIndicatorKind::Debt)).unwrap();
        r.value = 55;
    }
    assert_eq!(b.get(company(CompanyBalanceIndicatorKind::Debt)).unwrap().value, 55);
    assert!(b.get_mut(company(CompanyBalanceIndicatorKind::NetLoss)).is_none());
}

#[test]
fn into_inner_hands_the_ordered_entries_out() {
    let mut b = Balance::new();
    b.insert(company(CompanyBalanceIndicatorKind::NetTurnorver), record("I13", 8));
    b.insert(company(CompanyBalanceIndicatorKind::NetProfit), record("I18", 9));
    let entries = b.clone().into_inner();
    assert_eq!(entries.len(), 2);
    assert_eq!(entries[0].0, company(CompanyBalanceIndicatorKind::NetProfit));
    assert_eq!(entries[1].0, company(CompanyBalanceIndicatorKind::NetTurnorver));
    assert_eq!(b.len(), 2);
}
