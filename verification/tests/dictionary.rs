use anaf::BalanceIndicator;
use anaf::CompanyBalanceIndicatorKind;
use anaf::NgoBalanceIndicatorKind;

#[test]
fn company_dictionary_is_total_and_distinct() {
    let mut seen = Vec::new();
    for n in 1u8..=20 {
        let code = format!("I{}", n);
        let member = CompanyBalanceIndicatorKind::from_code(&code)
            .unwrap_or_else(|| panic!("company code {} must resolve", code));
        assert!(!seen.contains(&member), "company member for {} repeated", code);
        seen.push(member);
    }
    assert_eq!(seen.len(), 20);
}

#[test]
fn ngo_dictionary_is_total_and_distinct() {
    let mut seen = Vec::new();
    for n in 1u8..=46 {
        let code = format!("I{}", n);
        let member = NgoBalanceIndicatorKind::from_code(&code)
            .unwrap_or_else(|| panic!("NGO code {} must resolve", code));
        assert!(!seen.contains(&member), "NGO member for {} repeated", code);
        seen.push(member);
    }
    assert_eq!(seen.len(), 46);
}

#[test]
fn company_code_round_trip() {
    for n in 1u8..=20 {
        let code = format!("I{}", n);
        let member = CompanyBalanceIndicatorKind::from_code(&code).unwrap();
        assert_eq!(member.code(), code);
        assert_eq!(member.code_index(), n);
    }
}

#[test]
fn ngo_code_round_trip() {
    for n in 1u8..=46 {
        let code = format!("I{}", n);
        let member = NgoBalanceIndicatorKind::from_code(&code).unwrap();
        assert_eq!(member.code(), code);
        assert_eq!(member.code_index(), n);
    }
}

#[test]
fn company_members_by_code() {
    assert_eq!(
        CompanyBalanceIndicatorKind::from_code("I18"),
        Some(CompanyBalanceIndicatorKind::NetProfit)
    );
    assert_eq!(
        CompanyBalanceIndicatorKind::from_code("I13"),
        Some(CompanyBalanceIndicatorKind::NetTurnorver)
    );
    assert_eq!(
        CompanyBalanceIndicatorKind::from_code("I20"),
        Some(CompanyBalanceIndicatorKind::AverageNumberOfEmployees)
    );
    assert_eq!(
        CompanyBalanceIndicatorKind::from_code("I1"),
        Some(CompanyBalanceIndicatorKind::FixedAssets)
    );
    assert_eq!(CompanyBalanceIndicatorKind::from_code("I21"), None);
    assert_eq!(CompanyBalanceIndicatorKind::from_code("I46"), None);
}

#[test]
fn ngo_members_by_code() {
    assert_eq!(
        NgoBalanceIndicatorKind::from_code("I46"),
        Some(NgoBalanceIndicatorKind::PersonnelEffectiveInEconomicActivity)
    );
    assert_eq!(
        NgoBalanceIndicatorKind::from_code("I20"),
        Some(NgoBalanceIndicatorKind::DeficitFromNonProfitActivity)
    );
    assert_eq!(
        NgoBalanceIndicatorKind::from_code("I13"),
        Some(NgoBalanceIndicatorKind::IncomeFromNonProfitActivityProjection)
    );
    assert_eq!(
        NgoBalanceIndicatorKind::from_code("I31"),
        Some(NgoBalanceIndicatorKind::ExpendituresForEconomicActivityProjection)
    );
    assert_eq!(NgoBalanceIndicatorKind::from_code("I47"), None);
}

#[test]
fn malformed_codes_are_rejected() {
    assert_eq!(CompanyBalanceIndicatorKind::from_code(""), None);
    assert_eq!(CompanyBalanceIndicatorKind::from_code("I"), None);
    assert_eq!(CompanyBalanceIndicatorKind::from_code("I0"), None);
    assert_eq!(CompanyBalanceIndicatorKind::from_code("I01"), None);
    assert_eq!(CompanyBalanceIndicatorKind::from_code("18"), None);
    assert_eq!(CompanyBalanceIndicatorKind::from_code("J18"), None);
    assert_eq!(CompanyBalanceIndicatorKind::from_code("I18x"), None);
    assert_eq!(NgoBalanceIndicatorKind::from_code("I046"), None);
    assert_eq!(NgoBalanceIndicatorKind::from_code("Iab"), None);
}

#[test]
fn member_names_are_english() {
    assert_eq!(CompanyBalanceIndicatorKind::NetProfit.name(), "NetProfit");
    assert_eq!(
        CompanyBalanceIndicatorKind::AverageNumberOfEmployees.name(),
        "AverageNumberOfEmployees"
    );
    assert_eq!(
        NgoBalanceIndicatorKind::PersonnelEffectiveInEconomicActivity.name(),
        "PersonnelEffectiveInEconomicActivity"
    );
    assert_eq!(
        BalanceIndicator::Company(CompanyBalanceIndicatorKind::NetProfit).name(),
        "NetProfit"
    );
    assert_eq!(
        BalanceIndicator::Ngo(NgoBalanceIndicatorKind::FixedAssetsTotal).name(),
        "FixedAssetsTotal"
    );
}

#[test]
fn indicator_arms_and_unwrapping() {
    let c = BalanceIndicator::Company(CompanyBalanceIndicatorKind::Debt);
    let n = BalanceIndicator::Ngo(NgoBalanceIndicatorKind::Provisions);
    assert!(c.is_company());
    assert!(!c.is_ngo());
    assert!(n.is_ngo());
    assert!(!n.is_company());
    assert_eq!(c.company(), CompanyBalanceIndicatorKind::Debt);
    assert_eq!(n.ngo(), NgoBalanceIndicatorKind::Provisions);
}

#[test]
fn rank_orders_company_before_ngo_in_declaration_order() {
    let first = BalanceIndicator::Company(CompanyBalanceIndicatorKind::AverageNumberOfEmployees);
    let last_company = BalanceIndicator::Company(CompanyBalanceIndicatorKind::FixedAssets);
    let first_ngo =
        BalanceIndicator::Ngo(NgoBalanceIndicatorKind::PersonnelEffectiveInEconomicActivity);
    let last = BalanceIndicator::Ngo(NgoBalanceIndicatorKind::FixedAssetsTotal);
    assert_eq!(first.rank_value(), 0);
    assert_eq!(last_company.rank_value(), 19);
    assert_eq!(first_ngo.rank_value(), 20);
    assert_eq!(last.rank_value(), 65);
}
