use vstd::prelude::*;

use crate::text::char_digit;
use crate::text::dec_rep;
use crate::text::digit_char;
use crate::text::digit_of;
use crate::text::lemma_char_digit_char;
use crate::text::lemma_dec_rep_two_digits;
use crate::text::lemma_digit_char_value;
use crate::text::render_dec;

verus! {

/// The wire form of the indicator code with numeric part `n`: the letter
/// `I` followed by `n` in decimal without leading zeros.
pub open spec fn spec_code(n: nat) -> Seq<char> {
    seq!['I'] + dec_rep(n)
}

/// The numeric part a character sequence denotes, if it is a canonical code
/// of at most two digits: `I`, then one or two decimal digits, the first one
/// nonzero.
pub open spec fn spec_code_value(s: Seq<char>) -> Option<nat> {
    if s.len() == 2 && s[0] == 'I' {
        match char_digit(s[1]) {
            Some(d) => if 1 <= d {
                Some(d)
            } else {
                None
            },
            None => None,
        }
    } else if s.len() == 3 && s[0] == 'I' {
        match (char_digit(s[1]), char_digit(s[2])) {
            (Some(d1), Some(d2)) => if 1 <= d1 {
                Some(10 * d1 + d2)
            } else {
                None
            },
            _ => None,
        }
    } else {
        None
    }
}

/// Reading a rendered code back gives the numeric part, for codes under 100.
pub proof fn lemma_code_value_of_code(n: nat)
    requires
        1 <= n < 100,
    ensures
        spec_code_value(spec_code(n)) == Some(n),
{
    if n < 10 {
        assert(dec_rep(n) == seq![digit_char(n)]);
        assert(spec_code(n) =~= seq!['I', digit_char(n)]);
        lemma_digit_char_value(n);
        assert(spec_code(n)[1] == digit_char(n));
    } else {
        lemma_dec_rep_two_digits(n);
        assert(spec_code(n) =~= seq!['I', digit_char(n / 10), digit_char(n % 10)]);
        lemma_digit_char_value(n / 10);
        lemma_digit_char_value(n % 10);
        assert(10 * (n / 10) + n % 10 == n);
    }
}

/// A sequence with a code value is exactly the rendering of that value.
pub proof fn lemma_code_of_code_value(s: Seq<char>)
    ensures
        spec_code_value(s) matches Some(n) ==> 1 <= n < 100 && s == spec_code(n),
{
    match spec_code_value(s) {
        Some(n) => {
            if s.len() == 2 {
                match char_digit(s[1]) {
                    Some(d) => {
                        lemma_char_digit_char(s[1]);
                        assert(spec_code(n) =~= s);
                    },
                    None => {},
                }
            } else {
                match (char_digit(s[1]), char_digit(s[2])) {
                    (Some(d1), Some(d2)) => {
                        lemma_char_digit_char(s[1]);
                        lemma_char_digit_char(s[2]);
                        assert(n == 10 * d1 + d2);
                        assert(n / 10 == d1 && n % 10 == d2);
                        lemma_dec_rep_two_digits(n);
                        assert(spec_code(n) =~= s);
                    },
                    _ => {},
                }
            }
        },
        None => {},
    }
}

/// Distinct numeric parts render as distinct codes, under 100.
pub proof fn lemma_code_injective(m: nat, n: nat)
    requires
        1 <= m < 100,
        1 <= n < 100,
        spec_code(m) == spec_code(n),
    ensures
        m == n,
{
    lemma_code_value_of_code(m);
    lemma_code_value_of_code(n);
}

/// Parses a wire code of the form `I<n>`, `1 <= n <= 99`, canonical form
/// only (no leading zeros).
pub fn parse_code(s: &str) -> (r: Option<u8>)
    ensures
        r matches Some(n) ==> spec_code_value(s@) == Some(n as nat),
        r is None ==> spec_code_value(s@) is None,
{
    let len = s.unicode_len();
    if len < 2 || len > 3 {
        return None;
    }
    if s.get_char(0) != 'I' {
        return None;
    }
    let d1 = match digit_of(s.get_char(1)) {
        Some(d) => d,
        None => {
            return None;
        },
    };
    if d1 == 0 {
        return None;
    }
    proof {
        lemma_char_digit_char(s@[1]);
    }
    if len == 2 {
        return Some(d1);
    }
    let d2 = match digit_of(s.get_char(2)) {
        Some(d) => d,
        None => {
            return None;
        },
    };
    proof {
        lemma_char_digit_char(s@[2]);
    }
    Some(10 * d1 + d2)
}

/// Renders the wire code with numeric part `n` (`18` -> `"I18"`).
pub fn code_string(n: u8) -> (r: String)
    ensures
        r@ == spec_code(n as nat),
{
    let mut r = String::from_str("I");
    proof {
        reveal_strlit("I");
        assert("I"@ =~= seq!['I']);
    }
    let digits = render_dec(n as usize);
    r.append(digits.as_str());
    proof {
        assert(r@ =~= spec_code(n as nat));
    }
    r
}

/// A line item of a commercial company's balance sheet, one member per wire code
/// `I1`..`I20`, declared in descending code order (the dictionary's total
/// order).
#[derive(Debug, Clone, Copy, PartialEq, Eq, PartialOrd, Ord, Hash, Structural)]
pub enum CompanyBalanceIndicatorKind {
    AverageNumberOfEmployees,
    NetLoss,
    NetProfit,
    GrossLoss,
    GrossProfit,
    TotalExpenditures,
    TotalIncome,
    NetTurnorver,
    HeritageOfTheKingdom,
    PaidSubscribedCapital,
    CapitalTotal,
    Provisions,
    IncomeInAdvance,
    Liabilities,
    PrePayments,
    CashAndBankAccounts,
    Debt,
    Inventories,
    CurrentAssets,
    FixedAssets,
}

impl CompanyBalanceIndicatorKind {
    /// The numeric part of the member's wire code (`I18` -> 18).
    pub open spec fn index(self) -> nat {
        match self {
            CompanyBalanceIndicatorKind::AverageNumberOfEmployees => 20,
            CompanyBalanceIndicatorKind::NetLoss => 19,
            CompanyBalanceIndicatorKind::NetProfit => 18,
            CompanyBalanceIndicatorKind::GrossLoss => 17,
            CompanyBalanceIndicatorKind::GrossProfit => 16,
            CompanyBalanceIndicatorKind::TotalExpenditures => 15,
            CompanyBalanceIndicatorKind::TotalIncome => 14,
            CompanyBalanceIndicatorKind::NetTurnorver => 13,
            CompanyBalanceIndicatorKind::HeritageOfTheKingdom => 12,
            CompanyBalanceIndicatorKind::PaidSubscribedCapital => 11,
            CompanyBalanceIndicatorKind::CapitalTotal => 10,
            CompanyBalanceIndicatorKind::Provisions => 9,
            CompanyBalanceIndicatorKind::IncomeInAdvance => 8,
            CompanyBalanceIndicatorKind::Liabilities => 7,
            CompanyBalanceIndicatorKind::PrePayments => 6,
            CompanyBalanceIndicatorKind::CashAndBankAccounts => 5,
            CompanyBalanceIndicatorKind::Debt => 4,
            CompanyBalanceIndicatorKind::Inventories => 3,
            CompanyBalanceIndicatorKind::CurrentAssets => 2,
            CompanyBalanceIndicatorKind::FixedAssets => 1,
        }
    }

    /// The member whose wire code has numeric part `n`; meaningful for
    /// `1 <= n <= 20`.
    pub open spec fn of_index(n: nat) -> Self {
        if n == 20 {
            CompanyBalanceIndicatorKind::AverageNumberOfEmployees
        } else if n == 19 {
            CompanyBalanceIndicatorKind::NetLoss
        } else if n == 18 {
            CompanyBalanceIndicatorKind::NetProfit
        } else if n == 17 {
            CompanyBalanceIndicatorKind::GrossLoss
        } else if n == 16 {
            CompanyBalanceIndicatorKind::GrossProfit
        } else if n == 15 {
            CompanyBalanceIndicatorKind::TotalExpenditures
        } else if n == 14 {
            CompanyBalanceIndicatorKind::TotalIncome
        } else if n == 13 {
            CompanyBalanceIndicatorKind::NetTurnorver
        } else if n == 12 {
            CompanyBalanceIndicatorKind::HeritageOfTheKingdom
        } else if n == 11 {
            CompanyBalanceIndicatorKind::PaidSubscribedCapital
        } else if n == 10 {
            CompanyBalanceIndicatorKind::CapitalTotal
        } else if n == 9 {
            CompanyBalanceIndicatorKind::Provisions
        } else if n == 8 {
            CompanyBalanceIndicatorKind::IncomeInAdvance
        } else if n == 7 {
            CompanyBalanceIndicatorKind::Liabilities
        } else if n == 6 {
            CompanyBalanceIndicatorKind::PrePayments
        } else if n == 5 {
            CompanyBalanceIndicatorKind::CashAndBankAccounts
        } else if n == 4 {
            CompanyBalanceIndicatorKind::Debt
        } else if n == 3 {
            CompanyBalanceIndicatorKind::Inventories
        } else if n == 2 {
            CompanyBalanceIndicatorKind::CurrentAssets
        } else {
            CompanyBalanceIndicatorKind::FixedAssets
        }
    }

    /// Looks a member up by the numeric part of its wire code.
    pub fn from_index(n: u8) -> (r: Option<Self>)
        ensures
            r is Some <==> 1 <= n <= 20,
            r matches Some(k) ==> k == Self::of_index(n as nat),
    {
        match n {
            20 => Some(CompanyBalanceIndicatorKind::AverageNumberOfEmployees),
            19 => Some(CompanyBalanceIndicatorKind::NetLoss),
            18 => Some(CompanyBalanceIndicatorKind::NetProfit),
            17 => Some(CompanyBalanceIndicatorKind::GrossLoss),
            16 => Some(CompanyBalanceIndicatorKind::GrossProfit),
            15 => Some(CompanyBalanceIndicatorKind::TotalExpenditures),
            14 => Some(CompanyBalanceIndicatorKind::TotalIncome),
            13 => Some(CompanyBalanceIndicatorKind::NetTurnorver),
            12 => Some(CompanyBalanceIndicatorKind::HeritageOfTheKingdom),
            11 => Some(CompanyBalanceIndicatorKind::PaidSubscribedCapital),
            10 => Some(CompanyBalanceIndicatorKind::CapitalTotal),
            9 => Some(CompanyBalanceIndicatorKind::Provisions),
            8 => Some(CompanyBalanceIndicatorKind::IncomeInAdvance),
            7 => Some(CompanyBalanceIndicatorKind::Liabilities),
            6 => Some(CompanyBalanceIndicatorKind::PrePayments),
            5 => Some(CompanyBalanceIndicatorKind::CashAndBankAccounts),
            4 => Some(CompanyBalanceIndicatorKind::Debt),
            3 => Some(CompanyBalanceIndicatorKind::Inventories),
            2 => Some(CompanyBalanceIndicatorKind::CurrentAssets),
            1 => Some(CompanyBalanceIndicatorKind::FixedAssets),
            _ => None,
        }
    }

    /// The numeric part of the member's wire code, executable.
    pub fn code_index(&self) -> (r: u8)
        ensures
            r as nat == self.index(),
    {
        match self {
            CompanyBalanceIndicatorKind::AverageNumberOfEmployees => 20,
            CompanyBalanceIndicatorKind::NetLoss => 19,
            CompanyBalanceIndicatorKind::NetProfit => 18,
            CompanyBalanceIndicatorKind::GrossLoss => 17,
            CompanyBalanceIndicatorKind::GrossProfit => 16,
            CompanyBalanceIndicatorKind::TotalExpenditures => 15,
            CompanyBalanceIndicatorKind::TotalIncome => 14,
            CompanyBalanceIndicatorKind::NetTurnorver => 13,
            CompanyBalanceIndicatorKind::HeritageOfTheKingdom => 12,
            CompanyBalanceIndicatorKind::PaidSubscribedCapital => 11,
            CompanyBalanceIndicatorKind::CapitalTotal => 10,
            CompanyBalanceIndicatorKind::Provisions => 9,
            CompanyBalanceIndicatorKind::IncomeInAdvance => 8,
            CompanyBalanceIndicatorKind::Liabilities => 7,
            CompanyBalanceIndicatorKind::PrePayments => 6,
            CompanyBalanceIndicatorKind::CashAndBankAccounts => 5,
            CompanyBalanceIndicatorKind::Debt => 4,
            CompanyBalanceIndicatorKind::Inventories => 3,
            CompanyBalanceIndicatorKind::CurrentAssets => 2,
            CompanyBalanceIndicatorKind::FixedAssets => 1,
        }
    }

    /// The member's English name.
    pub open spec fn spec_name(self) -> Seq<char> {
        match self {
            CompanyBalanceIndicatorKind::AverageNumberOfEmployees => "AverageNumberOfEmployees"@,
            CompanyBalanceIndicatorKind::NetLoss => "NetLoss"@,
            CompanyBalanceIndicatorKind::NetProfit => "NetProfit"@,
            CompanyBalanceIndicatorKind::GrossLoss => "GrossLoss"@,
            CompanyBalanceIndicatorKind::GrossProfit => "GrossProfit"@,
            CompanyBalanceIndicatorKind::TotalExpenditures => "TotalExpenditures"@,
            CompanyBalanceIndicatorKind::TotalIncome => "TotalIncome"@,
            CompanyBalanceIndicatorKind::NetTurnorver => "NetTurnorver"@,
            CompanyBalanceIndicatorKind::HeritageOfTheKingdom => "HeritageOfTheKingdom"@,
            CompanyBalanceIndicatorKind::PaidSubscribedCapital => "PaidSubscribedCapital"@,
            CompanyBalanceIndicatorKind::CapitalTotal => "CapitalTotal"@,
            CompanyBalanceIndicatorKind::Provisions => "Provisions"@,
            CompanyBalanceIndicatorKind::IncomeInAdvance => "IncomeInAdvance"@,
            CompanyBalanceIndicatorKind::Liabilities => "Liabilities"@,
            CompanyBalanceIndicatorKind::PrePayments => "PrePayments"@,
            CompanyBalanceIndicatorKind::CashAndBankAccounts => "CashAndBankAccounts"@,
            CompanyBalanceIndicatorKind::Debt => "Debt"@,
            CompanyBalanceIndicatorKind::Inventories => "Inventories"@,
            CompanyBalanceIndicatorKind::CurrentAssets => "CurrentAssets"@,
            CompanyBalanceIndicatorKind::FixedAssets => "FixedAssets"@,
        }
    }

    /// The member's English name, used as the serialization key.
    pub fn name(&self) -> (r: String)
        ensures
            r@ == self.spec_name(),
    {
        match self {
            CompanyBalanceIndicatorKind::AverageNumberOfEmployees => String::from_str("AverageNumberOfEmployees"),
            CompanyBalanceIndicatorKind::NetLoss => String::from_str("NetLoss"),
            CompanyBalanceIndicatorKind::NetProfit => String::from_str("NetProfit"),
            CompanyBalanceIndicatorKind::GrossLoss => String::from_str("GrossLoss"),
            CompanyBalanceIndicatorKind::GrossProfit => String::from_str("GrossProfit"),
            CompanyBalanceIndicatorKind::TotalExpenditures => String::from_str("TotalExpenditures"),
            CompanyBalanceIndicatorKind::TotalIncome => String::from_str("TotalIncome"),
            CompanyBalanceIndicatorKind::NetTurnorver => String::from_str("NetTurnorver"),
            CompanyBalanceIndicatorKind::HeritageOfTheKingdom => String::from_str("HeritageOfTheKingdom"),
            CompanyBalanceIndicatorKind::PaidSubscribedCapital => String::from_str("PaidSubscribedCapital"),
            CompanyBalanceIndicatorKind::CapitalTotal => String::from_str("CapitalTotal"),
            CompanyBalanceIndicatorKind::Provisions => String::from_str("Provisions"),
            CompanyBalanceIndicatorKind::IncomeInAdvance => String::from_str("IncomeInAdvance"),
            CompanyBalanceIndicatorKind::Liabilities => String::from_str("Liabilities"),
            CompanyBalanceIndicatorKind::PrePayments => String::from_str("PrePayments"),
            CompanyBalanceIndicatorKind::CashAndBankAccounts => String::from_str("CashAndBankAccounts"),
            CompanyBalanceIndicatorKind::Debt => String::from_str("Debt"),
            CompanyBalanceIndicatorKind::Inventories => String::from_str("Inventories"),
            CompanyBalanceIndicatorKind::CurrentAssets => String::from_str("CurrentAssets"),
            CompanyBalanceIndicatorKind::FixedAssets => String::from_str("FixedAssets"),
        }
    }

    /// The member's wire code string (`"I18"`).
    pub fn code(&self) -> (r: String)
        ensures
            r@ == spec_code(self.index()),
    {
        code_string(self.code_index())
    }

    /// Resolves a wire code to the dictionary member it denotes; `None`
    /// when the code denotes no member of this dictionary.
    pub fn from_code(code: &str) -> (r: Option<Self>)
        ensures
            r matches Some(k) ==> code@ == spec_code(k.index()),
            r is None ==> forall|n: nat| 1 <= n <= 20 ==> code@ != spec_code(n),
    {
        match parse_code(code) {
            Some(n) => {
                if 1 <= n && n <= 20 {
                    proof {
                        lemma_code_of_code_value(code@);
                        lemma_company_index_of_index(n as nat);
                    }
                    Self::from_index(n)
                } else {
                    proof {
                        lemma_code_of_code_value(code@);
                        assert forall|m: nat| 1 <= m <= 20 implies code@ != spec_code(m) by {
                            if code@ == spec_code(m) {
                                lemma_code_injective(m, n as nat);
                            }
                        }
                    }
                    None
                }
            },
            None => {
                proof {
                    assert forall|m: nat| 1 <= m <= 20 implies code@ != spec_code(m) by {
                        if code@ == spec_code(m) {
                            lemma_code_value_of_code(m);
                        }
                    }
                }
                None
            },
        }
    }
}

/// Looking a valid index up yields a member carrying that index.
pub proof fn lemma_company_index_of_index(n: nat)
    requires
        1 <= n <= 20,
    ensures
        CompanyBalanceIndicatorKind::of_index(n).index() == n,
{
}

/// A member is recovered from its own index.
pub proof fn lemma_company_of_index_of(k: CompanyBalanceIndicatorKind)
    ensures
        CompanyBalanceIndicatorKind::of_index(k.index()) == k,
        1 <= k.index() <= 20,
{
}

/// A line item of a non-profit organization's balance sheet, one member per wire code
/// `I1`..`I46`, declared in descending code order (the dictionary's total
/// order).
#[derive(Debug, Clone, Copy, PartialEq, Eq, PartialOrd, Ord, Hash, Structural)]
pub enum NgoBalanceIndicatorKind {
    PersonnelEffectiveInEconomicActivity,
    PersonnelEffectiveInNonProfitActivity,
    DeficitOrLoss,
    DeficitOrLossProjection,
    SurplusOrProfit,
    SurplusOrProfitProjection,
    TotalExpenditures,
    TotalExpendituresProjection,
    TotalIncome,
    TotalIncomeProjection,
    LossFromEconomicActivity,
    LossFromEconomicActivityProjection,
    ProfitFromEconomicActivity,
    ProfitFromEconomicActivityProjection,
    ExpendituresForEconomicActivity,
    ExpendituresForEconomicActivityProjection,
    IncomeFromEconomicActivity,
    IncomeFromEconomicActivityProjection,
    LossFromSpecialPurposesActivity,
    LossFromSpecialPurposesActivityProjection,
    SurplusFromSpecialPurposesActivity,
    SurplusFromSpecialPurposesActivityProjection,
    ExpendituresForSpecialPurposesActivity,
    ExpendituresForSpecialPurposesActivityProjection,
    IncomeFromSpecialPurposesActivity,
    IncomeFromSpecialPurposesActivityProjection,
    DeficitFromNonProfitActivity,
    DeficitFromNonProfitActivityProjection,
    SurplusFromNonProfitActivity,
    SurplusFromNonProfitActivityProjection,
    ExpendituresForNonProfitActivity,
    ExpendituresForNonProfitActivityProjection,
    IncomeFromNonProfitActivity,
    IncomeFromNonProfitActivityProjection,
    CapitalTotal,
    FundsForNonProfitActivities,
    OwnedCapitalTotal,
    IncomeInAdvance,
    Provisions,
    LiabilitiesToBePaidInMoreThanOneYear,
    TotalAssetsMinusCurrentLiabilities,
    NetCurrentAssetsAndNetCurrentLiabilities,
    LiabilitiesToBePaidInLessThanOneYear,
    PrePayments,
    CurrentAssetsTotal,
    FixedAssetsTotal,
}

impl NgoBalanceIndicatorKind {
    /// The numeric part of the member's wire code (`I18` -> 18).
    pub open spec fn index(self) -> nat {
        match self {
            NgoBalanceIndicatorKind::PersonnelEffectiveInEconomicActivity => 46,
            NgoBalanceIndicatorKind::PersonnelEffectiveInNonProfitActivity => 45,
            NgoBalanceIndicatorKind::DeficitOrLoss => 44,
            NgoBalanceIndicatorKind::DeficitOrLossProjection => 43,
            NgoBalanceIndicatorKind::SurplusOrProfit => 42,
            NgoBalanceIndicatorKind::SurplusOrProfitProjection => 41,
            NgoBalanceIndicatorKind::TotalExpenditures => 40,
            NgoBalanceIndicatorKind::TotalExpendituresProjection => 39,
            NgoBalanceIndicatorKind::TotalIncome => 38,
            NgoBalanceIndicatorKind::TotalIncomeProjection => 37,
            NgoBalanceIndicatorKind::LossFromEconomicActivity => 36,
            NgoBalanceIndicatorKind::LossFromEconomicActivityProjection => 35,
            NgoBalanceIndicatorKind::ProfitFromEconomicActivity => 34,
            NgoBalanceIndicatorKind::ProfitFromEconomicActivityProjection => 33,
            NgoBalanceIndicatorKind::ExpendituresForEconomicActivity => 32,
            NgoBalanceIndicatorKind::ExpendituresForEconomicActivityProjection => 31,
            NgoBalanceIndicatorKind::IncomeFromEconomicActivity => 30,
            NgoBalanceIndicatorKind::IncomeFromEconomicActivityProjection => 29,
            NgoBalanceIndicatorKind::LossFromSpecialPurposesActivity => 28,
            NgoBalanceIndicatorKind::LossFromSpecialPurposesActivityProjection => 27,
            NgoBalanceIndicatorKind::SurplusFromSpecialPurposesActivity => 26,
            NgoBalanceIndicatorKind::SurplusFromSpecialPurposesActivityProjection => 25,
            NgoBalanceIndicatorKind::ExpendituresForSpecialPurposesActivity => 24,
            NgoBalanceIndicatorKind::ExpendituresForSpecialPurposesActivityProjection => 23,
            NgoBalanceIndicatorKind::IncomeFromSpecialPurposesActivity => 22,
            NgoBalanceIndicatorKind::IncomeFromSpecialPurposesActivityProjection => 21,
            NgoBalanceIndicatorKind::DeficitFromNonProfitActivity => 20,
            NgoBalanceIndicatorKind::DeficitFromNonProfitActivityProjection => 19,
            NgoBalanceIndicatorKind::SurplusFromNonProfitActivity => 18,
            NgoBalanceIndicatorKind::SurplusFromNonProfitActivityProjection => 17,
            NgoBalanceIndicatorKind::ExpendituresForNonProfitActivity => 16,
            NgoBalanceIndicatorKind::ExpendituresForNonProfitActivityProjection => 15,
            NgoBalanceIndicatorKind::IncomeFromNonProfitActivity => 14,
            NgoBalanceIndicatorKind::IncomeFromNonProfitActivityProjection => 13,
            NgoBalanceIndicatorKind::CapitalTotal => 12,
            NgoBalanceIndicatorKind::FundsForNonProfitActivities => 11,
            NgoBalanceIndicatorKind::OwnedCapitalTotal => 10,
            NgoBalanceIndicatorKind::IncomeInAdvance => 9,
            NgoBalanceIndicatorKind::Provisions => 8,
            NgoBalanceIndicatorKind::LiabilitiesToBePaidInMoreThanOneYear => 7,
            NgoBalanceIndicatorKind::TotalAssetsMinusCurrentLiabilities => 6,
            NgoBalanceIndicatorKind::NetCurrentAssetsAndNetCurrentLiabilities => 5,
            NgoBalanceIndicatorKind::LiabilitiesToBePaidInLessThanOneYear => 4,
            NgoBalanceIndicatorKind::PrePayments => 3,
            NgoBalanceIndicatorKind::CurrentAssetsTotal => 2,
            NgoBalanceIndicatorKind::FixedAssetsTotal => 1,
        }
    }

    /// The member whose wire code has numeric part `n`; meaningful for
    /// `1 <= n <= 46`.
    pub open spec fn of_index(n: nat) -> Self {
        if n == 46 {
            NgoBalanceIndicatorKind::PersonnelEffectiveInEconomicActivity
        } else if n == 45 {
            NgoBalanceIndicatorKind::PersonnelEffectiveInNonProfitActivity
        } else if n == 44 {
            NgoBalanceIndicatorKind::DeficitOrLoss
        } else if n == 43 {
            NgoBalanceIndicatorKind::DeficitOrLossProjection
        } else if n == 42 {
            NgoBalanceIndicatorKind::SurplusOrProfit
        } else if n == 41 {
            NgoBalanceIndicatorKind::SurplusOrProfitProjection
        } else if n == 40 {
            NgoBalanceIndicatorKind::TotalExpenditures
        } else if n == 39 {
            NgoBalanceIndicatorKind::TotalExpendituresProjection
        } else if n == 38 {
            NgoBalanceIndicatorKind::TotalIncome
        } else if n == 37 {
            NgoBalanceIndicatorKind::TotalIncomeProjection
        } else if n == 36 {
            NgoBalanceIndicatorKind::LossFromEconomicActivity
        } else if n == 35 {
            NgoBalanceIndicatorKind::LossFromEconomicActivityProjection
        } else if n == 34 {
            NgoBalanceIndicatorKind::ProfitFromEconomicActivity
        } else if n == 33 {
            NgoBalanceIndicatorKind::ProfitFromEconomicActivityProjection
        } else if n == 32 {
            NgoBalanceIndicatorKind::ExpendituresForEconomicActivity
        } else if n == 31 {
            NgoBalanceIndicatorKind::ExpendituresForEconomicActivityProjection
        } else if n == 30 {
            NgoBalanceIndicatorKind::IncomeFromEconomicActivity
        } else if n == 29 {
            NgoBalanceIndicatorKind::IncomeFromEconomicActivityProjection
        } else if n == 28 {
            NgoBalanceIndicatorKind::LossFromSpecialPurposesActivity
        } else if n == 27 {
            NgoBalanceIndicatorKind::LossFromSpecialPurposesActivityProjection
        } else if n == 26 {
            NgoBalanceIndicatorKind::SurplusFromSpecialPurposesActivity
        } else if n == 25 {
            NgoBalanceIndicatorKind::SurplusFromSpecialPurposesActivityProjection
        } else if n == 24 {
            NgoBalanceIndicatorKind::ExpendituresForSpecialPurposesActivity
        } else if n == 23 {
            NgoBalanceIndicatorKind::ExpendituresForSpecialPurposesActivityProjection
        } else if n == 22 {
            NgoBalanceIndicatorKind::IncomeFromSpecialPurposesActivity
        } else if n == 21 {
            NgoBalanceIndicatorKind::IncomeFromSpecialPurposesActivityProjection
        } else if n == 20 {
            NgoBalanceIndicatorKind::DeficitFromNonProfitActivity
        } else if n == 19 {
            NgoBalanceIndicatorKind::DeficitFromNonProfitActivityProjection
        } else if n == 18 {
            NgoBalanceIndicatorKind::SurplusFromNonProfitActivity
        } else if n == 17 {
            NgoBalanceIndicatorKind::SurplusFromNonProfitActivityProjection
        } else if n == 16 {
            NgoBalanceIndicatorKind::ExpendituresForNonProfitActivity
        } else if n == 15 {
            NgoBalanceIndicatorKind::ExpendituresForNonProfitActivityProjection
        } else if n == 14 {
            NgoBalanceIndicatorKind::IncomeFromNonProfitActivity
        } else if n == 13 {
            NgoBalanceIndicatorKind::IncomeFromNonProfitActivityProjection
        } else if n == 12 {
            NgoBalanceIndicatorKind::CapitalTotal
        } else if n == 11 {
            NgoBalanceIndicatorKind::FundsForNonProfitActivities
        } else if n == 10 {
            NgoBalanceIndicatorKind::OwnedCapitalTotal
        } else if n == 9 {
            NgoBalanceIndicatorKind::IncomeInAdvance
        } else if n == 8 {
            NgoBalanceIndicatorKind::Provisions
        } else if n == 7 {
            NgoBalanceIndicatorKind::LiabilitiesToBePaidInMoreThanOneYear
        } else if n == 6 {
            NgoBalanceIndicatorKind::TotalAssetsMinusCurrentLiabilities
        } else if n == 5 {
            NgoBalanceIndicatorKind::NetCurrentAssetsAndNetCurrentLiabilities
        } else if n == 4 {
            NgoBalanceIndicatorKind::LiabilitiesToBePaidInLessThanOneYear
        } else if n == 3 {
            NgoBalanceIndicatorKind::PrePayments
        } else if n == 2 {
            NgoBalanceIndicatorKind::CurrentAssetsTotal
        } else {
            NgoBalanceIndicatorKind::FixedAssetsTotal
        }
    }

    /// Looks a member up by the numeric part of its wire code.
    pub fn from_index(n: u8) -> (r: Option<Self>)
        ensures
            r is Some <==> 1 <= n <= 46,
            r matches Some(k) ==> k == Self::of_index(n as nat),
    {
        match n {
            46 => Some(NgoBalanceIndicatorKind::PersonnelEffectiveInEconomicActivity),
            45 => Some(NgoBalanceIndicatorKind::PersonnelEffectiveInNonProfitActivity),
            44 => Some(NgoBalanceIndicatorKind::DeficitOrLoss),
            43 => Some(NgoBalanceIndicatorKind::DeficitOrLossProjection),
            42 => Some(NgoBalanceIndicatorKind::SurplusOrProfit),
            41 => Some(NgoBalanceIndicatorKind::SurplusOrProfitProjection),
            40 => Some(NgoBalanceIndicatorKind::TotalExpenditures),
            39 => Some(NgoBalanceIndicatorKind::TotalExpendituresProjection),
            38 => Some(NgoBalanceIndicatorKind::TotalIncome),
            37 => Some(NgoBalanceIndicatorKind::TotalIncomeProjection),
            36 => Some(NgoBalanceIndicatorKind::LossFromEconomicActivity),
            35 => Some(NgoBalanceIndicatorKind::LossFromEconomicActivityProjection),
            34 => Some(NgoBalanceIndicatorKind::ProfitFromEconomicActivity),
            33 => Some(NgoBalanceIndicatorKind::ProfitFromEconomicActivityProjection),
            32 => Some(NgoBalanceIndicatorKind::ExpendituresForEconomicActivity),
            31 => Some(NgoBalanceIndicatorKind::ExpendituresForEconomicActivityProjection),
            30 => Some(NgoBalanceIndicatorKind::IncomeFromEconomicActivity),
            29 => Some(NgoBalanceIndicatorKind::IncomeFromEconomicActivityProjection),
            28 => Some(NgoBalanceIndicatorKind::LossFromSpecialPurposesActivity),
            27 => Some(NgoBalanceIndicatorKind::LossFromSpecialPurposesActivityProjection),
            26 => Some(NgoBalanceIndicatorKind::SurplusFromSpecialPurposesActivity),
            25 => Some(NgoBalanceIndicatorKind::SurplusFromSpecialPurposesActivityProjection),
            24 => Some(NgoBalanceIndicatorKind::ExpendituresForSpecialPurposesActivity),
            23 => Some(NgoBalanceIndicatorKind::ExpendituresForSpecialPurposesActivityProjection),
            22 => Some(NgoBalanceIndicatorKind::IncomeFromSpecialPurposesActivity),
            21 => Some(NgoBalanceIndicatorKind::IncomeFromSpecialPurposesActivityProjection),
            20 => Some(NgoBalanceIndicatorKind::DeficitFromNonProfitActivity),
            19 => Some(NgoBalanceIndicatorKind::DeficitFromNonProfitActivityProjection),
            18 => Some(NgoBalanceIndicatorKind::SurplusFromNonProfitActivity),
            17 => Some(NgoBalanceIndicatorKind::SurplusFromNonProfitActivityProjection),
            16 => Some(NgoBalanceIndicatorKind::ExpendituresForNonProfitActivity),
            15 => Some(NgoBalanceIndicatorKind::ExpendituresForNonProfitActivityProjection),
            14 => Some(NgoBalanceIndicatorKind::IncomeFromNonProfitActivity),
            13 => Some(NgoBalanceIndicatorKind::IncomeFromNonProfitActivityProjection),
            12 => Some(NgoBalanceIndicatorKind::CapitalTotal),
            11 => Some(NgoBalanceIndicatorKind::FundsForNonProfitActivities),
            10 => Some(NgoBalanceIndicatorKind::OwnedCapitalTotal),
            9 => Some(NgoBalanceIndicatorKind::IncomeInAdvance),
            8 => Some(NgoBalanceIndicatorKind::Provisions),
            7 => Some(NgoBalanceIndicatorKind::LiabilitiesToBePaidInMoreThanOneYear),
            6 => Some(NgoBalanceIndicatorKind::TotalAssetsMinusCurrentLiabilities),
            5 => Some(NgoBalanceIndicatorKind::NetCurrentAssetsAndNetCurrentLiabilities),
            4 => Some(NgoBalanceIndicatorKind::LiabilitiesToBePaidInLessThanOneYear),
            3 => Some(NgoBalanceIndicatorKind::PrePayments),
            2 => Some(NgoBalanceIndicatorKind::CurrentAssetsTotal),
            1 => Some(NgoBalanceIndicatorKind::FixedAssetsTotal),
            _ => None,
        }
    }

    /// The numeric part of the member's wire code, executable.
    pub fn code_index(&self) -> (r: u8)
        ensures
            r as nat == self.index(),
    {
        match self {
            NgoBalanceIndicatorKind::PersonnelEffectiveInEconomicActivity => 46,
            NgoBalanceIndicatorKind::PersonnelEffectiveInNonProfitActivity => 45,
            NgoBalanceIndicatorKind::DeficitOrLoss => 44,
            NgoBalanceIndicatorKind::DeficitOrLossProjection => 43,
            NgoBalanceIndicatorKind::SurplusOrProfit => 42,
            NgoBalanceIndicatorKind::SurplusOrProfitProjection => 41,
            NgoBalanceIndicatorKind::TotalExpenditures => 40,
            NgoBalanceIndicatorKind::TotalExpendituresProjection => 39,
            NgoBalanceIndicatorKind::TotalIncome => 38,
            NgoBalanceIndicatorKind::TotalIncomeProjection => 37,
            NgoBalanceIndicatorKind::LossFromEconomicActivity => 36,
            NgoBalanceIndicatorKind::LossFromEconomicActivityProjection => 35,
            NgoBalanceIndicatorKind::ProfitFromEconomicActivity => 34,
            NgoBalanceIndicatorKind::ProfitFromEconomicActivityProjection => 33,
            NgoBalanceIndicatorKind::ExpendituresForEconomicActivity => 32,
            NgoBalanceIndicatorKind::ExpendituresForEconomicActivityProjection => 31,
            NgoBalanceIndicatorKind::IncomeFromEconomicActivity => 30,
            NgoBalanceIndicatorKind::IncomeFromEconomicActivityProjection => 29,
            NgoBalanceIndicatorKind::LossFromSpecialPurposesActivity => 28,
            NgoBalanceIndicatorKind::LossFromSpecialPurposesActivityProjection => 27,
            NgoBalanceIndicatorKind::SurplusFromSpecialPurposesActivity => 26,
            NgoBalanceIndicatorKind::SurplusFromSpecialPurposesActivityProjection => 25,
            NgoBalanceIndicatorKind::ExpendituresForSpecialPurposesActivity => 24,
            NgoBalanceIndicatorKind::ExpendituresForSpecialPurposesActivityProjection => 23,
            NgoBalanceIndicatorKind::IncomeFromSpecialPurposesActivity => 22,
            NgoBalanceIndicatorKind::IncomeFromSpecialPurposesActivityProjection => 21,
            NgoBalanceIndicatorKind::DeficitFromNonProfitActivity => 20,
            NgoBalanceIndicatorKind::DeficitFromNonProfitActivityProjection => 19,
            NgoBalanceIndicatorKind::SurplusFromNonProfitActivity => 18,
            NgoBalanceIndicatorKind::SurplusFromNonProfitActivityProjection => 17,
            NgoBalanceIndicatorKind::ExpendituresForNonProfitActivity => 16,
            NgoBalanceIndicatorKind::ExpendituresForNonProfitActivityProjection => 15,
            NgoBalanceIndicatorKind::IncomeFromNonProfitActivity => 14,
            NgoBalanceIndicatorKind::IncomeFromNonProfitActivityProjection => 13,
            NgoBalanceIndicatorKind::CapitalTotal => 12,
            NgoBalanceIndicatorKind::FundsForNonProfitActivities => 11,
            NgoBalanceIndicatorKind::OwnedCapitalTotal => 10,
            NgoBalanceIndicatorKind::IncomeInAdvance => 9,
            NgoBalanceIndicatorKind::Provisions => 8,
            NgoBalanceIndicatorKind::LiabilitiesToBePaidInMoreThanOneYear => 7,
            NgoBalanceIndicatorKind::TotalAssetsMinusCurrentLiabilities => 6,
            NgoBalanceIndicatorKind::NetCurrentAssetsAndNetCurrentLiabilities => 5,
            NgoBalanceIndicatorKind::LiabilitiesToBePaidInLessThanOneYear => 4,
            NgoBalanceIndicatorKind::PrePayments => 3,
            NgoBalanceIndicatorKind::CurrentAssetsTotal => 2,
            NgoBalanceIndicatorKind::FixedAssetsTotal => 1,
        }
    }

    /// The member's English name.
    pub open spec fn spec_name(self) -> Seq<char> {
        match self {
            NgoBalanceIndicatorKind::PersonnelEffectiveInEconomicActivity => "PersonnelEffectiveInEconomicActivity"@,
            NgoBalanceIndicatorKind::PersonnelEffectiveInNonProfitActivity => "PersonnelEffectiveInNonProfitActivity"@,
            NgoBalanceIndicatorKind::DeficitOrLoss => "DeficitOrLoss"@,
            NgoBalanceIndicatorKind::DeficitOrLossProjection => "DeficitOrLossProjection"@,
            NgoBalanceIndicatorKind::SurplusOrProfit => "SurplusOrProfit"@,
            NgoBalanceIndicatorKind::SurplusOrProfitProjection => "SurplusOrProfitProjection"@,
            NgoBalanceIndicatorKind::TotalExpenditures => "TotalExpenditures"@,
            NgoBalanceIndicatorKind::TotalExpendituresProjection => "TotalExpendituresProjection"@,
            NgoBalanceIndicatorKind::TotalIncome => "TotalIncome"@,
            NgoBalanceIndicatorKind::TotalIncomeProjection => "TotalIncomeProjection"@,
            NgoBalanceIndicatorKind::LossFromEconomicActivity => "LossFromEconomicActivity"@,
            NgoBalanceIndicatorKind::LossFromEconomicActivityProjection => "LossFromEconomicActivityProjection"@,
            NgoBalanceIndicatorKind::ProfitFromEconomicActivity => "ProfitFromEconomicActivity"@,
            NgoBalanceIndicatorKind::ProfitFromEconomicActivityProjection => "ProfitFromEconomicActivityProjection"@,
            NgoBalanceIndicatorKind::ExpendituresForEconomicActivity => "ExpendituresForEconomicActivity"@,
            NgoBalanceIndicatorKind::ExpendituresForEconomicActivityProjection => "ExpendituresForEconomicActivityProjection"@,
            NgoBalanceIndicatorKind::IncomeFromEconomicActivity => "IncomeFromEconomicActivity"@,
            NgoBalanceIndicatorKind::IncomeFromEconomicActivityProjection => "IncomeFromEconomicActivityProjection"@,
            NgoBalanceIndicatorKind::LossFromSpecialPurposesActivity => "LossFromSpecialPurposesActivity"@,
            NgoBalanceIndicatorKind::LossFromSpecialPurposesActivityProjection => "LossFromSpecialPurposesActivityProjection"@,
            NgoBalanceIndicatorKind::SurplusFromSpecialPurposesActivity => "SurplusFromSpecialPurposesActivity"@,
            NgoBalanceIndicatorKind::SurplusFromSpecialPurposesActivityProjection => "SurplusFromSpecialPurposesActivityProjection"@,
            NgoBalanceIndicatorKind::ExpendituresForSpecialPurposesActivity => "ExpendituresForSpecialPurposesActivity"@,
            NgoBalanceIndicatorKind::ExpendituresForSpecialPurposesActivityProjection => "ExpendituresForSpecialPurposesActivityProjection"@,
            NgoBalanceIndicatorKind::IncomeFromSpecialPurposesActivity => "IncomeFromSpecialPurposesActivity"@,
            NgoBalanceIndicatorKind::IncomeFromSpecialPurposesActivityProjection => "IncomeFromSpecialPurposesActivityProjection"@,
            NgoBalanceIndicatorKind::DeficitFromNonProfitActivity => "DeficitFromNonProfitActivity"@,
            NgoBalanceIndicatorKind::DeficitFromNonProfitActivityProjection => "DeficitFromNonProfitActivityProjection"@,
            NgoBalanceIndicatorKind::SurplusFromNonProfitActivity => "SurplusFromNonProfitActivity"@,
            NgoBalanceIndicatorKind::SurplusFromNonProfitActivityProjection => "SurplusFromNonProfitActivityProjection"@,
            NgoBalanceIndicatorKind::ExpendituresForNonProfitActivity => "ExpendituresForNonProfitActivity"@,
            NgoBalanceIndicatorKind::ExpendituresForNonProfitActivityProjection => "ExpendituresForNonProfitActivityProjection"@,
            NgoBalanceIndicatorKind::IncomeFromNonProfitActivity => "IncomeFromNonProfitActivity"@,
            NgoBalanceIndicatorKind::IncomeFromNonProfitActivityProjection => "IncomeFromNonProfitActivityProjection"@,
            NgoBalanceIndicatorKind::CapitalTotal => "CapitalTotal"@,
            NgoBalanceIndicatorKind::FundsForNonProfitActivities => "FundsForNonProfitActivities"@,
            NgoBalanceIndicatorKind::OwnedCapitalTotal => "OwnedCapitalTotal"@,
            NgoBalanceIndicatorKind::IncomeInAdvance => "IncomeInAdvance"@,
            NgoBalanceIndicatorKind::Provisions => "Provisions"@,
            NgoBalanceIndicatorKind::LiabilitiesToBePaidInMoreThanOneYear => "LiabilitiesToBePaidInMoreThanOneYear"@,
            NgoBalanceIndicatorKind::TotalAssetsMinusCurrentLiabilities => "TotalAssetsMinusCurrentLiabilities"@,
            NgoBalanceIndicatorKind::NetCurrentAssetsAndNetCurrentLiabilities => "NetCurrentAssetsAndNetCurrentLiabilities"@,
            NgoBalanceIndicatorKind::LiabilitiesToBePaidInLessThanOneYear => "LiabilitiesToBePaidInLessThanOneYear"@,
            NgoBalanceIndicatorKind::PrePayments => "PrePayments"@,
            NgoBalanceIndicatorKind::CurrentAssetsTotal => "CurrentAssetsTotal"@,
            NgoBalanceIndicatorKind::FixedAssetsTotal => "FixedAssetsTotal"@,
        }
    }

    /// The member's English name, used as the serialization key.
    pub fn name(&self) -> (r: String)
        ensures
            r@ == self.spec_name(),
    {
        match self {
            NgoBalanceIndicatorKind::PersonnelEffectiveInEconomicActivity => String::from_str("PersonnelEffectiveInEconomicActivity"),
            NgoBalanceIndicatorKind::PersonnelEffectiveInNonProfitActivity => String::from_str("PersonnelEffectiveInNonProfitActivity"),
            NgoBalanceIndicatorKind::DeficitOrLoss => String::from_str("DeficitOrLoss"),
            NgoBalanceIndicatorKind::DeficitOrLossProjection => String::from_str("DeficitOrLossProjection"),
            NgoBalanceIndicatorKind::SurplusOrProfit => String::from_str("SurplusOrProfit"),
            NgoBalanceIndicatorKind::SurplusOrProfitProjection => String::from_str("SurplusOrProfitProjection"),
            NgoBalanceIndicatorKind::TotalExpenditures => String::from_str("TotalExpenditures"),
            NgoBalanceIndicatorKind::TotalExpendituresProjection => String::from_str("TotalExpendituresProjection"),
            NgoBalanceIndicatorKind::TotalIncome => String::from_str("TotalIncome"),
            NgoBalanceIndicatorKind::TotalIncomeProjection => String::from_str("TotalIncomeProjection"),
            NgoBalanceIndicatorKind::LossFromEconomicActivity => String::from_str("LossFromEconomicActivity"),
            NgoBalanceIndicatorKind::LossFromEconomicActivityProjection => String::from_str("LossFromEconomicActivityProjection"),
            NgoBalanceIndicatorKind::ProfitFromEconomicActivity => String::from_str("ProfitFromEconomicActivity"),
            NgoBalanceIndicatorKind::ProfitFromEconomicActivityProjection => String::from_str("ProfitFromEconomicActivityProjection"),
            NgoBalanceIndicatorKind::ExpendituresForEconomicActivity => String::from_str("ExpendituresForEconomicActivity"),
            NgoBalanceIndicatorKind::ExpendituresForEconomicActivityProjection => String::from_str("ExpendituresForEconomicActivityProjection"),
            NgoBalanceIndicatorKind::IncomeFromEconomicActivity => String::from_str("IncomeFromEconomicActivity"),
            NgoBalanceIndicatorKind::IncomeFromEconomicActivityProjection => String::from_str("IncomeFromEconomicActivityProjection"),
            NgoBalanceIndicatorKind::LossFromSpecialPurposesActivity => String::from_str("LossFromSpecialPurposesActivity"),
            NgoBalanceIndicatorKind::LossFromSpecialPurposesActivityProjection => String::from_str("LossFromSpecialPurposesActivityProjection"),
            NgoBalanceIndicatorKind::SurplusFromSpecialPurposesActivity => String::from_str("SurplusFromSpecialPurposesActivity"),
            NgoBalanceIndicatorKind::SurplusFromSpecialPurposesActivityProjection => String::from_str("SurplusFromSpecialPurposesActivityProjection"),
            NgoBalanceIndicatorKind::ExpendituresForSpecialPurposesActivity => String::from_str("ExpendituresForSpecialPurposesActivity"),
            NgoBalanceIndicatorKind::ExpendituresForSpecialPurposesActivityProjection => String::from_str("ExpendituresForSpecialPurposesActivityProjection"),
            NgoBalanceIndicatorKind::IncomeFromSpecialPurposesActivity => String::from_str("IncomeFromSpecialPurposesActivity"),
            NgoBalanceIndicatorKind::IncomeFromSpecialPurposesActivityProjection => String::from_str("IncomeFromSpecialPurposesActivityProjection"),
            NgoBalanceIndicatorKind::DeficitFromNonProfitActivity => String::from_str("DeficitFromNonProfitActivity"),
            NgoBalanceIndicatorKind::DeficitFromNonProfitActivityProjection => String::from_str("DeficitFromNonProfitActivityProjection"),
            NgoBalanceIndicatorKind::SurplusFromNonProfitActivity => String::from_str("SurplusFromNonProfitActivity"),
            NgoBalanceIndicatorKind::SurplusFromNonProfitActivityProjection => String::from_str("SurplusFromNonProfitActivityProjection"),
            NgoBalanceIndicatorKind::ExpendituresForNonProfitActivity => String::from_str("ExpendituresForNonProfitActivity"),
            NgoBalanceIndicatorKind::ExpendituresForNonProfitActivityProjection => String::from_str("ExpendituresForNonProfitActivityProjection"),
            NgoBalanceIndicatorKind::IncomeFromNonProfitActivity => String::from_str("IncomeFromNonProfitActivity"),
            NgoBalanceIndicatorKind::IncomeFromNonProfitActivityProjection => String::from_str("IncomeFromNonProfitActivityProjection"),
            NgoBalanceIndicatorKind::CapitalTotal => String::from_str("CapitalTotal"),
            NgoBalanceIndicatorKind::FundsForNonProfitActivities => String::from_str("FundsForNonProfitActivities"),
            NgoBalanceIndicatorKind::OwnedCapitalTotal => String::from_str("OwnedCapitalTotal"),
            NgoBalanceIndicatorKind::IncomeInAdvance => String::from_str("IncomeInAdvance"),
            NgoBalanceIndicatorKind::Provisions => String::from_str("Provisions"),
            NgoBalanceIndicatorKind::LiabilitiesToBePaidInMoreThanOneYear => String::from_str("LiabilitiesToBePaidInMoreThanOneYear"),
            NgoBalanceIndicatorKind::TotalAssetsMinusCurrentLiabilities => String::from_str("TotalAssetsMinusCurrentLiabilities"),
            NgoBalanceIndicatorKind::NetCurrentAssetsAndNetCurrentLiabilities => String::from_str("NetCurrentAssetsAndNetCurrentLiabilities"),
            NgoBalanceIndicatorKind::LiabilitiesToBePaidInLessThanOneYear => String::from_str("LiabilitiesToBePaidInLessThanOneYear"),
            NgoBalanceIndicatorKind::PrePayments => String::from_str("PrePayments"),
            NgoBalanceIndicatorKind::CurrentAssetsTotal => String::from_str("CurrentAssetsTotal"),
            NgoBalanceIndicatorKind::FixedAssetsTotal => String::from_str("FixedAssetsTotal"),
        }
    }

    /// The member's wire code string (`"I18"`).
    pub fn code(&self) -> (r: String)
        ensures
            r@ == spec_code(self.index()),
    {
        code_string(self.code_index())
    }

    /// Resolves a wire code to the dictionary member it denotes; `None`
    /// when the code denotes no member of this dictionary.
    pub fn from_code(code: &str) -> (r: Option<Self>)
        ensures
            r matches Some(k) ==> code@ == spec_code(k.index()),
            r is None ==> forall|n: nat| 1 <= n <= 46 ==> code@ != spec_code(n),
    {
        match parse_code(code) {
            Some(n) => {
                if 1 <= n && n <= 46 {
                    proof {
                        lemma_code_of_code_value(code@);
                        lemma_ngo_index_of_index(n as nat);
                    }
                    Self::from_index(n)
                } else {
                    proof {
                        lemma_code_of_code_value(code@);
                        assert forall|m: nat| 1 <= m <= 46 implies code@ != spec_code(m) by {
                            if code@ == spec_code(m) {
                                lemma_code_injective(m, n as nat);
                            }
                        }
                    }
                    None
                }
            },
            None => {
                proof {
                    assert forall|m: nat| 1 <= m <= 46 implies code@ != spec_code(m) by {
                        if code@ == spec_code(m) {
                            lemma_code_value_of_code(m);
                        }
                    }
                }
                None
            },
        }
    }
}

/// Looking a valid index up yields a member carrying that index.
pub proof fn lemma_ngo_index_of_index(n: nat)
    requires
        1 <= n <= 46,
    ensures
        NgoBalanceIndicatorKind::of_index(n).index() == n,
{
}

/// A member is recovered from its own index.
pub proof fn lemma_ngo_of_index_of(k: NgoBalanceIndicatorKind)
    ensures
        NgoBalanceIndicatorKind::of_index(k.index()) == k,
        1 <= k.index() <= 46,
{
}

/// A keyed Balance indicator: the tagged variant that keeps the two
/// dictionaries disjoint even where their numeric codes overlap.
#[derive(Debug, Clone, Copy, PartialEq, Eq, PartialOrd, Ord, Hash, Structural)]
pub enum BalanceIndicator {
    Company(CompanyBalanceIndicatorKind),
    Ngo(NgoBalanceIndicatorKind),
}

/// Whether a balance belongs to a commercial company or to a non-profit.
#[derive(Debug, Clone, Copy, PartialEq, Eq, Structural)]
pub enum EntityKind {
    Company,
    Ngo,
}

impl BalanceIndicator {
    /// Position in the indicators' total order: every Company member before
    /// every NGO member, and each dictionary in its declaration order, which
    /// is descending code order.
    pub open spec fn rank(self) -> int {
        match self {
            BalanceIndicator::Company(k) => 20 - k.index(),
            BalanceIndicator::Ngo(k) => 66 - k.index(),
        }
    }

    /// The position in the total order, executable.
    pub fn rank_value(&self) -> (r: u8)
        ensures
            r as int == self.rank(),
    {
        match self {
            BalanceIndicator::Company(k) => {
                proof {
                    lemma_company_of_index_of(*k);
                }
                20 - k.code_index()
            },
            BalanceIndicator::Ngo(k) => {
                proof {
                    lemma_ngo_of_index_of(*k);
                }
                66 - k.code_index()
            },
        }
    }

    /// Unwraps the Company arm.
    pub fn company(self) -> (r: CompanyBalanceIndicatorKind)
        requires
            self is Company,
        ensures
            self == BalanceIndicator::Company(r),
    {
        match self {
            BalanceIndicator::Company(k) => k,
            BalanceIndicator::Ngo(_) => vstd::pervasive::unreached(),
        }
    }

    /// Unwraps the NGO arm.
    pub fn ngo(self) -> (r: NgoBalanceIndicatorKind)
        requires
            self is Ngo,
        ensures
            self == BalanceIndicator::Ngo(r),
    {
        match self {
            BalanceIndicator::Ngo(k) => k,
            BalanceIndicator::Company(_) => vstd::pervasive::unreached(),
        }
    }

    /// Whether this key belongs to the Company dictionary.
    pub fn is_company(&self) -> (r: bool)
        ensures
            r == (*self is Company),
    {
        matches!(self, BalanceIndicator::Company(_))
    }

    /// Whether this key belongs to the NGO dictionary.
    pub fn is_ngo(&self) -> (r: bool)
        ensures
            r == (*self is Ngo),
    {
        matches!(self, BalanceIndicator::Ngo(_))
    }

    /// The English member name of either arm.
    pub open spec fn spec_name(self) -> Seq<char> {
        match self {
            BalanceIndicator::Company(k) => k.spec_name(),
            BalanceIndicator::Ngo(k) => k.spec_name(),
        }
    }

    /// The English member name of either arm, used as serialization key.
    pub fn name(&self) -> (r: String)
        ensures
            r@ == self.spec_name(),
    {
        match self {
            BalanceIndicator::Company(k) => k.name(),
            BalanceIndicator::Ngo(k) => k.name(),
        }
    }
}

/// The total order's positions are distinct for distinct keys, so the rank
/// determines the key.
pub proof fn lemma_rank_injective(a: BalanceIndicator, b: BalanceIndicator)
    requires
        a.rank() == b.rank(),
    ensures
        a == b,
{
    match (a, b) {
        (BalanceIndicator::Company(ka), BalanceIndicator::Company(kb)) => {
            lemma_company_of_index_of(ka);
            lemma_company_of_index_of(kb);
        },
        (BalanceIndicator::Ngo(ka), BalanceIndicator::Ngo(kb)) => {
            lemma_ngo_of_index_of(ka);
            lemma_ngo_of_index_of(kb);
        },
        (BalanceIndicator::Company(ka), BalanceIndicator::Ngo(kb)) => {
            lemma_company_of_index_of(ka);
            lemma_ngo_of_index_of(kb);
        },
        (BalanceIndicator::Ngo(ka), BalanceIndicator::Company(kb)) => {
            lemma_ngo_of_index_of(ka);
            lemma_company_of_index_of(kb);
        },
    }
}

/// Law: the Company dictionary is total over codes `I1`..`I20` and maps
/// distinct codes to distinct members.
pub proof fn lemma_company_dictionary_distinct(m: nat, n: nat)
    requires
        1 <= m <= 20,
        1 <= n <= 20,
        m != n,
    ensures
        CompanyBalanceIndicatorKind::of_index(m) != CompanyBalanceIndicatorKind::of_index(n),
{
    lemma_company_index_of_index(m);
    lemma_company_index_of_index(n);
}

/// Law: the NGO dictionary is total over codes `I1`..`I46` and maps
/// distinct codes to distinct members.
pub proof fn lemma_ngo_dictionary_distinct(m: nat, n: nat)
    requires
        1 <= m <= 46,
        1 <= n <= 46,
        m != n,
    ensures
        NgoBalanceIndicatorKind::of_index(m) != NgoBalanceIndicatorKind::of_index(n),
{
    lemma_ngo_index_of_index(m);
    lemma_ngo_index_of_index(n);
}

/// Law: resolving a Company code to its member and rendering the member's
/// code again is the identity, for every code in the dictionary.
pub proof fn lemma_company_code_round_trip(n: nat)
    requires
        1 <= n <= 20,
    ensures
        spec_code(CompanyBalanceIndicatorKind::of_index(n).index()) == spec_code(n),
{
    lemma_company_index_of_index(n);
}

/// Law: resolving an NGO code to its member and rendering the member's
/// code again is the identity, for every code in the dictionary.
pub proof fn lemma_ngo_code_round_trip(n: nat)
    requires
        1 <= n <= 46,
    ensures
        spec_code(NgoBalanceIndicatorKind::of_index(n).index()) == spec_code(n),
{
    lemma_ngo_index_of_index(n);
}

} // verus!
