use vstd::prelude::*;

use crate::balance_codes::lemma_code_injective;
use crate::balance_codes::lemma_code_value_of_code;
use crate::balance_codes::lemma_code_of_code_value;
use crate::balance_codes::lemma_company_of_index_of;
use crate::balance_codes::lemma_ngo_of_index_of;
use crate::balance_codes::parse_code;
use crate::balance_codes::spec_code;
use crate::balance_codes::BalanceIndicator;
use crate::balance_codes::CompanyBalanceIndicatorKind;
use crate::balance_codes::EntityKind;
use crate::balance_codes::NgoBalanceIndicatorKind;
use crate::balance_container::Balance;
use crate::error::ApiError;
use crate::error::DecodeError;

verus! {

/// One raw Balance record exactly as the server sends it.
#[derive(Debug)]
pub struct RawBalance {
    /// The wire indicator code (`"I18"`).
    pub code: String,
    /// The server's Romanian display name of the indicator.
    pub name: String,
    /// The indicator's signed value.
    pub value: isize,
}

impl Clone for RawBalance {
    /// The copy equals the original record.
    fn clone(&self) -> (r: Self)
        ensures
            r == *self,
    {
        RawBalance { code: self.code.clone(), name: self.name.clone(), value: self.value }
    }
}

/// The Balance endpoint's response as decoded from the wire, record codes
/// still raw.
#[derive(Debug)]
pub struct BalanceRawResponse {
    pub year: usize,
    pub unique_registration_code: usize,
    pub name: String,
    pub activity_code: usize,
    pub activity_name: String,
    pub balance: Vec<RawBalance>,
}

/// The typed Balance response: entity kind resolved, and every record keyed
/// by its dictionary member in the ordered container.
#[derive(Debug)]
pub struct BalanceResponse {
    pub kind: EntityKind,
    pub year: usize,
    pub unique_registration_code: usize,
    pub name: String,
    pub activity_code: usize,
    pub activity_name: String,
    pub balance: Balance,
}

/// Whether the record set marks a non-profit: some record carries code
/// `I46`. The marker gates every lookup, since the two dictionaries give the
/// overlapping codes different meanings.
pub open spec fn records_mark_ngo(records: Seq<RawBalance>) -> bool {
    exists|i: int| 0 <= i < records.len() && records[i].code@ == spec_code(46)
}

/// How many codes the dictionary selected by the marker holds.
pub open spec fn dictionary_size(is_ngo: bool) -> nat {
    if is_ngo {
        46
    } else {
        20
    }
}

/// Whether a record's code denotes a member of the selected dictionary.
pub open spec fn record_resolves(is_ngo: bool, code: Seq<char>) -> bool {
    exists|n: nat| 1 <= n <= dictionary_size(is_ngo) && code == spec_code(n)
}

/// The container key a resolvable code denotes under the selected
/// dictionary.
pub open spec fn spec_key_of(is_ngo: bool, code: Seq<char>) -> BalanceIndicator {
    let n = choose|n: nat| 1 <= n <= dictionary_size(is_ngo) && code == spec_code(n);
    if is_ngo {
        BalanceIndicator::Ngo(NgoBalanceIndicatorKind::of_index(n))
    } else {
        BalanceIndicator::Company(CompanyBalanceIndicatorKind::of_index(n))
    }
}

/// The keyed map a record sequence denotes, a later record overriding an
/// earlier one with the same key.
pub open spec fn spec_assemble(records: Seq<RawBalance>, is_ngo: bool) -> Map<
    BalanceIndicator,
    RawBalance,
>
    decreases records.len(),
{
    if records.len() == 0 {
        Map::empty()
    } else {
        spec_assemble(records.drop_last(), is_ngo).insert(
            spec_key_of(is_ngo, records.last().code@),
            records.last(),
        )
    }
}

/// Law: every key the assembly produces lies in the arm the marker selects,
/// so one response never mixes Company and NGO keys.
pub proof fn lemma_balance_dispatch(records: Seq<RawBalance>, is_ngo: bool, k: BalanceIndicator)
    ensures
        spec_assemble(records, is_ngo).contains_key(k) ==> (k is Ngo <==> is_ngo),
    decreases records.len(),
{
    if records.len() > 0 {
        lemma_balance_dispatch(records.drop_last(), is_ngo, k);
    }
}

/// Detects the entity kind: a record with code `I46` marks a non-profit.
fn detect_ngo(records: &Vec<RawBalance>) -> (r: bool)
    ensures
        r == records_mark_ngo(records@),
{
    let mut i: usize = 0;
    while i < records.len()
        invariant
            i <= records@.len(),
            forall|j: int| 0 <= j < i ==> (#[trigger] records@[j].code@) != spec_code(46),
        decreases records@.len() - i,
    {
        let parsed = parse_code(records[i].code.as_str());
        proof {
            lemma_code_value_of_code(46);
        }
        if let Some(n) = parsed {
            if n == 46 {
                proof {
                    lemma_code_of_code_value(records@[i as int].code@);
                    assert(records@[i as int].code@ == spec_code(46));
                }
                return true;
            }
        }
        proof {
            assert(records@[i as int].code@ != spec_code(46));
        }
        i = i + 1;
    }
    false
}

impl BalanceResponse {
    /// Assembles the typed response from a raw one. The entity kind is
    /// decided once, by the presence of code `I46` in the record set; every
    /// record is then resolved against that one dictionary and keyed into
    /// the ordered container, a repeated key keeping the last record. A code
    /// outside the dictionary is a fatal decode error naming the code.
    pub fn from_raw(value: BalanceRawResponse) -> (r: Result<BalanceResponse, ApiError>)
        ensures
            ({
                let ngo = records_mark_ngo(value.balance@);
                &&& (r is Ok <==> forall|i: int|
                    0 <= i < value.balance@.len() ==> record_resolves(
                        ngo,
                        #[trigger] value.balance@[i].code@,
                    ))
                &&& r matches Ok(resp) ==> {
                    &&& resp.kind == (if ngo {
                        EntityKind::Ngo
                    } else {
                        EntityKind::Company
                    })
                    &&& resp.year == value.year
                    &&& resp.unique_registration_code == value.unique_registration_code
                    &&& resp.name == value.name
                    &&& resp.activity_code == value.activity_code
                    &&& resp.activity_name == value.activity_name
                    &&& resp.balance.wf()
                    &&& resp.balance.as_map() == spec_assemble(value.balance@, ngo)
                    &&& forall|k: BalanceIndicator|
                        #[trigger] resp.balance.as_map().contains_key(k) ==> (k is Ngo <==> ngo)
                }
                &&& r matches Err(e) ==> exists|i: int|
                    {
                        &&& 0 <= i < value.balance@.len()
                        &&& !record_resolves(ngo, #[trigger] value.balance@[i].code@)
                        &&& forall|j: int|
                            0 <= j < i ==> record_resolves(ngo, #[trigger] value.balance@[j].code@)
                        &&& e matches ApiError::ParseError(DecodeError::UnknownIndicator(c)) && c@
                            == value.balance@[i].code@
                    }
            }),
    {
        let records = value.balance;
        let ngo = detect_ngo(&records);
        let mut container = Balance::new();
        let mut i: usize = 0;
        while i < records.len()
            invariant
                records@ == value.balance@,
                ngo == records_mark_ngo(records@),
                i <= records@.len(),
                container.wf(),
                container.as_map() == spec_assemble(records@.take(i as int), ngo),
                forall|j: int| 0 <= j < i ==> record_resolves(ngo, #[trigger] records@[j].code@),
            decreases records@.len() - i,
        {
            let ghost rcode = records@[i as int].code@;
            let key: BalanceIndicator = if ngo {
                match NgoBalanceIndicatorKind::from_code(records[i].code.as_str()) {
                    Some(k) => {
                        proof {
                            lemma_ngo_of_index_of(k);
                        }
                        BalanceIndicator::Ngo(k)
                    },
                    None => {
                        let c = records[i].code.clone();
                        proof {
                            assert(!record_resolves(ngo, value.balance@[i as int].code@));
                            assert(forall|j: int|
                                0 <= j < i ==> record_resolves(
                                    ngo,
                                    #[trigger] value.balance@[j].code@,
                                ));
                        }
                        return Err(ApiError::ParseError(DecodeError::UnknownIndicator(c)));
                    },
                }
            } else {
                match CompanyBalanceIndicatorKind::from_code(records[i].code.as_str()) {
                    Some(k) => {
                        proof {
                            lemma_company_of_index_of(k);
                        }
                        BalanceIndicator::Company(k)
                    },
                    None => {
                        let c = records[i].code.clone();
                        proof {
                            assert(!record_resolves(ngo, value.balance@[i as int].code@));
                            assert(forall|j: int|
                                0 <= j < i ==> record_resolves(
                                    ngo,
                                    #[trigger] value.balance@[j].code@,
                                ));
                        }
                        return Err(ApiError::ParseError(DecodeError::UnknownIndicator(c)));
                    },
                }
            };
            proof {
                let n0 = choose|n: nat| 1 <= n <= dictionary_size(ngo) && rcode == spec_code(n);
                if ngo {
                    lemma_code_injective(n0, key->Ngo_0.index());
                    lemma_ngo_of_index_of(key->Ngo_0);
                } else {
                    lemma_code_injective(n0, key->Company_0.index());
                    lemma_company_of_index_of(key->Company_0);
                }
                assert(key == spec_key_of(ngo, rcode));
                assert(records@.take(i as int + 1).drop_last() =~= records@.take(i as int));
                assert(records@.take(i as int + 1).last() == records@[i as int]);
            }
            let record = records[i].clone();
            container.insert(key, record);
            i = i + 1;
        }
        proof {
            assert(records@.take(records@.len() as int) =~= records@);
            assert forall|k: BalanceIndicator| #[trigger]
                spec_assemble(records@, ngo).contains_key(k) implies (k is Ngo <==> ngo) by {
                lemma_balance_dispatch(records@, ngo, k);
            }
        }
        Ok(
            BalanceResponse {
                kind: if ngo {
                    EntityKind::Ngo
                } else {
                    EntityKind::Company
                },
                year: value.year,
                unique_registration_code: value.unique_registration_code,
                name: value.name,
                activity_code: value.activity_code,
                activity_name: value.activity_name,
                balance: container,
            },
        )
    }
}

} // verus!
