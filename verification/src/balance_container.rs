use vstd::prelude::*;

use crate::balance_codes::lemma_rank_injective;
use crate::balance_codes::BalanceIndicator;
use crate::balance_response::RawBalance;

verus! {

/// The map denoted by a key-value sequence, a later entry overriding an
/// earlier one with the same key.
pub open spec fn seq_to_map(s: Seq<(BalanceIndicator, RawBalance)>) -> Map<
    BalanceIndicator,
    RawBalance,
>
    decreases s.len(),
{
    if s.len() == 0 {
        Map::empty()
    } else {
        seq_to_map(s.drop_last()).insert(s.last().0, s.last().1)
    }
}

/// A key is in the denoted map exactly when some entry carries it.
pub proof fn lemma_seq_to_map_domain(s: Seq<(BalanceIndicator, RawBalance)>, k: BalanceIndicator)
    ensures
        seq_to_map(s).contains_key(k) <==> exists|i: int| 0 <= i < s.len() && s[i].0 == k,
    decreases s.len(),
{
    if s.len() > 0 {
        lemma_seq_to_map_domain(s.drop_last(), k);
        if s.last().0 == k {
            assert(s[s.len() - 1].0 == k);
        } else {
            if exists|i: int| 0 <= i < s.len() && s[i].0 == k {
                let i = choose|i: int| 0 <= i < s.len() && s[i].0 == k;
                assert(s.drop_last()[i] == s[i]);
            }
        }
    }
}

/// An entry whose key no later entry repeats decides the denoted map there.
pub proof fn lemma_seq_to_map_index(s: Seq<(BalanceIndicator, RawBalance)>, i: int)
    requires
        0 <= i < s.len(),
        forall|j: int| i < j < s.len() ==> s[j].0 != s[i].0,
    ensures
        seq_to_map(s).contains_key(s[i].0),
        seq_to_map(s)[s[i].0] == s[i].1,
    decreases s.len(),
{
    if i < s.len() - 1 {
        assert(s.drop_last()[i] == s[i]);
        lemma_seq_to_map_index(s.drop_last(), i);
        assert(s.last().0 != s[i].0);
    }
}

/// Inserting an entry under a fresh key inserts it into the denoted map.
pub proof fn lemma_seq_to_map_insert(
    s: Seq<(BalanceIndicator, RawBalance)>,
    j: int,
    p: (BalanceIndicator, RawBalance),
)
    requires
        0 <= j <= s.len(),
        forall|i: int| 0 <= i < s.len() ==> s[i].0 != p.0,
    ensures
        seq_to_map(s.insert(j, p)) == seq_to_map(s).insert(p.0, p.1),
    decreases s.len(),
{
    let s2 = s.insert(j, p);
    if j == s.len() {
        assert(s2.drop_last() =~= s);
        assert(s2.last() == p);
    } else {
        assert(s2.last() == s.last());
        assert(s2.drop_last() =~= s.drop_last().insert(j, p));
        lemma_seq_to_map_insert(s.drop_last(), j, p);
        assert(s.last().0 != p.0);
        assert(seq_to_map(s2) =~= seq_to_map(s).insert(p.0, p.1));
    }
}

/// Overwriting the one entry holding a key updates the denoted map there.
pub proof fn lemma_seq_to_map_update(
    s: Seq<(BalanceIndicator, RawBalance)>,
    j: int,
    p: (BalanceIndicator, RawBalance),
)
    requires
        0 <= j < s.len(),
        s[j].0 == p.0,
        forall|i: int| 0 <= i < s.len() && i != j ==> s[i].0 != p.0,
    ensures
        seq_to_map(s.update(j, p)) == seq_to_map(s).insert(p.0, p.1),
    decreases s.len(),
{
    let s2 = s.update(j, p);
    if j == s.len() - 1 {
        assert(s2.drop_last() =~= s.drop_last());
        assert(s2.last() == p);
        assert(seq_to_map(s2) =~= seq_to_map(s).insert(p.0, p.1));
    } else {
        assert(s2.last() == s.last());
        assert(s2.drop_last() =~= s.drop_last().update(j, p));
        lemma_seq_to_map_update(s.drop_last(), j, p);
        assert(s.last().0 != p.0);
        assert(seq_to_map(s2) =~= seq_to_map(s).insert(p.0, p.1));
    }
}

/// Removing the one entry holding a key removes it from the denoted map.
pub proof fn lemma_seq_to_map_remove(s: Seq<(BalanceIndicator, RawBalance)>, j: int)
    requires
        0 <= j < s.len(),
        forall|i: int| 0 <= i < s.len() && i != j ==> s[i].0 != s[j].0,
    ensures
        seq_to_map(s.remove(j)) == seq_to_map(s).remove(s[j].0),
    decreases s.len(),
{
    let s2 = s.remove(j);
    if j == s.len() - 1 {
        assert(s2 =~= s.drop_last());
        lemma_seq_to_map_domain(s.drop_last(), s[j].0);
        assert(forall|i: int|
            0 <= i < s.drop_last().len() ==> s.drop_last()[i] == s[i] && s[i].0 != s[j].0);
        assert(!seq_to_map(s.drop_last()).contains_key(s[j].0));
        assert(seq_to_map(s2) =~= seq_to_map(s).remove(s[j].0));
    } else {
        assert(s2.last() == s.last());
        assert(s2.drop_last() =~= s.drop_last().remove(j));
        lemma_seq_to_map_remove(s.drop_last(), j);
        assert(s.last().0 != s[j].0);
        assert(seq_to_map(s2) =~= seq_to_map(s).remove(s[j].0));
    }
}

/// The keyed Balance container: indicator to raw record, held in the
/// indicators' total order, so iteration yields keys in that order whatever
/// order the server sent the records in.
#[derive(Debug)]
pub struct Balance {
    entries: Vec<(BalanceIndicator, RawBalance)>,
}

impl View for Balance {
    type V = Seq<(BalanceIndicator, RawBalance)>;

    closed spec fn view(&self) -> Seq<(BalanceIndicator, RawBalance)> {
        self.entries@
    }
}

impl Balance {
    /// Well-formed: entries strictly ascend in the indicators' total order,
    /// so keys are unique.
    pub open spec fn wf(self) -> bool {
        forall|i: int, j: int|
            0 <= i < j < self@.len() ==> #[trigger] self@[i].0.rank() < #[trigger] self@[j].0.rank()
    }

    /// The indicator-to-record map this container holds.
    pub open spec fn as_map(self) -> Map<BalanceIndicator, RawBalance> {
        seq_to_map(self@)
    }

    /// Distinct entries of a well-formed container hold distinct keys.
    proof fn lemma_unique_keys(self)
        requires
            self.wf(),
        ensures
            forall|i: int, j: int|
                0 <= i < self@.len() && 0 <= j < self@.len() && i != j ==> (#[trigger] self@[i].0)
                    != (#[trigger] self@[j].0),
    {
        assert forall|i: int, j: int|
            0 <= i < self@.len() && 0 <= j < self@.len() && i != j implies (#[trigger] self@[i].0)
            != (#[trigger] self@[j].0) by {
            assert(self@[i].0.rank() != self@[j].0.rank());
        }
    }

    /// Creates an empty container.
    pub fn new() -> (r: Balance)
        ensures
            r@ == Seq::<(BalanceIndicator, RawBalance)>::empty(),
            r.as_map() == Map::<BalanceIndicator, RawBalance>::empty(),
            r.wf(),
    {
        Balance { entries: Vec::new() }
    }

    /// The number of records held.
    pub fn len(&self) -> (r: usize)
        ensures
            r == self@.len(),
    {
        self.entries.len()
    }

    /// Whether the container holds no record.
    pub fn is_empty(&self) -> (r: bool)
        ensures
            r == (self@.len() == 0),
    {
        self.entries.is_empty()
    }

    /// The ordered entries, lowest-ranked key first; this is the container's
    /// iteration order.
    pub fn iter(&self) -> (r: &Vec<(BalanceIndicator, RawBalance)>)
        ensures
            r@ == self@,
    {
        &self.entries
    }

    /// Consumes the container and hands the ordered entries out.
    pub fn into_inner(self) -> (r: Vec<(BalanceIndicator, RawBalance)>)
        ensures
            r@ == self@,
    {
        self.entries
    }

    /// Inserts or replaces the record under `indicator`, keeping the order;
    /// on a repeated key the last write wins.
    pub fn insert(&mut self, indicator: BalanceIndicator, balance: RawBalance)
        requires
            old(self).wf(),
        ensures
            final(self).wf(),
            final(self).as_map() == old(self).as_map().insert(indicator, balance),
    {
        let r = indicator.rank_value();
        let ghost s = self@;
        let mut i: usize = 0;
        while i < self.entries.len() && self.entries[i].0.rank_value() < r
            invariant
                self@ == s,
                self.wf(),
                r as int == indicator.rank(),
                i <= self@.len(),
                forall|j: int| 0 <= j < i ==> #[trigger] self@[j].0.rank() < r as int,
            decreases self@.len() - i,
        {
            i = i + 1;
        }
        proof {
            self.lemma_unique_keys();
        }
        if i < self.entries.len() && self.entries[i].0.rank_value() == r {
            proof {
                lemma_rank_injective(s[i as int].0, indicator);
                lemma_seq_to_map_update(s, i as int, (indicator, balance));
            }
            self.entries.set(i, (indicator, balance));
        } else {
            proof {
                assert forall|j: int| 0 <= j < s.len() implies s[j].0 != indicator by {
                    assert(s[j].0.rank() != indicator.rank());
                }
                lemma_seq_to_map_insert(s, i as int, (indicator, balance));
            }
            self.entries.insert(i, (indicator, balance));
        }
    }

    /// Looks the record stored under `indicator` up.
    pub fn get(&self, indicator: BalanceIndicator) -> (r: Option<&RawBalance>)
        requires
            self.wf(),
        ensures
            r is Some <==> self.as_map().contains_key(indicator),
            r matches Some(b) ==> *b == self.as_map()[indicator],
    {
        proof {
            self.lemma_unique_keys();
            lemma_seq_to_map_domain(self@, indicator);
        }
        let mut i: usize = 0;
        while i < self.entries.len()
            invariant
                self.wf(),
                i <= self@.len(),
                forall|j: int| 0 <= j < i ==> (#[trigger] self@[j].0) != indicator,
            decreases self@.len() - i,
        {
            if self.entries[i].0 == indicator {
                proof {
                    self.lemma_unique_keys();
                    lemma_seq_to_map_index(self@, i as int);
                }
                return Some(&self.entries[i].1);
            }
            i = i + 1;
        }
        proof {
            lemma_seq_to_map_domain(self@, indicator);
        }
        None
    }

    /// Borrows the record stored under `indicator` mutably; the container's
    /// map afterwards holds whatever value the borrow is left with.
    pub fn get_mut(&mut self, indicator: BalanceIndicator) -> (r: Option<&mut RawBalance>)
        requires
            old(self).wf(),
        ensures
            final(self).wf(),
            r is None ==> final(self)@ == old(self)@ && !old(self).as_map().contains_key(
                indicator,
            ),
            r matches Some(b) ==> old(self).as_map().contains_key(indicator) && *b == old(
                self,
            ).as_map()[indicator] && final(self).as_map() == old(self).as_map().insert(
                indicator,
                *final(b),
            ),
    {
        proof {
            self.lemma_unique_keys();
            lemma_seq_to_map_domain(self@, indicator);
        }
        let mut i: usize = 0;
        while i < self.entries.len()
            invariant
                self@ == old(self)@,
                self.wf(),
                i <= self@.len(),
                forall|j: int| 0 <= j < i ==> (#[trigger] self@[j].0) != indicator,
            decreases self@.len() - i,
        {
            if self.entries[i].0 == indicator {
                let ghost s = self@;
                proof {
                    self.lemma_unique_keys();
                    lemma_seq_to_map_index(self@, i as int);
                    assert forall|v: RawBalance|
                        #![trigger s.update(i as int, (indicator, v))]
                        ({
                            let s2 = s.update(i as int, (indicator, v));
                            &&& seq_to_map(s2) == seq_to_map(s).insert(indicator, v)
                            &&& forall|m: int, n: int|
                                0 <= m < n < s2.len() ==> (#[trigger] s2[m].0.rank()) < (
                                #[trigger] s2[n].0.rank())
                        }) by {
                        lemma_seq_to_map_update(s, i as int, (indicator, v));
                        let s2 = s.update(i as int, (indicator, v));
                        assert forall|m: int, n: int|
                            0 <= m < n < s2.len() implies (#[trigger] s2[m].0.rank()) < (
                        #[trigger] s2[n].0.rank()) by {
                            assert(s2[m].0 == s[m].0);
                            assert(s2[n].0 == s[n].0);
                        }
                    }
                }
                let entry = &mut self.entries[i];
                return Some(&mut entry.1);
            }
            i = i + 1;
        }
        proof {
            lemma_seq_to_map_domain(self@, indicator);
        }
        None
    }

    /// Removes and returns the record stored under `indicator`.
    pub fn remove(&mut self, indicator: BalanceIndicator) -> (r: Option<RawBalance>)
        requires
            old(self).wf(),
        ensures
            final(self).wf(),
            final(self).as_map() == old(self).as_map().remove(indicator),
            r is Some <==> old(self).as_map().contains_key(indicator),
            r matches Some(b) ==> b == old(self).as_map()[indicator],
    {
        proof {
            self.lemma_unique_keys();
            lemma_seq_to_map_domain(self@, indicator);
        }
        let mut i: usize = 0;
        while i < self.entries.len()
            invariant
                self@ == old(self)@,
                self.wf(),
                i <= self@.len(),
                forall|j: int| 0 <= j < i ==> (#[trigger] self@[j].0) != indicator,
            decreases self@.len() - i,
        {
            if self.entries[i].0 == indicator {
                let ghost s = self@;
                proof {
                    self.lemma_unique_keys();
                    lemma_seq_to_map_index(self@, i as int);
                    lemma_seq_to_map_remove(self@, i as int);
                }
                let p = self.entries.remove(i);
                proof {
                    let s2 = s.remove(i as int);
                    assert forall|m: int, n: int|
                        0 <= m < n < s2.len() implies (#[trigger] s2[m].0.rank()) < (
                    #[trigger] s2[n].0.rank()) by {
                        if m < i as int {
                            assert(s2[m] == s[m]);
                        } else {
                            assert(s2[m] == s[m + 1]);
                        }
                        if n < i as int {
                            assert(s2[n] == s[n]);
                        } else {
                            assert(s2[n] == s[n + 1]);
                        }
                    }
                }
                return Some(p.1);
            }
            i = i + 1;
        }
        proof {
            lemma_seq_to_map_domain(self@, indicator);
            assert(seq_to_map(self@) =~= seq_to_map(self@).remove(indicator));
        }
        None
    }
}

impl Clone for Balance {
    /// The copy holds the same entries in the same order.
    fn clone(&self) -> (r: Self)
        ensures
            r@ == self@,
    {
        let mut entries: Vec<(BalanceIndicator, RawBalance)> = Vec::new();
        let mut i: usize = 0;
        while i < self.entries.len()
            invariant
                i <= self@.len(),
                entries@ == self@.take(i as int),
            decreases self@.len() - i,
        {
            let e = &self.entries[i];
            entries.push((e.0, e.1.clone()));
            proof {
                assert(entries@ =~= self@.take(i as int + 1));
            }
            i = i + 1;
        }
        proof {
            assert(self@.take(self@.len() as int) =~= self@);
        }
        Balance { entries }
    }
}

/// Law: a well-formed container's iteration yields keys strictly ascending
/// in the indicators' total order, whatever order they were inserted in.
pub proof fn lemma_container_ordered(b: Balance)
    requires
        b.wf(),
    ensures
        forall|i: int, j: int|
            0 <= i < j < b@.len() ==> #[trigger] b@[i].0.rank() < #[trigger] b@[j].0.rank(),
{
}

} // verus!
