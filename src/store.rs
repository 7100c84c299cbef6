use vstd::prelude::*;
use crate::merkle::bytes_eq;
use crate::types::SyncCommittee;

verus! {

/// The map that a list of entries stands for: a later entry hides an earlier one
/// with the same key.
pub open spec fn root_entries_map<V>(entries: Seq<(Vec<u8>, V)>) -> Map<Seq<u8>, V>
    decreases entries.len(),
{
    if entries.len() == 0 {
        Map::empty()
    } else {
        root_entries_map(entries.drop_last()).insert(entries.last().0@, entries.last().1)
    }
}

/// The map that a list of entries keyed by period stands for.
pub open spec fn period_entries_map(entries: Seq<(u64, SyncCommittee)>) -> Map<u64, SyncCommittee>
    decreases entries.len(),
{
    if entries.len() == 0 {
        Map::empty()
    } else {
        period_entries_map(entries.drop_last()).insert(entries.last().0, entries.last().1)
    }
}

/// A map from 32-byte roots to values.
pub struct RootTable<V> {
    entries: Vec<(Vec<u8>, V)>,
}

impl<V> View for RootTable<V> {
    type V = Map<Seq<u8>, V>;

    closed spec fn view(&self) -> Map<Seq<u8>, V> {
        root_entries_map(self.entries@)
    }
}

impl<V> RootTable<V> {
    /// An empty table.
    pub fn new() -> (r: Self)
        ensures
            r@ == Map::<Seq<u8>, V>::empty(),
    {
        RootTable { entries: Vec::new() }
    }

    /// Maps `key` to `value`, replacing what it mapped to before.
    pub fn insert(&mut self, key: Vec<u8>, value: V)
        ensures
            final(self)@ == old(self)@.insert(key@, value),
    {
        self.entries.push((key, value));
        assert(self.entries@.drop_last() =~= old(self).entries@);
    }

    /// The value that `key` maps to, if any.
    pub fn get(&self, key: &Vec<u8>) -> (r: Option<&V>)
        ensures
            match r {
                Some(v) => self@.contains_key(key@) && *v == self@[key@],
                None => !self@.contains_key(key@),
            },
    {
        let mut i: usize = self.entries.len();
        assert(self.entries@.subrange(0, i as int) =~= self.entries@);
        while i > 0
            invariant
                i <= self.entries@.len(),
                root_entries_map(self.entries@.subrange(0, i as int)).contains_key(key@) == self@.contains_key(key@),
                root_entries_map(self.entries@.subrange(0, i as int)).contains_key(key@)
                    ==> root_entries_map(self.entries@.subrange(0, i as int))[key@] == self@[key@],
            decreases i,
        {
            let ghost sub = self.entries@.subrange(0, i as int);
            assert(sub.drop_last() =~= self.entries@.subrange(0, i - 1));
            assert(sub.last() == self.entries@[i - 1]);
            if bytes_eq(&self.entries[i - 1].0, key) {
                return Some(&self.entries[i - 1].1);
            }
            i = i - 1;
        }
        None
    }
}

/// A map from sync-committee periods to committees.
pub struct PeriodTable {
    entries: Vec<(u64, SyncCommittee)>,
}

impl View for PeriodTable {
    type V = Map<u64, SyncCommittee>;

    closed spec fn view(&self) -> Map<u64, SyncCommittee> {
        period_entries_map(self.entries@)
    }
}

impl PeriodTable {
    /// An empty table.
    pub fn new() -> (r: Self)
        ensures
            r@ == Map::<u64, SyncCommittee>::empty(),
    {
        PeriodTable { entries: Vec::new() }
    }

    /// Maps `period` to `committee`, replacing what it mapped to before.
    pub fn insert(&mut self, period: u64, committee: SyncCommittee)
        ensures
            final(self)@ == old(self)@.insert(period, committee),
    {
        self.entries.push((period, committee));
        assert(self.entries@.drop_last() =~= old(self).entries@);
    }

    /// The committee stored for `period`, if any.
    pub fn get(&self, period: u64) -> (r: Option<&SyncCommittee>)
        ensures
            match r {
                Some(c) => self@.contains_key(period) && *c == self@[period],
                None => !self@.contains_key(period),
            },
    {
        let mut i: usize = self.entries.len();
        assert(self.entries@.subrange(0, i as int) =~= self.entries@);
        while i > 0
            invariant
                i <= self.entries@.len(),
                period_entries_map(self.entries@.subrange(0, i as int)).contains_key(period) == self@.contains_key(period),
                period_entries_map(self.entries@.subrange(0, i as int)).contains_key(period)
                    ==> period_entries_map(self.entries@.subrange(0, i as int))[period] == self@[period],
            decreases i,
        {
            let ghost sub = self.entries@.subrange(0, i as int);
            assert(sub.drop_last() =~= self.entries@.subrange(0, i - 1));
            assert(sub.last() == self.entries@[i - 1]);
            if self.entries[i - 1].0 == period {
                return Some(&self.entries[i - 1].1);
            }
            i = i - 1;
        }
        None
    }
}

} // verus!
