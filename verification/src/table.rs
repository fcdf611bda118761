//! The entity store: durable records addressed by derived identities.
//!
//! A table holds one kind of record, keyed by the identity it was created
//! at.  Its mathematical content is a map from identities to record views;
//! uniqueness of keys is the table's well-formedness invariant, and every
//! creation is guarded against an already occupied key by the callers.

use vstd::prelude::*;

use crate::pda::AccountId;

verus! {

struct TableEntry<V> {
    key: AccountId,
    val: V,
}

/// An association of derived identities to records of one kind.
pub struct Table<V> {
    entries: Vec<TableEntry<V>>,
}

/// The map a sequence of entries stands for; a later entry with an equal key
/// would shadow an earlier one, which well-formedness rules out.
spec fn entries_map<V: View>(s: Seq<TableEntry<V>>) -> Map<AccountId, V::V>
    decreases s.len(),
{
    if s.len() == 0 {
        Map::empty()
    } else {
        entries_map(s.drop_last()).insert(s.last().key, s.last().val@)
    }
}

proof fn lemma_entries_map_contains<V: View>(s: Seq<TableEntry<V>>, k: AccountId)
    ensures
        entries_map(s).contains_key(k) <==> exists|i: int| 0 <= i < s.len() && s[i].key == k,
    decreases s.len(),
{
    if s.len() > 0 {
        lemma_entries_map_contains(s.drop_last(), k);
        if s.last().key == k {
            assert(s[s.len() - 1].key == k);
        } else if entries_map(s.drop_last()).contains_key(k) {
            let i = choose|i: int| 0 <= i < s.drop_last().len() && s.drop_last()[i].key == k;
            assert(s[i].key == k);
        } else if exists|i: int| 0 <= i < s.len() && s[i].key == k {
            let i = choose|i: int| 0 <= i < s.len() && s[i].key == k;
            assert(s.drop_last()[i].key == k);
        }
    }
}

spec fn unique_keys<V: View>(s: Seq<TableEntry<V>>) -> bool {
    forall|i: int, j: int| 0 <= i < j < s.len() ==> s[i].key != s[j].key
}

proof fn lemma_entries_map_at<V: View>(s: Seq<TableEntry<V>>, i: int)
    requires
        unique_keys(s),
        0 <= i < s.len(),
    ensures
        entries_map(s).contains_key(s[i].key),
        entries_map(s)[s[i].key] == s[i].val@,
    decreases s.len(),
{
    lemma_entries_map_contains(s, s[i].key);
    if i < s.len() - 1 {
        assert(s.drop_last()[i] == s[i]);
        lemma_entries_map_at(s.drop_last(), i);
        assert(s.last().key != s[i].key);
    }
}

impl<V: View> View for Table<V> {
    type V = Map<AccountId, V::V>;

    closed spec fn view(&self) -> Map<AccountId, V::V> {
        entries_map(self.entries@)
    }
}

impl<V: View> Table<V> {
    /// Keys are unique, so each record sits at exactly one identity.
    pub closed spec fn wf(&self) -> bool {
        unique_keys(self.entries@)
    }

    /// The keyed record views in storage order, for whole-table scans.
    pub closed spec fn entry_seq(&self) -> Seq<(AccountId, V::V)> {
        self.entries@.map_values(|e: TableEntry<V>| (e.key, e.val@))
    }

    /// The table's map is exactly the keyed sequence of its entries.
    pub proof fn lemma_entries(&self)
        requires
            self.wf(),
        ensures
            forall|k: AccountId|
                self@.contains_key(k) <==> exists|i: int|
                    0 <= i < self.entry_seq().len() && #[trigger] self.entry_seq()[i].0 == k,
            forall|i: int|
                0 <= i < self.entry_seq().len() ==> self@.contains_key(
                    #[trigger] self.entry_seq()[i].0,
                ) && self@[self.entry_seq()[i].0] == self.entry_seq()[i].1,
    {
        assert forall|k: AccountId| self@.contains_key(k) implies exists|i: int|
            0 <= i < self.entry_seq().len() && #[trigger] self.entry_seq()[i].0 == k by {
            lemma_entries_map_contains(self.entries@, k);
            let i = choose|i: int| 0 <= i < self.entries@.len() && self.entries@[i].key == k;
            assert(self.entry_seq()[i].0 == k);
        }
        assert forall|k: AccountId|
            (exists|i: int| 0 <= i < self.entry_seq().len() && #[trigger] self.entry_seq()[i].0 == k)
            implies self@.contains_key(k) by {
            let i = choose|i: int|
                0 <= i < self.entry_seq().len() && #[trigger] self.entry_seq()[i].0 == k;
            lemma_entries_map_at(self.entries@, i);
        }
        assert forall|i: int| 0 <= i < self.entry_seq().len() implies self@.contains_key(
            #[trigger] self.entry_seq()[i].0,
        ) && self@[self.entry_seq()[i].0] == self.entry_seq()[i].1 by {
            lemma_entries_map_at(self.entries@, i);
        }
    }

    /// An empty table.
    pub fn new() -> (r: Self)
        ensures
            r.wf(),
            r@ == Map::<AccountId, V::V>::empty(),
            r.entry_seq() == Seq::<(AccountId, V::V)>::empty(),
    {
        let r = Table { entries: Vec::new() };
        proof {
            assert(r.entry_seq() =~= Seq::<(AccountId, V::V)>::empty());
        }
        r
    }

    fn index_of(&self, k: &AccountId) -> (r: Option<usize>)
        requires
            self.wf(),
        ensures
            match r {
                Some(i) => i < self.entries@.len() && self.entries@[i as int].key == *k
                    && self@.contains_key(*k),
                None => !self@.contains_key(*k),
            },
    {
        let mut i: usize = 0;
        while i < self.entries.len()
            invariant
                i <= self.entries@.len(),
                forall|j: int| 0 <= j < i ==> self.entries@[j].key != *k,
                self.wf(),
            decreases self.entries@.len() - i,
        {
            if self.entries[i].key == *k {
                proof {
                    lemma_entries_map_at(self.entries@, i as int);
                }
                return Some(i);
            }
            i = i + 1;
        }
        proof {
            lemma_entries_map_contains(self.entries@, *k);
        }
        None
    }

    /// Whether a record sits at `k`.
    pub fn contains(&self, k: &AccountId) -> (r: bool)
        requires
            self.wf(),
        ensures
            r == self@.contains_key(*k),
    {
        self.index_of(k).is_some()
    }

    /// The record at `k`, if one exists.
    pub fn get(&self, k: &AccountId) -> (r: Option<&V>)
        requires
            self.wf(),
        ensures
            match r {
                Some(v) => self@.contains_key(*k) && v@ == self@[*k],
                None => !self@.contains_key(*k),
            },
    {
        match self.index_of(k) {
            Some(i) => {
                proof {
                    lemma_entries_map_at(self.entries@, i as int);
                }
                Some(&self.entries[i].val)
            }
            None => None,
        }
    }

    /// Writes `v` at `k`, creating the record or replacing the old one.
    pub fn set(&mut self, k: AccountId, v: V)
        requires
            old(self).wf(),
        ensures
            final(self).wf(),
            final(self)@ == old(self)@.insert(k, v@),
    {
        let ghost old_entries = self.entries@;
        match self.index_of(&k) {
            Some(i) => {
                let slot = &mut self.entries[i];
                *slot = TableEntry { key: k, val: v };
                proof {
                    lemma_update_at(old_entries, i as int, k, v);
                }
            }
            None => {
                self.entries.push(TableEntry { key: k, val: v });
                proof {
                    assert(self.entries@.drop_last() =~= old_entries);
                    lemma_entries_map_contains(old_entries, k);
                    assert forall|i: int, j: int| 0 <= i < j < self.entries@.len() implies self
                        .entries@[i].key != self.entries@[j].key by {
                        if j < self.entries@.len() - 1 {
                            assert(old_entries[i].key != old_entries[j].key);
                        }
                    }
                }
            }
        }
    }

    /// The number of records held.
    pub fn len(&self) -> (r: usize)
        ensures
            r == self.entry_seq().len(),
    {
        self.entries.len()
    }

    /// The key and record at storage position `i`, for whole-table scans.
    pub fn at(&self, i: usize) -> (r: (&AccountId, &V))
        requires
            i < self.entry_seq().len(),
        ensures
            (*r.0, r.1@) == self.entry_seq()[i as int],
    {
        (&self.entries[i].key, &self.entries[i].val)
    }

    /// Removes and returns the record at `k`, if one exists.
    pub fn remove(&mut self, k: &AccountId) -> (r: Option<V>)
        requires
            old(self).wf(),
        ensures
            final(self).wf(),
            final(self)@ == old(self)@.remove(*k),
            match r {
                Some(v) => old(self)@.contains_key(*k) && v@ == old(self)@[*k],
                None => !old(self)@.contains_key(*k) && final(self)@ == old(self)@,
            },
    {
        let ghost old_entries = self.entries@;
        match self.index_of(k) {
            Some(i) => {
                proof {
                    lemma_entries_map_at(old_entries, i as int);
                }
                let e = self.entries.remove(i);
                proof {
                    lemma_remove_at(old_entries, i as int);
                }
                Some(e.val)
            }
            None => {
                proof {
                    assert(self@ =~= old(self)@.remove(*k));
                }
                None
            }
        }
    }
}

proof fn lemma_update_at<V: View>(s: Seq<TableEntry<V>>, i: int, k: AccountId, v: V)
    requires
        unique_keys(s),
        0 <= i < s.len(),
        s[i].key == k,
    ensures
        unique_keys(s.update(i, TableEntry { key: k, val: v })),
        entries_map(s.update(i, TableEntry { key: k, val: v })) == entries_map(s).insert(k, v@),
    decreases s.len(),
{
    let s2 = s.update(i, TableEntry { key: k, val: v });
    assert forall|a: int, b: int| 0 <= a < b < s2.len() implies s2[a].key != s2[b].key by {
        assert(s[a].key == s2[a].key || a == i);
        assert(s[b].key == s2[b].key || b == i);
    }
    if i == s.len() - 1 {
        assert(s2.drop_last() =~= s.drop_last());
        assert(entries_map(s2) =~= entries_map(s).insert(k, v@));
    } else {
        assert(s2.drop_last() =~= s.drop_last().update(i, TableEntry { key: k, val: v }));
        lemma_update_at(s.drop_last(), i, k, v);
        assert(s.last().key != k);
        assert(s2.last() == s.last());
        assert(entries_map(s2) =~= entries_map(s).insert(k, v@));
    }
}

proof fn lemma_remove_at<V: View>(s: Seq<TableEntry<V>>, i: int)
    requires
        unique_keys(s),
        0 <= i < s.len(),
    ensures
        unique_keys(s.remove(i)),
        entries_map(s.remove(i)) == entries_map(s).remove(s[i].key),
    decreases s.len(),
{
    let s2 = s.remove(i);
    assert forall|a: int, b: int| 0 <= a < b < s2.len() implies s2[a].key != s2[b].key by {
        let a0 = if a < i { a } else { a + 1 };
        let b0 = if b < i { b } else { b + 1 };
        assert(s2[a] == s[a0] && s2[b] == s[b0]);
    }
    if i == s.len() - 1 {
        assert(s2 =~= s.drop_last());
        lemma_entries_map_contains(s.drop_last(), s[i].key);
        assert(entries_map(s2) =~= entries_map(s).remove(s[i].key));
    } else {
        assert(s2.drop_last() =~= s.drop_last().remove(i));
        lemma_remove_at(s.drop_last(), i);
        assert(s2.last() == s.last());
        assert(s.last().key != s[i].key);
        assert(entries_map(s2) =~= entries_map(s).remove(s[i].key));
    }
}

} // verus!
