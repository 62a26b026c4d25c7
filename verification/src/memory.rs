//! The ledger store: an ordered table from encoded ledger keys to entries and
//! their optional TTL. It is the only mutable shared state of the sandbox.
//!
//! The store's view is the map from key image to (entry, TTL). Two invariants
//! hold throughout: every key occurs at most once, and only evictable entry
//! kinds (contract code and contract data) ever carry a TTL.

use vstd::prelude::*;

use crate::entry::{bytes_eq, key_bytes, AccountEntry, EntryData, EntryDataV, LedgerEntry, LedgerEntryV};

verus! {

/// One slot of the store: the wire image of the key, the entry, and its TTL.
pub struct StoredEntry {
    pub enc_key: Vec<u8>,
    pub entry: LedgerEntry,
    pub ttl: Option<u32>,
}

/// No key image occurs twice.
pub open spec fn unique_keys(s: Seq<StoredEntry>) -> bool {
    forall|i: int, j: int|
        0 <= i < j < s.len() ==> (#[trigger] s[i]).enc_key@ != (#[trigger] s[j]).enc_key@
}

/// Only evictable entry kinds carry a TTL.
pub open spec fn ttl_ok(s: Seq<StoredEntry>) -> bool {
    forall|i: int|
        0 <= i < s.len() ==> ((#[trigger] s[i]).ttl is Some ==> s[i].entry@.data.is_evictable())
}

/// The map a slot sequence stands for; later slots win, though under
/// `unique_keys` there is never a conflict.
pub open spec fn store_map(s: Seq<StoredEntry>) -> Map<Seq<u8>, (LedgerEntryV, Option<u32>)>
    decreases s.len(),
{
    if s.len() == 0 {
        Map::empty()
    } else {
        store_map(s.drop_last()).insert(
            s.last().enc_key@,
            (s.last().entry@, s.last().ttl),
        )
    }
}

/// Under `unique_keys`, the map agrees with the slots: every key in the map
/// comes from some slot, and every slot is found in the map unchanged.
pub proof fn lemma_store_map_props(s: Seq<StoredEntry>)
    requires
        unique_keys(s),
    ensures
        forall|k: Seq<u8>|
            #[trigger] store_map(s).contains_key(k) ==> exists|i: int|
                0 <= i < s.len() && (#[trigger] s[i]).enc_key@ == k,
        forall|i: int|
            0 <= i < s.len() ==> store_map(s).contains_key((#[trigger] s[i]).enc_key@)
                && store_map(s)[s[i].enc_key@] == (s[i].entry@, s[i].ttl),
    decreases s.len(),
{
    if s.len() > 0 {
        let st = s.drop_last();
        lemma_store_map_props(st);
        assert forall|i: int|
            0 <= i < s.len() implies store_map(s).contains_key((#[trigger] s[i]).enc_key@)
            && store_map(s)[s[i].enc_key@] == (s[i].entry@, s[i].ttl) by {
            if i < s.len() - 1 {
                assert(st[i] == s[i]);
                assert(s[i].enc_key@ != s[s.len() - 1].enc_key@);
            }
        }
        assert forall|k: Seq<u8>| #[trigger] store_map(s).contains_key(k) implies exists|i: int|
            0 <= i < s.len() && (#[trigger] s[i]).enc_key@ == k by {
            if k == s.last().enc_key@ {
                assert(s[s.len() - 1].enc_key@ == k);
            } else {
                assert(store_map(s) == store_map(st).insert(
                    s.last().enc_key@,
                    (s.last().entry@, s.last().ttl),
                ));
                assert(store_map(st).contains_key(k));
                let i = choose|i: int| 0 <= i < st.len() && (#[trigger] st[i]).enc_key@ == k;
                assert(st[i] == s[i]);
                assert(s[i].enc_key@ == k);
            }
        }
    }
}

/// Appending a slot inserts its pair into the map.
pub proof fn lemma_store_map_push(s: Seq<StoredEntry>, e: StoredEntry)
    ensures
        store_map(s.push(e)) == store_map(s).insert(e.enc_key@, (e.entry@, e.ttl)),
{
    assert(s.push(e).drop_last() =~= s);
    assert(s.push(e).last() == e);
}

/// Replacing the slot that holds a key overwrites that key's pair.
pub proof fn lemma_store_map_update(s: Seq<StoredEntry>, i: int, e: StoredEntry)
    requires
        unique_keys(s),
        0 <= i < s.len(),
        e.enc_key@ == s[i].enc_key@,
    ensures
        store_map(s.update(i, e)) == store_map(s).insert(e.enc_key@, (e.entry@, e.ttl)),
    decreases s.len(),
{
    let su = s.update(i, e);
    if i == s.len() - 1 {
        assert(su.drop_last() =~= s.drop_last());
        assert(su.last() == e);
        assert(store_map(su) =~= store_map(s).insert(e.enc_key@, (e.entry@, e.ttl)));
    } else {
        assert(s.drop_last()[i] == s[i]);
        lemma_store_map_update(s.drop_last(), i, e);
        assert(su.drop_last() =~= s.drop_last().update(i, e));
        assert(su.last() == s.last());
        assert(s[i].enc_key@ != s[s.len() - 1].enc_key@);
        assert(store_map(su) =~= store_map(s).insert(e.enc_key@, (e.entry@, e.ttl)));
    }
}

/// Removing the slot that holds a key removes that key from the map.
pub proof fn lemma_store_map_remove(s: Seq<StoredEntry>, i: int)
    requires
        unique_keys(s),
        0 <= i < s.len(),
    ensures
        store_map(s.remove(i)) == store_map(s).remove(s[i].enc_key@),
    decreases s.len(),
{
    let k = s[i].enc_key@;
    let sr = s.remove(i);
    if i == s.len() - 1 {
        assert(sr =~= s.drop_last());
        lemma_store_map_props(s.drop_last());
        assert(!store_map(s.drop_last()).contains_key(k)) by {
            if store_map(s.drop_last()).contains_key(k) {
                let j = choose|j: int|
                    0 <= j < s.drop_last().len() && (#[trigger] s.drop_last()[j]).enc_key@ == k;
                assert(s[j].enc_key@ == s[i].enc_key@);
            }
        }
        assert(store_map(sr) =~= store_map(s).remove(k));
    } else {
        assert(s.drop_last()[i] == s[i]);
        lemma_store_map_remove(s.drop_last(), i);
        assert(sr.drop_last() =~= s.drop_last().remove(i));
        assert(sr.last() == s.last());
        assert(s[i].enc_key@ != s[s.len() - 1].enc_key@);
        assert(store_map(sr) =~= store_map(s).remove(k));
    }
}

/// The ledger store. The slot vector is public for diagnostic iteration;
/// mutate it only through the store's own operations, which keep `wf`.
pub struct Memory {
    pub entries: Vec<StoredEntry>,
}

impl View for Memory {
    type V = Map<Seq<u8>, (LedgerEntryV, Option<u32>)>;

    open spec fn view(&self) -> Map<Seq<u8>, (LedgerEntryV, Option<u32>)> {
        store_map(self.entries@)
    }
}

impl Memory {
    /// Both store invariants.
    pub open spec fn wf(&self) -> bool {
        unique_keys(self.entries@) && ttl_ok(self.entries@)
    }

    /// An empty store.
    pub fn new() -> (r: Memory)
        ensures
            r@ == Map::<Seq<u8>, (LedgerEntryV, Option<u32>)>::empty(),
            r.wf(),
    {
        Memory { entries: Vec::new() }
    }

    /// The index of the slot holding `key`, if any.
    fn index_of(&self, key: &Vec<u8>) -> (r: Option<usize>)
        ensures
            match r {
                Some(i) => i < self.entries@.len() && self.entries@[i as int].enc_key@ == key@,
                None => forall|j: int|
                    0 <= j < self.entries@.len() ==> (#[trigger] self.entries@[j]).enc_key@
                        != key@,
            },
    {
        let mut i: usize = 0;
        while i < self.entries.len()
            invariant
                i <= self.entries@.len(),
                forall|j: int| 0 <= j < i ==> (#[trigger] self.entries@[j]).enc_key@ != key@,
            decreases self.entries@.len() - i,
        {
            if bytes_eq(&self.entries[i].enc_key, key) {
                return Some(i);
            }
            i = i + 1;
        }
        None
    }

    /// Looks a key up: the slot holding it, or nothing when it is absent.
    pub fn get(&self, key: &Vec<u8>) -> (r: Option<&StoredEntry>)
        requires
            self.wf(),
        ensures
            match r {
                Some(e) => self@.contains_key(key@) && self@[key@] == (e.entry@, e.ttl)
                    && e.enc_key@ == key@ && (e.ttl is Some ==> e.entry@.data.is_evictable()),
                None => !self@.contains_key(key@),
            },
    {
        proof {
            lemma_store_map_props(self.entries@);
        }
        match self.index_of(key) {
            Some(i) => Some(&self.entries[i]),
            None => {
                proof {
                    if self@.contains_key(key@) {
                        let j = choose|j: int|
                            0 <= j < self.entries@.len() && (#[trigger] self.entries@[j]).enc_key@
                                == key@;
                    }
                }
                None
            },
        }
    }

    /// Inserts or replaces an entry under its own derived key, with no TTL.
    pub fn insert(&mut self, entry: LedgerEntry)
        requires
            old(self).wf(),
            entry@.data.key() is Some,
        ensures
            final(self).wf(),
            final(self)@ == old(self)@.insert(
                key_bytes(entry@.data.key().unwrap()),
                (entry@, None),
            ),
    {
        self.insert_with_ttl(entry, None);
    }

    /// Inserts or replaces an entry under its own derived key, replacing the
    /// TTL wholesale: an absent TTL clears it.
    pub fn insert_with_ttl(&mut self, entry: LedgerEntry, ttl: Option<u32>)
        requires
            old(self).wf(),
            entry@.data.key() is Some,
            ttl is Some ==> entry@.data.is_evictable(),
        ensures
            final(self).wf(),
            final(self)@ == old(self)@.insert(
                key_bytes(entry@.data.key().unwrap()),
                (entry@, ttl),
            ),
    {
        let key = match entry.data.key() {
            Some(k) => k,
            None => {
                proof {
                    assert(false);
                }
                return ;
            },
        };
        let enc_key = key.encode();
        self.upsert(enc_key, entry, ttl);
    }

    /// The account entry stored under a key: the account when the key holds
    /// one, nothing when the key is absent, and a failure when the key holds
    /// an entry of another kind.
    pub fn get_account(&self, key: &Vec<u8>) -> (r: Result<Option<AccountEntry>, ()>)
        requires
            self.wf(),
        ensures
            match r {
                Ok(Some(a)) => self@.contains_key(key@) && self@[key@].0.data
                    == EntryDataV::Account(a@),
                Ok(None) => !self@.contains_key(key@),
                Err(_) => self@.contains_key(key@) && !(self@[key@].0.data is Account),
            },
    {
        match self.get(key) {
            None => Ok(None),
            Some(slot) => match &slot.entry.data {
                EntryData::Account(a) => Ok(Some(a.duplicate())),
                _ => Err(()),
            },
        }
    }

    /// Inserts or replaces the pair stored under `enc_key`.
    pub fn upsert(&mut self, enc_key: Vec<u8>, entry: LedgerEntry, ttl: Option<u32>)
        requires
            old(self).wf(),
            ttl is Some ==> entry@.data.is_evictable(),
        ensures
            final(self).wf(),
            final(self)@ == old(self)@.insert(enc_key@, (entry@, ttl)),
    {
        let ghost s0 = self.entries@;
        match self.index_of(&enc_key) {
            Some(i) => {
                let slot = StoredEntry { enc_key, entry, ttl };
                proof {
                    lemma_store_map_update(s0, i as int, slot);
                }
                self.entries.set(i, slot);
                assert(unique_keys(self.entries@)) by {
                    assert forall|p: int, q: int|
                        0 <= p < q < self.entries@.len() implies (#[trigger] self.entries@[p]).enc_key@
                        != (#[trigger] self.entries@[q]).enc_key@ by {
                        assert(s0[p].enc_key@ != s0[q].enc_key@);
                    }
                }
                assert(ttl_ok(self.entries@)) by {
                    assert forall|p: int|
                        0 <= p < self.entries@.len() implies ((#[trigger] self.entries@[p]).ttl
                            is Some ==> self.entries@[p].entry@.data.is_evictable()) by {
                        if p != i as int {
                            assert(self.entries@[p] == s0[p]);
                        }
                    }
                }
            },
            None => {
                let slot = StoredEntry { enc_key, entry, ttl };
                proof {
                    lemma_store_map_push(s0, slot);
                }
                self.entries.push(slot);
                assert(unique_keys(self.entries@)) by {
                    assert forall|p: int, q: int|
                        0 <= p < q < self.entries@.len() implies (#[trigger] self.entries@[p]).enc_key@
                        != (#[trigger] self.entries@[q]).enc_key@ by {
                        if q < s0.len() {
                            assert(s0[p].enc_key@ != s0[q].enc_key@);
                        } else {
                            assert(self.entries@[p] == s0[p]);
                        }
                    }
                }
                assert(ttl_ok(self.entries@)) by {
                    assert forall|p: int|
                        0 <= p < self.entries@.len() implies ((#[trigger] self.entries@[p]).ttl
                            is Some ==> self.entries@[p].entry@.data.is_evictable()) by {
                        if p < s0.len() {
                            assert(self.entries@[p] == s0[p]);
                        }
                    }
                }
            },
        }
    }

    /// Replaces the TTL stored under `key`, if the key is present. A TTL can
    /// only be set on an evictable entry; it can be cleared on any. When the
    /// key is absent, or a TTL is asked for on a non-evictable entry, the
    /// store is unchanged.
    pub fn update_ttl(&mut self, key: &Vec<u8>, ttl: Option<u32>)
        requires
            old(self).wf(),
        ensures
            final(self).wf(),
            (old(self)@.contains_key(key@) && (ttl is None
                || old(self)@[key@].0.data.is_evictable())) ==> final(self)@ == old(self)@.insert(
                key@,
                (old(self)@[key@].0, ttl),
            ),
            !(old(self)@.contains_key(key@) && (ttl is None
                || old(self)@[key@].0.data.is_evictable())) ==> final(self)@ == old(self)@,
    {
        let ghost s0 = self.entries@;
        proof {
            lemma_store_map_props(s0);
        }
        match self.index_of(key) {
            Some(i) => {
                let evictable = self.entries[i].entry.data.is_evictable();
                if ttl.is_none() || evictable {
                    proof {
                        lemma_store_map_remove(s0, i as int);
                    }
                    let slot = self.entries.remove(i);
                    let ghost s1 = self.entries@;
                    assert(unique_keys(s1)) by {
                        assert forall|p: int, q: int|
                            0 <= p < q < s1.len() implies (#[trigger] s1[p]).enc_key@
                            != (#[trigger] s1[q]).enc_key@ by {
                            let p0 = if p < i as int { p } else { p + 1 };
                            let q0 = if q < i as int { q } else { q + 1 };
                            assert(s1[p] == s0[p0]);
                            assert(s1[q] == s0[q0]);
                            assert(s0[p0].enc_key@ != s0[q0].enc_key@);
                        }
                    }
                    assert(ttl_ok(s1)) by {
                        assert forall|p: int|
                            0 <= p < s1.len() implies ((#[trigger] s1[p]).ttl is Some
                                ==> s1[p].entry@.data.is_evictable()) by {
                            let p0 = if p < i as int { p } else { p + 1 };
                            assert(s1[p] == s0[p0]);
                        }
                    }
                    let renewed = StoredEntry { enc_key: slot.enc_key, entry: slot.entry, ttl };
                    proof {
                        lemma_store_map_push(s1, renewed);
                    }
                    self.entries.push(renewed);
                    assert(unique_keys(self.entries@)) by {
                        assert forall|p: int, q: int|
                            0 <= p < q < self.entries@.len() implies (#[trigger] self.entries@[p]).enc_key@
                            != (#[trigger] self.entries@[q]).enc_key@ by {
                            if q < s1.len() {
                                assert(s1[p].enc_key@ != s1[q].enc_key@);
                            } else {
                                assert(self.entries@[p] == s1[p]);
                                let p0 = if p < i as int { p } else { p + 1 };
                                assert(s1[p] == s0[p0]);
                                assert(s0[p0].enc_key@ != s0[i as int].enc_key@);
                            }
                        }
                    }
                    assert(ttl_ok(self.entries@)) by {
                        assert forall|p: int|
                            0 <= p < self.entries@.len() implies ((#[trigger] self.entries@[p]).ttl
                                is Some ==> self.entries@[p].entry@.data.is_evictable()) by {
                            if p < s1.len() {
                                assert(self.entries@[p] == s1[p]);
                            }
                        }
                    }
                    assert(self@ =~= old(self)@.insert(key@, (old(self)@[key@].0, ttl)));
                }
            },
            None => {
                proof {
                    if self@.contains_key(key@) {
                        let j = choose|j: int|
                            0 <= j < s0.len() && (#[trigger] s0[j]).enc_key@ == key@;
                        assert(s0[j].enc_key@ == key@);
                    }
                }
            },
        }
    }

    /// Removes the pair stored under `key`, if present.
    pub fn remove(&mut self, key: &Vec<u8>)
        requires
            old(self).wf(),
        ensures
            final(self).wf(),
            final(self)@ == old(self)@.remove(key@),
    {
        let ghost s0 = self.entries@;
        match self.index_of(key) {
            Some(i) => {
                proof {
                    lemma_store_map_remove(s0, i as int);
                }
                self.entries.remove(i);
                assert(unique_keys(self.entries@)) by {
                    assert forall|p: int, q: int|
                        0 <= p < q < self.entries@.len() implies (#[trigger] self.entries@[p]).enc_key@
                        != (#[trigger] self.entries@[q]).enc_key@ by {
                        let p0 = if p < i as int { p } else { p + 1 };
                        let q0 = if q < i as int { q } else { q + 1 };
                        assert(self.entries@[p] == s0[p0]);
                        assert(self.entries@[q] == s0[q0]);
                        assert(s0[p0].enc_key@ != s0[q0].enc_key@);
                    }
                }
                assert(ttl_ok(self.entries@)) by {
                    assert forall|p: int|
                        0 <= p < self.entries@.len() implies ((#[trigger] self.entries@[p]).ttl
                            is Some ==> self.entries@[p].entry@.data.is_evictable()) by {
                        let p0 = if p < i as int { p } else { p + 1 };
                        assert(self.entries@[p] == s0[p0]);
                    }
                }
            },
            None => {
                proof {
                    lemma_store_map_props(s0);
                    if self@.contains_key(key@) {
                        let j = choose|j: int|
                            0 <= j < s0.len() && (#[trigger] s0[j]).enc_key@ == key@;
                    }
                    assert(store_map(s0).remove(key@) =~= store_map(s0));
                }
            },
        }
    }
}

} // verus!
