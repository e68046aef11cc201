//! The store of records as the ledger sees it: whole records under the
//! kind and identifier of their resource. This one keeps them in memory;
//! a persistent store obeys the same contract behind the keys of
//! `definitions`.

use vstd::prelude::*;
use crate::store::definitions::{ObjectKey, StorableObject, StorableObjectType};

verus! {

/// One record in the store, and the resource it belongs to.
pub struct Entry<R> {
    pub kind: StorableObjectType,
    pub id: Seq<char>,
    pub record: R,
}

struct Slot<R> {
    kind: StorableObjectType,
    id: String,
    record: R,
}

/// A store of records of type `R`. No two of its records belong to one
/// resource.
pub struct SpecStore<R> {
    slots: Vec<Slot<R>>,
}

/// Whether no two of `entries` belong to one resource.
pub open spec fn unique_keys<R>(entries: Seq<Entry<R>>) -> bool {
    forall|i: int, j: int|
        0 <= i < entries.len() && 0 <= j < entries.len() && i != j ==> !(entries[i].kind
            == entries[j].kind && entries[i].id == entries[j].id)
}

/// Whether the entry at `i` is that of the resource `kind`, `id`.
pub open spec fn holds_at<R>(
    entries: Seq<Entry<R>>,
    i: int,
    kind: StorableObjectType,
    id: Seq<char>,
) -> bool {
    0 <= i < entries.len() && entries[i].kind == kind && entries[i].id == id
}

/// Where among `entries` the record of the resource `kind`, `id` is, if
/// there is one.
pub open spec fn position_of<R>(
    entries: Seq<Entry<R>>,
    kind: StorableObjectType,
    id: Seq<char>,
) -> Option<int> {
    if exists|i: int| holds_at(entries, i, kind, id) {
        Some(choose|i: int| holds_at(entries, i, kind, id))
    } else {
        None
    }
}

/// The record of the resource `kind`, `id` among `entries`, if there is
/// one.
pub open spec fn record_of<R>(
    entries: Seq<Entry<R>>,
    kind: StorableObjectType,
    id: Seq<char>,
) -> Option<R> {
    match position_of(entries, kind, id) {
        Some(i) => Some(entries[i].record),
        None => None,
    }
}

/// The records of kind `kind` among `entries`, in the order in which their
/// resources first came into the store.
pub open spec fn records_of<R>(entries: Seq<Entry<R>>, kind: StorableObjectType) -> Seq<R>
    decreases entries.len(),
{
    if entries.len() == 0 {
        Seq::empty()
    } else if entries.last().kind == kind {
        records_of(entries.drop_last(), kind).push(entries.last().record)
    } else {
        records_of(entries.drop_last(), kind)
    }
}

/// The entries after a put: the record takes the place of the one that
/// the resource had, or comes last where it had none.
pub open spec fn entries_after_put<R>(
    entries: Seq<Entry<R>>,
    kind: StorableObjectType,
    id: Seq<char>,
    record: R,
) -> Seq<Entry<R>> {
    match position_of(entries, kind, id) {
        Some(i) => entries.update(i, Entry { kind, id, record }),
        None => entries.push(Entry { kind, id, record }),
    }
}

/// The entries after a delete: without the record of the resource, if it
/// had one.
pub open spec fn entries_after_delete<R>(
    entries: Seq<Entry<R>>,
    kind: StorableObjectType,
    id: Seq<char>,
) -> Seq<Entry<R>> {
    match position_of(entries, kind, id) {
        Some(i) => entries.remove(i),
        None => entries,
    }
}

/// Where no two entries belong to one resource, the place where a
/// resource's record is found is its position.
pub proof fn lemma_position_is_unique<R>(
    entries: Seq<Entry<R>>,
    i: int,
    kind: StorableObjectType,
    id: Seq<char>,
)
    requires
        unique_keys(entries),
        holds_at(entries, i, kind, id),
    ensures
        position_of(entries, kind, id) == Some(i),
{
    let found = choose|j: int| holds_at(entries, j, kind, id);
    assert(holds_at(entries, found, kind, id));
    if found != i {
        assert(entries[found].kind == entries[i].kind && entries[found].id == entries[i].id);
    }
}

impl<R> SpecStore<R> {
    #[verifier::type_invariant]
    spec fn well_formed(self) -> bool {
        unique_keys(self.entries())
    }

    /// What the store holds.
    pub closed spec fn entries(self) -> Seq<Entry<R>> {
        Seq::new(
            self.slots@.len(),
            |i: int|
                Entry {
                    kind: self.slots@[i].kind,
                    id: self.slots@[i].id@,
                    record: self.slots@[i].record,
                },
        )
    }

    /// An empty store.
    pub fn new() -> (store: Self)
        ensures
            store.entries() == Seq::<Entry<R>>::empty(),
    {
        let store = SpecStore { slots: Vec::new() };
        assert(store.entries() =~= Seq::<Entry<R>>::empty());
        store
    }

    /// The number of records in the store.
    pub fn len(&self) -> (count: usize)
        ensures
            count == self.entries().len(),
    {
        self.slots.len()
    }

    fn find(&self, kind: StorableObjectType, id: &String) -> (found: Option<usize>)
        ensures
            match found {
                Some(i) => position_of(self.entries(), kind, id@) == Some(i as int) && holds_at(
                    self.entries(),
                    i as int,
                    kind,
                    id@,
                ),
                None => position_of(self.entries(), kind, id@) is None,
            },
    {
        proof {
            use_type_invariant(self);
        }
        let mut i: usize = 0;
        while i < self.slots.len()
            invariant
                i <= self.slots.len(),
                unique_keys(self.entries()),
                forall|j: int| 0 <= j < i ==> !holds_at(self.entries(), j, kind, id@),
            decreases self.slots.len() - i,
        {
            if self.slots[i].kind == kind && self.slots[i].id == *id {
                proof {
                    lemma_position_is_unique(self.entries(), i as int, kind, id@);
                }
                return Some(i);
            }
            i += 1;
        }
        None
    }

    /// The record of the resource `kind`, `id`, if the store holds one.
    pub fn get(&self, kind: StorableObjectType, id: &String) -> (record: Option<&R>)
        ensures
            match record {
                Some(record) => record_of(self.entries(), kind, id@) == Some(*record),
                None => record_of(self.entries(), kind, id@) is None,
            },
    {
        match self.find(kind, id) {
            Some(i) => Some(&self.slots[i].record),
            None => None,
        }
    }

    /// Stores `record` as the whole record of the resource `kind`, `id`.
    pub fn put(&mut self, kind: StorableObjectType, id: String, record: R)
        ensures
            final(self).entries() == entries_after_put(old(self).entries(), kind, id@, record),
            record_of(final(self).entries(), kind, id@) == Some(record),
    {
        proof {
            use_type_invariant(&*self);
        }
        let ghost before = self.entries();
        let ghost key = id@;
        let found = self.find(kind, &id);
        let mut slots: Vec<Slot<R>> = Vec::new();
        core::mem::swap(&mut self.slots, &mut slots);
        match found {
            Some(i) => {
                slots.set(i, Slot { kind, id, record });
            },
            None => {
                slots.push(Slot { kind, id, record });
            },
        }
        proof {
            let after = (SpecStore { slots }).entries();
            assert(after =~= entries_after_put(before, kind, key, record));
            lemma_put_then_get(before, kind, key, record, kind, key);
        }
        core::mem::swap(&mut self.slots, &mut slots);
    }

    /// Removes the record of the resource `kind`, `id`, and says whether
    /// there was one.
    pub fn delete(&mut self, kind: StorableObjectType, id: &String) -> (removed: bool)
        ensures
            final(self).entries() == entries_after_delete(old(self).entries(), kind, id@),
            removed == record_of(old(self).entries(), kind, id@).is_some(),
            record_of(final(self).entries(), kind, id@) is None,
    {
        proof {
            use_type_invariant(&*self);
        }
        let ghost before = self.entries();
        match self.find(kind, id) {
            Some(i) => {
                let mut slots: Vec<Slot<R>> = Vec::new();
                core::mem::swap(&mut self.slots, &mut slots);
                slots.remove(i);
                proof {
                    let after = (SpecStore { slots }).entries();
                    assert(after =~= before.remove(i as int));
                    assert forall|j: int| !holds_at(after, j, kind, id@) by {
                        if 0 <= j < after.len() {
                            let k = if j < i { j } else { j + 1 };
                            assert(after[j] == before[k]);
                        }
                    }
                    assert(unique_keys(after)) by {
                        assert forall|a: int, b: int|
                            0 <= a < after.len() && 0 <= b < after.len() && a != b implies !(
                        after[a].kind == after[b].kind && after[a].id == after[b].id) by {
                            let ka = if a < i { a } else { a + 1 };
                            let kb = if b < i { b } else { b + 1 };
                            assert(after[a] == before[ka]);
                            assert(after[b] == before[kb]);
                        }
                    }
                }
                core::mem::swap(&mut self.slots, &mut slots);
                true
            },
            None => false,
        }
    }

    /// The records of kind `kind`, in the order in which their resources
    /// first came into the store.
    pub fn list(&self, kind: StorableObjectType) -> (records: Vec<&R>)
        ensures
            records.len() == records_of(self.entries(), kind).len(),
            forall|k: int|
                0 <= k < records.len() ==> *(#[trigger] records[k]) == records_of(
                    self.entries(),
                    kind,
                )[k],
    {
        let mut records: Vec<&R> = Vec::new();
        let mut i: usize = 0;
        let ghost entries = self.entries();
        while i < self.slots.len()
            invariant
                i <= self.slots.len(),
                entries == self.entries(),
                records.len() == records_of(entries.take(i as int), kind).len(),
                forall|k: int|
                    0 <= k < records.len() ==> *(#[trigger] records[k]) == records_of(
                        entries.take(i as int),
                        kind,
                    )[k],
            decreases self.slots.len() - i,
        {
            proof {
                assert(entries.take(i + 1).drop_last() =~= entries.take(i as int));
                assert(entries.take(i + 1).last() == entries[i as int]);
            }
            if self.slots[i].kind == kind {
                records.push(&self.slots[i].record);
            }
            i += 1;
        }
        proof {
            assert(entries.take(i as int) =~= entries);
        }
        records
    }
}

impl<R> SpecStore<R> {
    /// The record that `key` names, if the store holds one.
    pub fn get_obj<K: ObjectKey>(&self, key: &K) -> (record: Option<&R>)
        ensures
            match record {
                Some(record) => record_of(self.entries(), key.kind(), key.uuid()) == Some(*record),
                None => record_of(self.entries(), key.kind(), key.uuid()) is None,
            },
    {
        let id = key.key_uuid();
        self.get(key.key_type(), &id)
    }

    /// Removes the record that `key` names, and says whether there was one.
    pub fn delete_obj<K: ObjectKey>(&mut self, key: &K) -> (removed: bool)
        ensures
            final(self).entries() == entries_after_delete(
                old(self).entries(),
                key.kind(),
                key.uuid(),
            ),
            removed == record_of(old(self).entries(), key.kind(), key.uuid()).is_some(),
    {
        let id = key.key_uuid();
        self.delete(key.key_type(), &id)
    }
}

impl<R: StorableObject> SpecStore<R> {
    /// Stores `record` under the key of its own.
    pub fn put_obj(&mut self, record: R)
        ensures
            final(self).entries() == entries_after_put(
                old(self).entries(),
                record.object_kind(),
                record.object_uuid(),
                record,
            ),
            record_of(final(self).entries(), record.object_kind(), record.object_uuid()) == Some(
                record,
            ),
    {
        let key = record.key();
        self.put(key.key_type(), key.key_uuid(), record)
    }
}

/// What is put is what is got, and nothing else moves: after a put, the
/// resource's record is the one that was put, and every other resource has
/// the record it had.
pub proof fn lemma_put_then_get<R>(
    entries: Seq<Entry<R>>,
    kind: StorableObjectType,
    id: Seq<char>,
    record: R,
    other_kind: StorableObjectType,
    other_id: Seq<char>,
)
    requires
        unique_keys(entries),
    ensures
        unique_keys(entries_after_put(entries, kind, id, record)),
        record_of(entries_after_put(entries, kind, id, record), kind, id) == Some(record),
        other_kind != kind || other_id != id ==> record_of(
            entries_after_put(entries, kind, id, record),
            other_kind,
            other_id,
        ) == record_of(entries, other_kind, other_id),
{
    let after = entries_after_put(entries, kind, id, record);
    let at = match position_of(entries, kind, id) {
        Some(i) => i,
        None => entries.len() as int,
    };
    assert(holds_at(after, at, kind, id));
    assert forall|a: int, b: int|
        0 <= a < after.len() && 0 <= b < after.len() && a != b implies !(after[a].kind
        == after[b].kind && after[a].id == after[b].id) by {
        if a == at {
            if after[b].kind == kind && after[b].id == id {
                assert(holds_at(entries, b, kind, id));
                lemma_position_is_unique(entries, b, kind, id);
            }
        } else if b == at {
            if after[a].kind == kind && after[a].id == id {
                assert(holds_at(entries, a, kind, id));
                lemma_position_is_unique(entries, a, kind, id);
            }
        } else {
            assert(after[a] == entries[a] && after[b] == entries[b]);
        }
    }
    lemma_position_is_unique(after, at, kind, id);
    if other_kind != kind || other_id != id {
        match position_of(entries, other_kind, other_id) {
            Some(i) => {
                assert(holds_at(entries, i, other_kind, other_id));
                assert(holds_at(after, i, other_kind, other_id));
                lemma_position_is_unique(after, i, other_kind, other_id);
            },
            None => {
                assert forall|j: int| !holds_at(after, j, other_kind, other_id) by {
                    if holds_at(after, j, other_kind, other_id) {
                        assert(holds_at(entries, j, other_kind, other_id));
                    }
                }
            },
        }
    }
}

} // verus!
