//! Maps keyed by object references.
use crate::entries::{
    entries_map, has_key, keys_unique, lemma_absent_not_in_map, lemma_entry_in_map,
    lemma_map_len, lemma_push_new, lemma_remove_entry, lemma_update_value,
};
use crate::object_ref::{ObjectRef, ObjectRefView};
use vstd::prelude::*;

verus! {

/// The view of a list of entries keyed by references.
pub open spec fn ref_entries<V>(s: Seq<(ObjectRef, V)>) -> Seq<(ObjectRefView, V)> {
    s.map_values(|e: (ObjectRef, V)| (e.0@, e.1))
}

pub(crate) fn find_ref<V>(entries: &Vec<(ObjectRef, V)>, key: &ObjectRef) -> (r: Option<usize>)
    ensures
        match r {
            Some(i) => i < entries.len() && ref_entries(entries@)[i as int].0 == key@,
            None => !has_key(ref_entries(entries@), key@),
        },
{
    let mut i: usize = 0;
    while i < entries.len()
        invariant
            i <= entries.len(),
            forall|j: int| 0 <= j < i ==> ref_entries(entries@)[j].0 != key@,
        decreases entries.len() - i,
    {
        if entries[i].0.same_as(key) {
            return Some(i);
        }
        i += 1;
    }
    None
}

pub(crate) fn upsert_ref<V>(entries: &mut Vec<(ObjectRef, V)>, key: ObjectRef, value: V)
    requires
        keys_unique(ref_entries(old(entries)@)),
    ensures
        keys_unique(ref_entries(final(entries)@)),
        entries_map(ref_entries(final(entries)@)) == entries_map(ref_entries(old(entries)@)).insert(
            key@,
            value,
        ),
{
    let ghost k = key@;
    match find_ref(entries, &key) {
        Some(i) => {
            proof {
                lemma_update_value(ref_entries(entries@), i as int, value);
            }
            entries.set(i, (key, value));
            assert(ref_entries(entries@) =~= ref_entries(old(entries)@).update(
                i as int,
                (k, value),
            ));
        },
        None => {
            proof {
                lemma_push_new(ref_entries(entries@), k, value);
            }
            entries.push((key, value));
            assert(ref_entries(entries@) =~= ref_entries(old(entries)@).push((k, value)));
        },
    }
}

pub(crate) fn remove_ref<V>(entries: &mut Vec<(ObjectRef, V)>, key: &ObjectRef)
    requires
        keys_unique(ref_entries(old(entries)@)),
    ensures
        keys_unique(ref_entries(final(entries)@)),
        entries_map(ref_entries(final(entries)@)) == entries_map(
            ref_entries(old(entries)@),
        ).remove(key@),
{
    match find_ref(entries, key) {
        Some(i) => {
            proof {
                lemma_remove_entry(ref_entries(entries@), i as int);
            }
            entries.remove(i);
            assert(ref_entries(entries@) =~= ref_entries(old(entries)@).remove(i as int));
        },
        None => {
            proof {
                lemma_absent_not_in_map(ref_entries(entries@), key@);
            }
            assert(entries_map(ref_entries(entries@)) =~= entries_map(
                ref_entries(entries@),
            ).remove(key@));
        },
    }
}

/// A map from object references to values, each reference at most once.
pub struct RefMap<V> {
    entries: Vec<(ObjectRef, V)>,
}

impl<V> RefMap<V> {
    /// The map's contents.
    pub closed spec fn map(&self) -> Map<ObjectRefView, V> {
        entries_map(ref_entries(self.entries@))
    }

    /// The entries in the order in which their references were first inserted.
    pub closed spec fn order(&self) -> Seq<(ObjectRefView, V)> {
        ref_entries(self.entries@)
    }

    /// Well-formedness: no reference occurs twice.
    pub closed spec fn wf(&self) -> bool {
        keys_unique(ref_entries(self.entries@))
    }

    /// The ordered entries hold each reference of the map once, with its value.
    pub proof fn lemma_order(&self)
        requires
            self.wf(),
        ensures
            keys_unique(self.order()),
            entries_map(self.order()) == self.map(),
            self.map().dom().finite(),
            self.map().dom().len() == self.order().len(),
    {
        lemma_map_len(ref_entries(self.entries@));
    }

    /// A map with no entry.
    pub fn new() -> (r: RefMap<V>)
        ensures
            r.wf(),
            r.map() == Map::<ObjectRefView, V>::empty(),
            r.order() == Seq::<(ObjectRefView, V)>::empty(),
    {
        let r = RefMap { entries: Vec::new() };
        assert(r.map() =~= Map::empty());
        assert(r.order() =~= Seq::empty());
        r
    }

    /// Inserts a value under a reference, replacing any value held there.
    pub fn insert(&mut self, key: ObjectRef, value: V)
        requires
            old(self).wf(),
        ensures
            final(self).wf(),
            final(self).map() == old(self).map().insert(key@, value),
    {
        upsert_ref(&mut self.entries, key, value);
    }

    /// Removes whatever is held under a reference.
    pub fn remove(&mut self, key: &ObjectRef)
        requires
            old(self).wf(),
        ensures
            final(self).wf(),
            final(self).map() == old(self).map().remove(key@),
    {
        remove_ref(&mut self.entries, key);
    }

    /// The value held under a reference.
    pub fn get(&self, key: &ObjectRef) -> (r: Option<&V>)
        requires
            self.wf(),
        ensures
            match r {
                Some(v) => self.map().dom().contains(key@) && self.map()[key@] == *v,
                None => !self.map().dom().contains(key@),
            },
    {
        match find_ref(&self.entries, key) {
            Some(i) => {
                proof {
                    lemma_entry_in_map(ref_entries(self.entries@), i as int);
                }
                Some(&self.entries[i].1)
            },
            None => None,
        }
    }

    /// Whether a value is held under a reference.
    pub fn contains_key(&self, key: &ObjectRef) -> (b: bool)
        requires
            self.wf(),
        ensures
            b == self.map().dom().contains(key@),
    {
        match self.get(key) {
            Some(_) => true,
            None => false,
        }
    }

    /// The number of references held.
    pub fn len(&self) -> (n: usize)
        requires
            self.wf(),
        ensures
            self.map().dom().finite(),
            n == self.map().dom().len(),
    {
        proof {
            lemma_map_len(ref_entries(self.entries@));
        }
        self.entries.len()
    }

    /// The entries, in the order in which their references were first inserted.
    pub fn entries(&self) -> (r: &Vec<(ObjectRef, V)>)
        ensures
            ref_entries(r@) == self.order(),
    {
        &self.entries
    }
}

} // verus!
