//! A set of Kubernetes objects of one kind, indexed both by reference and by
//! unique identifier.
use crate::entries::{
    entries_map, has_key, keys_unique, lemma_absent_not_in_map, lemma_entry_in_map,
    lemma_map_len, lemma_push_new, lemma_remove_entry, lemma_update_value,
};
use crate::object_ref::{
    group_of, KubeObject, ObjectRef, ObjectRefBuilderView, ObjectRefView, ObjectUniqueId,
};
use crate::ref_map::{find_ref, ref_entries, remove_ref, upsert_ref};
use crate::text::opt_view;
use std::sync::Arc;
use vstd::prelude::*;

verus! {

/// A second handle on a shared object: it points to the same allocation.
#[verifier::external_body]
pub(crate) fn arc_clone<T>(a: &Arc<T>) -> (r: Arc<T>)
    ensures
        r == *a,
{
    Arc::clone(a)
}

/// The reference of an object: the kind, version and group of its resource
/// kind, and its namespace and name.
pub open spec fn object_ref_of<T>(o: KubeObject<T>) -> ObjectRefView {
    ObjectRefView {
        kind: o.resource.kind@,
        version: o.resource.version@,
        group: group_of(o.resource.group@),
        namespace: opt_view(o.metadata.namespace),
        name: o.metadata.name->0@,
    }
}

/// The unique identifier of an object that has one.
pub open spec fn uid_of<T>(o: KubeObject<T>) -> Seq<char> {
    o.metadata.uid->0@
}

/// The keys under which an object is filed: its reference and its unique
/// identifier, when it has both a name and a unique identifier.
pub open spec fn object_keys<T>(o: KubeObject<T>) -> Option<(ObjectRefView, Seq<char>)> {
    if o.metadata.name is Some && o.metadata.uid is Some {
        Some((object_ref_of(o), o.metadata.uid->0@))
    } else {
        None
    }
}

/// The view of a list of entries keyed by unique identifiers.
pub open spec fn uid_entries<V>(s: Seq<(ObjectUniqueId, V)>) -> Seq<(Seq<char>, V)> {
    s.map_values(|e: (ObjectUniqueId, V)| (e.0@, e.1))
}

/// The error of filing an object that lacks a name or a unique identifier.
#[derive(Debug, Clone, Copy, PartialEq, Eq)]
pub enum ObjectsError {
    InvalidKeys,
}

/// An item of [`Objects::iter`].
pub type ObjectItem<T> = (ObjectRef, ObjectUniqueId, Arc<KubeObject<T>>);

/// Objects of one kind filed by reference and by unique identifier.
pub struct Objects<T> {
    by_ref: Vec<(ObjectRef, Arc<KubeObject<T>>)>,
    by_unique_id: Vec<(ObjectUniqueId, Arc<KubeObject<T>>)>,
}

/// The items that iterating over entries filed by reference yields: each
/// entry whose object has a unique identifier, with that identifier.
pub open spec fn iter_items<T>(s: Seq<(ObjectRefView, Arc<KubeObject<T>>)>) -> Seq<
    (ObjectRefView, Seq<char>, Arc<KubeObject<T>>),
>
    decreases s.len(),
{
    if s.len() == 0 {
        Seq::empty()
    } else {
        let rest = iter_items(s.drop_last());
        let (r, o) = s.last();
        match o.metadata.uid {
            Some(uid) => rest.push((r, uid@, o)),
            None => rest,
        }
    }
}

/// The map built by filing each item in turn, later items replacing earlier
/// ones under the same reference.
pub open spec fn fold_by_ref<T>(s: Seq<(ObjectRefView, Seq<char>, Arc<KubeObject<T>>)>) -> Map<
    ObjectRefView,
    Arc<KubeObject<T>>,
>
    decreases s.len(),
{
    if s.len() == 0 {
        Map::empty()
    } else {
        fold_by_ref(s.drop_last()).insert(s.last().0, s.last().2)
    }
}

/// The map built by filing each item in turn, later items replacing earlier
/// ones under the same unique identifier.
pub open spec fn fold_by_uid<T>(s: Seq<(ObjectRefView, Seq<char>, Arc<KubeObject<T>>)>) -> Map<
    Seq<char>,
    Arc<KubeObject<T>>,
>
    decreases s.len(),
{
    if s.len() == 0 {
        Map::empty()
    } else {
        fold_by_uid(s.drop_last()).insert(s.last().1, s.last().2)
    }
}

/// The view of a list of items.
pub open spec fn items_view<T>(s: Seq<ObjectItem<T>>) -> Seq<
    (ObjectRefView, Seq<char>, Arc<KubeObject<T>>),
> {
    s.map_values(|e: ObjectItem<T>| (e.0@, e.1@, e.2))
}

fn find_uid<V>(entries: &Vec<(ObjectUniqueId, V)>, key: &ObjectUniqueId) -> (r: Option<usize>)
    ensures
        match r {
            Some(i) => i < entries.len() && uid_entries(entries@)[i as int].0 == key@,
            None => !has_key(uid_entries(entries@), key@),
        },
{
    let mut i: usize = 0;
    while i < entries.len()
        invariant
            i <= entries.len(),
            forall|j: int| 0 <= j < i ==> uid_entries(entries@)[j].0 != key@,
        decreases entries.len() - i,
    {
        if entries[i].0.id().eq(key.id()) {
            return Some(i);
        }
        i += 1;
    }
    None
}

fn upsert_uid<V>(entries: &mut Vec<(ObjectUniqueId, V)>, key: ObjectUniqueId, value: V)
    requires
        keys_unique(uid_entries(old(entries)@)),
    ensures
        keys_unique(uid_entries(final(entries)@)),
        entries_map(uid_entries(final(entries)@)) == entries_map(uid_entries(old(entries)@)).insert(
            key@,
            value,
        ),
{
    let ghost k = key@;
    match find_uid(entries, &key) {
        Some(i) => {
            proof {
                lemma_update_value(uid_entries(entries@), i as int, value);
            }
            entries.set(i, (key, value));
            assert(uid_entries(entries@) =~= uid_entries(old(entries)@).update(
                i as int,
                (k, value),
            ));
        },
        None => {
            proof {
                lemma_push_new(uid_entries(entries@), k, value);
            }
            entries.push((key, value));
            assert(uid_entries(entries@) =~= uid_entries(old(entries)@).push((k, value)));
        },
    }
}

fn remove_uid<V>(entries: &mut Vec<(ObjectUniqueId, V)>, key: &ObjectUniqueId)
    requires
        keys_unique(uid_entries(old(entries)@)),
    ensures
        keys_unique(uid_entries(final(entries)@)),
        entries_map(uid_entries(final(entries)@)) == entries_map(
            uid_entries(old(entries)@),
        ).remove(key@),
{
    match find_uid(entries, key) {
        Some(i) => {
            proof {
                lemma_remove_entry(uid_entries(entries@), i as int);
            }
            entries.remove(i);
            assert(uid_entries(entries@) =~= uid_entries(old(entries)@).remove(i as int));
        },
        None => {
            proof {
                lemma_absent_not_in_map(uid_entries(entries@), key@);
            }
            assert(entries_map(uid_entries(entries@)) =~= entries_map(
                uid_entries(entries@),
            ).remove(key@));
        },
    }
}

impl<T> Objects<T> {
    /// The objects filed by reference.
    pub closed spec fn by_ref_map(&self) -> Map<ObjectRefView, Arc<KubeObject<T>>> {
        entries_map(ref_entries(self.by_ref@))
    }

    /// The objects filed by unique identifier.
    pub closed spec fn by_uid_map(&self) -> Map<Seq<char>, Arc<KubeObject<T>>> {
        entries_map(uid_entries(self.by_unique_id@))
    }

    /// The references in the order in which they were first filed.
    pub closed spec fn ref_order(&self) -> Seq<(ObjectRefView, Arc<KubeObject<T>>)> {
        ref_entries(self.by_ref@)
    }

    /// Well-formedness: no key is filed twice.
    pub closed spec fn wf(&self) -> bool {
        &&& keys_unique(ref_entries(self.by_ref@))
        &&& keys_unique(uid_entries(self.by_unique_id@))
    }

    /// The listing order holds exactly the references filed, once each.
    pub proof fn lemma_ref_order(&self)
        requires
            self.wf(),
        ensures
            keys_unique(self.ref_order()),
            entries_map(self.ref_order()) == self.by_ref_map(),
    {
    }

    /// An empty set of objects.
    pub fn new() -> (r: Objects<T>)
        ensures
            r.wf(),
            r.by_ref_map() == Map::<ObjectRefView, Arc<KubeObject<T>>>::empty(),
            r.by_uid_map() == Map::<Seq<char>, Arc<KubeObject<T>>>::empty(),
    {
        let r = Objects { by_ref: Vec::new(), by_unique_id: Vec::new() };
        assert(r.by_ref_map() =~= Map::empty());
        assert(r.by_uid_map() =~= Map::empty());
        r
    }

    /// The number of objects filed by reference.
    pub fn size(&self) -> (n: usize)
        requires
            self.wf(),
        ensures
            self.by_ref_map().dom().finite(),
            n == self.by_ref_map().dom().len(),
    {
        proof {
            lemma_map_len(ref_entries(self.by_ref@));
        }
        self.by_ref.len()
    }

    /// Whether no object is filed by reference.
    pub fn is_empty(&self) -> (b: bool)
        requires
            self.wf(),
        ensures
            b == (self.by_ref_map().dom() == Set::<ObjectRefView>::empty()),
    {
        proof {
            lemma_map_len(ref_entries(self.by_ref@));
            if self.by_ref@.len() != 0 {
                lemma_entry_in_map(ref_entries(self.by_ref@), 0);
                assert(self.by_ref_map().dom().contains(ref_entries(self.by_ref@)[0].0));
            } else {
                assert(self.by_ref_map().dom() =~= Set::<ObjectRefView>::empty());
            }
        }
        self.by_ref.len() == 0
    }

    /// The reference and the unique identifier of an object, when it has a
    /// name and a unique identifier.
    pub fn keys(object: &KubeObject<T>) -> (r: Option<(ObjectRef, ObjectUniqueId)>)
        ensures
            match (r, object_keys(*object)) {
                (Some((a, b)), Some((c, d))) => a@ == c && b@ == d,
                (None, None) => true,
                _ => false,
            },
    {
        let mut builder = ObjectRef::new_builder();
        builder.for_object(object);
        let object_ref = match builder.build() {
            Ok(r) => r,
            Err(_) => return None,
        };
        let uid = match &object.metadata.uid {
            Some(u) => u.clone(),
            None => return None,
        };
        Some((object_ref, ObjectUniqueId::new(uid)))
    }

    /// Files an object under its reference and its unique identifier,
    /// replacing whatever was filed under either; an object without a name or
    /// a unique identifier is refused and nothing changes.
    pub fn insert(&mut self, object: Arc<KubeObject<T>>) -> (r: Result<(), ObjectsError>)
        requires
            old(self).wf(),
        ensures
            final(self).wf(),
            match object_keys(*object) {
                Some((k, u)) => {
                    &&& r is Ok
                    &&& final(self).by_ref_map() == old(self).by_ref_map().insert(k, object)
                    &&& final(self).by_uid_map() == old(self).by_uid_map().insert(u, object)
                },
                None => {
                    &&& r == Err::<(), ObjectsError>(ObjectsError::InvalidKeys)
                    &&& final(self).by_ref_map() == old(self).by_ref_map()
                    &&& final(self).by_uid_map() == old(self).by_uid_map()
                },
            },
    {
        let (object_ref, unique_id) = match Self::keys(&object) {
            Some(k) => k,
            None => return Err(ObjectsError::InvalidKeys),
        };
        upsert_ref(&mut self.by_ref, object_ref, arc_clone(&object));
        upsert_uid(&mut self.by_unique_id, unique_id, object);
        Ok(())
    }

    /// Removes whatever is filed under the object's reference and under its
    /// unique identifier; an object without a name or a unique identifier is
    /// refused and nothing changes.
    pub fn remove(&mut self, object: &KubeObject<T>) -> (r: Result<(), ObjectsError>)
        requires
            old(self).wf(),
        ensures
            final(self).wf(),
            match object_keys(*object) {
                Some((k, u)) => {
                    &&& r is Ok
                    &&& final(self).by_ref_map() == old(self).by_ref_map().remove(k)
                    &&& final(self).by_uid_map() == old(self).by_uid_map().remove(u)
                },
                None => {
                    &&& r == Err::<(), ObjectsError>(ObjectsError::InvalidKeys)
                    &&& final(self).by_ref_map() == old(self).by_ref_map()
                    &&& final(self).by_uid_map() == old(self).by_uid_map()
                },
            },
    {
        let (object_ref, unique_id) = match Self::keys(object) {
            Some(k) => k,
            None => return Err(ObjectsError::InvalidKeys),
        };
        remove_ref(&mut self.by_ref, &object_ref);
        remove_uid(&mut self.by_unique_id, &unique_id);
        Ok(())
    }

    /// The object filed under a reference.
    pub fn get_by_ref(&self, object_ref: &ObjectRef) -> (r: Option<Arc<KubeObject<T>>>)
        requires
            self.wf(),
        ensures
            match r {
                Some(o) => self.by_ref_map().dom().contains(object_ref@) && self.by_ref_map()[object_ref@]
                    == o,
                None => !self.by_ref_map().dom().contains(object_ref@),
            },
    {
        match find_ref(&self.by_ref, object_ref) {
            Some(i) => {
                proof {
                    lemma_entry_in_map(ref_entries(self.by_ref@), i as int);
                }
                Some(arc_clone(&self.by_ref[i].1))
            },
            None => None,
        }
    }

    /// The object filed under a unique identifier.
    pub fn get_by_unique_id(&self, unique_id: &ObjectUniqueId) -> (r: Option<Arc<KubeObject<T>>>)
        requires
            self.wf(),
        ensures
            match r {
                Some(o) => self.by_uid_map().dom().contains(unique_id@) && self.by_uid_map()[unique_id@]
                    == o,
                None => !self.by_uid_map().dom().contains(unique_id@),
            },
    {
        match find_uid(&self.by_unique_id, unique_id) {
            Some(i) => {
                proof {
                    lemma_entry_in_map(uid_entries(self.by_unique_id@), i as int);
                }
                Some(arc_clone(&self.by_unique_id[i].1))
            },
            None => None,
        }
    }

    /// Whether an object is filed under a reference.
    pub fn contains_by_ref(&self, object_ref: &ObjectRef) -> (b: bool)
        requires
            self.wf(),
        ensures
            b == self.by_ref_map().dom().contains(object_ref@),
    {
        match find_ref(&self.by_ref, object_ref) {
            Some(i) => {
                proof {
                    lemma_entry_in_map(ref_entries(self.by_ref@), i as int);
                }
                true
            },
            None => false,
        }
    }

    /// Whether an object is filed under a unique identifier.
    pub fn contains_by_unique_id(&self, unique_id: &ObjectUniqueId) -> (b: bool)
        requires
            self.wf(),
        ensures
            b == self.by_uid_map().dom().contains(unique_id@),
    {
        match find_uid(&self.by_unique_id, unique_id) {
            Some(i) => {
                proof {
                    lemma_entry_in_map(uid_entries(self.by_unique_id@), i as int);
                }
                true
            },
            None => false,
        }
    }

    /// The references under which objects are filed, each once.
    pub fn cloned_refs(&self) -> (r: Vec<ObjectRef>)
        requires
            self.wf(),
        ensures
            r@.len() == self.ref_order().len(),
            forall|i: int| 0 <= i < r@.len() ==> #[trigger] r@[i]@ == self.ref_order()[i].0,
    {
        let mut r: Vec<ObjectRef> = Vec::new();
        let mut i: usize = 0;
        while i < self.by_ref.len()
            invariant
                i <= self.by_ref.len(),
                r@.len() == i,
                forall|j: int| 0 <= j < i ==> #[trigger] r@[j]@ == ref_entries(self.by_ref@)[j].0,
            decreases self.by_ref.len() - i,
        {
            r.push(self.by_ref[i].0.clone());
            i += 1;
        }
        r
    }

    /// Each object filed by reference that has a unique identifier, with its
    /// reference and that identifier; objects without one are skipped.
    pub fn iter(&self) -> (r: Vec<ObjectItem<T>>)
        requires
            self.wf(),
        ensures
            items_view(r@) == iter_items(self.ref_order()),
    {
        let mut r: Vec<ObjectItem<T>> = Vec::new();
        let mut i: usize = 0;
        while i < self.by_ref.len()
            invariant
                i <= self.by_ref.len(),
                items_view(r@) == iter_items(ref_entries(self.by_ref@).take(i as int)),
            decreases self.by_ref.len() - i,
        {
            let ghost before = r@;
            let object = arc_clone(&self.by_ref[i].1);
            assert(ref_entries(self.by_ref@).take(i + 1).drop_last() =~= ref_entries(
                self.by_ref@,
            ).take(i as int));
            match &object.metadata.uid {
                Some(uid) => {
                    r.push((self.by_ref[i].0.clone(), ObjectUniqueId::new(uid.clone()), object));
                    assert(items_view(r@) =~= items_view(before).push(
                        (ref_entries(self.by_ref@)[i as int].0, uid@, object),
                    ));
                },
                None => {},
            }
            i += 1;
        }
        assert(ref_entries(self.by_ref@).take(self.by_ref.len() as int) =~= ref_entries(
            self.by_ref@,
        ));
        r
    }

    /// The objects made by filing each item in turn under its reference and
    /// its unique identifier; later items replace earlier ones.
    pub fn from_items(items: Vec<ObjectItem<T>>) -> (r: Objects<T>)
        ensures
            r.wf(),
            r.by_ref_map() == fold_by_ref(items_view(items@)),
            r.by_uid_map() == fold_by_uid(items_view(items@)),
    {
        let mut objects = Objects::new();
        let mut items = items;
        let ghost all = items_view(items@);
        let mut rest: Vec<ObjectItem<T>> = Vec::new();
        // Take the items in order by reversing the vector first.
        while items.len() > 0
            invariant
                items_view(items@) + items_view(rest@).reverse() == all,
            decreases items.len(),
        {
            let ghost before_items = items@;
            let ghost before_rest = rest@;
            let item = items.pop().unwrap();
            rest.push(item);
            assert(items_view(before_items) =~= items_view(items@).push(items_view(rest@).last()));
            assert(items_view(rest@).reverse() =~= seq![items_view(rest@).last()] + items_view(
                before_rest,
            ).reverse());
            assert(items_view(items@) + items_view(rest@).reverse() =~= all);
        }
        assert(items_view(rest@).reverse() =~= all);
        let ghost n = rest@.len();
        while rest.len() > 0
            invariant
                objects.wf(),
                rest@.len() <= n,
                n == all.len(),
                items_view(rest@).reverse() =~= all.subrange(n - rest@.len(), n as int),
                objects.by_ref_map() == fold_by_ref(all.take(n - rest@.len())),
                objects.by_uid_map() == fold_by_uid(all.take(n - rest@.len())),
            decreases rest.len(),
        {
            let ghost before_rest = rest@;
            let (object_ref, unique_id, object) = rest.pop().unwrap();
            let ghost done = n - before_rest.len();
            assert(items_view(before_rest).reverse()[0] == all[done]);
            assert(all.take(done + 1).drop_last() =~= all.take(done));
            upsert_ref(&mut objects.by_ref, object_ref, arc_clone(&object));
            upsert_uid(&mut objects.by_unique_id, unique_id, object);
            assert(items_view(rest@).reverse() =~= all.subrange(n - rest@.len(), n as int)) by {
                assert(items_view(rest@).reverse() =~= items_view(before_rest).reverse().drop_first());
            }
        }
        assert(all.take(n as int) =~= all);
        objects
    }
}


/// What an insertion does to the two indexes: an object with both keys is
/// filed under them, one without is refused and nothing changes.
pub open spec fn insert_effect<T>(before: Objects<T>, object: Arc<KubeObject<T>>, after: Objects<T>) -> bool {
    match object_keys(*object) {
        Some((k, u)) => {
            &&& after.by_ref_map() == before.by_ref_map().insert(k, object)
            &&& after.by_uid_map() == before.by_uid_map().insert(u, object)
        },
        None => {
            &&& after.by_ref_map() == before.by_ref_map()
            &&& after.by_uid_map() == before.by_uid_map()
        },
    }
}

/// What a removal does to the two indexes.
pub open spec fn remove_effect<T>(before: Objects<T>, object: KubeObject<T>, after: Objects<T>) -> bool {
    match object_keys(object) {
        Some((k, u)) => {
            &&& after.by_ref_map() == before.by_ref_map().remove(k)
            &&& after.by_uid_map() == before.by_uid_map().remove(u)
        },
        None => {
            &&& after.by_ref_map() == before.by_ref_map()
            &&& after.by_uid_map() == before.by_uid_map()
        },
    }
}

/// An object that was inserted is what a lookup by its reference and a
/// lookup by its unique identifier give back.
pub proof fn law_insert_then_lookup<T>(
    before: Objects<T>,
    object: Arc<KubeObject<T>>,
    after: Objects<T>,
)
    requires
        object_keys(*object) is Some,
        insert_effect(before, object, after),
    ensures
        after.by_ref_map().dom().contains(object_ref_of(*object)),
        after.by_ref_map()[object_ref_of(*object)] == object,
        after.by_uid_map().dom().contains(uid_of(*object)),
        after.by_uid_map()[uid_of(*object)] == object,
{
}

/// Removing an object undoes inserting it into a set where neither of its
/// keys was filed.
pub proof fn law_remove_undoes_insert<T>(
    start: Objects<T>,
    object: Arc<KubeObject<T>>,
    middle: Objects<T>,
    end: Objects<T>,
)
    requires
        object_keys(*object) is Some,
        !start.by_ref_map().dom().contains(object_ref_of(*object)),
        !start.by_uid_map().dom().contains(uid_of(*object)),
        insert_effect(start, object, middle),
        remove_effect(middle, *object, end),
    ensures
        end.by_ref_map() == start.by_ref_map(),
        end.by_uid_map() == start.by_uid_map(),
{
    assert(end.by_ref_map() =~= start.by_ref_map());
    assert(end.by_uid_map() =~= start.by_uid_map());
}

/// Inserting the same object twice is the same as inserting it once.
pub proof fn law_insert_idempotent<T>(
    start: Objects<T>,
    object: Arc<KubeObject<T>>,
    once: Objects<T>,
    twice: Objects<T>,
)
    requires
        insert_effect(start, object, once),
        insert_effect(once, object, twice),
    ensures
        twice.by_ref_map() == once.by_ref_map(),
        twice.by_uid_map() == once.by_uid_map(),
{
    assert(twice.by_ref_map() =~= once.by_ref_map());
    assert(twice.by_uid_map() =~= once.by_uid_map());
}

/// After a removal, nothing is filed under the object's keys.
pub proof fn law_removed_not_found<T>(before: Objects<T>, object: KubeObject<T>, after: Objects<T>)
    requires
        object_keys(object) is Some,
        remove_effect(before, object, after),
    ensures
        !after.by_ref_map().dom().contains(object_ref_of(object)),
        !after.by_uid_map().dom().contains(uid_of(object)),
{
}

/// Filing an object under a reference that was not yet filed grows the
/// number of objects by one; replacing one keeps it.
pub proof fn law_insert_size<T>(before: Objects<T>, object: Arc<KubeObject<T>>, after: Objects<T>)
    requires
        before.wf(),
        after.wf(),
        object_keys(*object) is Some,
        insert_effect(before, object, after),
    ensures
        after.by_ref_map().dom().len() == before.by_ref_map().dom().len() + (if before.by_ref_map().dom().contains(object_ref_of(*object)) { 0int } else { 1int }),
{
    before.lemma_ref_order();
    lemma_map_len(before.ref_order());
    assert(before.by_ref_map().dom().finite());
}

impl<T> Default for Objects<T> {
    /// No objects.
    fn default() -> (r: Self)
        ensures
            r.wf(),
            r.by_ref_map() == Map::<ObjectRefView, Arc<KubeObject<T>>>::empty(),
            r.by_uid_map() == Map::<Seq<char>, Arc<KubeObject<T>>>::empty(),
            r.ref_order() == Seq::<(ObjectRefView, Arc<KubeObject<T>>)>::empty(),
    {
        let r = Objects { by_ref: Vec::new(), by_unique_id: Vec::new() };
        assert(r.by_ref_map() =~= Map::empty());
        assert(r.by_uid_map() =~= Map::empty());
        assert(r.ref_order() =~= Seq::empty());
        r
    }
}

} // verus!
