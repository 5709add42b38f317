//! Association lists with unique keys and their map model.
use vstd::prelude::*;

verus! {

/// No two entries of the list share a key.
pub open spec fn keys_unique<K, V>(s: Seq<(K, V)>) -> bool {
    forall|i: int, j: int|
        0 <= i < s.len() && 0 <= j < s.len() && i != j ==> #[trigger] s[i].0 != #[trigger] s[j].0
}

/// Some entry of the list has the key.
pub open spec fn has_key<K, V>(s: Seq<(K, V)>, k: K) -> bool {
    exists|i: int| 0 <= i < s.len() && #[trigger] s[i].0 == k
}

/// The map that an association list stands for.
pub open spec fn entries_map<K, V>(s: Seq<(K, V)>) -> Map<K, V> {
    Map::new(
        |k: K| has_key(s, k),
        |k: K| s[choose|i: int| 0 <= i < s.len() && #[trigger] s[i].0 == k].1,
    )
}

/// An entry of a list with unique keys is what the map holds for its key.
pub proof fn lemma_entry_in_map<K, V>(s: Seq<(K, V)>, i: int)
    requires
        keys_unique(s),
        0 <= i < s.len(),
    ensures
        entries_map(s).dom().contains(s[i].0),
        entries_map(s)[s[i].0] == s[i].1,
{
    let k = s[i].0;
    assert(has_key(s, k));
    let j = choose|j: int| 0 <= j < s.len() && #[trigger] s[j].0 == k;
    assert(s[j].0 == s[i].0);
}

/// A key that no entry has is not in the map.
pub proof fn lemma_absent_not_in_map<K, V>(s: Seq<(K, V)>, k: K)
    requires
        forall|i: int| 0 <= i < s.len() ==> s[i].0 != k,
    ensures
        !entries_map(s).dom().contains(k),
{
}

/// Appending an entry with a new key inserts it into the map.
pub proof fn lemma_push_new<K, V>(s: Seq<(K, V)>, k: K, v: V)
    requires
        keys_unique(s),
        !has_key(s, k),
    ensures
        keys_unique(s.push((k, v))),
        entries_map(s.push((k, v))) == entries_map(s).insert(k, v),
{
    let t = s.push((k, v));
    assert forall|i: int, j: int|
        0 <= i < t.len() && 0 <= j < t.len() && i != j implies #[trigger] t[i].0
        != #[trigger] t[j].0 by {
        if i < s.len() && j < s.len() {
            assert(t[i] == s[i] && t[j] == s[j]);
        } else if i < s.len() {
            assert(t[i] == s[i]);
        } else {
            assert(t[j] == s[j]);
        }
    }
    let m = entries_map(t);
    let n = entries_map(s).insert(k, v);
    assert forall|key: K| #[trigger] m.dom().contains(key) <==> n.dom().contains(key) by {
        if has_key(t, key) {
            let i = choose|i: int| 0 <= i < t.len() && #[trigger] t[i].0 == key;
            if i < s.len() {
                assert(s[i].0 == key);
            }
        }
        if has_key(s, key) {
            let i = choose|i: int| 0 <= i < s.len() && #[trigger] s[i].0 == key;
            assert(t[i].0 == key);
        }
        if key == k {
            assert(t[s.len() as int].0 == key);
        }
    }
    assert forall|key: K| #[trigger] m.dom().contains(key) implies m[key] == n[key] by {
        let i = choose|i: int| 0 <= i < t.len() && #[trigger] t[i].0 == key;
        lemma_entry_in_map(t, i);
        if i < s.len() as int {
            assert(t[i] == s[i]);
            lemma_entry_in_map(s, i);
        }
    }
    assert(m =~= n);
}

/// Replacing the value of an entry updates the map at its key.
pub proof fn lemma_update_value<K, V>(s: Seq<(K, V)>, i: int, v: V)
    requires
        keys_unique(s),
        0 <= i < s.len(),
    ensures
        keys_unique(s.update(i, (s[i].0, v))),
        entries_map(s.update(i, (s[i].0, v))) == entries_map(s).insert(s[i].0, v),
{
    let k = s[i].0;
    let t = s.update(i, (k, v));
    assert forall|a: int, b: int|
        0 <= a < t.len() && 0 <= b < t.len() && a != b implies #[trigger] t[a].0
        != #[trigger] t[b].0 by {
        assert(t[a].0 == s[a].0 && t[b].0 == s[b].0);
    }
    let m = entries_map(t);
    let n = entries_map(s).insert(k, v);
    assert forall|key: K| #[trigger] m.dom().contains(key) <==> n.dom().contains(key) by {
        if has_key(t, key) {
            let a = choose|a: int| 0 <= a < t.len() && #[trigger] t[a].0 == key;
            assert(s[a].0 == key);
        }
        if has_key(s, key) {
            let a = choose|a: int| 0 <= a < s.len() && #[trigger] s[a].0 == key;
            assert(t[a].0 == key);
        }
        if key == k {
            assert(t[i].0 == key);
        }
    }
    assert forall|key: K| #[trigger] m.dom().contains(key) implies m[key] == n[key] by {
        let a = choose|a: int| 0 <= a < t.len() && #[trigger] t[a].0 == key;
        lemma_entry_in_map(t, a);
        if a != i {
            assert(t[a] == s[a]);
            lemma_entry_in_map(s, a);
        }
    }
    assert(m =~= n);
}

/// Removing an entry removes its key from the map.
pub proof fn lemma_remove_entry<K, V>(s: Seq<(K, V)>, i: int)
    requires
        keys_unique(s),
        0 <= i < s.len(),
    ensures
        keys_unique(s.remove(i)),
        entries_map(s.remove(i)) == entries_map(s).remove(s[i].0),
{
    let k = s[i].0;
    let t = s.remove(i);
    assert forall|a: int| 0 <= a < t.len() implies #[trigger] t[a] == (if a < i {
        s[a]
    } else {
        s[a + 1]
    }) by {}
    assert forall|a: int, b: int|
        0 <= a < t.len() && 0 <= b < t.len() && a != b implies #[trigger] t[a].0
        != #[trigger] t[b].0 by {
        let sa = if a < i {
            a
        } else {
            a + 1
        };
        let sb = if b < i {
            b
        } else {
            b + 1
        };
        assert(t[a] == s[sa] && t[b] == s[sb]);
    }
    let m = entries_map(t);
    let n = entries_map(s).remove(k);
    assert forall|key: K| #[trigger] m.dom().contains(key) <==> n.dom().contains(key) by {
        if has_key(t, key) {
            let a = choose|a: int| 0 <= a < t.len() && #[trigger] t[a].0 == key;
            let sa = if a < i {
                a
            } else {
                a + 1
            };
            assert(t[a] == s[sa]);
            assert(s[sa].0 == key);
        }
        if has_key(s, key) && key != k {
            let a = choose|a: int| 0 <= a < s.len() && #[trigger] s[a].0 == key;
            if a < i {
                assert(t[a] == s[a]);
            } else {
                assert(a != i);
                assert(t[a - 1] == s[a]);
            }
        }
    }
    assert forall|key: K| #[trigger] m.dom().contains(key) implies m[key] == n[key] by {
        let a = choose|a: int| 0 <= a < t.len() && #[trigger] t[a].0 == key;
        lemma_entry_in_map(t, a);
        let sa = if a < i {
            a
        } else {
            a + 1
        };
        assert(t[a] == s[sa]);
        lemma_entry_in_map(s, sa);
    }
    assert(m =~= n);
}

/// The map of a list with unique keys has as many keys as the list has entries.
pub proof fn lemma_map_len<K, V>(s: Seq<(K, V)>)
    requires
        keys_unique(s),
    ensures
        entries_map(s).dom().finite(),
        entries_map(s).dom().len() == s.len(),
    decreases s.len(),
{
    if s.len() == 0 {
        assert(entries_map(s).dom() =~= Set::empty());
    } else {
        let p = s.drop_last();
        let l = s.last();
        assert forall|a: int, b: int|
            0 <= a < p.len() && 0 <= b < p.len() && a != b implies #[trigger] p[a].0
            != #[trigger] p[b].0 by {
            assert(p[a] == s[a] && p[b] == s[b]);
        }
        lemma_map_len(p);
        assert(!has_key(p, l.0)) by {
            if has_key(p, l.0) {
                let a = choose|a: int| 0 <= a < p.len() && #[trigger] p[a].0 == l.0;
                assert(p[a] == s[a]);
                assert(s[s.len() - 1].0 == s[a].0);
            }
        }
        lemma_push_new(p, l.0, l.1);
        assert(p.push(l) =~= s);
    }
}

} // verus!
