use vstd::prelude::*;
use std::collections::HashMap;
use std::hash::Hash;
use vstd::std_specs::hash::obeys_key_model;
use vstd::std_specs::iter::IteratorSpec;

verus! {

broadcast use vstd::std_specs::hash::group_hash_axioms;

/// What merging `other` into `base` gives: every entry of `base`, and each
/// entry of `other` whose key `base` lacks.
pub open spec fn merged<K, V>(base: Map<K, V>, other: Map<K, V>) -> Map<K, V> {
    other.union_prefer_right(base)
}

/// Merging keeps every key of both maps; `base`'s values win, and each key
/// only in `other` keeps `other`'s value.
pub proof fn lemma_merged_entries<K, V>(base: Map<K, V>, other: Map<K, V>)
    ensures
        merged(base, other).dom() == base.dom().union(other.dom()),
        forall|k: K| #[trigger] base.contains_key(k) ==> merged(base, other)[k] == base[k],
        forall|k: K|
            #[trigger] other.contains_key(k) && !base.contains_key(k) ==> merged(base, other)[k]
                == other[k],
{
    assert(merged(base, other).dom() =~= base.dom().union(other.dom()));
}

/// The empty map is a neutral element of merging, on either side.
pub proof fn lemma_merge_empty<K, V>(m: Map<K, V>)
    ensures
        merged(m, Map::empty()) == m,
        merged(Map::empty(), m) == m,
{
    assert(merged(m, Map::empty()) =~= m);
    assert(merged(Map::empty(), m) =~= m);
}

/// Merging the same map twice gives what merging it once gave.
pub proof fn lemma_merge_idempotent<K, V>(a: Map<K, V>, b: Map<K, V>)
    ensures
        merged(a, a) == a,
        merged(merged(a, b), b) == merged(a, b),
{
    assert(merged(a, a) =~= a);
    assert(merged(merged(a, b), b) =~= merged(a, b));
}

/// Merging is associative.
pub proof fn lemma_merge_associative<K, V>(a: Map<K, V>, b: Map<K, V>, c: Map<K, V>)
    ensures
        merged(merged(a, b), c) == merged(a, merged(b, c)),
{
    assert(merged(merged(a, b), c) =~= merged(a, merged(b, c)));
}

/// Maps with no key in common merge to the same map in either order.
pub proof fn lemma_merge_disjoint_commutes<K, V>(a: Map<K, V>, b: Map<K, V>)
    requires
        a.dom().disjoint(b.dom()),
    ensures
        merged(a, b) == merged(b, a),
{
    assert(merged(a, b) =~= merged(b, a));
}

/// Adds to `base` each entry of `other` whose key `base` lacks; entries of
/// `base` keep their values. The values of `other` are moved, not cloned.
/// Keys must follow the hash-table key model (hashing agrees with equality)
/// and a cloned key must equal its original, as that model describes.
pub fn merge_maps<K, V>(mut base: HashMap<K, V>, mut other: HashMap<K, V>) -> (r: HashMap<K, V>)
    where
        K: Eq + Hash + Clone,
        V: Clone,
    requires
        obeys_key_model::<K>(),
        forall|a: K, b: K| #[trigger] cloned::<K>(a, b) ==> a == b,
    ensures
        r@ == merged(base@, other@),
{
    let ghost base0 = base@;
    let ghost other0 = other@;
    let ghost listed = vstd::std_specs::hash::spec_keys_iter(&other).remaining();
    let mut keys: Vec<K> = Vec::new();
    for key in it: other.keys()
        invariant
            obeys_key_model::<K>(),
            forall|a: K, b: K| #[trigger] cloned::<K>(a, b) ==> a == b,
            it.seq() == listed,
            keys@ == listed.subrange(0, it.index() as int).map_values(|k: &K| *k),
    {
        let k = key.clone();
        assert(cloned::<K>(*key, k));
        keys.push(k);
        assert(keys@ =~= listed.subrange(0, it.index() + 1).map_values(|k: &K| *k));
    }
    proof {
        assert(keys@ =~= listed.unref());
        assert(keys@.to_set() =~= other0.dom());
    }
    let ghost all_keys = keys@;
    while keys.len() > 0
        invariant
            obeys_key_model::<K>(),
            all_keys.no_duplicates(),
            all_keys.to_set() == other0.dom(),
            keys@ == all_keys.subrange(0, keys@.len() as int),
            keys@.len() <= all_keys.len(),
            other@ == other0.restrict(keys@.to_set()),
            base@ == merged(base0, other0.remove_keys(keys@.to_set())),
        decreases keys.len(),
    {
        let n = keys.len() - 1;
        let k = keys.pop().unwrap();
        let ghost kg = k;
        proof {
            assert(keys@ =~= all_keys.subrange(0, n as int));
            assert(all_keys[n as int] == kg);
            assert(keys@.to_set() =~= all_keys.subrange(0, n as int + 1).to_set().remove(kg)) by {
                assert(all_keys.subrange(0, n as int + 1) =~= keys@.push(kg));
                assert forall|i: int| 0 <= i < n implies keys@[i] != kg by {
                    assert(all_keys[i] != all_keys[n as int]);
                }
            }
            assert(all_keys.subrange(0, n as int + 1).contains(kg));
        }
        let taken = other.remove(&k);
        let v = taken.unwrap();
        if !base.contains_key(&k) {
            base.insert(k, v);
        }
        proof {
            assert(other@ =~= other0.restrict(keys@.to_set()));
            assert(base@ =~= merged(base0, other0.remove_keys(keys@.to_set())));
        }
    }
    proof {
        assert(keys@.to_set() =~= Set::<K>::empty());
        assert(other0.remove_keys(Set::<K>::empty()) =~= other0);
    }
    base
}

} // verus!
