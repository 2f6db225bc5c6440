//! Small maps stored as a vector of pairs with no key repeated: the
//! abstract view is a `Map`, and the operations here work on 64-bit keys
//! and copyable values with linear lookups.

use vstd::prelude::*;

verus! {

/// The map a pair sequence denotes (later pairs win).
pub open spec fn pairs_map<K, V>(s: Seq<(K, V)>) -> Map<K, V>
    decreases s.len(),
{
    if s.len() == 0 {
        Map::empty()
    } else {
        pairs_map(s.drop_last()).insert(s.last().0, s.last().1)
    }
}

/// No key occurs twice.
pub open spec fn unique_keys<K, V>(s: Seq<(K, V)>) -> bool {
    forall|i: int, j: int| 0 <= i < s.len() && 0 <= j < s.len() && i != j ==> s[i].0 != s[j].0
}

pub proof fn lemma_pairs_map_dom<K, V>(s: Seq<(K, V)>, k: K)
    ensures
        pairs_map(s).dom().contains(k) <==> exists|i: int| 0 <= i < s.len() && s[i].0 == k,
    decreases s.len(),
{
    if s.len() > 0 {
        lemma_pairs_map_dom(s.drop_last(), k);
        if pairs_map(s).dom().contains(k) && s.last().0 != k {
            let i = choose|i: int| 0 <= i < s.drop_last().len() && s.drop_last()[i].0 == k;
            assert(s[i].0 == k);
        }
        if exists|i: int| 0 <= i < s.len() && s[i].0 == k {
            let i = choose|i: int| 0 <= i < s.len() && s[i].0 == k;
            if i < s.len() - 1 {
                assert(s.drop_last()[i].0 == k);
            }
        }
    }
}

pub proof fn lemma_pairs_map_at<K, V>(s: Seq<(K, V)>, i: int)
    requires
        unique_keys(s),
        0 <= i < s.len(),
    ensures
        pairs_map(s).dom().contains(s[i].0),
        pairs_map(s)[s[i].0] == s[i].1,
    decreases s.len(),
{
    if i < s.len() - 1 {
        assert(unique_keys(s.drop_last()));
        lemma_pairs_map_at(s.drop_last(), i);
        assert(s.drop_last()[i] == s[i]);
        assert(s.last().0 != s[i].0);
    }
}

pub proof fn lemma_pairs_map_update<K, V>(s: Seq<(K, V)>, i: int, v: V)
    requires
        unique_keys(s),
        0 <= i < s.len(),
    ensures
        pairs_map(s.update(i, (s[i].0, v))) == pairs_map(s).insert(s[i].0, v),
        unique_keys(s.update(i, (s[i].0, v))),
    decreases s.len(),
{
    let t = s.update(i, (s[i].0, v));
    assert(unique_keys(t)) by {
        assert forall|a: int, b: int|
            0 <= a < t.len() && 0 <= b < t.len() && a != b implies t[a].0 != t[b].0 by {
            assert(t[a].0 == s[a].0 && t[b].0 == s[b].0);
        }
    }
    if i == s.len() - 1 {
        assert(t.drop_last() =~= s.drop_last());
    } else {
        assert(unique_keys(s.drop_last()));
        lemma_pairs_map_update(s.drop_last(), i, v);
        assert(t.drop_last() =~= s.drop_last().update(i, (s[i].0, v)));
        assert(s.last().0 != s[i].0);
        assert(pairs_map(t) =~= pairs_map(s).insert(s[i].0, v));
    }
}

pub proof fn lemma_pairs_map_push<K, V>(s: Seq<(K, V)>, k: K, v: V)
    requires
        unique_keys(s),
        !pairs_map(s).dom().contains(k),
    ensures
        pairs_map(s.push((k, v))) == pairs_map(s).insert(k, v),
        unique_keys(s.push((k, v))),
{
    lemma_pairs_map_dom(s, k);
    assert(s.push((k, v)).drop_last() =~= s);
    let t = s.push((k, v));
    assert forall|a: int, b: int| 0 <= a < t.len() && 0 <= b < t.len() && a != b implies t[a].0
        != t[b].0 by {
        if a < s.len() && b < s.len() {
            assert(t[a] == s[a] && t[b] == s[b]);
        } else if a < s.len() {
            assert(t[a] == s[a]);
        } else {
            assert(t[b] == s[b]);
        }
    }
}

pub proof fn lemma_pairs_map_remove<K, V>(s: Seq<(K, V)>, i: int)
    requires
        unique_keys(s),
        0 <= i < s.len(),
    ensures
        pairs_map(s.remove(i)) == pairs_map(s).remove(s[i].0),
        unique_keys(s.remove(i)),
    decreases s.len(),
{
    let t = s.remove(i);
    assert forall|a: int, b: int| 0 <= a < t.len() && 0 <= b < t.len() && a != b implies t[a].0
        != t[b].0 by {
        let a2 = if a < i { a } else { a + 1 };
        let b2 = if b < i { b } else { b + 1 };
        assert(t[a] == s[a2] && t[b] == s[b2]);
    }
    if i == s.len() - 1 {
        assert(t =~= s.drop_last());
        lemma_pairs_map_dom(s.drop_last(), s[i].0);
        if pairs_map(s.drop_last()).dom().contains(s[i].0) {
            let j = choose|j: int| 0 <= j < s.drop_last().len() && s.drop_last()[j].0 == s[i].0;
            assert(s[j].0 == s[i].0);
        }
        assert(pairs_map(t) =~= pairs_map(s).remove(s[i].0));
    } else {
        assert(unique_keys(s.drop_last()));
        lemma_pairs_map_remove(s.drop_last(), i);
        assert(t.drop_last() =~= s.drop_last().remove(i));
        assert(t.last() == s.last());
        assert(s.last().0 != s[i].0);
        assert(pairs_map(t) =~= pairs_map(s).remove(s[i].0));
    }
}

/// Position of key `k` among the pairs, if present.
pub fn find_key<V>(entries: &Vec<(u64, V)>, k: u64) -> (r: Option<usize>)
    requires
        unique_keys(entries@),
    ensures
        match r {
            Some(i) => i < entries@.len() && entries@[i as int].0 == k && pairs_map(
                entries@,
            ).dom().contains(k),
            None => !pairs_map(entries@).dom().contains(k),
        },
{
    let mut i: usize = 0;
    while i < entries.len()
        invariant
            i <= entries@.len(),
            forall|j: int| 0 <= j < i ==> entries@[j].0 != k,
        decreases entries.len() - i,
    {
        if entries[i].0 == k {
            proof {
                lemma_pairs_map_dom(entries@, k);
            }
            return Some(i);
        }
        i += 1;
    }
    proof {
        lemma_pairs_map_dom(entries@, k);
    }
    None
}


/// The value filed under `k`, if any.
pub fn lookup<V: Copy>(entries: &Vec<(u64, V)>, k: u64) -> (r: Option<V>)
    requires
        unique_keys(entries@),
    ensures
        r == (if pairs_map(entries@).dom().contains(k) {
            Some(pairs_map(entries@)[k])
        } else {
            None::<V>
        }),
{
    match find_key(entries, k) {
        Some(i) => {
            proof {
                lemma_pairs_map_at(entries@, i as int);
            }
            Some(entries[i].1)
        },
        None => None,
    }
}

/// Files `v` under `k`, replacing what was there.
pub fn put<V: Copy>(entries: &mut Vec<(u64, V)>, k: u64, v: V)
    requires
        unique_keys(old(entries)@),
    ensures
        unique_keys(final(entries)@),
        pairs_map(final(entries)@) == pairs_map(old(entries)@).insert(k, v),
{
    match find_key(entries, k) {
        Some(i) => {
            proof {
                lemma_pairs_map_update(entries@, i as int, v);
            }
            entries.set(i, (k, v));
        },
        None => {
            proof {
                lemma_pairs_map_push(entries@, k, v);
            }
            entries.push((k, v));
        },
    }
}

/// Removes `k` and returns what was filed under it, if anything.
pub fn take<V: Copy>(entries: &mut Vec<(u64, V)>, k: u64) -> (r: Option<V>)
    requires
        unique_keys(old(entries)@),
    ensures
        unique_keys(final(entries)@),
        pairs_map(final(entries)@) == pairs_map(old(entries)@).remove(k),
        r == (if pairs_map(old(entries)@).dom().contains(k) {
            Some(pairs_map(old(entries)@)[k])
        } else {
            None::<V>
        }),
{
    match find_key(entries, k) {
        Some(i) => {
            proof {
                lemma_pairs_map_at(entries@, i as int);
                lemma_pairs_map_remove(entries@, i as int);
            }
            let v = entries[i].1;
            entries.remove(i);
            Some(v)
        },
        None => {
            assert(pairs_map(entries@).remove(k) =~= pairs_map(entries@));
            None
        },
    }
}


/// With no key repeated, the map has as many keys as there are pairs.
pub proof fn lemma_pairs_map_len<K, V>(s: Seq<(K, V)>)
    requires
        unique_keys(s),
    ensures
        pairs_map(s).dom().finite(),
        pairs_map(s).dom().len() == s.len(),
    decreases s.len(),
{
    if s.len() > 0 {
        let t = s.drop_last();
        assert(unique_keys(t));
        lemma_pairs_map_len(t);
        lemma_pairs_map_dom(t, s.last().0);
        if pairs_map(t).dom().contains(s.last().0) {
            let i = choose|i: int| 0 <= i < t.len() && t[i].0 == s.last().0;
            assert(s[i].0 == s[s.len() - 1].0);
        }
    }
}

/// The key and value of the pair at position `i` as the map sees them,
/// for every pair.
pub proof fn lemma_pairs_map_member<K, V>(s: Seq<(K, V)>, x: (K, V))
    requires
        unique_keys(s),
        s.contains(x),
    ensures
        pairs_map(s).dom().contains(x.0),
        pairs_map(s)[x.0] == x.1,
{
    let i = choose|i: int| 0 <= i < s.len() && s[i] == x;
    lemma_pairs_map_at(s, i);
}

} // verus!
