//! A small string-keyed map kept as a vector of entries with distinct keys.

use vstd::prelude::*;
use crate::text::str_eq;

verus! {

/// One key/value pair of a [`KeyedEntry`] vector.
#[derive(Clone)]
pub struct KeyedEntry<V> {
    /// The key, a broker id.
    pub key: String,
    /// The value stored under the key.
    pub value: V,
}

/// No key occurs twice.
pub open spec fn keys_unique<V>(e: Seq<KeyedEntry<V>>) -> bool {
    forall|i: int, j: int| 0 <= i < j < e.len() ==> e[i].key@ != e[j].key@
}

/// Some entry has key `k`.
pub open spec fn has_key<V>(e: Seq<KeyedEntry<V>>, k: Seq<char>) -> bool {
    exists|i: int| 0 <= i < e.len() && e[i].key@ == k
}

/// The value of an entry with key `k`.
pub open spec fn value_for<V: View>(e: Seq<KeyedEntry<V>>, k: Seq<char>) -> V::V {
    e[choose|i: int| 0 <= i < e.len() && e[i].key@ == k].value@
}

/// The map that the entries stand for.
pub open spec fn keyed_view<V: View>(e: Seq<KeyedEntry<V>>) -> Map<Seq<char>, V::V> {
    Map::new(|k: Seq<char>| has_key(e, k), |k: Seq<char>| value_for(e, k))
}

/// With distinct keys, the map holds the value of the entry at the key's index.
pub proof fn lemma_view_at<V: View>(e: Seq<KeyedEntry<V>>, i: int)
    requires
        keys_unique(e),
        0 <= i < e.len(),
    ensures
        keyed_view(e).contains_key(e[i].key@),
        keyed_view(e)[e[i].key@] == e[i].value@,
{
    let k = e[i].key@;
    assert(has_key(e, k));
    let j = choose|j: int| 0 <= j < e.len() && e[j].key@ == k;
    if j != i {
        if j < i {
            assert(e[j].key@ != e[i].key@);
        } else {
            assert(e[i].key@ != e[j].key@);
        }
    }
}

/// Index of the entry with key `key`, if there is one.
pub fn keyed_find<V: View>(e: &Vec<KeyedEntry<V>>, key: &str) -> (r: Option<usize>)
    ensures
        r is None <==> !has_key(e@, key@),
        r matches Some(i) ==> i < e@.len() && e@[i as int].key@ == key@,
{
    let mut i: usize = 0;
    while i < e.len()
        invariant
            i <= e@.len(),
            forall|j: int| 0 <= j < i ==> e@[j].key@ != key@,
        decreases e@.len() - i,
    {
        if str_eq(e[i].key.as_str(), key) {
            return Some(i);
        }
        i = i + 1;
    }
    None
}

/// Removes the entry with key `key`, if there is one.
pub fn keyed_remove<V: View>(e: &mut Vec<KeyedEntry<V>>, key: &str)
    requires
        keys_unique(old(e)@),
    ensures
        keys_unique(final(e)@),
        keyed_view(final(e)@) == keyed_view(old(e)@).remove(key@),
{
    let ghost s = e@;
    match keyed_find(e, key) {
        None => {
            assert(keyed_view(e@) =~= keyed_view(s).remove(key@));
        },
        Some(i) => {
            e.remove(i);
            let ghost t = e@;
            assert(t =~= s.remove(i as int));
            assert forall|a: int, b: int| 0 <= a < b < t.len() implies t[a].key@ != t[b].key@ by {
                let a2 = if a < i { a } else { a + 1 };
                let b2 = if b < i { b } else { b + 1 };
                assert(t[a] == s[a2]);
                assert(t[b] == s[b2]);
            }
            assert forall|k: Seq<char>| #[trigger] has_key(t, k) == (has_key(s, k) && k != key@) by {
                if has_key(t, k) {
                    let j = choose|j: int| 0 <= j < t.len() && t[j].key@ == k;
                    let j2 = if j < i { j } else { j + 1 };
                    assert(s[j2] == t[j]);
                    if k == key@ {
                        if j2 < i {
                            assert(s[j2].key@ != s[i as int].key@);
                        } else {
                            assert(s[i as int].key@ != s[j2].key@);
                        }
                    }
                }
                if has_key(s, k) && k != key@ {
                    let j = choose|j: int| 0 <= j < s.len() && s[j].key@ == k;
                    assert(j != i);
                    let j2 = if j < i { j } else { j - 1 };
                    assert(t[j2] == s[j]);
                }
            }
            assert forall|k: Seq<char>| has_key(t, k) implies #[trigger] value_for(t, k) == value_for(s, k) by {
                let j = choose|j: int| 0 <= j < t.len() && t[j].key@ == k;
                let j2 = if j < i { j } else { j + 1 };
                assert(s[j2] == t[j]);
                lemma_view_at(t, j);
                lemma_view_at(s, j2);
            }
            assert(keyed_view(t) =~= keyed_view(s).remove(key@));
        },
    }
}

/// Stores `value` under `key`, replacing any value stored there before.
pub fn keyed_insert<V: View>(e: &mut Vec<KeyedEntry<V>>, key: String, value: V)
    requires
        keys_unique(old(e)@),
    ensures
        keys_unique(final(e)@),
        keyed_view(final(e)@) == keyed_view(old(e)@).insert(key@, value@),
{
    keyed_remove(e, key.as_str());
    let ghost s = e@;
    let ghost k0 = key@;
    let ghost v0 = value@;
    assert(!has_key(s, k0)) by {
        if has_key(s, k0) {
            assert(keyed_view(s).contains_key(k0));
        }
    }
    e.push(KeyedEntry { key, value });
    let ghost t = e@;
    assert(t.len() == s.len() + 1);
    assert forall|a: int, b: int| 0 <= a < b < t.len() implies t[a].key@ != t[b].key@ by {
        if b == s.len() {
            assert(t[a] == s[a]);
        } else {
            assert(t[a] == s[a]);
            assert(t[b] == s[b]);
        }
    }
    assert forall|k: Seq<char>| #[trigger] has_key(t, k) == (has_key(s, k) || k == k0) by {
        if has_key(t, k) {
            let j = choose|j: int| 0 <= j < t.len() && t[j].key@ == k;
            if j < s.len() {
                assert(t[j] == s[j]);
            }
        }
        if has_key(s, k) {
            let j = choose|j: int| 0 <= j < s.len() && s[j].key@ == k;
            assert(t[j] == s[j]);
        }
        if k == k0 {
            assert(t[s.len() as int].key@ == k0);
        }
    }
    assert forall|k: Seq<char>| has_key(t, k) implies #[trigger] value_for(t, k) == (if k == k0 { v0 } else { value_for(s, k) }) by {
        let j = choose|j: int| 0 <= j < t.len() && t[j].key@ == k;
        lemma_view_at(t, j);
        if j < s.len() {
            assert(t[j] == s[j]);
            lemma_view_at(s, j);
        }
    }
    assert(keyed_view(t) =~= keyed_view(s).insert(k0, v0));
}

} // verus!
