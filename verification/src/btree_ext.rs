//! What the staged transactions need of `BTreeMap` beyond insertion, lookup and removal:
//! three more of its methods, a step through its entries, and the order in which it
//! hands out its keys.
//!
//! All of it holds for keys whose order is a total order that agrees with `==`, which is
//! what `vstd::laws_cmp::obeys_cmp` states. An ordered map promises nothing for other
//! keys.

use vstd::prelude::*;
use vstd::std_specs::iter::IteratorSpec;
use vstd::std_specs::cmp::OrdSpec;
use vstd::std_specs::cmp::PartialEqSpec;
use vstd::std_specs::cmp::PartialOrdSpec;
use std::collections::BTreeMap;

verus! {

/// Removes the entry with the least key and returns it.
///
/// Calls `BTreeMap::pop_first`, which the standard library documents as removing and
/// returning the first element of the map, whose key is the minimum key that was in it,
/// and as returning `None` on an empty map. The map counts one element less where an
/// element was returned.
#[verifier::external_body]
pub(crate) fn pop_first<K: Ord, V>(m: &mut BTreeMap<K, V>) -> (r: Option<(K, V)>)
    ensures
        r is Some ==> vstd::std_specs::btree::spec_btree_map_len(final(m)) + 1
            == vstd::std_specs::btree::spec_btree_map_len(old(m)),
        vstd::laws_cmp::obeys_cmp::<K>() ==> match r {
            Some((k, v)) => {
                &&& old(m)@.contains_key(k)
                &&& old(m)@[k] == v
                &&& final(m)@ == old(m)@.remove(k)
                &&& forall|j: K| #[trigger]
                    old(m)@.contains_key(j) ==> j == k || k.cmp_spec(&j) is Less
            },
            None => old(m)@ == Map::<K, V>::empty() && final(m)@ == old(m)@,
        },
{
    m.pop_first()
}

/// Borrows the value stored under `key` for writing.
///
/// Calls `BTreeMap::get_mut`, which the standard library documents as returning a
/// mutable reference to the value corresponding to the key, if the map has the key.
/// Whatever is written through the reference is what the map then holds under `key`;
/// nothing else in the map changes.
#[verifier::external_body]
pub(crate) fn get_mut<'a, K: Ord, V>(m: &'a mut BTreeMap<K, V>, key: &K) -> (r: Option<&'a mut V>)
    ensures
        vstd::laws_cmp::obeys_cmp::<K>() ==> match r {
            Some(slot) => {
                &&& old(m)@.contains_key(*key)
                &&& *slot == old(m)@[*key]
                &&& final(m)@ == old(m)@.insert(*key, *final(slot))
            },
            None => !old(m)@.contains_key(*key) && final(m)@ == old(m)@,
        },
{
    m.get_mut(key)
}

/// Makes sure that the map has `key`, storing `value` under it if it had not, and borrows
/// the value stored under `key` for writing.
///
/// Calls `BTreeMap::entry` and `Entry::or_insert` on what it returns. The standard
/// library documents the first as getting the key's entry in the map for in-place
/// manipulation, and the second as inserting the given value if the entry is empty and
/// returning a mutable reference to the value in the entry.
#[verifier::external_body]
pub(crate) fn entry_or_insert<'a, K: Ord, V>(m: &'a mut BTreeMap<K, V>, key: K, value: V) -> (r:
    &'a mut V)
    ensures
        vstd::laws_cmp::obeys_cmp::<K>() ==> {
            &&& *r == (if old(m)@.contains_key(key) {
                old(m)@[key]
            } else {
                value
            })
            &&& final(m)@ == old(m)@.insert(key, *final(r))
        },
{
    m.entry(key).or_insert(value)
}

/// Takes the next item out of an iterator that walks a known sequence of items: the first
/// of the items that remain, or none where none remains.
pub(crate) fn next_of<I: Iterator>(iter: &mut I) -> (r: Option<I::Item>)
    ensures
        (*final(iter)).obeys_prophetic_iter_laws() == (*old(iter)).obeys_prophetic_iter_laws(),
        (*old(iter)).obeys_prophetic_iter_laws() ==> (if (*old(iter)).remaining().len() > 0 {
            r == Some((*old(iter)).remaining()[0]) && (*final(iter)).remaining() == (*old(
                iter,
            )).remaining().drop_first()
        } else {
            r is None && (*final(iter)).remaining() == (*old(iter)).remaining()
        }),
{
    iter.next()
}

/// Whether each key of `keys` is less than every key behind it.
pub open spec fn is_ascending<K: Ord>(keys: Seq<K>) -> bool {
    forall|i: int, j: int| 0 <= i < j < keys.len() ==> keys[i].cmp_spec(&keys[j]) is Less
}

/// Whether `keys` holds exactly the keys of `dom`, least first.
pub open spec fn lists_ascending<K: Ord>(keys: Seq<K>, dom: Set<K>) -> bool {
    is_ascending(keys) && keys.to_set() == dom
}

/// The keys of `dom`, least first: the order in which an ordered map walks its keys.
pub open spec fn ascending_keys<K: Ord>(dom: Set<K>) -> Seq<K> {
    choose|keys: Seq<K>| lists_ascending(keys, dom)
}

/// No key is less than itself, and of two keys at most one is less than the other.
pub proof fn lemma_less_is_strict<K: Ord>(x: K, y: K)
    requires
        vstd::laws_cmp::obeys_cmp::<K>(),
        x.cmp_spec(&y) is Less,
    ensures
        x != y,
        !(y.cmp_spec(&x) is Less),
{
    reveal(vstd::laws_cmp::obeys_cmp_ord);
    reveal(vstd::laws_cmp::obeys_partial_cmp_spec_properties);
    assert(x.partial_cmp_spec(&y) == Some(x.cmp_spec(&y)));
    assert(y.partial_cmp_spec(&x) == Some(y.cmp_spec(&x)));
}

/// A set of keys has one ascending listing at most.
pub proof fn lemma_ascending_unique<K: Ord>(a: Seq<K>, b: Seq<K>)
    requires
        vstd::laws_cmp::obeys_cmp::<K>(),
        is_ascending(a),
        is_ascending(b),
        a.to_set() == b.to_set(),
    ensures
        a == b,
    decreases a.len(),
{
    if a.len() == 0 {
        if b.len() > 0 {
            assert(b.to_set().contains(b[0]));
            assert(a.contains(b[0]));
        }
        assert(a =~= b);
    } else {
        assert(a.to_set().contains(a[0]));
        assert(b.contains(a[0]));
        let j = choose|j: int| 0 <= j < b.len() && b[j] == a[0];
        assert(b.to_set().contains(b[0]));
        assert(a.contains(b[0]));
        let i = choose|i: int| 0 <= i < a.len() && a[i] == b[0];
        if j > 0 {
            lemma_less_is_strict(b[0], b[j]);
            if i > 0 {
                lemma_less_is_strict(a[0], a[i]);
            }
        }
        assert(a[0] == b[0]);
        let ta = a.drop_first();
        let tb = b.drop_first();
        assert forall|k: K| ta.to_set().contains(k) <==> tb.to_set().contains(k) by {
            if ta.contains(k) {
                let n = choose|n: int| 0 <= n < ta.len() && ta[n] == k;
                assert(a[n + 1] == k);
                lemma_less_is_strict(a[0], a[n + 1]);
                assert(a.to_set().contains(k));
                assert(b.contains(k));
                let m = choose|m: int| 0 <= m < b.len() && b[m] == k;
                assert(tb[m - 1] == k);
            }
            if tb.contains(k) {
                let n = choose|n: int| 0 <= n < tb.len() && tb[n] == k;
                assert(b[n + 1] == k);
                lemma_less_is_strict(b[0], b[n + 1]);
                assert(b.to_set().contains(k));
                assert(a.contains(k));
                let m = choose|m: int| 0 <= m < a.len() && a[m] == k;
                assert(ta[m - 1] == k);
            }
        }
        assert(ta.to_set() =~= tb.to_set());
        assert forall|i: int, j: int| 0 <= i < j < ta.len() implies ta[i].cmp_spec(
            &ta[j],
        ) is Less by {
            assert(ta[i] == a[i + 1] && ta[j] == a[j + 1]);
        }
        assert forall|i: int, j: int| 0 <= i < j < tb.len() implies tb[i].cmp_spec(
            &tb[j],
        ) is Less by {
            assert(tb[i] == b[i + 1] && tb[j] == b[j + 1]);
        }
        lemma_ascending_unique(ta, tb);
        assert(a =~= seq![a[0]] + ta);
        assert(b =~= seq![b[0]] + tb);
    }
}

/// An ascending listing of a set's keys is the listing that `ascending_keys` names.
pub proof fn lemma_ascending_keys_are<K: Ord>(keys: Seq<K>, dom: Set<K>)
    requires
        vstd::laws_cmp::obeys_cmp::<K>(),
        lists_ascending(keys, dom),
    ensures
        ascending_keys(dom) == keys,
{
    let chosen = ascending_keys(dom);
    assert(lists_ascending(chosen, dom));
    lemma_ascending_unique(chosen, keys);
}

/// An ascending listing holds no key twice.
pub proof fn lemma_ascending_is_distinct<K: Ord>(keys: Seq<K>)
    requires
        vstd::laws_cmp::obeys_cmp::<K>(),
        is_ascending(keys),
    ensures
        keys.no_duplicates(),
{
    assert forall|i: int, j: int|
        0 <= i < keys.len() && 0 <= j < keys.len() && i != j implies keys[i] != keys[j] by {
        if i < j {
            lemma_less_is_strict(keys[i], keys[j]);
        } else {
            lemma_less_is_strict(keys[j], keys[i]);
        }
    }
}

/// An ascending listing without its key at `at` is the ascending listing of the other
/// keys.
pub proof fn lemma_ascending_without<K: Ord>(keys: Seq<K>, dom: Set<K>, at: int)
    requires
        vstd::laws_cmp::obeys_cmp::<K>(),
        lists_ascending(keys, dom),
        0 <= at < keys.len(),
    ensures
        !keys.take(at).contains(keys[at]),
        !keys.skip(at + 1).contains(keys[at]),
        ascending_keys(dom.remove(keys[at])) == keys.take(at) + keys.skip(at + 1),
{
    let k = keys[at];
    let before = keys.take(at);
    let after = keys.skip(at + 1);
    let rest = before + after;
    lemma_ascending_is_distinct(keys);
    assert forall|i: int, j: int| 0 <= i < j < rest.len() implies rest[i].cmp_spec(
        &rest[j],
    ) is Less by {
        let i_keys = if i < at {
            i
        } else {
            i + 1
        };
        let j_keys = if j < at {
            j
        } else {
            j + 1
        };
        assert(rest[i] == keys[i_keys]);
        assert(rest[j] == keys[j_keys]);
    }
    assert forall|x: K| rest.to_set().contains(x) <==> dom.remove(k).contains(x) by {
        if rest.contains(x) {
            let n = choose|n: int| 0 <= n < rest.len() && rest[n] == x;
            let n_keys = if n < at {
                n
            } else {
                n + 1
            };
            assert(keys[n_keys] == x);
            assert(keys.to_set().contains(x));
        }
        if dom.remove(k).contains(x) {
            assert(keys.contains(x));
            let n = choose|n: int| 0 <= n < keys.len() && keys[n] == x;
            if n < at {
                assert(rest[n] == x);
            } else {
                assert(rest[n - 1] == x);
            }
        }
    }
    assert(rest.to_set() =~= dom.remove(k));
    lemma_ascending_keys_are(rest, dom.remove(k));
}

/// Less than is transitive.
pub proof fn lemma_less_is_transitive<K: Ord>(x: K, y: K, z: K)
    requires
        vstd::laws_cmp::obeys_cmp::<K>(),
        x.cmp_spec(&y) is Less,
        y.cmp_spec(&z) is Less,
    ensures
        x.cmp_spec(&z) is Less,
{
    reveal(vstd::laws_cmp::obeys_cmp_ord);
    reveal(vstd::laws_cmp::obeys_partial_cmp_spec_properties);
    assert(x.partial_cmp_spec(&y) == Some(x.cmp_spec(&y)));
    assert(y.partial_cmp_spec(&z) == Some(y.cmp_spec(&z)));
    assert(x.partial_cmp_spec(&z) == Some(x.cmp_spec(&z)));
}

/// Of two different keys one is less than the other, where `==` on the keys tells
/// exactly whether they are the same.
pub proof fn lemma_less_is_total<K: Ord>(x: K, y: K)
    requires
        vstd::laws_cmp::obeys_cmp::<K>(),
        vstd::laws_eq::obeys_concrete_eq::<K>(),
        x != y,
    ensures
        x.cmp_spec(&y) is Less || y.cmp_spec(&x) is Less,
{
    reveal(vstd::laws_cmp::obeys_cmp_ord);
    reveal(vstd::laws_cmp::obeys_cmp_partial_ord);
    reveal(vstd::laws_cmp::obeys_partial_cmp_spec_properties);
    reveal(vstd::laws_eq::obeys_concrete_eq);
    assert(x.partial_cmp_spec(&y) == Some(x.cmp_spec(&y)));
    assert(y.partial_cmp_spec(&x) == Some(y.cmp_spec(&x)));
    assert(!x.eq_spec(&y));
}

/// `keys` with `key` put before the first key that it is less than.
pub open spec fn insert_ascending<K: Ord>(keys: Seq<K>, key: K) -> Seq<K>
    decreases keys.len(),
{
    if keys.len() == 0 || key.cmp_spec(&keys[0]) is Less {
        seq![key] + keys
    } else {
        seq![keys[0]] + insert_ascending(keys.drop_first(), key)
    }
}

/// Putting a new key at its place in an ascending listing gives an ascending listing of
/// the keys and the new one.
pub proof fn lemma_insert_ascending<K: Ord>(keys: Seq<K>, key: K)
    requires
        vstd::laws_cmp::obeys_cmp::<K>(),
        vstd::laws_eq::obeys_concrete_eq::<K>(),
        is_ascending(keys),
        !keys.contains(key),
    ensures
        is_ascending(insert_ascending(keys, key)),
        insert_ascending(keys, key).to_set() == keys.to_set().insert(key),
    decreases keys.len(),
{
    let result = insert_ascending(keys, key);
    if keys.len() == 0 || key.cmp_spec(&keys[0]) is Less {
        assert forall|i: int, j: int| 0 <= i < j < result.len() implies result[i].cmp_spec(
            &result[j],
        ) is Less by {
            assert(result[j] == keys[j - 1]);
            if i == 0 {
                if j > 1 {
                    lemma_less_is_transitive(key, keys[0], keys[j - 1]);
                }
            } else {
                assert(result[i] == keys[i - 1]);
            }
        }
        assert forall|x: K| result.to_set().contains(x) <==> keys.to_set().insert(key).contains(
            x,
        ) by {
            if result.contains(x) {
                let n = choose|n: int| 0 <= n < result.len() && result[n] == x;
                if n > 0 {
                    assert(keys[n - 1] == x);
                    assert(keys.contains(x));
                }
            }
            if keys.contains(x) {
                let n = choose|n: int| 0 <= n < keys.len() && keys[n] == x;
                assert(result[n + 1] == x);
            }
            assert(result[0] == key);
        }
        assert(result.to_set() =~= keys.to_set().insert(key));
    } else {
        let head = keys[0];
        let tail = keys.drop_first();
        let rest = insert_ascending(tail, key);
        assert(keys.contains(head));
        lemma_less_is_total(key, head);
        assert forall|i: int, j: int| 0 <= i < j < tail.len() implies tail[i].cmp_spec(
            &tail[j],
        ) is Less by {
            assert(tail[i] == keys[i + 1] && tail[j] == keys[j + 1]);
        }
        if tail.contains(key) {
            let n = choose|n: int| 0 <= n < tail.len() && tail[n] == key;
            assert(keys[n + 1] == key);
        }
        lemma_insert_ascending(tail, key);
        assert forall|i: int, j: int| 0 <= i < j < result.len() implies result[i].cmp_spec(
            &result[j],
        ) is Less by {
            assert(result[j] == rest[j - 1]);
            if i == 0 {
                assert(rest.to_set().contains(rest[j - 1]));
                if rest[j - 1] != key {
                    assert(tail.to_set().contains(rest[j - 1]));
                    assert(tail.contains(rest[j - 1]));
                    let n = choose|n: int| 0 <= n < tail.len() && tail[n] == rest[j - 1];
                    assert(keys[n + 1] == rest[j - 1]);
                }
            } else {
                assert(result[i] == rest[i - 1]);
            }
        }
        assert forall|x: K| result.to_set().contains(x) <==> keys.to_set().insert(key).contains(
            x,
        ) by {
            if result.contains(x) {
                let n = choose|n: int| 0 <= n < result.len() && result[n] == x;
                if n > 0 {
                    assert(rest[n - 1] == x);
                    assert(rest.to_set().contains(x));
                    if x != key {
                        assert(tail.contains(x));
                        let m = choose|m: int| 0 <= m < tail.len() && tail[m] == x;
                        assert(keys[m + 1] == x);
                    }
                }
            }
            if keys.contains(x) {
                let n = choose|n: int| 0 <= n < keys.len() && keys[n] == x;
                if n == 0 {
                    assert(result[0] == x);
                } else {
                    assert(tail[n - 1] == x);
                    assert(tail.to_set().contains(x));
                    assert(rest.to_set().contains(x));
                    let m = choose|m: int| 0 <= m < rest.len() && rest[m] == x;
                    assert(result[m + 1] == x);
                }
            }
            if x == key {
                assert(rest.to_set().contains(key));
                let m = choose|m: int| 0 <= m < rest.len() && rest[m] == key;
                assert(result[m + 1] == key);
            }
        }
        assert(result.to_set() =~= keys.to_set().insert(key));
    }
}

/// Every finite set of keys has an ascending listing, where `==` on the keys tells
/// exactly whether they are the same.
pub proof fn lemma_ascending_keys_exist<K: Ord>(dom: Set<K>)
    requires
        vstd::laws_cmp::obeys_cmp::<K>(),
        vstd::laws_eq::obeys_concrete_eq::<K>(),
        dom.finite(),
    ensures
        lists_ascending(ascending_keys(dom), dom),
    decreases dom.len(),
{
    if dom.len() == 0 {
        let none = Seq::<K>::empty();
        assert(dom =~= Set::<K>::empty());
        assert(none.to_set() =~= dom);
        assert(lists_ascending(none, dom));
    } else {
        let key = dom.choose();
        let smaller = dom.remove(key);
        lemma_ascending_keys_exist(smaller);
        let keys = ascending_keys(smaller);
        if keys.contains(key) {
            assert(keys.to_set().contains(key));
        }
        lemma_insert_ascending(keys, key);
        assert(smaller.insert(key) =~= dom);
        assert(lists_ascending(insert_ascending(keys, key), dom));
    }
}

} // verus!
