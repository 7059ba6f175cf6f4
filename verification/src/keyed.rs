//! Lists in which every item has a key, and every key one item.

use vstd::prelude::*;

use crate::maps::{self, KeyMap};
use crate::model::{none, push, Model};
use crate::sort;

verus! {

/// Values that are told apart by a key.
pub trait Keyed: Model {
    /// The key of a value.
    spec fn key_of(v: Self::V) -> Seq<char>;

    /// The key of the value.
    fn key(&self) -> (r: &String)
        ensures
            r@ == Self::key_of(self.deep_view()),
    ;
}

/// For each key of the list, the first item that has it.
pub open spec fn firsts<T: Keyed>(s: Seq<T::V>) -> Map<Seq<char>, T::V>
    decreases s.len(),
{
    if s.len() == 0 {
        Map::empty()
    } else {
        let m = firsts::<T>(s.drop_last());
        if m.dom().contains(T::key_of(s.last())) {
            m
        } else {
            m.insert(T::key_of(s.last()), s.last())
        }
    }
}

/// The values of a map in the order of their keys.
pub open spec fn in_order<A>(m: Map<Seq<char>, A>) -> Seq<A> {
    maps::sorted_keys(m).map_values(|k: Seq<char>| m[k])
}

/// The list in the order of the keys; of items with the same key only the first is left.
pub open spec fn by_key<T: Keyed>(s: Seq<T::V>) -> Seq<T::V> {
    in_order(firsts::<T>(s))
}

/// The list in the order of the keys; of items with the same key only the first is left.
pub fn sort_dedup_by_key<T: Keyed>(items: &Vec<T>) -> (r: Vec<T>)
    ensures
        r.deep_view() == by_key::<T>(items.deep_view()),
{
    let ghost all = items.deep_view();
    let mut m: KeyMap<T> = KeyMap::new();
    let mut i: usize = 0;
    assert(all.take(0) =~= Seq::empty());
    while i < items.len()
        invariant
            all == items.deep_view(),
            i <= items@.len(),
            m@ == firsts::<T>(all.take(i as int)),
        decreases items.len() - i,
    {
        assert(all.take(i as int + 1).drop_last() =~= all.take(i as int));
        assert(all.take(i as int + 1).last() == items@[i as int].deep_view());
        if !m.contains_key(items[i].key().as_str()) {
            m.insert(items[i].key().dup(), items[i].dup());
        }
        i = i + 1;
    }
    assert(all.take(i as int) =~= all);
    let ghost want = in_order(m@);
    let n: usize = m.len();
    let mut r: Vec<T> = none();
    let mut k: usize = 0;
    assert(want.take(0) =~= Seq::empty());
    while k < n
        invariant
            want == in_order(m@),
            n == maps::sorted_keys(m@).len(),
            k <= n,
            r.deep_view() == want.take(k as int),
        decreases n - k,
    {
        let (_, v) = m.at(k);
        push(&mut r, v.dup());
        k = k + 1;
        assert(r.deep_view() =~= want.take(k as int));
    }
    assert(want.take(n as int) =~= want);
    r
}

/// The list with an item put in the place of those with the same key.
pub open spec fn put_in<T: Keyed>(s: Seq<T::V>, x: T::V) -> Seq<T::V> {
    by_key::<T>(seq![x] + s)
}

/// Puts an item in the place of those with the same key.
pub fn put<T: Keyed>(items: &Vec<T>, x: T) -> (r: Vec<T>)
    ensures
        r.deep_view() == put_in::<T>(items.deep_view(), x.deep_view()),
{
    let ghost v = x.deep_view();
    let mut all: Vec<T> = none();
    push(&mut all, x);
    crate::model::extend(&mut all, items);
    assert(all.deep_view() =~= seq![v] + items.deep_view());
    sort_dedup_by_key(&all)
}

/// The place of the first item with a key from `i` on, or the end.
pub open spec fn key_place<T: Keyed>(s: Seq<T::V>, key: Seq<char>, i: int) -> int
    decreases s.len() - i,
{
    if i >= s.len() || T::key_of(s[i]) == key {
        i
    } else {
        key_place::<T>(s, key, i + 1)
    }
}

/// The first item with a key.
pub open spec fn found_in<T: Keyed>(s: Seq<T::V>, key: Seq<char>) -> Option<T::V> {
    let i = key_place::<T>(s, key, 0);
    if i < s.len() {
        Some(s[i])
    } else {
        None
    }
}

/// The first item with a key.
pub fn find<'a, T: Keyed>(items: &'a Vec<T>, key: &str) -> (r: Option<&'a T>)
    ensures
        match r {
            Some(v) => found_in::<T>(items.deep_view(), key@) == Some(v.deep_view()),
            None => found_in::<T>(items.deep_view(), key@) is None,
        },
{
    let ghost all = items.deep_view();
    let mut i: usize = 0;
    while i < items.len()
        invariant
            all == items.deep_view(),
            i <= items@.len(),
            key_place::<T>(all, key@, 0) == key_place::<T>(all, key@, i as int),
        decreases items.len() - i,
    {
        assert(all[i as int] == items@[i as int].deep_view());
        if crate::text::same(items[i].key().as_str(), key) {
            return Some(&items[i]);
        }
        i = i + 1;
    }
    None
}

/// What [`firsts`] holds: for every key that occurs, the first item that has it.
pub proof fn firsts_holds<T: Keyed>(s: Seq<T::V>)
    ensures
        forall|k: Seq<char>| #[trigger]
            firsts::<T>(s).dom().contains(k) <==> found_in::<T>(s, k) is Some,
        forall|k: Seq<char>| #[trigger]
            firsts::<T>(s).dom().contains(k) ==> firsts::<T>(s)[k] == found_in::<T>(s, k)->0
                && T::key_of(firsts::<T>(s)[k]) == k,
        firsts::<T>(s).dom().finite(),
    decreases s.len(),
{
    if s.len() > 0 {
        let t = s.drop_last();
        firsts_holds::<T>(t);
        assert forall|k: Seq<char>| true implies #[trigger] firsts::<T>(s).dom().contains(k) == (
        found_in::<T>(s, k) is Some) && (firsts::<T>(s).dom().contains(k) ==> firsts::<T>(s)[k]
            == found_in::<T>(s, k)->0 && T::key_of(firsts::<T>(s)[k]) == k) by {
            place_of_prefix::<T>(s, k, 0);
            place_bounds::<T>(t, k, 0);
            place_bounds::<T>(s, k, 0);
            assert(firsts::<T>(t).dom().contains(k) <==> found_in::<T>(t, k) is Some);
        }
    }
}

/// The place of a key is in the list, or at its end.
proof fn place_bounds<T: Keyed>(s: Seq<T::V>, k: Seq<char>, i: int)
    requires
        0 <= i <= s.len(),
    ensures
        i <= key_place::<T>(s, k, i) <= s.len(),
        key_place::<T>(s, k, i) < s.len() ==> T::key_of(s[key_place::<T>(s, k, i)]) == k,
        forall|j: int| i <= j < key_place::<T>(s, k, i) ==> T::key_of(#[trigger] s[j]) != k,
    decreases s.len() - i,
{
    if i < s.len() && T::key_of(s[i]) != k {
        place_bounds::<T>(s, k, i + 1);
    }
}

/// A key is where it is without the last item, or that item has it, or nothing has.
proof fn place_of_prefix<T: Keyed>(s: Seq<T::V>, k: Seq<char>, i: int)
    requires
        s.len() > 0,
        0 <= i < s.len(),
    ensures
        key_place::<T>(s.drop_last(), k, i) < s.len() - 1 ==> key_place::<T>(s, k, i)
            == key_place::<T>(s.drop_last(), k, i),
        key_place::<T>(s.drop_last(), k, i) >= s.len() - 1 ==> key_place::<T>(s, k, i) == (
        if T::key_of(s.last()) == k {
            s.len() - 1
        } else {
            s.len() as int
        }),
    decreases s.len() - i,
{
    let t = s.drop_last();
    if i == s.len() - 1 {
        assert(key_place::<T>(s, k, i + 1) == i + 1);
    } else {
        assert(t[i] == s[i]);
        if T::key_of(s[i]) != k {
            place_of_prefix::<T>(s, k, i + 1);
        }
    }
}

/// The keys of any finite map can be listed in order.
pub proof fn sorted_keys_exist<A>(m: Map<Seq<char>, A>)
    requires
        m.dom().finite(),
    ensures
        maps::lists_keys(maps::sorted_keys(m), m),
{
    let s = m.dom().to_seq();
    m.dom().lemma_to_seq_to_set_id();
    sort::arranged_exists::<String>(s);
    let a = sort::arranged::<String>(s);
    assert forall|k: Seq<char>| #[trigger] a.contains(k) <==> m.dom().contains(k) by {
        assert(a.contains(k) <==> s.contains(k));
        assert(s.contains(k) <==> s.to_set().contains(k));
    }
    assert(maps::lists_keys(a, m));
}

/// What was put in is found again under its key, and every other key has what it had before.
pub proof fn put_then_find<T: Keyed>(s: Seq<T::V>, x: T::V, key: Seq<char>)
    ensures
        found_in::<T>(put_in::<T>(s, x), key) == (if key == T::key_of(x) {
            Some(x)
        } else {
            found_in::<T>(s, key)
        }),
{
    let all = seq![x] + s;
    let m = firsts::<T>(all);
    let r = in_order(m);
    let ks = maps::sorted_keys(m);
    firsts_holds::<T>(all);
    sorted_keys_exist(m);
    place_behind::<T>(x, s, key, 0);
    place_bounds::<T>(s, key, 0);
    place_bounds::<T>(all, key, 0);
    place_bounds::<T>(r, key, 0);
    if m.dom().contains(key) {
        assert(ks.contains(key));
        let i = choose|i: int| 0 <= i < ks.len() && ks[i] == key;
        assert(r[i] == m[key]);
        assert(T::key_of(r[i]) == key);
        let p = key_place::<T>(r, key, 0);
        assert(p <= i);
        assert(ks.contains(ks[p]));
        assert(T::key_of(m[ks[p]]) == ks[p]);
        assert(r[p] == m[key]);
    } else {
        let p = key_place::<T>(r, key, 0);
        if p < r.len() {
            assert(ks.contains(ks[p]));
            assert(m.dom().contains(ks[p]));
            assert(T::key_of(m[ks[p]]) == ks[p]);
        }
    }
}

/// Where a key is behind an item.
proof fn place_behind<T: Keyed>(x: T::V, s: Seq<T::V>, key: Seq<char>, i: int)
    requires
        0 <= i <= s.len(),
    ensures
        key_place::<T>(seq![x] + s, key, i + 1) == key_place::<T>(s, key, i) + 1,
    decreases s.len() - i,
{
    let all = seq![x] + s;
    if i < s.len() {
        assert(all[i + 1] == s[i]);
        if T::key_of(s[i]) != key {
            place_behind::<T>(x, s, key, i + 1);
        }
    }
}

/// No key is there twice after an item was put in, and the keys are in order.
pub proof fn put_keeps_keys_apart<T: Keyed>(s: Seq<T::V>, x: T::V)
    ensures
        sort::increasing::<String>(
            put_in::<T>(s, x).map_values(|v: T::V| T::key_of(v)),
        ),
{
    let all = seq![x] + s;
    let m = firsts::<T>(all);
    let ks = maps::sorted_keys(m);
    firsts_holds::<T>(all);
    sorted_keys_exist(m);
    let keys = put_in::<T>(s, x).map_values(|v: T::V| T::key_of(v));
    assert forall|i: int| 0 <= i < ks.len() implies keys[i] == ks[i] by {
        assert(ks.contains(ks[i]));
        assert(m.dom().contains(ks[i]));
    }
    assert(keys =~= ks);
}

} // verus!
