//! Maps from strings, walked in the order of their keys.

use vstd::prelude::*;

use crate::model::Model;
use crate::sort::{self, Ordered};
use crate::text;

verus! {

/// The keys of `m`, in increasing order.
pub open spec fn sorted_keys<A>(m: Map<Seq<char>, A>) -> Seq<Seq<char>> {
    choose|ks: Seq<Seq<char>>| lists_keys(ks, m)
}

/// `ks` holds the keys of `m` and is increasing.
pub open spec fn lists_keys<A>(ks: Seq<Seq<char>>, m: Map<Seq<char>, A>) -> bool {
    &&& sort::increasing::<String>(ks)
    &&& forall|k: Seq<char>| #[trigger] ks.contains(k) <==> m.dom().contains(k)
}

/// There is only one increasing list of a map's keys.
pub proof fn sorted_keys_unique<A>(ks: Seq<Seq<char>>, m: Map<Seq<char>, A>)
    requires
        lists_keys(ks, m),
    ensures
        sorted_keys(m) == ks,
{
    let c = sorted_keys(m);
    assert(lists_keys(c, m));
    assert forall|k: Seq<char>| #[trigger] c.contains(k) <==> ks.contains(k) by {
        assert(m.dom().contains(k) <==> ks.contains(k));
    }
    sort::increasing_unique::<String>(c, ks);
}

/// A map from strings to values, kept in the order of the keys.
#[derive(Debug, PartialEq)]
pub struct KeyMap<V> {
    keys: Vec<String>,
    values: Vec<V>,
}

impl<V> KeyMap<V> {
    /// The keys increase, and there is a value for each.
    #[verifier::type_invariant]
    spec fn ordered(&self) -> bool {
        &&& self.keys@.len() == self.values@.len()
        &&& sort::increasing::<String>(self.keys.deep_view())
    }
}

impl<V: DeepView> DeepView for KeyMap<V> {
    type V = Map<Seq<char>, V::V>;

    closed spec fn deep_view(&self) -> Map<Seq<char>, V::V> {
        pairs(self.keys.deep_view(), self.values.deep_view())
    }
}

impl<V: DeepView> View for KeyMap<V> {
    type V = Map<Seq<char>, V::V>;

    open spec fn view(&self) -> Map<Seq<char>, V::V> {
        self.deep_view()
    }
}

/// The map that takes each key to the value at the same place.
spec fn pairs<A>(ks: Seq<Seq<char>>, vs: Seq<A>) -> Map<Seq<char>, A> {
    Map::new(|k: Seq<char>| ks.contains(k), |k: Seq<char>| vs[ks.index_of(k)])
}

/// With increasing keys, `pairs` takes the key at `i` to the value at `i`.
proof fn pairs_at<A>(ks: Seq<Seq<char>>, vs: Seq<A>, i: int)
    requires
        sort::increasing::<String>(ks),
        0 <= i < ks.len(),
    ensures
        pairs(ks, vs).dom().contains(ks[i]),
        pairs(ks, vs)[ks[i]] == vs[i],
{
    sort::increasing_no_duplicates::<String>(ks);
    assert(ks.contains(ks[i]));
    let j = ks.index_of(ks[i]);
    assert(0 <= j < ks.len() && ks[j] == ks[i]);
}

/// A key put between its neighbours adds itself to the map and nothing else.
proof fn pairs_insert<A>(ks: Seq<Seq<char>>, vs: Seq<A>, i: int, k: Seq<char>, v: A)
    requires
        sort::increasing::<String>(ks),
        ks.len() == vs.len(),
        0 <= i <= ks.len(),
        sort::increasing::<String>(ks.insert(i, k)),
        forall|x: Seq<char>| #[trigger] ks.insert(i, k).contains(x) <==> x == k || ks.contains(x),
    ensures
        pairs(ks.insert(i, k), vs.insert(i, v)) == pairs(ks, vs).insert(k, v),
{
    let (kt, vt) = (ks.insert(i, k), vs.insert(i, v));
    let (a, b) = (pairs(kt, vt), pairs(ks, vs).insert(k, v));
    assert forall|x: Seq<char>| #[trigger] a.dom().contains(x) <==> b.dom().contains(x) by {
        assert(kt.contains(x) <==> x == k || ks.contains(x));
    }
    assert forall|x: Seq<char>| #[trigger] a.dom().contains(x) implies a[x] == b[x] by {
        let j = choose|j: int| 0 <= j < kt.len() && kt[j] == x;
        pairs_at(kt, vt, j);
        if j == i {
        } else {
            let p = if j < i { j } else { j - 1 };
            assert(ks[p] == x);
            pairs_at(ks, vs, p);
            sort::increasing_no_duplicates::<String>(kt);
            assert(kt[i] == k);
            assert(vt[j] == vs[p]);
        }
    }
    assert(a =~= b);
}

/// Replacing the value at a key's place changes that key alone.
proof fn pairs_update<A>(ks: Seq<Seq<char>>, vs: Seq<A>, i: int, v: A)
    requires
        sort::increasing::<String>(ks),
        ks.len() == vs.len(),
        0 <= i < ks.len(),
    ensures
        pairs(ks, vs.update(i, v)) == pairs(ks, vs).insert(ks[i], v),
{
    let (a, b) = (pairs(ks, vs.update(i, v)), pairs(ks, vs).insert(ks[i], v));
    assert(ks.contains(ks[i]));
    assert forall|x: Seq<char>| #[trigger] a.dom().contains(x) implies a[x] == b[x] by {
        let j = choose|j: int| 0 <= j < ks.len() && ks[j] == x;
        pairs_at(ks, vs.update(i, v), j);
        pairs_at(ks, vs, j);
        sort::increasing_no_duplicates::<String>(ks);
    }
    assert(a =~= b);
}

impl<V: DeepView> KeyMap<V> {
    /// The empty map.
    pub fn new() -> (r: Self)
        ensures
            r@ == Map::<Seq<char>, V::V>::empty(),
    {
        let r = KeyMap { keys: Vec::new(), values: Vec::new() };
        assert(r@ =~= Map::<Seq<char>, V::V>::empty());
        r
    }

    /// The place of `key`, or where it belongs.
    fn find(&self, key: &str) -> (r: (bool, usize))
        ensures
            r.0 == self@.dom().contains(key@),
            r.0 ==> r.1 < self.keys@.len() && self.keys@[r.1 as int]@ == key@,
            r.1 <= self.keys@.len(),
            forall|j: int| 0 <= j < r.1 ==> text::lt(#[trigger] self.keys.deep_view()[j], key@),
            !r.0 && r.1 < self.keys@.len() ==> text::lt(key@, self.keys@[r.1 as int]@),
    {
        proof {
            use_type_invariant(self);
        }
        let ghost ks = self.keys.deep_view();
        let mut i: usize = 0;
        while i < self.keys.len() && text::less(self.keys[i].as_str(), key)
            invariant
                ks == self.keys.deep_view(),
                i <= self.keys@.len(),
                forall|j: int| 0 <= j < i ==> text::lt(#[trigger] ks[j], key@),
            decreases self.keys.len() - i,
        {
            assert(ks[i as int] == self.keys@[i as int]@);
            i = i + 1;
        }
        if i < self.keys.len() && text::same(self.keys[i].as_str(), key) {
            assert(ks[i as int] == key@);
            assert(ks.contains(key@));
            return (true, i);
        }
        proof {
            if i < ks.len() {
                assert(ks[i as int] == self.keys@[i as int]@);
                text::lt_total(ks[i as int], key@);
            }
            if ks.contains(key@) {
                let j = choose|j: int| 0 <= j < ks.len() && ks[j] == key@;
                text::lt_irreflexive(key@);
                if j > i {
                    assert(String::before(ks[i as int], ks[j]));
                    text::lt_transitive(key@, ks[i as int], key@);
                }
            }
        }
        (false, i)
    }

    /// Sets the value of `key`.
    pub fn insert(&mut self, key: String, value: V)
        ensures
            final(self)@ == old(self)@.insert(key@, value.deep_view()),
    {
        proof {
            use_type_invariant(&*self);
        }
        let (found, i) = self.find(key.as_str());
        let mut own: KeyMap<V> = KeyMap { keys: Vec::new(), values: Vec::new() };
        std::mem::swap(&mut own, self);
        let KeyMap { mut keys, mut values } = own;
        let ghost (ks, vs, v) = (keys.deep_view(), values.deep_view(), value.deep_view());
        if found {
            proof {
                pairs_update(ks, vs, i as int, v);
            }
            values.set(i, value);
            assert(values.deep_view() =~= vs.update(i as int, v));
        } else {
            proof {
                sort::increasing_insert::<String>(ks, i as int, key@);
                pairs_insert(ks, vs, i as int, key@, v);
            }
            let ghost k = key@;
            keys.insert(i, key);
            values.insert(i, value);
            assert(keys.deep_view() =~= ks.insert(i as int, k));
            assert(values.deep_view() =~= vs.insert(i as int, v));
        }
        *self = KeyMap { keys, values };
    }

    /// The value of `key`, if it has one.
    pub fn get(&self, key: &str) -> (r: Option<&V>)
        ensures
            match r {
                Some(v) => self@.dom().contains(key@) && v.deep_view() == self@[key@],
                None => !self@.dom().contains(key@),
            },
    {
        proof {
            use_type_invariant(self);
        }
        let (found, i) = self.find(key);
        if found {
            proof {
                pairs_at(self.keys.deep_view(), self.values.deep_view(), i as int);
            }
            Some(&self.values[i])
        } else {
            None
        }
    }

    /// Reports whether `key` has a value.
    pub fn contains_key(&self, key: &str) -> (r: bool)
        ensures
            r == self@.dom().contains(key@),
    {
        self.find(key).0
    }

    /// The number of keys.
    pub fn len(&self) -> (r: usize)
        ensures
            r == sorted_keys(self@).len(),
            lists_keys(sorted_keys(self@), self@),
    {
        proof {
            use_type_invariant(self);
            self.keys_listed();
        }
        self.keys.len()
    }

    /// The `i`th key in increasing order, with its value.
    pub fn at(&self, i: usize) -> (r: (&String, &V))
        requires
            i < sorted_keys(self@).len(),
        ensures
            r.0@ == sorted_keys(self@)[i as int],
            self@.dom().contains(r.0@),
            r.1.deep_view() == self@[r.0@],
    {
        proof {
            use_type_invariant(self);
            self.keys_listed();
            pairs_at(self.keys.deep_view(), self.values.deep_view(), i as int);
        }
        (&self.keys[i], &self.values[i])
    }

    /// The stored keys are the map's keys in increasing order.
    proof fn keys_listed(&self)
        requires
            self.ordered(),
        ensures
            sorted_keys(self@) == self.keys.deep_view(),
            lists_keys(self.keys.deep_view(), self@),
    {
        let ks = self.keys.deep_view();
        assert(lists_keys(ks, self@));
        sorted_keys_unique(ks, self@);
    }
}

impl<V: Model> Model for KeyMap<V> {
    fn dup(&self) -> (r: Self) {
        proof {
            use_type_invariant(self);
        }
        let (keys, values) = (self.keys.dup(), self.values.dup());
        assert(keys.deep_view().len() == self.keys.deep_view().len());
        assert(values.deep_view().len() == self.values.deep_view().len());
        KeyMap { keys, values }
    }

    fn same(&self, other: &Self) -> (r: bool) {
        proof {
            use_type_invariant(self);
            use_type_invariant(other);
            self.keys_listed();
            other.keys_listed();
        }
        let ghost (ks, vs, ws) = (
            self.keys.deep_view(),
            self.values.deep_view(),
            other.values.deep_view(),
        );
        if !self.keys.same(&other.keys) {
            return false;
        }
        let r = self.values.same(&other.values);
        proof {
            if self@ == other@ {
                assert forall|i: int| 0 <= i < vs.len() implies vs[i] == ws[i] by {
                    pairs_at(ks, vs, i);
                    pairs_at(ks, ws, i);
                }
                assert(vs =~= ws);
            }
        }
        r
    }
}

} // verus!
