//! Lists kept in strictly increasing order.

use vstd::prelude::*;

use crate::lists::contains_push;
use crate::text;

verus! {

/// Values with a strict total order on their views.
pub trait Ordered: DeepView + Sized {
    /// `a` comes before `b`.
    spec fn before(a: Self::V, b: Self::V) -> bool;

    /// Nothing comes before itself.
    proof fn before_irreflexive(a: Self::V)
        ensures
            !Self::before(a, a),
    ;

    /// The order is transitive.
    proof fn before_transitive(a: Self::V, b: Self::V, c: Self::V)
        requires
            Self::before(a, b),
            Self::before(b, c),
        ensures
            Self::before(a, c),
    ;

    /// Any two different values are ordered.
    proof fn before_total(a: Self::V, b: Self::V)
        ensures
            Self::before(a, b) || a == b || Self::before(b, a),
    ;

    /// Reports whether `self` comes before `other`.
    fn is_before(&self, other: &Self) -> (r: bool)
        ensures
            r == Self::before(self.deep_view(), other.deep_view()),
    ;
}

impl Ordered for String {
    open spec fn before(a: Seq<char>, b: Seq<char>) -> bool {
        text::lt(a, b)
    }

    proof fn before_irreflexive(a: Seq<char>) {
        text::lt_irreflexive(a);
    }

    proof fn before_transitive(a: Seq<char>, b: Seq<char>, c: Seq<char>) {
        text::lt_transitive(a, b, c);
    }

    proof fn before_total(a: Seq<char>, b: Seq<char>) {
        text::lt_total(a, b);
    }

    fn is_before(&self, other: &Self) -> (r: bool) {
        text::less(self.as_str(), other.as_str())
    }
}

impl<T: Ordered> Ordered for Option<T> {
    /// What is missing comes first.
    open spec fn before(a: Option<T::V>, b: Option<T::V>) -> bool {
        match (a, b) {
            (_, None) => false,
            (None, Some(_)) => true,
            (Some(x), Some(y)) => T::before(x, y),
        }
    }

    proof fn before_irreflexive(a: Option<T::V>) {
        if let Some(x) = a {
            T::before_irreflexive(x);
        }
    }

    proof fn before_transitive(a: Option<T::V>, b: Option<T::V>, c: Option<T::V>) {
        if let (Some(x), Some(y), Some(z)) = (a, b, c) {
            T::before_transitive(x, y, z);
        }
    }

    proof fn before_total(a: Option<T::V>, b: Option<T::V>) {
        if let (Some(x), Some(y)) = (a, b) {
            T::before_total(x, y);
        }
    }

    fn is_before(&self, other: &Self) -> (r: bool) {
        match (self, other) {
            (_, None) => false,
            (None, Some(_)) => true,
            (Some(x), Some(y)) => x.is_before(y),
        }
    }
}

/// Every item comes before all that follow it.
pub open spec fn increasing<T: Ordered>(s: Seq<T::V>) -> bool {
    forall|i: int, j: int| 0 <= i < j < s.len() ==> T::before(#[trigger] s[i], #[trigger] s[j])
}

/// The two lists hold the same values, whatever their order and number.
pub open spec fn same_items<A>(a: Seq<A>, b: Seq<A>) -> bool {
    forall|x: A| #[trigger] a.contains(x) <==> b.contains(x)
}

/// An increasing list holds no value twice.
pub proof fn increasing_no_duplicates<T: Ordered>(s: Seq<T::V>)
    requires
        increasing::<T>(s),
    ensures
        s.no_duplicates(),
{
    assert forall|i: int, j: int| 0 <= i < s.len() && 0 <= j < s.len() && i != j implies s[i]
        != s[j] by {
        T::before_irreflexive(s[i]);
        if i < j {
            assert(T::before(s[i], s[j]));
        } else {
            assert(T::before(s[j], s[i]));
        }
    }
}

/// An increasing list is determined by what it holds.
pub proof fn increasing_unique<T: Ordered>(a: Seq<T::V>, b: Seq<T::V>)
    requires
        increasing::<T>(a),
        increasing::<T>(b),
        same_items(a, b),
    ensures
        a == b,
    decreases a.len(),
{
    if a.len() == 0 {
        if b.len() > 0 {
            assert(b.contains(b[0]));
            assert(a.contains(b[0]));
        }
        assert(a =~= b);
    } else {
        assert(a.contains(a[0]));
        assert(b.contains(a[0]));
        let i = choose|i: int| 0 <= i < b.len() && b[i] == a[0];
        assert(b.contains(b[0]));
        assert(a.contains(b[0]));
        let j = choose|j: int| 0 <= j < a.len() && a[j] == b[0];
        if i > 0 {
            assert(T::before(b[0], b[i]));
            T::before_irreflexive(a[0]);
            if j > 0 {
                assert(T::before(a[0], a[j]));
                T::before_transitive(a[0], b[0], a[0]);
            }
        }
        assert(a[0] == b[0]);
        let (x, y) = (a.drop_first(), b.drop_first());
        assert(increasing::<T>(x)) by {
            assert forall|i: int, j: int| 0 <= i < j < x.len() implies T::before(
                #[trigger] x[i],
                #[trigger] x[j],
            ) by {
                assert(T::before(a[i + 1], a[j + 1]));
            }
        }
        assert(increasing::<T>(y)) by {
            assert forall|i: int, j: int| 0 <= i < j < y.len() implies T::before(
                #[trigger] y[i],
                #[trigger] y[j],
            ) by {
                assert(T::before(b[i + 1], b[j + 1]));
            }
        }
        increasing_no_duplicates::<T>(a);
        increasing_no_duplicates::<T>(b);
        assert(same_items(x, y)) by {
            assert forall|v: T::V| #[trigger] x.contains(v) <==> y.contains(v) by {
                if x.contains(v) {
                    let k = choose|k: int| 0 <= k < x.len() && x[k] == v;
                    assert(a[k + 1] == v);
                    assert(a.contains(v));
                    assert(b.contains(v));
                    let m = choose|m: int| 0 <= m < b.len() && b[m] == v;
                    assert(m > 0);
                    assert(y[m - 1] == v);
                }
                if y.contains(v) {
                    let k = choose|k: int| 0 <= k < y.len() && y[k] == v;
                    assert(b[k + 1] == v);
                    assert(b.contains(v));
                    assert(a.contains(v));
                    let m = choose|m: int| 0 <= m < a.len() && a[m] == v;
                    assert(m > 0);
                    assert(x[m - 1] == v);
                }
            }
        }
        increasing_unique::<T>(x, y);
        assert(a =~= seq![a[0]] + x);
        assert(b =~= seq![b[0]] + y);
    }
}

/// Putting `x` at `i`, between what is before it and what is after it, keeps a
/// list increasing.
pub proof fn increasing_insert<T: Ordered>(s: Seq<T::V>, i: int, x: T::V)
    requires
        increasing::<T>(s),
        0 <= i <= s.len(),
        forall|j: int| 0 <= j < i ==> T::before(#[trigger] s[j], x),
        i < s.len() ==> T::before(x, s[i]),
    ensures
        increasing::<T>(s.insert(i, x)),
        forall|y: T::V| #[trigger] s.insert(i, x).contains(y) <==> y == x || s.contains(y),
{
    let r = s.insert(i, x);
    assert forall|j: int| i <= j < s.len() implies T::before(x, #[trigger] s[j]) by {
        if j > i {
            T::before_transitive(x, s[i], s[j]);
        }
    }
    assert forall|a: int, b: int| 0 <= a < b < r.len() implies T::before(
        #[trigger] r[a],
        #[trigger] r[b],
    ) by {
        let p = if a < i { a } else { a - 1 };
        let q = if b < i { b } else { b - 1 };
        if a == i {
            assert(r[b] == s[q]);
        } else if b == i {
            assert(r[a] == s[p]);
        } else {
            assert(r[a] == s[p] && r[b] == s[q]);
            assert(T::before(s[p], s[q]));
        }
    }
    assert forall|y: T::V| #[trigger] r.contains(y) <==> y == x || s.contains(y) by {
        if r.contains(y) && y != x {
            let k = choose|k: int| 0 <= k < r.len() && r[k] == y;
            assert(s[if k < i { k } else { k - 1 }] == y);
        }
        if y == x {
            assert(r[i] == x);
        }
        if s.contains(y) {
            let k = choose|k: int| 0 <= k < s.len() && s[k] == y;
            assert(r[if k < i { k } else { k + 1 }] == y);
        }
    }
}

/// What is left after skipping one item less is that item and the rest.
proof fn skip_one<A>(s: Seq<A>, n: int)
    requires
        0 < n <= s.len(),
    ensures
        forall|x: A| #[trigger]
            s.skip(n - 1).contains(x) <==> x == s[n - 1] || s.skip(n).contains(x),
{
    let (t, u) = (s.skip(n), s.skip(n - 1));
    assert forall|x: A| #[trigger] u.contains(x) <==> x == s[n - 1] || t.contains(x) by {
        assert(u[0] == s[n - 1]);
        if t.contains(x) {
            let k = choose|k: int| 0 <= k < t.len() && t[k] == x;
            assert(u[k + 1] == x);
        }
        if u.contains(x) && x != s[n - 1] {
            let k = choose|k: int| 0 <= k < u.len() && u[k] == x;
            assert(t[k - 1] == x);
        }
    }
}

/// There is an increasing list of the values in any list.
pub proof fn arranged_exists<T: Ordered>(s: Seq<T::V>)
    ensures
        increasing::<T>(arranged::<T>(s)),
        same_items(arranged::<T>(s), s),
    decreases s.len(),
{
    if s.len() == 0 {
        arranged_unique::<T>(s, s);
    } else {
        let t = s.drop_last();
        let x = s.last();
        arranged_exists::<T>(t);
        let a = arranged::<T>(t);
        assert(s =~= t.push(x));
        assert forall|y: T::V| #[trigger] s.contains(y) <==> y == x || t.contains(y) by {
            contains_push(t, x, y);
        }
        if a.contains(x) {
            assert(t.contains(x));
            assert(same_items(a, s));
            arranged_unique::<T>(a, s);
        } else {
            let i = place::<T>(a, x, 0);
            place_fits::<T>(a, x, 0);
            increasing_insert::<T>(a, i, x);
            assert forall|y: T::V| #[trigger] a.insert(i, x).contains(y) <==> s.contains(y) by {
                assert(a.contains(y) <==> t.contains(y));
            }
            arranged_unique::<T>(a.insert(i, x), s);
        }
    }
}

/// The first place from `i` on whose item does not come before `x`.
spec fn place<T: Ordered>(s: Seq<T::V>, x: T::V, i: int) -> int
    decreases s.len() - i,
{
    if i < s.len() && T::before(s[i], x) {
        place::<T>(s, x, i + 1)
    } else {
        i
    }
}

/// What is not in an increasing list fits at its place.
proof fn place_fits<T: Ordered>(s: Seq<T::V>, x: T::V, i: int)
    requires
        0 <= i <= s.len(),
        forall|j: int| 0 <= j < i ==> T::before(#[trigger] s[j], x),
        !s.contains(x),
    ensures
        0 <= place::<T>(s, x, i) <= s.len(),
        forall|j: int| 0 <= j < place::<T>(s, x, i) ==> T::before(#[trigger] s[j], x),
        place::<T>(s, x, i) < s.len() ==> T::before(x, s[place::<T>(s, x, i)]),
    decreases s.len() - i,
{
    if i < s.len() && T::before(s[i], x) {
        place_fits::<T>(s, x, i + 1);
    } else if i < s.len() {
        T::before_total(s[i], x);
    }
}

/// The increasing list of the values in `s`.
pub open spec fn arranged<T: Ordered>(s: Seq<T::V>) -> Seq<T::V> {
    choose|r: Seq<T::V>| increasing::<T>(r) && same_items(r, s)
}

/// There is no other increasing list of the values in `s`.
pub proof fn arranged_unique<T: Ordered>(r: Seq<T::V>, s: Seq<T::V>)
    requires
        increasing::<T>(r),
        same_items(r, s),
    ensures
        arranged::<T>(s) == r,
{
    let c = arranged::<T>(s);
    assert(increasing::<T>(c) && same_items(c, s));
    assert forall|x: T::V| #[trigger] c.contains(x) <==> r.contains(x) by {
        assert(r.contains(x) <==> s.contains(x));
    }
    increasing_unique::<T>(c, r);
}

/// The increasing list of the values in `items`.
pub fn sort_dedup<T: Ordered>(items: Vec<T>) -> (r: Vec<T>)
    ensures
        increasing::<T>(r.deep_view()),
        same_items(r.deep_view(), items.deep_view()),
        r.deep_view() == arranged::<T>(items.deep_view()),
{
    let ghost all = items.deep_view();
    let mut rest = items;
    let mut r: Vec<T> = Vec::new();
    while rest.len() > 0
        invariant
            all == items.deep_view(),
            rest.deep_view() == all.take(rest@.len() as int),
            rest@.len() <= all.len(),
            increasing::<T>(r.deep_view()),
            forall|x: T::V| #[trigger]
                r.deep_view().contains(x) <==> all.skip(rest@.len() as int).contains(x),
        decreases rest.len(),
    {
        let ghost n = rest@.len() as int;
        let item = rest.pop().unwrap();
        let ghost x = item.deep_view();
        assert(x == all.take(n)[n - 1]);
        assert(all.take(n - 1) =~= all.take(n).drop_last());
        assert(rest.deep_view() =~= all.take(n - 1));
        proof {
            skip_one(all, n);
        }
        let ghost s = r.deep_view();
        let mut i: usize = 0;
        while i < r.len() && r[i].is_before(&item)
            invariant
                r.deep_view() == s,
                x == item.deep_view(),
                i <= r.len(),
                forall|j: int| 0 <= j < i ==> T::before(#[trigger] s[j], x),
            decreases r.len() - i,
        {
            assert(s[i as int] == r@[i as int].deep_view());
            i = i + 1;
        }
        assert(i < r@.len() ==> s[i as int] == r@[i as int].deep_view());
        if i == r.len() || item.is_before(&r[i]) {
            proof {
                increasing_insert::<T>(s, i as int, x);
            }
            r.insert(i, item);
            assert(r.deep_view() =~= s.insert(i as int, x));
        } else {
            proof {
                T::before_total(s[i as int], x);
                assert(s.contains(x));
            }
        }
    }
    assert(all.skip(0) =~= all);
    proof {
        arranged_unique::<T>(r.deep_view(), all);
    }
    r
}

} // verus!
