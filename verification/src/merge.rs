//! Merging a partial value into another.

use vstd::prelude::*;

use crate::lists::contains_push;
use crate::model::{contains, push, Model};

verus! {

/// Values that can take over what is set in another.
pub trait DeepMerge: DeepView + Sized {
    /// `a` after what is set in `b` has been taken over.
    spec fn merged(a: Self::V, b: Self::V) -> Self::V;

    /// Merging a value into itself changes nothing.
    proof fn merged_self(a: Self::V)
        ensures
            Self::merged(a, a) == a,
    ;

    /// Merging the same value again changes nothing.
    proof fn merged_twice(a: Self::V, b: Self::V)
        ensures
            Self::merged(Self::merged(a, b), b) == Self::merged(a, b),
    ;

    /// Takes over what is set in `other`.
    fn merge_from(&mut self, other: Self)
        ensures
            final(self).deep_view() == Self::merged(old(self).deep_view(), other.deep_view()),
    ;
}

impl DeepMerge for String {
    open spec fn merged(a: Seq<char>, b: Seq<char>) -> Seq<char> {
        b
    }

    proof fn merged_self(a: Seq<char>) {
    }

    proof fn merged_twice(a: Seq<char>, b: Seq<char>) {
    }

    fn merge_from(&mut self, other: Self) {
        *self = other;
    }
}

impl DeepMerge for bool {
    open spec fn merged(a: bool, b: bool) -> bool {
        b
    }

    proof fn merged_self(a: bool) {
    }

    proof fn merged_twice(a: bool, b: bool) {
    }

    fn merge_from(&mut self, other: Self) {
        *self = other;
    }
}

impl<T: DeepMerge> DeepMerge for Option<T> {
    open spec fn merged(a: Option<T::V>, b: Option<T::V>) -> Option<T::V> {
        match (a, b) {
            (_, None) => a,
            (None, Some(y)) => Some(y),
            (Some(x), Some(y)) => Some(T::merged(x, y)),
        }
    }

    proof fn merged_self(a: Option<T::V>) {
        if let Some(x) = a {
            T::merged_self(x);
        }
    }

    proof fn merged_twice(a: Option<T::V>, b: Option<T::V>) {
        match (a, b) {
            (Some(x), Some(y)) => {
                T::merged_twice(x, y);
            },
            (None, Some(y)) => {
                T::merged_self(y);
            },
            _ => {},
        }
    }

    fn merge_from(&mut self, other: Self) {
        if let Some(new) = other {
            match self {
                Some(current) => {
                    current.merge_from(new);
                },
                None => {
                    *self = Some(new);
                },
            }
        }
    }
}

/// `a` followed by the items of `b` that are not there yet, each once.
pub open spec fn united<A>(a: Seq<A>, b: Seq<A>) -> Seq<A>
    decreases b.len(),
{
    if b.len() == 0 {
        a
    } else {
        let c = united(a, b.drop_last());
        if c.contains(b.last()) {
            c
        } else {
            c.push(b.last())
        }
    }
}

/// The union holds what either list holds.
pub proof fn united_contains<A>(a: Seq<A>, b: Seq<A>)
    ensures
        forall|x: A| #[trigger] united(a, b).contains(x) <==> a.contains(x) || b.contains(x),
    decreases b.len(),
{
    if b.len() > 0 {
        let c = united(a, b.drop_last());
        united_contains(a, b.drop_last());
        assert(b =~= b.drop_last().push(b.last()));
        assert forall|x: A| #[trigger] united(a, b).contains(x) <==> a.contains(x)
            || b.contains(x) by {
            contains_push(c, b.last(), x);
            contains_push(b.drop_last(), b.last(), x);
            assert(c.contains(x) <==> a.contains(x) || b.drop_last().contains(x));
        }
    }
}

/// Uniting with what is held already changes nothing.
proof fn united_absorbs<A>(a: Seq<A>, b: Seq<A>)
    requires
        forall|x: A| #[trigger] b.contains(x) ==> a.contains(x),
    ensures
        united(a, b) == a,
    decreases b.len(),
{
    if b.len() > 0 {
        assert(b.contains(b[b.len() - 1]));
        assert forall|x: A| #[trigger] b.drop_last().contains(x) implies a.contains(x) by {
            let i = choose|i: int| 0 <= i < b.drop_last().len() && b.drop_last()[i] == x;
            assert(b[i] == x);
            assert(b.contains(x));
        }
        united_absorbs(a, b.drop_last());
    }
}

/// Uniting a list with itself changes nothing.
pub proof fn united_self<A>(a: Seq<A>)
    ensures
        united(a, a) == a,
{
    united_absorbs(a, a);
}

/// Uniting with the same list again changes nothing.
pub proof fn united_twice<A>(a: Seq<A>, b: Seq<A>)
    ensures
        united(united(a, b), b) == united(a, b),
{
    united_contains(a, b);
    united_absorbs(united(a, b), b);
}

/// Appends the items of `new` that `current` does not hold yet.
pub fn set<T: Model>(current: &mut Vec<T>, new: &Vec<T>)
    ensures
        final(current).deep_view() == united(old(current).deep_view(), new.deep_view()),
{
    let ghost a = current.deep_view();
    let ghost b = new.deep_view();
    let mut i: usize = 0;
    assert(b.take(0) =~= Seq::<T::V>::empty());
    while i < new.len()
        invariant
            i <= new@.len(),
            b == new.deep_view(),
            current.deep_view() == united(a, b.take(i as int)),
        decreases new.len() - i,
    {
        assert(b.take(i as int + 1).drop_last() =~= b.take(i as int));
        assert(b.take(i as int + 1).last() == new@[i as int].deep_view());
        if !contains(current, &new[i]) {
            push(current, new[i].dup());
        }
        i = i + 1;
    }
    assert(b.take(i as int) =~= b);
}

} // verus!
