//! Copying and comparing values by what they stand for.

use vstd::prelude::*;

use crate::text;

verus! {

/// Values that are known by their view alone.
pub trait Model: DeepView + Sized {
    /// A copy with the same view.
    fn dup(&self) -> (r: Self)
        ensures
            r.deep_view() == self.deep_view(),
    ;

    /// Reports whether the two views are equal.
    fn same(&self, other: &Self) -> (r: bool)
        ensures
            r == (self.deep_view() == other.deep_view()),
    ;
}

impl Model for String {
    fn dup(&self) -> (r: Self) {
        self.clone()
    }

    fn same(&self, other: &Self) -> (r: bool) {
        text::same(self.as_str(), other.as_str())
    }
}

impl Model for bool {
    fn dup(&self) -> (r: Self) {
        *self
    }

    fn same(&self, other: &Self) -> (r: bool) {
        *self == *other
    }
}

impl Model for u8 {
    fn dup(&self) -> (r: Self) {
        *self
    }

    fn same(&self, other: &Self) -> (r: bool) {
        *self == *other
    }
}

impl Model for i32 {
    fn dup(&self) -> (r: Self) {
        *self
    }

    fn same(&self, other: &Self) -> (r: bool) {
        *self == *other
    }
}

impl Model for i64 {
    fn dup(&self) -> (r: Self) {
        *self
    }

    fn same(&self, other: &Self) -> (r: bool) {
        *self == *other
    }
}

impl<T: Model> Model for Option<T> {
    fn dup(&self) -> (r: Self) {
        match self {
            Some(v) => Some(v.dup()),
            None => None,
        }
    }

    fn same(&self, other: &Self) -> (r: bool) {
        match (self, other) {
            (Some(a), Some(b)) => a.same(b),
            (None, None) => true,
            _ => false,
        }
    }
}

impl<T: Model> Model for Vec<T> {
    fn dup(&self) -> (r: Self) {
        let mut r: Vec<T> = Vec::new();
        let mut i: usize = 0;
        while i < self.len()
            invariant
                i <= self@.len(),
                r@.len() == i,
                forall|j: int| 0 <= j < i ==> #[trigger] r@[j].deep_view() == self@[j].deep_view(),
            decreases self.len() - i,
        {
            r.push(self[i].dup());
            i = i + 1;
        }
        assert(r.deep_view() =~= self.deep_view());
        r
    }

    fn same(&self, other: &Self) -> (r: bool) {
        if self.len() != other.len() {
            assert(self.deep_view().len() != other.deep_view().len());
            return false;
        }
        let mut i: usize = 0;
        while i < self.len()
            invariant
                i <= self@.len(),
                self@.len() == other@.len(),
                forall|j: int|
                    0 <= j < i ==> #[trigger] self@[j].deep_view() == other@[j].deep_view(),
            decreases self.len() - i,
        {
            if !self[i].same(&other[i]) {
                assert(self.deep_view()[i as int] != other.deep_view()[i as int]);
                return false;
            }
            i = i + 1;
        }
        assert(self.deep_view() =~= other.deep_view());
        true
    }
}

/// The empty list.
pub fn none<T: DeepView>() -> (r: Vec<T>)
    ensures
        r.deep_view() == Seq::<T::V>::empty(),
{
    let r: Vec<T> = Vec::new();
    assert(r.deep_view() =~= Seq::<T::V>::empty());
    r
}

/// The list of one item.
pub fn one<T: DeepView>(a: T) -> (r: Vec<T>)
    ensures
        r.deep_view() == seq![a.deep_view()],
{
    let mut r: Vec<T> = Vec::new();
    r.push(a);
    assert(r.deep_view() =~= seq![a.deep_view()]);
    r
}

/// The list of two items.
pub fn two<T: DeepView>(a: T, b: T) -> (r: Vec<T>)
    ensures
        r.deep_view() == seq![a.deep_view(), b.deep_view()],
{
    let mut r: Vec<T> = Vec::new();
    r.push(a);
    r.push(b);
    assert(r.deep_view() =~= seq![a.deep_view(), b.deep_view()]);
    r
}

/// The list of three items.
pub fn three<T: DeepView>(a: T, b: T, c: T) -> (r: Vec<T>)
    ensures
        r.deep_view() == seq![a.deep_view(), b.deep_view(), c.deep_view()],
{
    let mut r: Vec<T> = Vec::new();
    r.push(a);
    r.push(b);
    r.push(c);
    assert(r.deep_view() =~= seq![a.deep_view(), b.deep_view(), c.deep_view()]);
    r
}

/// Puts an item at the end of a list.
pub fn push<T: DeepView>(v: &mut Vec<T>, a: T)
    ensures
        final(v).deep_view() == old(v).deep_view().push(a.deep_view()),
{
    let ghost s = v.deep_view();
    v.push(a);
    assert(v.deep_view() =~= s.push(a.deep_view()));
}

/// Puts the items of a second list behind those of the first.
pub fn extend<T: Model>(v: &mut Vec<T>, more: &Vec<T>)
    ensures
        final(v).deep_view() == old(v).deep_view() + more.deep_view(),
{
    let ghost s = v.deep_view();
    let mut i: usize = 0;
    assert(s + more.deep_view().take(0) =~= s);
    while i < more.len()
        invariant
            i <= more@.len(),
            v.deep_view() == s + more.deep_view().take(i as int),
        decreases more.len() - i,
    {
        push(v, more[i].dup());
        assert(more.deep_view().take(i as int + 1) =~= more.deep_view().take(i as int).push(
            more@[i as int].deep_view(),
        ));
        assert(s + more.deep_view().take(i as int + 1) =~= (s + more.deep_view().take(
            i as int,
        )).push(more@[i as int].deep_view()));
        i = i + 1;
    }
    assert(more.deep_view().take(i as int) =~= more.deep_view());
}

/// Reports whether a list holds an item.
pub fn contains<T: Model>(v: &Vec<T>, a: &T) -> (r: bool)
    ensures
        r == v.deep_view().contains(a.deep_view()),
{
    let mut i: usize = 0;
    while i < v.len()
        invariant
            i <= v@.len(),
            forall|j: int| 0 <= j < i ==> #[trigger] v@[j].deep_view() != a.deep_view(),
        decreases v.len() - i,
    {
        if v[i].same(a) {
            assert(v.deep_view()[i as int] == a.deep_view());
            return true;
        }
        i = i + 1;
    }
    assert forall|j: int| 0 <= j < v@.len() implies v.deep_view()[j] != a.deep_view() by {
        assert(v.deep_view()[j] == v@[j].deep_view());
    }
    false
}

} // verus!
