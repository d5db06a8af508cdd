//! Iterators that lend out each item until the next is asked for.
use vstd::prelude::*;
use vstd::slice::slice_subrange;
use core::marker::PhantomData;
use super::{BasicLGType, LGType};

verus! {

/// An iterator that lends out its items: each is handed out by reference, to
/// be used before the next is asked for.
pub trait LocalIterator {
    /// The type of the items.
    type Item: LGType;

    /// Whether the iterator can be advanced through all that it has yet to
    /// lend out.
    spec fn wf(&self) -> bool;

    /// The items that the iterator has yet to lend out, in their order.
    spec fn rest(&self) -> Seq<<Self::Item as LGType>::Type>;

    /// Advances the iterator and lends out the next item, if one is left.
    fn next(&mut self) -> (r: Option<&<Self::Item as LGType>::Type>)
        requires
            old(self).wf(),
        ensures
            final(self).wf(),
            old(self).rest().len() == 0 ==> r is None && final(self).rest().len() == 0,
            old(self).rest().len() > 0 ==> r == Some(&old(self).rest()[0]) && final(self).rest()
                == old(self).rest().skip(1),
    ;
}

/// Adapters for every [`LocalIterator`].
pub trait LocalIteratorExt: LocalIterator + Sized {
    /// Makes the iterator that lends out what `f` makes of each item of this
    /// one.
    fn map<U: LGType, F: Fn(&<Self::Item as LGType>::Type) -> U::Type>(self, f: F) -> (r: Mapped<
        Self,
        U,
        F,
    >)
        ensures
            r.base == self,
            r.f == f,
            r.value is None,
    {
        Mapped { base: self, f, value: None }
    }
}

impl<I: LocalIterator> LocalIteratorExt for I {

}

/// Whether the function accepts `x`, and can return no two different values
/// for it.
pub open spec fn decides<A, B, F: Fn(&A) -> B>(f: F, x: A) -> bool {
    &&& call_requires(f, (&x,))
    &&& forall|y: B, z: B| call_ensures(f, (&x,), y) && call_ensures(f, (&x,), z) ==> y == z
}

/// What the function returns for `x`.
pub open spec fn image<A, B, F: Fn(&A) -> B>(f: F, x: A) -> B {
    choose|y: B| call_ensures(f, (&x,), y)
}

/// What the function returns for each of the items.
pub open spec fn images<A, B, F: Fn(&A) -> B>(f: F, items: Seq<A>) -> Seq<B> {
    Seq::new(items.len(), |i: int| image(f, items[i]))
}

/// An iterator that lends out what a function makes of each item of another
/// iterator.
///
/// The function is to be one whose result is decided by its argument, and
/// which accepts every item that the other iterator has yet to lend out.
pub struct Mapped<I: LocalIterator, U: LGType, F: Fn(&<I::Item as LGType>::Type) -> U::Type> {
    /// The iterator whose items are mapped.
    pub base: I,
    /// The function that maps them.
    pub f: F,
    /// The item that was lent out last.
    pub value: Option<U::Type>,
}

impl<I: LocalIterator, U: LGType, F: Fn(&<I::Item as LGType>::Type) -> U::Type> Mapped<I, U, F> {
    /// Makes the iterator that lends out what `f` makes of each item of
    /// `base`.
    pub fn new(base: I, f: F) -> (r: Self)
        ensures
            r.base == base,
            r.f == f,
            r.value is None,
    {
        Self { base, f, value: None }
    }
}

impl<
    I: LocalIterator + Clone,
    U: LGType,
    F: Fn(&<I::Item as LGType>::Type) -> U::Type + Clone,
> Clone for Mapped<I, U, F> where U::Type: Clone {
    fn clone(&self) -> (r: Self)
        ensures
            cloned(self.base, r.base),
            cloned(self.f, r.f),
            cloned(self.value, r.value),
    {
        Self { base: self.base.clone(), f: self.f.clone(), value: self.value.clone() }
    }
}

impl<I: LocalIterator, U: LGType, F: Fn(&<I::Item as LGType>::Type) -> U::Type> LocalIterator
    for Mapped<I, U, F> {
    type Item = U;

    open spec fn wf(&self) -> bool {
        &&& self.base.wf()
        &&& forall|i: int|
            0 <= i < self.base.rest().len() ==> decides(self.f, #[trigger] self.base.rest()[i])
    }

    open spec fn rest(&self) -> Seq<U::Type> {
        images(self.f, self.base.rest())
    }

    fn next(&mut self) -> (r: Option<&U::Type>)
        ensures
            final(self).f == old(self).f,
    {
        let ghost before = self.base.rest();
        match self.base.next() {
            Some(item) => {
                assert(decides(self.f, before[0]));
                let new_value = (self.f)(item);
                self.value = Some(new_value);
                proof {
                    assert forall|i: int| 0 <= i < self.base.rest().len() implies decides(
                        self.f,
                        #[trigger] self.base.rest()[i],
                    ) by {
                        assert(self.base.rest()[i] == before[i + 1]);
                    }
                    assert(self.rest() =~= old(self).rest().skip(1));
                }
                self.value.as_ref()
            },
            None => None,
        }
    }
}

/// An iterator that lends out a part of each item of another iterator: what a
/// function picks out of it.
pub struct RefMap<
    I: LocalIterator,
    U: LGType,
    F: for <'a>Fn(&'a <I::Item as LGType>::Type) -> &'a U::Type,
> {
    /// The iterator whose items are mapped.
    pub iterator: I,
    /// The function that picks the part.
    pub f: F,
    /// The type of the parts.
    pub _phantom: PhantomData<U>,
}

impl<
    I: LocalIterator,
    U: LGType,
    F: for <'a>Fn(&'a <I::Item as LGType>::Type) -> &'a U::Type,
> LocalIterator for RefMap<I, U, F> {
    type Item = U;

    open spec fn wf(&self) -> bool {
        &&& self.iterator.wf()
        &&& forall|i: int|
            0 <= i < self.iterator.rest().len() ==> picks(self.f, #[trigger] self.iterator.rest()[i])
    }

    open spec fn rest(&self) -> Seq<U::Type> {
        parts(self.f, self.iterator.rest())
    }

    fn next(&mut self) -> (r: Option<&U::Type>)
        ensures
            final(self).f == old(self).f,
    {
        let ghost before = self.iterator.rest();
        proof {
            let after = before.skip(1);
            if before.len() > 0 {
                assert forall|i: int| 0 <= i < after.len() implies picks(
                    self.f,
                    #[trigger] after[i],
                ) by {
                    assert(after[i] == before[i + 1]);
                }
                assert(parts(self.f, after) =~= parts(self.f, before).skip(1));
            }
        }
        match self.iterator.next() {
            Some(item) => {
                assert(picks(self.f, before[0]));
                Some((self.f)(item))
            },
            None => None,
        }
    }
}

/// The parts that the function picks of the items.
pub open spec fn parts<A, B, F: for <'a>Fn(&'a A) -> &'a B>(f: F, items: Seq<A>) -> Seq<B> {
    Seq::new(items.len(), |i: int| part(f, items[i]))
}

/// Whether the function accepts `x`, and can pick no two different parts of
/// it.
pub open spec fn picks<A, B, F: for <'a>Fn(&'a A) -> &'a B>(f: F, x: A) -> bool {
    &&& call_requires(f, (&x,))
    &&& forall|y: &B, z: &B| call_ensures(f, (&x,), y) && call_ensures(f, (&x,), z) ==> y == z
}

/// The part that the function picks of `x`.
pub open spec fn part<A, B, F: for <'a>Fn(&'a A) -> &'a B>(f: F, x: A) -> B {
    *choose|y: &B| call_ensures(f, (&x,), y)
}

/// An iterator that lends out the elements of a slice in their order.
#[derive(Clone, Copy)]
pub struct LocalSliceIterator<'a, T> {
    /// The elements that are still to come.
    pub slice: &'a [T],
}

impl<'a, T> LocalIterator for LocalSliceIterator<'a, T> {
    type Item = BasicLGType<'a, T>;

    open spec fn wf(&self) -> bool {
        true
    }

    open spec fn rest(&self) -> Seq<T> {
        self.slice@
    }

    fn next(&mut self) -> (r: Option<&T>) {
        let n = self.slice.len();
        if n == 0 {
            None
        } else {
            let head = &self.slice[0];
            self.slice = slice_subrange(self.slice, 1, n);
            Some(head)
        }
    }
}

/// Slices, as what a [`LocalSliceIterator`] can run over.
pub trait SliceExt {
    /// The type of the elements.
    type Item;

    /// The elements of the slice, in their order.
    spec fn items(&self) -> Seq<Self::Item>;

    /// Makes an iterator that lends out the elements of the slice in their
    /// order.
    fn local_iter(&self) -> (r: LocalSliceIterator<'_, Self::Item>)
        ensures
            r.slice@ == self.items(),
    ;
}

impl<T> SliceExt for [T] {
    type Item = T;

    open spec fn items(&self) -> Seq<T> {
        self@
    }

    fn local_iter(&self) -> (r: LocalSliceIterator<'_, T>) {
        LocalSliceIterator { slice: self }
    }
}

} // verus!
