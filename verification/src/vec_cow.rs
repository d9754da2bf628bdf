//! A list value that either borrows its elements as a slice or owns
//! them as a vector, viewed uniformly as the sequence of elements.

use vstd::prelude::*;

verus! {

/// A borrowed-or-owned list of elements.
#[derive(Debug, Clone)]
pub enum VecCow<'a, T> {
    Borrowed(&'a [T]),
    Owned(Vec<T>),
}

impl<'a, T> View for VecCow<'a, T> {
    type V = Seq<T>;

    open spec fn view(&self) -> Seq<T> {
        match self {
            VecCow::Borrowed(s) => s@,
            VecCow::Owned(v) => v@,
        }
    }
}

impl<'a, T> VecCow<'a, T> {
    /// The elements, as a slice, whichever way they are held.
    pub fn as_ref(&self) -> (r: &[T])
        ensures
            r@ == self@,
    {
        match self {
            VecCow::Borrowed(s) => s,
            VecCow::Owned(v) => v.as_slice(),
        }
    }
}

impl<'a, T> From<&'a [T]> for VecCow<'a, T> {
    /// Wraps a slice without copying it.
    fn from(value: &'a [T]) -> (r: Self)
        ensures
            r == VecCow::Borrowed(value),
    {
        VecCow::Borrowed(value)
    }
}

impl<'a, T> vstd::std_specs::convert::FromSpecImpl<&'a [T]> for VecCow<'a, T> {
    open spec fn obeys_from_spec() -> bool {
        true
    }

    open spec fn from_spec(v: &'a [T]) -> Self {
        VecCow::Borrowed(v)
    }
}

impl<'a, T> From<Vec<T>> for VecCow<'a, T> {
    /// Takes ownership of a vector.
    fn from(value: Vec<T>) -> (r: Self)
        ensures
            r == VecCow::<'a, T>::Owned(value),
    {
        VecCow::Owned(value)
    }
}

impl<'a, T> vstd::std_specs::convert::FromSpecImpl<Vec<T>> for VecCow<'a, T> {
    open spec fn obeys_from_spec() -> bool {
        true
    }

    open spec fn from_spec(v: Vec<T>) -> Self {
        VecCow::Owned(v)
    }
}

} // verus!
