//! A value that is either borrowed or owned, directly, in a box or shared.
use std::sync::Arc;
use vstd::prelude::*;

verus! {

/// A value that is borrowed for `'a` or owned.
#[derive(Debug)]
pub enum MaybeRef<'a, T> {
    Ref(&'a T),
    Owned(T),
    Boxed(Box<T>),
    Arc(Arc<T>),
}

impl<'a, T> MaybeRef<'a, T> {
    /// The value, whichever way it is held.
    pub open spec fn value(&self) -> T {
        match self {
            MaybeRef::Ref(v) => **v,
            MaybeRef::Owned(v) => *v,
            MaybeRef::Boxed(v) => **v,
            MaybeRef::Arc(v) => **v,
        }
    }

    /// Holds an owned value.
    pub fn new_owned(inner: T) -> (r: Self)
        ensures
            r == MaybeRef::<'a, T>::Owned(inner),
            r.value() == inner,
    {
        MaybeRef::Owned(inner)
    }

    /// Holds a borrowed value.
    pub fn new_ref(inner: &'a T) -> (r: Self)
        ensures
            r == MaybeRef::<'a, T>::Ref(inner),
            r.value() == *inner,
    {
        MaybeRef::Ref(inner)
    }

    /// Holds a boxed value.
    pub fn new_boxed(inner: Box<T>) -> (r: Self)
        ensures
            r == MaybeRef::<'a, T>::Boxed(inner),
            r.value() == *inner,
    {
        MaybeRef::Boxed(inner)
    }

    /// Holds a shared value.
    pub fn new_arc(inner: Arc<T>) -> (r: Self)
        ensures
            r == MaybeRef::<'a, T>::Arc(inner),
            r.value() == *inner,
    {
        MaybeRef::Arc(inner)
    }

    /// A reference to the value, whichever way it is held.
    pub fn deref(&self) -> (r: &T)
        ensures
            *r == self.value(),
    {
        match self {
            MaybeRef::Ref(value) => value,
            MaybeRef::Owned(value) => value,
            MaybeRef::Boxed(value) => value,
            MaybeRef::Arc(value) => value,
        }
    }
}

} // verus!
