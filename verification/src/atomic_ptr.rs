//! Atomic node addresses.
//!
//! Both types hold the address of a node, `0` standing for no node. The
//! address is an integer here; the list that stores it owns the node.
use std::marker::PhantomData;
use std::sync::atomic::AtomicUsize;
use std::sync::atomic::Ordering;
use vstd::prelude::*;

verus! {

/// The address word of an optional address, `0` for `None`.
pub open spec fn word_of(value: Option<usize>) -> usize {
    match value {
        Some(a) => a,
        None => 0,
    }
}

/// The optional address of a word, `None` for `0`.
pub open spec fn value_of(word: usize) -> Option<usize> {
    if word == 0 { None } else { Some(word) }
}

/// An address that is not `0`, or none.
pub open spec fn non_null(value: Option<usize>) -> bool {
    value is Some ==> value.unwrap() != 0
}

/// The address word of an optional address.
pub fn to_ptr(value: Option<usize>) -> (r: usize)
    ensures
        r == word_of(value),
{
    match value {
        Some(a) => a,
        None => 0,
    }
}

/// The optional address of a word.
fn from_word(word: usize) -> (r: Option<usize>)
    ensures
        r == value_of(word),
        non_null(r),
{
    if word == 0 {
        None
    } else {
        Some(word)
    }
}

/// Words and optional non-null addresses stand one for one.
pub proof fn lemma_word_round_trip(value: Option<usize>, word: usize)
    requires
        non_null(value),
    ensures
        value_of(word_of(value)) == value,
        word_of(value_of(word)) == word,
        (value_of(word) == value) == (word == word_of(value)),
{
}

/// Whether `order` may order a load; std's atomic loads panic on
/// `Release` and `AcqRel`.
pub open spec fn load_order_ok(order: Ordering) -> bool {
    order != Ordering::Release && order != Ordering::AcqRel
}

/// Whether `order` may order a store; std's atomic stores panic on
/// `Acquire` and `AcqRel`.
pub open spec fn store_order_ok(order: Ordering) -> bool {
    order != Ordering::Acquire && order != Ordering::AcqRel
}

/// Whether `order` may order a failed compare-and-exchange; std's
/// compare-and-exchange panics on the others.
pub open spec fn failure_order_ok(order: Ordering) -> bool {
    order != Ordering::Release && order != Ordering::AcqRel
}

/// `AtomicUsize::compare_exchange`. As std documents it, it writes `new`
/// only when the atomic holds `current`, and hands back the value it held:
/// as `Ok` when it wrote, that value then being `current`, and as `Err` when
/// it did not, that value then differing from `current`. It panics when
/// `failure` is `Release` or `AcqRel`. Which value the atomic held rests on
/// what other threads wrote, and is not stated.
#[verifier::external_body]
pub(crate) fn word_compare_exchange(
    atomic: &AtomicUsize,
    current: usize,
    new: usize,
    success: Ordering,
    failure: Ordering,
) -> (r: Result<usize, usize>)
    requires
        failure_order_ok(failure),
    ensures
        r matches Ok(v) ==> v == current,
        r matches Err(v) ==> v != current,
{
    atomic.compare_exchange(current, new, success, failure)
}

/// `AtomicUsize::compare_exchange_weak`. As std documents it, it writes
/// `new` only when the atomic holds `current` and hands back the value it
/// held, as `Ok` when it wrote, that value then being `current`; unlike
/// `compare_exchange` it may fail even when the atomic holds `current`, so
/// an `Err` value is not known to differ from `current`. It panics when
/// `failure` is `Release` or `AcqRel`. Which value the atomic held rests on
/// what other threads wrote, and is not stated.
#[verifier::external_body]
pub(crate) fn word_compare_exchange_weak(
    atomic: &AtomicUsize,
    current: usize,
    new: usize,
    success: Ordering,
    failure: Ordering,
) -> (r: Result<usize, usize>)
    requires
        failure_order_ok(failure),
    ensures
        r matches Ok(v) ==> v == current,
{
    atomic.compare_exchange_weak(current, new, success, failure)
}

/// An atomic optional address.
#[derive(Debug, Default)]
pub struct ConstAtomicPtr<T> {
    inner: AtomicUsize,
    marker: PhantomData<T>,
}

impl<T> ConstAtomicPtr<T> {
    /// A new atomic holding `value`.
    pub fn new(value: Option<usize>) -> (r: Self)
        requires
            non_null(value),
    {
        match value {
            Some(a) => ConstAtomicPtr { inner: AtomicUsize::new(a), marker: PhantomData },
            None => ConstAtomicPtr { inner: AtomicUsize::new(0), marker: PhantomData },
        }
    }

    /// The address held now.
    pub fn load(&self, order: Ordering) -> (r: Option<usize>)
        requires
            load_order_ok(order),
        ensures
            non_null(r),
    {
        from_word(self.inner.load(order))
    }

    /// Stores `value`.
    pub fn store(&self, value: Option<usize>, order: Ordering)
        requires
            non_null(value),
            store_order_ok(order),
    {
        self.inner.store(to_ptr(value), order)
    }

    /// Stores `value` and hands back the address held before.
    pub fn swap(&self, value: Option<usize>, order: Ordering) -> (r: Option<usize>)
        requires
            non_null(value),
        ensures
            non_null(r),
    {
        from_word(self.inner.swap(to_ptr(value), order))
    }

    /// Stores `new` if the atomic holds `current`, and hands back the
    /// address found, as `Ok` when `new` was stored and as `Err` otherwise.
    pub fn compare_exchange(
        &self,
        current: Option<usize>,
        new: Option<usize>,
        success: Ordering,
        failure: Ordering,
    ) -> (r: Result<Option<usize>, Option<usize>>)
        requires
            non_null(current),
            non_null(new),
            failure_order_ok(failure),
        ensures
            r matches Ok(v) ==> v == current,
            r matches Err(v) ==> non_null(v) && v != current,
    {
        proof {
            lemma_word_round_trip(current, 0);
        }
        match word_compare_exchange(&self.inner, to_ptr(current), to_ptr(new), success, failure) {
            Ok(v) => Ok(from_word(v)),
            Err(v) => Err(from_word(v)),
        }
    }

    /// Like `compare_exchange`, but may fail even when the atomic holds
    /// `current`.
    pub fn compare_exchange_weak(
        &self,
        current: Option<usize>,
        new: Option<usize>,
        success: Ordering,
        failure: Ordering,
    ) -> (r: Result<Option<usize>, Option<usize>>)
        requires
            non_null(current),
            non_null(new),
            failure_order_ok(failure),
        ensures
            r matches Ok(v) ==> v == current,
            r matches Err(v) ==> non_null(v),
    {
        proof {
            lemma_word_round_trip(current, 0);
        }
        match word_compare_exchange_weak(&self.inner, to_ptr(current), to_ptr(new), success, failure) {
            Ok(v) => Ok(from_word(v)),
            Err(v) => Err(from_word(v)),
        }
    }
}

/// An atomic address word, `0` standing for no node.
#[derive(Debug)]
pub struct AtomicConstPtr<T> {
    inner_ptr: AtomicUsize,
    marker: PhantomData<T>,
}

impl<T> AtomicConstPtr<T> {
    /// A new atomic holding `ptr`.
    pub fn new(ptr: usize) -> (r: Self) {
        AtomicConstPtr { inner_ptr: AtomicUsize::new(ptr), marker: PhantomData }
    }

    /// Stores `ptr`.
    pub fn store(&self, ptr: usize, order: Ordering)
        requires
            store_order_ok(order),
    {
        self.inner_ptr.store(ptr, order)
    }

    /// The address held now.
    pub fn load(&self, order: Ordering) -> (r: usize)
        requires
            load_order_ok(order),
    {
        self.inner_ptr.load(order)
    }

    /// Stores `new` if the atomic holds `current`, and hands back the
    /// address found, as `Ok` when `new` was stored and as `Err` otherwise.
    pub fn compare_exchange(
        &self,
        current: usize,
        new: usize,
        success: Ordering,
        failure: Ordering,
    ) -> (r: Result<usize, usize>)
        requires
            failure_order_ok(failure),
        ensures
            r matches Ok(v) ==> v == current,
            r matches Err(v) ==> v != current,
    {
        word_compare_exchange(&self.inner_ptr, current, new, success, failure)
    }

    /// Like `compare_exchange`, but may fail even when the atomic holds
    /// `current`.
    pub fn compare_exchange_weak(
        &self,
        current: usize,
        new: usize,
        success: Ordering,
        failure: Ordering,
    ) -> (r: Result<usize, usize>)
        requires
            failure_order_ok(failure),
        ensures
            r matches Ok(v) ==> v == current,
    {
        word_compare_exchange_weak(&self.inner_ptr, current, new, success, failure)
    }

    /// Stores `ptr` and hands back the address held before.
    pub fn swap(&self, ptr: usize, order: Ordering) -> (r: usize) {
        self.inner_ptr.swap(ptr, order)
    }
}

} // verus!
