//! The word of a small, unfair, last-in-first-out mutex.
//!
//! The mutex is one word: bit 0 says that it is held, the rest is the address
//! of the most recently queued waiter, whose node links to the waiter queued
//! before it. Only the holder takes waiters off the queue.
use crate::tagged::{
    addr_of, aligned, flag_of, get_flag, get_ptr, tag, with_lock, without_lock, LOCKED_BIT, PTR_MASK,
};
use crate::atomic_ptr::{failure_order_ok, load_order_ok, word_compare_exchange};
use std::sync::atomic::AtomicUsize;
use std::sync::atomic::Ordering;
use vstd::prelude::*;

verus! {

/// What one exchange of `push_or_lock` tries to write over the word `head`.
#[derive(Debug, PartialEq, Eq, Structural)]
pub enum PushOrLock {
    /// The mutex is held: link the node to `next` and exchange the word for
    /// `new`, which makes the node the first waiter and keeps the mutex held.
    Push { next: usize, new: usize },
    /// The mutex is free: exchange the word for `new`, which takes it.
    Lock { new: usize },
}

/// The exchange that the word `head` calls for when a waiter with node
/// address `node` arrives.
pub open spec fn push_or_lock_target(head: usize, node: usize) -> PushOrLock {
    if flag_of(head) {
        PushOrLock::Push { next: addr_of(head), new: tag(node, true) }
    } else {
        PushOrLock::Lock { new: tag(addr_of(head), true) }
    }
}

/// Decides one exchange of `push_or_lock`.
pub fn push_or_lock_step(head: usize, node: usize) -> (r: PushOrLock)
    requires
        aligned(node),
        node < usize::MAX,
    ensures
        r == push_or_lock_target(head, node),
        r matches PushOrLock::Push { next, new } ==> addr_of(new) == node && flag_of(new),
        r matches PushOrLock::Lock { new } ==> addr_of(new) == addr_of(head) && flag_of(new),
{
    proof {
        crate::tagged::lemma_tag_round_trip(node, true);
        crate::tagged::lemma_tag_bits(node);
    }
    if get_flag(head) {
        PushOrLock::Push { next: get_ptr(head), new: node | LOCKED_BIT }
    } else {
        PushOrLock::Lock { new: with_lock(head) }
    }
}

/// What `pop` exchanges the word `head` for, given the link `next` of the
/// first waiter; `None` when no waiter is queued.
pub open spec fn pop_target(head: usize, next: usize) -> Option<usize> {
    if head == 1 {
        None
    } else {
        Some(tag(addr_of(next), true))
    }
}

/// Decides one exchange of `pop`: the first waiter leaves the queue and the
/// mutex stays held.
pub fn pop_step(head: usize, next: usize) -> (r: Option<usize>)
    ensures
        r == pop_target(head, next),
        r matches Some(w) ==> flag_of(w) && addr_of(w) == addr_of(next),
{
    proof {
        crate::tagged::lemma_tag_bits(next);
    }
    if head == LOCKED_BIT {
        None
    } else {
        Some(with_lock(next))
    }
}

/// The queue is last in, first out: a waiter queued on a held word and then
/// popped (its link being the word's old address) gives back the word as it
/// was, and the mutex stays held throughout.
pub proof fn lemma_push_then_pop(head: usize, node: usize)
    requires
        flag_of(head),
        aligned(node),
        0 < node < usize::MAX,
    ensures
        push_or_lock_target(head, node) matches PushOrLock::Push { next, new } && pop_target(
            new,
            next,
        ) == Some(head) && flag_of(new),
{
    crate::tagged::lemma_tag_round_trip(node, true);
    crate::tagged::lemma_tag_round_trip(addr_of(head), true);
}

/// The second exchange of a `try_lock` that found the word `found`: it
/// expects the word free, with the queue it found, and writes it held with
/// that queue. So it can only succeed on a free word: a held word never
/// equals what it expects, and the word it writes is held.
pub fn try_lock_exchange(found: usize) -> (r: (usize, usize))
    ensures
        !flag_of(r.0),
        flag_of(r.1),
        addr_of(r.0) == addr_of(found),
        addr_of(r.1) == addr_of(found),
        forall|w: usize| flag_of(w) ==> w != r.0,
{
    (without_lock(found), with_lock(found))
}

/// A small mutex whose whole state is one word.
pub struct RawMiniLock {
    head: AtomicUsize,
}

impl RawMiniLock {
    /// A free mutex with no waiter.
    pub fn new() -> (r: Self) {
        RawMiniLock { head: AtomicUsize::new(0) }
    }

    /// A mutex whose word is `head`.
    pub fn from_head(head: usize) -> (r: Self) {
        RawMiniLock { head: AtomicUsize::new(head) }
    }

    /// Tries once to take the mutex: first as a free word with no waiter,
    /// then, if the word found was not held, as that word.
    pub fn try_lock(&self) -> (r: bool) {
        let head = match word_compare_exchange(&self.head, 0, LOCKED_BIT, Ordering::Acquire, Ordering::Acquire) {
            Ok(_) => {
                return true;
            },
            Err(h) => h,
        };
        let (expected, new) = try_lock_exchange(head);
        word_compare_exchange(
            &self.head,
            expected,
            new,
            Ordering::Acquire,
            Ordering::Relaxed,
        ).is_ok()
    }

    /// Whether the mutex is held now.
    pub fn is_locked(&self) -> (r: bool) {
        get_flag(self.head.load(Ordering::Acquire))
    }

    /// The word as it is now.
    pub fn load_head(&self, order: Ordering) -> (r: usize)
        requires
            load_order_ok(order),
    {
        self.head.load(order)
    }

    /// Exchanges the word for `new` if it holds `current`, and hands back
    /// the word found, as `Ok` when it did and as `Err` otherwise.
    pub fn exchange_head(
        &self,
        current: usize,
        new: usize,
        success: Ordering,
        failure: Ordering,
    ) -> (r: Result<usize, usize>)
        requires
            failure_order_ok(failure),
        ensures
            r matches Ok(v) ==> v == current,
            r matches Err(v) ==> v != current,
    {
        word_compare_exchange(&self.head, current, new, success, failure)
    }

    /// Clears the held bit, keeping the queue, and hands back the word found.
    pub fn release(&self, order: Ordering) -> (r: usize) {
        self.head.fetch_and(PTR_MASK, order)
    }
}

} // verus!
