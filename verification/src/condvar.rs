//! The decisions of a condition variable on the mutex its waiters hold.
//!
//! The condition variable remembers the address of the mutex its waiters
//! released (zero when nobody waits). All waiters must use the same mutex;
//! the notification that takes the last waiter forgets the mutex.
use vstd::prelude::*;

verus! {

/// Whether a thread holding the mutex at address `mutex` may wait, when the
/// condition variable remembers `current`: only when it remembers no mutex
/// or this one.
pub fn may_wait_with(current: usize, mutex: usize) -> (r: bool)
    ensures
        r == (current == 0 || current == mutex),
{
    current == 0 || current == mutex
}

/// Whether a notification that finds `num_left` waiters, and takes the
/// tail one, forgets the mutex: it does when that waiter is the last.
pub fn forgets_mutex(num_left: usize) -> (r: bool)
    ensures
        r == (num_left == 1),
{
    num_left == 1
}

} // verus!
