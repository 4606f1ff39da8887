//! The state word of the first reader-writer lock layout: bit 0 says that a
//! writer holds the lock, bit 1 that a writer may be queued, and the bits
//! from 2 up count the readers.
//!
//! This layout tests "readers hold the lock" on bit 2 alone and decides the
//! wake-ups on the word found before the change, so the functions below
//! follow those exact tests.
use vstd::prelude::*;

verus! {

pub const UNLOCKED: usize = 0;

pub const EXCLUSIVE_LOCK: usize = 1;

pub const EXCLUSIVE_WAITING: usize = 2;

pub const ONE_READER: usize = 4;

/// The word's bit operations in terms of its arithmetic.
pub proof fn lemma_compact_bits(s: usize)
    by (bit_vector)
    ensures
        s >> 2usize == s / 4,
        (s & 1usize == 0usize) == (s % 2 == 0),
        (s & 1usize == 1usize) == (s % 2 == 1),
        (s & 2usize == 2usize) == ((s / 2) % 2 == 1),
        (s & 4usize == 4usize) == ((s / 4) % 2 == 1),
        s % 2 == 0 ==> (s | 1usize) == s + 1,
        s % 2 == 1 ==> (s & !1usize) == s - 1,
        s % 2 == 0 ==> (s & !1usize) == s,
{
}

/// A writer holds the lock.
pub open spec fn exclusive(s: usize) -> bool {
    s % 2 == 1
}

/// A writer may be queued.
pub open spec fn writer_waiting(s: usize) -> bool {
    (s / 2) % 2 == 1
}

/// The number of readers counted in the word.
pub open spec fn readers(s: usize) -> nat {
    (s / 4) as nat
}

/// The layout's test for "readers hold the lock": bit 2 set and no writer.
pub open spec fn shared_bit_locked(s: usize) -> bool {
    (s / 4) % 2 == 1 && !exclusive(s)
}

/// Whether the word says that readers hold the lock.
pub fn is_shared_locked(state: usize) -> (r: bool)
    ensures
        r == shared_bit_locked(state),
{
    proof {
        lemma_compact_bits(state);
    }
    state & ONE_READER == ONE_READER && state & EXCLUSIVE_LOCK == 0
}

/// Whether a writer holds the lock.
pub fn is_exclusive_locked(state: usize) -> (r: bool)
    ensures
        r == exclusive(state),
{
    proof {
        lemma_compact_bits(state);
    }
    state & EXCLUSIVE_LOCK == EXCLUSIVE_LOCK
}

/// Whether the word is all clear.
pub fn is_unlocked(state: usize) -> (r: bool)
    ensures
        r == (state == 0),
{
    state == UNLOCKED
}

/// The number of readers counted in the word.
pub fn num_shared(state: usize) -> (r: usize)
    ensures
        r == readers(state),
{
    proof {
        lemma_compact_bits(state);
    }
    state >> 2
}

/// Whether a writer may be queued.
pub fn exclusive_waiting(state: usize) -> (r: bool)
    ensures
        r == writer_waiting(state),
{
    proof {
        lemma_compact_bits(state);
    }
    state & EXCLUSIVE_WAITING == EXCLUSIVE_WAITING
}

/// What a `try_lock_shared` writes over the word `s`: one more reader, or
/// nothing when a writer holds the lock.
pub open spec fn shared_target(s: usize) -> Option<usize> {
    if exclusive(s) {
        None
    } else {
        Some((s + 4) as usize)
    }
}

/// The value to exchange `state` for to join the readers, or `None` when
/// the attempt gives up.
pub fn try_lock_shared_target(state: usize) -> (r: Option<usize>)
    requires
        state + ONE_READER <= usize::MAX,
    ensures
        r == shared_target(state),
        r is None <==> exclusive(state),
        r is Some ==> readers(r.unwrap()) == readers(state) + 1 && !exclusive(r.unwrap())
            && writer_waiting(r.unwrap()) == writer_waiting(state),
{
    if is_exclusive_locked(state) {
        None
    } else {
        Some(state + ONE_READER)
    }
}

/// What a `try_lock_exclusive` writes over the word `s`: the writer's bit
/// when no reader is counted and no writer holds the lock.
pub open spec fn exclusive_target(s: usize) -> Option<usize> {
    if readers(s) == 0 && !exclusive(s) {
        Some((s + 1) as usize)
    } else {
        None
    }
}

/// The value to exchange `state` for to take the lock for writing, or
/// `None` when the attempt gives up.
pub fn try_lock_exclusive_target(state: usize) -> (r: Option<usize>)
    ensures
        r == exclusive_target(state),
        r is None <==> (readers(state) > 0 || exclusive(state)),
        r is Some ==> exclusive(r.unwrap()) && readers(r.unwrap()) == 0 && writer_waiting(
            r.unwrap(),
        ) == writer_waiting(state),
{
    proof {
        lemma_compact_bits(state);
    }
    if num_shared(state) == 0 && !is_exclusive_locked(state) {
        Some(state | EXCLUSIVE_LOCK)
    } else {
        None
    }
}

/// Whether a leaving reader that found `prev` wakes a writer: the layout
/// asks for no reader counted in `prev` and a writer marked waiting.
pub fn unlock_shared_wakes_writer(prev: usize) -> (r: bool)
    ensures
        r == (readers(prev) == 0 && writer_waiting(prev)),
{
    num_shared(prev) == 0 && exclusive_waiting(prev)
}

/// Whom a leaving writer wakes.
#[derive(Debug, PartialEq, Eq, Structural)]
pub enum CompactRelease {
    WakeWriter,
    WakeReaders,
    Nothing,
}

/// The choice for a writer that found `prev` when it cleared its bit.
pub open spec fn compact_release(prev: usize) -> CompactRelease {
    if readers(prev) == 0 && writer_waiting(prev) {
        CompactRelease::WakeWriter
    } else if readers(prev) > 0 {
        CompactRelease::WakeReaders
    } else {
        CompactRelease::Nothing
    }
}

/// Decides whom `unlock_exclusive` wakes.
pub fn unlock_exclusive_action(prev: usize) -> (r: CompactRelease)
    ensures
        r == compact_release(prev),
        readers(prev) > 0 ==> r == CompactRelease::WakeReaders,
        readers(prev) == 0 && writer_waiting(prev) ==> r == CompactRelease::WakeWriter,
        readers(prev) == 0 && !writer_waiting(prev) ==> r == CompactRelease::Nothing,
{
    if num_shared(prev) == 0 && exclusive_waiting(prev) {
        CompactRelease::WakeWriter
    } else if num_shared(prev) > 0 {
        CompactRelease::WakeReaders
    } else {
        CompactRelease::Nothing
    }
}

/// Whether the word says that the lock is held at all.
pub fn is_locked(state: usize) -> (r: bool)
    ensures
        r == (state != 0),
{
    !is_unlocked(state)
}

} // verus!
