//! The state word of the reader-writer lock and the decisions taken on it.
//!
//! Bit 0 says that a writer holds the lock, bit 1 that a writer may be
//! queued, bit 2 is the hand-over bit, and the bits from 3 up count the
//! readers, those that hold the lock and those that registered and wait for
//! the writer to leave. Every function here takes a word that was read from
//! the lock and says what to do next.
use vstd::prelude::*;

verus! {

pub const UNLOCKED: usize = 0;

pub const EXCLUSIVE_LOCK: usize = 1;

pub const EXCLUSIVE_WAITING: usize = 2;

pub const FAIR: usize = 4;

pub const ONE_READER: usize = 8;

/// A writer holds the lock.
pub open spec fn exclusive(s: usize) -> bool {
    s % 2 == 1
}

/// A writer may be queued.
pub open spec fn writer_waiting(s: usize) -> bool {
    (s / 2) % 2 == 1
}

/// The hand-over bit is set.
pub open spec fn fair(s: usize) -> bool {
    (s / 4) % 2 == 1
}

/// The number of readers counted in the word.
pub open spec fn readers(s: usize) -> nat {
    (s / 8) as nat
}

/// Readers hold the lock: some are counted and no writer holds it.
pub open spec fn shared_locked(s: usize) -> bool {
    readers(s) > 0 && !exclusive(s)
}

/// Nobody holds the lock.
pub open spec fn unlocked(s: usize) -> bool {
    !exclusive(s) && readers(s) == 0
}

/// The word's bit operations in terms of its arithmetic.
pub proof fn lemma_rw_bits(s: usize)
    by (bit_vector)
    ensures
        s >> 3usize == s / 8,
        (s & 1usize == 1usize) == (s % 2 == 1),
        (s & 2usize == 2usize) == ((s / 2) % 2 == 1),
        (s & 4usize == 4usize) == ((s / 4) % 2 == 1),
        s % 2 == 0 ==> (s | 1usize) == s + 1,
        s % 2 == 1 ==> (s & !1usize) == s - 1,
        (s / 2) % 2 == 0 ==> (s | 2usize) == s + 2,
        (s / 2) % 2 == 1 ==> (s & !2usize) == s - 2,
        (s / 2) % 2 == 1 ==> (s | 2usize) == s,
        s % 2 == 0 ==> (s & !1usize) == s,
{
}

/// Adding `d` to a word, for `d` a multiple of eight, keeps its flags and
/// adds `d / 8` readers.
pub proof fn lemma_add_multiple_of_eight(s: int, d: int)
    requires
        s >= 0,
        s + d >= 0,
        d % 8 == 0,
    ensures
        (s + d) % 2 == s % 2,
        ((s + d) / 2) % 2 == (s / 2) % 2,
        ((s + d) / 4) % 2 == (s / 4) % 2,
        (s + d) / 8 == s / 8 + d / 8,
{
}

/// Whether readers hold the lock.
pub fn is_shared_locked(state: usize) -> (r: bool)
    ensures
        r == shared_locked(state),
{
    proof {
        lemma_rw_bits(state);
    }
    num_shared(state) > 0 && !is_exclusive_locked(state)
}

/// Whether a writer holds the lock.
pub fn is_exclusive_locked(state: usize) -> (r: bool)
    ensures
        r == exclusive(state),
{
    proof {
        lemma_rw_bits(state);
    }
    state & EXCLUSIVE_LOCK == EXCLUSIVE_LOCK
}

/// Whether nobody holds the lock.
pub fn is_unlocked(state: usize) -> (r: bool)
    ensures
        r == unlocked(state),
{
    !is_exclusive_locked(state) && num_shared(state) == 0
}

/// Whether a writer may be queued.
pub fn exclusive_waiting(state: usize) -> (r: bool)
    ensures
        r == writer_waiting(state),
{
    proof {
        lemma_rw_bits(state);
    }
    state & EXCLUSIVE_WAITING == EXCLUSIVE_WAITING
}

/// Whether the hand-over bit is set.
pub fn is_fair(state: usize) -> (r: bool)
    ensures
        r == fair(state),
{
    proof {
        lemma_rw_bits(state);
    }
    state & FAIR == FAIR
}

/// The number of readers counted in the word.
pub fn num_shared(state: usize) -> (r: usize)
    ensures
        r == readers(state),
{
    proof {
        lemma_rw_bits(state);
    }
    state >> 3
}

/// The word with one more reader.
pub open spec fn add_reader(s: usize) -> usize {
    (s + 8) as usize
}

/// The word with one reader less.
pub open spec fn remove_reader(s: usize) -> usize {
    (s - 8) as usize
}

/// The word with the writer's bit set.
pub open spec fn set_exclusive(s: usize) -> usize {
    if exclusive(s) { s } else { (s + 1) as usize }
}

/// The word with the writer's bit cleared.
pub open spec fn clear_exclusive(s: usize) -> usize {
    if exclusive(s) { (s - 1) as usize } else { s }
}

/// The word with the writer-waiting bit set.
pub open spec fn set_writer_waiting(s: usize) -> usize {
    if writer_waiting(s) { s } else { (s + 2) as usize }
}

/// The word with the writer-waiting bit cleared.
pub open spec fn clear_writer_waiting(s: usize) -> usize {
    if writer_waiting(s) { (s - 2) as usize } else { s }
}

/// What a `try_lock_shared` writes over the word `s`: one more reader, or
/// nothing when a writer holds the lock.
pub open spec fn shared_target(s: usize) -> Option<usize> {
    if exclusive(s) {
        None
    } else {
        Some(add_reader(s))
    }
}

/// The value to exchange the word `state` for in order to join the readers,
/// or `None` when a writer holds the lock and the attempt gives up.
pub fn try_lock_shared_target(state: usize) -> (r: Option<usize>)
    requires
        state + ONE_READER <= usize::MAX,
    ensures
        r == shared_target(state),
        r is None <==> exclusive(state),
        r is Some ==> shared_locked(r.unwrap()) && readers(r.unwrap()) == readers(state) + 1
            && writer_waiting(r.unwrap()) == writer_waiting(state),
{
    proof {
        lemma_add_multiple_of_eight(state as int, 8);
    }
    if is_exclusive_locked(state) {
        None
    } else {
        Some(state + ONE_READER)
    }
}

/// What a `try_lock_exclusive` writes over the word `s`: the writer's bit,
/// or nothing unless the lock is free.
pub open spec fn exclusive_target(s: usize) -> Option<usize> {
    if unlocked(s) {
        Some(set_exclusive(s))
    } else {
        None
    }
}

/// The value to exchange the word `state` for in order to take the lock
/// for writing, or `None` when it is held and the attempt gives up.
pub fn try_lock_exclusive_target(state: usize) -> (r: Option<usize>)
    ensures
        r == exclusive_target(state),
        r is None <==> !unlocked(state),
        r is Some ==> exclusive(r.unwrap()) && readers(r.unwrap()) == 0 && writer_waiting(
            r.unwrap(),
        ) == writer_waiting(state) && fair(r.unwrap()) == fair(state),
{
    proof {
        lemma_rw_bits(state);
    }
    if is_unlocked(state) {
        proof {
            lemma_add_multiple_of_eight(state as int, 0);
        }
        Some(state | EXCLUSIVE_LOCK)
    } else {
        None
    }
}

/// Whether a reader that registered (and so is counted in `state`) holds
/// the lock now, or has to keep waiting for the writer.
pub fn shared_acquired(state: usize) -> (r: bool)
    ensures
        r == shared_locked(state),
{
    is_shared_locked(state)
}

/// One round of deciding, with the writer queue held, what a writer that
/// failed to take the lock does.
#[derive(Debug, PartialEq, Eq, Structural)]
pub enum ExclusiveStep {
    /// The lock is free: exchange `expected` for `new` and, on success, keep
    /// the lock instead of queueing.
    TakeLock { expected: usize, new: usize },
    /// Exchange `expected` for `new` to set the writer-waiting bit, then look
    /// again at the value the exchange reports.
    MarkWaiting { expected: usize, new: usize },
    /// The lock is held and the bit is set: queue and park.
    Sleep,
}

/// The round that the word `s` calls for.
pub open spec fn exclusive_step(s: usize) -> ExclusiveStep {
    if unlocked(s) {
        ExclusiveStep::TakeLock { expected: s, new: set_exclusive(s) }
    } else if !writer_waiting(s) {
        ExclusiveStep::MarkWaiting { expected: s, new: set_writer_waiting(s) }
    } else {
        ExclusiveStep::Sleep
    }
}

/// A writer that registers takes a free lock, keeping the waiting bit;
/// on a held lock it first marks a writer waiting, keeping the holders; and
/// it queues only once the lock is held and the mark is set.
pub proof fn lemma_exclusive_register(s: usize)
    ensures
        exclusive_step(s) is TakeLock <==> unlocked(s),
        exclusive_step(s) is Sleep <==> !unlocked(s) && writer_waiting(s),
        exclusive_step(s) matches ExclusiveStep::TakeLock { expected, new } ==> expected == s
            && exclusive(new) && readers(new) == 0 && writer_waiting(new) == writer_waiting(s),
        exclusive_step(s) matches ExclusiveStep::MarkWaiting { expected, new } ==> expected == s
            && writer_waiting(new) && exclusive(new) == exclusive(s) && readers(new) == readers(s),
{
    if unlocked(s) {
        let t = (s + 1) as usize;
        assert(t % 2 == 1 && t / 8 == s / 8 && (t / 2) % 2 == (s / 2) % 2) by (nonlinear_arith)
            requires
                s % 2 == 0,
                t == s + 1,
        ;
    }
    if !writer_waiting(s) {
        let t = (s + 2) as usize;
        assert(t % 2 == s % 2 && t / 8 == s / 8 && (t / 2) % 2 == 1) by (nonlinear_arith)
            requires
                (s / 2) % 2 == 0,
                t == s + 2,
        ;
    }
}

/// A reader that leaves wakes a queued writer exactly when the lock was
/// found held by it alone, or by a writer, and a writer is marked waiting.
pub proof fn lemma_reader_leaves(prev: usize)
    requires
        readers(prev) > 0,
    ensures
        unlock_shared_wakes(prev) <==> (readers(prev) == 1 || exclusive(prev)) && writer_waiting(prev),
{
    lemma_add_multiple_of_eight(prev as int, -8);
}

/// Decides the next round of the writer's registration from the word just
/// read.
pub fn exclusive_register_step(state: usize) -> (r: ExclusiveStep)
    ensures
        r == exclusive_step(state),
        r is TakeLock <==> unlocked(state),
        r is Sleep <==> !unlocked(state) && writer_waiting(state),
        r matches ExclusiveStep::TakeLock { expected, new } ==> expected == state && exclusive(new)
            && readers(new) == 0 && writer_waiting(new) == writer_waiting(state),
        r matches ExclusiveStep::MarkWaiting { expected, new } ==> expected == state
            && writer_waiting(new) && exclusive(new) == exclusive(state) && readers(new)
            == readers(state),
{
    proof {
        lemma_rw_bits(state);
        lemma_exclusive_register(state);
    }
    if is_unlocked(state) {
        ExclusiveStep::TakeLock { expected: state, new: state | EXCLUSIVE_LOCK }
    } else if !exclusive_waiting(state) {
        ExclusiveStep::MarkWaiting { expected: state, new: state | EXCLUSIVE_WAITING }
    } else {
        ExclusiveStep::Sleep
    }
}

/// Whether a reader that leaves, having found `prev` before it took itself
/// off the count, has to wake a queued writer: it does when it was the last
/// reader holding the lock and a writer is marked waiting.
pub open spec fn unlock_shared_wakes(prev: usize) -> bool {
    !shared_locked(remove_reader(prev)) && writer_waiting(remove_reader(prev))
}

/// Decides whether `unlock_shared` wakes a writer.
pub fn unlock_shared_wakes_writer(prev: usize) -> (r: bool)
    requires
        readers(prev) > 0,
    ensures
        r == unlock_shared_wakes(prev),
        r <==> (readers(prev) == 1 || exclusive(prev)) && writer_waiting(prev),
{
    proof {
        lemma_add_multiple_of_eight(prev as int, -8);
        lemma_reader_leaves(prev);
    }
    let state = prev - ONE_READER;
    if is_shared_locked(state) {
        return false;
    }
    exclusive_waiting(state)
}

/// Whether waking a writer also clears the writer-waiting bit: it does when
/// the queue was found empty or the woken writer was the last.
pub fn wake_writer_clears_wait(popped: bool, num_left: usize) -> (r: bool)
    ensures
        r == (!popped || num_left == 0),
{
    !popped || num_left == 0
}

/// Whom a writer wakes when it lets go.
#[derive(Debug, PartialEq, Eq, Structural)]
pub enum ExclusiveRelease {
    /// Readers registered while the writer held the lock: wake them all.
    WakeReaders,
    /// No reader waits and a writer is queued: wake one writer.
    WakeWriter,
    /// Nobody to wake.
    Nothing,
}

/// The choice for a writer that found `prev` when it cleared its bit.
pub open spec fn exclusive_release(prev: usize) -> ExclusiveRelease {
    let s = clear_exclusive(prev);
    if shared_locked(s) {
        ExclusiveRelease::WakeReaders
    } else if writer_waiting(s) {
        ExclusiveRelease::WakeWriter
    } else {
        ExclusiveRelease::Nothing
    }
}

/// A writer that lets go wakes the readers as soon as any are counted,
/// whatever the writer-waiting bit says; with no reader counted it wakes one
/// queued writer when the writer-waiting bit is set, and nobody otherwise.
pub proof fn lemma_writer_release(prev: usize)
    ensures
        readers(prev) > 0 ==> exclusive_release(prev) == ExclusiveRelease::WakeReaders,
        readers(prev) == 0 && writer_waiting(prev) ==> exclusive_release(prev)
            == ExclusiveRelease::WakeWriter,
        readers(prev) == 0 && !writer_waiting(prev) ==> exclusive_release(prev)
            == ExclusiveRelease::Nothing,
{
    if exclusive(prev) {
        let s = (prev - 1) as usize;
        assert(s / 8 == prev / 8 && (s / 2) % 2 == (prev / 2) % 2 && s % 2 == 0) by (nonlinear_arith)
            requires
                prev % 2 == 1,
                s == prev - 1,
        ;
    }
}

/// Decides whom `unlock_exclusive` wakes.
pub fn unlock_exclusive_action(prev: usize) -> (r: ExclusiveRelease)
    ensures
        r == exclusive_release(prev),
        readers(prev) > 0 ==> r == ExclusiveRelease::WakeReaders,
        readers(prev) == 0 && writer_waiting(prev) ==> r == ExclusiveRelease::WakeWriter,
        readers(prev) == 0 && !writer_waiting(prev) ==> r == ExclusiveRelease::Nothing,
{
    proof {
        lemma_writer_release(prev);
        lemma_rw_bits(prev);
        if exclusive(prev) {
            lemma_add_multiple_of_eight((prev - 1) as int, 0);
        }
    }
    let state = prev & !EXCLUSIVE_LOCK;
    if is_shared_locked(state) {
        ExclusiveRelease::WakeReaders
    } else if exclusive_waiting(state) {
        ExclusiveRelease::WakeWriter
    } else {
        ExclusiveRelease::Nothing
    }
}

/// Whether a writer that bumps gives the lock up for a while: only when
/// readers are registered.
pub fn bump_exclusive_yields(state: usize) -> (r: bool)
    ensures
        r == (readers(state) > 0),
{
    num_shared(state) != 0
}

/// While writers are queued the writer-waiting bit is set.
pub open spec fn writer_queue_inv(s: usize, queued: nat) -> bool {
    queued > 0 ==> writer_waiting(s)
}

/// Every step of the protocol keeps the writer-waiting bit set while some
/// writer is queued: a reader joining or leaving, a writer taking the lock
/// or marking itself waiting, queueing a writer, a writer letting go, and
/// waking a writer (which clears the bit when none is left).
pub proof fn lemma_steps_keep_writer_flag(s: usize, queued: nat)
    requires
        writer_queue_inv(s, queued),
    ensures
        s + 8 <= usize::MAX ==> writer_queue_inv(add_reader(s), queued),
        readers(s) > 0 ==> writer_queue_inv(remove_reader(s), queued),
        exclusive_target(s) is Some ==> writer_queue_inv(exclusive_target(s).unwrap(), queued),
        exclusive_step(s) matches ExclusiveStep::TakeLock { expected, new } ==> expected == s
            && writer_queue_inv(new, queued),
        exclusive_step(s) matches ExclusiveStep::MarkWaiting { expected, new } ==> expected == s
            && writer_queue_inv(new, queued) && writer_waiting(new),
        exclusive_step(s) is Sleep ==> writer_queue_inv(s, queued + 1),
        writer_queue_inv(clear_exclusive(s), queued),
        queued > 0 ==> writer_queue_inv(
            if queued - 1 == 0 {
                clear_writer_waiting(s)
            } else {
                s
            },
            (queued - 1) as nat,
        ),
        queued == 0 ==> writer_queue_inv(clear_writer_waiting(s), 0),
{
    lemma_add_multiple_of_eight(s as int, 0);
    if s + 8 <= usize::MAX {
        lemma_add_multiple_of_eight(s as int, 8);
    }
    if readers(s) > 0 {
        lemma_add_multiple_of_eight(s as int, -8);
    }
}

/// A reader that joins and then leaves gives back the word it started
/// from, and the flags never change on the way.
pub proof fn lemma_reader_round_trip(s: usize)
    requires
        s + 8 <= usize::MAX,
    ensures
        readers(add_reader(s)) == readers(s) + 1,
        exclusive(add_reader(s)) == exclusive(s),
        writer_waiting(add_reader(s)) == writer_waiting(s),
        fair(add_reader(s)) == fair(s),
        remove_reader(add_reader(s)) == s,
{
    lemma_add_multiple_of_eight(s as int, 8);
}

/// A writer that takes a free lock and lets it go gives back the word it
/// started from; while it holds the lock, no reader holds it.
pub proof fn lemma_writer_round_trip(s: usize)
    requires
        unlocked(s),
    ensures
        exclusive_target(s) is Some,
        exclusive(exclusive_target(s).unwrap()),
        !shared_locked(exclusive_target(s).unwrap()),
        clear_exclusive(exclusive_target(s).unwrap()) == s,
        exclusive_release(exclusive_target(s).unwrap()) != ExclusiveRelease::WakeReaders,
{
    lemma_add_multiple_of_eight(s as int, 0);
    lemma_add_multiple_of_eight(s as int, 1 - 1);
    assert(((s + 1) as usize) / 8 == s / 8);
}

/// Every exchange of the protocol respects the lock: a writer takes only a
/// word with no reader and no writer, a reader joins only a word without a
/// writer, marking a writer as waiting keeps who holds the lock, and a
/// leaving writer clears only its own bit.
pub proof fn lemma_exchanges_respect_ownership(s: usize)
    ensures
        exclusive_target(s) is Some ==> unlocked(s) && exclusive(exclusive_target(s).unwrap())
            && readers(exclusive_target(s).unwrap()) == 0,
        shared_target(s) is Some && s + 8 <= usize::MAX ==> !exclusive(s) && shared_locked(
            shared_target(s).unwrap(),
        ),
        exclusive_step(s) matches ExclusiveStep::TakeLock { expected, new } ==> unlocked(expected)
            && exclusive(new),
        exclusive_step(s) matches ExclusiveStep::MarkWaiting { expected, new } ==> exclusive(new)
            == exclusive(expected) && readers(new) == readers(expected),
        !exclusive(clear_exclusive(s)) && readers(clear_exclusive(s)) == readers(s)
            && writer_waiting(clear_exclusive(s)) == writer_waiting(s),
{
    lemma_add_multiple_of_eight(s as int, 0);
    if s + 8 <= usize::MAX {
        lemma_add_multiple_of_eight(s as int, 8);
    }
    if exclusive(s) {
        lemma_add_multiple_of_eight((s - 1) as int, 0);
    }
}

} // verus!
