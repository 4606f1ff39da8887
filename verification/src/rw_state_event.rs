//! The state word of the event based reader-writer lock: bit 0 says that
//! readers hold the lock, bit 1 that a writer holds it, bit 2 that readers
//! wait, bit 3 that a writer waits, and the bits from 4 up count the readers.
use vstd::prelude::*;

verus! {

pub const SHARED_LOCK: usize = 1;

pub const EXCLUSIVE_LOCK: usize = 2;

pub const LOCKED: usize = 3;

pub const SHARED_WAITING: usize = 4;

pub const EXCLUSIVE_WAITING: usize = 8;

pub const ONE_READER: usize = 16;

/// The word's bit operations in terms of its arithmetic.
pub proof fn lemma_event_rw_bits(s: usize)
    by (bit_vector)
    ensures
        (s & 10usize == 0usize) == ((s / 2) % 2 == 0 && (s / 8) % 2 == 0),
        (s & 3usize == 0usize) == (s % 4 == 0),
        s % 2 == 0 ==> (s | 1usize) == s + 1,
        s % 2 == 1 ==> (s | 1usize) == s,
        (s / 4) % 2 == 0 ==> (s | 4usize) == s + 4,
        (s / 4) % 2 == 1 ==> (s | 4usize) == s,
        (s / 2) % 2 == 0 ==> (s | 2usize) == s + 2,
        (2usize | 8usize) == 10usize,
        (1usize | 2usize) == 3usize,
{
}

/// Readers hold the lock.
pub open spec fn shared(s: usize) -> bool {
    s % 2 == 1
}

/// A writer holds the lock.
pub open spec fn exclusive(s: usize) -> bool {
    (s / 2) % 2 == 1
}

/// Readers wait.
pub open spec fn readers_waiting(s: usize) -> bool {
    (s / 4) % 2 == 1
}

/// A writer waits.
pub open spec fn writer_waiting(s: usize) -> bool {
    (s / 8) % 2 == 1
}

/// The number of readers counted in the word.
pub open spec fn readers(s: usize) -> nat {
    (s / 16) as nat
}

/// The word with one more reader and the shared bit set.
pub open spec fn join_readers(s: usize) -> usize {
    let t = s + 16;
    if t % 2 == 0 { (t + 1) as usize } else { t as usize }
}

/// What one shared attempt writes over `s`: one more reader with the shared
/// bit set, or nothing when a writer holds the lock or waits for it.
pub open spec fn shared_once_target(s: usize) -> Option<usize> {
    if exclusive(s) || writer_waiting(s) {
        None
    } else {
        Some(join_readers(s))
    }
}

/// The value to exchange `state` for in `lock_shared_once`, or `None` when
/// the attempt gives up.
pub fn lock_shared_once_target(state: usize) -> (r: Option<usize>)
    requires
        state + ONE_READER + SHARED_LOCK <= usize::MAX,
    ensures
        r == shared_once_target(state),
        r is None <==> (exclusive(state) || writer_waiting(state)),
        r is Some ==> shared(r.unwrap()) && readers(r.unwrap()) == readers(state) + 1
            && !exclusive(r.unwrap()) && !writer_waiting(r.unwrap()),
{
    proof {
        lemma_event_rw_bits(state);
        lemma_event_rw_bits((state + 16) as usize);
    }
    if state & (EXCLUSIVE_LOCK | EXCLUSIVE_WAITING) == 0 {
        Some((state + ONE_READER) | SHARED_LOCK)
    } else {
        None
    }
}

/// One round of a reader that registers to wait, or takes the lock if it
/// can: the value to exchange for, and whether it then waits.
pub open spec fn register_shared(s: usize) -> (usize, bool) {
    if s == 0 {
        (17, false)
    } else if !exclusive(s) && !writer_waiting(s) {
        ((s + 16) as usize, false)
    } else {
        let t = s + 16;
        (if readers_waiting(t as usize) { t as usize } else { (t + 4) as usize }, true)
    }
}

/// A reader that registers always counts itself, and keeps what the word
/// says of writers; if it is to wait, the word it writes marks readers
/// waiting, so that the writer that lets go knows to wake them; if it is
/// not to wait, it holds the lock with the readers, and leaves the
/// readers-waiting bit as it was, but for the free word, which it takes.
pub proof fn lemma_register_shared(s: usize)
    requires
        s + 20 <= usize::MAX,
    ensures
        readers(register_shared(s).0) == readers(s) + 1,
        exclusive(register_shared(s).0) == exclusive(s),
        writer_waiting(register_shared(s).0) == writer_waiting(s),
        register_shared(s).1 <==> (exclusive(s) || writer_waiting(s)),
        register_shared(s).1 ==> readers_waiting(register_shared(s).0),
        !register_shared(s).1 && s != 0 ==> readers_waiting(register_shared(s).0)
            == readers_waiting(s) && shared(register_shared(s).0) == shared(s),
        s == 0 ==> shared(register_shared(s).0) && !readers_waiting(register_shared(s).0),
{
    let t = (s + 16) as usize;
    assert(t / 16 == s / 16 + 1 && t % 2 == s % 2 && (t / 2) % 2 == (s / 2) % 2 && (t / 4) % 2 == (
    s / 4) % 2 && (t / 8) % 2 == (s / 8) % 2) by (nonlinear_arith)
        requires
            t == s + 16,
    ;
    let u = (t + 4) as usize;
    assert((t / 4) % 2 == 0 ==> u / 16 == t / 16 && u % 2 == t % 2 && (u / 2) % 2 == (t / 2) % 2 && (
    u / 4) % 2 == 1 && (u / 8) % 2 == (t / 8) % 2) by (nonlinear_arith)
        requires
            u == t + 4,
    ;
}

/// Decides one round of `conditional_register_shared` from the word just
/// read: the value to exchange it for and whether the reader waits once the
/// exchange succeeds.
pub fn register_shared_step(state: usize) -> (r: (usize, bool))
    requires
        state + ONE_READER + SHARED_WAITING <= usize::MAX,
    ensures
        r == register_shared(state),
        r.1 == (exclusive(state) || writer_waiting(state)),
        readers(r.0) == readers(state) + 1,
        r.1 ==> readers_waiting(r.0),
        exclusive(r.0) == exclusive(state),
        writer_waiting(r.0) == writer_waiting(state),
        !r.1 && state != 0 ==> readers_waiting(r.0) == readers_waiting(state) && shared(r.0)
            == shared(state),
        state == 0 ==> shared(r.0) && !readers_waiting(r.0),
{
    proof {
        lemma_register_shared(state);
        lemma_event_rw_bits(state);
        lemma_event_rw_bits((state + 16) as usize);
    }
    if state == 0 {
        (SHARED_LOCK + ONE_READER, false)
    } else if state & (EXCLUSIVE_LOCK | EXCLUSIVE_WAITING) == 0 {
        (state + ONE_READER, false)
    } else {
        ((state + ONE_READER) | SHARED_WAITING, true)
    }
}

/// What a `try_lock_exclusive` writes over `s`: the writer's bit when
/// neither readers nor a writer hold the lock.
pub open spec fn exclusive_target(s: usize) -> Option<usize> {
    if !shared(s) && !exclusive(s) {
        Some((s + 2) as usize)
    } else {
        None
    }
}

/// The value to exchange `state` for to take the lock for writing, or
/// `None` when the attempt gives up.
pub fn try_lock_exclusive_target(state: usize) -> (r: Option<usize>)
    ensures
        r == exclusive_target(state),
        r is None <==> (shared(state) || exclusive(state)),
        r is Some ==> exclusive(r.unwrap()) && !shared(r.unwrap()) && readers(r.unwrap())
            == readers(state) && writer_waiting(r.unwrap()) == writer_waiting(state),
{
    proof {
        lemma_event_rw_bits(state);
    }
    if state & LOCKED == 0 {
        Some(state | EXCLUSIVE_LOCK)
    } else {
        None
    }
}

} // verus!
