//! The state byte of the queue based mutex and the decisions taken on it.
//!
//! Bit 0 says that the mutex is held, bit 1 that a thread may be waiting on
//! the queue, bit 2 that the last holder handed the mutex straight to the
//! thread it woke. Every function here takes a state that was read from the
//! mutex and says what to do next; the caller performs that on the atomic byte.
use vstd::prelude::*;

verus! {

pub const UNLOCKED: u8 = 0;

pub const LOCKED_BIT: u8 = 1;

pub const WAIT_BIT: u8 = 2;

pub const FAIR_BIT: u8 = 4;

/// The mutex is held.
pub open spec fn locked(s: u8) -> bool {
    s & 1u8 == 1u8
}

/// A thread may be waiting on the queue.
pub open spec fn waiting(s: u8) -> bool {
    s & 2u8 == 2u8
}

/// The mutex was handed to a woken thread.
pub open spec fn fair(s: u8) -> bool {
    s & 4u8 == 4u8
}

/// The bits of the bytes `1` (held) and `3` (held and waiting).
proof fn lemma_mutex_constants()
    by (bit_vector)
    ensures
        1u8 & 1u8 == 1u8,
        1u8 & 2u8 == 0u8,
        1u8 & 4u8 == 0u8,
        3u8 & 1u8 == 1u8,
        3u8 & 2u8 == 2u8,
        3u8 & 4u8 == 0u8,
{
}

/// Setting, clearing and flipping one of the three bits leaves the other two
/// as they were.
pub proof fn lemma_mutex_bits(s: u8)
    by (bit_vector)
    ensures
        (s | 1u8) & 1u8 == 1u8,
        ((s | 1u8) & 2u8 == 2u8) == ((s & 2u8) == 2u8),
        ((s | 1u8) & 4u8 == 4u8) == ((s & 4u8) == 4u8),
        (s & 254u8) & 1u8 == 0u8,
        ((s & 254u8) & 2u8 == 2u8) == ((s & 2u8) == 2u8),
        ((s & 254u8) & 4u8 == 4u8) == ((s & 4u8) == 4u8),
        (s & 253u8) & 2u8 == 0u8,
        ((s & 253u8) & 1u8 == 1u8) == ((s & 1u8) == 1u8),
        ((s & 253u8) & 4u8 == 4u8) == ((s & 4u8) == 4u8),
        (s & 251u8) & 4u8 == 0u8,
        ((s & 251u8) & 1u8 == 1u8) == ((s & 1u8) == 1u8),
        ((s & 251u8) & 2u8 == 2u8) == ((s & 2u8) == 2u8),
        (s | 4u8) & 4u8 == 4u8,
        ((s | 4u8) & 1u8 == 1u8) == ((s & 1u8) == 1u8),
        ((s | 4u8) & 2u8 == 2u8) == ((s & 2u8) == 2u8),
        ((s ^ 6u8) & 1u8 == 1u8) == ((s & 1u8) == 1u8),
        ((s ^ 6u8) & 2u8 == 2u8) == ((s & 2u8) != 2u8),
        ((s ^ 6u8) & 4u8 == 4u8) == ((s & 4u8) != 4u8),
        (s & 1u8 == 0u8) ==> ((s | 1u8) & 254u8) == s,
        (s & 1u8 == 1u8) ==> ((s & 254u8) | 1u8) == s,
        (1u8 | 2u8) == 3u8,
        3u8 & 1u8 == 1u8,
        1u8 & 1u8 == 1u8,
        3u8 & 2u8 == 2u8,
        0u8 | 1u8 == 1u8,
        !1u8 == 254u8,
        !2u8 == 253u8,
        !4u8 == 251u8,
        2u8 | 4u8 == 6u8,
        s & 1u8 == 0u8 || s & 1u8 == 1u8,
        s & 2u8 == 0u8 || s & 2u8 == 2u8,
        s & 4u8 == 0u8 || s & 4u8 == 4u8,
{
}

/// The byte once the holder let go: the held bit is cleared.
pub open spec fn released(s: u8) -> u8 {
    s & 254u8
}

/// The byte once the waiting bit is cleared.
pub open spec fn wait_cleared(s: u8) -> u8 {
    s & 253u8
}

/// The byte once the hand-over bit is cleared.
pub open spec fn fair_cleared(s: u8) -> u8 {
    s & 251u8
}

/// Whether the byte `state` says that the mutex is held.
pub fn state_is_locked(state: u8) -> (r: bool)
    ensures
        r == locked(state),
{
    proof {
        lemma_mutex_bits(state);
    }
    state & LOCKED_BIT == LOCKED_BIT
}

/// What a locking attempt writes over the byte `s`: the same byte with the
/// held bit set, or nothing when the mutex is already held.
pub open spec fn lock_target(s: u8) -> Option<u8> {
    if locked(s) {
        None
    } else {
        Some(s | 1u8)
    }
}

/// The value to exchange the byte `state` for in order to take the mutex,
/// or `None` when the mutex is held and a `try_lock` gives up.
pub fn try_lock_target(state: u8) -> (r: Option<u8>)
    ensures
        r == lock_target(state),
        r is None <==> locked(state),
        r is Some ==> !locked(state) && locked(r.unwrap()) && waiting(r.unwrap()) == waiting(
            state,
        ) && fair(r.unwrap()) == fair(state),
{
    proof {
        lemma_mutex_bits(state);
    }
    if state & LOCKED_BIT == 0 {
        Some(state | LOCKED_BIT)
    } else {
        None
    }
}

/// One round of deciding, with the queue held, whether a thread that failed
/// to take the mutex goes to sleep.
#[derive(Debug, PartialEq, Eq, Structural)]
pub enum SleepStep {
    /// The byte says held and waiting: push the thread and park it.
    Sleep,
    /// The mutex is free: exchange `expected` for `new` and, on success,
    /// keep the mutex instead of sleeping.
    TakeLock { expected: u8, new: u8 },
    /// The mutex is held with nobody marked waiting: exchange `expected`
    /// for `new` to mark a waiter, then look again.
    MarkWaiting { expected: u8, new: u8 },
}

/// The round that the byte `s` calls for.
pub open spec fn sleep_step(s: u8) -> SleepStep {
    if s == 3u8 {
        SleepStep::Sleep
    } else if !locked(s) {
        SleepStep::TakeLock { expected: s, new: s | 1u8 }
    } else {
        SleepStep::MarkWaiting { expected: 1u8, new: 3u8 }
    }
}

/// Decides the next round of `should_sleep` from the byte just read.
pub fn should_sleep_step(state: u8) -> (r: SleepStep)
    ensures
        r == sleep_step(state),
        r is Sleep <==> state == 3u8,
        r is Sleep ==> locked(state) && waiting(state),
        !locked(state) <==> r is TakeLock,
        r matches SleepStep::TakeLock { expected, new } ==> expected == state && locked(new)
            && waiting(new) == waiting(state) && fair(new) == fair(state),
        r matches SleepStep::MarkWaiting { expected, new } ==> locked(state) && locked(expected)
            && !waiting(expected) && !fair(expected) && locked(new) && waiting(new) && !fair(new),
{
    proof {
        lemma_mutex_constants();
        lemma_mutex_bits(state);
    }
    if state == LOCKED_BIT | WAIT_BIT {
        SleepStep::Sleep
    } else if state & LOCKED_BIT == 0 {
        SleepStep::TakeLock { expected: state, new: state | LOCKED_BIT }
    } else {
        SleepStep::MarkWaiting { expected: LOCKED_BIT, new: LOCKED_BIT | WAIT_BIT }
    }
}

/// Whether an unlock that found the byte `prev` (before clearing the held
/// bit) has to wake a queued thread.
pub fn unlock_must_wake(prev: u8) -> (r: bool)
    ensures
        r == waiting(prev),
{
    proof {
        lemma_mutex_bits(prev);
    }
    prev & WAIT_BIT == WAIT_BIT
}

/// Whether the thread that woke a waiter also clears the waiting bit: it does
/// when the waiter was the last one on the queue.
pub fn clears_wait_after_wake(num_waiting: usize) -> (r: bool)
    ensures
        r == (num_waiting == 0),
{
    num_waiting == 0
}

/// How a fair unlock changes the byte.
#[derive(Debug, PartialEq, Eq, Structural)]
pub enum FairRelease {
    /// The last waiter was woken: flip the waiting and the hand-over bits.
    HandOffLast,
    /// A waiter was woken and others remain: set the hand-over bit.
    HandOff,
    /// Nobody was waiting: clear the held bit.
    Release,
}

/// What a fair unlock does, given whether it popped a waiter and how many
/// remain.
pub open spec fn fair_release(popped: bool, num_waiting: nat) -> FairRelease {
    if !popped {
        FairRelease::Release
    } else if num_waiting == 0 {
        FairRelease::HandOffLast
    } else {
        FairRelease::HandOff
    }
}

/// The byte after a fair unlock's change.
pub open spec fn apply_fair_release(s: u8, a: FairRelease) -> u8 {
    match a {
        FairRelease::HandOffLast => s ^ 6u8,
        FairRelease::HandOff => s | 4u8,
        FairRelease::Release => s & 254u8,
    }
}

/// Decides the change of a fair unlock.
pub fn unlock_fair_action(popped: bool, num_waiting: usize) -> (r: FairRelease)
    ensures
        r == fair_release(popped, num_waiting as nat),
        r is Release <==> !popped,
        r is HandOffLast <==> popped && num_waiting == 0,
        r is HandOff <==> popped && num_waiting > 0,
{
    if !popped {
        FairRelease::Release
    } else if num_waiting == 0 {
        FairRelease::HandOffLast
    } else {
        FairRelease::HandOff
    }
}

/// Whether a woken thread finds the mutex handed to it.
pub fn was_handed_over(state: u8) -> (r: bool)
    ensures
        r == fair(state),
{
    proof {
        lemma_mutex_bits(state);
    }
    state & FAIR_BIT != 0
}

/// Whether a holder that bumps lets the queue run: only when the byte says
/// held and waiting and nothing else.
pub fn should_bump(state: u8) -> (r: bool)
    ensures
        r == (state == 3u8),
{
    proof {
        lemma_mutex_bits(state);
    }
    state == LOCKED_BIT | WAIT_BIT
}

/// While threads are queued the waiting bit is set.
pub open spec fn queue_flag_inv(s: u8, queued: nat) -> bool {
    queued > 0 ==> waiting(s)
}

/// Every step of the protocol keeps the waiting bit set while some thread is
/// queued: a successful lock exchange, taking the lock or marking a waiter
/// in `should_sleep`, queueing a sleeper, releasing, popping a waiter (which
/// clears the bit when it was the last), each branch of a fair unlock, and
/// clearing the hand-over bit.
pub proof fn lemma_steps_keep_queue_flag(s: u8, queued: nat)
    requires
        queue_flag_inv(s, queued),
    ensures
        lock_target(s) is Some ==> queue_flag_inv(lock_target(s).unwrap(), queued),
        sleep_step(s) matches SleepStep::TakeLock { expected, new } ==> expected == s
            && queue_flag_inv(new, queued),
        sleep_step(s) matches SleepStep::MarkWaiting { expected, new } ==> s == expected
            ==> queue_flag_inv(new, queued),
        sleep_step(s) is Sleep ==> queue_flag_inv(s, queued + 1),
        queue_flag_inv(released(s), queued),
        queued > 0 ==> queue_flag_inv(
            if queued - 1 == 0 {
                wait_cleared(s)
            } else {
                s
            },
            (queued - 1) as nat,
        ),
        queued > 0 ==> queue_flag_inv(
            apply_fair_release(s, fair_release(true, (queued - 1) as nat)),
            (queued - 1) as nat,
        ),
        queued == 0 ==> queue_flag_inv(apply_fair_release(s, fair_release(false, 0)), 0),
        queue_flag_inv(fair_cleared(s), queued),
{
    lemma_mutex_bits(s);
}

/// A fair unlock never lets go of the mutex while it hands it to a woken
/// thread, and the woken thread finds the hand-over bit set.
pub proof fn lemma_fair_hand_off_keeps_lock(s: u8, num_waiting: nat)
    requires
        locked(s),
        !fair(s),
    ensures
        locked(apply_fair_release(s, fair_release(true, num_waiting))),
        fair(apply_fair_release(s, fair_release(true, num_waiting))),
        !locked(apply_fair_release(s, fair_release(false, num_waiting))),
{
    lemma_mutex_bits(s);
}

/// A fair unlock lets go of the mutex exactly when it woke nobody; having
/// woken the last waiter it clears the waiting bit, and having woken one of
/// several it keeps it.
pub proof fn lemma_fair_release_choice(s: u8, popped: bool, num_waiting: nat)
    requires
        locked(s),
        waiting(s),
        !fair(s),
    ensures
        locked(apply_fair_release(s, fair_release(popped, num_waiting))) == popped,
        popped && num_waiting == 0 ==> !waiting(apply_fair_release(s, fair_release(popped, num_waiting))),
        popped && num_waiting > 0 ==> waiting(apply_fair_release(s, fair_release(popped, num_waiting))),
        popped ==> fair(apply_fair_release(s, fair_release(popped, num_waiting))),
{
    lemma_mutex_bits(s);
}

/// A thread that fails to take the mutex goes to sleep only on a byte that
/// says held and waiting; on a free byte it takes the mutex, keeping the
/// other bits; on a held byte without the waiting mark it marks it.
pub proof fn lemma_sleep_step_choice(s: u8)
    ensures
        sleep_step(s) is Sleep ==> locked(s) && waiting(s),
        !locked(s) ==> (sleep_step(s) matches SleepStep::TakeLock { expected, new } && expected
            == s && locked(new) && waiting(new) == waiting(s)),
        locked(s) && !waiting(s) ==> (sleep_step(s) matches SleepStep::MarkWaiting { expected, new }
            && waiting(new) && locked(new)),
{
    lemma_mutex_bits(s);
}

/// Locking a free mutex and then unlocking it gives back the byte it started
/// from.
pub proof fn lemma_lock_then_unlock(s: u8)
    requires
        !locked(s),
    ensures
        lock_target(s) is Some,
        released(lock_target(s).unwrap()) == s,
{
    lemma_mutex_bits(s);
}

/// The event based mutex marks itself waiting by exchanging the byte in a
/// loop: first `1` for `3`; when an exchange fails it looks at what it found.
/// A free mutex (`0`) is then taken (`1`), a byte already held and waiting
/// (`3`) means go to sleep, anything else is exchanged for `3`.
pub open spec fn event_sleep_retarget(observed: u8) -> Option<u8> {
    if observed == 0u8 {
        Some(1u8)
    } else if observed == 3u8 {
        None
    } else {
        Some(3u8)
    }
}

/// The next value to exchange for, after an exchange found `observed`, or
/// `None` when the thread is to sleep straight away.
pub fn event_should_sleep_retarget(observed: u8) -> (r: Option<u8>)
    ensures
        r == event_sleep_retarget(observed),
        r is None <==> (locked(observed) && waiting(observed) && observed == 3u8),
        !locked(observed) && observed == 0u8 ==> r == Some(1u8),
        r is Some && observed != 0u8 ==> locked(r.unwrap()) && waiting(r.unwrap()),
        r is Some ==> locked(r.unwrap()) && !fair(r.unwrap()),
{
    proof {
        lemma_mutex_constants();
        lemma_mutex_bits(observed);
    }
    if observed == 0 {
        Some(LOCKED_BIT)
    } else if observed == LOCKED_BIT | WAIT_BIT {
        None
    } else {
        Some(LOCKED_BIT | WAIT_BIT)
    }
}

/// Whether the thread sleeps once an exchange succeeded over the byte
/// `expected`: only if the mutex was held then, since otherwise the exchange
/// took it.
pub fn event_sleeps_after_exchange(expected: u8) -> (r: bool)
    ensures
        r == locked(expected),
{
    proof {
        lemma_mutex_bits(expected);
    }
    expected & LOCKED_BIT != 0
}

/// First test of the event based mutex before it wakes a waiter: with one
/// waiter left and the mutex free, wake it without touching the byte.
pub fn notify_without_marking(num_waiters_left: usize, state: u8) -> (r: bool)
    ensures
        r == (num_waiters_left == 1 && !locked(state)),
{
    proof {
        lemma_mutex_bits(state);
    }
    num_waiters_left == 1 && state & LOCKED_BIT == 0
}

/// Second test: the waiting bit was set, and the byte found before that
/// says whether the mutex was free, in which case the waiter is woken.
pub fn notify_after_marking(prev: u8) -> (r: bool)
    ensures
        r == !locked(prev),
{
    proof {
        lemma_mutex_bits(prev);
    }
    prev & LOCKED_BIT == 0
}

/// Every exchange that the protocol makes either takes a free mutex (the
/// byte it expects is not held and the byte it writes is), or keeps the held
/// bit as it found it; so only one thread at a time gets the mutex by an
/// exchange.
pub proof fn lemma_exchanges_respect_ownership(s: u8)
    ensures
        lock_target(s) is Some ==> !locked(s) && locked(lock_target(s).unwrap()),
        sleep_step(s) matches SleepStep::TakeLock { expected, new } ==> !locked(expected)
            && locked(new),
        sleep_step(s) matches SleepStep::MarkWaiting { expected, new } ==> locked(expected)
            && locked(new) && waiting(new),
        locked(s) ==> !locked(released(s)),
        locked(wait_cleared(s)) == locked(s),
        locked(fair_cleared(s)) == locked(s),
{
    lemma_mutex_bits(s);
}

} // verus!
