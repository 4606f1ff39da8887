//! The states of a parked thread's slot, and the decisions on them.
//!
//! A slot is first `Waiting`: its thread is about to sleep or sleeps. A
//! notifier swaps in `Notifying`, unparks the thread if it found `Waiting`,
//! and then stores `Notified`. The thread sleeps while the slot says
//! `Waiting` and spins while it says `Notifying`, so it never returns before
//! the notifier is done with the slot.
use std::sync::atomic::AtomicBool;
use std::sync::atomic::Ordering;
use vstd::prelude::*;

verus! {

pub const NULL_STATE: u8 = 0;

pub const WAITING_STATE: u8 = 1;

pub const NOTIFYING_STATE: u8 = 2;

pub const NOTIFIED_STATE: u8 = 3;

/// The state of a slot.
#[derive(Debug, Copy, Clone, PartialEq, Eq, Structural)]
pub enum State {
    Waiting,
    Notifying,
    Notified,
}

/// The byte that stands for a state.
pub open spec fn byte_of(s: State) -> u8 {
    match s {
        State::Waiting => 1u8,
        State::Notifying => 2u8,
        State::Notified => 3u8,
    }
}

/// The byte that stands for a state.
pub fn state_byte(s: State) -> (r: u8)
    ensures
        r == byte_of(s),
{
    match s {
        State::Waiting => WAITING_STATE,
        State::Notifying => NOTIFYING_STATE,
        State::Notified => NOTIFIED_STATE,
    }
}

/// The state that a byte stands for; only the bytes
/// `1` to `3` stand for a state.
pub fn get_state(byte: u8) -> (r: State)
    requires
        1 <= byte <= 3,
    ensures
        byte_of(r) == byte,
{
    if byte == WAITING_STATE {
        State::Waiting
    } else if byte == NOTIFYING_STATE {
        State::Notifying
    } else {
        State::Notified
    }
}

/// Bytes and states stand one for one.
pub proof fn lemma_state_round_trip(s: State, t: State)
    ensures
        byte_of(s) == byte_of(t) <==> s == t,
        1 <= byte_of(s) <= 3,
{
}

/// Whether a notifier that swapped in `Notifying` and found `old` woke a
/// sleeping thread.
pub fn did_unpark(old: u8) -> (r: bool)
    ensures
        r == (old == 1),
{
    old == WAITING_STATE
}

/// Whether the thread, finding `byte` in its slot, keeps sleeping.
pub fn keeps_parking(byte: u8) -> (r: bool)
    ensures
        r == (byte == 1),
{
    byte == WAITING_STATE
}

/// Whether the thread, finding `byte` in its slot after it woke, waits for
/// the notifier to finish.
pub fn keeps_spinning(byte: u8) -> (r: bool)
    ensures
        r == (byte == 2),
{
    byte == NOTIFYING_STATE
}

/// Whether the slot's thread is going to park: the slot was prepared and no
/// notification finished.
pub fn will_park(byte: u8) -> (r: bool)
    ensures
        r == (byte != 3 && byte != 0),
{
    byte != NOTIFIED_STATE && byte != NULL_STATE
}

/// A notifier's swap and store take a `Waiting` slot to `Notified` through
/// `Notifying`, so a thread that loops while `keeps_parking` and then while
/// `keeps_spinning` stops only at `Notified`.
pub proof fn lemma_wake_sequence()
    ensures
        byte_of(State::Waiting) == 1 && byte_of(State::Notifying) == 2 && byte_of(
            State::Notified,
        ) == 3,
        !(byte_of(State::Notified) == 1) && !(byte_of(State::Notified) == 2),
        forall|s: State| #[trigger] byte_of(s) != 1 && byte_of(s) != 2 ==> s == State::Notified,
{
}

/// The slot of a thread that sleeps until another thread clears it.
#[derive(Debug)]
pub struct ThreadParker {
    parked: AtomicBool,
}

impl ThreadParker {
    /// A slot that is not set.
    pub fn const_new() -> (r: Self) {
        ThreadParker { parked: AtomicBool::new(false) }
    }

    /// Sets the slot before the thread goes to sleep.
    pub fn prepare_park(&self) {
        self.parked.store(true, Ordering::Relaxed);
    }

    /// Whether the slot is still set, that is, nobody woke the thread.
    pub fn timed_out(&self) -> (r: bool) {
        self.parked.load(Ordering::Relaxed) != false
    }

    /// Whether the slot is still set, read with acquire ordering, as the
    /// sleeping loop reads it.
    pub fn is_parked(&self) -> (r: bool) {
        self.parked.load(Ordering::Acquire) != false
    }

    /// Clears the slot, which wakes the thread.
    pub fn unpark(&self) {
        self.parked.store(false, Ordering::Release);
    }
}

} // verus!
