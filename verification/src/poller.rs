//! The states of a future that waits on an event.
//!
//! A fresh future has not queued itself. A poll queues it if the caller's
//! condition says so and then reports pending; once queued, a later poll asks
//! whether the wait is over and, if so, takes the node off the list and
//! completes. A completed future stays complete. A future dropped while
//! queued takes its node off the list; if a notifier took it off first, the
//! notification it received is passed on to another waiter.
use vstd::prelude::*;

verus! {

/// Where a waiting future stands.
#[derive(Debug, Copy, Clone, PartialEq, Eq, Structural)]
pub enum PollerState {
    Initialised,
    Pushed,
    Complete,
}

/// What the start of a poll does.
#[derive(Debug, Copy, Clone, PartialEq, Eq, Structural)]
pub enum PollEntry {
    /// Go on to (re)queue the future.
    Proceed,
    /// The wait is over: take the node off the list and report ready.
    RevokeAndFinish,
    /// The future was already complete: report ready.
    Finish,
}

/// The start of a poll in state `state`, where `should_wake` is the answer
/// of the caller's wake condition (asked only of a queued future).
pub open spec fn poll_entry_spec(state: PollerState, should_wake: bool) -> (PollerState, PollEntry) {
    match state {
        PollerState::Initialised => (state, PollEntry::Proceed),
        PollerState::Pushed => if should_wake {
            (PollerState::Complete, PollEntry::RevokeAndFinish)
        } else {
            (state, PollEntry::Proceed)
        },
        PollerState::Complete => (state, PollEntry::Finish),
    }
}

/// Whether the start of a poll in `state` asks the wake condition.
pub fn asks_should_wake(state: PollerState) -> (r: bool)
    ensures
        r == (state == PollerState::Pushed),
{
    match state {
        PollerState::Pushed => true,
        _ => false,
    }
}

/// A fresh future always goes on to queue itself, whatever the wake
/// condition would say; a poll finishes only for a queued future whose wake
/// condition agrees, or for a future already complete; the wake condition
/// matters only to a queued future; and a poll that goes on leaves the state
/// as it was.
pub proof fn lemma_poll_entry(state: PollerState, should_wake: bool)
    ensures
        poll_entry_spec(PollerState::Initialised, should_wake) == (
            PollerState::Initialised,
            PollEntry::Proceed,
        ),
        poll_entry_spec(state, should_wake).1 != PollEntry::Proceed <==> (state
            == PollerState::Complete || (state == PollerState::Pushed && should_wake)),
        poll_entry_spec(state, should_wake).1 == PollEntry::Proceed ==> poll_entry_spec(
            state,
            should_wake,
        ).0 == state,
        poll_entry_spec(state, should_wake).1 != PollEntry::Proceed ==> poll_entry_spec(
            state,
            should_wake,
        ).0 == PollerState::Complete,
        state != PollerState::Pushed ==> poll_entry_spec(state, true) == poll_entry_spec(
            state,
            false,
        ),
{
}

/// Decides the start of a poll.
pub fn poll_entry(state: PollerState, should_wake: bool) -> (r: (PollerState, PollEntry))
    ensures
        r == poll_entry_spec(state, should_wake),
        state == PollerState::Initialised ==> r == (PollerState::Initialised, PollEntry::Proceed),
        r.1 != PollEntry::Proceed <==> (state == PollerState::Complete || (state
            == PollerState::Pushed && should_wake)),
        r.1 == PollEntry::Proceed ==> r.0 == state,
        r.1 != PollEntry::Proceed ==> r.0 == PollerState::Complete,
        r.1 == PollEntry::Finish ==> state == PollerState::Complete,
{
    match state {
        PollerState::Initialised => (state, PollEntry::Proceed),
        PollerState::Pushed => {
            if should_wake {
                (PollerState::Complete, PollEntry::RevokeAndFinish)
            } else {
                (state, PollEntry::Proceed)
            }
        },
        PollerState::Complete => (state, PollEntry::Finish),
    }
}

/// The end of a poll that tried to queue the future: queued futures are
/// pending, the others complete. The result is the new state and whether the
/// poll reports ready.
pub fn poll_exit(did_push: bool) -> (r: (PollerState, bool))
    ensures
        r == (if did_push { (PollerState::Pushed, false) } else { (PollerState::Complete, true) }),
{
    if did_push {
        (PollerState::Pushed, false)
    } else {
        (PollerState::Complete, true)
    }
}

/// What dropping a future does.
#[derive(Debug, Copy, Clone, PartialEq, Eq, Structural)]
pub enum DropAction {
    /// Never queued: nothing to do.
    Nothing,
    /// Queued: take the node off the list, and if it was already taken off
    /// by a notifier, pass the notification on.
    RevokeOrPassOn,
    /// Complete: the node is off the list already.
    AlreadyOff,
}

/// The action for dropping a future in `state`.
pub open spec fn drop_action_spec(state: PollerState) -> DropAction {
    match state {
        PollerState::Initialised => DropAction::Nothing,
        PollerState::Pushed => DropAction::RevokeOrPassOn,
        PollerState::Complete => DropAction::AlreadyOff,
    }
}

/// Decides what dropping a future does.
pub fn drop_action(state: PollerState) -> (r: DropAction)
    ensures
        r == drop_action_spec(state),
        r is RevokeOrPassOn <==> state == PollerState::Pushed,
        r is Nothing <==> state == PollerState::Initialised,
        r is AlreadyOff <==> state == PollerState::Complete,
{
    match state {
        PollerState::Initialised => DropAction::Nothing,
        PollerState::Pushed => DropAction::RevokeOrPassOn,
        PollerState::Complete => DropAction::AlreadyOff,
    }
}

/// Whether a queued future that is dropped passes a notification on: it
/// does when its node was no longer on the list, since a notifier took it.
pub fn passes_notification_on(revoked: bool) -> (r: bool)
    ensures
        r == !revoked,
{
    !revoked
}

/// A completed future stays complete and keeps reporting ready; a poll
/// reports pending only when it leaves the future queued; and a future that
/// finishes is left complete, so dropping it has nothing to take off.
pub proof fn lemma_poller_states(should_wake: bool, did_push: bool)
    ensures
        poll_entry_spec(PollerState::Complete, should_wake) == (
            PollerState::Complete,
            PollEntry::Finish,
        ),
        poll_entry_spec(PollerState::Pushed, true).0 == PollerState::Complete,
        drop_action_spec(poll_entry_spec(PollerState::Pushed, true).0) == DropAction::AlreadyOff,
        (if did_push { (PollerState::Pushed, false) } else { (PollerState::Complete, true) }).1
            == !did_push,
        !did_push ==> drop_action_spec(PollerState::Complete) == DropAction::AlreadyOff,
        did_push ==> drop_action_spec(PollerState::Pushed) == DropAction::RevokeOrPassOn,
{
}

} // verus!
