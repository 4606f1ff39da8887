//! The steps of a thread that waits on an event, with or without a deadline.
//!
//! The waiter queues itself when its sleep condition agrees, and sleeps;
//! once woken it asks its wake condition whether the wait is over, and
//! queues again if not. A wait whose sleep condition declines is over at
//! once, and successful.
//!
//! With a deadline, the waiter reads the clock before each queueing and
//! gives up once the deadline has passed, its sleep condition declines once
//! the deadline has passed, and it sleeps only until the deadline. A sleep
//! that ends at the deadline takes the node back off the list. When a
//! notifier took the node first, the waiter sleeps on, without a deadline,
//! until that notifier's wake-up has arrived: the notifier is then done with
//! the waiter's slot, and the wake-up is not lost.
//!
//! The caller runs the steps: it performs the step that `next_wait_step`
//! gives and reports what came of it.
use vstd::prelude::*;

verus! {

/// What the waiter does next.
#[derive(Debug, Copy, Clone, PartialEq, Eq, Structural)]
pub enum WaitStep {
    /// Read the clock: has the deadline passed?
    ReadClock,
    /// Prepare to sleep and queue the node if the sleep condition agrees.
    Queue,
    /// Sleep until woken.
    Park,
    /// Sleep until woken or until the deadline.
    ParkUntil,
    /// Take the node back off the list.
    Revoke,
    /// Ask the wake condition whether the wait is over.
    AskShouldWake,
    /// The wait is over: true when it ended without giving up.
    Return(bool),
}

/// What came of a step.
#[derive(Debug, Copy, Clone, PartialEq, Eq, Structural)]
pub enum WaitReport {
    /// The clock was read: whether the deadline had passed.
    Clock(bool),
    /// The node was offered to the list: whether it was queued, and whether
    /// the sleep condition declined because the deadline had passed.
    Queued(bool, bool),
    /// The waiter was woken.
    Parked,
    /// The sleep with a deadline ended: whether the waiter was woken before
    /// the deadline.
    ParkedUntil(bool),
    /// The node was taken back: whether it still stood on the list.
    Revoked(bool),
    /// The wake condition answered.
    ShouldWake(bool),
}

/// Whether `report` is what step `step` can report.
pub open spec fn answers(step: WaitStep, report: WaitReport) -> bool {
    match step {
        WaitStep::ReadClock => report is Clock,
        WaitStep::Queue => report is Queued,
        WaitStep::Park => report is Parked,
        WaitStep::ParkUntil => report is ParkedUntil,
        WaitStep::Revoke => report is Revoked,
        WaitStep::AskShouldWake => report is ShouldWake,
        WaitStep::Return(_) => false,
    }
}

/// The steps that a wait without a deadline takes: it never reads the clock,
/// never sleeps with a deadline and never takes its node back.
pub open spec fn untimed_step(step: WaitStep) -> bool {
    step is Queue || step is Park || step is AskShouldWake || step is Return
}

/// The first step of a wait.
pub open spec fn first_step(deadline: bool) -> WaitStep {
    if deadline {
        WaitStep::ReadClock
    } else {
        WaitStep::Queue
    }
}

/// The step after a report.
pub open spec fn next_step(deadline: bool, report: WaitReport) -> WaitStep {
    match report {
        WaitReport::Clock(expired) => if expired {
            WaitStep::Return(false)
        } else {
            WaitStep::Queue
        },
        WaitReport::Queued(pushed, timed_out) => if !pushed {
            WaitStep::Return(!timed_out)
        } else if deadline {
            WaitStep::ParkUntil
        } else {
            WaitStep::Park
        },
        WaitReport::Parked => WaitStep::AskShouldWake,
        WaitReport::ParkedUntil(woken) => if woken {
            WaitStep::AskShouldWake
        } else {
            WaitStep::Revoke
        },
        WaitReport::Revoked(revoked) => if revoked {
            WaitStep::Return(false)
        } else {
            WaitStep::Park
        },
        WaitReport::ShouldWake(wake) => if wake {
            WaitStep::Return(true)
        } else {
            first_step(deadline)
        },
    }
}

/// The first step of a wait, with a deadline or without.
pub fn first_wait_step(deadline: bool) -> (r: WaitStep)
    ensures
        r == first_step(deadline),
        !deadline ==> untimed_step(r),
{
    if deadline {
        WaitStep::ReadClock
    } else {
        WaitStep::Queue
    }
}

/// The step that follows step `step`, which came to `report`. Without a
/// deadline the sleep condition never reports a time-out.
pub fn next_wait_step(deadline: bool, step: WaitStep, report: WaitReport) -> (r: WaitStep)
    requires
        answers(step, report),
        !deadline ==> untimed_step(step),
        !deadline ==> report != WaitReport::Queued(false, true),
    ensures
        r == next_step(deadline, report),
        !deadline ==> untimed_step(r),
        r == WaitStep::Revoke <==> report == WaitReport::ParkedUntil(false),
        r == WaitStep::AskShouldWake <==> (report == WaitReport::Parked || report
            == WaitReport::ParkedUntil(true)),
        r == WaitStep::Return(true) <==> (report == WaitReport::Queued(false, false) || report
            == WaitReport::ShouldWake(true)),
        r == WaitStep::Return(false) <==> (report == WaitReport::Clock(true) || report
            == WaitReport::Queued(false, true) || report == WaitReport::Revoked(true)),
        report == WaitReport::Revoked(false) ==> r == WaitStep::Park,
{
    match report {
        WaitReport::Clock(expired) => {
            if expired {
                WaitStep::Return(false)
            } else {
                WaitStep::Queue
            }
        },
        WaitReport::Queued(pushed, timed_out) => {
            if !pushed {
                WaitStep::Return(!timed_out)
            } else if deadline {
                WaitStep::ParkUntil
            } else {
                WaitStep::Park
            }
        },
        WaitReport::Parked => WaitStep::AskShouldWake,
        WaitReport::ParkedUntil(woken) => {
            if woken {
                WaitStep::AskShouldWake
            } else {
                WaitStep::Revoke
            }
        },
        WaitReport::Revoked(revoked) => {
            if revoked {
                WaitStep::Return(false)
            } else {
                WaitStep::Park
            }
        },
        WaitReport::ShouldWake(wake) => {
            if wake {
                WaitStep::Return(true)
            } else {
                first_wait_step(deadline)
            }
        },
    }
}

/// The sleep condition of a wait, asked while the node is offered to the
/// list, given the number of waiters already queued: once the deadline has
/// passed it declines and records a time-out, without asking the caller's
/// condition; before, it is the caller's condition on that number. The
/// result is whether to queue and whether it timed out.
pub fn sleep_condition<F: Fn(usize) -> bool>(expired: bool, should_sleep: &F, num_waiting: usize) -> (r: (
    bool,
    bool,
))
    requires
        !expired ==> should_sleep.requires((num_waiting,)),
    ensures
        expired ==> r == (false, true),
        !expired ==> !r.1 && should_sleep.ensures((num_waiting,), r.0),
{
    if expired {
        (false, true)
    } else {
        (should_sleep(num_waiting), false)
    }
}

/// A wait ends in success only when the sleep condition declined before the
/// deadline or the wake condition agreed, and it gives up only when the
/// clock showed the deadline passed, the sleep condition timed out, or the
/// node was taken back before any notifier took it.
pub proof fn lemma_wait_outcomes(deadline: bool, report: WaitReport)
    ensures
        next_step(deadline, report) == WaitStep::Return(true) <==> (report == WaitReport::Queued(
            false,
            false,
        ) || report == WaitReport::ShouldWake(true)),
        next_step(deadline, report) == WaitStep::Return(false) <==> (report == WaitReport::Clock(
            true,
        ) || report == WaitReport::Queued(false, true) || report == WaitReport::Revoked(true)),
{
}

/// A notifier's wake-up is never lost: a waiter whose node a notifier took
/// first sleeps until the wake-up arrives, and a waiter that was woken asks
/// its wake condition before it does anything else.
pub proof fn lemma_wake_up_not_lost(deadline: bool)
    ensures
        next_step(deadline, WaitReport::Revoked(false)) == WaitStep::Park,
        next_step(deadline, WaitReport::Parked) == WaitStep::AskShouldWake,
        next_step(deadline, WaitReport::ParkedUntil(true)) == WaitStep::AskShouldWake,
{
}

/// A queued waiter sleeps with a deadline exactly when the wait has one, and
/// a wait without a deadline keeps to the untimed steps and, when it ends,
/// ends in success.
pub proof fn lemma_untimed_wait(step: WaitStep, report: WaitReport)
    requires
        answers(step, report),
        untimed_step(step),
        report != WaitReport::Queued(false, true),
    ensures
        untimed_step(next_step(false, report)),
        next_step(false, report) != WaitStep::Return(false),
        next_step(true, WaitReport::Queued(true, false)) == WaitStep::ParkUntil,
        next_step(false, WaitReport::Queued(true, false)) == WaitStep::Park,
{
}

} // verus!
