//! The steps of a thread that locks the queue based mutex, with or without a
//! deadline.
//!
//! The thread tries to take the mutex; failing that it queues itself, unless
//! the mutex came free while it queued (then it took it), and sleeps. Once
//! woken it takes the mutex if it was handed over to it, and otherwise starts
//! again. With a deadline it sleeps only until the deadline, and then takes
//! its node back and gives up. If an unlocker took the node first, the thread
//! sleeps on until that unlocker's wake-up arrives and then looks for a
//! hand-over, so that a mutex handed to it is never left held by nobody.
//!
//! The caller runs the steps: it performs the step that `next_lock_step`
//! gives and reports what came of it.
use vstd::prelude::*;

verus! {

/// What the locking thread does next.
#[derive(Debug, Copy, Clone, PartialEq, Eq, Structural)]
pub enum LockStep {
    /// Try to take the mutex at once.
    TryLock,
    /// Prepare to sleep and queue, unless the mutex is taken meanwhile.
    Queue,
    /// Sleep until woken.
    Park,
    /// Sleep until woken or until the deadline.
    ParkUntil,
    /// Take the node back off the queue.
    Revoke,
    /// Look whether the mutex was handed over.
    CheckHandOver,
    /// Done: true when the thread holds the mutex.
    Return(bool),
}

/// What came of a step.
#[derive(Debug, Copy, Clone, PartialEq, Eq, Structural)]
pub enum LockReport {
    /// Whether the attempt took the mutex.
    TryLocked(bool),
    /// Whether the node was queued; a push that was not queued took the
    /// mutex instead.
    Queued(bool),
    /// The thread was woken.
    Parked,
    /// Whether the thread was woken before the deadline.
    ParkedUntil(bool),
    /// Whether the node still stood on the queue when it was taken back.
    Revoked(bool),
    /// Whether the mutex was handed over to the thread.
    HandedOver(bool),
}

/// Whether `report` is what step `step` can report.
pub open spec fn lock_answers(step: LockStep, report: LockReport) -> bool {
    match step {
        LockStep::TryLock => report is TryLocked,
        LockStep::Queue => report is Queued,
        LockStep::Park => report is Parked,
        LockStep::ParkUntil => report is ParkedUntil,
        LockStep::Revoke => report is Revoked,
        LockStep::CheckHandOver => report is HandedOver,
        LockStep::Return(_) => false,
    }
}

/// The step after a report; `deadline` says whether the call has one.
pub open spec fn lock_next(deadline: bool, report: LockReport) -> LockStep {
    match report {
        LockReport::TryLocked(took) => if took {
            LockStep::Return(true)
        } else {
            LockStep::Queue
        },
        LockReport::Queued(queued) => if !queued {
            LockStep::Return(true)
        } else if deadline {
            LockStep::ParkUntil
        } else {
            LockStep::Park
        },
        LockReport::Parked => LockStep::CheckHandOver,
        LockReport::ParkedUntil(woken) => if woken {
            LockStep::CheckHandOver
        } else {
            LockStep::Revoke
        },
        LockReport::Revoked(revoked) => if revoked {
            LockStep::Return(false)
        } else {
            LockStep::Park
        },
        LockReport::HandedOver(handed) => if handed {
            LockStep::Return(true)
        } else {
            LockStep::TryLock
        },
    }
}

/// Decides the step after step `step`, which came to `report`.
pub fn next_lock_step(deadline: bool, step: LockStep, report: LockReport) -> (r: LockStep)
    requires
        lock_answers(step, report),
    ensures
        r == lock_next(deadline, report),
        r == LockStep::Return(false) <==> report == LockReport::Revoked(true),
        r == LockStep::Return(true) <==> (report == LockReport::TryLocked(true) || report
            == LockReport::Queued(false) || report == LockReport::HandedOver(true)),
        report == LockReport::Revoked(false) ==> r == LockStep::Park,
        report == LockReport::Queued(true) ==> r == (if deadline {
            LockStep::ParkUntil
        } else {
            LockStep::Park
        }),
        r == LockStep::Revoke <==> report == LockReport::ParkedUntil(false),
        report == LockReport::ParkedUntil(true) ==> r == LockStep::CheckHandOver,
        r == LockStep::CheckHandOver <==> (report == LockReport::Parked || report
            == LockReport::ParkedUntil(true)),
{
    match report {
        LockReport::TryLocked(took) => {
            if took {
                LockStep::Return(true)
            } else {
                LockStep::Queue
            }
        },
        LockReport::Queued(queued) => {
            if !queued {
                LockStep::Return(true)
            } else if deadline {
                LockStep::ParkUntil
            } else {
                LockStep::Park
            }
        },
        LockReport::Parked => LockStep::CheckHandOver,
        LockReport::ParkedUntil(woken) => {
            if woken {
                LockStep::CheckHandOver
            } else {
                LockStep::Revoke
            }
        },
        LockReport::Revoked(revoked) => {
            if revoked {
                LockStep::Return(false)
            } else {
                LockStep::Park
            }
        },
        LockReport::HandedOver(handed) => {
            if handed {
                LockStep::Return(true)
            } else {
                LockStep::TryLock
            }
        },
    }
}

/// A lock call with a deadline goes on exactly as one without, but for the
/// sleep: a thread woken before its deadline looks for a hand-over as a
/// thread woken from an untimed sleep does, the node is taken back only
/// after a sleep that ended at the deadline, and every other report leads
/// to the same step with a deadline or without.
pub proof fn lemma_timed_lock_as_untimed(report: LockReport)
    ensures
        lock_next(true, LockReport::ParkedUntil(true)) == lock_next(false, LockReport::Parked),
        lock_next(true, LockReport::ParkedUntil(true)) == LockStep::CheckHandOver,
        lock_next(true, report) == LockStep::Revoke <==> report == LockReport::ParkedUntil(false),
        !(report is Queued) && !(report is ParkedUntil) ==> lock_next(true, report) == lock_next(
            false,
            report,
        ),
        report is Queued ==> (lock_next(true, report) == LockStep::ParkUntil <==> lock_next(
            false,
            report,
        ) == LockStep::Park),
{
}

/// A lock call gives up only after it took its node back before any
/// unlocker took it; it ends holding the mutex only after it took it itself
/// or found it handed over; and a thread whose node an unlocker took always
/// waits for the wake-up and then looks for a hand-over. Without a deadline
/// it never sleeps with one, so it never gives up.
pub proof fn lemma_lock_outcomes(deadline: bool, report: LockReport)
    ensures
        lock_next(deadline, report) == LockStep::Return(false) <==> report == LockReport::Revoked(
            true,
        ),
        lock_next(deadline, report) == LockStep::Return(true) <==> (report == LockReport::TryLocked(
            true,
        ) || report == LockReport::Queued(false) || report == LockReport::HandedOver(true)),
        lock_next(deadline, LockReport::Revoked(false)) == LockStep::Park,
        lock_next(deadline, LockReport::Parked) == LockStep::CheckHandOver,
        !deadline ==> lock_next(deadline, report) != LockStep::ParkUntil,
{
}

} // verus!
