//! The steps of a spin lock that can give up early.
//!
//! A thread takes the lock by exchanging its flag from free to held. While it
//! finds the flag held it spins, rereading the flag, and tries the exchange
//! again once the flag reads free. With a condition, it asks the condition
//! before each spin and gives up as soon as the condition says no: that is
//! the early way out of a lock call.
//!
//! The caller runs the steps: it performs the step that `next_spin_step`
//! gives and reports what came of it.
use vstd::prelude::*;

verus! {

/// What the locking thread does next.
#[derive(Debug, Copy, Clone, PartialEq, Eq, Structural)]
pub enum SpinStep {
    /// Try to exchange the flag from free to held.
    Exchange,
    /// Ask the caller's condition whether to keep waiting.
    AskCondition,
    /// Spin once and reread the flag.
    Reload,
    /// The exchange succeeded: the lock is held.
    Acquired,
    /// The condition said no while the lock was held by another.
    GiveUp,
}

/// What came of a step.
#[derive(Debug, Copy, Clone, PartialEq, Eq, Structural)]
pub enum SpinReport {
    /// The exchange was tried: whether it succeeded, and whether the flag it
    /// found was held.
    Exchanged(bool, bool),
    /// The condition answered.
    Condition(bool),
    /// The flag was reread: whether it was held.
    Loaded(bool),
}

/// Whether `report` is what step `step` can report.
pub open spec fn spin_answers(step: SpinStep, report: SpinReport) -> bool {
    match step {
        SpinStep::Exchange => report is Exchanged,
        SpinStep::AskCondition => report is Condition,
        SpinStep::Reload => report is Loaded,
        _ => false,
    }
}

/// The step that waits on a held flag: ask the condition first when there is
/// one, else spin.
pub open spec fn wait_step(conditional: bool) -> SpinStep {
    if conditional {
        SpinStep::AskCondition
    } else {
        SpinStep::Reload
    }
}

/// The step after a report.
pub open spec fn spin_next(conditional: bool, report: SpinReport) -> SpinStep {
    match report {
        SpinReport::Exchanged(ok, found_held) => if ok {
            SpinStep::Acquired
        } else if found_held {
            wait_step(conditional)
        } else {
            SpinStep::Exchange
        },
        SpinReport::Condition(go_on) => if go_on {
            SpinStep::Reload
        } else {
            SpinStep::GiveUp
        },
        SpinReport::Loaded(held) => if held {
            wait_step(conditional)
        } else {
            SpinStep::Exchange
        },
    }
}

/// Decides the step after step `step`, which came to `report`; with
/// `conditional`, the lock call has a condition to give up on.
pub fn next_spin_step(conditional: bool, step: SpinStep, report: SpinReport) -> (r: SpinStep)
    requires
        spin_answers(step, report),
        !conditional ==> step != SpinStep::AskCondition,
    ensures
        r == spin_next(conditional, report),
        r == SpinStep::Acquired <==> report matches SpinReport::Exchanged(true, _),
        r == SpinStep::GiveUp <==> report == SpinReport::Condition(false),
        r == SpinStep::AskCondition ==> conditional,
        report == SpinReport::Condition(true) ==> r == SpinStep::Reload,
        !conditional ==> r != SpinStep::AskCondition && r != SpinStep::GiveUp,
{
    match report {
        SpinReport::Exchanged(ok, found_held) => {
            if ok {
                SpinStep::Acquired
            } else if found_held {
                if conditional {
                    SpinStep::AskCondition
                } else {
                    SpinStep::Reload
                }
            } else {
                SpinStep::Exchange
            }
        },
        SpinReport::Condition(go_on) => {
            if go_on {
                SpinStep::Reload
            } else {
                SpinStep::GiveUp
            }
        },
        SpinReport::Loaded(held) => {
            if held {
                if conditional {
                    SpinStep::AskCondition
                } else {
                    SpinStep::Reload
                }
            } else {
                SpinStep::Exchange
            }
        },
    }
}

/// A lock call takes the lock only by a successful exchange, and gives up
/// only when its condition said no, which it is asked only after the flag
/// was found held; a lock call without a condition never asks one, so it
/// never gives up.
pub proof fn lemma_spin_outcomes(conditional: bool, report: SpinReport)
    ensures
        spin_next(conditional, report) == SpinStep::Acquired <==> report matches SpinReport::Exchanged(
            true,
            _,
        ),
        spin_next(conditional, report) == SpinStep::GiveUp <==> report == SpinReport::Condition(
            false,
        ),
        spin_next(conditional, report) == SpinStep::AskCondition ==> conditional && (
        report == SpinReport::Exchanged(false, true) || report == SpinReport::Loaded(true)),
        !conditional ==> spin_next(conditional, report) != SpinStep::AskCondition,
{
}

} // verus!
