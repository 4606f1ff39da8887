use colock::lock_wait::{next_lock_step, LockReport, LockStep};
use colock::spin_lock::{next_spin_step, SpinReport, SpinStep};
use colock::timed_wait::{first_wait_step, next_wait_step, sleep_condition, WaitReport, WaitStep};

/// Runs the steps from the first one, answering each with the next report.
fn run(deadline: bool, reports: &[WaitReport]) -> Vec<WaitStep> {
    let mut step = first_wait_step(deadline);
    let mut steps = vec![step];
    for report in reports {
        step = next_wait_step(deadline, step, *report);
        steps.push(step);
    }
    steps
}

#[test]
fn untimed_wait_sleeps_until_the_wake_condition_agrees() {
    let steps = run(
        false,
        &[
            WaitReport::Queued(true, false),
            WaitReport::Parked,
            WaitReport::ShouldWake(false),
            WaitReport::Queued(true, false),
            WaitReport::Parked,
            WaitReport::ShouldWake(true),
        ],
    );
    assert_eq!(
        steps,
        vec![
            WaitStep::Queue,
            WaitStep::Park,
            WaitStep::AskShouldWake,
            WaitStep::Queue,
            WaitStep::Park,
            WaitStep::AskShouldWake,
            WaitStep::Return(true),
        ]
    );
}

#[test]
fn wait_whose_sleep_condition_declines_succeeds_at_once() {
    assert_eq!(run(false, &[WaitReport::Queued(false, false)]), vec![WaitStep::Queue, WaitStep::Return(true)]);
    assert_eq!(
        run(true, &[WaitReport::Clock(false), WaitReport::Queued(false, false)]),
        vec![WaitStep::ReadClock, WaitStep::Queue, WaitStep::Return(true)]
    );
}

#[test]
fn timed_wait_gives_up_when_the_deadline_has_passed() {
    assert_eq!(run(true, &[WaitReport::Clock(true)]), vec![WaitStep::ReadClock, WaitStep::Return(false)]);
    assert_eq!(
        run(true, &[WaitReport::Clock(false), WaitReport::Queued(false, true)]),
        vec![WaitStep::ReadClock, WaitStep::Queue, WaitStep::Return(false)]
    );
}

#[test]
fn timed_wait_takes_its_node_back_at_the_deadline() {
    assert_eq!(
        run(
            true,
            &[WaitReport::Clock(false), WaitReport::Queued(true, false), WaitReport::ParkedUntil(false), WaitReport::Revoked(true)]
        ),
        vec![WaitStep::ReadClock, WaitStep::Queue, WaitStep::ParkUntil, WaitStep::Revoke, WaitStep::Return(false)]
    );
}

#[test]
fn timed_wait_awaits_a_wake_up_already_under_way() {
    assert_eq!(
        run(
            true,
            &[
                WaitReport::Clock(false),
                WaitReport::Queued(true, false),
                WaitReport::ParkedUntil(false),
                WaitReport::Revoked(false),
                WaitReport::Parked,
                WaitReport::ShouldWake(true),
            ]
        ),
        vec![
            WaitStep::ReadClock,
            WaitStep::Queue,
            WaitStep::ParkUntil,
            WaitStep::Revoke,
            WaitStep::Park,
            WaitStep::AskShouldWake,
            WaitStep::Return(true),
        ]
    );
}

#[test]
fn timed_wait_reads_the_clock_again_before_queueing_again() {
    assert_eq!(
        run(
            true,
            &[
                WaitReport::Clock(false),
                WaitReport::Queued(true, false),
                WaitReport::ParkedUntil(true),
                WaitReport::ShouldWake(false),
                WaitReport::Clock(true),
            ]
        ),
        vec![
            WaitStep::ReadClock,
            WaitStep::Queue,
            WaitStep::ParkUntil,
            WaitStep::AskShouldWake,
            WaitStep::ReadClock,
            WaitStep::Return(false),
        ]
    );
}

#[test]
fn sleep_condition_declines_after_the_deadline_without_asking() {
    assert_eq!(sleep_condition(true, &|_: usize| -> bool { panic!("asked after the deadline") }, 0), (false, true));
    assert_eq!(sleep_condition(false, &|_: usize| true, 0), (true, false));
    assert_eq!(sleep_condition(false, &|_: usize| false, 0), (false, false));
    assert_eq!(sleep_condition(false, &|n: usize| n < 2, 1), (true, false));
    assert_eq!(sleep_condition(false, &|n: usize| n < 2, 2), (false, false));
}

#[test]
fn spin_lock_takes_the_lock_only_by_an_exchange() {
    assert_eq!(next_spin_step(false, SpinStep::Exchange, SpinReport::Exchanged(true, false)), SpinStep::Acquired);
    assert_eq!(next_spin_step(false, SpinStep::Exchange, SpinReport::Exchanged(false, false)), SpinStep::Exchange);
    assert_eq!(next_spin_step(false, SpinStep::Exchange, SpinReport::Exchanged(false, true)), SpinStep::Reload);
    assert_eq!(next_spin_step(false, SpinStep::Reload, SpinReport::Loaded(true)), SpinStep::Reload);
    assert_eq!(next_spin_step(false, SpinStep::Reload, SpinReport::Loaded(false)), SpinStep::Exchange);
}

#[test]
fn spin_lock_gives_up_early_when_the_condition_says_no() {
    assert_eq!(next_spin_step(true, SpinStep::Exchange, SpinReport::Exchanged(false, true)), SpinStep::AskCondition);
    assert_eq!(next_spin_step(true, SpinStep::AskCondition, SpinReport::Condition(true)), SpinStep::Reload);
    assert_eq!(next_spin_step(true, SpinStep::Reload, SpinReport::Loaded(true)), SpinStep::AskCondition);
    assert_eq!(next_spin_step(true, SpinStep::AskCondition, SpinReport::Condition(false)), SpinStep::GiveUp);
    assert_eq!(next_spin_step(true, SpinStep::Reload, SpinReport::Loaded(false)), SpinStep::Exchange);
}

#[test]
fn timed_lock_gives_up_only_when_it_took_its_node_back() {
    assert_eq!(next_lock_step(true, LockStep::TryLock, LockReport::TryLocked(false)), LockStep::Queue);
    assert_eq!(next_lock_step(true, LockStep::Queue, LockReport::Queued(true)), LockStep::ParkUntil);
    assert_eq!(next_lock_step(true, LockStep::ParkUntil, LockReport::ParkedUntil(false)), LockStep::Revoke);
    assert_eq!(next_lock_step(true, LockStep::Revoke, LockReport::Revoked(true)), LockStep::Return(false));
    assert_eq!(next_lock_step(true, LockStep::Revoke, LockReport::Revoked(false)), LockStep::Park);
    assert_eq!(next_lock_step(true, LockStep::Park, LockReport::Parked), LockStep::CheckHandOver);
    assert_eq!(next_lock_step(true, LockStep::CheckHandOver, LockReport::HandedOver(true)), LockStep::Return(true));
}

#[test]
fn untimed_lock_retries_until_it_holds_the_mutex() {
    assert_eq!(next_lock_step(false, LockStep::TryLock, LockReport::TryLocked(true)), LockStep::Return(true));
    assert_eq!(next_lock_step(false, LockStep::Queue, LockReport::Queued(false)), LockStep::Return(true));
    assert_eq!(next_lock_step(false, LockStep::Queue, LockReport::Queued(true)), LockStep::Park);
    assert_eq!(next_lock_step(false, LockStep::CheckHandOver, LockReport::HandedOver(false)), LockStep::TryLock);
}
