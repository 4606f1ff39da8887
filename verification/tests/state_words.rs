use colock::mutex_state::{
    clears_wait_after_wake, event_should_sleep_retarget, event_sleeps_after_exchange,
    notify_after_marking, notify_without_marking, should_bump, should_sleep_step,
    state_is_locked, try_lock_target, unlock_fair_action, unlock_must_wake, was_handed_over,
    FairRelease, SleepStep, FAIR_BIT, LOCKED_BIT, UNLOCKED, WAIT_BIT,
};
use colock::rw_state::{
    bump_exclusive_yields, exclusive_register_step, exclusive_waiting, is_exclusive_locked,
    is_fair, is_shared_locked, is_unlocked, num_shared, shared_acquired,
    try_lock_exclusive_target, try_lock_shared_target, unlock_exclusive_action,
    unlock_shared_wakes_writer, wake_writer_clears_wait, ExclusiveRelease, ExclusiveStep,
    EXCLUSIVE_LOCK, EXCLUSIVE_WAITING, FAIR, ONE_READER,
};
use colock::{rw_state_compact, rw_state_event};

#[test]
fn mutex_try_lock_takes_free_byte() {
    assert_eq!(try_lock_target(UNLOCKED), Some(LOCKED_BIT));
    assert_eq!(try_lock_target(WAIT_BIT), Some(LOCKED_BIT | WAIT_BIT));
    assert_eq!(try_lock_target(WAIT_BIT | FAIR_BIT), Some(7));
    assert_eq!(try_lock_target(LOCKED_BIT), None);
    assert_eq!(try_lock_target(LOCKED_BIT | WAIT_BIT), None);
}

#[test]
fn mutex_is_locked_reads_bit_zero() {
    assert!(!state_is_locked(0));
    assert!(state_is_locked(1));
    assert!(state_is_locked(3));
    assert!(!state_is_locked(6));
}

#[test]
fn mutex_should_sleep_rounds() {
    assert_eq!(should_sleep_step(3), SleepStep::Sleep);
    assert_eq!(should_sleep_step(0), SleepStep::TakeLock { expected: 0, new: 1 });
    assert_eq!(should_sleep_step(2), SleepStep::TakeLock { expected: 2, new: 3 });
    assert_eq!(should_sleep_step(1), SleepStep::MarkWaiting { expected: 1, new: 3 });
    assert_eq!(should_sleep_step(5), SleepStep::MarkWaiting { expected: 1, new: 3 });
}

#[test]
fn mutex_unlock_wakes_only_when_waiting() {
    assert!(!unlock_must_wake(LOCKED_BIT));
    assert!(unlock_must_wake(LOCKED_BIT | WAIT_BIT));
    assert!(clears_wait_after_wake(0));
    assert!(!clears_wait_after_wake(2));
}

#[test]
fn mutex_fair_unlock_choices() {
    assert_eq!(unlock_fair_action(false, 0), FairRelease::Release);
    assert_eq!(unlock_fair_action(true, 0), FairRelease::HandOffLast);
    assert_eq!(unlock_fair_action(true, 3), FairRelease::HandOff);
    // the last waiter: held and waiting becomes held and handed over
    assert_eq!(3u8 ^ (WAIT_BIT | FAIR_BIT), 5);
    assert!(was_handed_over(5));
    assert!(!was_handed_over(3));
}

#[test]
fn mutex_bump_only_when_held_and_waiting() {
    assert!(should_bump(3));
    assert!(!should_bump(1));
    assert!(!should_bump(7));
}

#[test]
fn event_mutex_retarget() {
    assert_eq!(event_should_sleep_retarget(0), Some(1));
    assert_eq!(event_should_sleep_retarget(3), None);
    assert_eq!(event_should_sleep_retarget(1), Some(3));
    assert_eq!(event_should_sleep_retarget(2), Some(3));
    assert!(event_sleeps_after_exchange(1));
    assert!(!event_sleeps_after_exchange(2));
    assert!(notify_without_marking(1, 2));
    assert!(!notify_without_marking(2, 2));
    assert!(!notify_without_marking(1, 3));
    assert!(notify_after_marking(2));
    assert!(!notify_after_marking(3));
}

#[test]
fn rw_shared_counts_readers() {
    // three readers join a free lock, then leave one by one
    let s1 = try_lock_shared_target(0).unwrap();
    let s2 = try_lock_shared_target(s1).unwrap();
    let s3 = try_lock_shared_target(s2).unwrap();
    assert_eq!(s3, ONE_READER * 3);
    assert_eq!(num_shared(s3), 3);
    assert!(is_shared_locked(s3));
    assert!(!unlock_shared_wakes_writer(s3));
    assert_eq!(s3 - ONE_READER, ONE_READER * 2);
    assert_eq!(s2 - ONE_READER, ONE_READER);
    assert_eq!(s1 - ONE_READER, 0);
    assert!(is_unlocked(s1 - ONE_READER));
}

#[test]
fn rw_try_exclusive_fails_while_shared() {
    let s = try_lock_shared_target(0).unwrap();
    assert_eq!(try_lock_exclusive_target(s), None);
    assert_eq!(s, ONE_READER);
}

#[test]
fn rw_writer_excludes_readers() {
    let s = try_lock_exclusive_target(0).unwrap();
    assert_eq!(s, EXCLUSIVE_LOCK);
    assert!(is_exclusive_locked(s));
    assert!(!is_shared_locked(s));
    assert_eq!(try_lock_shared_target(s), None);
    assert_eq!(try_lock_exclusive_target(s), None);
    assert!(!shared_acquired(s + ONE_READER));
}

#[test]
fn rw_flags() {
    assert!(exclusive_waiting(EXCLUSIVE_WAITING));
    assert!(!exclusive_waiting(EXCLUSIVE_LOCK));
    assert!(is_fair(FAIR));
    assert!(!is_fair(ONE_READER));
    assert!(bump_exclusive_yields(EXCLUSIVE_LOCK + ONE_READER));
    assert!(!bump_exclusive_yields(EXCLUSIVE_LOCK));
    assert!(wake_writer_clears_wait(false, 4));
    assert!(wake_writer_clears_wait(true, 0));
    assert!(!wake_writer_clears_wait(true, 1));
}

#[test]
fn rw_writer_registration_rounds() {
    assert_eq!(exclusive_register_step(0), ExclusiveStep::TakeLock { expected: 0, new: 1 });
    assert_eq!(
        exclusive_register_step(ONE_READER),
        ExclusiveStep::MarkWaiting { expected: ONE_READER, new: ONE_READER | EXCLUSIVE_WAITING }
    );
    assert_eq!(exclusive_register_step(EXCLUSIVE_LOCK | EXCLUSIVE_WAITING), ExclusiveStep::Sleep);
    // a free lock with a writer marked waiting is still taken
    assert_eq!(
        exclusive_register_step(EXCLUSIVE_WAITING),
        ExclusiveStep::TakeLock { expected: 2, new: 3 }
    );
}

#[test]
fn rw_unlock_shared_wakes_writer_when_last() {
    let prev = ONE_READER | EXCLUSIVE_WAITING;
    assert!(unlock_shared_wakes_writer(prev));
    assert!(!unlock_shared_wakes_writer(ONE_READER * 2 | EXCLUSIVE_WAITING));
    assert!(!unlock_shared_wakes_writer(ONE_READER));
}

#[test]
fn rw_unlock_exclusive_choices() {
    assert_eq!(unlock_exclusive_action(EXCLUSIVE_LOCK + 3 * ONE_READER), ExclusiveRelease::WakeReaders);
    assert_eq!(unlock_exclusive_action(EXCLUSIVE_LOCK | EXCLUSIVE_WAITING), ExclusiveRelease::WakeWriter);
    assert_eq!(unlock_exclusive_action(EXCLUSIVE_LOCK), ExclusiveRelease::Nothing);
}

#[test]
fn compact_layout_tests() {
    assert_eq!(rw_state_compact::try_lock_shared_target(0), Some(4));
    assert_eq!(rw_state_compact::try_lock_shared_target(1), None);
    assert!(rw_state_compact::is_shared_locked(4));
    // the layout looks at bit 2 alone
    assert!(!rw_state_compact::is_shared_locked(8));
    assert_eq!(rw_state_compact::num_shared(8), 2);
    assert_eq!(rw_state_compact::try_lock_exclusive_target(0), Some(1));
    assert_eq!(rw_state_compact::try_lock_exclusive_target(4), None);
    assert_eq!(rw_state_compact::try_lock_exclusive_target(2), Some(3));
    assert!(rw_state_compact::unlock_shared_wakes_writer(2));
    assert!(!rw_state_compact::unlock_shared_wakes_writer(6));
    assert_eq!(rw_state_compact::unlock_exclusive_action(3), rw_state_compact::CompactRelease::WakeWriter);
    assert_eq!(rw_state_compact::unlock_exclusive_action(5), rw_state_compact::CompactRelease::WakeReaders);
    assert_eq!(rw_state_compact::unlock_exclusive_action(1), rw_state_compact::CompactRelease::Nothing);
    assert!(rw_state_compact::is_locked(1));
    assert!(!rw_state_compact::is_locked(0));
    assert!(rw_state_compact::is_unlocked(0));
    assert!(rw_state_compact::is_exclusive_locked(3));
    assert!(rw_state_compact::exclusive_waiting(3));
}

#[test]
fn event_layout_shared() {
    // three shared locks on a free word
    let s1 = rw_state_event::lock_shared_once_target(0).unwrap();
    let s2 = rw_state_event::lock_shared_once_target(s1).unwrap();
    let s3 = rw_state_event::lock_shared_once_target(s2).unwrap();
    assert_eq!(s3, (rw_state_event::ONE_READER * 3) | rw_state_event::SHARED_LOCK);
    assert_eq!(rw_state_event::lock_shared_once_target(2), None);
    assert_eq!(rw_state_event::lock_shared_once_target(8), None);
}

#[test]
fn event_layout_try_exclusive_fails() {
    let s = rw_state_event::lock_shared_once_target(0).unwrap();
    assert_eq!(rw_state_event::try_lock_exclusive_target(s), None);
    assert_eq!(s, rw_state_event::ONE_READER | rw_state_event::SHARED_LOCK);
    assert_eq!(rw_state_event::try_lock_exclusive_target(0), Some(2));
}

#[test]
fn event_layout_register_shared() {
    assert_eq!(rw_state_event::register_shared_step(0), (17, false));
    assert_eq!(rw_state_event::register_shared_step(17), (33, false));
    assert_eq!(rw_state_event::register_shared_step(2), (22, true));
    assert_eq!(rw_state_event::register_shared_step(22), (38, true));
}
