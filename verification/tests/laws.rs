use colock::mini_lock::{pop_step, push_or_lock_step, PushOrLock};
use colock::poller::{drop_action, poll_entry, poll_exit, DropAction, PollEntry, PollerState};
use colock::barrier::lock_inner;
use colock::intrusive_list::{IntrusiveList, Node};
use colock::mutex_state::{
    should_sleep_step, try_lock_target, unlock_fair_action, unlock_must_wake, was_handed_over,
    FairRelease, SleepStep, FAIR_BIT, LOCKED_BIT, WAIT_BIT,
};
use colock::rw_state::{
    exclusive_register_step, exclusive_waiting, is_exclusive_locked, is_shared_locked,
    num_shared, try_lock_exclusive_target, try_lock_shared_target, unlock_exclusive_action,
    ExclusiveRelease, ExclusiveStep, EXCLUSIVE_LOCK, EXCLUSIVE_WAITING, ONE_READER,
};

#[test]
fn mutex_wait_bit_stays_while_queued() {
    // a holder has the byte 1; a second thread marks itself waiting and sleeps
    let mut byte = LOCKED_BIT;
    let mut queued = 0;
    match should_sleep_step(byte) {
        SleepStep::MarkWaiting { expected, new } => {
            assert_eq!(expected, byte);
            byte = new;
        }
        other => panic!("unexpected {other:?}"),
    }
    assert_eq!(should_sleep_step(byte), SleepStep::Sleep);
    queued += 1;
    assert!(byte & WAIT_BIT != 0);
    // the holder lets go: the wait bit stays and a wake-up is due
    let prev = byte;
    byte &= !LOCKED_BIT;
    assert!(unlock_must_wake(prev));
    assert!(queued == 0 || byte & WAIT_BIT != 0);
    // the last waiter is popped and the bit is cleared
    queued -= 1;
    byte &= !WAIT_BIT;
    assert_eq!((byte, queued), (0, 0));
}

#[test]
fn mutex_lock_then_unlock_gives_back_byte() {
    for s in [0u8, 2, 4, 6] {
        let t = try_lock_target(s).unwrap();
        assert_eq!(t & !LOCKED_BIT, s);
    }
}

#[test]
fn mutex_fair_hand_off_keeps_lock() {
    let held_and_waiting = LOCKED_BIT | WAIT_BIT;
    assert_eq!(unlock_fair_action(true, 0), FairRelease::HandOffLast);
    let after = held_and_waiting ^ (WAIT_BIT | FAIR_BIT);
    assert!(after & LOCKED_BIT != 0);
    assert!(was_handed_over(after));
    assert_eq!(unlock_fair_action(true, 2), FairRelease::HandOff);
    let after = held_and_waiting | FAIR_BIT;
    assert!(after & LOCKED_BIT != 0 && after & WAIT_BIT != 0);
}

#[test]
fn rw_reader_round_trip() {
    let s = EXCLUSIVE_WAITING;
    let joined = try_lock_shared_target(s).unwrap();
    assert_eq!(num_shared(joined), 1);
    assert!(exclusive_waiting(joined));
    assert_eq!(joined - ONE_READER, s);
}

#[test]
fn rw_writer_round_trip() {
    let t = try_lock_exclusive_target(0).unwrap();
    assert!(is_exclusive_locked(t));
    assert!(!is_shared_locked(t));
    assert_eq!(t & !EXCLUSIVE_LOCK, 0);
    assert_ne!(unlock_exclusive_action(t), ExclusiveRelease::WakeReaders);
}

#[test]
fn rw_writer_flag_stays_while_queued() {
    // readers hold the lock; a writer marks itself waiting and sleeps
    let mut word = 2 * ONE_READER;
    match exclusive_register_step(word) {
        ExclusiveStep::MarkWaiting { expected, new } => {
            assert_eq!(expected, word);
            word = new;
        }
        other => panic!("unexpected {other:?}"),
    }
    assert_eq!(exclusive_register_step(word), ExclusiveStep::Sleep);
    // readers come and go: the bit stays
    word = try_lock_shared_target(word).unwrap();
    word -= ONE_READER;
    word -= ONE_READER;
    assert!(exclusive_waiting(word));
}

#[test]
fn barrier_releases_in_groups() {
    let mut list = IntrusiveList::new();
    let mut leaders = Vec::new();
    let mut nodes: Vec<Node<usize>> = (1..=7).map(Node::new).collect();
    for (i, node) in nodes.iter_mut().enumerate() {
        let (sleeps, _) = lock_inner(3, &mut list, node);
        if !sleeps {
            leaders.push(i + 1);
        }
    }
    assert_eq!(leaders, vec![3, 6]);
    assert_eq!(list.count(), 7 % 3);
}

#[test]
fn push_then_remove_gives_back_list() {
    let mut list = IntrusiveList::new();
    let mut a = Node::new(1);
    let mut b = Node::new(2);
    list.push_tail(&mut a).unwrap();
    list.push_tail(&mut b).unwrap();
    let mut c = Node::new(3);
    list.push_head(&mut c).unwrap();
    assert!(list.take_off(&mut c));
    assert_eq!(list.to_vec(), vec![1, 2]);
    let mut d = Node::new(4);
    list.push_tail(&mut d).unwrap();
    assert!(list.take_off(&mut d));
    assert_eq!(list.to_vec(), vec![1, 2]);
}

#[test]
fn mini_lock_push_then_pop_gives_back_word() {
    for head in [1usize, 0x201, 0x401] {
        match push_or_lock_step(head, 0x100) {
            PushOrLock::Push { next, new } => assert_eq!(pop_step(new, next), Some(head)),
            other => panic!("unexpected {other:?}"),
        }
    }
}

#[test]
fn poller_complete_stays_complete() {
    assert_eq!(poll_entry(PollerState::Complete, true), (PollerState::Complete, PollEntry::Finish));
    assert_eq!(poll_entry(PollerState::Complete, false), (PollerState::Complete, PollEntry::Finish));
    assert_eq!(poll_entry(PollerState::Pushed, true), (PollerState::Complete, PollEntry::RevokeAndFinish));
    assert_eq!(poll_entry(PollerState::Pushed, false), (PollerState::Pushed, PollEntry::Proceed));
    assert_eq!(poll_entry(PollerState::Initialised, true), (PollerState::Initialised, PollEntry::Proceed));
    assert_eq!(poll_exit(true), (PollerState::Pushed, false));
    assert_eq!(poll_exit(false), (PollerState::Complete, true));
    assert_eq!(drop_action(PollerState::Pushed), DropAction::RevokeOrPassOn);
    assert_eq!(drop_action(PollerState::Complete), DropAction::AlreadyOff);
    assert_eq!(drop_action(PollerState::Initialised), DropAction::Nothing);
}
