use colock::condvar::{forgets_mutex, may_wait_with};
use colock::barrier::{arrival_result, lock_inner, BarrierWaitResult};
use colock::event::{notify_all_while, notify_if, notify_many_while, notify_one};
use colock::event_list::IntrusiveLinkedList;
use colock::intrusive_list::{Error, IntrusiveList, Node, NodeAction, ScanAction};
use colock::maybe_ref::MaybeRef;
use std::cell::Cell;
use std::sync::Arc;

fn payloads(list: &IntrusiveList<i32>) -> Vec<i32> {
    list.to_vec()
}

#[test]
fn push_head_and_tail_order() {
    let mut list = IntrusiveList::new();
    let mut a = Node::new(1);
    let mut b = Node::new(2);
    let mut c = Node::new(3);
    assert_eq!(list.push_head(&mut a), Ok(1));
    assert_eq!(list.push_head(&mut b), Ok(2));
    assert_eq!(list.push_tail(&mut c), Ok(3));
    assert_eq!(payloads(&list), vec![2, 1, 3]);
    assert_eq!(list.count(), 3);
    assert_eq!(list.pop_head(), Some(2));
    assert_eq!(list.pop_tail(), Some(3));
    assert_eq!(list.pop_tail(), Some(1));
    assert_eq!(list.pop_tail(), None);
    assert_eq!(list.pop_head(), None);
}

#[test]
fn pushed_node_is_dirty() {
    let mut list = IntrusiveList::new();
    let mut a = Node::new(1);
    assert!(a.is_clean());
    assert_eq!(list.push_head(&mut a), Ok(1));
    assert!(!a.is_clean());
    a.put_data(5);
    assert_eq!(list.push_head(&mut a), Err(Error::DirtyNode));
    assert_eq!(list.push_tail(&mut a), Err(Error::DirtyNode));
    assert_eq!(list.count(), 1);
    // popped nodes stay dirty
    assert_eq!(list.pop_head(), Some(1));
    assert_eq!(list.push_tail(&mut a), Err(Error::DirtyNode));
}

#[test]
fn aborted_push_changes_nothing() {
    let mut list = IntrusiveList::new();
    let mut a = Node::new(1);
    assert_eq!(list.push_head_if(&mut a, false), Err(Error::AbortedPush));
    assert!(a.is_clean());
    assert_eq!(list.count(), 0);
    assert_eq!(list.push_tail_if(&mut a, true), Ok(1));
    assert_eq!(payloads(&list), vec![1]);
}

#[test]
fn remove_node_in_middle_gives_payload_back() {
    let mut list = IntrusiveList::new();
    let mut a = Node::new(1);
    let mut b = Node::new(2);
    let mut c = Node::new(3);
    list.push_tail(&mut a).unwrap();
    list.push_tail(&mut b).unwrap();
    list.push_tail(&mut c).unwrap();
    assert!(b.is_on_list(&list));
    list.remove_node(&mut b);
    assert!(!b.is_on_list(&list));
    assert_eq!(payloads(&list), vec![1, 3]);
    assert_eq!(b.take_data(), Some(2));
    // an end is popped, which drops its payload
    list.remove_node(&mut a);
    assert_eq!(payloads(&list), vec![3]);
    assert_eq!(a.take_data(), None);
}

#[test]
fn revoke_returns_payload_only_from_middle() {
    let mut list = IntrusiveList::new();
    let mut a = Node::new(1);
    let mut b = Node::new(2);
    let mut c = Node::new(3);
    list.push_tail(&mut a).unwrap();
    list.push_tail(&mut b).unwrap();
    list.push_tail(&mut c).unwrap();
    assert_eq!(b.revoke(&mut list), Some(2));
    assert_eq!(a.revoke(&mut list), None);
    assert_eq!(payloads(&list), vec![3]);
    let fresh = Node::new(9);
    assert_eq!(fresh.revoke(&mut list), None);
    assert_eq!(list.count(), 1);
}

#[test]
fn take_off_anywhere() {
    let mut list = IntrusiveList::new();
    let mut a = Node::new(1);
    let mut b = Node::new(2);
    list.push_tail(&mut a).unwrap();
    list.push_tail(&mut b).unwrap();
    assert!(list.take_off(&mut a));
    assert_eq!(a.take_data(), Some(1));
    assert!(!list.take_off(&mut a));
    assert_eq!(list.neighbours(&b), (false, false));
    assert_eq!(payloads(&list), vec![2]);
}

#[test]
fn pop_all_orders() {
    let mut list = IntrusiveList::new();
    let mut nodes: Vec<Node<i32>> = (1..=4).map(Node::new).collect();
    for n in nodes.iter_mut() {
        list.push_tail(n).unwrap();
    }
    assert_eq!(list.pop_all(), vec![4, 3, 2, 1]);
    assert_eq!(list.count(), 0);
    let mut more: Vec<Node<i32>> = (1..=3).map(Node::new).collect();
    for n in more.iter_mut() {
        list.push_tail(n).unwrap();
    }
    assert_eq!(list.pop_all_from_head(), vec![1, 2, 3]);
    assert_eq!(list.count(), 0);
}

#[test]
fn scan_removes_and_stops() {
    let mut list = IntrusiveList::new();
    let mut nodes: Vec<Node<i32>> = (1..=5).map(Node::new).collect();
    for n in nodes.iter_mut() {
        list.push_tail(n).unwrap();
    }
    list.scan(|d, _| {
        if d % 2 == 0 {
            (NodeAction::Remove, ScanAction::Continue)
        } else if *d == 5 {
            (NodeAction::Retain, ScanAction::Stop)
        } else {
            (NodeAction::Retain, ScanAction::Continue)
        }
    });
    assert_eq!(payloads(&list), vec![1, 3, 5]);
    list.scan(|_, n| {
        assert_eq!(n, 3);
        (NodeAction::Remove, ScanAction::Stop)
    });
    assert_eq!(payloads(&list), vec![3, 5]);
}

#[test]
fn barrier_of_three() {
    let mut list = IntrusiveList::new();
    let mut a = Node::new("a");
    let mut b = Node::new("b");
    let mut c = Node::new("c");
    let (sleep_a, woken_a) = lock_inner(3, &mut list, &mut a);
    assert!(sleep_a);
    assert!(woken_a.is_empty());
    let (sleep_b, _) = lock_inner(3, &mut list, &mut b);
    assert!(sleep_b);
    assert_eq!(list.count(), 2);
    let (sleep_c, woken) = lock_inner(3, &mut list, &mut c);
    assert!(!sleep_c);
    assert_eq!(woken, vec!["b", "a"]);
    assert_eq!(list.count(), 0);
    assert!(arrival_result(3, false).is_leader());
    assert!(!arrival_result(3, true).is_leader());
}

#[test]
fn barrier_of_one_never_queues() {
    let mut list: IntrusiveList<u8> = IntrusiveList::new();
    let mut a = Node::new(1);
    let (sleep, woken) = lock_inner(1, &mut list, &mut a);
    assert!(!sleep);
    assert!(woken.is_empty());
    assert!(a.is_clean());
}

#[test]
fn barrier_of_zero_reports_leader() {
    assert_eq!(arrival_result(0, false), BarrierWaitResult(true));
    assert!(arrival_result(0, true).is_leader());
}

fn event_with(values: &[i32]) -> (IntrusiveLinkedList<i32>, Vec<Node<i32>>) {
    let mut list = IntrusiveLinkedList::new();
    let mut nodes: Vec<Node<i32>> = values.iter().map(|v| Node::new(*v)).collect();
    for n in nodes.iter_mut() {
        list.push(n);
    }
    (list, nodes)
}

#[test]
fn notify_wakes_first_comer() {
    let (mut list, _nodes) = event_with(&[1, 2, 3]);
    let empty_ran = Cell::new(false);
    assert_eq!(notify_if(&mut list, &|n, _| n == 3, &|| empty_ran.set(true)), Some(1));
    assert_eq!(notify_if(&mut list, &|n, _| n == 3, &|| empty_ran.set(true)), None);
    assert_eq!(list.to_vec(), vec![3, 2]);
    assert_eq!(notify_one(&mut list), Some(2));
    assert_eq!(notify_one(&mut list), Some(3));
    assert_eq!(notify_if(&mut list, &|_, _| true, &|| empty_ran.set(true)), None);
    assert!(empty_ran.get());
}

#[test]
fn notify_many_stops_at_max_and_condition() {
    let (mut list, _nodes) = event_with(&[1, 2, 3, 4, 5]);
    let woken = notify_many_while(&mut list, 2, &|_, _| true, &|| {});
    assert_eq!(woken, vec![1, 2]);
    let woken = notify_many_while(&mut list, 10, &|_, v| *v != 4, &|| {});
    assert_eq!(woken, vec![3]);
    assert_eq!(list.to_vec(), vec![5, 4]);
    let woken = notify_many_while(&mut list, 0, &|_, _| true, &|| {});
    assert!(woken.is_empty());
    let woken = notify_all_while(&mut list, &|_, _| true, &|| {});
    assert_eq!(woken, vec![4, 5]);
    assert_eq!(list.len(), 0);
}

#[test]
fn notify_many_sees_queue_length() {
    let (mut list, _nodes) = event_with(&[1, 2, 3]);
    let seen = std::cell::RefCell::new(Vec::new());
    let woken = notify_all_while(&mut list, &|n, _| { seen.borrow_mut().push(n); true }, &|| {});
    assert_eq!(woken, vec![1, 2, 3]);
    assert_eq!(*seen.borrow(), vec![3, 2, 1]);
}

#[test]
fn maybe_ref_holds_value_every_way() {
    let v = 7;
    assert_eq!(*MaybeRef::new_ref(&v).deref(), 7);
    assert_eq!(*MaybeRef::<i32>::new_owned(8).deref(), 8);
    assert_eq!(*MaybeRef::<i32>::new_boxed(Box::new(9)).deref(), 9);
    assert_eq!(*MaybeRef::<i32>::new_arc(Arc::new(10)).deref(), 10);
}

#[test]
fn condvar_waiters_share_one_mutex() {
    assert!(may_wait_with(0, 0x1000));
    assert!(may_wait_with(0x1000, 0x1000));
    assert!(!may_wait_with(0x2000, 0x1000));
}

#[test]
fn condvar_forgets_the_mutex_with_the_last_waiter() {
    assert!(forgets_mutex(1));
    assert!(!forgets_mutex(2));
    assert!(!forgets_mutex(0));
}
