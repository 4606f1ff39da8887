use colock::event_list::IntrusiveLinkedList;
use colock::intrusive_list::Node;
use std::cell::Cell;

fn three_pushed() -> (IntrusiveLinkedList<i32>, Node<i32>, Node<i32>, Node<i32>) {
    let mut queue = IntrusiveLinkedList::new();
    let mut node_a = IntrusiveLinkedList::build_node(32);
    queue.push(&mut node_a);
    let mut node_b = IntrusiveLinkedList::build_node(42);
    queue.push(&mut node_b);
    let mut node_c = IntrusiveLinkedList::build_node(21);
    queue.push(&mut node_c);
    (queue, node_a, node_b, node_c)
}

#[test]
fn intrusive_linked_list_it_works() {
    let mut ill = IntrusiveLinkedList::new();
    let mut node_a = Node::new(42);
    let mut node_b = Node::new(32);
    ill.push(&mut node_a);
    ill.push(&mut node_b);
    assert_eq!(ill.pop_clone(), Some(42));
    assert_eq!(ill.pop_clone(), Some(32));
}

#[test]
fn intrusive_linked_list_basic_push() {
    let (queue, _a, _b, _c) = three_pushed();
    let elements = queue.to_vec();
    assert_eq!(elements, vec![21, 42, 32]);
}

#[test]
fn intrusive_linked_list_revoke_head() {
    let (mut queue, node_a, node_b, mut node_c) = three_pushed();
    assert_eq!(queue.to_vec(), vec![21, 42, 32]);
    queue.revoke(&mut node_c);
    assert_eq!(queue.to_vec(), vec![42, 32]);

    assert!(queue.neighbours(&node_a).0);
    assert!(!queue.neighbours(&node_a).1);

    assert!(!queue.neighbours(&node_b).0);
    assert!(queue.neighbours(&node_b).1);

    assert!(!queue.neighbours(&node_c).1);
    assert!(!queue.neighbours(&node_c).0);
}

#[test]
fn intrusive_linked_list_revoke_tail() {
    let (mut queue, mut node_a, node_b, node_c) = three_pushed();
    assert_eq!(queue.to_vec(), vec![21, 42, 32]);
    queue.revoke(&mut node_a);
    assert_eq!(queue.to_vec(), vec![21, 42]);

    assert!(!queue.neighbours(&node_a).0);
    assert!(!queue.neighbours(&node_a).1);

    assert!(queue.neighbours(&node_b).0);
    assert!(!queue.neighbours(&node_b).1);

    assert!(queue.neighbours(&node_c).1);
    assert!(!queue.neighbours(&node_c).0);
}

#[test]
fn intrusive_linked_list_revoke_middle() {
    let (mut queue, node_a, mut node_b, node_c) = three_pushed();
    assert_eq!(queue.to_vec(), vec![21, 42, 32]);
    queue.revoke(&mut node_b);
    assert_eq!(queue.to_vec(), vec![21, 32]);

    assert!(queue.neighbours(&node_a).0);
    assert!(!queue.neighbours(&node_a).1);

    assert!(!queue.neighbours(&node_b).0);
    assert!(!queue.neighbours(&node_b).1);

    assert!(queue.neighbours(&node_c).1);
    assert!(!queue.neighbours(&node_c).0);
}

#[test]
fn intrusive_linked_list_drop_test() {
    let (mut queue, _a, mut node_b, _c) = three_pushed();
    assert_eq!(queue.to_vec(), vec![21, 42, 32]);
    // a token that goes away takes its node off the list
    queue.revoke(&mut node_b);
    assert_eq!(queue.to_vec(), vec![21, 32]);
}

#[test]
fn intrusive_linked_list_pop() {
    let (mut queue, _a, _b, _c) = three_pushed();
    assert_eq!(queue.to_vec(), vec![21, 42, 32]);

    assert!(queue.pop(|v| assert_eq!(*v, 32)).is_some());
    assert_eq!(queue.to_vec(), vec![21, 42]);
    assert!(queue.pop(|v| assert_eq!(*v, 42)).is_some());
    assert_eq!(queue.to_vec(), vec![21]);
    assert!(queue.pop(|v| assert_eq!(*v, 21)).is_some());
    assert_eq!(queue.to_vec(), Vec::<i32>::new());
}

#[test]
fn mod_it_works() {
    let mut ill = IntrusiveLinkedList::new();
    let mut node_a = Node::new(42);
    let mut node_b = Node::new(32);
    ill.push(&mut node_a);
    ill.push(&mut node_b);
    assert_eq!(ill.pop_clone(), Some(42));
    assert_eq!(ill.pop_clone(), Some(32));
}

#[test]
fn mod_basic_push() {
    let (queue, _a, _b, _c) = three_pushed();
    let elements = queue.to_vec();
    assert_eq!(elements, vec![21, 42, 32]);
}

#[test]
fn mod_revoke_head() {
    let (mut queue, node_a, node_b, mut node_c) = three_pushed();
    assert_eq!(queue.to_vec(), vec![21, 42, 32]);
    assert!(queue.revoke(&mut node_c));
    assert_eq!(queue.to_vec(), vec![42, 32]);

    assert!(queue.neighbours(&node_a).0);
    assert!(!queue.neighbours(&node_a).1);

    assert!(!queue.neighbours(&node_b).0);
    assert!(queue.neighbours(&node_b).1);

    assert!(!queue.neighbours(&node_c).1);
    assert!(!queue.neighbours(&node_c).0);
}

#[test]
fn mod_revoke_tail() {
    let (mut queue, mut node_a, node_b, node_c) = three_pushed();
    assert_eq!(queue.to_vec(), vec![21, 42, 32]);
    assert!(queue.revoke(&mut node_a));
    assert_eq!(queue.to_vec(), vec![21, 42]);

    assert!(!queue.neighbours(&node_a).0);
    assert!(!queue.neighbours(&node_a).1);

    assert!(queue.neighbours(&node_b).0);
    assert!(!queue.neighbours(&node_b).1);

    assert!(queue.neighbours(&node_c).1);
    assert!(!queue.neighbours(&node_c).0);
}

#[test]
fn mod_revoke_middle() {
    let (mut queue, node_a, mut node_b, node_c) = three_pushed();
    assert_eq!(queue.to_vec(), vec![21, 42, 32]);
    assert!(queue.revoke(&mut node_b));
    assert_eq!(queue.to_vec(), vec![21, 32]);

    assert!(queue.neighbours(&node_a).0);
    assert!(!queue.neighbours(&node_a).1);

    assert!(!queue.neighbours(&node_b).0);
    assert!(!queue.neighbours(&node_b).1);

    assert!(queue.neighbours(&node_c).1);
    assert!(!queue.neighbours(&node_c).0);
}

#[test]
fn mod_drop_test() {
    let mut queue = IntrusiveLinkedList::new();
    let mut node_a = IntrusiveLinkedList::build_node(32);
    queue.push(&mut node_a);
    let mut node_c = IntrusiveLinkedList::build_node(21);
    {
        let mut node_b = IntrusiveLinkedList::build_node(42);
        queue.push(&mut node_b);
        queue.push(&mut node_c);

        assert_eq!(queue.to_vec(), vec![21, 42, 32]);
        // the token of node b goes out of scope here, which revokes it
        queue.revoke(&mut node_b);
    }
    assert_eq!(queue.to_vec(), vec![21, 32]);
}

#[test]
fn mod_pop() {
    let (mut queue, _a, _b, _c) = three_pushed();
    assert_eq!(queue.to_vec(), vec![21, 42, 32]);

    queue.pop_if(
        |v, len| {
            assert_eq!(*v, 32);
            assert_eq!(len, 3);
            Some(())
        },
        || panic!("shouldn't fail"),
    );
    assert_eq!(queue.to_vec(), vec![21, 42]);
    queue.pop_if(
        |v, len| {
            assert_eq!(*v, 42);
            assert_eq!(len, 2);
            Some(())
        },
        || panic!("shouldn't fail"),
    );
    assert_eq!(queue.to_vec(), vec![21]);
    queue.pop_if(
        |v, len| {
            assert_eq!(*v, 21);
            assert_eq!(len, 1);
            Some(())
        },
        || panic!("shouldn't fail"),
    );
    assert_eq!(queue.to_vec(), Vec::<i32>::new());
    let did_fail = Cell::new(false);
    queue.pop_if(
        |_v, _len| -> Option<()> { panic!("shouldn't pop") },
        || {
            did_fail.set(true);
        },
    );
    assert!(did_fail.get());
}

#[test]
fn pop_if_keeps_tail_when_refused() {
    let (mut queue, _a, _b, _c) = three_pushed();
    let r: Option<i32> = queue.pop_if(|_, _| None, || {});
    assert_eq!(r, None);
    assert_eq!(queue.to_vec(), vec![21, 42, 32]);
    assert_eq!(queue.len(), 3);
}

#[test]
fn push_if_refused_leaves_node_clean() {
    let mut queue = IntrusiveLinkedList::new();
    let mut node = IntrusiveLinkedList::build_node(7);
    assert!(!queue.push_if(&mut node, || false));
    assert!(node.is_clean());
    assert_eq!(queue.len(), 0);
    assert!(queue.push_if(&mut node, || true));
    assert!(!node.is_clean());
    assert_eq!(queue.to_vec(), vec![7]);
}

#[test]
fn revoke_of_popped_node_reports_false() {
    let mut queue = IntrusiveLinkedList::new();
    let mut node = IntrusiveLinkedList::build_node(5);
    queue.push(&mut node);
    assert_eq!(queue.pop_clone(), Some(5));
    assert!(!queue.revoke(&mut node));
    assert_eq!(queue.len(), 0);
}

#[test]
fn revoke_of_popped_node_leaves_a_later_waiter_queued() {
    let mut queue = IntrusiveLinkedList::new();
    let mut first = IntrusiveLinkedList::build_node(5);
    queue.push(&mut first);
    assert_eq!(queue.pop_clone(), Some(5));
    let mut second = IntrusiveLinkedList::build_node(6);
    queue.push(&mut second);
    assert!(!queue.revoke(&mut first));
    assert_eq!(queue.to_vec(), vec![6]);
}

#[test]
fn node_that_left_the_list_is_pushed_again() {
    let mut queue = IntrusiveLinkedList::new();
    let mut node = IntrusiveLinkedList::build_node(5);
    let mut other = IntrusiveLinkedList::build_node(7);
    queue.push(&mut node);
    queue.push(&mut other);
    assert!(queue.revoke(&mut node));
    queue.push(&mut node);
    assert_eq!(queue.to_vec(), vec![5, 7]);
    assert_eq!(queue.pop_clone(), Some(7));
    assert_eq!(queue.pop_clone(), Some(5));
    node.put_data(8);
    assert!(queue.push_if(&mut node, || true));
    assert_eq!(queue.to_vec(), vec![8]);
}
