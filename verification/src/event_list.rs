//! The wait list of an event.
//!
//! Waiters push themselves at the head; a notifier pops from the tail, so the
//! waiter that came first is woken first. A waiter that gives up takes its own
//! node off the list again wherever it stands.
use crate::intrusive_list::{has_key, payloads, position_of, removed_node, IntrusiveList, Node};
use vstd::prelude::*;

verus! {

/// The wait list of an event.
#[derive(Debug)]
pub struct IntrusiveLinkedList<T> {
    list: IntrusiveList<T>,
}

impl<T> View for IntrusiveLinkedList<T> {
    type V = Seq<(usize, T)>;

    closed spec fn view(&self) -> Seq<(usize, T)> {
        self.list@
    }
}

impl<T> IntrusiveLinkedList<T> {
    /// How many keys the list has handed out: one for each push.
    pub closed spec fn keys_used(&self) -> nat {
        self.list.keys_used()
    }

    /// Every key on the list was handed out before: it is below the number
    /// of keys used, so no later push can hand it out again.
    pub open spec fn keys_below(&self) -> bool {
        forall|i: int| 0 <= i < self@.len() ==> #[trigger] self@[i].0 < self.keys_used()
    }

    /// True while the list can hand out a key it never gave before.
    pub open spec fn has_fresh_key(&self) -> bool {
        self.keys_used() < usize::MAX
    }

    /// True when the node stands on this list.
    pub open spec fn holds(&self, node: &Node<T>) -> bool {
        node.key_view() is Some && has_key(self@, node.key_view().unwrap())
    }

    /// An empty list.
    pub fn new() -> (r: Self)
        ensures
            r@ == Seq::<(usize, T)>::empty(),
            r.keys_used() == 0,
            r.keys_below(),
    {
        IntrusiveLinkedList { list: IntrusiveList::new() }
    }

    /// Whether the list can hand out a fresh key, as every push needs.
    pub fn can_push(&self) -> (r: bool)
        ensures
            r == self.has_fresh_key(),
            self.keys_below(),
    {
        self.list.can_push()
    }

    /// A node for `data`, not yet on the list.
    pub fn build_node(data: T) -> (r: Node<T>)
        ensures
            r.data_view() == Some(data),
            r.key_view() is None,
    {
        Node::new(data)
    }

    /// Pushes the node at the head, under a fresh key. The node may have
    /// been on this list before, as long as it is not on it now.
    pub fn push(&mut self, node: &mut Node<T>)
        requires
            old(node).data_view() is Some,
            !old(self).holds(old(node)),
            old(self).has_fresh_key(),
        ensures
            final(node).key_view() == Some(old(self).keys_used() as usize),
            !has_key(old(self)@, final(node).key_view().unwrap()),
            final(self)@ == seq![
                (final(node).key_view().unwrap(), old(node).data_view().unwrap()),
            ] + old(self)@,
            final(self).holds(final(node)),
            final(self).keys_used() == old(self).keys_used() + 1,
            final(self).keys_below(),
    {
        node.forget_key();
        let _ = self.list.push_head(node);
        proof {
            assert(final(self)@[0].0 == final(node).key_view().unwrap());
        }
    }

    /// Pushes the node at the head if `condition` says so; true when it did.
    /// The node may have been on this list before, as long as it is not on
    /// it now.
    pub fn push_if(&mut self, node: &mut Node<T>, condition: impl Fn() -> bool) -> (r: bool)
        requires
            old(node).data_view() is Some,
            !old(self).holds(old(node)),
            old(self).has_fresh_key(),
            condition.requires(()),
        ensures
            condition.ensures((), r),
            !r ==> final(self)@ == old(self)@ && *final(node) == *old(node)
                && final(self).keys_used() == old(self).keys_used(),
            r ==> final(self).keys_used() == old(self).keys_used() + 1,
            r ==> final(node).key_view() == Some(old(self).keys_used() as usize) && !has_key(
                old(self)@,
                final(node).key_view().unwrap(),
            ) && final(self)@ == seq![
                (final(node).key_view().unwrap(), old(node).data_view().unwrap()),
            ] + old(self)@,
            final(self).keys_below(),
    {
        let should_push = condition();
        if should_push {
            node.forget_key();
        }
        let pushed = self.list.push_head_if(node, should_push);
        proof {
            if should_push {
                assert(final(self)@[0].0 == final(node).key_view().unwrap());
            }
        }
        pushed.is_ok()
    }

    /// Looks at the tail with `condition`, given the number of entries; pops
    /// the tail when `condition` answers `Some` and hands that answer back.
    /// On an empty list `on_empty` runs and the result is `None`.
    pub fn pop_if<R, F: FnOnce(&T, usize) -> Option<R>, E: FnOnce()>(
        &mut self,
        condition: F,
        on_empty: E,
    ) -> (r: Option<R>)
        requires
            forall|t: &T, n: usize| #[trigger] condition.requires((t, n)),
            on_empty.requires(()),
        ensures
            old(self)@.len() == 0 ==> r is None && final(self)@ == old(self)@ && on_empty.ensures(
                (),
                (),
            ),
            old(self)@.len() > 0 ==> condition.ensures(
                (&old(self)@.last().1, old(self)@.len() as usize),
                r,
            ),
            old(self)@.len() > 0 && r is Some ==> final(self)@ == old(self)@.drop_last(),
            old(self)@.len() > 0 && r is None ==> final(self)@ == old(self)@,
            final(self).keys_used() == old(self).keys_used(),
            final(self).keys_below(),
    {
        let n = self.list.count();
        if n == 0 {
            on_empty();
            return None;
        }
        let r = self.list.with_tail(condition);
        if r.is_some() {
            let _ = self.list.pop_tail();
        }
        r
    }

    /// The tail payload, if any.
    pub fn peek_tail(&self) -> (r: Option<&T>)
        ensures
            self@.len() == 0 ==> r is None,
            self@.len() > 0 ==> r == Some(&self@.last().1),
    {
        self.list.peek_tail()
    }

    /// Pops the tail and hands back its payload.
    pub fn pop_tail(&mut self) -> (r: Option<T>)
        ensures
            old(self)@.len() == 0 ==> r is None && final(self)@ == old(self)@,
            old(self)@.len() > 0 ==> r == Some(old(self)@.last().1) && final(self)@ == old(self)@.drop_last(),
            final(self).keys_used() == old(self).keys_used(),
            final(self).keys_below(),
    {
        self.list.pop_tail()
    }

    /// Pops the tail and hands back what `on_pop` makes of it.
    pub fn pop<R, F: FnOnce(&T) -> R>(&mut self, on_pop: F) -> (r: Option<R>)
        requires
            forall|t: &T| #[trigger] on_pop.requires((t,)),
        ensures
            old(self)@.len() == 0 ==> r is None && final(self)@ == old(self)@,
            old(self)@.len() > 0 ==> r is Some && on_pop.ensures(
                (&old(self)@.last().1,),
                r.unwrap(),
            ) && final(self)@ == old(self)@.drop_last(),
            final(self).keys_below(),
    {
        match self.list.pop_tail() {
            None => None,
            Some(d) => Some(on_pop(&d)),
        }
    }

    /// Pops the tail and hands back a clone of it.
    pub fn pop_clone(&mut self) -> (r: Option<T>)
        where T: Clone,
        ensures
            old(self)@.len() == 0 ==> r is None && final(self)@ == old(self)@,
            old(self)@.len() > 0 ==> r is Some && cloned::<T>(old(self)@.last().1, r.unwrap())
                && final(self)@ == old(self)@.drop_last(),
            final(self).keys_below(),
    {
        match self.list.pop_tail() {
            None => None,
            Some(d) => Some(d.clone()),
        }
    }

    /// Takes the node off the list and gives it its payload back; true when
    /// it stood on the list, false when it did not.
    pub fn revoke(&mut self, node: &mut Node<T>) -> (r: bool)
        ensures
            r == (old(node).key_view() is Some && has_key(old(self)@, old(node).key_view().unwrap())),
            final(self)@ == removed_node(old(self)@, old(node).key_view()),
            !final(self).holds(final(node)),
            final(node).key_view() == old(node).key_view(),
            r ==> final(node).data_view() == Some(
                old(self)@[position_of(old(self)@, old(node).key_view().unwrap())].1,
            ),
            final(self).keys_used() == old(self).keys_used(),
            final(self).keys_below(),
    {
        self.list.take_off(node)
    }

    /// The number of entries.
    pub fn len(&self) -> (r: usize)
        ensures
            r == self@.len(),
            self.keys_below(),
    {
        self.list.count()
    }

    /// Clones of the payloads from head to tail.
    pub fn to_vec(&self) -> (r: Vec<T>)
        where T: Clone,
        ensures
            r@.len() == self@.len(),
            forall|i: int| 0 <= i < r@.len() ==> cloned::<T>(#[trigger] self@[i].1, r@[i]),
    {
        self.list.to_vec()
    }

    /// Whether the node has a neighbour toward the head and one toward the
    /// tail; a node that is not on the list has neither.
    pub fn neighbours(&self, node: &Node<T>) -> (r: (bool, bool))
        ensures
            !self.holds(node) ==> r == (false, false),
            self.holds(node) ==> r == (
                position_of(self@, node.key_view().unwrap()) > 0,
                position_of(self@, node.key_view().unwrap()) < self@.len() - 1,
            ),
    {
        self.list.neighbours(node)
    }
}

/// A node that has left the list stays off it until it is pushed again:
/// a push hands out the number of keys used so far as its key, which is
/// above every key handed out before, so it never brings a left key back.
/// Revoking such a node therefore reports false and changes nothing.
pub proof fn lemma_left_node_stays_off<T>(s: Seq<(usize, T)>, used: nat, k: usize, e: (usize, T))
    requires
        !has_key(s, k),
        k < used,
        e.0 == used,
    ensures
        !has_key(seq![e] + s, k),
        removed_node(seq![e] + s, Some(k)) == seq![e] + s,
{
    let t = seq![e] + s;
    if has_key(t, k) {
        let i = choose|i: int| 0 <= i < t.len() && #[trigger] t[i].0 == k;
        assert(i != 0);
        assert(s[i - 1].0 == k);
    }
}

} // verus!
