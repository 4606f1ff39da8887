//! A double ended wait list.
//!
//! Nodes are built by the waiting side and handed to a list; the list keeps
//! their payloads in order from head to tail. A node remembers the key that
//! the list gave it when it was pushed, so that it can later be taken off the
//! list again wherever it stands. A node that has been pushed once can never be
//! pushed again: it is dirty from then on.
use vstd::prelude::*;

verus! {

/// Why a push did not put the node on the list.
#[derive(Debug, PartialEq, Eq, Structural)]
pub enum Error {
    /// The node was pushed before.
    DirtyNode,
    /// The caller's condition asked not to push.
    AbortedPush,
}

/// What a scan does with the node it is looking at.
#[derive(Debug, PartialEq, Eq, Structural)]
pub enum NodeAction {
    Retain,
    Remove,
}

/// Whether a scan goes on past the node it is looking at.
#[derive(Debug, PartialEq, Eq, Structural)]
pub enum ScanAction {
    Continue,
    Stop,
}

/// True when some entry of `s` carries the key `k`.
pub open spec fn has_key<D>(s: Seq<(usize, D)>, k: usize) -> bool {
    exists|i: int| 0 <= i < s.len() && #[trigger] s[i].0 == k
}

/// The payloads of `s`, from head to tail.
pub open spec fn payloads<D>(s: Seq<(usize, D)>) -> Seq<D> {
    s.map_values(|e: (usize, D)| e.1)
}

/// A waiting entry that is not on any list yet, or that was pushed once.
#[derive(Debug)]
pub struct Node<D> {
    data: Option<D>,
    key: Option<usize>,
}

impl<D> Node<D> {
    /// The payload that the node still holds.
    pub closed spec fn data_view(&self) -> Option<D> {
        self.data
    }

    /// The key that a list gave the node, if it was ever pushed.
    pub closed spec fn key_view(&self) -> Option<usize> {
        self.key
    }

    /// True when the node stands on `list`.
    pub open spec fn is_on(&self, list: &IntrusiveList<D>) -> bool {
        self.key_view() is Some && has_key(list@, self.key_view().unwrap())
    }

    /// A fresh node that holds `data` and was never pushed.
    pub fn new(data: D) -> (r: Self)
        ensures
            r.data_view() == Some(data),
            r.key_view() is None,
    {
        Node { data: Some(data), key: None }
    }

    /// True when the node was never pushed, so that a push can take it.
    pub fn is_clean(&self) -> (r: bool)
        ensures
            r == (self.key_view() is None),
    {
        self.key.is_none()
    }

    /// True when the node stands on `list`.
    pub fn is_on_list(&self, list: &IntrusiveList<D>) -> (r: bool)
        ensures
            r == self.is_on(list),
    {
        match self.key {
            None => false,
            Some(k) => list.contains_key(k),
        }
    }

    /// Takes the payload out of the node.
    pub fn take_data(&mut self) -> (r: Option<D>)
        ensures
            r == old(self).data_view(),
            final(self).data_view() is None,
            final(self).key_view() == old(self).key_view(),
    {
        self.data.take()
    }

    /// Lets the node forget the key of a list it has left, so that it can be
    /// pushed again under a fresh key.
    pub(crate) fn forget_key(&mut self)
        ensures
            final(self).data_view() == old(self).data_view(),
            final(self).key_view() is None,
    {
        self.key = None;
    }

    /// Puts a payload back into the node.
    pub fn put_data(&mut self, data: D)
        ensures
            final(self).data_view() == Some(data),
            final(self).key_view() == old(self).key_view(),
    {
        self.data = Some(data);
    }

    /// Takes the node off `list` if it stands there and hands back the
    /// payload that the node then holds.
    ///
    /// A node at either end of the list is taken off by popping that end,
    /// which drops its payload, so only a node from the middle of the list
    /// gives its payload back.
    pub fn revoke(self, list: &mut IntrusiveList<D>) -> (r: Option<D>)
        ensures
            final(list)@ == removed_node(old(list)@, self.key_view()),
            final(list).keys_used() == old(list).keys_used(),
            final(list).keys_below(),
            r == revoked_payload(old(list)@, self.data_view(), self.key_view()),
    {
        proof {
            use_type_invariant(&*list);
        }
        let mut node = self;
        if !node.is_on_list(list) {
            return None;
        }
        list.remove_node(&mut node);
        node.data.take()
    }
}

/// The position of key `k` in `s`, where it stands there.
pub open spec fn position_of<D>(s: Seq<(usize, D)>, k: usize) -> int {
    choose|i: int| 0 <= i < s.len() && s[i].0 == k
}

/// The entries of `s` once the entry keyed `key` is taken off, if it is there.
pub open spec fn removed_node<D>(s: Seq<(usize, D)>, key: Option<usize>) -> Seq<(usize, D)> {
    if key is Some && has_key(s, key.unwrap()) {
        s.remove(position_of(s, key.unwrap()))
    } else {
        s
    }
}

/// True when the entry keyed `k` stands strictly between the two ends of `s`.
pub open spec fn in_middle<D>(s: Seq<(usize, D)>, k: usize) -> bool {
    has_key(s, k) && 0 < position_of(s, k) < s.len() - 1
}

/// The payload that a node holds once `remove_node` took it off `s`.
pub open spec fn payload_after_remove<D>(s: Seq<(usize, D)>, data: Option<D>, key: Option<usize>) -> Option<D> {
    if key is Some && in_middle(s, key.unwrap()) {
        Some(s[position_of(s, key.unwrap())].1)
    } else {
        data
    }
}

/// What `revoke` gives back for a node holding `data` under `key`.
pub open spec fn revoked_payload<D>(s: Seq<(usize, D)>, data: Option<D>, key: Option<usize>) -> Option<D> {
    if key is Some && has_key(s, key.unwrap()) {
        payload_after_remove(s, data, key)
    } else {
        None
    }
}

/// A list of waiting payloads, each under a key that no other entry carries.
#[derive(Debug)]
pub struct IntrusiveList<D> {
    entries: Vec<(usize, D)>,
    next_key: usize,
}

impl<D> View for IntrusiveList<D> {
    type V = Seq<(usize, D)>;

    closed spec fn view(&self) -> Seq<(usize, D)> {
        self.entries@
    }
}

impl<D> IntrusiveList<D> {
    #[verifier::type_invariant]
    closed spec fn keys_are_fresh(self) -> bool {
        &&& forall|i: int, j: int|
            0 <= i < j < self.entries@.len() ==> self.entries@[i].0 != self.entries@[j].0
        &&& forall|i: int| 0 <= i < self.entries@.len() ==> self.entries@[i].0 < self.next_key
        &&& self.entries@.len() <= self.next_key
    }

    /// How many keys the list has handed out: one for each successful push.
    pub closed spec fn keys_used(&self) -> nat {
        self.next_key as nat
    }

    /// Every key on the list was handed out before: it is below the number
    /// of keys used, so no later push can hand it out again.
    pub open spec fn keys_below(&self) -> bool {
        forall|i: int| 0 <= i < self@.len() ==> #[trigger] self@[i].0 < self.keys_used()
    }

    /// True while the list can still hand out a key that it never gave before.
    pub open spec fn has_fresh_key(&self) -> bool {
        self.keys_used() < usize::MAX
    }

    /// Keys that differ pairwise in order differ pairwise in any order.
    proof fn lemma_keys_unique(s: Seq<(usize, D)>)
        requires
            forall|i: int, j: int| 0 <= i < j < s.len() ==> s[i].0 != s[j].0,
        ensures
            forall|i: int, j: int|
                0 <= i < s.len() && 0 <= j < s.len() && i != j ==> s[i].0 != s[j].0,
    {
        assert forall|i: int, j: int|
            0 <= i < s.len() && 0 <= j < s.len() && i != j implies s[i].0 != s[j].0 by {
            if i > j {
                assert(s[j].0 != s[i].0);
            }
        }
    }

    /// Moves the entries out, leaving the list empty for the moment.
    fn take_entries(&mut self) -> (r: Vec<(usize, D)>)
        ensures
            r@ == old(self)@,
            final(self)@ == Seq::<(usize, D)>::empty(),
            final(self).next_key == old(self).next_key,
    {
        let mut entries: Vec<(usize, D)> = Vec::new();
        std::mem::swap(&mut entries, &mut self.entries);
        entries
    }

    /// Whether the list can hand out a fresh key, as every push needs.
    pub fn can_push(&self) -> (r: bool)
        ensures
            r == self.has_fresh_key(),
            self.keys_below(),
    {
        proof {
            use_type_invariant(self);
        }
        self.next_key < usize::MAX
    }

    /// An empty list.
    pub fn new() -> (r: Self)
        ensures
            r@ == Seq::<(usize, D)>::empty(),
            r.keys_used() == 0,
            r.keys_below(),
    {
        IntrusiveList { entries: Vec::new(), next_key: 0 }
    }

    /// How many entries the list holds.
    pub fn count(&self) -> (r: usize)
        ensures
            r == self@.len(),
            self.keys_below(),
    {
        proof {
            use_type_invariant(self);
        }
        self.entries.len()
    }

    /// The payloads from head to tail.
    pub fn to_vec(&self) -> (r: Vec<D>)
        where D: Clone,
        ensures
            r@.len() == self@.len(),
            forall|i: int| 0 <= i < r@.len() ==> cloned::<D>(#[trigger] self@[i].1, r@[i]),
    {
        let mut out: Vec<D> = Vec::new();
        let mut i: usize = 0;
        while i < self.entries.len()
            invariant
                i <= self.entries@.len(),
                out@.len() == i,
                forall|j: int| 0 <= j < i ==> cloned::<D>(#[trigger] self.entries@[j].1, out@[j]),
            decreases self.entries@.len() - i,
        {
            let d = self.entries[i].1.clone();
            out.push(d);
            i = i + 1;
        }
        out
    }

    /// True when some entry carries key `k`.
    pub fn contains_key(&self, k: usize) -> (r: bool)
        ensures
            r == has_key(self@, k),
    {
        match self.find(k) {
            Some(_) => true,
            None => false,
        }
    }

    /// The position of the entry keyed `k`.
    fn find(&self, k: usize) -> (r: Option<usize>)
        ensures
            r is Some ==> has_key(self@, k) && r.unwrap() < self@.len() && self@[r.unwrap()
                as int].0 == k && r.unwrap() == position_of(self@, k),
            r is None ==> !has_key(self@, k),
    {
        proof {
            use_type_invariant(self);
            Self::lemma_keys_unique(self.entries@);
        }
        let mut i: usize = 0;
        while i < self.entries.len()
            invariant
                i <= self.entries@.len(),
                forall|j: int| 0 <= j < i ==> self.entries@[j].0 != k,
                forall|a: int, b: int|
                    0 <= a < self.entries@.len() && 0 <= b < self.entries@.len() && a != b
                        ==> self.entries@[a].0 != self.entries@[b].0,
            decreases self.entries@.len() - i,
        {
            if self.entries[i].0 == k {
                proof {
                    assert(self@[i as int].0 == k);
                    let p = position_of(self@, k);
                    assert(has_key(self@, k));
                    assert(0 <= p < self@.len() && self@[p].0 == k);
                    if p != i {
                        assert(self@[p].0 != self@[i as int].0);
                    }
                }
                return Some(i);
            }
            i = i + 1;
        }
        None
    }

    /// Pushes the node's payload at the head, under a key that the node keeps.
    ///
    /// Fails with `DirtyNode`, and changes nothing, when the node was pushed
    /// before; otherwise hands back the new number of entries.
    pub fn push_head(&mut self, node: &mut Node<D>) -> (r: Result<usize, Error>)
        requires
            old(node).key_view() is None ==> old(node).data_view() is Some,
            old(node).key_view() is None ==> old(self).has_fresh_key(),
        ensures
            old(node).key_view() is Some ==> r == Err::<usize, Error>(Error::DirtyNode) && final(self)@ == old(self)@ && *final(node) == *old(node) && final(self).keys_used() == old(self).keys_used(),
            old(node).key_view() is None ==> {
                &&& r is Ok && r.unwrap() == final(self)@.len()
                &&& final(self).keys_used() == old(self).keys_used() + 1
                &&& final(node).key_view() == Some(old(self).keys_used() as usize)
                &&& final(node).data_view() is None
                &&& !has_key(old(self)@, final(node).key_view().unwrap())
                &&& final(self)@ == seq![
                    (final(node).key_view().unwrap(), old(node).data_view().unwrap()),
                ] + old(self)@
            },
            final(self).keys_below(),
    {
        proof {
            use_type_invariant(&*self);
        }
        if node.key.is_some() {
            return Err(Error::DirtyNode);
        }
        let k = self.next_key;
        let data = node.data.take().unwrap();
        self.next_key = k + 1;
        proof {
            assert(!has_key(self@, k));
        }
        let mut entries = self.take_entries();
        let ghost old_entries = entries@;
        entries.insert(0, (k, data));
        proof {
            assert(entries@ == seq![(k, data)] + old_entries);
        }
        let n = entries.len();
        self.entries = entries;
        node.key = Some(k);
        Ok(n)
    }

    /// Pushes the node's payload at the tail, under a key that the node keeps.
    ///
    /// Fails with `DirtyNode`, and changes nothing, when the node was pushed
    /// before; otherwise hands back the new number of entries.
    pub fn push_tail(&mut self, node: &mut Node<D>) -> (r: Result<usize, Error>)
        requires
            old(node).key_view() is None ==> old(node).data_view() is Some,
            old(node).key_view() is None ==> old(self).has_fresh_key(),
        ensures
            old(node).key_view() is Some ==> r == Err::<usize, Error>(Error::DirtyNode) && final(self)@ == old(self)@ && *final(node) == *old(node) && final(self).keys_used() == old(self).keys_used(),
            old(node).key_view() is None ==> {
                &&& r is Ok && r.unwrap() == final(self)@.len()
                &&& final(self).keys_used() == old(self).keys_used() + 1
                &&& final(node).key_view() == Some(old(self).keys_used() as usize)
                &&& final(node).data_view() is None
                &&& !has_key(old(self)@, final(node).key_view().unwrap())
                &&& final(self)@ == old(self)@.push(
                    (final(node).key_view().unwrap(), old(node).data_view().unwrap()),
                )
            },
            final(self).keys_below(),
    {
        proof {
            use_type_invariant(&*self);
        }
        if node.key.is_some() {
            return Err(Error::DirtyNode);
        }
        let k = self.next_key;
        let data = node.data.take().unwrap();
        self.next_key = k + 1;
        proof {
            assert(!has_key(self@, k));
        }
        let mut entries = self.take_entries();
        entries.push((k, data));
        let n = entries.len();
        self.entries = entries;
        node.key = Some(k);
        Ok(n)
    }

    /// The critical step of a guarded push at the head: when the caller's
    /// condition said not to push, the push is aborted and nothing changes;
    /// otherwise it is `push_head`.
    pub fn push_head_if(&mut self, node: &mut Node<D>, should_push: bool) -> (r: Result<usize, Error>)
        requires
            old(node).key_view() is None ==> old(node).data_view() is Some,
            old(node).key_view() is None ==> old(self).has_fresh_key(),
        ensures
            !should_push ==> r == Err::<usize, Error>(Error::AbortedPush) && final(self)@ == old(self)@
                && *final(node) == *old(node) && final(self).keys_used() == old(self).keys_used(),
            should_push && old(node).key_view() is Some ==> r == Err::<usize, Error>(Error::DirtyNode)
                && final(self)@ == old(self)@ && *final(node) == *old(node)
                && final(self).keys_used() == old(self).keys_used(),
            should_push && old(node).key_view() is None ==> {
                &&& r is Ok && r.unwrap() == final(self)@.len()
                &&& final(self).keys_used() == old(self).keys_used() + 1
                &&& final(node).key_view() == Some(old(self).keys_used() as usize)
                &&& !has_key(old(self)@, final(node).key_view().unwrap())
                &&& final(self)@ == seq![
                    (final(node).key_view().unwrap(), old(node).data_view().unwrap()),
                ] + old(self)@
            },
            final(self).keys_below(),
    {
        proof {
            use_type_invariant(&*self);
        }
        if !should_push {
            return Err(Error::AbortedPush);
        }
        self.push_head(node)
    }

    /// The critical step of a guarded push at the tail; see `push_head_if`.
    pub fn push_tail_if(&mut self, node: &mut Node<D>, should_push: bool) -> (r: Result<usize, Error>)
        requires
            old(node).key_view() is None ==> old(node).data_view() is Some,
            old(node).key_view() is None ==> old(self).has_fresh_key(),
        ensures
            !should_push ==> r == Err::<usize, Error>(Error::AbortedPush) && final(self)@ == old(self)@
                && *final(node) == *old(node) && final(self).keys_used() == old(self).keys_used(),
            should_push && old(node).key_view() is Some ==> r == Err::<usize, Error>(Error::DirtyNode)
                && final(self)@ == old(self)@ && *final(node) == *old(node)
                && final(self).keys_used() == old(self).keys_used(),
            should_push && old(node).key_view() is None ==> {
                &&& r is Ok && r.unwrap() == final(self)@.len()
                &&& final(self).keys_used() == old(self).keys_used() + 1
                &&& final(node).key_view() == Some(old(self).keys_used() as usize)
                &&& !has_key(old(self)@, final(node).key_view().unwrap())
                &&& final(self)@ == old(self)@.push(
                    (final(node).key_view().unwrap(), old(node).data_view().unwrap()),
                )
            },
            final(self).keys_below(),
    {
        proof {
            use_type_invariant(&*self);
        }
        if !should_push {
            return Err(Error::AbortedPush);
        }
        self.push_tail(node)
    }

    /// Takes the head entry off and hands back its payload.
    pub fn pop_head(&mut self) -> (r: Option<D>)
        ensures
            old(self)@.len() == 0 ==> r is None && final(self)@ == old(self)@,
            old(self)@.len() > 0 ==> r == Some(old(self)@[0].1) && final(self)@ == old(self)@.subrange(1, old(self)@.len() as int),
            final(self).keys_used() == old(self).keys_used(),
            final(self).keys_below(),
    {
        proof {
            use_type_invariant(&*self);
        }
        if self.entries.len() == 0 {
            return None;
        }
        let mut entries = self.take_entries();
        let ghost old_entries = entries@;
        let (_, data) = entries.remove(0);
        proof {
            assert(entries@ == old_entries.subrange(1, old_entries.len() as int));
        }
        self.entries = entries;
        Some(data)
    }

    /// Takes the tail entry off and hands back its payload.
    pub fn pop_tail(&mut self) -> (r: Option<D>)
        ensures
            old(self)@.len() == 0 ==> r is None && final(self)@ == old(self)@,
            old(self)@.len() > 0 ==> r == Some(old(self)@.last().1) && final(self)@ == old(self)@.drop_last(),
            final(self).keys_used() == old(self).keys_used(),
            final(self).keys_below(),
    {
        proof {
            use_type_invariant(&*self);
        }
        let mut entries = self.take_entries();
        let r = match entries.pop() {
            None => None,
            Some((_, data)) => Some(data),
        };
        self.entries = entries;
        r
    }

    /// Takes the node off the list if it stands there.
    ///
    /// The head and the tail are popped, which drops their payload; a node
    /// from the middle gets its payload back.
    pub fn remove_node(&mut self, node: &mut Node<D>)
        ensures
            final(self)@ == removed_node(old(self)@, old(node).key_view()),
            final(node).key_view() == old(node).key_view(),
            final(node).data_view() == payload_after_remove(
                old(self)@,
                old(node).data_view(),
                old(node).key_view(),
            ),
            final(self).keys_used() == old(self).keys_used(),
            final(self).keys_below(),
    {
        proof {
            use_type_invariant(&*self);
            Self::lemma_keys_unique(self.entries@);
        }
        let k = match node.key {
            None => { return; },
            Some(k) => k,
        };
        let pos = match self.find(k) {
            None => { return; },
            Some(p) => p,
        };
        let len = self.entries.len();
        let ghost old_entries = self.entries@;
        if pos == 0 {
            self.pop_head();
            proof {
                assert(old_entries.remove(0) == old_entries.subrange(1, old_entries.len() as int));
            }
        } else if pos == len - 1 {
            self.pop_tail();
            proof {
                assert(old_entries.remove(pos as int) == old_entries.drop_last());
            }
        } else {
            let mut entries = self.take_entries();
            let (_, data) = entries.remove(pos);
            self.entries = entries;
            node.data = Some(data);
        }
    }

    /// Pops every entry from the tail and hands back their payloads in the
    /// order they were popped, the tail's first.
    pub fn pop_all(&mut self) -> (r: Vec<D>)
        ensures
            r@ == payloads(old(self)@).reverse(),
            final(self)@ == Seq::<(usize, D)>::empty(),
            final(self).keys_used() == old(self).keys_used(),
            final(self).keys_below(),
    {
        let mut out: Vec<D> = Vec::new();
        let ghost all = self@;
        while self.count() > 0
            invariant
                self@ == all.subrange(0, self@.len() as int),
                self@.len() <= all.len(),
                out@ == payloads(all).reverse().subrange(0, all.len() - self@.len()),
                self.keys_used() == old(self).keys_used(),
                all == old(self)@,
            decreases self@.len(),
        {
            let ghost before = self@;
            let d = self.pop_tail().unwrap();
            out.push(d);
            proof {
                let n = before.len();
                assert(d == all[n - 1].1);
                assert(payloads(all).reverse()[all.len() - n] == all[n - 1].1);
                assert(out@ =~= payloads(all).reverse().subrange(0, all.len() - self@.len()));
            }
        }
        proof {
            assert(out@ =~= payloads(all).reverse());
        }
        out
    }

    /// Pops every entry from the head and hands back their payloads in the
    /// order they were popped, the head's first.
    pub fn pop_all_from_head(&mut self) -> (r: Vec<D>)
        ensures
            r@ == payloads(old(self)@),
            final(self)@ == Seq::<(usize, D)>::empty(),
            final(self).keys_used() == old(self).keys_used(),
            final(self).keys_below(),
    {
        let mut out: Vec<D> = Vec::new();
        let ghost all = self@;
        while self.count() > 0
            invariant
                self@ == all.subrange(all.len() - self@.len(), all.len() as int),
                self@.len() <= all.len(),
                out@ == payloads(all).subrange(0, all.len() - self@.len()),
                self.keys_used() == old(self).keys_used(),
                all == old(self)@,
            decreases self@.len(),
        {
            let ghost before = self@;
            let d = self.pop_head().unwrap();
            out.push(d);
            proof {
                let n = before.len();
                assert(d == all[all.len() - n].1);
                assert(self@ =~= all.subrange(all.len() - self@.len(), all.len() as int));
                assert(out@ =~= payloads(all).subrange(0, all.len() - self@.len()));
            }
        }
        proof {
            assert(out@ =~= payloads(all));
        }
        out
    }

    /// Whether the node has a neighbour toward the head and one toward the
    /// tail; a node that is not on the list has neither.
    pub fn neighbours(&self, node: &Node<D>) -> (r: (bool, bool))
        ensures
            !node.is_on(self) ==> r == (false, false),
            node.is_on(self) ==> r == (
                position_of(self@, node.key_view().unwrap()) > 0,
                position_of(self@, node.key_view().unwrap()) < self@.len() - 1,
            ),
    {
        let k = match node.key {
            None => { return (false, false); },
            Some(k) => k,
        };
        match self.find(k) {
            None => (false, false),
            Some(p) => (p > 0, p < self.entries.len() - 1),
        }
    }

    /// Takes the node off the list wherever it stands and gives it its
    /// payload back; true when it stood on the list.
    pub fn take_off(&mut self, node: &mut Node<D>) -> (r: bool)
        ensures
            r == old(node).is_on(old(self)),
            final(self)@ == removed_node(old(self)@, old(node).key_view()),
            final(node).key_view() == old(node).key_view(),
            r ==> final(node).data_view() == Some(
                old(self)@[position_of(old(self)@, old(node).key_view().unwrap())].1,
            ),
            !r ==> final(node).data_view() == old(node).data_view(),
            !final(node).is_on(final(self)),
            final(self).keys_used() == old(self).keys_used(),
            final(self).keys_below(),
    {
        proof {
            use_type_invariant(&*self);
        }
        let ghost old_entries = self.entries@;
        let k = match node.key {
            None => { return false; },
            Some(k) => k,
        };
        let pos = match self.find(k) {
            None => { return false; },
            Some(p) => p,
        };
        let mut entries = self.take_entries();
        let (_, data) = entries.remove(pos);
        self.entries = entries;
        node.data = Some(data);
        proof {
            Self::lemma_removed_key_gone(self.entries@, old_entries, Some(k));
        }
        true
    }

    /// The tail payload, if any.
    pub fn peek_tail(&self) -> (r: Option<&D>)
        ensures
            self@.len() == 0 ==> r is None,
            self@.len() > 0 ==> r == Some(&self@.last().1),
    {
        let n = self.entries.len();
        if n == 0 {
            None
        } else {
            Some(&self.entries[n - 1].1)
        }
    }

    /// Lets `f` look at the tail payload, given the number of entries.
    pub fn with_tail<R, F: FnOnce(&D, usize) -> R>(&self, f: F) -> (r: R)
        requires
            self@.len() > 0,
            forall|t: &D, n: usize| #[trigger] f.requires((t, n)),
        ensures
            f.ensures((&self@.last().1, self@.len() as usize), r),
    {
        let n = self.entries.len();
        f(&self.entries[n - 1].1, n)
    }

    /// Once the entry keyed `key` is taken off, no entry carries that key.
    proof fn lemma_removed_key_gone(after: Seq<(usize, D)>, s: Seq<(usize, D)>, key: Option<usize>)
        requires
            after == removed_node(s, key),
            forall|i: int, j: int| 0 <= i < j < s.len() ==> s[i].0 != s[j].0,
        ensures
            key is Some && has_key(s, key.unwrap()) ==> !has_key(after, key.unwrap()),
    {
        if key is Some && has_key(s, key.unwrap()) {
            let k = key.unwrap();
            let p = position_of(s, k);
            Self::lemma_keys_unique(s);
            if has_key(after, k) {
                let i = choose|i: int| 0 <= i < after.len() && #[trigger] after[i].0 == k;
                if i < p {
                    assert(s[i].0 == k);
                } else {
                    assert(s[i + 1].0 == k);
                }
            }
        }
    }

    /// Walks the list from the head, asking `f` for each payload whether to
    /// keep it and whether to go on. `f` sees the number of entries at the
    /// moment it is asked. The walk ends after the answer `Stop` or at the
    /// tail; the entries it did not reach stay as they were.
    pub fn scan<F: Fn(&D, usize) -> (NodeAction, ScanAction)>(&mut self, f: F)
        requires
            forall|d: &D, n: usize| #[trigger] f.requires((d, n)),
        ensures
            final(self).keys_used() == old(self).keys_used(),
            exists|answers: Seq<(NodeAction, ScanAction)>|
                #[trigger] scan_run(f, old(self)@, answers) && final(self)@ == scan_outcome(
                    old(self)@,
                    answers,
                ),
            final(self).keys_below(),
    {
        proof {
            use_type_invariant(&*self);
        }
        let ghost all = self.entries@;
        let ghost mut answers: Seq<(NodeAction, ScanAction)> = Seq::empty();
        proof {
            assert(self.entries@ =~= kept_by(all, answers) + all.subrange(0, all.len() as int));
        }
        let mut i: usize = 0;
        while i < self.entries.len()
            invariant
                self.next_key == old(self).next_key,
                all == old(self)@,
                forall|d: &D, n: usize| #[trigger] f.requires((d, n)),
                answers.len() <= all.len(),
                i == kept_by(all, answers).len(),
                i + removals(answers) == answers.len(),
                self.entries@ == kept_by(all, answers) + all.subrange(answers.len() as int, all.len() as int),
                forall|t: int| 0 <= t < answers.len() ==> (#[trigger] answers[t]).1 is Continue,
                forall|t: int|
                    0 <= t < answers.len() ==> f.ensures(
                        (&all[t].1, (all.len() - removals(answers.take(t))) as usize),
                        #[trigger] answers[t],
                    ),
            decreases self.entries@.len() - i,
        {
            proof {
                use_type_invariant(&*self);
            }
            let ghost j = answers.len() as int;
            let ghost before = self.entries@;
            proof {
                lemma_scan_entry(all, answers, before, i as int);
            }
            let count = self.entries.len();
            let answer = f(&self.entries[i].1, count);
            let ghost a = answer;
            let ghost prev = answers;
            proof {
                answers = answers.push(a);
                lemma_scan_answers(f, all, prev, a);
            }
            let (node_action, scan_action) = answer;
            match node_action {
                NodeAction::Retain => {
                    proof {
                        lemma_scan_keeps(all, prev, a, before, i as int);
                    }
                    i = i + 1;
                },
                NodeAction::Remove => {
                    let mut entries = self.take_entries();
                    let _ = entries.remove(i);
                    self.entries = entries;
                    proof {
                        lemma_scan_removes(all, prev, a, before, i as int);
                    }
                },
            }
            match scan_action {
                ScanAction::Continue => {},
                ScanAction::Stop => {
                    proof {
                        use_type_invariant(&*self);
                        assert(scan_run(f, all, answers));
                    }
                    return ;
                },
            }
        }
        proof {
            use_type_invariant(&*self);
            assert(answers.len() == all.len());
            assert(scan_run(f, all, answers));
        }
    }
}

/// The entry a scan looks at next: the first it has not reached.
proof fn lemma_scan_entry<D>(all: Seq<(usize, D)>, answers: Seq<(NodeAction, ScanAction)>, entries: Seq<(usize, D)>, i: int)
    requires
        answers.len() <= all.len(),
        i == kept_by(all, answers).len(),
        i + removals(answers) == answers.len(),
        i < entries.len(),
        entries == kept_by(all, answers) + all.subrange(answers.len() as int, all.len() as int),
    ensures
        answers.len() < all.len(),
        entries[i] == all[answers.len() as int],
        entries.len() == all.len() - removals(answers),
{
    assert(entries[i] == all.subrange(answers.len() as int, all.len() as int)[0]);
}

/// Each answer of a scan, once one more is added, still matches what `f`
/// was given.
proof fn lemma_scan_answers<D, F: Fn(&D, usize) -> (NodeAction, ScanAction)>(
    f: F,
    all: Seq<(usize, D)>,
    prev: Seq<(NodeAction, ScanAction)>,
    a: (NodeAction, ScanAction),
)
    requires
        prev.len() < all.len(),
        forall|t: int|
            0 <= t < prev.len() ==> f.ensures(
                (&all[t].1, (all.len() - removals(prev.take(t))) as usize),
                #[trigger] prev[t],
            ),
        f.ensures((&all[prev.len() as int].1, (all.len() - removals(prev)) as usize), a),
    ensures
        forall|t: int|
            0 <= t < prev.push(a).len() ==> f.ensures(
                (&all[t].1, (all.len() - removals(prev.push(a).take(t))) as usize),
                #[trigger] prev.push(a)[t],
            ),
{
    let answers = prev.push(a);
    assert(answers.take(prev.len() as int) =~= prev);
    assert forall|t: int| 0 <= t < answers.len() implies f.ensures(
        (&all[t].1, (all.len() - removals(answers.take(t))) as usize),
        #[trigger] answers[t],
    ) by {
        if t < prev.len() {
            assert(answers.take(t) =~= prev.take(t));
            assert(answers[t] == prev[t]);
        }
    }
}

/// A scan that keeps the entry it looks at moves past it.
proof fn lemma_scan_keeps<D>(
    all: Seq<(usize, D)>,
    prev: Seq<(NodeAction, ScanAction)>,
    a: (NodeAction, ScanAction),
    entries: Seq<(usize, D)>,
    i: int,
)
    requires
        prev.len() < all.len(),
        a.0 is Retain,
        i == kept_by(all, prev).len(),
        i + removals(prev) == prev.len(),
        entries == kept_by(all, prev) + all.subrange(prev.len() as int, all.len() as int),
    ensures
        i + 1 == kept_by(all, prev.push(a)).len(),
        i + 1 + removals(prev.push(a)) == prev.push(a).len(),
        entries == kept_by(all, prev.push(a)) + all.subrange(prev.len() as int + 1, all.len() as int),
{
    let answers = prev.push(a);
    assert(answers.drop_last() =~= prev);
    assert(entries =~= kept_by(all, answers) + all.subrange(prev.len() as int + 1, all.len() as int));
}

/// A scan that takes off the entry it looks at leaves the rest in place.
proof fn lemma_scan_removes<D>(
    all: Seq<(usize, D)>,
    prev: Seq<(NodeAction, ScanAction)>,
    a: (NodeAction, ScanAction),
    entries: Seq<(usize, D)>,
    i: int,
)
    requires
        prev.len() < all.len(),
        a.0 is Remove,
        i == kept_by(all, prev).len(),
        i + removals(prev) == prev.len(),
        entries == kept_by(all, prev) + all.subrange(prev.len() as int, all.len() as int),
    ensures
        i == kept_by(all, prev.push(a)).len(),
        i + removals(prev.push(a)) == prev.push(a).len(),
        entries.remove(i) == kept_by(all, prev.push(a)) + all.subrange(prev.len() as int + 1, all.len() as int),
{
    let answers = prev.push(a);
    assert(answers.drop_last() =~= prev);
    assert(entries.remove(i) =~= kept_by(all, answers) + all.subrange(prev.len() as int + 1, all.len() as int));
}

/// How many of `answers` take their entry off.
pub open spec fn removals(answers: Seq<(NodeAction, ScanAction)>) -> nat
    decreases answers.len(),
{
    if answers.len() == 0 {
        0
    } else {
        removals(answers.drop_last()) + if answers.last().0 is Remove {
            1nat
        } else {
            0nat
        }
    }
}

/// The entries among the first `answers.len()` of `all` that `answers` keep,
/// in their order.
pub open spec fn kept_by<D>(all: Seq<(usize, D)>, answers: Seq<(NodeAction, ScanAction)>) -> Seq<(usize, D)>
    decreases answers.len(),
{
    if answers.len() == 0 {
        Seq::empty()
    } else {
        let kept = kept_by(all, answers.drop_last());
        if answers.last().0 is Retain {
            kept.push(all[answers.len() - 1])
        } else {
            kept
        }
    }
}

/// `answers` are what `f` answered in a scan of `all`: one answer for each
/// entry from the head on, each given the entry's payload and the number
/// of entries at that moment (those of `all` less the ones taken off
/// before); every answer but the last says go on, and the scan reached the
/// tail unless the last answer said stop.
pub open spec fn scan_run<D, F: Fn(&D, usize) -> (NodeAction, ScanAction)>(
    f: F,
    all: Seq<(usize, D)>,
    answers: Seq<(NodeAction, ScanAction)>,
) -> bool {
    &&& answers.len() <= all.len()
    &&& forall|t: int| 0 <= t < answers.len() - 1 ==> (#[trigger] answers[t]).1 is Continue
    &&& answers.len() < all.len() ==> answers.len() > 0 && answers.last().1 is Stop
    &&& forall|t: int|
        0 <= t < answers.len() ==> f.ensures(
            (&all[t].1, (all.len() - removals(answers.take(t))) as usize),
            #[trigger] answers[t],
        )
}

/// The list after a scan of `all` that got `answers`: the entries the scan
/// kept, then those it did not reach.
pub open spec fn scan_outcome<D>(all: Seq<(usize, D)>, answers: Seq<(NodeAction, ScanAction)>) -> Seq<(usize, D)> {
    kept_by(all, answers) + all.subrange(answers.len() as int, all.len() as int)
}

/// Taking a node off right after pushing it, at either end, gives back the
/// list as it was: a push at the head or at the tail is undone by removing
/// the pushed key.
pub proof fn lemma_push_then_remove<D>(s: Seq<(usize, D)>, k: usize, d: D)
    requires
        !has_key(s, k),
    ensures
        removed_node(seq![(k, d)] + s, Some(k)) == s,
        removed_node(s.push((k, d)), Some(k)) == s,
{
    let h = seq![(k, d)] + s;
    assert(h[0].0 == k);
    assert(has_key(h, k));
    let p = position_of(h, k);
    if p != 0 {
        assert(s[p - 1].0 == k);
    }
    assert(h.remove(0) =~= s);
    let t = s.push((k, d));
    assert(t[s.len() as int].0 == k);
    assert(has_key(t, k));
    let q = position_of(t, k);
    if q != s.len() {
        assert(s[q].0 == k);
    }
    assert(t.remove(s.len() as int) =~= s);
}

/// Waiters pushed at the head leave from the tail in the order they came: a
/// push at the head does not change which payload is at the tail, nor what
/// the tail leaves behind but for the new head.
pub proof fn lemma_first_in_first_out<D>(s: Seq<(usize, D)>, e: (usize, D))
    requires
        s.len() > 0,
    ensures
        (seq![e] + s).last() == s.last(),
        (seq![e] + s).drop_last() == seq![e] + s.drop_last(),
        payloads(seq![e] + s) == seq![e.1] + payloads(s),
{
    assert((seq![e] + s).drop_last() =~= seq![e] + s.drop_last());
    assert(payloads(seq![e] + s) =~= seq![e.1] + payloads(s));
}

} // verus!
