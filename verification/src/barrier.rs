//! The decisions of a barrier that releases its waiters once a set number of
//! threads have arrived.
//!
//! The barrier keeps the threads that wait in a wait list. Each arrival looks
//! at the list with the list held: if the list holds one thread less than the
//! barrier's target, the arrival completes the group, wakes everyone on the
//! list and goes on as the leader; otherwise it queues itself and sleeps.
use crate::intrusive_list::{payloads, has_key, IntrusiveList, Node};
use vstd::prelude::*;

verus! {

/// What a call of `wait` on a barrier reports: whether this caller was the one
/// that completed the group and released the others.
#[derive(Debug, Copy, Clone, PartialEq, Eq, Structural)]
pub struct BarrierWaitResult(pub bool);

impl BarrierWaitResult {
    /// True for the one caller of a group that released the rest.
    pub fn is_leader(&self) -> (r: bool)
        ensures
            r == self.0,
    {
        self.0
    }
}

/// What an arrival reports: a barrier of target `0` never waits and reports
/// every caller as leader; otherwise the arrival that was queued and woken
/// is not the leader and the arrival that completed the group is.
pub fn arrival_result(target: usize, queued: bool) -> (r: BarrierWaitResult)
    ensures
        r.0 == (target == 0 || !queued),
{
    if target == 0 {
        return BarrierWaitResult(true);
    }
    if queued {
        return BarrierWaitResult(false);
    }
    BarrierWaitResult(true)
}

/// The length of the wait list after an arrival at a barrier of `target`
/// found `len` threads on it, and whether the arrival completed the group.
pub open spec fn arrive(target: nat, len: nat) -> (nat, bool) {
    if len + 1 == target {
        (0, true)
    } else {
        (len + 1, false)
    }
}

/// One arrival at a barrier of `target`, with its wait list held: when the
/// list holds `target - 1` threads, every payload is taken off the list and
/// handed back, head first, to be woken, and the result is `false` (do not
/// sleep); otherwise the node is queued at the head and the result is `true`.
pub fn lock_inner<W>(target: usize, list: &mut IntrusiveList<W>, node: &mut Node<W>) -> (r: (
    bool,
    Vec<W>,
))
    requires
        target > 0,
        old(node).data_view() is Some,
        old(node).key_view() is None,
        old(list).has_fresh_key(),
    ensures
        r.0 == !arrive(target as nat, old(list)@.len()).1,
        r.0 <==> old(list)@.len() + 1 != target,
        !r.0 ==> final(list)@.len() == 0,
        r.0 ==> final(list)@.len() == old(list)@.len() + 1,
        final(list)@.len() == arrive(target as nat, old(list)@.len()).0,
        !r.0 ==> r.1@ == payloads(old(list)@) && *final(node) == *old(node),
        r.0 ==> {
            &&& r.1@.len() == 0
            &&& final(node).key_view() is Some
            &&& !has_key(old(list)@, final(node).key_view().unwrap())
            &&& final(list)@ == seq![
                (final(node).key_view().unwrap(), old(node).data_view().unwrap()),
            ] + old(list)@
        },
        !r.0 ==> final(list).keys_used() == old(list).keys_used(),
        r.0 ==> final(list).keys_used() == old(list).keys_used() + 1,
        r.0 ==> final(node).key_view() == Some(old(list).keys_used() as usize),
        final(list).keys_below(),
{
    if list.count() == target - 1 {
        let woken = list.pop_all_from_head();
        return (false, woken);
    }
    let pushed = list.push_head(node);
    (true, Vec::new())
}

/// The barrier releases threads in groups of exactly `target`: starting from
/// an empty wait list, after `k` arrivals the list holds `k % target`
/// threads, and arrival number `k` completes a group exactly when `target`
/// divides `k`.
pub open spec fn after_arrivals(target: nat, k: nat) -> nat
    decreases k,
{
    if k == 0 {
        0
    } else {
        arrive(target, after_arrivals(target, (k - 1) as nat)).0
    }
}

/// The law of groups: see `after_arrivals`.
pub proof fn lemma_barrier_groups(target: nat, k: nat)
    requires
        target > 0,
    ensures
        after_arrivals(target, k) == k % target,
        k > 0 ==> arrive(target, after_arrivals(target, (k - 1) as nat)).1 == (k % target == 0),
    decreases k,
{
    if k == 0 {
        assert(0nat % target == 0) by {
            vstd::arithmetic::div_mod::lemma_mod_self_0(target as int);
            vstd::arithmetic::div_mod::lemma_small_mod(0, target);
        }
    } else {
        lemma_barrier_groups(target, (k - 1) as nat);
        let prev = after_arrivals(target, (k - 1) as nat);
        assert(prev == (k - 1) % (target as int));
        assert(after_arrivals(target, k) == arrive(target, prev).0);
        if prev + 1 == target {
            assert(k % target == 0) by {
                let q = ((k - 1) as int) / (target as int);
                vstd::arithmetic::div_mod::lemma_fundamental_div_mod((k - 1) as int, target as int);
                assert(k == (q + 1) * target) by (nonlinear_arith)
                    requires
                        k - 1 == target * q + (target - 1),
                ;
                vstd::arithmetic::div_mod::lemma_mod_multiples_basic(q + 1, target as int);
            }
        } else {
            assert(k % target == prev + 1) by {
                let q = ((k - 1) as int) / (target as int);
                vstd::arithmetic::div_mod::lemma_fundamental_div_mod((k - 1) as int, target as int);
                assert(k == q * target + (prev + 1)) by (nonlinear_arith)
                    requires
                        k - 1 == target * q + prev,
                ;
                vstd::arithmetic::div_mod::lemma_fundamental_div_mod_converse(
                    k as int,
                    target as int,
                    ((k - 1) as int) / (target as int),
                    (prev + 1) as int,
                );
            }
        }
    }
}

} // verus!
