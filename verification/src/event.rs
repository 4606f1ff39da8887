//! Which waiters of an event a notification wakes.
//!
//! Waiters queue at the head of the event's list; a notification looks at
//! the tail, asks a condition whether to wake that waiter (given how many
//! wait), and if so takes it off the list. The functions here choose the
//! waiters and hand them back; waking them is up to the caller.
use crate::event_list::IntrusiveLinkedList;
use vstd::prelude::*;

verus! {

/// Takes the tail waiter off the list when `condition`, given the number of
/// waiters and the tail's payload, agrees; runs `on_empty` when nobody waits.
pub fn notify_if<T, C: Fn(usize, &T) -> bool, E: Fn()>(
    list: &mut IntrusiveLinkedList<T>,
    condition: &C,
    on_empty: &E,
) -> (r: Option<T>)
    requires
        forall|n: usize, t: &T| #[trigger] condition.requires((n, t)),
        on_empty.requires(()),
    ensures
        old(list)@.len() == 0 ==> r is None && final(list)@ == old(list)@ && on_empty.ensures(
            (),
            (),
        ),
        old(list)@.len() > 0 ==> condition.ensures(
            (old(list)@.len() as usize, &old(list)@.last().1),
            r is Some,
        ),
        r is Some ==> old(list)@.len() > 0 && r.unwrap() == old(list)@.last().1 && final(list)@
            == old(list)@.drop_last(),
        r is None ==> final(list)@ == old(list)@,
        final(list).keys_used() == old(list).keys_used(),
        final(list).keys_below(),
{
    let n = list.len();
    let agreed = match list.peek_tail() {
        None => {
            on_empty();
            return None;
        },
        Some(t) => condition(n, t),
    };
    if !agreed {
        return None;
    }
    list.pop_tail()
}

/// The payload at position `i` counted from the tail of `s`.
pub open spec fn from_tail<T>(s: Seq<(usize, T)>, i: int) -> T {
    s[s.len() - 1 - i].1
}

/// Wakes up to `max` waiters from the tail, one at a time, while
/// `condition` agrees; the waiters taken off are handed back in the order
/// they were taken. The count of waiters is read when the first waiter is
/// taken, so the notification never takes more than were waiting then.
pub fn notify_many_while<T, C: Fn(usize, &T) -> bool, E: Fn()>(
    list: &mut IntrusiveLinkedList<T>,
    max: usize,
    condition: &C,
    on_empty: &E,
) -> (r: Vec<T>)
    requires
        forall|n: usize, t: &T| #[trigger] condition.requires((n, t)),
        on_empty.requires(()),
    ensures
        r@.len() <= old(list)@.len(),
        r@.len() <= max,
        final(list)@ == old(list)@.subrange(0, old(list)@.len() - r@.len()),
        forall|i: int| 0 <= i < r@.len() ==> #[trigger] r@[i] == from_tail(old(list)@, i),
        forall|i: int|
            0 <= i < r@.len() ==> condition.ensures(
                ((old(list)@.len() - i) as usize, &#[trigger] from_tail(old(list)@, i)),
                true,
            ),
        r@.len() < old(list)@.len() && r@.len() < max ==> condition.ensures(
            ((old(list)@.len() - r@.len()) as usize, &from_tail(old(list)@, r@.len() as int)),
            false,
        ),
        max > 0 && old(list)@.len() == 0 ==> on_empty.ensures((), ()),
        final(list).keys_used() == old(list).keys_used(),
        final(list).keys_below(),
{
    let mut woken: Vec<T> = Vec::new();
    let ghost all = list@;
    let total = list.len();
    if max == 0 {
        return woken;
    }
    let mut num_waiting = max;
    if total > 0 && total < num_waiting {
        num_waiting = total;
    }
    match notify_if(list, condition, on_empty) {
        None => {
            return woken;
        },
        Some(t) => {
            woken.push(t);
        },
    }
    let limit = num_waiting;
    proof {
        assert(list@ =~= all.subrange(0, all.len() - woken@.len()));
    }
    let mut refused = false;
    while !refused && woken.len() < limit && num_waiting > 0
        invariant
            1 <= woken@.len() <= limit,
            limit <= total,
            limit <= max,
            total == all.len(),
            all == old(list)@,
            limit == max || limit == total,
            num_waiting >= 1,
            list@ == all.subrange(0, all.len() - woken@.len()),
            forall|i: int| 0 <= i < woken@.len() ==> #[trigger] woken@[i] == from_tail(all, i),
            forall|i: int|
                0 <= i < woken@.len() ==> condition.ensures(
                    ((all.len() - i) as usize, &#[trigger] from_tail(all, i)),
                    true,
                ),
            refused ==> woken@.len() < all.len() && condition.ensures(
                ((all.len() - woken@.len()) as usize, &from_tail(all, woken@.len() as int)),
                false,
            ),
            forall|n: usize, t: &T| #[trigger] condition.requires((n, t)),
            on_empty.requires(()),
            list.keys_used() == old(list).keys_used(),
            list.keys_below(),
        decreases list@.len() + (if refused { 0int } else { 1int }),
    {
        let n = list.len();
        if n > 0 && n < num_waiting {
            num_waiting = n;
        }
        let ghost before = list@;
        match notify_if(list, condition, on_empty) {
            None => {
                proof {
                    assert(before.len() > 0);
                    assert(before.last().1 == from_tail(all, woken@.len() as int));
                }
                refused = true;
            },
            Some(t) => {
                let ghost w = woken@.len();
                proof {
                    assert(before.len() == all.len() - w);
                    assert(before.last().1 == from_tail(all, w as int));
                    assert(t == from_tail(all, w as int));
                    assert(condition.ensures(((all.len() - w) as usize, &from_tail(all, w as int)), true));
                }
                let ghost prev = woken@;
                woken.push(t);
                proof {
                    assert(list@ =~= all.subrange(0, all.len() - woken@.len()));
                    assert forall|i: int| 0 <= i < woken@.len() implies #[trigger] woken@[i] == from_tail(all, i) by {
                        if i < w {
                            assert(woken@[i] == prev[i]);
                        }
                    }
                }
            },
        }
    }
    woken
}

/// Wakes every waiter from the tail while `condition` agrees; see
/// `notify_many_while`.
pub fn notify_all_while<T, C: Fn(usize, &T) -> bool, E: Fn()>(
    list: &mut IntrusiveLinkedList<T>,
    condition: &C,
    on_empty: &E,
) -> (r: Vec<T>)
    requires
        forall|n: usize, t: &T| #[trigger] condition.requires((n, t)),
        on_empty.requires(()),
    ensures
        r@.len() <= old(list)@.len(),
        final(list)@ == old(list)@.subrange(0, old(list)@.len() - r@.len()),
        forall|i: int| 0 <= i < r@.len() ==> #[trigger] r@[i] == from_tail(old(list)@, i),
        forall|i: int|
            0 <= i < r@.len() ==> condition.ensures(
                ((old(list)@.len() - i) as usize, &#[trigger] from_tail(old(list)@, i)),
                true,
            ),
        r@.len() < old(list)@.len() ==> condition.ensures(
            ((old(list)@.len() - r@.len()) as usize, &from_tail(old(list)@, r@.len() as int)),
            false,
        ),
        old(list)@.len() == 0 ==> on_empty.ensures((), ()),
        final(list).keys_used() == old(list).keys_used(),
        final(list).keys_below(),
{
    // The waiters are counted in a word, so no count of them reaches the
    // limit `usize::MAX` below.
    let waiting = list.len();
    proof {
        assert(waiting == old(list)@.len());
    }
    notify_many_while(list, usize::MAX, condition, on_empty)
}

/// Takes the tail waiter off the list, whoever it is.
pub fn notify_one<T>(list: &mut IntrusiveLinkedList<T>) -> (r: Option<T>)
    ensures
        old(list)@.len() == 0 ==> r is None && final(list)@ == old(list)@,
        old(list)@.len() > 0 ==> r == Some(old(list)@.last().1) && final(list)@ == old(list)@.drop_last(),
        final(list).keys_used() == old(list).keys_used(),
        final(list).keys_below(),
{
    list.pop_tail()
}

} // verus!
