use vstd::prelude::*;

pub mod atomic_ptr;
pub mod barrier;
pub mod condvar;
pub mod event;
pub mod event_list;
pub mod intrusive_list;
pub mod lock_wait;
pub mod maybe_ref;
pub mod mini_lock;
pub mod mutex_state;
pub mod parker;
pub mod poller;
pub mod rw_state;
pub mod rw_state_compact;
pub mod rw_state_event;
pub mod spin_lock;
pub mod tagged;
pub mod timed_wait;

verus! {

} // verus!
