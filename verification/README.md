# colock

Thread and task synchronisation built on small state words and wait lists:
a queue based mutex, a reader-writer lock, a last-in-first-out mini lock, a
barrier and an event, and the wait lists they park their waiters on.

`src/` is the verified library. It holds the wait lists (`intrusive_list`,
`event_list`), whom a notification wakes (`event`), the steps of a thread locking the mutex (`lock_wait`), those of a waiting thread with
or without a deadline (`timed_wait`) and of a waiting future (`poller`),
what an arrival at a barrier does (`barrier`), the condition variable's
rules on its mutex (`condvar`), the steps of a spin lock that can give up
early (`spin_lock`), and, for every lock, the meaning of its state word
and the decision taken on each value read from it (`mutex_state`, `rw_state`,
`rw_state_compact`, `rw_state_event`, `tagged`, `mini_lock`, `parker`), with
the laws that tie those decisions together.

`app/` is the concurrent shell: the atomics, the retry loops around them,
parking and waking threads and tasks, and the guards that hand out the
protected data. Each loop asks the library what to do with the value it just
read.
