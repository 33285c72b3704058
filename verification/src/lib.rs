//! A single-threaded cooperative runtime, written as explicit state.
//!
//! Every piece of scheduler state (live tasks, ready queue, timer queue,
//! waiter sets of the synchronisation primitives) is a plain value owned by
//! the caller and handed to the operations by `&mut`. Wakers are identified
//! by the task they belong to; points in time and durations are counted in
//! milliseconds and handed in by the caller.

pub mod config;
pub mod helper;
pub mod task;
pub mod collections;
pub mod timer;
pub mod io_event;
pub mod poller;
pub mod runtime;
pub mod sync;
pub mod result;
pub mod io_ext;
pub mod signal;
pub mod timeout;
pub mod select;
pub mod web;

use crate::runtime::{Runtime, Step};
use crate::timer::Sleeper;
use vstd::prelude::*;

verus! {

/// A future that is done `delay` after `now`.
pub fn sleep(now: u64, delay: u64) -> (sleeper: Sleeper)
    requires
        now + delay <= u64::MAX,
    ensures
        sleeper.wake_at() == now + delay,
        sleeper.timer().is_none(),
{
    Sleeper::delay(now, delay)
}

/// One turn of the executor of `rt` at `now`. While the ready queue holds
/// wakers the turn takes the first of them, to be woken. With an empty
/// queue the executor is done where it may finish, and else is to wait for
/// the operating system until the next deadline.
pub fn run(rt: &mut Runtime, now: u64) -> (step: Step)
    requires
        old(rt).wf(),
    ensures
        final(rt).wf(),
        final(rt).live_tasks() == old(rt).live_tasks(),
        final(rt).generator() == old(rt).generator(),
        final(rt).is_stopped() == old(rt).is_stopped(),
        final(rt).max_wait() == old(rt).max_wait(),
        final(rt).stop_waiters() == old(rt).stop_waiters(),
        old(rt).ready().len() > 0 ==> step == Step::Wake(old(rt).ready()[0]) && final(rt).ready()
            == old(rt).ready().subrange(1, old(rt).ready().len() as int) && final(rt).poller()
            == old(rt).poller(),
        old(rt).ready().len() == 0 ==> final(rt).ready() == old(rt).ready(),
        old(rt).ready().len() == 0 && old(rt).may_finish() ==> step == Step::Done && final(rt).poller() == old(rt).poller(),
        old(rt).ready().len() == 0 && !old(rt).may_finish() ==> step is Park && final(rt).poller().sources() == old(rt).poller().sources() && final(rt).poller().queue().delayed(
            old(rt).poller().queue(),
            now,
            false,
            step->Park_0,
        ),
{
    match rt.get_waker() {
        Some(waker) => Step::Wake(waker),
        None => {
            if rt.can_finish() {
                Step::Done
            } else {
                Step::Park(rt.delay(now))
            }
        },
    }
}

} // verus!
