//! Stopping the runtime on request.

use crate::collections::hash_set::has_handle;
use crate::runtime::Runtime;
use crate::task::task_id::TaskId;
use crate::task::waker_ext::{without_any, WakerExt, WakerSetDropper};
use crate::task::Poll;
use vstd::prelude::*;

verus! {

/// Whether a stop of `rt` was requested.
pub fn stopped(rt: &Runtime) -> (stopped: bool)
    ensures
        stopped == rt.is_stopped(),
{
    rt.stopped()
}

/// The source of futures that wait for a stop.
pub struct StopWaker {}

/// The future that waits for a stop.
pub struct StopWakerGuard {
    dropper: Option<WakerSetDropper>,
}

impl StopWaker {
    /// A source of futures that wait for a stop.
    pub fn new() -> (stop_waker: Self) {
        StopWaker {  }
    }

    /// A wait for a stop that was not polled yet.
    pub fn wait(&self) -> (guard: StopWakerGuard)
        ensures
            guard.registered().is_none(),
    {
        StopWakerGuard { dropper: None }
    }
}

impl StopWakerGuard {
    /// The task whose waker this wait has put among those to wake at a
    /// stop.
    pub closed spec fn registered(&self) -> Option<TaskId> {
        match self.dropper {
            Some(d) => Some(d.tid()),
            None => None,
        }
    }

    /// One poll: `Ready` exactly if a stop was requested, and then `waker`
    /// goes to the back of the ready queue once more. The first poll puts
    /// `waker` among those to wake at a stop.
    pub fn poll(&mut self, rt: &mut Runtime, waker: &WakerExt) -> (polled: Poll<()>)
        requires
            old(rt).wf(),
        ensures
            final(rt).wf(),
            (polled is Ready) == old(rt).is_stopped(),
            final(rt).live_tasks() == old(rt).live_tasks(),
            final(rt).poller() == old(rt).poller(),
            final(rt).generator() == old(rt).generator(),
            final(rt).is_stopped() == old(rt).is_stopped(),
            final(rt).max_wait() == old(rt).max_wait(),
            final(rt).ready() == if old(rt).is_stopped() {
                old(rt).ready().push(*waker)
            } else {
                old(rt).ready()
            },
            old(self).registered().is_some() ==> final(self).registered() == old(self).registered()
                && final(rt).stop_waiters() == old(rt).stop_waiters(),
            old(self).registered().is_none() ==> final(self).registered() == Some(waker.tid())
                && final(rt).stop_waiters() == if has_handle(old(rt).stop_waiters(), waker.tid().0) {
                old(rt).stop_waiters()
            } else {
                old(rt).stop_waiters().push(*waker)
            },
    {
        if self.dropper.is_none() {
            self.dropper = Some(rt.wait_stop(*waker));
        }
        if rt.stopped() {
            rt.add_waker(*waker);
            Poll::Ready(())
        } else {
            Poll::Pending
        }
    }

    /// Gives the wait up: a later stop does not wake the task.
    pub fn cancel(self, rt: &mut Runtime)
        requires
            old(rt).wf(),
        ensures
            final(rt).wf(),
            final(rt).live_tasks() == old(rt).live_tasks(),
            final(rt).ready() == old(rt).ready(),
            final(rt).poller() == old(rt).poller(),
            final(rt).generator() == old(rt).generator(),
            final(rt).is_stopped() == old(rt).is_stopped(),
            final(rt).max_wait() == old(rt).max_wait(),
            final(rt).stop_waiters() == without_any(old(rt).stop_waiters(), self.registered()),
            self.registered().is_some() ==> !has_handle(
                final(rt).stop_waiters(),
                self.registered().unwrap().0,
            ),
    {
        match self.dropper {
            Some(d) => {
                rt.forget_stop(d);
            },
            None => {},
        }
    }
}

} // verus!
