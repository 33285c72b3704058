//! Waking tasks that wait for a signal.

use crate::collections::hash_set::has_handle;
use crate::runtime::Runtime;
use crate::task::task_id::TaskId;
use crate::task::waker_ext::{without_any, WakerExt, WakerSet, WakerSetDropper};
use crate::task::Poll;
use vstd::prelude::*;

verus! {

/// The tasks that wait to be notified.
pub struct Notifier {
    waiting_wakers: WakerSet,
}

/// The future of one task that waits to be notified.
pub struct NotifierWaiter {
    dropper: Option<WakerSetDropper>,
}

impl Notifier {
    /// The wakers of the waiting tasks, longest wait first.
    pub closed spec fn waiting(&self) -> Seq<WakerExt> {
        self.waiting_wakers@
    }

    /// No task waits twice.
    pub closed spec fn wf(&self) -> bool {
        self.waiting_wakers.wf()
    }

    /// A notifier that nobody waits for.
    pub fn new() -> (notifier: Self)
        ensures
            notifier.wf(),
            notifier.waiting() == Seq::<WakerExt>::empty(),
    {
        Notifier { waiting_wakers: WakerSet::new() }
    }

    /// A wait that was not polled yet.
    pub fn wait(&self) -> (waiter: NotifierWaiter)
        ensures
            waiter.registered().is_none(),
    {
        NotifierWaiter::new()
    }

    /// Notifies the task that waited longest: its waker goes to the back
    /// of the ready queue. Where nobody waits, nothing happens.
    pub fn notify_one(&mut self, rt: &mut Runtime)
        requires
            old(self).wf(),
            old(rt).wf(),
        ensures
            final(self).wf(),
            final(rt).wf(),
            final(rt).only_ready_changed(*old(rt)),
            old(self).waiting().len() == 0 ==> final(self).waiting() == old(self).waiting() && final(rt).ready() == old(rt).ready(),
            old(self).waiting().len() > 0 ==> final(self).waiting() == old(self).waiting().remove(0)
                && final(rt).ready() == old(rt).ready().push(old(self).waiting()[0]),
    {
        match self.waiting_wakers.pop() {
            Some(waker) => {
                rt.add_waker(waker);
            },
            None => {},
        }
    }

    /// Notifies everyone who waits: their wakers go to the back of the
    /// ready queue, longest wait first.
    pub fn notify_all(&mut self, rt: &mut Runtime)
        requires
            old(rt).wf(),
        ensures
            final(self).wf(),
            final(rt).wf(),
            final(rt).only_ready_changed(*old(rt)),
            final(self).waiting() == Seq::<WakerExt>::empty(),
            final(rt).ready() == old(rt).ready() + old(self).waiting(),
    {
        let wakers = self.waiting_wakers.drain();
        rt.add_wakers(&wakers);
    }
}

impl NotifierWaiter {
    /// The task whose waker this wait has put among the waiting.
    pub closed spec fn registered(&self) -> Option<TaskId> {
        match self.dropper {
            Some(d) => Some(d.tid()),
            None => None,
        }
    }

    /// A wait that was not polled yet.
    pub fn new() -> (waiter: Self)
        ensures
            waiter.registered().is_none(),
    {
        NotifierWaiter { dropper: None }
    }

    /// One poll. The first one puts the task of `waker` among the waiting
    /// and is `Pending`. A later one changes nothing and is `Ready` exactly
    /// if the task is no longer among the waiting: it was notified.
    pub fn poll(&mut self, notifier: &mut Notifier, waker: &WakerExt) -> (polled: Poll<()>)
        requires
            old(notifier).wf(),
        ensures
            final(notifier).wf(),
            old(self).registered().is_none() ==> polled is Pending && final(self).registered()
                == Some(waker.tid()) && final(notifier).waiting() == (if has_handle(
                old(notifier).waiting(),
                waker.tid().0,
            ) {
                old(notifier).waiting()
            } else {
                old(notifier).waiting().push(*waker)
            }),
            old(self).registered().is_some() ==> final(self).registered() == old(self).registered()
                && final(notifier).waiting() == old(notifier).waiting() && (polled is Ready)
                == !has_handle(old(notifier).waiting(), waker.tid().0),
    {
        if self.dropper.is_none() {
            self.dropper = Some(notifier.waiting_wakers.add_with_dropper(*waker));
        }
        if notifier.waiting_wakers.contains(waker.get_task_attr().get_tid()) {
            Poll::Pending
        } else {
            Poll::Ready(())
        }
    }

    /// Gives the wait up: the task is no longer among the waiting, so a
    /// later notification does not wake it. The others keep their order.
    pub fn cancel(self, notifier: &mut Notifier)
        requires
            old(notifier).wf(),
        ensures
            final(notifier).wf(),
            final(notifier).waiting() == without_any(old(notifier).waiting(), self.registered()),
            self.registered().is_some() ==> !has_handle(
                final(notifier).waiting(),
                self.registered().unwrap().0,
            ),
    {
        match self.dropper {
            Some(d) => {
                d.release(&mut notifier.waiting_wakers);
            },
            None => {},
        }
    }
}

} // verus!
