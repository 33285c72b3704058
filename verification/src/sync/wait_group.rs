//! Waiting until a group of tasks is done.

use crate::runtime::Runtime;
use crate::task::task_id::TaskId;
use crate::task::waker_ext::WakerExt;
use crate::task::Poll;
use vstd::prelude::*;

verus! {

/// The number of members of the group that are not done, and the waker of
/// the one task that waits for them.
pub struct WaitGroup {
    count: usize,
    waiting_waker: Option<WakerExt>,
}

/// The membership of one task in the group, from `add` until it is
/// released.
pub struct WaitGroupGuard {}

/// The future of the task that waits for the group.
pub struct WaitingWg {
    registered: Option<TaskId>,
}

/// The number of members left when one of `count` is done.
pub open spec fn count_after_done(count: nat) -> nat {
    if count > 0 {
        (count - 1) as nat
    } else {
        0
    }
}

impl WaitGroup {
    /// The number of members that are not done.
    pub closed spec fn count(&self) -> nat {
        self.count as nat
    }

    /// The waker of the task that waits for the group.
    pub closed spec fn waiting(&self) -> Option<WakerExt> {
        self.waiting_waker
    }

    /// A group without members that nobody waits for.
    pub fn new() -> (wg: Self)
        ensures
            wg.count() == 0,
            wg.waiting().is_none(),
    {
        WaitGroup { count: 0, waiting_waker: None }
    }

    /// The number of members that are not done.
    pub fn members(&self) -> (count: usize)
        ensures
            count == self.count(),
    {
        self.count
    }

    /// Adds a member to the group.
    pub fn add(&mut self) -> (guard: WaitGroupGuard)
        requires
            old(self).count() < usize::MAX,
        ensures
            final(self).count() == old(self).count() + 1,
            final(self).waiting() == old(self).waiting(),
    {
        self.count = self.count + 1;
        WaitGroupGuard::new()
    }

    /// A wait for the group that was not polled yet.
    pub fn wait(&self) -> (waiting: WaitingWg)
        ensures
            waiting.registered().is_none(),
    {
        WaitingWg::new()
    }

    /// One member is done: returns the number of members left.
    pub fn sub_count(&mut self) -> (left: usize)
        ensures
            left == count_after_done(old(self).count()),
            final(self).count() == count_after_done(old(self).count()),
            final(self).waiting() == old(self).waiting(),
    {
        if self.count > 0 {
            self.count = self.count - 1;
        }
        self.count
    }

    fn take_waker(&mut self) -> (waker: Option<WakerExt>)
        ensures
            waker == old(self).waiting(),
            final(self).waiting().is_none(),
            final(self).count() == old(self).count(),
    {
        let waker = self.waiting_waker;
        self.waiting_waker = None;
        waker
    }

    fn replace_waker(&mut self, waker: WakerExt)
        ensures
            final(self).waiting() == Some(waker),
            final(self).count() == old(self).count(),
    {
        self.waiting_waker = Some(waker);
    }
}

impl WaitGroupGuard {
    /// The membership that `add` hands out.
    pub fn new() -> (guard: Self) {
        WaitGroupGuard {  }
    }

    /// The member is done. Where it was the last one, the task that waits
    /// for the group goes to the back of the ready queue and waits no
    /// longer.
    pub fn release(self, wg: &mut WaitGroup, rt: &mut Runtime)
        requires
            old(rt).wf(),
        ensures
            final(rt).wf(),
            final(rt).only_ready_changed(*old(rt)),
            final(wg).count() == count_after_done(old(wg).count()),
            old(wg).count() > 1 ==> final(wg).waiting() == old(wg).waiting() && final(rt).ready()
                == old(rt).ready(),
            old(wg).count() <= 1 ==> final(wg).waiting().is_none() && final(rt).ready() == (
            match old(wg).waiting() {
                Some(waker) => old(rt).ready().push(waker),
                None => old(rt).ready(),
            }),
    {
        if wg.sub_count() == 0 {
            match wg.take_waker() {
                Some(waker) => {
                    rt.add_waker(waker);
                },
                None => {},
            }
        }
    }
}

impl WaitingWg {
    /// The task that this wait has made the one that waits for the group.
    pub closed spec fn registered(&self) -> Option<TaskId> {
        self.registered
    }

    /// A wait that was not polled yet.
    pub fn new() -> (waiting: Self)
        ensures
            waiting.registered().is_none(),
    {
        WaitingWg { registered: None }
    }

    /// One poll: `Ready` exactly if no member is left. Otherwise the task
    /// of `waker` becomes the one that waits for the group.
    pub fn poll(&mut self, wg: &mut WaitGroup, waker: &WakerExt) -> (polled: Poll<()>)
        ensures
            (polled is Ready) == (old(wg).count() == 0),
            final(wg).count() == old(wg).count(),
            old(wg).count() == 0 ==> final(wg).waiting() == old(wg).waiting() && final(self).registered() == old(self).registered(),
            old(wg).count() > 0 ==> final(wg).waiting() == Some(*waker) && final(self).registered()
                == Some(waker.tid()),
    {
        if wg.count == 0 {
            Poll::Ready(())
        } else {
            wg.replace_waker(*waker);
            self.registered = Some(*waker.get_task_attr().get_tid());
            Poll::Pending
        }
    }

    /// Gives the wait up: where the task of this wait is the one that
    /// waits for the group, nobody waits any longer.
    pub fn cancel(self, wg: &mut WaitGroup)
        ensures
            final(wg).count() == old(wg).count(),
            final(wg).waiting() == waiting_after_cancel(old(wg).waiting(), self.registered()),
            self.registered().is_some() && final(wg).waiting().is_some() ==> final(wg).waiting().unwrap().tid() != self.registered().unwrap(),
    {
        match (self.registered, wg.waiting_waker) {
            (Some(tid), Some(waker)) => {
                if *waker.get_task_attr().get_tid() == tid {
                    wg.waiting_waker = None;
                }
            },
            _ => {},
        }
    }
}

/// Who waits for a group after the wait of the task `registered` was given
/// up: nobody where it was that task, else who waited before.
pub open spec fn waiting_after_cancel(waiting: Option<WakerExt>, registered: Option<TaskId>) -> Option<
    WakerExt,
> {
    match (registered, waiting) {
        (Some(tid), Some(waker)) => if waker.tid() == tid {
            None
        } else {
            waiting
        },
        _ => waiting,
    }
}

} // verus!
