//! A bounded number of permits that tasks wait for without blocking the
//! executor.

use crate::collections::hash_set::has_handle;
use crate::runtime::Runtime;
use crate::sync::mutex::{registered_after_poll, released, waiting_after_poll};
use crate::sync::{holders, lemma_holders_bound, lemma_holders_update};
use crate::task::task_id::TaskId;
use crate::task::waker_ext::{without_any, WakerExt, WakerSet, WakerSetDropper};
use crate::task::Poll;
use vstd::prelude::*;

verus! {

/// `capacity` permits, `count` of them taken.
pub struct AsyncSemophore {
    capacity: usize,
    count: usize,
    waiting_wakers: WakerSet,
}

/// A request for a permit. It holds the permit from the poll that answers
/// `Ready` until it is released.
pub struct AsyncSemophoreGuard {
    fetched: bool,
    dropper: Option<WakerSetDropper>,
}

/// Whether a poll of a request takes a permit: the request has none yet,
/// and one is free.
pub open spec fn poll_fetches(fetched: bool, count: nat, capacity: nat) -> bool {
    !fetched && count < capacity
}

impl AsyncSemophore {
    /// The number of permits.
    pub closed spec fn capacity(&self) -> nat {
        self.capacity as nat
    }

    /// The number of permits that are taken.
    pub closed spec fn count(&self) -> nat {
        self.count as nat
    }

    /// The wakers of the tasks that wait for a permit, longest wait first.
    pub closed spec fn waiting(&self) -> Seq<WakerExt> {
        self.waiting_wakers@
    }

    /// No more permits are taken than there are, and no task waits twice.
    pub closed spec fn wf(&self) -> bool {
        self.count <= self.capacity && self.waiting_wakers.wf()
    }

    /// A semaphore with `capacity` free permits.
    pub fn new(capacity: usize) -> (semophore: Self)
        ensures
            semophore.wf(),
            semophore.capacity() == capacity,
            semophore.count() == 0,
            semophore.waiting() == Seq::<WakerExt>::empty(),
    {
        AsyncSemophore { capacity, count: 0, waiting_wakers: WakerSet::new() }
    }

    /// The number of permits that are taken.
    pub fn taken(&self) -> (count: usize)
        ensures
            count == self.count(),
    {
        self.count
    }

    /// A request for a permit that was not polled yet.
    pub fn aquire(&self) -> (guard: AsyncSemophoreGuard)
        ensures
            !guard.is_fetched(),
            guard.registered().is_none(),
    {
        AsyncSemophoreGuard::new()
    }
}

impl AsyncSemophoreGuard {
    /// Whether this request holds a permit.
    pub closed spec fn is_fetched(&self) -> bool {
        self.fetched
    }

    /// The task whose waker this request has put among the waiting.
    pub closed spec fn registered(&self) -> Option<TaskId> {
        match self.dropper {
            Some(d) => Some(d.tid()),
            None => None,
        }
    }

    /// Whether this request holds a permit.
    pub fn fetched(&self) -> (fetched: bool)
        ensures
            fetched == self.is_fetched(),
    {
        self.fetched
    }

    /// A request that was not polled yet.
    pub fn new() -> (guard: Self)
        ensures
            !guard.is_fetched(),
            guard.registered().is_none(),
    {
        AsyncSemophoreGuard { fetched: false, dropper: None }
    }

    /// One poll. Where a permit is free the request takes it, the answer
    /// is `Ready`, and the task no longer waits. Where none is free the
    /// task of `waker` joins the waiting, or keeps its place among them,
    /// and the answer is `Pending`. A request that holds a permit answers
    /// `Ready` and changes nothing.
    pub fn poll(&mut self, semophore: &mut AsyncSemophore, waker: &WakerExt) -> (polled: Poll<()>)
        requires
            old(semophore).wf(),
        ensures
            final(semophore).wf(),
            final(semophore).capacity() == old(semophore).capacity(),
            (polled is Ready) == (old(self).is_fetched() || old(semophore).count() < old(semophore).capacity()),
            final(self).is_fetched() == (polled is Ready),
            final(semophore).count() == old(semophore).count() + (if poll_fetches(
                old(self).is_fetched(),
                old(semophore).count(),
                old(semophore).capacity(),
            ) {
                1nat
            } else {
                0nat
            }),
            final(semophore).waiting() == waiting_after_poll(
                old(semophore).waiting(),
                old(self).registered(),
                *waker,
                old(self).is_fetched(),
                poll_fetches(
                    old(self).is_fetched(),
                    old(semophore).count(),
                    old(semophore).capacity(),
                ),
            ),
            final(self).registered() == registered_after_poll(
                old(self).registered(),
                *waker,
                old(self).is_fetched(),
                poll_fetches(
                    old(self).is_fetched(),
                    old(semophore).count(),
                    old(semophore).capacity(),
                ),
            ),
    {
        if self.fetched {
            return Poll::Ready(());
        }
        let mut claim: Option<WakerSetDropper> = None;
        std::mem::swap(&mut self.dropper, &mut claim);
        if semophore.count < semophore.capacity {
            semophore.count = semophore.count + 1;
            self.fetched = true;
            match claim {
                Some(d) => {
                    d.release(&mut semophore.waiting_wakers);
                },
                None => {},
            }
            semophore.waiting_wakers.remove_waker(waker.get_task_attr().get_tid());
            Poll::Ready(())
        } else {
            self.dropper = Some(semophore.waiting_wakers.register(claim, *waker));
            Poll::Pending
        }
    }

    /// Ends the request. One that holds a permit gives it back, and the
    /// task that waited longest goes to the back of the ready queue. One
    /// that got no permit takes its waker back from the waiting and leaves
    /// the count as it is.
    pub fn release(self, semophore: &mut AsyncSemophore, rt: &mut Runtime)
        requires
            old(semophore).wf(),
            old(rt).wf(),
            self.is_fetched() ==> old(semophore).count() > 0,
        ensures
            final(semophore).wf(),
            final(rt).wf(),
            final(rt).only_ready_changed(*old(rt)),
            final(semophore).capacity() == old(semophore).capacity(),
            final(semophore).count() == old(semophore).count() - (if self.is_fetched() {
                1int
            } else {
                0int
            }),
            self.registered().is_some() ==> !has_handle(
                final(semophore).waiting(),
                self.registered().unwrap().0,
            ),
            released(
                self.is_fetched(),
                without_any(old(semophore).waiting(), self.registered()),
                final(semophore).waiting(),
                old(rt).ready(),
                final(rt).ready(),
            ),
    {
        let fetched = self.fetched;
        match self.dropper {
            Some(d) => {
                d.release(&mut semophore.waiting_wakers);
            },
            None => {},
        }
        if fetched {
            semophore.count = semophore.count - 1;
            match semophore.waiting_wakers.pop() {
                Some(waker) => {
                    rt.add_waker(waker);
                },
                None => {},
            }
        }
    }
}

/// What is done with a request for a permit.
pub enum PermitOp {
    /// The request with this number is polled.
    Poll(int),
    /// The request with this number is released.
    Release(int),
}

/// The number of taken permits and the state of the requests (for each,
/// whether it holds a permit) after `ops` were applied to a semaphore with
/// `capacity` free permits and `n` fresh requests. Operations on a request
/// that does not exist change nothing.
pub open spec fn permit_run(capacity: nat, n: nat, ops: Seq<PermitOp>) -> (nat, Seq<bool>)
    decreases ops.len(),
{
    if ops.len() == 0 {
        (0, Seq::new(n, |i: int| false))
    } else {
        let (count, guards) = permit_run(capacity, n, ops.drop_last());
        match ops.last() {
            PermitOp::Poll(i) => if 0 <= i < guards.len() {
                if poll_fetches(guards[i], count, capacity) {
                    (count + 1, guards.update(i, true))
                } else {
                    (count, guards)
                }
            } else {
                (count, guards)
            },
            PermitOp::Release(i) => if 0 <= i < guards.len() {
                if guards[i] {
                    ((count - 1) as nat, guards.update(i, false))
                } else {
                    (count, guards)
                }
            } else {
                (count, guards)
            },
        }
    }
}

/// Whatever is done with the requests for permits, in whatever order, the
/// requests that hold a permit are as many as the permits taken, and never
/// more than the semaphore has. Where there are no more requests than
/// permits, a request without a permit always finds one free: its next
/// poll is `Ready`.
pub proof fn lemma_semaphore_bound(capacity: nat, n: nat, ops: Seq<PermitOp>)
    ensures
        permit_run(capacity, n, ops).1.len() == n,
        holders(permit_run(capacity, n, ops).1) == permit_run(capacity, n, ops).0,
        permit_run(capacity, n, ops).0 <= capacity,
        n <= capacity ==> forall|i: int|
            0 <= i < n && !(#[trigger] permit_run(capacity, n, ops).1[i]) ==> permit_run(
                capacity,
                n,
                ops,
            ).0 < capacity,
    decreases ops.len(),
{
    if ops.len() == 0 {
        crate::sync::mutex::lemma_all_free(n);
    } else {
        lemma_semaphore_bound(capacity, n, ops.drop_last());
        let (count, guards) = permit_run(capacity, n, ops.drop_last());
        match ops.last() {
            PermitOp::Poll(i) => {
                if 0 <= i < guards.len() && poll_fetches(guards[i], count, capacity) {
                    lemma_holders_update(guards, i, true);
                }
            },
            PermitOp::Release(i) => {
                if 0 <= i < guards.len() && guards[i] {
                    lemma_holders_update(guards, i, false);
                }
            },
        }
    }
    let after = permit_run(capacity, n, ops);
    lemma_holders_bound(after.1);
    if n <= capacity {
        assert forall|i: int| 0 <= i < n && !(#[trigger] after.1[i]) implies after.0 < capacity by {
            assert(exists|j: int| 0 <= j < after.1.len() && !after.1[j]);
        }
    }
}

} // verus!
