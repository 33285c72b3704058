//! A lock that tasks wait for without blocking the executor.

use crate::collections::hash_set::has_handle;
use crate::runtime::Runtime;
use crate::sync::{holders, lemma_holders_bound, lemma_holders_update};
use crate::task::task_id::TaskId;
use crate::task::waker_ext::{
    registered_again, without, without_any, WakerExt, WakerSet, WakerSetDropper,
};
use crate::task::Poll;
use vstd::prelude::*;

verus! {

/// A value that one task at a time may use.
pub struct AsyncMutex<T> {
    occupied: bool,
    waiting_wakers: WakerSet,
    data: T,
}

/// A request for the lock. It holds the lock from the poll that answers
/// `Ready` until it is released.
pub struct AsyncMutexGuard {
    holding: bool,
    dropper: Option<WakerSetDropper>,
}

/// Whether a poll of a request acquires the lock: the request does not
/// hold it yet, and nobody else does.
pub open spec fn poll_acquires(holding: bool, occupied: bool) -> bool {
    !holding && !occupied
}

impl<T> AsyncMutex<T> {
    /// Whether the lock is held.
    pub closed spec fn is_occupied(&self) -> bool {
        self.occupied
    }

    /// The wakers of the tasks that wait for the lock, longest wait first.
    pub closed spec fn waiting(&self) -> Seq<WakerExt> {
        self.waiting_wakers@
    }

    /// The guarded value.
    pub closed spec fn value(&self) -> T {
        self.data
    }

    /// No task waits twice.
    pub closed spec fn wf(&self) -> bool {
        self.waiting_wakers.wf()
    }

    /// A free lock around `value`.
    pub fn new(value: T) -> (mtx: Self)
        ensures
            mtx.wf(),
            !mtx.is_occupied(),
            mtx.waiting() == Seq::<WakerExt>::empty(),
            mtx.value() == value,
    {
        AsyncMutex { occupied: false, waiting_wakers: WakerSet::new(), data: value }
    }

    /// Whether the lock is held.
    pub fn occupied(&self) -> (occupied: bool)
        ensures
            occupied == self.is_occupied(),
    {
        self.occupied
    }

    /// A request for the lock that was not polled yet.
    pub fn lock(&self) -> (guard: AsyncMutexGuard)
        ensures
            !guard.is_holding(),
            guard.registered().is_none(),
    {
        AsyncMutexGuard::new()
    }
}

impl AsyncMutexGuard {
    /// Whether this request holds the lock.
    pub closed spec fn is_holding(&self) -> bool {
        self.holding
    }

    /// The task whose waker this request has put among the waiting.
    pub closed spec fn registered(&self) -> Option<TaskId> {
        match self.dropper {
            Some(d) => Some(d.tid()),
            None => None,
        }
    }

    /// A request that was not polled yet.
    pub fn new() -> (guard: Self)
        ensures
            !guard.is_holding(),
            guard.registered().is_none(),
    {
        AsyncMutexGuard { holding: false, dropper: None }
    }

    /// Whether this request holds the lock.
    pub fn holding(&self) -> (holding: bool)
        ensures
            holding == self.is_holding(),
    {
        self.holding
    }

    /// One poll. Every poll tries to take the lock: a free lock is taken,
    /// the answer is `Ready`, and the task no longer waits. At a held lock
    /// the task of `waker` joins the waiting, or keeps its place among
    /// them, and the answer is `Pending`. A request that holds the lock
    /// answers `Ready` and changes nothing.
    pub fn poll<T>(&mut self, mtx: &mut AsyncMutex<T>, waker: &WakerExt) -> (polled: Poll<()>)
        requires
            old(mtx).wf(),
        ensures
            final(mtx).wf(),
            lock_polled(*old(mtx), *final(mtx), *old(self), *final(self), *waker, polled),
    {
        if self.holding {
            return Poll::Ready(());
        }
        let mut claim: Option<WakerSetDropper> = None;
        std::mem::swap(&mut self.dropper, &mut claim);
        if !mtx.occupied {
            mtx.occupied = true;
            self.holding = true;
            match claim {
                Some(d) => {
                    d.release(&mut mtx.waiting_wakers);
                },
                None => {},
            }
            mtx.waiting_wakers.remove_waker(waker.get_task_attr().get_tid());
            Poll::Ready(())
        } else {
            self.dropper = Some(mtx.waiting_wakers.register(claim, *waker));
            Poll::Pending
        }
    }

    /// The guarded value, for the holder of the lock.
    pub fn get<'a, T>(&self, mtx: &'a AsyncMutex<T>) -> (value: &'a T)
        requires
            self.is_holding(),
        ensures
            *value == mtx.value(),
    {
        &mtx.data
    }

    /// The guarded value, to be changed by the holder of the lock.
    pub fn get_mut<'a, T>(&self, mtx: &'a mut AsyncMutex<T>) -> (value: &'a mut T)
        requires
            self.is_holding(),
        ensures
            *value == old(mtx).value(),
            final(mtx).value() == *final(value),
            final(mtx).wf() == old(mtx).wf(),
            final(mtx).is_occupied() == old(mtx).is_occupied(),
            final(mtx).waiting() == old(mtx).waiting(),
    {
        &mut mtx.data
    }

    /// Puts `value` in place of the guarded value and returns the old one,
    /// for the holder of the lock.
    pub fn replace<T>(&self, mtx: &mut AsyncMutex<T>, value: T) -> (before: T)
        requires
            self.is_holding(),
        ensures
            before == old(mtx).value(),
            final(mtx).value() == value,
            final(mtx).wf() == old(mtx).wf(),
            final(mtx).is_occupied() == old(mtx).is_occupied(),
            final(mtx).waiting() == old(mtx).waiting(),
    {
        let mut value = value;
        std::mem::swap(&mut mtx.data, &mut value);
        value
    }

    /// Ends the request. A holder frees the lock, and the task that waited
    /// longest goes to the back of the ready queue. A request that did not
    /// get the lock takes its waker back from the waiting.
    pub fn release<T>(self, mtx: &mut AsyncMutex<T>, rt: &mut Runtime)
        requires
            old(mtx).wf(),
            old(rt).wf(),
            self.is_holding() ==> old(mtx).is_occupied(),
        ensures
            final(mtx).wf(),
            final(rt).wf(),
            final(rt).only_ready_changed(*old(rt)),
            lock_released(*old(mtx), *final(mtx), self, old(rt).ready(), final(rt).ready()),
    {
        let holding = self.holding;
        match self.dropper {
            Some(d) => {
                d.release(&mut mtx.waiting_wakers);
            },
            None => {},
        }
        if holding {
            mtx.occupied = false;
            match mtx.waiting_wakers.pop() {
                Some(waker) => {
                    rt.add_waker(waker);
                },
                None => {},
            }
        }
    }
}

/// What one poll of the request `guard` by the task of `waker` does to
/// the lock and to the request, and what it answers.
pub open spec fn lock_polled<T>(
    before: AsyncMutex<T>,
    after: AsyncMutex<T>,
    guard: AsyncMutexGuard,
    guard_after: AsyncMutexGuard,
    waker: WakerExt,
    polled: Poll<()>,
) -> bool {
    let acquires = poll_acquires(guard.is_holding(), before.is_occupied());
    &&& after.value() == before.value()
    &&& (polled is Ready) == (guard.is_holding() || !before.is_occupied())
    &&& guard_after.is_holding() == (guard.is_holding() || acquires)
    &&& after.is_occupied() == (before.is_occupied() || acquires)
    &&& after.waiting() == waiting_after_poll(
        before.waiting(),
        guard.registered(),
        waker,
        guard.is_holding(),
        acquires,
    )
    &&& guard_after.registered() == registered_after_poll(
        guard.registered(),
        waker,
        guard.is_holding(),
        acquires,
    )
}

/// What the release of the request `guard` does to the lock and to the
/// ready queue: the lock is free unless another request holds it, the
/// waker that the request had claimed waits no longer, and a holder wakes
/// the one that waited longest.
pub open spec fn lock_released<T>(
    before: AsyncMutex<T>,
    after: AsyncMutex<T>,
    guard: AsyncMutexGuard,
    ready: Seq<WakerExt>,
    ready_after: Seq<WakerExt>,
) -> bool {
    &&& after.value() == before.value()
    &&& after.is_occupied() == (before.is_occupied() && !guard.is_holding())
    &&& guard.registered().is_some() ==> !has_handle(after.waiting(), guard.registered().unwrap().0)
    &&& released(
        guard.is_holding(),
        without_any(before.waiting(), guard.registered()),
        after.waiting(),
        ready,
        ready_after,
    )
}

/// Those who wait after a poll of a request. A request that holds already
/// changes nothing. One that acquires leaves the waiting: the waker it had
/// claimed and the waker of the polling task go. Any other joins them, or
/// keeps its place where it waited already.
pub open spec fn waiting_after_poll(
    waiting: Seq<WakerExt>,
    registered: Option<TaskId>,
    waker: WakerExt,
    held: bool,
    acquires: bool,
) -> Seq<WakerExt> {
    if held {
        waiting
    } else if acquires {
        without(without_any(waiting, registered), waker.tid())
    } else {
        registered_again(waiting, registered, waker)
    }
}

/// The task whose waker a request claims after a poll: none once it
/// acquired, the polling task while it waits.
pub open spec fn registered_after_poll(
    registered: Option<TaskId>,
    waker: WakerExt,
    held: bool,
    acquires: bool,
) -> Option<TaskId> {
    if held {
        registered
    } else if acquires {
        None
    } else {
        Some(waker.tid())
    }
}

/// What a release does after the request's own waker was revoked and
/// `waiting` were left: a holder wakes the one that waited longest, a
/// request that did not hold wakes nobody.
pub open spec fn released(
    holding: bool,
    waiting: Seq<WakerExt>,
    waiting_after: Seq<WakerExt>,
    ready: Seq<WakerExt>,
    ready_after: Seq<WakerExt>,
) -> bool {
    if holding && waiting.len() > 0 {
        waiting_after == waiting.remove(0) && ready_after == ready.push(waiting[0])
    } else {
        waiting_after == waiting && ready_after == ready
    }
}

/// What is done with a request for the lock.
pub enum LockOp {
    /// The request with this number is polled.
    Poll(int),
    /// The request with this number is released.
    Release(int),
}

/// The state of a lock and of the requests for it (for each, whether it
/// holds the lock) after `ops` were applied to a free lock and `n` fresh
/// requests. Operations on a request that does not exist change nothing.
pub open spec fn lock_run(n: nat, ops: Seq<LockOp>) -> (bool, Seq<bool>)
    decreases ops.len(),
{
    if ops.len() == 0 {
        (false, Seq::new(n, |i: int| false))
    } else {
        let (occupied, guards) = lock_run(n, ops.drop_last());
        match ops.last() {
            LockOp::Poll(i) => if 0 <= i < guards.len() {
                (
                    occupied || poll_acquires(guards[i], occupied),
                    guards.update(i, guards[i] || poll_acquires(guards[i], occupied)),
                )
            } else {
                (occupied, guards)
            },
            LockOp::Release(i) => if 0 <= i < guards.len() {
                (occupied && !guards[i], guards.update(i, false))
            } else {
                (occupied, guards)
            },
        }
    }
}

/// Whatever is done with the requests for a lock, in whatever order, at
/// most one of them holds the lock at a time, and one does exactly while
/// the lock is held.
pub proof fn lemma_mutex_exclusion(n: nat, ops: Seq<LockOp>)
    ensures
        lock_run(n, ops).1.len() == n,
        holders(lock_run(n, ops).1) <= 1,
        lock_run(n, ops).0 == (holders(lock_run(n, ops).1) == 1),
    decreases ops.len(),
{
    if ops.len() == 0 {
        lemma_all_free(n);
    } else {
        lemma_mutex_exclusion(n, ops.drop_last());
        let (occupied, guards) = lock_run(n, ops.drop_last());
        match ops.last() {
            LockOp::Poll(i) => {
                if 0 <= i < guards.len() {
                    lemma_holders_update(guards, i, guards[i] || poll_acquires(guards[i], occupied));
                    if guards[i] {
                        lemma_holders_bound(guards);
                    }
                }
            },
            LockOp::Release(i) => {
                if 0 <= i < guards.len() {
                    lemma_holders_update(guards, i, false);
                    if guards[i] {
                        lemma_holders_bound(guards);
                    }
                }
            },
        }
    }
}

/// Among fresh requests nobody holds.
pub proof fn lemma_all_free(n: nat)
    ensures
        holders(Seq::new(n, |i: int| false)) == 0,
    decreases n,
{
    if n > 0 {
        lemma_all_free((n - 1) as nat);
        assert(Seq::new(n, |i: int| false).drop_last() =~= Seq::new((n - 1) as nat, |i: int| false));
    }
}

} // verus!
