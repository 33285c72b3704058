//! Deadlines: a queue of timers whose wakers can be revoked, and the
//! future that sleeps until a deadline.

use crate::collections::box_ptr_set::{BoxPtrSet, BoxPtrSetDropper, SetPtr};
use crate::runtime::Runtime;
use crate::task::waker_ext::WakerExt;
use crate::task::Poll;
use vstd::prelude::*;

verus! {

/// A deadline and the slot of the waker to wake at it.
#[derive(Clone, Copy, Debug, PartialEq, Eq, Structural)]
pub struct Timer {
    pub wake_at: u64,
    pub set_ptr: SetPtr,
}

impl Timer {
    /// The timer that wakes the waker in slot `set_ptr` at `wake_at`.
    pub fn new(wake_at: u64, set_ptr: SetPtr) -> (timer: Self)
        ensures
            timer.wake_at == wake_at,
            timer.set_ptr == set_ptr,
    {
        Timer { wake_at, set_ptr }
    }
}

/// Deadlines never decrease along `timers`.
pub open spec fn by_deadline(timers: Seq<Timer>) -> bool {
    forall|i: int, j: int|
        0 <= i <= j < timers.len() ==> (#[trigger] timers[i]).wake_at <= (#[trigger] timers[j]).wake_at
}

/// No slot is referred to by two of `timers`.
pub open spec fn distinct_slots(timers: Seq<Timer>) -> bool {
    forall|i: int, j: int|
        0 <= i < timers.len() && 0 <= j < timers.len() && i != j ==> (#[trigger] timers[i]).set_ptr
            != (#[trigger] timers[j]).set_ptr
}

/// `k` timers at the head of `timers` are due at `now`, and the one behind
/// them is not.
pub open spec fn is_due_count(timers: Seq<Timer>, now: u64, k: int) -> bool {
    &&& 0 <= k <= timers.len()
    &&& forall|i: int| 0 <= i < k ==> (#[trigger] timers[i]).wake_at <= now
    &&& k < timers.len() ==> timers[k].wake_at > now
}

/// The number of timers at the head of `timers` that are due at `now`.
pub open spec fn due_count(timers: Seq<Timer>, now: u64) -> int {
    choose|k: int| is_due_count(timers, now, k)
}

/// `k` timers at the head of `timers` have lost their slot, and the one
/// behind them has not.
pub open spec fn is_stale_count(timers: Seq<Timer>, slots: Map<usize, WakerExt>, k: int) -> bool {
    &&& 0 <= k <= timers.len()
    &&& forall|i: int| 0 <= i < k ==> !slots.contains_key((#[trigger] timers[i]).set_ptr.0)
    &&& k < timers.len() ==> slots.contains_key(timers[k].set_ptr.0)
}

/// The number of timers at the head of `timers` whose slot was revoked.
pub open spec fn stale_count(timers: Seq<Timer>, slots: Map<usize, WakerExt>) -> int {
    choose|k: int| is_stale_count(timers, slots, k)
}

/// Those of `timers` whose slot is still taken, in their order.
pub open spec fn fired(timers: Seq<Timer>, slots: Map<usize, WakerExt>) -> Seq<Timer>
    decreases timers.len(),
{
    if timers.len() == 0 {
        Seq::empty()
    } else {
        let rest = fired(timers.drop_last(), slots);
        if slots.contains_key(timers.last().set_ptr.0) {
            rest.push(timers.last())
        } else {
            rest
        }
    }
}

/// The wakers in the slots of `timers`, in the order of `timers`.
pub open spec fn wakers_of(timers: Seq<Timer>, slots: Map<usize, WakerExt>) -> Seq<WakerExt> {
    Seq::new(timers.len(), |i: int| slots[timers[i].set_ptr.0])
}

/// Whether one of `timers` refers to the slot at `p`.
pub open spec fn refers_to(timers: Seq<Timer>, p: usize) -> bool {
    exists|i: int| 0 <= i < timers.len() && (#[trigger] timers[i]).set_ptr.0 == p
}

/// The slots that none of `timers` refers to.
pub open spec fn without_slots(slots: Map<usize, WakerExt>, timers: Seq<Timer>) -> Map<
    usize,
    WakerExt,
> {
    slots.remove_keys(Set::new(|p: usize| refers_to(timers, p)))
}

/// At most one count of due timers fits a queue in deadline order.
pub proof fn lemma_due_count_unique(timers: Seq<Timer>, now: u64, k: int)
    requires
        by_deadline(timers),
        is_due_count(timers, now, k),
    ensures
        due_count(timers, now) == k,
{
    let c = due_count(timers, now);
    assert(is_due_count(timers, now, c));
    if c < k {
        assert(timers[c].wake_at <= now);
    } else if k < c {
        assert(timers[k].wake_at <= now);
    }
}

/// At most one count of stale timers fits a queue.
pub proof fn lemma_stale_count_unique(timers: Seq<Timer>, slots: Map<usize, WakerExt>, k: int)
    requires
        is_stale_count(timers, slots, k),
    ensures
        stale_count(timers, slots) == k,
{
    let c = stale_count(timers, slots);
    assert(is_stale_count(timers, slots, c));
    if c < k {
        assert(!slots.contains_key(timers[c].set_ptr.0));
    } else if k < c {
        assert(!slots.contains_key(timers[k].set_ptr.0));
    }
}

/// The timers that fire come out in deadline order, and each of them is one
/// of the timers that were due, with its slot still taken.
pub proof fn lemma_fired_in_deadline_order(timers: Seq<Timer>, slots: Map<usize, WakerExt>)
    requires
        by_deadline(timers),
    ensures
        by_deadline(fired(timers, slots)),
        fired(timers, slots).len() <= timers.len(),
        forall|k: int|
            0 <= k < fired(timers, slots).len() ==> slots.contains_key(
                (#[trigger] fired(timers, slots)[k]).set_ptr.0,
            ) && timers.contains(fired(timers, slots)[k]),
    decreases timers.len(),
{
    if timers.len() > 0 {
        let head = timers.drop_last();
        lemma_fired_in_deadline_order(head, slots);
        let rest = fired(head, slots);
        let all = fired(timers, slots);
        assert forall|k: int| 0 <= k < rest.len() implies timers.contains(#[trigger] rest[k])
            && rest[k].wake_at <= timers.last().wake_at by {
            assert(head.contains(rest[k]));
            let j = choose|j: int| 0 <= j < head.len() && head[j] == rest[k];
            assert(timers[j] == rest[k]);
        }
        assert(timers[timers.len() - 1] == timers.last());
        assert forall|k: int| 0 <= k < all.len() implies slots.contains_key(
            (#[trigger] all[k]).set_ptr.0,
        ) && timers.contains(all[k]) by {
            if k < rest.len() {
                assert(all[k] == rest[k]);
            }
        }
        assert forall|i: int, j: int| 0 <= i <= j < all.len() implies (#[trigger] all[i]).wake_at <= (
        #[trigger] all[j]).wake_at by {
            if j < rest.len() {
                assert(all[i] == rest[i] && all[j] == rest[j]);
            } else if i < rest.len() {
                assert(all[i] == rest[i]);
            }
        }
    }
}

/// Timers in deadline order, earliest first, beside the slots that hold
/// their wakers. A timer whose slot was revoked stays in the queue until it
/// comes to the head.
pub struct PriorityTimerQueue {
    inner: Vec<Timer>,
    set: BoxPtrSet<WakerExt>,
}

impl PriorityTimerQueue {
    /// The queued timers, earliest deadline first.
    pub closed spec fn timers(&self) -> Seq<Timer> {
        self.inner@
    }

    /// The wakers that still wait for a timer, by slot.
    pub closed spec fn slots(&self) -> Map<usize, WakerExt> {
        self.set@
    }

    /// The address of the slot that the next timer gets.
    pub closed spec fn next_slot(&self) -> usize {
        self.set.next()
    }

    /// The timers are in deadline order and refer to different slots, all
    /// of which were given out.
    pub closed spec fn wf(&self) -> bool {
        &&& self.set.wf()
        &&& by_deadline(self.inner@)
        &&& distinct_slots(self.inner@)
        &&& forall|i: int| 0 <= i < self.inner@.len() ==> (#[trigger] self.inner@[i]).set_ptr.0 < self.set.next()
    }

    /// Whether one more timer can be added.
    pub closed spec fn has_room(&self) -> bool {
        self.set.has_room()
    }

    /// How the queue `self` differs from `before` once a timer for `waker`
    /// at `wake_at` was added in the slot `ptr`.
    pub open spec fn timer_added(
        &self,
        before: PriorityTimerQueue,
        wake_at: u64,
        waker: WakerExt,
        ptr: SetPtr,
    ) -> bool {
        &&& ptr.0 == before.next_slot()
        &&& self.next_slot() == before.next_slot() + 1
        &&& !before.slots().contains_key(ptr.0)
        &&& self.slots() == before.slots().insert(ptr.0, waker)
        &&& self.timers() == before.timers().insert(
            due_count(before.timers(), wake_at),
            Timer { wake_at, set_ptr: ptr },
        )
    }

    /// How the queue `self` differs from `before` once the waker in the
    /// slot `ptr` was revoked.
    pub open spec fn timer_revoked(&self, before: PriorityTimerQueue, ptr: SetPtr) -> bool {
        &&& self.has_room() == before.has_room()
        &&& self.next_slot() == before.next_slot()
        &&& self.timers() == before.timers()
        &&& self.slots() == before.slots().remove(ptr.0)
    }

    /// The wakers that the timers due at `now` wake, earliest deadline
    /// first: those whose slot was not revoked.
    pub open spec fn due_wakers(&self, now: u64) -> Seq<WakerExt> {
        wakers_of(
            fired(self.timers().subrange(0, due_count(self.timers(), now)), self.slots()),
            self.slots(),
        )
    }

    /// How the queue `self` differs from `before` once the timers due at
    /// `now` were taken off.
    pub open spec fn got_wakers(&self, before: PriorityTimerQueue, now: u64) -> bool {
        &&& self.has_room() == before.has_room()
        &&& self.next_slot() == before.next_slot()
        &&& self.timers() == before.timers().subrange(
            due_count(before.timers(), now),
            before.timers().len() as int,
        )
        &&& self.slots() == without_slots(
            before.slots(),
            before.timers().subrange(0, due_count(before.timers(), now)),
        )
    }

    /// How the queue `self` differs from `before` once the revoked timers
    /// at its head were discarded, and the time `wait` to the next deadline.
    pub open spec fn delayed(
        &self,
        before: PriorityTimerQueue,
        now: u64,
        can_finish: bool,
        wait: Option<u64>,
    ) -> bool {
        &&& self.has_room() == before.has_room()
        &&& self.next_slot() == before.next_slot()
        &&& self.slots() == before.slots()
        &&& self.timers() == before.timers().subrange(
            stale_count(before.timers(), before.slots()),
            before.timers().len() as int,
        )
        &&& self.timers().len() > 0 ==> self.slots().contains_key(self.timers()[0].set_ptr.0)
        &&& wait == if can_finish {
            Some(0u64)
        } else if self.timers().len() == 0 {
            None
        } else if self.timers()[0].wake_at <= now {
            Some(0u64)
        } else {
            Some((self.timers()[0].wake_at - now) as u64)
        }
    }

    /// A queue without timers.
    pub fn new() -> (queue: Self)
        ensures
            queue.wf(),
            queue.has_room(),
            queue.timers() == Seq::<Timer>::empty(),
            queue.slots() == Map::<usize, WakerExt>::empty(),
    {
        PriorityTimerQueue { inner: Vec::new(), set: BoxPtrSet::new() }
    }

    /// Whether one more timer can be added.
    pub fn can_add(&self) -> (room: bool)
        ensures
            room == self.has_room(),
    {
        self.set.can_insert()
    }

    /// Whether the slot claimed by `dropper` still holds its waker.
    pub fn is_waiting(&self, dropper: &BoxPtrSetDropper) -> (waiting: bool)
        ensures
            waiting == self.slots().contains_key(dropper.ptr().0),
    {
        self.set.contains(&dropper.set_ptr())
    }

    fn count_due(&self, now: u64) -> (k: usize)
        requires
            self.wf(),
        ensures
            is_due_count(self.timers(), now, k as int),
            k as int == due_count(self.timers(), now),
    {
        let mut k: usize = 0;
        while k < self.inner.len() && self.inner[k].wake_at <= now
            invariant
                k <= self.inner@.len(),
                forall|i: int| 0 <= i < k ==> (#[trigger] self.inner@[i]).wake_at <= now,
            decreases self.inner@.len() - k,
        {
            k = k + 1;
        }
        proof {
            lemma_due_count_unique(self.inner@, now, k as int);
        }
        k
    }

    /// Queues a timer that wakes `waker` at `wake_at`, behind the timers
    /// with the same or an earlier deadline, and returns the claim by which
    /// the waker is revoked.
    pub fn add_timer(&mut self, wake_at: u64, waker: WakerExt) -> (dropper: BoxPtrSetDropper)
        requires
            old(self).wf(),
            old(self).has_room(),
        ensures
            final(self).wf(),
            final(self).timer_added(*old(self), wake_at, waker, dropper.ptr()),
    {
        let ghost before = self.inner@;
        let at = self.count_due(wake_at);
        let set_ptr = self.set.insert(waker);
        let timer = Timer::new(wake_at, set_ptr);
        self.inner.insert(at, timer);
        proof {
            let now = self.inner@;
            assert(now == before.insert(at as int, timer));
            assert forall|i: int| 0 <= i < now.len() implies (#[trigger] now[i]).set_ptr.0
                < self.set.next() by {
                if i < at {
                    assert(now[i] == before[i]);
                } else if i > at {
                    assert(now[i] == before[i - 1]);
                }
            }
            assert forall|i: int, j: int| 0 <= i <= j < now.len() implies (#[trigger] now[i]).wake_at
                <= (#[trigger] now[j]).wake_at by {
                let i0 = if i < at { i } else { i - 1 };
                let j0 = if j < at { j } else { j - 1 };
                if i != at {
                    assert(now[i] == before[i0]);
                }
                if j != at {
                    assert(now[j] == before[j0]);
                }
                if i == at && j != at {
                    assert(before[at as int].wake_at <= before[j0].wake_at);
                }
            }
            assert forall|i: int, j: int|
                0 <= i < now.len() && 0 <= j < now.len() && i != j implies (#[trigger] now[i]).set_ptr
                != (#[trigger] now[j]).set_ptr by {
                let i0 = if i < at { i } else { i - 1 };
                let j0 = if j < at { j } else { j - 1 };
                if i != at {
                    assert(now[i] == before[i0]);
                }
                if j != at {
                    assert(now[j] == before[j0]);
                }
            }
        }
        self.set.build_dropper(set_ptr)
    }

    /// Takes the timers that are due at `now` off the queue and returns the
    /// wakers of those whose slot was not revoked, earliest deadline first.
    /// Their slots are freed.
    pub fn get_wakers(&mut self, now: u64) -> (wakers: Vec<WakerExt>)
        requires
            old(self).wf(),
        ensures
            final(self).wf(),
            final(self).got_wakers(*old(self), now),
            wakers@ == old(self).due_wakers(now),
    {
        let ghost timers = self.inner@;
        let ghost slots = self.set@;
        let k = self.count_due(now);
        let mut wakers: Vec<WakerExt> = Vec::new();
        let mut i: usize = 0;
        while i < k
            invariant
                i <= k <= timers.len(),
                self.inner@ == timers,
                distinct_slots(timers),
                self.set.wf(),
                self.set.next() == old(self).set.next(),
                self.set@ == without_slots(slots, timers.subrange(0, i as int)),
                wakers@ == wakers_of(fired(timers.subrange(0, i as int), slots), slots),
            decreases k - i,
        {
            let timer = self.inner[i];
            let ghost set_before = self.set@;
            let ghost out_before = wakers@;
            let taken = self.set.remove(&timer.set_ptr);
            proof {
                let done = timers.subrange(0, i as int);
                let more = timers.subrange(0, i as int + 1);
                assert(more.drop_last() == done);
                assert(more.last() == timer);
                assert(set_before.contains_key(timer.set_ptr.0) == slots.contains_key(
                    timer.set_ptr.0,
                )) by {
                    assert forall|j: int| 0 <= j < done.len() implies (#[trigger] done[j]).set_ptr.0
                        != timer.set_ptr.0 by {
                        assert(done[j] == timers[j]);
                        assert(timers[j].set_ptr != timers[i as int].set_ptr);
                    }
                }
                assert(self.set@ =~= without_slots(slots, more)) by {
                    assert forall|p: usize| #[trigger]
                        refers_to(more, p) <==> (p == timer.set_ptr.0 || refers_to(done, p)) by {
                        if refers_to(more, p) {
                            let j = choose|j: int|
                                0 <= j < more.len() && (#[trigger] more[j]).set_ptr.0 == p;
                            if j < done.len() {
                                assert(done[j].set_ptr.0 == p);
                            }
                        }
                        if p == timer.set_ptr.0 {
                            assert(more[i as int].set_ptr.0 == p);
                        }
                        if refers_to(done, p) {
                            let j = choose|j: int|
                                0 <= j < done.len() && (#[trigger] done[j]).set_ptr.0 == p;
                            assert(more[j].set_ptr.0 == p);
                        }
                    }
                }
            }
            match taken {
                Some(waker) => {
                    wakers.push(waker);
                    proof {
                        let done = timers.subrange(0, i as int);
                        let more = timers.subrange(0, i as int + 1);
                        assert(fired(more, slots) == fired(done, slots).push(timer));
                        assert(wakers@ =~= wakers_of(fired(more, slots), slots));
                    }
                },
                None => {
                    proof {
                        let done = timers.subrange(0, i as int);
                        let more = timers.subrange(0, i as int + 1);
                        assert(fired(more, slots) == fired(done, slots));
                    }
                },
            }
            i = i + 1;
        }
        let mut rest = self.inner.split_off(k);
        std::mem::swap(&mut self.inner, &mut rest);
        proof {
            let now_timers = self.inner@;
            assert(now_timers == timers.subrange(k as int, timers.len() as int));
            assert forall|a: int| 0 <= a < now_timers.len() implies (#[trigger] now_timers[a])
                == timers[a + k] by {}
            assert(by_deadline(now_timers)) by {
                assert forall|a: int, b: int| 0 <= a <= b < now_timers.len() implies (
                #[trigger] now_timers[a]).wake_at <= (#[trigger] now_timers[b]).wake_at by {
                    assert(now_timers[a] == timers[a + k]);
                    assert(now_timers[b] == timers[b + k]);
                }
            }
            assert(distinct_slots(now_timers)) by {
                assert forall|a: int, b: int|
                    0 <= a < now_timers.len() && 0 <= b < now_timers.len() && a != b implies (
                #[trigger] now_timers[a]).set_ptr != (#[trigger] now_timers[b]).set_ptr by {
                    assert(now_timers[a] == timers[a + k]);
                    assert(now_timers[b] == timers[b + k]);
                }
            }
        }
        wakers
    }

    /// Discards the timers at the head of the queue whose slot was revoked
    /// and says how long to wait for the next deadline: not at all where
    /// the executor could finish (`can_finish`) or the deadline has passed,
    /// without limit (`None`) where no timer is left.
    pub fn delay(&mut self, now: u64, can_finish: bool) -> (wait: Option<u64>)
        requires
            old(self).wf(),
        ensures
            final(self).wf(),
            final(self).delayed(*old(self), now, can_finish, wait),
    {
        let ghost timers = self.inner@;
        let mut k: usize = 0;
        while k < self.inner.len() && !self.set.contains(&self.inner[k].set_ptr)
            invariant
                k <= self.inner@.len(),
                self.inner@ == timers,
                self.set@ == old(self).set@,
                forall|i: int| 0 <= i < k ==> !self.set@.contains_key((#[trigger] timers[i]).set_ptr.0),
            decreases self.inner@.len() - k,
        {
            k = k + 1;
        }
        proof {
            lemma_stale_count_unique(timers, self.set@, k as int);
        }
        let mut rest = self.inner.split_off(k);
        std::mem::swap(&mut self.inner, &mut rest);
        proof {
            let now_timers = self.inner@;
            assert(now_timers == timers.subrange(k as int, timers.len() as int));
            assert forall|a: int| 0 <= a < now_timers.len() implies (#[trigger] now_timers[a])
                == timers[a + k] by {}
            assert(by_deadline(now_timers)) by {
                assert forall|a: int, b: int| 0 <= a <= b < now_timers.len() implies (
                #[trigger] now_timers[a]).wake_at <= (#[trigger] now_timers[b]).wake_at by {
                    assert(now_timers[a] == timers[a + k]);
                    assert(now_timers[b] == timers[b + k]);
                }
            }
            assert(distinct_slots(now_timers)) by {
                assert forall|a: int, b: int|
                    0 <= a < now_timers.len() && 0 <= b < now_timers.len() && a != b implies (
                #[trigger] now_timers[a]).set_ptr != (#[trigger] now_timers[b]).set_ptr by {
                    assert(now_timers[a] == timers[a + k]);
                    assert(now_timers[b] == timers[b + k]);
                }
            }
            if now_timers.len() > 0 {
                assert(now_timers[0] == timers[k as int]);
            }
        }
        if can_finish {
            return Some(0);
        }
        if self.inner.len() == 0 {
            None
        } else {
            let wake_at = self.inner[0].wake_at;
            if wake_at <= now {
                Some(0)
            } else {
                Some(wake_at - now)
            }
        }
    }

    /// Revokes the waker claimed by `dropper`: its slot is freed, and the
    /// timer that refers to it will fire for nobody.
    pub fn revoke(&mut self, dropper: BoxPtrSetDropper)
        requires
            old(self).wf(),
        ensures
            final(self).wf(),
            final(self).timer_revoked(*old(self), dropper.ptr()),
            !final(self).slots().contains_key(dropper.ptr().0),
    {
        let _ = dropper.release(&mut self.set);
    }
}

/// The future that is done once its deadline has come.
pub struct Sleeper {
    wake_at: u64,
    dropper: Option<BoxPtrSetDropper>,
}

impl Sleeper {
    /// The deadline.
    pub closed spec fn wake_at(&self) -> u64 {
        self.wake_at
    }

    /// The slot of the timer that this sleeper has queued, if it has.
    pub closed spec fn timer(&self) -> Option<SetPtr> {
        match self.dropper {
            Some(d) => Some(d.ptr()),
            None => None,
        }
    }

    /// A sleeper that is done from `wake_at` on.
    pub fn until(wake_at: u64) -> (sleeper: Self)
        ensures
            sleeper.wake_at() == wake_at,
            sleeper.timer().is_none(),
    {
        Sleeper { wake_at, dropper: None }
    }

    /// A sleeper that is done `delay` after `now`.
    pub fn delay(now: u64, delay: u64) -> (sleeper: Self)
        requires
            now + delay <= u64::MAX,
        ensures
            sleeper.wake_at() == now + delay,
            sleeper.timer().is_none(),
    {
        Sleeper::until(now + delay)
    }

    /// One poll at `now`: `Ready` exactly if the deadline has come. Before
    /// the deadline the first poll queues a timer that wakes `waker` at the
    /// deadline; a later poll adds none.
    pub fn poll(&mut self, rt: &mut Runtime, now: u64, waker: &WakerExt) -> (polled: Poll<()>)
        requires
            old(rt).wf(),
            now < old(self).wake_at() && old(self).timer().is_none() ==> old(rt).poller().queue().has_room(),
        ensures
            final(rt).wf(),
            final(self).wake_at() == old(self).wake_at(),
            (polled is Ready) == (now >= old(self).wake_at()),
            final(rt).only_poller_changed(*old(rt)),
            final(rt).poller().sources() == old(rt).poller().sources(),
            if now < old(self).wake_at() && old(self).timer().is_none() {
                final(self).timer().is_some() && final(rt).poller().queue().timer_added(
                    old(rt).poller().queue(),
                    old(self).wake_at(),
                    *waker,
                    final(self).timer().unwrap(),
                )
            } else {
                final(self).timer() == old(self).timer() && final(rt).poller() == old(rt).poller()
            },
    {
        if now < self.wake_at {
            if self.dropper.is_none() {
                self.dropper = Some(rt.add_timer(self.wake_at, *waker));
            }
            Poll::Pending
        } else {
            Poll::Ready(())
        }
    }

    /// Gives the sleep up: the timer, if one was queued, will wake nobody.
    pub fn cancel(self, rt: &mut Runtime)
        requires
            old(rt).wf(),
        ensures
            final(rt).wf(),
            final(rt).only_poller_changed(*old(rt)),
            final(rt).poller().sources() == old(rt).poller().sources(),
            match self.timer() {
                Some(ptr) => final(rt).poller().queue().timer_revoked(old(rt).poller().queue(), ptr)
                    && !final(rt).poller().queue().slots().contains_key(ptr.0),
                None => final(rt).poller() == old(rt).poller(),
            },
    {
        match self.dropper {
            Some(d) => {
                rt.revoke_timer(d);
            },
            None => {},
        }
    }
}

} // verus!
