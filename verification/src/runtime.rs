//! The state of the runtime: the live tasks, the ready queue, the poller
//! and the stop flag, and the operations that schedule.

use crate::collections::box_ptr_set::BoxPtrSetDropper;
use crate::collections::hash_set::{has_handle, HashSetExt};
use crate::io_event::{Event, Interest, IoEventHandler};
use crate::poller::{deliver, io_polled, poll_wakers, waiting_for, Poller, ReadyEvent};
use crate::task::Poll;
use crate::task::task_id::{
    cur_after_gen, lemma_task_ids_as_set, next_id, pool_after_gen, TaskId, TaskIdGenerator,
};
use crate::task::waker_ext::{WakerExt, WakerSet, WakerSetDropper};
use crate::task::{TTaskClear, Task};
use std::collections::VecDeque;
use vstd::prelude::*;

verus! {

/// What the executor does next.
#[derive(Clone, Copy, Debug, PartialEq, Eq, Structural)]
pub enum Step {
    /// Wake this waker: poll its task once.
    Wake(WakerExt),
    /// Nothing is ready: wait for the operating system, at most this long
    /// (without limit where `None`), then report with `wait`.
    Park(Option<u64>),
    /// No task is left to run.
    Done,
}

/// Everything the executor owns.
pub struct Runtime {
    ids: TaskIdGenerator,
    total_tasks: HashSetExt<TaskId>,
    ready_wakers: VecDeque<WakerExt>,
    poller: Poller,
    stopped: bool,
    max_wait: u64,
    stop_waiters: WakerSet,
}

impl Runtime {
    /// The tasks that exist.
    pub closed spec fn live_tasks(&self) -> Set<TaskId> {
        self.total_tasks@.to_set()
    }

    /// The wakers scheduled for polling, next one first.
    pub closed spec fn ready(&self) -> Seq<WakerExt> {
        self.ready_wakers@
    }

    /// The poller.
    pub closed spec fn poller(&self) -> Poller {
        self.poller
    }

    /// The allocator of task identifiers.
    pub closed spec fn generator(&self) -> TaskIdGenerator {
        self.ids
    }

    /// Whether a stop was requested.
    pub closed spec fn is_stopped(&self) -> bool {
        self.stopped
    }

    /// How long a requested stop waits for the tasks, in milliseconds.
    pub closed spec fn max_wait(&self) -> u64 {
        self.max_wait
    }

    /// The wakers to wake when a stop is requested.
    pub closed spec fn stop_waiters(&self) -> Seq<WakerExt> {
        self.stop_waiters@
    }

    /// Every part is valid, and every live task has an identifier in use.
    pub closed spec fn wf(&self) -> bool {
        &&& self.ids.wf()
        &&& self.total_tasks.wf()
        &&& self.poller.wf()
        &&& self.stop_waiters.wf()
        &&& forall|i: int|
            0 <= i < self.total_tasks@.len() ==> self.ids.live().contains(
                (#[trigger] self.total_tasks@[i]).0,
            )
    }

    /// Whether another task can be given an identifier.
    pub open spec fn can_spawn(&self) -> bool {
        self.generator().has_room()
    }

    /// Nothing but the ready queue differs between `self` and `before`.
    pub open spec fn only_ready_changed(&self, before: Runtime) -> bool {
        &&& self.live_tasks() == before.live_tasks()
        &&& self.poller() == before.poller()
        &&& self.generator() == before.generator()
        &&& self.is_stopped() == before.is_stopped()
        &&& self.max_wait() == before.max_wait()
        &&& self.stop_waiters() == before.stop_waiters()
    }

    /// Nothing but the poller differs between `self` and `before`.
    pub open spec fn only_poller_changed(&self, before: Runtime) -> bool {
        &&& self.live_tasks() == before.live_tasks()
        &&& self.ready() == before.ready()
        &&& self.generator() == before.generator()
        &&& self.is_stopped() == before.is_stopped()
        &&& self.max_wait() == before.max_wait()
        &&& self.stop_waiters() == before.stop_waiters()
    }

    /// A runtime without tasks; a requested stop waits one second.
    pub fn new() -> (rt: Self)
        ensures
            rt.wf(),
            rt.can_spawn(),
            rt.generator().cur() == 0,
            rt.generator().pool() == Seq::<usize>::empty(),
            rt.live_tasks() == Set::<TaskId>::empty(),
            rt.ready() == Seq::<WakerExt>::empty(),
            rt.stop_waiters() == Seq::<WakerExt>::empty(),
            !rt.is_stopped(),
            rt.max_wait() == 1000,
            rt.poller().queue().has_room(),
            rt.poller().queue().timers().len() == 0,
            rt.poller().sources().len() == 0,
    {
        let rt = Runtime {
            ids: TaskIdGenerator::new(),
            total_tasks: HashSetExt::new(),
            ready_wakers: VecDeque::new(),
            poller: Poller::new(),
            stopped: false,
            max_wait: 1000,
            stop_waiters: WakerSet::new(),
        };
        proof {
            assert(rt.live_tasks() =~= Set::<TaskId>::empty());
        }
        rt
    }

    /// The number of tasks that exist.
    pub fn task_count(&self) -> (count: usize)
        requires
            self.wf(),
        ensures
            count == self.live_tasks().len(),
    {
        proof {
            lemma_task_ids_as_set(self.total_tasks@);
        }
        self.total_tasks.len()
    }

    /// Whether the task `tid` exists.
    pub fn is_live(&self, tid: &TaskId) -> (live: bool)
        requires
            self.wf(),
        ensures
            live == self.live_tasks().contains(*tid),
    {
        proof {
            lemma_task_ids_as_set(self.total_tasks@);
        }
        self.total_tasks.contains(&tid.0)
    }

    /// The number of wakers in the ready queue.
    pub fn ready_count(&self) -> (count: usize)
        ensures
            count == self.ready().len(),
    {
        self.ready_wakers.len()
    }

    /// Whether another task can be spawned.
    pub fn has_room(&self) -> (room: bool)
        ensures
            room == self.can_spawn(),
    {
        self.ids.can_gen()
    }

    /// Submits a task: it gets an identifier that no live task has and
    /// joins the live tasks, and its first waker goes to the back of the
    /// ready queue.
    pub fn spawn(&mut self) -> (task: Task)
        requires
            old(self).wf(),
            old(self).can_spawn(),
        ensures
            final(self).wf(),
            task.tid().0 == next_id(old(self).generator()),
            final(self).generator().pool() == pool_after_gen(old(self).generator()),
            final(self).generator().cur() == cur_after_gen(old(self).generator()),
            !old(self).live_tasks().contains(task.tid()),
            final(self).live_tasks() == old(self).live_tasks().insert(task.tid()),
            final(self).ready() == old(self).ready().push(WakerExt::of(task.tid())),
            task.wakers() == 1,
            !task.finished(),
            final(self).poller() == old(self).poller(),
            final(self).is_stopped() == old(self).is_stopped(),
            final(self).max_wait() == old(self).max_wait(),
            final(self).stop_waiters() == old(self).stop_waiters(),
    {
        let ghost before = self.total_tasks@;
        let (task, waker) = Task::new_waker(&mut self.ids);
        let tid = *waker.get_task_attr().get_tid();
        proof {
            lemma_task_ids_as_set(before);
            WakerExt::lemma_data_word(waker);
            if has_handle(before, tid.0) {
                let i = choose|i: int| 0 <= i < before.len() && (#[trigger] before[i]).0 == tid.0;
                assert(old(self).ids.live().contains(before[i].0));
            }
        }
        self.total_tasks.add(tid);
        self.ready_wakers.push_back(waker);
        proof {
            let now = self.total_tasks@;
            assert(now == before.push(tid));
            lemma_task_ids_as_set(now);
            assert forall|t: TaskId| now.to_set().contains(t) == before.to_set().insert(tid).contains(
                t,
            ) by {
                if before.contains(t) {
                    let i = choose|i: int| 0 <= i < before.len() && before[i] == t;
                    assert(now[i] == t);
                }
                if t == tid {
                    assert(now[now.len() - 1] == t);
                }
            }
            assert(now.to_set() =~= before.to_set().insert(tid));
            assert forall|i: int| 0 <= i < now.len() implies self.ids.live().contains(
                (#[trigger] now[i]).0,
            ) by {
                if i < before.len() {
                    assert(now[i] == before[i]);
                }
            }
        }
        task
    }

    /// Whether the executor may stop: no task is live, or, once a stop
    /// was requested, at most one.
    pub fn can_finish(&self) -> (done: bool)
        requires
            self.wf(),
        ensures
            done == if self.is_stopped() {
                self.live_tasks().len() <= 1
            } else {
                self.live_tasks().len() == 0
            },
    {
        proof {
            lemma_task_ids_as_set(self.total_tasks@);
        }
        let count = self.total_tasks.len();
        if self.stopped {
            count <= 1
        } else {
            count == 0
        }
    }

    /// Takes the next waker off the front of the ready queue.
    pub fn get_waker(&mut self) -> (waker: Option<WakerExt>)
        requires
            old(self).wf(),
        ensures
            final(self).wf(),
            final(self).only_ready_changed(*old(self)),
            match waker {
                Some(w) => old(self).ready().len() > 0 && w == old(self).ready()[0] && final(self).ready() == old(self).ready().subrange(1, old(self).ready().len() as int),
                None => old(self).ready().len() == 0 && final(self).ready() == old(self).ready(),
            },
    {
        self.ready_wakers.pop_front()
    }

    /// Puts a waker at the back of the ready queue.
    pub fn add_waker(&mut self, waker: WakerExt)
        requires
            old(self).wf(),
        ensures
            final(self).wf(),
            final(self).only_ready_changed(*old(self)),
            final(self).ready() == old(self).ready().push(waker),
    {
        self.ready_wakers.push_back(waker);
    }

    /// Puts wakers at the back of the ready queue, in their order.
    pub fn add_wakers(&mut self, wakers: &Vec<WakerExt>)
        requires
            old(self).wf(),
        ensures
            final(self).wf(),
            final(self).only_ready_changed(*old(self)),
            final(self).ready() == old(self).ready() + wakers@,
    {
        let mut i: usize = 0;
        while i < wakers.len()
            invariant
                i <= wakers@.len(),
                self.wf(),
                self.only_ready_changed(*old(self)),
                self.ready() == old(self).ready() + wakers@.take(i as int),
            decreases wakers@.len() - i,
        {
            self.ready_wakers.push_back(wakers[i]);
            proof {
                assert(wakers@.take(i as int + 1) == wakers@.take(i as int).push(wakers@[i as int]));
                assert(self.ready() =~= old(self).ready() + wakers@.take(i as int + 1));
            }
            i = i + 1;
        }
        proof {
            assert(wakers@.take(wakers@.len() as int) == wakers@);
        }
    }

    /// How long the executor may wait for the operating system when the
    /// ready queue is empty.
    pub fn delay(&mut self, now: u64) -> (wait: Option<u64>)
        requires
            old(self).wf(),
        ensures
            final(self).wf(),
            final(self).only_poller_changed(*old(self)),
            final(self).poller().sources() == old(self).poller().sources(),
            final(self).poller().queue().delayed(
                old(self).poller().queue(),
                now,
                if old(self).is_stopped() {
                    old(self).live_tasks().len() <= 1
                } else {
                    old(self).live_tasks().len() == 0
                },
                wait,
            ),
    {
        let can_finish = self.can_finish();
        self.poller.delay(now, can_finish)
    }

    /// Ends one round of waiting at `now`, after the operating system
    /// reported `events`: the wakers made ready go to the back of the ready
    /// queue, those of the reports before those of the timers.
    pub fn wait(&mut self, events: &Vec<ReadyEvent>, now: u64)
        requires
            old(self).wf(),
        ensures
            final(self).wf(),
            final(self).live_tasks() == old(self).live_tasks(),
            final(self).generator() == old(self).generator(),
            final(self).is_stopped() == old(self).is_stopped(),
            final(self).max_wait() == old(self).max_wait(),
            final(self).stop_waiters() == old(self).stop_waiters(),
            final(self).poller().sources() == deliver(old(self).poller().sources(), events@).0,
            final(self).poller().queue().got_wakers(old(self).poller().queue(), now),
            final(self).ready() == old(self).ready() + poll_wakers(
                old(self).poller().sources(),
                old(self).poller().queue(),
                events@,
                now,
            ),
    {
        let wakers = self.poller.poll(events, now);
        self.add_wakers(&wakers);
    }

    /// Queues a timer that wakes `waker` at `wake_at`.
    pub fn add_timer(&mut self, wake_at: u64, waker: WakerExt) -> (dropper: BoxPtrSetDropper)
        requires
            old(self).wf(),
            old(self).poller().queue().has_room(),
        ensures
            final(self).wf(),
            final(self).only_poller_changed(*old(self)),
            final(self).poller().sources() == old(self).poller().sources(),
            final(self).poller().queue().timer_added(
                old(self).poller().queue(),
                wake_at,
                waker,
                dropper.ptr(),
            ),
    {
        self.poller.add_timer(wake_at, waker)
    }

    /// Whether one more timer can be added.
    pub fn can_add_timer(&self) -> (room: bool)
        ensures
            room == self.poller().queue().has_room(),
    {
        self.poller.can_add_timer()
    }

    /// Whether the timer claimed by `dropper` still waits to fire.
    pub fn timer_waiting(&self, dropper: &BoxPtrSetDropper) -> (waiting: bool)
        ensures
            waiting == self.poller().queue().slots().contains_key(dropper.ptr().0),
    {
        self.poller.timer_waiting(dropper)
    }

    /// Revokes the waker of a timer.
    pub fn revoke_timer(&mut self, dropper: BoxPtrSetDropper)
        requires
            old(self).wf(),
        ensures
            final(self).wf(),
            final(self).only_poller_changed(*old(self)),
            final(self).poller().sources() == old(self).poller().sources(),
            final(self).poller().queue().timer_revoked(old(self).poller().queue(), dropper.ptr()),
    {
        self.poller.revoke_timer(dropper);
    }

    /// Adds an I/O source and returns its token with the readiness to ask
    /// the operating system for; with `None` the source is not to be
    /// registered there.
    pub fn register(&mut self, events: Vec<Event>) -> (registered: (usize, Option<Interest>))
        requires
            old(self).wf(),
        ensures
            final(self).wf(),
            final(self).only_poller_changed(*old(self)),
            final(self).poller().queue() == old(self).poller().queue(),
            registered.0 == old(self).poller().sources().len(),
            final(self).poller().sources() == old(self).poller().sources().push(
                (Seq::<WakerExt>::empty(), Seq::<WakerExt>::empty()),
            ),
            registered.1.is_none() == (events@.len() == 0),
            registered.1.is_some() ==> registered.1.unwrap().readable == events@.contains(Event::Read)
                && registered.1.unwrap().writable == events@.contains(Event::Write),
    {
        self.poller.register(events)
    }

    /// The readiness to ask the operating system for when a source turns
    /// to waiting for `events`.
    pub fn reregister(&self, events: Vec<Event>) -> (interests: Option<Interest>)
        ensures
            interests.is_none() == (events@.len() == 0),
            interests.is_some() ==> interests.unwrap().readable == events@.contains(Event::Read)
                && interests.unwrap().writable == events@.contains(Event::Write),
    {
        self.poller.reregister(events)
    }

    /// Takes an I/O source out of service: nobody waits at it any longer.
    /// An unknown token changes nothing.
    pub fn deregister(&mut self, token: usize)
        requires
            old(self).wf(),
        ensures
            final(self).wf(),
            final(self).only_poller_changed(*old(self)),
            final(self).poller().queue() == old(self).poller().queue(),
            token >= old(self).poller().sources().len() ==> final(self).poller().sources() == old(self).poller().sources(),
            token < old(self).poller().sources().len() ==> final(self).poller().sources() == old(self).poller().sources().update(
                token as int,
                (Seq::<WakerExt>::empty(), Seq::<WakerExt>::empty()),
            ),
    {
        self.poller.deregister(token);
    }

    /// One poll of a readiness future on the source `token`; a token that
    /// names no source is never ready.
    pub fn poll_io(&mut self, token: usize, handler: &mut IoEventHandler, waker: &WakerExt) -> (polled:
        Poll<()>)
        requires
            old(self).wf(),
        ensures
            final(self).wf(),
            final(self).only_poller_changed(*old(self)),
            final(self).poller().queue() == old(self).poller().queue(),
            final(self).poller().sources().len() == old(self).poller().sources().len(),
            final(handler).event() == old(handler).event(),
            forall|i: int|
                0 <= i < old(self).poller().sources().len() && i != token ==> final(self).poller().sources()[i] == old(self).poller().sources()[i],
            token >= old(self).poller().sources().len() ==> polled is Pending && final(handler).registered() == old(handler).registered(),
            token < old(self).poller().sources().len() ==> io_polled(
                old(self).poller().sources()[token as int],
                final(self).poller().sources()[token as int],
                old(handler).event(),
                old(handler).registered(),
                final(handler).registered(),
                *waker,
                polled,
            ),
    {
        self.poller.poll_io(token, handler, waker)
    }

    /// Gives up a readiness future on the source `token`: its task no
    /// longer waits there.
    pub fn cancel_io(&mut self, token: usize, handler: IoEventHandler)
        requires
            old(self).wf(),
        ensures
            final(self).wf(),
            final(self).only_poller_changed(*old(self)),
            final(self).poller().queue() == old(self).poller().queue(),
            final(self).poller().sources().len() == old(self).poller().sources().len(),
            forall|i: int|
                0 <= i < old(self).poller().sources().len() && i != token ==> final(self).poller().sources()[i] == old(self).poller().sources()[i],
            token < old(self).poller().sources().len() && handler.registered().is_some()
                ==> !has_handle(
                waiting_for(final(self).poller().sources()[token as int], handler.event()),
                handler.registered().unwrap().0,
            ),
    {
        self.poller.cancel_io(token, handler);
    }

    /// Forgets every live task, so that the executor can finish.
    pub fn force_stop(&mut self)
        requires
            old(self).wf(),
        ensures
            final(self).wf(),
            final(self).live_tasks() == Set::<TaskId>::empty(),
            final(self).ready() == old(self).ready(),
            final(self).poller() == old(self).poller(),
            final(self).generator() == old(self).generator(),
            final(self).is_stopped() == old(self).is_stopped(),
            final(self).max_wait() == old(self).max_wait(),
            final(self).stop_waiters() == old(self).stop_waiters(),
    {
        let _ = self.total_tasks.drain();
        proof {
            assert(final(self).live_tasks() =~= Set::<TaskId>::empty());
        }
    }

    /// Whether a stop was requested.
    pub fn stopped(&self) -> (stopped: bool)
        ensures
            stopped == self.is_stopped(),
    {
        self.stopped
    }

    /// Sets how long a requested stop waits for the tasks.
    pub fn set_max_wait_duration(&mut self, millis: u64)
        ensures
            final(self).wf() == old(self).wf(),
            final(self).max_wait() == millis,
            final(self).live_tasks() == old(self).live_tasks(),
            final(self).ready() == old(self).ready(),
            final(self).poller() == old(self).poller(),
            final(self).generator() == old(self).generator(),
            final(self).is_stopped() == old(self).is_stopped(),
            final(self).stop_waiters() == old(self).stop_waiters(),
    {
        self.max_wait = millis;
    }

    /// How long a requested stop waits for the tasks.
    pub fn get_max_wait_duration(&self) -> (millis: u64)
        ensures
            millis == self.max_wait(),
    {
        self.max_wait
    }

    /// Requests a stop: the flag is set, and everyone who waited for the
    /// stop goes to the back of the ready queue, in the order of waiting.
    pub fn stop_action(&mut self)
        requires
            old(self).wf(),
        ensures
            final(self).wf(),
            final(self).is_stopped(),
            final(self).ready() == old(self).ready() + old(self).stop_waiters(),
            final(self).stop_waiters() == Seq::<WakerExt>::empty(),
            final(self).live_tasks() == old(self).live_tasks(),
            final(self).poller() == old(self).poller(),
            final(self).generator() == old(self).generator(),
            final(self).max_wait() == old(self).max_wait(),
    {
        self.stopped = true;
        let waiters = self.stop_waiters.drain();
        self.add_wakers(&waiters);
    }

    /// Lets `waker` wait for a stop and returns the claim by which the
    /// wait is given up.
    pub fn wait_stop(&mut self, waker: WakerExt) -> (dropper: WakerSetDropper)
        requires
            old(self).wf(),
        ensures
            final(self).wf(),
            dropper.tid() == waker.tid(),
            has_handle(final(self).stop_waiters(), waker.tid().0),
            final(self).stop_waiters() == if has_handle(old(self).stop_waiters(), waker.tid().0) {
                old(self).stop_waiters()
            } else {
                old(self).stop_waiters().push(waker)
            },
            final(self).live_tasks() == old(self).live_tasks(),
            final(self).ready() == old(self).ready(),
            final(self).poller() == old(self).poller(),
            final(self).generator() == old(self).generator(),
            final(self).is_stopped() == old(self).is_stopped(),
            final(self).max_wait() == old(self).max_wait(),
    {
        self.stop_waiters.add_with_dropper(waker)
    }

    /// Gives up a wait for a stop: the claimed waker is no longer woken
    /// when a stop is requested.
    pub fn forget_stop(&mut self, dropper: WakerSetDropper)
        requires
            old(self).wf(),
        ensures
            final(self).wf(),
            !has_handle(final(self).stop_waiters(), dropper.tid().0),
            final(self).stop_waiters() == crate::task::waker_ext::without(
                old(self).stop_waiters(),
                dropper.tid(),
            ),
            final(self).live_tasks() == old(self).live_tasks(),
            final(self).ready() == old(self).ready(),
            final(self).poller() == old(self).poller(),
            final(self).generator() == old(self).generator(),
            final(self).is_stopped() == old(self).is_stopped(),
            final(self).max_wait() == old(self).max_wait(),
    {
        dropper.release(&mut self.stop_waiters);
    }

    /// Whether the executor may stop, as `can_finish` computes it.
    pub open spec fn may_finish(&self) -> bool {
        if self.is_stopped() {
            self.live_tasks().len() <= 1
        } else {
            self.live_tasks().len() == 0
        }
    }
}

impl TTaskClear for Runtime {
    open spec fn tracked_tasks(&self) -> Set<TaskId> {
        self.live_tasks()
    }

    open spec fn clear_wf(&self) -> bool {
        self.wf()
    }

    /// A task was destroyed: it leaves the live tasks and gives its
    /// identifier back. Nothing else changes.
    fn clear(&mut self, tid: TaskId)
        ensures
            final(self).ready() == old(self).ready(),
            final(self).poller() == old(self).poller(),
            final(self).is_stopped() == old(self).is_stopped(),
            final(self).max_wait() == old(self).max_wait(),
            final(self).stop_waiters() == old(self).stop_waiters(),
            final(self).generator().cur() == old(self).generator().cur(),
            final(self).generator().pool() == if old(self).generator().live().contains(tid.0) {
                old(self).generator().pool().push(tid.0)
            } else {
                old(self).generator().pool()
            },
            old(self).can_spawn() ==> final(self).can_spawn(),
    {
        let ghost before = self.total_tasks@;
        proof {
            lemma_task_ids_as_set(before);
        }
        let _ = self.total_tasks.remove(&tid.0);
        self.ids.recycle_use(tid.0);
        proof {
            let now = self.total_tasks@;
            lemma_task_ids_as_set(now);
            assert forall|t: TaskId| now.to_set().contains(t) == before.to_set().remove(tid).contains(
                t,
            ) by {
                if t != tid {
                    assert(t.0 != tid.0);
                    assert(self.total_tasks.has(t.0) == old(self).total_tasks.has(t.0));
                }
            }
            assert(now.to_set() =~= before.to_set().remove(tid));
            assert forall|i: int| 0 <= i < now.len() implies self.ids.live().contains(
                (#[trigger] now[i]).0,
            ) by {
                assert(has_handle(now, now[i].0));
                assert(now[i].0 != tid.0);
                assert(self.total_tasks.has(now[i].0) == old(self).total_tasks.has(now[i].0));
                assert(has_handle(before, now[i].0));
                let j = choose|j: int| 0 <= j < before.len() && (#[trigger] before[j]).0 == now[i].0;
                assert(old(self).ids.live().contains(before[j].0));
            }
        }
    }
}

/// Submits a task to `rt`: it gets an identifier that no live task has and
/// joins the live tasks, and its first waker goes to the back of the ready
/// queue.
pub fn spawn(rt: &mut Runtime) -> (task: Task)
    requires
        old(rt).wf(),
        old(rt).can_spawn(),
    ensures
        final(rt).wf(),
        task.tid().0 == next_id(old(rt).generator()),
        final(rt).generator().pool() == pool_after_gen(old(rt).generator()),
        final(rt).generator().cur() == cur_after_gen(old(rt).generator()),
        !old(rt).live_tasks().contains(task.tid()),
        final(rt).live_tasks() == old(rt).live_tasks().insert(task.tid()),
        final(rt).ready() == old(rt).ready().push(WakerExt::of(task.tid())),
        task.wakers() == 1,
        !task.finished(),
        final(rt).poller() == old(rt).poller(),
        final(rt).is_stopped() == old(rt).is_stopped(),
        final(rt).max_wait() == old(rt).max_wait(),
        final(rt).stop_waiters() == old(rt).stop_waiters(),
{
    rt.spawn()
}

} // verus!
