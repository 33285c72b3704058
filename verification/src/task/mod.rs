//! Tasks, their identifiers and their wakers.

pub mod task_id;
pub mod waker_ext;

use crate::task::task_id::{
    alloc_id, cur_after_gen, next_id, pool_after_gen, TaskId, TaskIdGenerator,
};
use crate::task::waker_ext::WakerExt;
use vstd::prelude::*;

verus! {

/// What one poll of a resumable computation yields.
#[derive(Debug, PartialEq, Eq, Structural)]
pub enum Poll<T> {
    /// The computation is done, with this result.
    Ready(T),
    /// The computation has parked itself and waits to be woken.
    Pending,
}

/// The header of every task: what a waker tells about the task behind it.
#[derive(Clone, Copy, Debug, PartialEq, Eq, Structural)]
pub struct TaskAttr {
    tid: TaskId,
}

impl TaskAttr {
    /// The task's identifier.
    pub closed spec fn tid(&self) -> TaskId {
        self.tid
    }

    /// The header that a waker's data word stands for.
    pub open spec fn of_raw_data(data: usize) -> TaskAttr {
        TaskAttr::with_tid(TaskId(data))
    }

    /// The header with identifier `tid`.
    pub closed spec fn with_tid(tid: TaskId) -> TaskAttr {
        TaskAttr { tid }
    }

    /// The header with identifier `tid` carries `tid`.
    pub proof fn lemma_with_tid(tid: TaskId)
        ensures
            TaskAttr::with_tid(tid).tid() == tid,
    {
    }

    /// A header with an identifier that no live task has.
    pub fn new(generator: &mut TaskIdGenerator) -> (attr: Self)
        requires
            old(generator).wf(),
            old(generator).has_room(),
        ensures
            final(generator).wf(),
            attr.tid().0 == next_id(*old(generator)),
            final(generator).pool() == pool_after_gen(*old(generator)),
            final(generator).cur() == cur_after_gen(*old(generator)),
            !old(generator).live().contains(attr.tid().0),
            final(generator).live() == old(generator).live().insert(attr.tid().0),
    {
        TaskAttr { tid: alloc_id(generator) }
    }

    /// Recovers a task's header from the data word of one of its wakers.
    pub fn from_raw_data(data: usize) -> (attr: Self)
        ensures
            attr == TaskAttr::of_raw_data(data),
            attr.tid() == TaskId(data),
    {
        TaskAttr { tid: TaskId(data) }
    }

    /// The task's identifier.
    pub fn get_tid(&self) -> (tid: &TaskId)
        ensures
            *tid == self.tid(),
    {
        &self.tid
    }
}

/// The hook that a task runs when it is destroyed: it takes the task out of
/// the bookkeeping of whoever scheduled it.
pub trait TTaskClear {
    /// The identifiers of the tasks that are kept track of.
    spec fn tracked_tasks(&self) -> Set<TaskId>;

    /// Validity of the bookkeeping.
    spec fn clear_wf(&self) -> bool;

    /// Forgets the task `tid`: it leaves the tracked tasks, and no other does.
    fn clear(&mut self, tid: TaskId)
        requires
            old(self).clear_wf(),
        ensures
            final(self).clear_wf(),
            final(self).tracked_tasks() == old(self).tracked_tasks().remove(tid),
    ;
}

/// A scheduled unit of work, seen from its wakers: its header, the number
/// of wakers that refer to it, and whether its computation has finished.
pub struct Task {
    attr: TaskAttr,
    wakers: usize,
    finished: bool,
}

impl Task {
    /// The task's identifier.
    pub closed spec fn tid(&self) -> TaskId {
        self.attr.tid()
    }

    /// The number of wakers that refer to the task.
    pub closed spec fn wakers(&self) -> nat {
        self.wakers as nat
    }

    /// Whether the task's computation has yielded its result.
    pub closed spec fn finished(&self) -> bool {
        self.finished
    }

    /// The task's identifier.
    pub fn task_id(&self) -> (tid: TaskId)
        ensures
            tid == self.tid(),
    {
        *self.attr.get_tid()
    }

    /// The number of wakers that refer to the task.
    pub fn ref_count(&self) -> (count: usize)
        ensures
            count == self.wakers(),
    {
        self.wakers
    }

    /// Whether the task's computation has yielded its result.
    pub fn is_done(&self) -> (done: bool)
        ensures
            done == self.finished(),
    {
        self.finished
    }

    /// A task with a fresh identifier and no waker yet.
    pub fn new(generator: &mut TaskIdGenerator) -> (task: Self)
        requires
            old(generator).wf(),
            old(generator).has_room(),
        ensures
            final(generator).wf(),
            task.tid().0 == next_id(*old(generator)),
            final(generator).pool() == pool_after_gen(*old(generator)),
            final(generator).cur() == cur_after_gen(*old(generator)),
            !old(generator).live().contains(task.tid().0),
            final(generator).live() == old(generator).live().insert(task.tid().0),
            task.wakers() == 0,
            !task.finished(),
    {
        Task { attr: TaskAttr::new(generator), wakers: 0, finished: false }
    }

    /// Hands out one more waker of the task.
    pub fn into_waker(&mut self) -> (waker: WakerExt)
        requires
            old(self).wakers() < usize::MAX,
        ensures
            final(self).tid() == old(self).tid(),
            final(self).finished() == old(self).finished(),
            final(self).wakers() == old(self).wakers() + 1,
            waker.tid() == old(self).tid(),
            TaskAttr::of_raw_data(waker.data_word()).tid() == old(self).tid(),
    {
        self.wakers = self.wakers + 1;
        WakerExt::new(self.attr.tid)
    }

    /// Creates a task with a fresh identifier and returns it with its first
    /// waker.
    pub fn new_waker(generator: &mut TaskIdGenerator) -> (made: (Self, WakerExt))
        requires
            old(generator).wf(),
            old(generator).has_room(),
        ensures
            final(generator).wf(),
            made.0.tid().0 == next_id(*old(generator)),
            final(generator).pool() == pool_after_gen(*old(generator)),
            final(generator).cur() == cur_after_gen(*old(generator)),
            !old(generator).live().contains(made.0.tid().0),
            final(generator).live() == old(generator).live().insert(made.0.tid().0),
            made.0.wakers() == 1,
            !made.0.finished(),
            made.1.tid() == made.0.tid(),
            TaskAttr::of_raw_data(made.1.data_word()).tid() == made.0.tid(),
    {
        let mut task = Task::new(generator);
        let waker = task.into_waker();
        (task, waker)
    }

    /// Records what one poll of the task's computation yielded: once it was
    /// `Ready`, the task stays finished.
    pub fn wake_by_ref(&mut self, polled: &Poll<()>)
        ensures
            final(self).tid() == old(self).tid(),
            final(self).wakers() == old(self).wakers(),
            final(self).finished() == (old(self).finished() || polled is Ready),
    {
        match polled {
            Poll::Ready(_) => {
                self.finished = true;
            },
            Poll::Pending => {},
        }
    }

    /// Wakes the task through `waker` and uses the waker up: records what
    /// the poll of the task's computation yielded, then releases the waker
    /// as `drop_waker` does.
    pub fn wake<C: TTaskClear>(&mut self, waker: WakerExt, polled: &Poll<()>, clear: &mut C) -> (destroyed:
        bool)
        requires
            old(self).wakers() > 0,
            waker.tid() == old(self).tid(),
            old(clear).clear_wf(),
        ensures
            final(self).tid() == old(self).tid(),
            final(self).finished() == (old(self).finished() || polled is Ready),
            final(self).wakers() == old(self).wakers() - 1,
            destroyed == (old(self).wakers() == 1),
            final(clear).clear_wf(),
            destroyed ==> final(clear).tracked_tasks() == old(clear).tracked_tasks().remove(
                old(self).tid(),
            ),
            !destroyed ==> final(clear).tracked_tasks() == old(clear).tracked_tasks(),
    {
        self.wake_by_ref(polled);
        self.drop_waker(waker, clear)
    }

    /// Releases one waker of the task. With the last one the task is
    /// destroyed: `clear` forgets it, and the answer is `true`.
    pub fn drop_waker<C: TTaskClear>(&mut self, waker: WakerExt, clear: &mut C) -> (destroyed:
        bool)
        requires
            old(self).wakers() > 0,
            waker.tid() == old(self).tid(),
            old(clear).clear_wf(),
        ensures
            final(self).tid() == old(self).tid(),
            final(self).finished() == old(self).finished(),
            final(self).wakers() == old(self).wakers() - 1,
            destroyed == (old(self).wakers() == 1),
            final(clear).clear_wf(),
            destroyed ==> final(clear).tracked_tasks() == old(clear).tracked_tasks().remove(
                old(self).tid(),
            ),
            !destroyed ==> final(clear).tracked_tasks() == old(clear).tracked_tasks(),
    {
        self.wakers = self.wakers - 1;
        if self.wakers == 0 {
            clear.clear(self.attr.tid);
            true
        } else {
            false
        }
    }
}

/// Every waker handed out for a task leads back to that task: the header
/// read from the waker's data word carries the task's identifier.
pub proof fn lemma_waker_round_trip(task: Task, waker: WakerExt)
    requires
        waker.tid() == task.tid(),
    ensures
        TaskAttr::of_raw_data(waker.data_word()).tid() == task.tid(),
{
    WakerExt::lemma_data_word(waker);
}

} // verus!
