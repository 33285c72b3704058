//! Wakers that know their task, and ordered sets of them.

use crate::collections::hash_set::{distinct_handles, has_handle, HashSetExt, HashSetExtDropper, ToBorrow};
use crate::task::task_id::TaskId;
use crate::task::TaskAttr;
use vstd::prelude::*;

verus! {

/// A waker: the handle by which a task is put back on the ready queue. Its
/// data word leads to the header of its task.
#[derive(Clone, Copy, Debug, PartialEq, Eq, Structural)]
pub struct WakerExt {
    data: usize,
}

impl ToBorrow for WakerExt {
    open spec fn handle(&self) -> usize {
        self.tid().0
    }

    fn to_borrow(&self) -> (h: usize) {
        self.data
    }
}

impl WakerExt {
    /// The identifier of the task that this waker wakes.
    pub closed spec fn tid(&self) -> TaskId {
        TaskId(self.data)
    }

    /// The data word of the waker.
    pub closed spec fn data_word(&self) -> usize {
        self.data
    }

    /// The waker of the task `tid`.
    pub closed spec fn of(tid: TaskId) -> WakerExt {
        WakerExt { data: tid.0 }
    }

    /// The waker of the task `tid`.
    pub fn new(tid: TaskId) -> (waker: Self)
        ensures
            waker == WakerExt::of(tid),
            waker.tid() == tid,
            TaskAttr::of_raw_data(waker.data_word()).tid() == tid,
    {
        let waker = WakerExt { data: tid.0 };
        proof {
            WakerExt::lemma_data_word(waker);
        }
        waker
    }

    /// The data word of the waker.
    pub fn data(&self) -> (data: usize)
        ensures
            data == self.data_word(),
            TaskId(data) == self.tid(),
    {
        self.data
    }

    /// The header of the task that this waker wakes.
    pub fn get_task_attr(&self) -> (attr: TaskAttr)
        ensures
            attr.tid() == self.tid(),
    {
        TaskAttr::from_raw_data(self.data)
    }

    /// The data word of a waker is the identifier of its task, and a waker
    /// is determined by its task.
    pub proof fn lemma_data_word(waker: WakerExt)
        ensures
            TaskAttr::of_raw_data(waker.data_word()).tid() == waker.tid(),
            waker == WakerExt::of(waker.tid()),
            WakerExt::of(waker.tid()).tid() == waker.tid(),
    {
        TaskAttr::lemma_with_tid(TaskId(waker.data));
    }
}

/// The place of the waker of the task `tid` in `s`.
pub open spec fn index_of(s: Seq<WakerExt>, tid: TaskId) -> int {
    choose|i: int| 0 <= i < s.len() && (#[trigger] s[i]).tid() == tid
}

/// The wakers `s` without the one of the task `tid`, in their order.
pub open spec fn without(s: Seq<WakerExt>, tid: TaskId) -> Seq<WakerExt> {
    if has_handle(s, tid.0) {
        s.remove(index_of(s, tid))
    } else {
        s
    }
}

/// The wakers `s` without the one of the task `tid`, where there is one.
pub open spec fn without_any(s: Seq<WakerExt>, tid: Option<TaskId>) -> Seq<WakerExt> {
    match tid {
        Some(t) => without(s, t),
        None => s,
    }
}

/// The wakers `s` once `waker` waits among them in place of the waker that
/// `claimed` names: the waker of another task that was claimed leaves, and
/// `waker` joins at the back unless its task waits already.
pub open spec fn registered_again(s: Seq<WakerExt>, claimed: Option<TaskId>, waker: WakerExt) -> Seq<
    WakerExt,
> {
    let base = match claimed {
        Some(t) => if t != waker.tid() {
            without(s, t)
        } else {
            s
        },
        None => s,
    };
    if has_handle(base, waker.tid().0) {
        base
    } else {
        base.push(waker)
    }
}

/// Among wakers of different tasks, the waker of a task has one place.
pub proof fn lemma_index_of(s: Seq<WakerExt>, tid: TaskId, i: int)
    requires
        distinct_handles(s),
        0 <= i < s.len(),
        s[i].tid() == tid,
    ensures
        has_handle(s, tid.0),
        index_of(s, tid) == i,
        without(s, tid) == s.remove(i),
{
    assert(s[i].handle() == tid.0);
    let j = index_of(s, tid);
    if j != i {
        assert(s[i].handle() != s[j].handle());
    }
}

/// Wakers of pairwise different tasks, in the order in which they were
/// added.
pub struct WakerSet {
    set: HashSetExt<WakerExt>,
}

/// A claim on the waker of one task in a set: releasing it takes the waker
/// out, if it has not left the set already.
pub struct WakerSetDropper {
    inner: HashSetExtDropper,
}

impl View for WakerSet {
    type V = Seq<WakerExt>;

    closed spec fn view(&self) -> Seq<WakerExt> {
        self.set@
    }
}

impl WakerSet {
    /// No two wakers of the set belong to one task.
    pub open spec fn wf(&self) -> bool {
        distinct_handles(self@)
    }

    /// Whether a waker of the task `tid` is in the set.
    pub open spec fn has(&self, tid: TaskId) -> bool {
        has_handle(self@, tid.0)
    }

    /// The empty set.
    pub fn new() -> (set: Self)
        ensures
            set.wf(),
            set@ == Seq::<WakerExt>::empty(),
    {
        WakerSet { set: HashSetExt::new() }
    }

    /// The number of wakers in the set.
    pub fn len(&self) -> (n: usize)
        ensures
            n == self@.len(),
    {
        self.set.len()
    }

    /// Adds `waker` behind the others, unless a waker of the same task is
    /// in the set already.
    pub fn add_waker(&mut self, waker: WakerExt)
        requires
            old(self).wf(),
        ensures
            final(self).wf(),
            final(self).has(waker.tid()),
            old(self).has(waker.tid()) ==> final(self)@ == old(self)@,
            !old(self).has(waker.tid()) ==> final(self)@ == old(self)@.push(waker),
    {
        self.set.add(waker);
    }

    /// Adds `waker` as `add_waker` does and returns the claim by which it
    /// is revoked.
    pub fn add_with_dropper(&mut self, waker: WakerExt) -> (dropper: WakerSetDropper)
        requires
            old(self).wf(),
        ensures
            final(self).wf(),
            final(self).has(waker.tid()),
            dropper.tid() == waker.tid(),
            old(self).has(waker.tid()) ==> final(self)@ == old(self)@,
            !old(self).has(waker.tid()) ==> final(self)@ == old(self)@.push(waker),
    {
        WakerSetDropper { inner: self.set.add_with_dropper(waker) }
    }

    /// Lets `waker` wait in place of what `claim` claims, and returns the
    /// claim on `waker`. A claimed waker of another task leaves the set;
    /// `waker` joins at the back unless its task waits already, so a task
    /// that registers again keeps its place.
    pub fn register(&mut self, claim: Option<WakerSetDropper>, waker: WakerExt) -> (dropper:
        WakerSetDropper)
        requires
            old(self).wf(),
        ensures
            final(self).wf(),
            final(self).has(waker.tid()),
            dropper.tid() == waker.tid(),
            final(self)@ == registered_again(
                old(self)@,
                match claim {
                    Some(d) => Some(d.tid()),
                    None => None,
                },
                waker,
            ),
    {
        match claim {
            Some(d) => {
                if d.task_id().0 != waker.data() {
                    d.release(self);
                }
            },
            None => {},
        }
        self.add_with_dropper(waker)
    }

    /// Takes the waker of the task `handle` out of the set.
    pub fn remove_waker(&mut self, handle: &TaskId)
        requires
            old(self).wf(),
        ensures
            final(self).wf(),
            !final(self).has(*handle),
            forall|t: TaskId| t != *handle ==> final(self).has(t) == old(self).has(t),
            !old(self).has(*handle) ==> final(self)@ == old(self)@,
            old(self).has(*handle) ==> exists|i: int|
                0 <= i < old(self)@.len() && old(self)@[i].tid() == *handle && final(self)@ == old(self)@.remove(i),
    {
        let _ = self.set.remove(&handle.0);
        proof {
            assert forall|t: TaskId| t != *handle implies final(self).has(t) == old(self).has(
                t,
            ) by {
                assert(t.0 != handle.0);
                assert(final(self).set.has(t.0) == old(self).set.has(t.0));
            }
        }
    }

    /// Whether a waker of the task `handle` is in the set.
    pub fn contains(&self, handle: &TaskId) -> (found: bool)
        ensures
            found == self.has(*handle),
    {
        self.set.contains(&handle.0)
    }

    /// Takes every waker out, oldest first.
    pub fn drain(&mut self) -> (all: Vec<WakerExt>)
        ensures
            final(self).wf(),
            all@ == old(self)@,
            final(self)@ == Seq::<WakerExt>::empty(),
    {
        self.set.drain()
    }

    /// Takes out the waker that has waited longest.
    pub fn pop(&mut self) -> (taken: Option<WakerExt>)
        requires
            old(self).wf(),
        ensures
            final(self).wf(),
            match taken {
                Some(w) => old(self)@.len() > 0 && w == old(self)@[0] && final(self)@ == old(self)@.remove(0) && !final(self).has(w.tid()),
                None => old(self)@.len() == 0 && final(self)@ == old(self)@,
            },
    {
        self.set.pop()
    }
}

impl WakerSetDropper {
    /// The task whose waker is claimed.
    pub closed spec fn tid(&self) -> TaskId {
        TaskId(self.inner.handle())
    }

    /// The task whose waker is claimed.
    pub fn task_id(&self) -> (tid: TaskId)
        ensures
            tid == self.tid(),
    {
        TaskId(self.inner.claimed())
    }

    /// Gives the claim up: the claimed waker leaves `set`, if it is still
    /// in it, and the others stay in their order.
    pub fn release(self, set: &mut WakerSet)
        requires
            old(set).wf(),
        ensures
            final(set).wf(),
            !final(set).has(self.tid()),
            forall|t: TaskId| t != self.tid() ==> final(set).has(t) == old(set).has(t),
            !old(set).has(self.tid()) ==> final(set)@ == old(set)@,
            old(set).has(self.tid()) ==> exists|i: int|
                0 <= i < old(set)@.len() && old(set)@[i].tid() == self.tid() && final(set)@ == old(set)@.remove(i),
    {
        let _ = self.inner.release(&mut set.set);
        proof {
            assert forall|t: TaskId| t != self.tid() implies final(set).has(t) == old(set).has(
                t,
            ) by {
                assert(t.0 != self.tid().0);
                assert(final(set).set.has(t.0) == old(set).set.has(t.0));
            }
        }
    }
}

} // verus!
