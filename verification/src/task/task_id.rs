//! Dense task identifiers that are handed out again once released.

use crate::collections::hash_set::{distinct_handles, has_handle, ToBorrow};
use vstd::prelude::*;

verus! {

/// Identity of a task for as long as the task exists.
#[derive(Clone, Copy, Debug, PartialEq, Eq, Structural, PartialOrd, Ord, Hash)]
pub struct TaskId(pub usize);

impl ToBorrow for TaskId {
    open spec fn handle(&self) -> usize {
        self.0
    }

    fn to_borrow(&self) -> (h: usize) {
        self.0
    }
}

/// Identifiers with pairwise different handles are pairwise different, and
/// one is among them exactly if its handle is.
pub proof fn lemma_task_ids_as_set(s: Seq<TaskId>)
    requires
        distinct_handles(s),
    ensures
        s.no_duplicates(),
        s.to_set().len() == s.len(),
        forall|t: TaskId| #[trigger] s.to_set().contains(t) == has_handle(s, t.0),
{
    assert forall|i: int, j: int| 0 <= i < s.len() && 0 <= j < s.len() && i != j implies s[i]
        != s[j] by {
        assert(s[i].handle() != s[j].handle());
    }
    s.unique_seq_to_set();
    assert forall|t: TaskId| #[trigger] s.to_set().contains(t) == has_handle(s, t.0) by {
        if s.contains(t) {
            let i = choose|i: int| 0 <= i < s.len() && s[i] == t;
            assert(s[i].handle() == t.0);
        }
        if has_handle(s, t.0) {
            let i = choose|i: int| 0 <= i < s.len() && (#[trigger] s[i]).handle() == t.0;
            assert(s[i] == t);
        }
    }
}

/// The identifier that `generator` hands out next.
pub open spec fn next_id(generator: TaskIdGenerator) -> usize {
    if generator.pool().len() > 0 {
        generator.pool().last()
    } else {
        generator.cur()
    }
}

/// The pool of `generator` after it handed out an identifier.
pub open spec fn pool_after_gen(generator: TaskIdGenerator) -> Seq<usize> {
    if generator.pool().len() > 0 {
        generator.pool().drop_last()
    } else {
        generator.pool()
    }
}

/// The bound of `generator` after it handed out an identifier.
pub open spec fn cur_after_gen(generator: TaskIdGenerator) -> int {
    if generator.pool().len() > 0 {
        generator.cur() as int
    } else {
        generator.cur() + 1
    }
}

/// Allocator of task identifiers.
///
/// Identifiers below `cur` have been handed out at some time; those in
/// `pool` were given back since and wait to be handed out again.
pub struct TaskIdGenerator {
    cur: usize,
    pool: Vec<usize>,
}

impl TaskIdGenerator {
    /// The bound below which every identifier was handed out at some time.
    pub closed spec fn cur(&self) -> usize {
        self.cur
    }

    /// The identifiers that were given back and wait to be handed out
    /// again, the one given back last at the end.
    pub closed spec fn pool(&self) -> Seq<usize> {
        self.pool@
    }

    /// The identifiers that are in use: handed out and not given back.
    pub open spec fn live(&self) -> Set<usize> {
        Set::new(|id: usize| id < self.cur() && !self.pool().contains(id))
    }

    /// Every pooled identifier was handed out before, and is pooled once.
    pub open spec fn wf(&self) -> bool {
        &&& forall|i: int| 0 <= i < self.pool().len() ==> #[trigger] self.pool()[i] < self.cur()
        &&& self.pool().no_duplicates()
    }

    /// Whether another identifier can be handed out without leaving `usize`.
    pub open spec fn has_room(&self) -> bool {
        self.pool().len() > 0 || self.cur() < usize::MAX
    }

    /// Whether another identifier can be handed out.
    pub fn can_gen(&self) -> (room: bool)
        ensures
            room == self.has_room(),
    {
        self.pool.len() > 0 || self.cur < usize::MAX
    }

    /// A generator that has handed out nothing.
    pub fn new() -> (g: Self)
        ensures
            g.wf(),
            g.has_room(),
            g.cur() == 0,
            g.pool() == Seq::<usize>::empty(),
            g.live() == Set::<usize>::empty(),
    {
        let g = TaskIdGenerator { cur: 0, pool: Vec::new() };
        assert(g.live() =~= Set::<usize>::empty());
        g
    }

    /// Hands out an identifier that is not in use: the one that was given
    /// back last, or, where none waits, the next one never handed out.
    pub fn gen_id(&mut self) -> (tid: TaskId)
        requires
            old(self).wf(),
            old(self).has_room(),
        ensures
            final(self).wf(),
            old(self).pool().len() > 0 ==> tid.0 == old(self).pool().last() && final(self).pool()
                == old(self).pool().drop_last() && final(self).cur() == old(self).cur(),
            old(self).pool().len() == 0 ==> tid.0 == old(self).cur() && final(self).pool() == old(self).pool() && final(self).cur() == old(self).cur() + 1,
            !old(self).live().contains(tid.0),
            final(self).live() == old(self).live().insert(tid.0),
    {
        let ghost before = *self;
        if self.pool.len() > 0 {
            let last = self.pool.pop();
            let id: usize = last.unwrap();
            proof {
                assert(before.pool@.contains(id)) by {
                    assert(before.pool@[before.pool@.len() - 1] == id);
                }
                assert forall|x: usize| self.pool@.contains(x) <==> (before.pool@.contains(x) && x != id) by {
                    if before.pool@.contains(x) && x != id {
                        let j = choose|j: int| 0 <= j < before.pool@.len() && before.pool@[j] == x;
                        assert(self.pool@[j] == x);
                    }
                    if self.pool@.contains(x) {
                        let j = choose|j: int| 0 <= j < self.pool@.len() && self.pool@[j] == x;
                        assert(before.pool@[j] == x);
                    }
                }
                assert(self.live() =~= before.live().insert(id));
            }
            TaskId(id)
        } else {
            let id: usize = self.cur;
            self.cur = self.cur + 1;
            proof {
                assert(self.live() =~= before.live().insert(id));
            }
            TaskId(id)
        }
    }

    /// Gives an identifier back. One that is not in use is ignored.
    pub fn recycle_use(&mut self, id: usize)
        requires
            old(self).wf(),
        ensures
            final(self).wf(),
            final(self).cur() == old(self).cur(),
            final(self).pool() == if old(self).live().contains(id) {
                old(self).pool().push(id)
            } else {
                old(self).pool()
            },
            final(self).live() == old(self).live().remove(id),
            old(self).has_room() ==> final(self).has_room(),
    {
        let ghost before = *self;
        if id < self.cur && !self.pooled(id) {
            self.pool.push(id);
            proof {
                assert forall|x: usize| self.pool@.contains(x) <==> (before.pool@.contains(x) || x == id) by {
                    if before.pool@.contains(x) {
                        let j = choose|j: int| 0 <= j < before.pool@.len() && before.pool@[j] == x;
                        assert(self.pool@[j] == x);
                    }
                    if x == id {
                        assert(self.pool@[self.pool@.len() - 1] == x);
                    }
                }
                assert(self.live() =~= before.live().remove(id));
            }
        } else {
            proof {
                assert(self.live() =~= before.live().remove(id));
            }
        }
    }

    fn pooled(&self, id: usize) -> (found: bool)
        ensures
            found == self.pool@.contains(id),
    {
        let mut i: usize = 0;
        while i < self.pool.len()
            invariant
                i <= self.pool@.len(),
                forall|j: int| 0 <= j < i ==> self.pool@[j] != id,
            decreases self.pool@.len() - i,
        {
            if self.pool[i] == id {
                return true;
            }
            i = i + 1;
        }
        false
    }
}

/// Hands out an identifier from `generator`, as `gen_id` does.
pub fn alloc_id(generator: &mut TaskIdGenerator) -> (tid: TaskId)
    requires
        old(generator).wf(),
        old(generator).has_room(),
    ensures
        final(generator).wf(),
        tid.0 == next_id(*old(generator)),
        final(generator).pool() == pool_after_gen(*old(generator)),
        final(generator).cur() == cur_after_gen(*old(generator)),
        !old(generator).live().contains(tid.0),
        final(generator).live() == old(generator).live().insert(tid.0),
{
    generator.gen_id()
}

} // verus!
