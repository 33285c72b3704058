//! Waiting for the first of several futures whose result fits.

use crate::task::Poll;
use vstd::prelude::*;

verus! {

/// Where one branch of a select stands.
#[derive(Clone, Copy, Debug, PartialEq, Eq, Structural)]
pub enum Branch {
    /// Its future is not ready yet.
    Pending,
    /// Its future was ready with a result that fits: its body runs.
    Executed,
    /// Its future was ready with a result that does not fit, and it has a
    /// body for that case, which runs.
    ElseRun,
    /// Its future was ready with a result that does not fit, and nothing
    /// runs for it.
    Swallowed,
    /// Another branch was taken: its future is dropped.
    Cancelled,
}

/// The branches of one select, in the order in which they were declared.
pub struct Select {
    states: Vec<Branch>,
    has_else: Vec<bool>,
}

/// The branches after branch `idx` was taken with state `taken`: every
/// other branch that was pending is cancelled.
pub open spec fn decided(before: Seq<Branch>, idx: int, taken: Branch) -> Seq<Branch> {
    Seq::new(
        before.len(),
        |i: int|
            if i == idx {
                taken
            } else if before[i] is Pending {
                Branch::Cancelled
            } else {
                before[i]
            },
    )
}

impl Select {
    /// Where each branch stands.
    pub closed spec fn branches(&self) -> Seq<Branch> {
        self.states@
    }

    /// For each branch, whether it has a body for a result that does not
    /// fit.
    pub closed spec fn else_bodies(&self) -> Seq<bool> {
        self.has_else@
    }

    /// Each branch has its state.
    pub closed spec fn wf(&self) -> bool {
        self.states@.len() == self.has_else@.len()
    }

    /// A select whose branches are all pending; `has_else` says of each
    /// whether it has a body for a result that does not fit.
    pub fn new(has_else: Vec<bool>) -> (select: Self)
        ensures
            select.wf(),
            select.else_bodies() == has_else@,
            select.branches() == Seq::new(has_else@.len(), |i: int| Branch::Pending),
    {
        let mut states: Vec<Branch> = Vec::new();
        let mut i: usize = 0;
        while i < has_else.len()
            invariant
                i <= has_else@.len(),
                states@ == Seq::new(i as nat, |j: int| Branch::Pending),
            decreases has_else@.len() - i,
        {
            states.push(Branch::Pending);
            proof {
                assert(states@ =~= Seq::new((i + 1) as nat, |j: int| Branch::Pending));
            }
            i = i + 1;
        }
        Select { states, has_else }
    }

    /// Whether the future of branch `idx` is to be polled: the branch is
    /// pending.
    pub fn to_poll(&self, idx: usize) -> (pending: bool)
        ensures
            pending == (idx < self.branches().len() && self.branches()[idx as int] is Pending),
    {
        if idx < self.states.len() {
            match self.states[idx] {
                Branch::Pending => true,
                _ => false,
            }
        } else {
            false
        }
    }

    /// The future of the pending branch `idx` was ready, and `matched`
    /// says whether its result fits the branch. A result that fits takes
    /// the branch: the answer is `(idx, true)`. One that does not fit takes
    /// the branch too where it has a body for that: the answer is
    /// `(idx, false)`. In both cases all other pending branches are
    /// cancelled. Otherwise the branch is swallowed, the others stay, and
    /// the answer is `None`. For a branch that is not pending nothing
    /// changes.
    pub fn ready(&mut self, idx: usize, matched: bool) -> (taken: Option<(usize, bool)>)
        requires
            old(self).wf(),
        ensures
            final(self).wf(),
            final(self).else_bodies() == old(self).else_bodies(),
            if idx < old(self).branches().len() && old(self).branches()[idx as int] is Pending {
                if matched {
                    taken == Some((idx, true)) && final(self).branches() == decided(
                        old(self).branches(),
                        idx as int,
                        Branch::Executed,
                    )
                } else if old(self).else_bodies()[idx as int] {
                    taken == Some((idx, false)) && final(self).branches() == decided(
                        old(self).branches(),
                        idx as int,
                        Branch::ElseRun,
                    )
                } else {
                    taken.is_none() && final(self).branches() == old(self).branches().update(
                        idx as int,
                        Branch::Swallowed,
                    )
                }
            } else {
                taken.is_none() && final(self).branches() == old(self).branches()
            },
    {
        if !self.to_poll(idx) {
            return None;
        }
        if matched || self.has_else[idx] {
            let state = if matched {
                Branch::Executed
            } else {
                Branch::ElseRun
            };
            let ghost before = self.states@;
            let mut i: usize = 0;
            while i < self.states.len()
                invariant
                    i <= self.states@.len(),
                    self.states@.len() == before.len(),
                    self.has_else@ == old(self).has_else@,
                    idx < before.len(),
                    forall|j: int| 0 <= j < i ==> self.states@[j] == decided(before, idx as int, state)[j],
                    forall|j: int| i <= j < before.len() ==> self.states@[j] == before[j],
                decreases self.states@.len() - i,
            {
                if i == idx {
                    self.states[i] = state;
                } else {
                    match self.states[i] {
                        Branch::Pending => {
                            self.states[i] = Branch::Cancelled;
                        },
                        _ => {},
                    }
                }
                i = i + 1;
            }
            proof {
                assert(self.states@ =~= decided(before, idx as int, state));
            }
            Some((idx, matched))
        } else {
            self.states[idx] = Branch::Swallowed;
            None
        }
    }

    /// The end of a round in which no branch was taken: where every branch
    /// is swallowed the select is done, with no branch taken; else it
    /// stays pending.
    pub fn end_round(&self) -> (polled: Poll<Option<(usize, bool)>>)
        ensures
            polled == (if forall|i: int|
                0 <= i < self.branches().len() ==> self.branches()[i] is Swallowed {
                Poll::Ready(None::<(usize, bool)>)
            } else {
                Poll::Pending
            }),
    {
        let mut i: usize = 0;
        while i < self.states.len()
            invariant
                i <= self.states@.len(),
                forall|j: int| 0 <= j < i ==> self.states@[j] is Swallowed,
            decreases self.states@.len() - i,
        {
            match self.states[i] {
                Branch::Swallowed => {},
                _ => {
                    return Poll::Pending;
                },
            }
            i = i + 1;
        }
        Poll::Ready(None)
    }
}

/// Once a branch is taken, no branch is left pending: the futures of all
/// other branches are dropped.
pub proof fn lemma_decided_leaves_none_pending(before: Seq<Branch>, idx: int, taken: Branch)
    requires
        0 <= idx < before.len(),
        !(taken is Pending),
    ensures
        forall|i: int| 0 <= i < before.len() ==> !(#[trigger] decided(before, idx, taken)[i] is Pending),
        decided(before, idx, taken)[idx] == taken,
        forall|i: int|
            0 <= i < before.len() && i != idx && !(before[i] is Pending) ==> #[trigger] decided(
                before,
                idx,
                taken,
            )[i] == before[i],
{
}

} // verus!
