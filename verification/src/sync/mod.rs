//! Cooperative synchronisation between the tasks of one executor.

pub mod mutex;
pub mod notifier;
pub mod semophore;
pub mod wait_group;

use vstd::prelude::*;

verus! {

/// The number of guards among `guards` that hold what they asked for.
pub open spec fn holders(guards: Seq<bool>) -> nat
    decreases guards.len(),
{
    if guards.len() == 0 {
        0
    } else {
        holders(guards.drop_last()) + if guards.last() {
            1nat
        } else {
            0nat
        }
    }
}

/// Changing one guard changes the number of holders by that guard alone.
pub proof fn lemma_holders_update(guards: Seq<bool>, i: int, held: bool)
    requires
        0 <= i < guards.len(),
    ensures
        holders(guards.update(i, held)) + (if guards[i] {
            1nat
        } else {
            0nat
        }) == holders(guards) + (if held {
            1nat
        } else {
            0nat
        }),
    decreases guards.len(),
{
    let after = guards.update(i, held);
    if i == guards.len() - 1 {
        assert(after.drop_last() =~= guards.drop_last());
    } else {
        lemma_holders_update(guards.drop_last(), i, held);
        assert(after.drop_last() =~= guards.drop_last().update(i, held));
    }
}

/// No more guards hold than there are, and fewer where one does not.
pub proof fn lemma_holders_bound(guards: Seq<bool>)
    ensures
        holders(guards) <= guards.len(),
        (exists|i: int| 0 <= i < guards.len() && !guards[i]) ==> holders(guards) < guards.len(),
        holders(guards) == 0 ==> forall|i: int| 0 <= i < guards.len() ==> !guards[i],
    decreases guards.len(),
{
    if guards.len() > 0 {
        let head = guards.drop_last();
        lemma_holders_bound(head);
        if exists|i: int| 0 <= i < guards.len() && !guards[i] {
            let i = choose|i: int| 0 <= i < guards.len() && !guards[i];
            if i < head.len() {
                assert(!head[i]);
            }
        }
        if holders(guards) == 0 {
            assert forall|i: int| 0 <= i < guards.len() implies !guards[i] by {
                if i < head.len() {
                    assert(head[i] == guards[i]);
                }
            }
        }
    }
}

} // verus!
