//! Slots at stable addresses, each found and freed by its address.

use std::collections::HashMap;
use vstd::prelude::*;

verus! {

broadcast use vstd::std_specs::hash::group_hash_axioms;

/// The address of a slot.
#[derive(Clone, Copy, Debug, PartialEq, Eq, Structural, Hash)]
pub struct SetPtr(pub usize);

/// Values in slots. A slot keeps its address until it is freed, and no
/// address is given out twice.
pub struct BoxPtrSet<T> {
    inner: HashMap<usize, T>,
    next: usize,
}

/// A claim on one slot: releasing it frees the slot, if it is still taken.
pub struct BoxPtrSetDropper {
    ptr: SetPtr,
}

impl<T> View for BoxPtrSet<T> {
    type V = Map<usize, T>;

    closed spec fn view(&self) -> Map<usize, T> {
        self.inner@
    }
}

impl<T> BoxPtrSet<T> {
    /// The address that the next slot will get.
    pub closed spec fn next(&self) -> usize {
        self.next
    }

    /// Every taken slot has an address that was given out.
    pub open spec fn wf(&self) -> bool {
        forall|p: usize| self@.contains_key(p) ==> p < self.next()
    }

    /// Whether another slot can be taken without leaving `usize`.
    pub open spec fn has_room(&self) -> bool {
        self.next() < usize::MAX
    }

    /// A set with no slot taken.
    pub fn new() -> (set: Self)
        ensures
            set.wf(),
            set.has_room(),
            set@ == Map::<usize, T>::empty(),
            set.next() == 0,
    {
        BoxPtrSet { inner: HashMap::new(), next: 0 }
    }

    /// Whether another slot can be taken.
    pub fn can_insert(&self) -> (room: bool)
        ensures
            room == self.has_room(),
    {
        self.next < usize::MAX
    }

    /// Puts `val` into a fresh slot and returns the slot's address.
    pub fn insert(&mut self, val: T) -> (ptr: SetPtr)
        requires
            old(self).wf(),
            old(self).has_room(),
        ensures
            final(self).wf(),
            ptr.0 == old(self).next(),
            final(self).next() == old(self).next() + 1,
            !old(self)@.contains_key(ptr.0),
            final(self)@ == old(self)@.insert(ptr.0, val),
    {
        let ghost before = self@;
        let p: usize = self.next;
        self.next = self.next + 1;
        self.inner.insert(p, val);
        proof {
            assert forall|q: usize| self@.contains_key(q) implies q < self.next() by {
                if q != p {
                    assert(before.contains_key(q));
                }
            }
        }
        SetPtr(p)
    }

    /// A claim on the slot at `ptr`.
    pub fn build_dropper(&self, ptr: SetPtr) -> (dropper: BoxPtrSetDropper)
        ensures
            dropper.ptr() == ptr,
    {
        BoxPtrSetDropper { ptr }
    }

    /// Whether the slot at `ptr` is taken.
    pub fn contains(&self, ptr: &SetPtr) -> (found: bool)
        ensures
            found == self@.contains_key(ptr.0),
    {
        self.inner.contains_key(&ptr.0)
    }

    /// Frees the slot at `ptr` and returns what it held.
    pub fn remove(&mut self, ptr: &SetPtr) -> (taken: Option<T>)
        requires
            old(self).wf(),
        ensures
            final(self).wf(),
            final(self).next() == old(self).next(),
            final(self)@ == old(self)@.remove(ptr.0),
            taken == if old(self)@.contains_key(ptr.0) {
                Some(old(self)@[ptr.0])
            } else {
                None
            },
    {
        let ghost before = self@;
        let taken = self.inner.remove(&ptr.0);
        proof {
            assert forall|q: usize| self@.contains_key(q) implies q < self.next() by {
                assert(before.contains_key(q));
            }
        }
        taken
    }
}

impl BoxPtrSetDropper {
    /// The address of the claimed slot.
    pub closed spec fn ptr(&self) -> SetPtr {
        self.ptr
    }

    /// The address of the claimed slot.
    pub fn set_ptr(&self) -> (ptr: SetPtr)
        ensures
            ptr == self.ptr(),
    {
        self.ptr
    }

    /// Gives the claim up: the claimed slot is freed, if it is still taken,
    /// and no other slot changes.
    pub fn release<T>(self, set: &mut BoxPtrSet<T>) -> (taken: Option<T>)
        requires
            old(set).wf(),
        ensures
            final(set).wf(),
            final(set).next() == old(set).next(),
            final(set)@ == old(set)@.remove(self.ptr().0),
            taken == if old(set)@.contains_key(self.ptr().0) {
                Some(old(set)@[self.ptr().0])
            } else {
                None
            },
    {
        set.remove(&self.ptr)
    }
}

} // verus!
