//! A set that remembers the order of insertion and finds its elements by a
//! small handle.

use vstd::prelude::*;

verus! {

/// An element that can be found again by a handle taken from it.
pub trait ToBorrow {
    /// The handle of this element.
    spec fn handle(&self) -> usize;

    /// Computes the handle of this element.
    fn to_borrow(&self) -> (h: usize)
        ensures
            h == self.handle(),
    ;
}

impl ToBorrow for usize {
    open spec fn handle(&self) -> usize {
        *self
    }

    fn to_borrow(&self) -> (h: usize) {
        *self
    }
}

/// Whether some element of `s` has the handle `h`.
pub open spec fn has_handle<T: ToBorrow>(s: Seq<T>, h: usize) -> bool {
    exists|i: int| 0 <= i < s.len() && (#[trigger] s[i]).handle() == h
}

/// No two elements of `s` share a handle.
pub open spec fn distinct_handles<T: ToBorrow>(s: Seq<T>) -> bool {
    forall|i: int, j: int|
        0 <= i < s.len() && 0 <= j < s.len() && i != j ==> (#[trigger] s[i]).handle() != (
        #[trigger] s[j]).handle()
}

/// A set of elements with pairwise different handles, kept in the order in
/// which they were added.
pub struct HashSetExt<T: ToBorrow> {
    elems: Vec<T>,
}

/// A claim on one element of a set: releasing it takes the element out, if
/// the element is still there.
pub struct HashSetExtDropper {
    handle: usize,
}

impl<T: ToBorrow> View for HashSetExt<T> {
    type V = Seq<T>;

    closed spec fn view(&self) -> Seq<T> {
        self.elems@
    }
}

impl<T: ToBorrow> HashSetExt<T> {
    /// The handles of the elements are pairwise different.
    pub open spec fn wf(&self) -> bool {
        distinct_handles(self@)
    }

    /// Whether an element with handle `h` is in the set.
    pub open spec fn has(&self, h: usize) -> bool {
        has_handle(self@, h)
    }

    /// The empty set.
    pub fn new() -> (set: Self)
        ensures
            set.wf(),
            set@ == Seq::<T>::empty(),
    {
        HashSetExt { elems: Vec::new() }
    }

    /// The number of elements.
    pub fn len(&self) -> (n: usize)
        ensures
            n == self@.len(),
    {
        self.elems.len()
    }

    fn position(&self, h: usize) -> (at: Option<usize>)
        ensures
            match at {
                Some(i) => i < self@.len() && self@[i as int].handle() == h,
                None => !self.has(h),
            },
    {
        let mut i: usize = 0;
        while i < self.elems.len()
            invariant
                i <= self.elems@.len(),
                forall|j: int| 0 <= j < i ==> (#[trigger] self.elems@[j]).handle() != h,
            decreases self.elems@.len() - i,
        {
            if self.elems[i].to_borrow() == h {
                return Some(i);
            }
            i = i + 1;
        }
        None
    }

    /// Adds `elem` behind the others, unless an element with the same handle
    /// is already in the set: then the set stays as it is.
    pub fn add(&mut self, elem: T)
        requires
            old(self).wf(),
        ensures
            final(self).wf(),
            final(self).has(elem.handle()),
            old(self).has(elem.handle()) ==> final(self)@ == old(self)@,
            !old(self).has(elem.handle()) ==> final(self)@ == old(self)@.push(elem),
    {
        let h = elem.to_borrow();
        match self.position(h) {
            Some(_) => {},
            None => {
                self.elems.push(elem);
                assert(self@[self@.len() - 1].handle() == h);
            },
        }
    }

    /// Adds `elem` as `add` does and returns the claim by which it can be
    /// taken out again.
    pub fn add_with_dropper(&mut self, elem: T) -> (dropper: HashSetExtDropper)
        requires
            old(self).wf(),
        ensures
            final(self).wf(),
            final(self).has(elem.handle()),
            dropper.handle() == elem.handle(),
            old(self).has(elem.handle()) ==> final(self)@ == old(self)@,
            !old(self).has(elem.handle()) ==> final(self)@ == old(self)@.push(elem),
    {
        let handle = elem.to_borrow();
        self.add(elem);
        HashSetExtDropper { handle }
    }

    /// Takes the element with handle `handle` out of the set and returns it.
    /// The order of the others stays.
    pub fn remove(&mut self, handle: &usize) -> (taken: Option<T>)
        requires
            old(self).wf(),
        ensures
            final(self).wf(),
            !final(self).has(*handle),
            taken.is_some() == old(self).has(*handle),
            match taken {
                Some(e) => exists|i: int|
                    0 <= i < old(self)@.len() && old(self)@[i] == e && e.handle() == *handle
                        && final(self)@ == old(self)@.remove(i),
                None => final(self)@ == old(self)@,
            },
            forall|h: usize| h != *handle ==> final(self).has(h) == old(self).has(h),
    {
        let ghost before = self@;
        match self.position(*handle) {
            Some(i) => {
                let e = self.elems.remove(i);
                proof {
                    let now = self@;
                    assert(now == before.remove(i as int));
                    assert forall|h: usize| h != *handle implies has_handle(now, h) == has_handle(
                        before,
                        h,
                    ) by {
                        if has_handle(before, h) {
                            let j = choose|j: int|
                                0 <= j < before.len() && (#[trigger] before[j]).handle() == h;
                            if j < i {
                                assert(now[j].handle() == h);
                            } else {
                                assert(now[j - 1].handle() == h);
                            }
                        }
                        if has_handle(now, h) {
                            let j = choose|j: int|
                                0 <= j < now.len() && (#[trigger] now[j]).handle() == h;
                            if j < i {
                                assert(before[j].handle() == h);
                            } else {
                                assert(before[j + 1].handle() == h);
                            }
                        }
                    }
                    assert(!has_handle(now, *handle)) by {
                        if has_handle(now, *handle) {
                            let j = choose|j: int|
                                0 <= j < now.len() && (#[trigger] now[j]).handle() == *handle;
                            if j < i {
                                assert(before[j].handle() == *handle);
                            } else {
                                assert(before[j + 1].handle() == *handle);
                            }
                        }
                    }
                    assert(distinct_handles(now)) by {
                        assert forall|a: int, b: int|
                            0 <= a < now.len() && 0 <= b < now.len() && a != b implies (
                        #[trigger] now[a]).handle() != (#[trigger] now[b]).handle() by {
                            let a0 = if a < i { a } else { a + 1 };
                            let b0 = if b < i { b } else { b + 1 };
                            assert(before[a0] == now[a]);
                            assert(before[b0] == now[b]);
                        }
                    }
                    assert(before[i as int] == e);
                }
                Some(e)
            },
            None => None,
        }
    }

    /// Whether an element with handle `handle` is in the set.
    pub fn contains(&self, handle: &usize) -> (found: bool)
        ensures
            found == self.has(*handle),
    {
        self.position(*handle).is_some()
    }

    /// Takes out the element that has been in the set longest.
    pub fn pop(&mut self) -> (taken: Option<T>)
        requires
            old(self).wf(),
        ensures
            final(self).wf(),
            match taken {
                Some(e) => old(self)@.len() > 0 && e == old(self)@[0] && final(self)@ == old(self)@.remove(0) && !final(self).has(e.handle()),
                None => old(self)@.len() == 0 && final(self)@ == old(self)@,
            },
    {
        if self.elems.len() == 0 {
            return None;
        }
        let ghost before = self@;
        let e = self.elems.remove(0);
        proof {
            let now = self@;
            assert(distinct_handles(now)) by {
                assert forall|a: int, b: int|
                    0 <= a < now.len() && 0 <= b < now.len() && a != b implies (
                #[trigger] now[a]).handle() != (#[trigger] now[b]).handle() by {
                    assert(before[a + 1] == now[a]);
                    assert(before[b + 1] == now[b]);
                }
            }
            assert(!has_handle(now, e.handle())) by {
                if has_handle(now, e.handle()) {
                    let j = choose|j: int|
                        0 <= j < now.len() && (#[trigger] now[j]).handle() == e.handle();
                    assert(before[j + 1] == now[j]);
                    assert(before[0] == e);
                }
            }
        }
        Some(e)
    }

    /// Takes every element out, oldest first.
    pub fn drain(&mut self) -> (all: Vec<T>)
        ensures
            final(self).wf(),
            all@ == old(self)@,
            final(self)@ == Seq::<T>::empty(),
    {
        let mut all: Vec<T> = Vec::new();
        std::mem::swap(&mut self.elems, &mut all);
        all
    }
}

impl HashSetExtDropper {
    /// The handle of the claimed element.
    pub closed spec fn handle(&self) -> usize {
        self.handle
    }

    /// The handle of the claimed element.
    pub fn claimed(&self) -> (h: usize)
        ensures
            h == self.handle(),
    {
        self.handle
    }

    /// Gives the claim up: the claimed element leaves `set`, if it is still
    /// in it, and nothing else changes.
    pub fn release<T: ToBorrow>(self, set: &mut HashSetExt<T>) -> (taken: Option<T>)
        requires
            old(set).wf(),
        ensures
            final(set).wf(),
            !final(set).has(self.handle()),
            taken.is_some() == old(set).has(self.handle()),
            match taken {
                Some(e) => exists|i: int|
                    0 <= i < old(set)@.len() && old(set)@[i] == e && e.handle() == self.handle()
                        && final(set)@ == old(set)@.remove(i),
                None => final(set)@ == old(set)@,
            },
            forall|h: usize| h != self.handle() ==> final(set).has(h) == old(set).has(h),
    {
        set.remove(&self.handle)
    }
}

} // verus!
