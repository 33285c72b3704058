//! Small helpers shared by the rest of the runtime.

use crate::runtime::Runtime;
use crate::task::waker_ext::WakerExt;
use crate::task::Poll;
use vstd::prelude::*;

verus! {

/// Takes the first `at` elements out of `v` and leaves the rest in it.
///
/// Where `at` is past the end, nothing is taken and `v` stays as it is.
pub fn take_vec_at<T>(v: &mut Vec<T>, at: usize) -> (taken: Vec<T>)
    ensures
        at <= old(v)@.len() ==> taken@ == old(v)@.subrange(0, at as int),
        at <= old(v)@.len() ==> final(v)@ == old(v)@.subrange(at as int, old(v)@.len() as int),
        at > old(v)@.len() ==> taken@ == Seq::<T>::empty() && final(v)@ == old(v)@,
{
    if at > v.len() {
        return Vec::new();
    }
    let mut left = v.split_off(at);
    std::mem::swap(v, &mut left);
    left
}

/// A future made of a function: each poll calls the function with the
/// waker of the polling task.
pub struct PollFn<F> {
    poller: F,
}

/// The future whose polls are calls of `f`.
pub fn poll_fn<T, F: Fn(&WakerExt) -> Poll<T>>(f: F) -> (fut: PollFn<F>)
    ensures
        fut.poller() == f,
{
    PollFn { poller: f }
}

impl<F> PollFn<F> {
    /// The function that a poll calls.
    pub closed spec fn poller(&self) -> F {
        self.poller
    }

    /// One poll: what the function answers for `waker`.
    pub fn poll<T>(&self, waker: &WakerExt) -> (polled: Poll<T>) where F: Fn(&WakerExt) -> Poll<T>
        requires
            self.poller().requires((waker,)),
        ensures
            self.poller().ensures((waker,), polled),
    {
        (self.poller)(waker)
    }
}

/// What a fused future yields once it is ready.
#[derive(Debug, PartialEq, Eq)]
pub enum FutureResult<T> {
    /// The result was handed out at an earlier poll.
    Taken,
    /// The result.
    Done(T),
}

/// A wrapper that remembers that its future was ready: from then on every
/// poll is `Ready`, and the future is not to be polled again.
pub struct FutureExt {
    finished: bool,
}

impl FutureExt {
    /// Whether the wrapped future was ready at an earlier poll.
    pub closed spec fn is_finished(&self) -> bool {
        self.finished
    }

    /// The wrapper of a future that was not polled yet.
    pub fn new() -> (fut: Self)
        ensures
            !fut.is_finished(),
    {
        FutureExt { finished: false }
    }

    /// The wrapper of a future that was not polled yet, beside the empty
    /// place for the future's result.
    pub fn new_with_result_placeholder<T>() -> (made: (Self, Option<T>))
        ensures
            !made.0.is_finished(),
            made.1.is_none(),
    {
        (FutureExt::new(), None)
    }

    /// Whether the wrapped future was ready at an earlier poll.
    pub fn finished(&self) -> (finished: bool)
        ensures
            finished == self.is_finished(),
    {
        self.finished
    }

    /// One poll, where `inner` is what the wrapped future yielded now.
    /// After an earlier `Ready` the answer is `Ready(Taken)` whatever
    /// `inner` holds.
    pub fn poll<T>(&mut self, inner: Poll<T>) -> (polled: Poll<FutureResult<T>>)
        ensures
            final(self).is_finished() == (old(self).is_finished() || inner is Ready),
            polled == (if old(self).is_finished() {
                Poll::Ready(FutureResult::<T>::Taken)
            } else {
                match inner {
                    Poll::Ready(result) => Poll::Ready(FutureResult::Done(result)),
                    Poll::Pending => Poll::Pending,
                }
            }),
    {
        if self.finished {
            return Poll::Ready(FutureResult::Taken);
        }
        match inner {
            Poll::Ready(result) => {
                self.finished = true;
                Poll::Ready(FutureResult::Done(result))
            },
            Poll::Pending => Poll::Pending,
        }
    }
}

/// The future that gives the other ready tasks a turn.
pub struct Yield {
    yielded: bool,
}

/// A future that is `Pending` once and puts its task at the back of the
/// ready queue, and is `Ready` from then on.
pub fn yield_here() -> (y: Yield)
    ensures
        !y.has_yielded(),
{
    Yield { yielded: false }
}

impl Yield {
    /// Whether the first poll has happened.
    pub closed spec fn has_yielded(&self) -> bool {
        self.yielded
    }

    /// One poll: the first one is `Pending` and puts `waker` at the back
    /// of the ready queue, every later one is `Ready`.
    pub fn poll(&mut self, rt: &mut Runtime, waker: &WakerExt) -> (polled: Poll<()>)
        requires
            old(rt).wf(),
        ensures
            final(rt).wf(),
            final(self).has_yielded(),
            (polled is Ready) == old(self).has_yielded(),
            final(rt).only_ready_changed(*old(rt)),
            final(rt).ready() == if old(self).has_yielded() {
                old(rt).ready()
            } else {
                old(rt).ready().push(*waker)
            },
    {
        if self.yielded {
            Poll::Ready(())
        } else {
            self.yielded = true;
            rt.add_waker(*waker);
            Poll::Pending
        }
    }
}

} // verus!
