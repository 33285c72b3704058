//! Writing through a buffer that gathers small writes.

use crate::config::MAX_WRITE_BUF_SIZE;
use crate::helper::take_vec_at;
use crate::result::Error;
use crate::runtime::Runtime;
use crate::sync::mutex::{lock_polled, lock_released, AsyncMutex, AsyncMutexGuard};
use crate::task::waker_ext::WakerExt;
use crate::task::Poll;
use vstd::prelude::*;

verus! {

/// A sink behind a lock, shared by those who write to it; each of them
/// writes through a guard of its own, one at a time.
pub struct AsyncBufWriter<W> {
    writer: AsyncMutex<W>,
}

/// The claim of one writer on the sink, with its buffer: the bytes that
/// were accepted and have not reached the sink yet, in their order.
pub struct _AsyncBufWriterGuard {
    writer: AsyncMutexGuard,
    buf: Vec<u8>,
}

/// What is left to send after the sink took `size` bytes of `pending`.
/// A size beyond what was offered changes nothing.
pub open spec fn after_write(pending: Seq<u8>, size: int) -> Seq<u8> {
    if 0 <= size <= pending.len() {
        pending.subrange(size, pending.len() as int)
    } else {
        pending
    }
}

/// What has reached the sink after it took `size` bytes of `pending`.
pub open spec fn sink_after_write(sink: Seq<u8>, pending: Seq<u8>, size: int) -> Seq<u8> {
    if 0 <= size <= pending.len() {
        sink + pending.subrange(0, size)
    } else {
        sink
    }
}

impl<W> AsyncBufWriter<W> {
    /// The lock around the sink.
    pub closed spec fn lock_state(&self) -> AsyncMutex<W> {
        self.writer
    }

    /// A writer for the sink `writer`, which nobody holds.
    pub fn new(writer: W) -> (buf_writer: Self)
        ensures
            buf_writer.lock_state().wf(),
            !buf_writer.lock_state().is_occupied(),
            buf_writer.lock_state().waiting() == Seq::<WakerExt>::empty(),
            buf_writer.lock_state().value() == writer,
    {
        AsyncBufWriter { writer: AsyncMutex::new(writer) }
    }

    /// A guard with an empty buffer that does not hold the sink yet.
    pub fn lock(&self) -> (guard: _AsyncBufWriterGuard)
        ensures
            guard.pending() == Seq::<u8>::empty(),
            !guard.claim().is_holding(),
            guard.claim().registered().is_none(),
    {
        _AsyncBufWriterGuard::new()
    }
}

impl _AsyncBufWriterGuard {
    /// The bytes that wait to be written to the sink.
    pub closed spec fn pending(&self) -> Seq<u8> {
        self.buf@
    }

    /// The request for the lock around the sink.
    pub closed spec fn claim(&self) -> AsyncMutexGuard {
        self.writer
    }

    /// A guard with an empty buffer that does not hold the sink yet.
    pub fn new() -> (guard: Self)
        ensures
            guard.pending() == Seq::<u8>::empty(),
            !guard.claim().is_holding(),
            guard.claim().registered().is_none(),
    {
        _AsyncBufWriterGuard { writer: AsyncMutexGuard::new(), buf: Vec::new() }
    }

    /// One poll of taking the sink, as a poll of a request for its lock.
    pub fn poll<W>(&mut self, buf_writer: &mut AsyncBufWriter<W>, waker: &WakerExt) -> (polled: Poll<
        (),
    >)
        requires
            old(buf_writer).lock_state().wf(),
        ensures
            final(buf_writer).lock_state().wf(),
            final(self).pending() == old(self).pending(),
            lock_polled(
                old(buf_writer).lock_state(),
                final(buf_writer).lock_state(),
                old(self).claim(),
                final(self).claim(),
                *waker,
                polled,
            ),
    {
        self.writer.poll(&mut buf_writer.writer, waker)
    }

    /// Whether this guard holds the sink.
    pub fn holding(&self) -> (holding: bool)
        ensures
            holding == self.claim().is_holding(),
    {
        self.writer.holding()
    }

    /// The sink, for the guard that holds it.
    pub fn sink<'a, W>(&self, buf_writer: &'a mut AsyncBufWriter<W>) -> (sink: &'a mut W)
        requires
            self.claim().is_holding(),
        ensures
            *sink == old(buf_writer).lock_state().value(),
            final(buf_writer).lock_state().value() == *final(sink),
            final(buf_writer).lock_state().wf() == old(buf_writer).lock_state().wf(),
            final(buf_writer).lock_state().is_occupied() == old(buf_writer).lock_state().is_occupied(),
            final(buf_writer).lock_state().waiting() == old(buf_writer).lock_state().waiting(),
    {
        self.writer.get_mut(&mut buf_writer.writer)
    }

    /// Ends the guard, after one last write of the pending bytes to the
    /// sink where there were any (`wrote`): what the sink took counts as
    /// sent, the rest is returned as lost, with the failure of the write if
    /// it failed. The sink is free again, and the one that waited longest
    /// for it goes to the back of the ready queue.
    pub fn release<W>(
        self,
        wrote: Option<Result<usize, Error>>,
        buf_writer: &mut AsyncBufWriter<W>,
        rt: &mut Runtime,
    ) -> (lost: (Vec<u8>, Option<Error>))
        requires
            old(buf_writer).lock_state().wf(),
            old(rt).wf(),
            self.claim().is_holding() ==> old(buf_writer).lock_state().is_occupied(),
        ensures
            final(buf_writer).lock_state().wf(),
            final(rt).wf(),
            final(rt).only_ready_changed(*old(rt)),
            lock_released(
                old(buf_writer).lock_state(),
                final(buf_writer).lock_state(),
                self.claim(),
                old(rt).ready(),
                final(rt).ready(),
            ),
            lost.0@ == (match wrote {
                Some(Ok(size)) => after_write(self.pending(), size as int),
                _ => self.pending(),
            }),
            lost.1 == (match wrote {
                Some(Err(e)) => Some(e),
                _ => None,
            }),
    {
        let mut guard = self;
        let failure = match wrote {
            Some(outcome) => match guard.flush_once(outcome) {
                Ok(()) => None,
                Err(e) => Some(e),
            },
            None => None,
        };
        guard.writer.release(&mut buf_writer.writer, rt);
        (guard.buf, failure)
    }

    /// The bytes to offer to the sink at the next write.
    pub fn to_write(&self) -> (bytes: &[u8])
        ensures
            bytes@ == self.pending(),
    {
        self.buf.as_slice()
    }

    /// Whether nothing waits to be written.
    pub fn is_flushed(&self) -> (flushed: bool)
        ensures
            flushed == (self.pending().len() == 0),
    {
        self.buf.len() == 0
    }

    /// Accepts `data` behind what waits already, and says whether the
    /// buffer is to be flushed, which is so from `MAX_WRITE_BUF_SIZE`
    /// buffered bytes on.
    pub fn write(&mut self, data: &[u8]) -> (full: bool)
        ensures
            final(self).claim() == old(self).claim(),
            final(self).pending() == old(self).pending() + data@,
            full == (final(self).pending().len() >= MAX_WRITE_BUF_SIZE),
    {
        let mut i: usize = 0;
        while i < data.len()
            invariant
                i <= data@.len(),
                self.writer == old(self).writer,
                self.buf@ == old(self).buf@ + data@.subrange(0, i as int),
            decreases data@.len() - i,
        {
            self.buf.push(data[i]);
            proof {
                assert(self.buf@ =~= old(self).buf@ + data@.subrange(0, i as int + 1));
            }
            i = i + 1;
        }
        proof {
            assert(data@.subrange(0, data@.len() as int) == data@);
        }
        self.buf.len() >= MAX_WRITE_BUF_SIZE
    }

    /// Accepts `data` and says whether a flush is needed to get it to the
    /// sink: whether anything waits to be written.
    pub fn send(&mut self, data: &[u8]) -> (to_flush: bool)
        ensures
            final(self).claim() == old(self).claim(),
            final(self).pending() == old(self).pending() + data@,
            to_flush == (final(self).pending().len() > 0),
    {
        let _ = self.write(data);
        self.buf.len() > 0
    }

    /// Takes note of one write of the pending bytes to the sink. The bytes
    /// that the sink took leave the buffer, the others stay in their order;
    /// after a failed write all stay, and the failure is handed on.
    pub fn flush_once(&mut self, wrote: Result<usize, Error>) -> (flushed: Result<(), Error>)
        ensures
            final(self).claim() == old(self).claim(),
            match wrote {
                Ok(size) => flushed.is_ok() && final(self).pending() == after_write(
                    old(self).pending(),
                    size as int,
                ),
                Err(e) => flushed == Err::<(), Error>(e) && final(self).pending() == old(self).pending(),
            },
    {
        match wrote {
            Ok(size) => {
                let _ = take_vec_at(&mut self.buf, size);
                Ok(())
            },
            Err(e) => Err(e),
        }
    }

    /// One round of a flush, after one write of the pending bytes to the
    /// sink: `Ok(true)` once nothing waits any more, `Ok(false)` where the
    /// sink is to be awaited and written to again, which is so too after a
    /// write that would have blocked. Any other failure ends the flush.
    pub fn flush(&mut self, wrote: Result<usize, Error>) -> (flushed: Result<bool, Error>)
        ensures
            final(self).claim() == old(self).claim(),
            match wrote {
                Ok(size) => final(self).pending() == after_write(old(self).pending(), size as int)
                    && flushed.is_ok() && flushed.unwrap() == (final(self).pending().len() == 0),
                Err(e) => final(self).pending() == old(self).pending() && (if e.kind() is Blocked {
                    flushed.is_ok() && flushed.unwrap() == (final(self).pending().len() == 0)
                } else {
                    flushed == Err::<bool, Error>(e)
                }),
            },
    {
        match self.flush_once(wrote) {
            Ok(()) => Ok(self.buf.len() == 0),
            Err(e) => {
                if e.is_blocked() {
                    Ok(self.buf.len() == 0)
                } else {
                    Err(e)
                }
            },
        }
    }
}

/// Every accepted byte reaches the sink exactly once and in order: what
/// has reached the sink, followed by what still waits, is the same before
/// and after a write to the sink, whatever size the sink reports.
pub proof fn lemma_write_keeps_bytes(sink: Seq<u8>, pending: Seq<u8>, size: int)
    ensures
        sink_after_write(sink, pending, size) + after_write(pending, size) == sink + pending,
{
    if 0 <= size <= pending.len() {
        assert((sink + pending.subrange(0, size)) + pending.subrange(size, pending.len() as int)
            =~= sink + pending);
    }
}

/// Accepting bytes adds them behind everything accepted before: what has
/// reached the sink, followed by what waits, grows by exactly these bytes.
pub proof fn lemma_accept_appends(sink: Seq<u8>, pending: Seq<u8>, data: Seq<u8>)
    ensures
        sink + (pending + data) == (sink + pending) + data,
{
    assert(sink + (pending + data) =~= (sink + pending) + data);
}

} // verus!
