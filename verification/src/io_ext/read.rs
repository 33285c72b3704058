//! Reading framed values out of a stream that arrives in pieces.

use crate::helper::take_vec_at;
use crate::result::Error;
use vstd::prelude::*;

verus! {

/// Whether `needle` stands in `hay` at `at`.
pub open spec fn matches_at(hay: Seq<u8>, needle: Seq<u8>, at: int) -> bool {
    0 <= at && at + needle.len() <= hay.len() && hay.subrange(at, at + needle.len()) == needle
}

/// Whether `at` is the first place at which `needle` stands in `hay`.
pub open spec fn is_first_match(hay: Seq<u8>, needle: Seq<u8>, at: int) -> bool {
    matches_at(hay, needle, at) && forall|j: int| 0 <= j < at ==> !matches_at(hay, needle, j)
}

/// Whether `needle` stands anywhere in `hay`.
pub open spec fn occurs(hay: Seq<u8>, needle: Seq<u8>) -> bool {
    exists|at: int| matches_at(hay, needle, at)
}

/// Calls `memchr::memmem::find`, which searches `haystack` for `needle`
/// from the front: the answer is the first place at which the needle
/// stands, or `None` where it stands nowhere. Stated for a needle that is
/// not empty.
#[verifier::external_body]
fn find(haystack: &[u8], needle: &[u8]) -> (at: Option<usize>)
    requires
        needle@.len() > 0,
    ensures
        match at {
            Some(i) => is_first_match(haystack@, needle@, i as int),
            None => !occurs(haystack@, needle@),
        },
{
    memchr::memmem::find(haystack, needle)
}

/// What one read of the source gave: some bytes, or a failure.
#[derive(Debug)]
pub enum ReadEvent {
    /// These bytes arrived.
    Data(Vec<u8>),
    /// The read failed with this error. `Blocked` says that nothing is
    /// there now, `Eof` that nothing will come any more.
    Failed(Error),
}

/// How a read that takes several rounds goes on.
#[derive(Debug)]
pub enum Progress {
    /// Await readiness, read the source again and hand in the outcome.
    Again,
    /// The read is complete, with these bytes.
    Done(Vec<u8>),
    /// The read failed.
    Failed(Error),
}

/// A reader with a buffer: what arrived and was not handed out yet waits
/// in `buf`; `data` gathers the bytes of a read to the end of the stream.
pub struct AsyncReader {
    buf: Vec<u8>,
    data: Vec<u8>,
}

impl AsyncReader {
    /// The bytes that arrived and were not handed out yet.
    pub closed spec fn buffered(&self) -> Seq<u8> {
        self.buf@
    }

    /// The bytes gathered by the read that is under way.
    pub closed spec fn gathered(&self) -> Seq<u8> {
        self.data@
    }

    /// A reader with nothing buffered.
    pub fn new() -> (reader: Self)
        ensures
            reader.buffered() == Seq::<u8>::empty(),
            reader.gathered() == Seq::<u8>::empty(),
    {
        AsyncReader { buf: Vec::new(), data: Vec::new() }
    }

    /// Takes the first `at` buffered bytes.
    fn take(&mut self, at: usize) -> (taken: Vec<u8>)
        requires
            at <= old(self).buffered().len(),
        ensures
            taken@ == old(self).buffered().subrange(0, at as int),
            final(self).buffered() == old(self).buffered().subrange(
                at as int,
                old(self).buffered().len() as int,
            ),
            final(self).gathered() == old(self).gathered(),
    {
        take_vec_at(&mut self.buf, at)
    }

    /// Puts the outcome of one read of the source behind the buffered
    /// bytes, for a read that needs a complete frame. Bytes are kept and
    /// `Blocked` is passed over: both mean to try again. Any other failure,
    /// the end of the stream too, is an error.
    pub fn feed(&mut self, event: ReadEvent) -> (fed: Result<(), Error>)
        ensures
            final(self).gathered() == old(self).gathered(),
            match event {
                ReadEvent::Data(bytes) => fed.is_ok() && final(self).buffered() == old(self).buffered() + bytes@,
                ReadEvent::Failed(e) => final(self).buffered() == old(self).buffered() && (if e.kind() is Blocked {
                    fed.is_ok()
                } else {
                    fed.is_err() && fed.unwrap_err() == e
                }),
            },
    {
        match event {
            ReadEvent::Data(mut bytes) => {
                self.buf.append(&mut bytes);
                Ok(())
            },
            ReadEvent::Failed(e) => {
                if e.is_blocked() {
                    Ok(())
                } else {
                    Err(e)
                }
            },
        }
    }

    /// Hands out the buffered bytes up to and with the first `end_at`, if
    /// `end_at` has arrived; what follows stays buffered. Without it
    /// nothing is handed out and the buffer stays as it is.
    pub fn read_until(&mut self, end_at: &[u8]) -> (frame: Option<Vec<u8>>)
        requires
            end_at@.len() > 0,
        ensures
            final(self).gathered() == old(self).gathered(),
            frame.is_some() == occurs(old(self).buffered(), end_at@),
            match frame {
                Some(bytes) => is_first_match(
                    old(self).buffered(),
                    end_at@,
                    bytes@.len() - end_at@.len(),
                ) && bytes@ + final(self).buffered() == old(self).buffered(),
                None => final(self).buffered() == old(self).buffered(),
            },
    {
        match find(self.buf.as_slice(), end_at) {
            Some(at) => {
                let total = self.buf.len();
                proof {
                    assert(matches_at(self.buf@, end_at@, at as int));
                    assert(at + end_at@.len() <= total);
                }
                let end = at + end_at.len();
                let bytes = self.take(end);
                proof {
                    assert(bytes@ + self.buffered() =~= old(self).buffered());
                    assert(matches_at(old(self).buffered(), end_at@, at as int));
                }
                Some(bytes)
            },
            None => None,
        }
    }

    /// As `read_until`, with `end_at` cut off the bytes handed out.
    pub fn read_until_exclusive(&mut self, end_at: &[u8]) -> (frame: Option<Vec<u8>>)
        requires
            end_at@.len() > 0,
        ensures
            final(self).gathered() == old(self).gathered(),
            frame.is_some() == occurs(old(self).buffered(), end_at@),
            match frame {
                Some(bytes) => is_first_match(old(self).buffered(), end_at@, bytes@.len() as int)
                    && bytes@ + end_at@ + final(self).buffered() == old(self).buffered(),
                None => final(self).buffered() == old(self).buffered(),
            },
    {
        match self.read_until(end_at) {
            Some(mut bytes) => {
                let ghost whole = bytes@;
                let keep = bytes.len() - end_at.len();
                bytes.truncate(keep);
                proof {
                    assert(whole.subrange(keep as int, whole.len() as int) == end_at@) by {
                        assert(whole =~= old(self).buffered().subrange(0, whole.len() as int));
                        assert(whole.subrange(keep as int, whole.len() as int) =~= old(self).buffered().subrange(keep as int, whole.len() as int));
                    }
                    assert(bytes@ + end_at@ =~= whole);
                }
                Some(bytes)
            },
            None => None,
        }
    }

    /// Hands out the first `size` buffered bytes, once that many have
    /// arrived; what follows stays buffered.
    pub fn read_exactly(&mut self, size: usize) -> (frame: Option<Vec<u8>>)
        ensures
            final(self).gathered() == old(self).gathered(),
            frame.is_some() == (old(self).buffered().len() >= size),
            match frame {
                Some(bytes) => bytes@.len() == size && bytes@ + final(self).buffered() == old(self).buffered(),
                None => final(self).buffered() == old(self).buffered(),
            },
    {
        if self.buf.len() >= size {
            let bytes = self.take(size);
            proof {
                assert(bytes@ + self.buffered() =~= old(self).buffered());
            }
            Some(bytes)
        } else {
            None
        }
    }

    /// One round of reading to the end of the stream. Bytes that arrived
    /// are gathered; at `Eof` everything buffered and gathered is handed
    /// out; `Blocked` means to try again; any other failure is an error.
    pub fn readall(&mut self, event: ReadEvent) -> (progress: Progress)
        ensures
            gathered_round(*old(self), *final(self), event, progress, false),
    {
        self.gather(event, false)
    }

    /// One round of reading what is there. Bytes that arrived are
    /// gathered; at `Eof` and at `Blocked` everything buffered and gathered
    /// is handed out; any other failure is an error.
    pub fn read_once(&mut self, event: ReadEvent) -> (progress: Progress)
        ensures
            gathered_round(*old(self), *final(self), event, progress, true),
    {
        self.gather(event, true)
    }

    fn gather(&mut self, event: ReadEvent, stop_when_blocked: bool) -> (progress: Progress)
        ensures
            gathered_round(*old(self), *final(self), event, progress, stop_when_blocked),
    {
        match event {
            ReadEvent::Data(mut bytes) => {
                self.data.append(&mut bytes);
                Progress::Again
            },
            ReadEvent::Failed(e) => {
                if e.is_eof() || (stop_when_blocked && e.is_blocked()) {
                    let mut all: Vec<u8> = Vec::new();
                    all.append(&mut self.buf);
                    all.append(&mut self.data);
                    Progress::Done(all)
                } else if e.is_blocked() {
                    Progress::Again
                } else {
                    Progress::Failed(e)
                }
            },
        }
    }
}

/// What one round of a read without frames does: `before` and `after` are
/// the reader around it, `event` is the outcome of the source's read,
/// `progress` the answer. With `stop_when_blocked` the read ends when
/// nothing is there, else only at the end of the stream.
pub open spec fn gathered_round(
    before: AsyncReader,
    after: AsyncReader,
    event: ReadEvent,
    progress: Progress,
    stop_when_blocked: bool,
) -> bool {
    match event {
        ReadEvent::Data(bytes) => progress is Again && after.buffered() == before.buffered()
            && after.gathered() == before.gathered() + bytes@,
        ReadEvent::Failed(e) => if e.kind() is Eof || (stop_when_blocked && e.kind() is Blocked) {
            progress is Done && progress->Done_0@ == before.buffered() + before.gathered()
                && after.buffered() == Seq::<u8>::empty() && after.gathered() == Seq::<u8>::empty()
        } else if e.kind() is Blocked {
            progress is Again && after.buffered() == before.buffered() && after.gathered()
                == before.gathered()
        } else {
            progress is Failed && progress->Failed_0 == e && after.buffered() == before.buffered()
                && after.gathered() == before.gathered()
        },
    }
}

/// A frame found in what has arrived so far is the frame of the whole
/// stream: the first place of the delimiter in a prefix that holds it is
/// its first place in every continuation.
pub proof fn lemma_frame_of_prefix(stream: Seq<u8>, arrived: int, end_at: Seq<u8>, at: int)
    requires
        0 <= arrived <= stream.len(),
        is_first_match(stream.subrange(0, arrived), end_at, at),
    ensures
        is_first_match(stream, end_at, at),
{
    let prefix = stream.subrange(0, arrived);
    assert(stream.subrange(at, at + end_at.len()) =~= prefix.subrange(at, at + end_at.len()));
    assert forall|j: int| 0 <= j < at implies !matches_at(stream, end_at, j) by {
        if matches_at(stream, end_at, j) {
            assert(prefix.subrange(j, j + end_at.len()) =~= stream.subrange(j, j + end_at.len()));
            assert(matches_at(prefix, end_at, j));
        }
    }
}

/// Two frames read one after the other, and what is left, make up the
/// stream again: the reads cut the stream into pieces and lose nothing.
pub proof fn lemma_frames_partition(
    stream: Seq<u8>,
    first: Seq<u8>,
    rest: Seq<u8>,
    second: Seq<u8>,
    left: Seq<u8>,
)
    requires
        first + rest == stream,
        second + left == rest,
    ensures
        first + second + left == stream,
        first == stream.subrange(0, first.len() as int),
        second == stream.subrange(first.len() as int, (first.len() + second.len()) as int),
{
    assert(first + second + left =~= first + (second + left));
    assert(first =~= stream.subrange(0, first.len() as int));
    assert(second =~= stream.subrange(first.len() as int, (first.len() + second.len()) as int));
}

} // verus!
