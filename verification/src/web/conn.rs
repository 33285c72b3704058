//! A connection: a stream with a read buffer and deadlines.

use crate::io_ext::read::AsyncReader;
use crate::result::{Error, ErrorType};
use crate::sync::mutex::AsyncMutex;
use crate::task::waker_ext::WakerExt;
use crate::task::Poll;
use crate::timeout::ConnTimeout;
use vstd::prelude::*;

verus! {

/// What a connection keeps beside its stream: the bytes that arrived and
/// were not read yet, and its deadlines.
pub struct _Conn {
    pub reader: AsyncReader,
    pub timeout: ConnTimeout,
}

/// A connection behind its lock: those who read from it and write to it
/// take turns.
pub type Conn = AsyncMutex<_Conn>;

/// A connection with nothing buffered and the deadlines `timeout`, behind
/// a free lock.
pub fn new_conn(timeout: ConnTimeout) -> (conn: Conn)
    ensures
        conn.wf(),
        !conn.is_occupied(),
        conn.waiting() == Seq::<WakerExt>::empty(),
        conn.value().timeout == timeout,
        conn.value().reader.buffered() == Seq::<u8>::empty(),
        conn.value().reader.gathered() == Seq::<u8>::empty(),
{
    AsyncMutex::new(_Conn::new(timeout))
}

/// What waiting for a stream under two deadlines yields, given what each
/// of the three waits yields now. They are asked in this order: the
/// deadline of the connection, the deadline of the operation, the stream.
/// The first that is ready decides: a deadline fails the operation with
/// its error kind, the stream hands on its own result.
pub open spec fn raced(
    timeout: Poll<()>,
    operation_timeout: Poll<()>,
    stream: Poll<Result<(), Error>>,
    operation_error: ErrorType,
    answer: Poll<Result<(), Error>>,
) -> bool {
    if timeout is Ready {
        answer is Ready && answer->Ready_0.is_err() && answer->Ready_0.unwrap_err().kind()
            == ErrorType::Timeout
    } else if operation_timeout is Ready {
        answer is Ready && answer->Ready_0.is_err() && answer->Ready_0.unwrap_err().kind()
            == operation_error
    } else {
        answer == stream
    }
}

impl _Conn {
    /// A connection with nothing buffered and the deadlines `timeout`.
    pub fn new(timeout: ConnTimeout) -> (conn: Self)
        ensures
            conn.timeout == timeout,
            conn.reader.buffered() == Seq::<u8>::empty(),
            conn.reader.gathered() == Seq::<u8>::empty(),
    {
        _Conn { reader: AsyncReader::new(), timeout }
    }

    /// One poll of waiting for the stream to become readable, under the
    /// deadline of the connection and that of a read.
    pub fn ready_to_read(
        timeout: Poll<()>,
        read_timeout: Poll<()>,
        stream: Poll<Result<(), Error>>,
    ) -> (answer: Poll<Result<(), Error>>)
        ensures
            raced(timeout, read_timeout, stream, ErrorType::ReadTimeout, answer),
    {
        match timeout {
            Poll::Ready(_) => Poll::Ready(Err(Error::new(ErrorType::Timeout))),
            Poll::Pending => match read_timeout {
                Poll::Ready(_) => Poll::Ready(Err(Error::new(ErrorType::ReadTimeout))),
                Poll::Pending => stream,
            },
        }
    }

    /// One poll of waiting for the stream to become writable, under the
    /// deadline of the connection and that of a write.
    pub fn ready_to_write(
        timeout: Poll<()>,
        write_timeout: Poll<()>,
        stream: Poll<Result<(), Error>>,
    ) -> (answer: Poll<Result<(), Error>>)
        ensures
            raced(timeout, write_timeout, stream, ErrorType::WriteTimeout, answer),
    {
        match timeout {
            Poll::Ready(_) => Poll::Ready(Err(Error::new(ErrorType::Timeout))),
            Poll::Pending => match write_timeout {
                Poll::Ready(_) => Poll::Ready(Err(Error::new(ErrorType::WriteTimeout))),
                Poll::Pending => stream,
            },
        }
    }
}

} // verus!
