//! Deadlines of a connection and of its single reads and writes.

use crate::config::DEFAULT_CONN_TIMEOUT;
use crate::timer::Sleeper;
use vstd::prelude::*;

verus! {

/// A deadline that can be started anew with the same length.
#[derive(Debug, PartialEq, Eq, Structural)]
pub struct Timeout {
    end_at: u64,
    timeout: u64,
}

impl Timeout {
    /// The point in time at which the deadline passes.
    pub closed spec fn end_at(&self) -> u64 {
        self.end_at
    }

    /// The length of the deadline.
    pub closed spec fn length(&self) -> u64 {
        self.timeout
    }

    /// A deadline of length `timeout` that starts at `now`.
    pub fn new(now: u64, timeout: u64) -> (t: Self)
        requires
            now + timeout <= u64::MAX,
        ensures
            t.end_at() == now + timeout,
            t.length() == timeout,
    {
        Timeout { end_at: now + timeout, timeout }
    }

    /// The sleep until the deadline, or `None` where it has passed at
    /// `now`.
    pub fn timeout(&self, now: u64) -> (sleep: Option<Sleeper>)
        ensures
            sleep.is_none() == (self.end_at() <= now),
            sleep.is_some() ==> sleep.unwrap().wake_at() == self.end_at() && sleep.unwrap().timer().is_none(),
    {
        if self.end_at <= now {
            None
        } else {
            let delay = self.end_at - now;
            Some(Sleeper::delay(now, delay))
        }
    }

    /// The same deadline started anew at `now`.
    pub fn restart(&self, now: u64) -> (t: Self)
        requires
            now + self.length() <= u64::MAX,
        ensures
            t.end_at() == now + self.length(),
            t.length() == self.length(),
    {
        Timeout::new(now, self.timeout)
    }
}

/// The deadlines of a connection: one for the connection as a whole, and
/// one each for a single read and a single write, where they were set.
#[derive(Debug, PartialEq, Eq, Structural)]
pub struct ConnTimeout {
    _timeout: Timeout,
    _read_timeout: Option<Timeout>,
    _write_timeout: Option<Timeout>,
}

/// The length of the deadline of one operation: the one that was set, or
/// `DEFAULT_CONN_TIMEOUT`.
pub open spec fn length_or_default(set: Option<Timeout>) -> u64 {
    match set {
        Some(t) => t.length(),
        None => DEFAULT_CONN_TIMEOUT,
    }
}

impl ConnTimeout {
    /// The deadline of the connection.
    pub closed spec fn overall(&self) -> Timeout {
        self._timeout
    }

    /// The deadline that was set for a single read.
    pub closed spec fn read(&self) -> Option<Timeout> {
        self._read_timeout
    }

    /// The deadline that was set for a single write.
    pub closed spec fn write(&self) -> Option<Timeout> {
        self._write_timeout
    }

    /// Whether deadlines of these lengths can start at `now`: each of them
    /// then ends within the range of a point in time.
    pub open spec fn fits_at(&self, now: u64) -> bool {
        &&& now + self.overall().length() <= u64::MAX
        &&& now + length_or_default(self.read()) <= u64::MAX
        &&& now + length_or_default(self.write()) <= u64::MAX
    }

    /// Whether deadlines of these lengths can start at `now`.
    pub fn fits(&self, now: u64) -> (fits: bool)
        ensures
            fits == self.fits_at(now),
    {
        let read = match &self._read_timeout {
            Some(t) => t.timeout,
            None => DEFAULT_CONN_TIMEOUT,
        };
        let write = match &self._write_timeout {
            Some(t) => t.timeout,
            None => DEFAULT_CONN_TIMEOUT,
        };
        self._timeout.timeout <= u64::MAX - now && read <= u64::MAX - now && write <= u64::MAX - now
    }

    /// The deadlines of a connection that starts at `now` and may take
    /// `timeout`, or `DEFAULT_CONN_TIMEOUT` where that is `None`. None is
    /// set for single reads and writes.
    pub fn new(now: u64, timeout: Option<u64>) -> (t: Self)
        requires
            now + (match timeout {
                Some(length) => length,
                None => DEFAULT_CONN_TIMEOUT,
            }) <= u64::MAX,
        ensures
            t.overall().length() == (match timeout {
                Some(length) => length,
                None => DEFAULT_CONN_TIMEOUT,
            }),
            t.overall().end_at() == now + t.overall().length(),
            t.read().is_none(),
            t.write().is_none(),
    {
        let length = match timeout {
            Some(length) => length,
            None => DEFAULT_CONN_TIMEOUT,
        };
        ConnTimeout { _timeout: Timeout::new(now, length), _read_timeout: None, _write_timeout: None }
    }

    /// Lets the connection take `timeout` from `now` on.
    pub fn update_timeout(&mut self, now: u64, timeout: u64)
        requires
            now + timeout <= u64::MAX,
        ensures
            final(self).overall().length() == timeout,
            final(self).overall().end_at() == now + timeout,
            final(self).read() == old(self).read(),
            final(self).write() == old(self).write(),
    {
        self._timeout = Timeout::new(now, timeout);
    }

    /// Lets a single read take `timeout`.
    pub fn set_read_timeout(&mut self, now: u64, timeout: u64)
        requires
            now + timeout <= u64::MAX,
        ensures
            final(self).read().is_some(),
            final(self).read().unwrap().length() == timeout,
            final(self).read().unwrap().end_at() == now + timeout,
            final(self).overall() == old(self).overall(),
            final(self).write() == old(self).write(),
    {
        self._read_timeout = Some(Timeout::new(now, timeout));
    }

    /// Lets a single write take `timeout`.
    pub fn set_write_timeout(&mut self, now: u64, timeout: u64)
        requires
            now + timeout <= u64::MAX,
        ensures
            final(self).write().is_some(),
            final(self).write().unwrap().length() == timeout,
            final(self).write().unwrap().end_at() == now + timeout,
            final(self).overall() == old(self).overall(),
            final(self).read() == old(self).read(),
    {
        self._write_timeout = Some(Timeout::new(now, timeout));
    }

    /// The sleep until the deadline of the connection, or `None` where it
    /// has passed at `now`.
    pub fn timeout(&self, now: u64) -> (sleep: Option<Sleeper>)
        ensures
            sleep.is_none() == (self.overall().end_at() <= now),
            sleep.is_some() ==> sleep.unwrap().wake_at() == self.overall().end_at()
                && sleep.unwrap().timer().is_none(),
    {
        self._timeout.timeout(now)
    }

    /// The sleep until the deadline of a read that starts at `now`: it
    /// takes the length that was set for reads, or `DEFAULT_CONN_TIMEOUT`.
    /// `None` where that length is zero.
    pub fn read_timeout(&self, now: u64) -> (sleep: Option<Sleeper>)
        requires
            now + length_or_default(self.read()) <= u64::MAX,
        ensures
            sleep.is_none() == (length_or_default(self.read()) == 0),
            sleep.is_some() ==> sleep.unwrap().wake_at() == now + length_or_default(self.read())
                && sleep.unwrap().timer().is_none(),
    {
        ConnTimeout::operation_timeout(&self._read_timeout, now)
    }

    /// The sleep until the deadline of a write that starts at `now`: it
    /// takes the length that was set for writes, or `DEFAULT_CONN_TIMEOUT`.
    /// `None` where that length is zero.
    pub fn write_timeout(&self, now: u64) -> (sleep: Option<Sleeper>)
        requires
            now + length_or_default(self.write()) <= u64::MAX,
        ensures
            sleep.is_none() == (length_or_default(self.write()) == 0),
            sleep.is_some() ==> sleep.unwrap().wake_at() == now + length_or_default(self.write())
                && sleep.unwrap().timer().is_none(),
    {
        ConnTimeout::operation_timeout(&self._write_timeout, now)
    }

    fn operation_timeout(set: &Option<Timeout>, now: u64) -> (sleep: Option<Sleeper>)
        requires
            now + length_or_default(*set) <= u64::MAX,
        ensures
            sleep.is_none() == (length_or_default(*set) == 0),
            sleep.is_some() ==> sleep.unwrap().wake_at() == now + length_or_default(*set)
                && sleep.unwrap().timer().is_none(),
    {
        let started = match set {
            Some(t) => t.restart(now),
            None => Timeout::new(now, DEFAULT_CONN_TIMEOUT),
        };
        started.timeout(now)
    }

    /// The same deadlines, each started anew at `now`.
    pub fn restart(&self, now: u64) -> (t: Self)
        requires
            now + self.overall().length() <= u64::MAX,
            self.read().is_some() ==> now + self.read().unwrap().length() <= u64::MAX,
            self.write().is_some() ==> now + self.write().unwrap().length() <= u64::MAX,
        ensures
            t.overall().length() == self.overall().length(),
            t.overall().end_at() == now + self.overall().length(),
            t.read().is_some() == self.read().is_some(),
            t.write().is_some() == self.write().is_some(),
            t.read().is_some() ==> t.read().unwrap().length() == self.read().unwrap().length()
                && t.read().unwrap().end_at() == now + self.read().unwrap().length(),
            t.write().is_some() ==> t.write().unwrap().length() == self.write().unwrap().length()
                && t.write().unwrap().end_at() == now + self.write().unwrap().length(),
    {
        ConnTimeout {
            _timeout: self._timeout.restart(now),
            _read_timeout: match &self._read_timeout {
                Some(t) => Some(t.restart(now)),
                None => None,
            },
            _write_timeout: match &self._write_timeout {
                Some(t) => Some(t.restart(now)),
                None => None,
            },
        }
    }
}

} // verus!
