//! What a server decides between its waits: whether to accept, to go on
//! waiting or to stop.

use crate::result::Error;
use crate::runtime::Runtime;
use crate::timeout::ConnTimeout;
use vstd::prelude::*;

verus! {

/// How long the server waits for a connection before it looks for
/// connections anyway, in milliseconds.
pub const HEARTBEAT: u64 = 2000;

/// The branch of the server's wait that waits for the listener.
pub const LISTENER_BRANCH: usize = 0;

/// The branch of the server's wait that waits for the heartbeat.
pub const HEARTBEAT_BRANCH: usize = 1;

/// The branch of the server's wait that waits for a stop.
pub const STOP_BRANCH: usize = 2;

/// What the server does after one wait.
#[derive(Clone, Copy, Debug, PartialEq, Eq, Structural)]
pub enum ServerStep {
    /// Accept the connections that wait, then wait again.
    Accept,
    /// Wait again without accepting.
    Retry,
    /// A stop was requested: the server is done.
    Stop,
}

/// What the server does after one attempt to accept a connection.
#[derive(Clone, Copy, Debug, PartialEq, Eq, Structural)]
pub enum AcceptStep {
    /// A connection was accepted: hand it to a new task, then accept again.
    Spawn,
    /// The attempt failed: accept again.
    Again,
    /// No connection waits: accepting is done for now.
    Done,
}

/// What a server keeps beside its listener: the deadlines that each of
/// its connections starts with.
pub struct Server {
    pub timeout: ConnTimeout,
}

impl Server {
    /// A server whose connections get the deadlines `timeout`.
    pub fn new(timeout: ConnTimeout) -> (server: Self)
        ensures
            server.timeout == timeout,
    {
        Server { timeout }
    }

    /// Sets how long a requested stop of `rt` waits for the connections,
    /// in milliseconds.
    pub fn set_max_wait_time(&self, rt: &mut Runtime, wait_time: u64)
        ensures
            final(rt).wf() == old(rt).wf(),
            final(rt).max_wait() == wait_time,
            final(rt).live_tasks() == old(rt).live_tasks(),
            final(rt).ready() == old(rt).ready(),
            final(rt).poller() == old(rt).poller(),
            final(rt).generator() == old(rt).generator(),
            final(rt).is_stopped() == old(rt).is_stopped(),
            final(rt).stop_waiters() == old(rt).stop_waiters(),
    {
        rt.set_max_wait_duration(wait_time);
    }

    /// What the server does after one wait for its listener, its heartbeat
    /// and a stop, where `taken` is the branch that the wait took and
    /// whether the branch's result fitted. A listener that failed is only
    /// waited for again; a request to stop ends the server; in every other
    /// case the server accepts.
    pub fn run(taken: Option<(usize, bool)>) -> (step: ServerStep)
        ensures
            step == (match taken {
                Some((branch, matched)) => if branch == STOP_BRANCH {
                    ServerStep::Stop
                } else if branch == LISTENER_BRANCH && matched {
                    ServerStep::Retry
                } else {
                    ServerStep::Accept
                },
                None => ServerStep::Accept,
            }),
    {
        match taken {
            Some((branch, matched)) => {
                if branch == STOP_BRANCH {
                    ServerStep::Stop
                } else if branch == LISTENER_BRANCH && matched {
                    ServerStep::Retry
                } else {
                    ServerStep::Accept
                }
            },
            None => ServerStep::Accept,
        }
    }

    /// What the server does after one attempt to accept, given its
    /// outcome: a connection is handed to a new task, `Blocked` ends the
    /// accepting, any other failure is passed over.
    pub fn build_connections(accepted: &Result<(), Error>) -> (step: AcceptStep)
        ensures
            step == (match *accepted {
                Ok(_) => AcceptStep::Spawn,
                Err(e) => if e.kind() is Blocked {
                    AcceptStep::Done
                } else {
                    AcceptStep::Again
                },
            }),
    {
        match accepted {
            Ok(_) => AcceptStep::Spawn,
            Err(e) => {
                if e.is_blocked() {
                    AcceptStep::Done
                } else {
                    AcceptStep::Again
                }
            },
        }
    }
}

} // verus!
