//! Readiness of an I/O source: who waits for it to become readable or
//! writable, and the future that waits.

use crate::task::task_id::TaskId;
use crate::task::waker_ext::{WakerExt, WakerSet};
use crate::task::Poll;
use vstd::prelude::*;

verus! {

/// The kind of readiness a task waits for.
#[derive(Clone, Copy, Debug, PartialEq, Eq, Structural, PartialOrd, Ord, Hash)]
pub enum Event {
    Read,
    Write,
}

/// The readiness that the operating system is asked to report for a
/// source: a mask over the two kinds, never empty.
#[derive(Clone, Copy, Debug, PartialEq, Eq, Structural)]
pub struct Interest {
    pub readable: bool,
    pub writable: bool,
}

impl Interest {
    /// The mask that holds what either of the two holds.
    pub fn add(self, other: Interest) -> (sum: Interest)
        ensures
            sum.readable == (self.readable || other.readable),
            sum.writable == (self.writable || other.writable),
    {
        Interest {
            readable: self.readable || other.readable,
            writable: self.writable || other.writable,
        }
    }
}

impl Event {
    /// The mask of this kind alone.
    pub fn to_interest(&self) -> (interest: Interest)
        ensures
            interest.readable == (*self == Event::Read),
            interest.writable == (*self == Event::Write),
    {
        match self {
            Event::Read => Interest { readable: true, writable: false },
            Event::Write => Interest { readable: false, writable: true },
        }
    }

    /// The mask of all the kinds in `events`, or `None` where there is none.
    pub fn to_interests(events: Vec<Event>) -> (interests: Option<Interest>)
        ensures
            interests.is_none() == (events@.len() == 0),
            interests.is_some() ==> interests.unwrap().readable == events@.contains(Event::Read),
            interests.is_some() ==> interests.unwrap().writable == events@.contains(Event::Write),
    {
        let mut interests: Option<Interest> = None;
        let mut i: usize = 0;
        while i < events.len()
            invariant
                i <= events@.len(),
                interests.is_none() == (i == 0),
                interests.is_some() ==> interests.unwrap().readable == events@.take(i as int).contains(
                    Event::Read,
                ),
                interests.is_some() ==> interests.unwrap().writable == events@.take(i as int).contains(
                    Event::Write,
                ),
            decreases events@.len() - i,
        {
            let one = events[i].to_interest();
            let ghost seen = events@.take(i as int);
            let ghost more = events@.take(i as int + 1);
            proof {
                assert(more == seen.push(events@[i as int]));
                assert forall|e: Event| more.contains(e) <==> (seen.contains(e) || e == events@[i as int]) by {
                    if seen.contains(e) {
                        let j = choose|j: int| 0 <= j < seen.len() && seen[j] == e;
                        assert(more[j] == e);
                    }
                    if e == events@[i as int] {
                        assert(more[i as int] == e);
                    }
                }
                if i == 0 {
                    assert(!seen.contains(Event::Read));
                    assert(!seen.contains(Event::Write));
                }
            }
            interests = match interests {
                None => Some(one),
                Some(sum) => Some(sum.add(one)),
            };
            i = i + 1;
        }
        proof {
            assert(events@.take(events@.len() as int) == events@);
        }
        interests
    }
}

/// The wakers that wait for one I/O source, by the kind of readiness they
/// wait for.
pub struct IoEvent {
    read_wakers: WakerSet,
    write_wakers: WakerSet,
}

impl IoEvent {
    /// The wakers that wait for the source to become readable.
    pub closed spec fn readers(&self) -> Seq<WakerExt> {
        self.read_wakers@
    }

    /// The wakers that wait for the source to become writable.
    pub closed spec fn writers(&self) -> Seq<WakerExt> {
        self.write_wakers@
    }

    /// The wakers that wait for `event`.
    pub open spec fn waiting(&self, event: Event) -> Seq<WakerExt> {
        match event {
            Event::Read => self.readers(),
            Event::Write => self.writers(),
        }
    }

    /// Whether the task `tid` waits for `event`.
    pub open spec fn is_waiting(&self, event: Event, tid: TaskId) -> bool {
        crate::collections::hash_set::has_handle(self.waiting(event), tid.0)
    }

    /// In neither set do two wakers belong to one task.
    pub closed spec fn wf(&self) -> bool {
        self.read_wakers.wf() && self.write_wakers.wf()
    }

    /// A source for which nobody waits.
    pub fn new() -> (io_event: Self)
        ensures
            io_event.wf(),
            io_event.readers() == Seq::<WakerExt>::empty(),
            io_event.writers() == Seq::<WakerExt>::empty(),
    {
        IoEvent { read_wakers: WakerSet::new(), write_wakers: WakerSet::new() }
    }

    /// Makes `waker_ext` wait for `event`, behind those that wait already.
    /// A task that waits for `event` already is not added again.
    pub fn wait(&mut self, event: Event, waker_ext: WakerExt)
        requires
            old(self).wf(),
        ensures
            final(self).wf(),
            final(self).is_waiting(event, waker_ext.tid()),
            final(self).waiting(event) == if old(self).is_waiting(event, waker_ext.tid()) {
                old(self).waiting(event)
            } else {
                old(self).waiting(event).push(waker_ext)
            },
            event == Event::Read ==> final(self).writers() == old(self).writers(),
            event == Event::Write ==> final(self).readers() == old(self).readers(),
    {
        match event {
            Event::Read => self.read_wakers.add_waker(waker_ext),
            Event::Write => self.write_wakers.add_waker(waker_ext),
        }
    }

    /// The source was reported ready: hands out everyone who waited for a
    /// kind of readiness that was reported, readers before writers, each
    /// in the order of waiting.
    pub fn event_ready(&mut self, readable: bool, writable: bool) -> (wakers: Vec<WakerExt>)
        requires
            old(self).wf(),
        ensures
            final(self).wf(),
            wakers@ == woken(old(self).readers(), old(self).writers(), readable, writable),
            final(self).readers() == if readable {
                Seq::<WakerExt>::empty()
            } else {
                old(self).readers()
            },
            final(self).writers() == if writable {
                Seq::<WakerExt>::empty()
            } else {
                old(self).writers()
            },
    {
        let mut wakers: Vec<WakerExt> = Vec::new();
        if readable {
            let mut readers = self.read_wakers.drain();
            wakers.append(&mut readers);
        }
        if writable {
            let mut writers = self.write_wakers.drain();
            wakers.append(&mut writers);
        }
        proof {
            assert(wakers@ =~= woken(old(self).readers(), old(self).writers(), readable, writable));
        }
        wakers
    }

    /// Whether `event` was delivered to the task of `waker`: its waker is
    /// no longer among those that wait for it.
    pub fn is_event_ready(&self, event: Event, waker: &WakerExt) -> (ready: bool)
        ensures
            ready == !self.is_waiting(event, waker.tid()),
    {
        let attr = waker.get_task_attr();
        match event {
            Event::Read => !self.read_wakers.contains(attr.get_tid()),
            Event::Write => !self.write_wakers.contains(attr.get_tid()),
        }
    }

    /// Takes the task `tid` out of those that wait for `event`.
    pub fn forget(&mut self, event: Event, tid: &TaskId)
        requires
            old(self).wf(),
        ensures
            final(self).wf(),
            !final(self).is_waiting(event, *tid),
            forall|t: TaskId| t != *tid ==> final(self).is_waiting(event, t) == old(self).is_waiting(event, t),
            final(self).waiting(event) == crate::task::waker_ext::without(old(self).waiting(event), *tid),
            event == Event::Read ==> final(self).writers() == old(self).writers(),
            event == Event::Write ==> final(self).readers() == old(self).readers(),
    {
        match event {
            Event::Read => self.read_wakers.remove_waker(tid),
            Event::Write => self.write_wakers.remove_waker(tid),
        }
        proof {
            assert forall|t: TaskId| t != *tid implies final(self).is_waiting(event, t) == old(self).is_waiting(event, t) by {
                assert(final(self).read_wakers.has(t) == old(self).read_wakers.has(t));
                assert(final(self).write_wakers.has(t) == old(self).write_wakers.has(t));
            }
        }
    }
}

/// Those of a source who are handed out when it is reported ready.
pub open spec fn woken(
    readers: Seq<WakerExt>,
    writers: Seq<WakerExt>,
    readable: bool,
    writable: bool,
) -> Seq<WakerExt> {
    (if readable {
        readers
    } else {
        Seq::<WakerExt>::empty()
    }) + (if writable {
        writers
    } else {
        Seq::<WakerExt>::empty()
    })
}

/// The future that waits for one kind of readiness of a source.
pub struct IoEventHandler {
    event: Event,
    tid: Option<TaskId>,
}

impl IoEventHandler {
    /// The kind of readiness waited for.
    pub closed spec fn event(&self) -> Event {
        self.event
    }

    /// The task that was registered with the source at the first poll.
    pub closed spec fn registered(&self) -> Option<TaskId> {
        self.tid
    }

    /// A future that waits for `event` and was not polled yet.
    pub fn new(event: Event) -> (handler: Self)
        ensures
            handler.event() == event,
            handler.registered().is_none(),
    {
        IoEventHandler { event, tid: None }
    }

    /// One poll. The first one lets the task of `waker` wait for the event;
    /// each poll then answers `Ready` exactly if the task is no longer
    /// among those that wait, which is so once the event was delivered.
    pub fn poll(&mut self, io_event: &mut IoEvent, waker: &WakerExt) -> (polled: Poll<()>)
        requires
            old(io_event).wf(),
        ensures
            final(io_event).wf(),
            final(self).event() == old(self).event(),
            old(self).registered().is_none() ==> final(self).registered() == Some(waker.tid())
                && polled is Pending && final(io_event).is_waiting(old(self).event(), waker.tid())
                && final(io_event).waiting(old(self).event()) == if old(io_event).is_waiting(
                old(self).event(),
                waker.tid(),
            ) {
                old(io_event).waiting(old(self).event())
            } else {
                old(io_event).waiting(old(self).event()).push(*waker)
            },
            old(self).registered().is_some() ==> final(self).registered() == old(self).registered()
                && final(io_event).readers() == old(io_event).readers() && final(io_event).writers()
                == old(io_event).writers() && (polled is Ready) == !old(io_event).is_waiting(
                old(self).event(),
                waker.tid(),
            ),
            old(self).event() == Event::Read ==> final(io_event).writers() == old(io_event).writers(),
            old(self).event() == Event::Write ==> final(io_event).readers() == old(io_event).readers(),
    {
        if self.tid.is_none() {
            self.tid = Some(*waker.get_task_attr().get_tid());
            io_event.wait(self.event, *waker);
        }
        if io_event.is_event_ready(self.event, waker) {
            Poll::Ready(())
        } else {
            Poll::Pending
        }
    }

    /// Gives the wait up: the registered task no longer waits for the
    /// event, so a later report of readiness does not wake it.
    pub fn cancel(self, io_event: &mut IoEvent)
        requires
            old(io_event).wf(),
        ensures
            final(io_event).wf(),
            self.registered().is_some() ==> !final(io_event).is_waiting(
                self.event(),
                self.registered().unwrap(),
            ),
            self.registered().is_none() ==> final(io_event).readers() == old(io_event).readers()
                && final(io_event).writers() == old(io_event).writers(),
            self.event() == Event::Read ==> final(io_event).writers() == old(io_event).writers(),
            self.event() == Event::Write ==> final(io_event).readers() == old(io_event).readers(),
            forall|t: TaskId|
                Some(t) != self.registered() ==> final(io_event).is_waiting(self.event(), t) == old(io_event).is_waiting(self.event(), t),
    {
        match self.tid {
            Some(tid) => {
                io_event.forget(self.event, &tid);
            },
            None => {},
        }
    }
}

} // verus!
