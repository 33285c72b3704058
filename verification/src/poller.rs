//! The poller: the timer queue beside the table of I/O sources, and what
//! one round of waiting hands back.

use crate::collections::box_ptr_set::BoxPtrSetDropper;
use crate::io_event::{woken, Event, Interest, IoEvent, IoEventHandler};
use crate::task::waker_ext::WakerExt;
use crate::task::Poll;
use crate::timer::PriorityTimerQueue;
use vstd::prelude::*;

verus! {

/// One report of the operating system: the source behind `token` is
/// readable, writable or both.
#[derive(Clone, Copy, Debug, PartialEq, Eq, Structural)]
pub struct ReadyEvent {
    pub token: usize,
    pub readable: bool,
    pub writable: bool,
}

/// The wakers that wait for one source: readers, then writers.
pub type Waiting = (Seq<WakerExt>, Seq<WakerExt>);

/// What is left waiting at a source after the report `e`.
pub open spec fn after_report(source: Waiting, e: ReadyEvent) -> Waiting {
    (
        if e.readable {
            Seq::<WakerExt>::empty()
        } else {
            source.0
        },
        if e.writable {
            Seq::<WakerExt>::empty()
        } else {
            source.1
        },
    )
}

/// Delivers `events` in their order to `sources`: what is left waiting at
/// each source, and the wakers handed out, those of an earlier report
/// first. A report for a token that names no source is passed over.
pub open spec fn deliver(sources: Seq<Waiting>, events: Seq<ReadyEvent>) -> (Seq<Waiting>, Seq<WakerExt>)
    decreases events.len(),
{
    if events.len() == 0 {
        (sources, Seq::<WakerExt>::empty())
    } else {
        let before = deliver(sources, events.drop_last());
        let e = events.last();
        if e.token < before.0.len() {
            let source = before.0[e.token as int];
            (
                before.0.update(e.token as int, after_report(source, e)),
                before.1 + woken(source.0, source.1, e.readable, e.writable),
            )
        } else {
            before
        }
    }
}

/// The timer queue and the I/O sources that the executor waits on. A
/// source is named by its token: its place in the table.
pub struct Poller {
    timer_queue: PriorityTimerQueue,
    io_events: Vec<IoEvent>,
}

impl Poller {
    /// The timer queue.
    pub closed spec fn queue(&self) -> PriorityTimerQueue {
        self.timer_queue
    }

    /// Who waits at each registered source, by token.
    pub closed spec fn sources(&self) -> Seq<Waiting> {
        Seq::new(
            self.io_events@.len(),
            |i: int| (self.io_events@[i].readers(), self.io_events@[i].writers()),
        )
    }

    /// The timer queue and every source are valid.
    pub closed spec fn wf(&self) -> bool {
        &&& self.timer_queue.wf()
        &&& forall|i: int| 0 <= i < self.io_events@.len() ==> (#[trigger] self.io_events@[i]).wf()
    }

    /// A poller without timers and sources.
    pub fn new() -> (poller: Self)
        ensures
            poller.wf(),
            poller.queue().has_room(),
            poller.queue().timers().len() == 0,
            poller.queue().slots() == Map::<usize, WakerExt>::empty(),
            poller.sources().len() == 0,
    {
        Poller { timer_queue: PriorityTimerQueue::new(), io_events: Vec::new() }
    }

    /// Whether one more timer can be added.
    pub fn can_add_timer(&self) -> (room: bool)
        ensures
            room == self.queue().has_room(),
    {
        self.timer_queue.can_add()
    }

    /// Queues a timer that wakes `waker` at `wake_at`.
    pub fn add_timer(&mut self, wake_at: u64, waker: WakerExt) -> (dropper: BoxPtrSetDropper)
        requires
            old(self).wf(),
            old(self).queue().has_room(),
        ensures
            final(self).wf(),
            final(self).sources() == old(self).sources(),
            final(self).queue().timer_added(old(self).queue(), wake_at, waker, dropper.ptr()),
    {
        self.timer_queue.add_timer(wake_at, waker)
    }

    /// Revokes the waker of a timer.
    pub fn revoke_timer(&mut self, dropper: BoxPtrSetDropper)
        requires
            old(self).wf(),
        ensures
            final(self).wf(),
            final(self).sources() == old(self).sources(),
            final(self).queue().timer_revoked(old(self).queue(), dropper.ptr()),
    {
        self.timer_queue.revoke(dropper);
    }

    /// Whether the timer claimed by `dropper` still waits to fire.
    pub fn timer_waiting(&self, dropper: &BoxPtrSetDropper) -> (waiting: bool)
        ensures
            waiting == self.queue().slots().contains_key(dropper.ptr().0),
    {
        self.timer_queue.is_waiting(dropper)
    }

    /// How long the operating system may be waited on: until the next
    /// deadline whose waker was not revoked.
    pub fn delay(&mut self, now: u64, can_finish: bool) -> (wait: Option<u64>)
        requires
            old(self).wf(),
        ensures
            final(self).wf(),
            final(self).sources() == old(self).sources(),
            final(self).queue().delayed(old(self).queue(), now, can_finish, wait),
    {
        self.timer_queue.delay(now, can_finish)
    }

    /// Adds a source and returns its token with the readiness to ask the
    /// operating system for; with `None` the source is not to be
    /// registered there.
    pub fn register(&mut self, events: Vec<Event>) -> (registered: (usize, Option<Interest>))
        requires
            old(self).wf(),
        ensures
            final(self).wf(),
            final(self).queue() == old(self).queue(),
            registered.0 == old(self).sources().len(),
            final(self).sources() == old(self).sources().push(
                (Seq::<WakerExt>::empty(), Seq::<WakerExt>::empty()),
            ),
            registered.1.is_none() == (events@.len() == 0),
            registered.1.is_some() ==> registered.1.unwrap().readable == events@.contains(Event::Read)
                && registered.1.unwrap().writable == events@.contains(Event::Write),
    {
        let token = self.io_events.len();
        self.io_events.push(IoEvent::new());
        proof {
            assert(final(self).sources() =~= old(self).sources().push(
                (Seq::<WakerExt>::empty(), Seq::<WakerExt>::empty()),
            ));
        }
        (token, Event::to_interests(events))
    }

    /// The readiness to ask the operating system for when a source turns
    /// to waiting for `events`.
    pub fn reregister(&self, events: Vec<Event>) -> (interests: Option<Interest>)
        ensures
            interests.is_none() == (events@.len() == 0),
            interests.is_some() ==> interests.unwrap().readable == events@.contains(Event::Read)
                && interests.unwrap().writable == events@.contains(Event::Write),
    {
        Event::to_interests(events)
    }

    /// Takes a source out of service: nobody waits at it any longer. An
    /// unknown token changes nothing.
    pub fn deregister(&mut self, token: usize)
        requires
            old(self).wf(),
        ensures
            final(self).wf(),
            final(self).queue() == old(self).queue(),
            token >= old(self).sources().len() ==> final(self).sources() == old(self).sources(),
            token < old(self).sources().len() ==> final(self).sources() == old(self).sources().update(
                token as int,
                (Seq::<WakerExt>::empty(), Seq::<WakerExt>::empty()),
            ),
    {
        if token < self.io_events.len() {
            let _ = self.io_events[token].event_ready(true, true);
            proof {
                assert(final(self).sources() =~= old(self).sources().update(
                    token as int,
                    (Seq::<WakerExt>::empty(), Seq::<WakerExt>::empty()),
                ));
            }
        }
    }

    /// One poll of a readiness future on the source `token`; a token that
    /// names no source is never ready.
    pub fn poll_io(&mut self, token: usize, handler: &mut IoEventHandler, waker: &WakerExt) -> (polled:
        Poll<()>)
        requires
            old(self).wf(),
        ensures
            final(self).wf(),
            final(self).queue() == old(self).queue(),
            final(self).sources().len() == old(self).sources().len(),
            final(handler).event() == old(handler).event(),
            forall|i: int|
                0 <= i < old(self).sources().len() && i != token ==> final(self).sources()[i] == old(self).sources()[i],
            token >= old(self).sources().len() ==> polled is Pending && final(handler).registered()
                == old(handler).registered(),
            token < old(self).sources().len() ==> io_polled(
                old(self).sources()[token as int],
                final(self).sources()[token as int],
                old(handler).event(),
                old(handler).registered(),
                final(handler).registered(),
                *waker,
                polled,
            ),
    {
        if token < self.io_events.len() {
            let polled = handler.poll(&mut self.io_events[token], waker);
            polled
        } else {
            Poll::Pending
        }
    }

    /// Gives up a readiness future on the source `token`: its task no
    /// longer waits there.
    pub fn cancel_io(&mut self, token: usize, handler: IoEventHandler)
        requires
            old(self).wf(),
        ensures
            final(self).wf(),
            final(self).queue() == old(self).queue(),
            final(self).sources().len() == old(self).sources().len(),
            forall|i: int|
                0 <= i < old(self).sources().len() && i != token ==> final(self).sources()[i] == old(self).sources()[i],
            token < old(self).sources().len() && handler.registered().is_some()
                ==> !crate::collections::hash_set::has_handle(
                waiting_for(final(self).sources()[token as int], handler.event()),
                handler.registered().unwrap().0,
            ),
    {
        if token < self.io_events.len() {
            handler.cancel(&mut self.io_events[token]);
        }
    }

    /// Hands out the wakers that the reports `events` make ready, in the
    /// order of the reports.
    pub fn io_poll(&mut self, events: &Vec<ReadyEvent>) -> (wakers: Vec<WakerExt>)
        requires
            old(self).wf(),
        ensures
            final(self).wf(),
            final(self).queue() == old(self).queue(),
            final(self).sources() == deliver(old(self).sources(), events@).0,
            wakers@ == deliver(old(self).sources(), events@).1,
    {
        let ghost sources = self.sources();
        let mut wakers: Vec<WakerExt> = Vec::new();
        let mut i: usize = 0;
        while i < events.len()
            invariant
                i <= events@.len(),
                self.wf(),
                self.timer_queue == old(self).timer_queue,
                self.sources() == deliver(sources, events@.take(i as int)).0,
                wakers@ == deliver(sources, events@.take(i as int)).1,
            decreases events@.len() - i,
        {
            let event = events[i];
            let ghost table = self.sources();
            let ghost out = wakers@;
            proof {
                assert(events@.take(i as int + 1).drop_last() == events@.take(i as int));
                assert(events@.take(i as int + 1).last() == event);
            }
            if event.token < self.io_events.len() {
                let mut ready = self.io_events[event.token].event_ready(
                    event.readable,
                    event.writable,
                );
                wakers.append(&mut ready);
                proof {
                    assert(self.sources() =~= table.update(
                        event.token as int,
                        after_report(table[event.token as int], event),
                    ));
                }
            }
            i = i + 1;
        }
        proof {
            assert(events@.take(events@.len() as int) == events@);
        }
        wakers
    }

    /// What one round of waiting hands back at `now`, after the operating
    /// system reported `events`: the wakers made ready by the reports, in
    /// the order of the reports, and behind them those of the timers that
    /// are due, earliest deadline first.
    pub fn poll(&mut self, events: &Vec<ReadyEvent>, now: u64) -> (wakers: Vec<WakerExt>)
        requires
            old(self).wf(),
        ensures
            final(self).wf(),
            final(self).sources() == deliver(old(self).sources(), events@).0,
            final(self).queue().got_wakers(old(self).queue(), now),
            wakers@ == poll_wakers(old(self).sources(), old(self).queue(), events@, now),
    {
        let mut wakers = self.io_poll(events);
        let mut timed = self.timer_queue.get_wakers(now);
        wakers.append(&mut timed);
        wakers
    }
}

/// The wakers that wait at `source` for `event`.
pub open spec fn waiting_for(source: Waiting, event: Event) -> Seq<WakerExt> {
    match event {
        Event::Read => source.0,
        Event::Write => source.1,
    }
}

/// What one poll of a readiness future does to its source and answers. The
/// first poll makes the task wait and is `Pending`; a later one changes
/// nothing and is `Ready` exactly if the task no longer waits.
pub open spec fn io_polled(
    before: Waiting,
    after: Waiting,
    event: Event,
    registered_before: Option<crate::task::task_id::TaskId>,
    registered_after: Option<crate::task::task_id::TaskId>,
    waker: WakerExt,
    polled: Poll<()>,
) -> bool {
    let was_waiting = crate::collections::hash_set::has_handle(
        waiting_for(before, event),
        waker.tid().0,
    );
    if registered_before.is_none() {
        &&& registered_after == Some(waker.tid())
        &&& polled is Pending
        &&& waiting_for(after, event) == if was_waiting {
            waiting_for(before, event)
        } else {
            waiting_for(before, event).push(waker)
        }
        &&& event == Event::Read ==> after.1 == before.1
        &&& event == Event::Write ==> after.0 == before.0
    } else {
        &&& registered_after == registered_before
        &&& after == before
        &&& (polled is Ready) == !was_waiting
    }
}

/// The wakers of one round of waiting: those of the reports before those
/// of the timers.
pub open spec fn poll_wakers(
    sources: Seq<Waiting>,
    queue: PriorityTimerQueue,
    events: Seq<ReadyEvent>,
    now: u64,
) -> Seq<WakerExt> {
    deliver(sources, events).1 + queue.due_wakers(now)
}

} // verus!
