use mini_runtime::helper::{yield_here, FutureExt, FutureResult};
use mini_runtime::io_event::{Event, Interest, IoEvent, IoEventHandler};
use mini_runtime::poller::{Poller, ReadyEvent};
use mini_runtime::runtime::{spawn, Runtime, Step};
use mini_runtime::run;
use mini_runtime::signal::{stopped, StopWaker};
use mini_runtime::task::task_id::TaskId;
use mini_runtime::task::waker_ext::WakerExt;
use mini_runtime::task::{Poll, TTaskClear};

fn w(n: usize) -> WakerExt {
    WakerExt::new(TaskId(n))
}

#[test]
fn spawn_makes_the_task_live_and_ready() {
    let mut rt = Runtime::new();
    assert!(rt.has_room());
    let a = spawn(&mut rt);
    let b = spawn(&mut rt);
    assert_eq!(a.task_id(), TaskId(0));
    assert_eq!(b.task_id(), TaskId(1));
    assert!(rt.is_live(&TaskId(0)));
    assert!(rt.is_live(&TaskId(1)));
    assert_eq!(rt.task_count(), 2);
    assert_eq!(rt.ready_count(), 2);
    assert_eq!(rt.get_waker(), Some(w(0)));
    assert_eq!(rt.get_waker(), Some(w(1)));
    assert_eq!(rt.get_waker(), None);
}

#[test]
fn cleared_task_leaves_once_and_its_id_is_reused() {
    let mut rt = Runtime::new();
    let a = spawn(&mut rt);
    let _b = spawn(&mut rt);
    rt.clear(a.task_id());
    assert!(!rt.is_live(&TaskId(0)));
    assert_eq!(rt.task_count(), 1);
    rt.clear(a.task_id());
    assert_eq!(rt.task_count(), 1);
    let c = spawn(&mut rt);
    assert_eq!(c.task_id(), TaskId(0));
    assert_eq!(rt.task_count(), 2);
}

#[test]
fn ready_queue_is_first_in_first_out() {
    let mut rt = Runtime::new();
    rt.add_waker(w(5));
    rt.add_waker(w(3));
    rt.add_wakers(&vec![w(8), w(5)]);
    assert_eq!(rt.get_waker(), Some(w(5)));
    assert_eq!(rt.get_waker(), Some(w(3)));
    assert_eq!(rt.get_waker(), Some(w(8)));
    assert_eq!(rt.get_waker(), Some(w(5)));
    assert_eq!(rt.get_waker(), None);
}

#[test]
fn run_wakes_then_parks_then_finishes() {
    let mut rt = Runtime::new();
    assert_eq!(run(&mut rt, 0), Step::Done);
    let task = spawn(&mut rt);
    assert_eq!(run(&mut rt, 0), Step::Wake(w(0)));
    assert_eq!(run(&mut rt, 0), Step::Park(None));
    let _timer = rt.add_timer(70, w(0));
    assert_eq!(run(&mut rt, 30), Step::Park(Some(40)));
    rt.wait(&vec![], 70);
    assert_eq!(run(&mut rt, 70), Step::Wake(w(0)));
    rt.clear(task.task_id());
    assert_eq!(run(&mut rt, 70), Step::Done);
}

#[test]
fn stop_allows_one_lingering_task() {
    let mut rt = Runtime::new();
    assert_eq!(rt.get_max_wait_duration(), 1000);
    rt.set_max_wait_duration(5000);
    assert_eq!(rt.get_max_wait_duration(), 5000);
    let a = spawn(&mut rt);
    let _b = spawn(&mut rt);
    let _ = rt.get_waker();
    let _ = rt.get_waker();
    assert!(!rt.can_finish());

    let stop_waker = StopWaker::new();
    let mut guard = stop_waker.wait();
    assert_eq!(guard.poll(&mut rt, &w(1)), Poll::Pending);
    assert_eq!(rt.ready_count(), 0);

    assert!(!stopped(&rt));
    rt.stop_action();
    assert!(stopped(&rt));
    assert_eq!(rt.get_waker(), Some(w(1)));
    assert_eq!(guard.poll(&mut rt, &w(1)), Poll::Ready(()));
    assert_eq!(rt.get_waker(), Some(w(1)));
    guard.cancel(&mut rt);

    assert!(!rt.can_finish());
    rt.clear(a.task_id());
    assert!(rt.can_finish());
    assert_eq!(rt.task_count(), 1);
    assert_eq!(run(&mut rt, 0), Step::Done);
    rt.force_stop();
    assert_eq!(rt.task_count(), 0);
}

#[test]
fn cancelled_stop_wait_is_not_woken() {
    let mut rt = Runtime::new();
    let mut first = StopWaker::new().wait();
    let mut second = StopWaker::new().wait();
    assert_eq!(first.poll(&mut rt, &w(1)), Poll::Pending);
    assert_eq!(second.poll(&mut rt, &w(2)), Poll::Pending);
    first.cancel(&mut rt);
    rt.stop_action();
    assert_eq!(rt.get_waker(), Some(w(2)));
    assert_eq!(rt.get_waker(), None);
}

#[test]
fn yield_is_pending_once() {
    let mut rt = Runtime::new();
    let mut y = yield_here();
    rt.add_waker(w(9));
    assert_eq!(y.poll(&mut rt, &w(1)), Poll::Pending);
    assert_eq!(rt.get_waker(), Some(w(9)));
    assert_eq!(rt.get_waker(), Some(w(1)));
    assert_eq!(y.poll(&mut rt, &w(1)), Poll::Ready(()));
    assert_eq!(rt.get_waker(), None);
}

#[test]
fn fused_future_is_taken_after_ready() {
    let mut fut = FutureExt::new();
    assert_eq!(fut.poll::<u8>(Poll::Pending), Poll::Pending);
    assert!(!fut.finished());
    assert_eq!(fut.poll(Poll::Ready(7u8)), Poll::Ready(FutureResult::Done(7u8)));
    assert!(fut.finished());
    assert_eq!(fut.poll(Poll::Ready(8u8)), Poll::Ready(FutureResult::Taken));
    assert_eq!(fut.poll::<u8>(Poll::Pending), Poll::Ready(FutureResult::Taken));
    let (fresh, place) = FutureExt::new_with_result_placeholder::<u8>();
    assert!(!fresh.finished());
    assert_eq!(place, None);
}

#[test]
fn interests_fold_over_the_events() {
    assert_eq!(Event::to_interests(vec![]), None);
    assert_eq!(
        Event::to_interests(vec![Event::Read]),
        Some(Interest { readable: true, writable: false })
    );
    assert_eq!(
        Event::to_interests(vec![Event::Write, Event::Write]),
        Some(Interest { readable: false, writable: true })
    );
    assert_eq!(
        Event::to_interests(vec![Event::Read, Event::Write]),
        Some(Interest { readable: true, writable: true })
    );
    assert_eq!(Event::Write.to_interest(), Interest { readable: false, writable: true });
    assert_eq!(
        Event::Read.to_interest().add(Event::Write.to_interest()),
        Interest { readable: true, writable: true }
    );
}

#[test]
fn io_event_hands_out_readers_before_writers() {
    let mut io = IoEvent::new();
    io.wait(Event::Write, w(3));
    io.wait(Event::Read, w(1));
    io.wait(Event::Read, w(2));
    io.wait(Event::Read, w(1));
    assert!(!io.is_event_ready(Event::Read, &w(1)));
    assert!(io.is_event_ready(Event::Write, &w(1)));
    assert_eq!(io.event_ready(false, false), vec![]);
    assert_eq!(io.event_ready(true, true), vec![w(1), w(2), w(3)]);
    assert!(io.is_event_ready(Event::Read, &w(1)));
    io.wait(Event::Write, w(4));
    assert_eq!(io.event_ready(true, false), vec![]);
    assert_eq!(io.event_ready(false, true), vec![w(4)]);
}

#[test]
fn readiness_future_is_ready_once_delivered() {
    let mut io = IoEvent::new();
    let mut handler = IoEventHandler::new(Event::Read);
    assert_eq!(handler.poll(&mut io, &w(1)), Poll::Pending);
    assert_eq!(handler.poll(&mut io, &w(1)), Poll::Pending);
    assert_eq!(io.event_ready(false, true), vec![]);
    assert_eq!(handler.poll(&mut io, &w(1)), Poll::Pending);
    assert_eq!(io.event_ready(true, false), vec![w(1)]);
    assert_eq!(handler.poll(&mut io, &w(1)), Poll::Ready(()));
}

#[test]
fn cancelled_readiness_future_is_not_woken() {
    let mut io = IoEvent::new();
    let mut gone = IoEventHandler::new(Event::Write);
    let mut stays = IoEventHandler::new(Event::Write);
    assert_eq!(gone.poll(&mut io, &w(1)), Poll::Pending);
    assert_eq!(stays.poll(&mut io, &w(2)), Poll::Pending);
    gone.cancel(&mut io);
    assert_eq!(io.event_ready(true, true), vec![w(2)]);
}

#[test]
fn poll_puts_io_wakers_before_timer_wakers() {
    let mut poller = Poller::new();
    let (a, interests) = poller.register(vec![Event::Read, Event::Write]);
    assert_eq!(a, 0);
    assert_eq!(interests, Some(Interest { readable: true, writable: true }));
    let (b, none) = poller.register(vec![]);
    assert_eq!(b, 1);
    assert_eq!(none, None);
    assert_eq!(
        poller.reregister(vec![Event::Write]),
        Some(Interest { readable: false, writable: true })
    );

    let mut read_a = IoEventHandler::new(Event::Read);
    let mut write_b = IoEventHandler::new(Event::Write);
    let mut read_b = IoEventHandler::new(Event::Read);
    assert_eq!(poller.poll_io(a, &mut read_a, &w(10)), Poll::Pending);
    assert_eq!(poller.poll_io(b, &mut write_b, &w(11)), Poll::Pending);
    assert_eq!(poller.poll_io(b, &mut read_b, &w(12)), Poll::Pending);
    let _t1 = poller.add_timer(20, w(21));
    let _t0 = poller.add_timer(10, w(20));
    let _t2 = poller.add_timer(99, w(22));

    let events = vec![
        ReadyEvent { token: b, readable: true, writable: true },
        ReadyEvent { token: 7, readable: true, writable: true },
        ReadyEvent { token: a, readable: true, writable: false },
        ReadyEvent { token: b, readable: true, writable: true },
    ];
    assert_eq!(poller.poll(&events, 20), vec![w(12), w(11), w(10), w(20), w(21)]);
    assert_eq!(poller.poll_io(a, &mut read_a, &w(10)), Poll::Ready(()));
    assert_eq!(poller.delay(20, false), Some(79));
}

#[test]
fn deregistered_source_wakes_nobody() {
    let mut poller = Poller::new();
    let (a, _) = poller.register(vec![Event::Read]);
    let mut read_a = IoEventHandler::new(Event::Read);
    assert_eq!(poller.poll_io(a, &mut read_a, &w(1)), Poll::Pending);
    let mut cancelled = IoEventHandler::new(Event::Read);
    assert_eq!(poller.poll_io(a, &mut cancelled, &w(2)), Poll::Pending);
    poller.cancel_io(a, cancelled);
    let mut nowhere = IoEventHandler::new(Event::Read);
    assert_eq!(poller.poll_io(5, &mut nowhere, &w(3)), Poll::Pending);
    assert_eq!(
        poller.io_poll(&vec![ReadyEvent { token: a, readable: true, writable: false }]),
        vec![w(1)]
    );
    let mut again = IoEventHandler::new(Event::Read);
    assert_eq!(poller.poll_io(a, &mut again, &w(4)), Poll::Pending);
    poller.deregister(a);
    poller.deregister(9);
    assert_eq!(
        poller.io_poll(&vec![ReadyEvent { token: a, readable: true, writable: true }]),
        vec![]
    );
}

#[test]
fn poll_fn_calls_its_function() {
    let fut = mini_runtime::helper::poll_fn(|waker: &WakerExt| {
        if waker.data() > 3 {
            Poll::Ready(waker.data() * 2)
        } else {
            Poll::Pending
        }
    });
    assert_eq!(fut.poll(&w(1)), Poll::Pending);
    assert_eq!(fut.poll(&w(5)), Poll::Ready(10));
}

#[test]
fn wake_uses_the_waker_up() {
    let mut rt = Runtime::new();
    let mut task = spawn(&mut rt);
    let first = rt.get_waker().unwrap();
    let second = task.into_waker();
    assert!(!task.wake(first, &Poll::Pending, &mut rt));
    assert_eq!(task.ref_count(), 1);
    assert!(!task.is_done());
    assert!(task.wake(second, &Poll::Ready(()), &mut rt));
    assert!(task.is_done());
    assert_eq!(rt.task_count(), 0);
}

#[test]
fn runtime_delivers_io_readiness() {
    let mut rt = Runtime::new();
    let _task = spawn(&mut rt);
    assert_eq!(rt.get_waker(), Some(w(0)));
    let (token, interest) = rt.register(vec![Event::Write]);
    assert_eq!(token, 0);
    assert_eq!(interest, Some(Interest { readable: false, writable: true }));
    assert_eq!(rt.reregister(vec![]), None);
    let mut write = IoEventHandler::new(Event::Write);
    let mut dropped = IoEventHandler::new(Event::Write);
    assert_eq!(rt.poll_io(token, &mut write, &w(0)), Poll::Pending);
    assert_eq!(rt.poll_io(token, &mut dropped, &w(6)), Poll::Pending);
    rt.cancel_io(token, dropped);
    let timer = rt.add_timer(10, w(0));
    assert!(rt.timer_waiting(&timer));
    let other = rt.add_timer(5, w(8));
    rt.revoke_timer(other);
    rt.wait(&vec![ReadyEvent { token, readable: false, writable: true }], 10);
    assert!(!rt.timer_waiting(&timer));
    assert_eq!(rt.get_waker(), Some(w(0)));
    assert_eq!(rt.get_waker(), Some(w(0)));
    assert_eq!(rt.get_waker(), None);
    assert_eq!(rt.poll_io(token, &mut write, &w(0)), Poll::Ready(()));
    rt.deregister(token);
    assert!(rt.can_add_timer());
}

#[test]
fn forgotten_waiter_is_not_handed_out() {
    let mut io = IoEvent::new();
    io.wait(Event::Read, w(1));
    io.wait(Event::Read, w(2));
    io.wait(Event::Write, w(1));
    io.forget(Event::Read, &TaskId(1));
    io.forget(Event::Read, &TaskId(7));
    assert_eq!(io.event_ready(true, true), vec![w(2), w(1)]);
}
