use mini_runtime::runtime::Runtime;
use mini_runtime::sync::mutex::AsyncMutex;
use mini_runtime::sync::notifier::Notifier;
use mini_runtime::sync::semophore::AsyncSemophore;
use mini_runtime::sync::wait_group::WaitGroup;
use mini_runtime::task::task_id::TaskId;
use mini_runtime::task::waker_ext::WakerExt;
use mini_runtime::task::Poll;

fn w(n: usize) -> WakerExt {
    WakerExt::new(TaskId(n))
}

#[test]
fn mutex_is_held_by_one_guard() {
    let mut rt = Runtime::new();
    let mut mtx = AsyncMutex::new(5usize);
    let mut a = mtx.lock();
    let mut b = mtx.lock();
    assert_eq!(a.poll(&mut mtx, &w(1)), Poll::Ready(()));
    assert!(a.holding());
    assert!(mtx.occupied());
    assert_eq!(b.poll(&mut mtx, &w(2)), Poll::Pending);
    assert_eq!(b.poll(&mut mtx, &w(2)), Poll::Pending);
    assert!(!b.holding());
    assert_eq!(a.poll(&mut mtx, &w(1)), Poll::Ready(()));
    assert_eq!(*a.get(&mtx), 5);
    assert_eq!(a.replace(&mut mtx, 6), 5);
    a.release(&mut mtx, &mut rt);
    assert!(!mtx.occupied());
    assert_eq!(rt.get_waker(), Some(w(2)));
    assert_eq!(rt.get_waker(), None);
    assert_eq!(b.poll(&mut mtx, &w(2)), Poll::Ready(()));
    assert_eq!(*b.get(&mtx), 6);
    b.release(&mut mtx, &mut rt);
    assert_eq!(rt.get_waker(), None);
}

#[test]
fn mutex_wakes_waiters_in_order() {
    let mut rt = Runtime::new();
    let mut mtx = AsyncMutex::new(Vec::<usize>::new());
    let mut guards = Vec::new();
    for i in 0..8 {
        let mut guard = mtx.lock();
        let polled = guard.poll(&mut mtx, &w(i));
        assert_eq!(polled == Poll::Ready(()), i == 0);
        guards.push(Some(guard));
    }
    let mut holder = 0usize;
    for round in 0..8 {
        let guard = guards[holder].take().unwrap();
        assert!(guard.holding());
        let mut v = guard.replace(&mut mtx, Vec::new());
        v.push(holder);
        let _ = guard.replace(&mut mtx, v);
        guard.release(&mut mtx, &mut rt);
        if round < 7 {
            let next = rt.get_waker().unwrap();
            holder = next.data();
            assert_eq!(holder, round + 1);
            let g = guards[holder].as_mut().unwrap();
            assert_eq!(g.poll(&mut mtx, &next), Poll::Ready(()));
        } else {
            assert_eq!(rt.get_waker(), None);
        }
    }
    let mut last = mtx.lock();
    assert_eq!(last.poll(&mut mtx, &w(99)), Poll::Ready(()));
    assert_eq!(*last.get(&mtx), vec![0, 1, 2, 3, 4, 5, 6, 7]);
}

#[test]
fn barging_caller_takes_the_free_lock() {
    let mut rt = Runtime::new();
    let mut mtx = AsyncMutex::new(());
    let mut a = mtx.lock();
    let mut b = mtx.lock();
    let mut c = mtx.lock();
    assert_eq!(a.poll(&mut mtx, &w(1)), Poll::Ready(()));
    assert_eq!(b.poll(&mut mtx, &w(2)), Poll::Pending);
    a.release(&mut mtx, &mut rt);
    assert_eq!(c.poll(&mut mtx, &w(3)), Poll::Ready(()));
    assert_eq!(rt.get_waker(), Some(w(2)));
    assert_eq!(b.poll(&mut mtx, &w(2)), Poll::Pending);
    c.release(&mut mtx, &mut rt);
    assert_eq!(rt.get_waker(), Some(w(2)));
    assert_eq!(b.poll(&mut mtx, &w(2)), Poll::Ready(()));
}

#[test]
fn cancelled_lock_request_is_not_woken() {
    let mut rt = Runtime::new();
    let mut mtx = AsyncMutex::new(());
    let mut a = mtx.lock();
    let mut b = mtx.lock();
    let mut c = mtx.lock();
    assert_eq!(a.poll(&mut mtx, &w(1)), Poll::Ready(()));
    assert_eq!(b.poll(&mut mtx, &w(2)), Poll::Pending);
    assert_eq!(c.poll(&mut mtx, &w(3)), Poll::Pending);
    b.release(&mut mtx, &mut rt);
    assert!(mtx.occupied());
    assert_eq!(rt.get_waker(), None);
    a.release(&mut mtx, &mut rt);
    assert_eq!(rt.get_waker(), Some(w(3)));
    assert_eq!(rt.get_waker(), None);
}

#[test]
fn semaphore_hands_out_capacity_permits() {
    let mut rt = Runtime::new();
    let mut sem = AsyncSemophore::new(3);
    let mut guards = Vec::new();
    for i in 0..10 {
        let mut guard = sem.aquire();
        let polled = guard.poll(&mut sem, &w(i));
        assert_eq!(polled == Poll::Ready(()), i < 3);
        assert_eq!(guard.fetched(), i < 3);
        guards.push(Some(guard));
    }
    assert_eq!(sem.taken(), 3);
    let cancelled = guards[4].take().unwrap();
    cancelled.release(&mut sem, &mut rt);
    assert_eq!(sem.taken(), 3);
    assert_eq!(rt.get_waker(), None);

    guards[1].take().unwrap().release(&mut sem, &mut rt);
    assert_eq!(sem.taken(), 2);
    let next = rt.get_waker().unwrap();
    assert_eq!(next, w(3));
    assert_eq!(guards[3].as_mut().unwrap().poll(&mut sem, &next), Poll::Ready(()));
    assert_eq!(sem.taken(), 3);
    assert_eq!(guards[3].as_mut().unwrap().poll(&mut sem, &next), Poll::Ready(()));
    assert_eq!(sem.taken(), 3);
    assert_eq!(guards[5].as_mut().unwrap().poll(&mut sem, &w(5)), Poll::Pending);

    guards[0].take().unwrap().release(&mut sem, &mut rt);
    assert_eq!(rt.get_waker(), Some(w(5)));
    assert_eq!(rt.get_waker(), None);
}

#[test]
fn semaphore_without_permits_never_grants() {
    let mut sem = AsyncSemophore::new(0);
    let mut guard = sem.aquire();
    assert_eq!(guard.poll(&mut sem, &w(1)), Poll::Pending);
    assert_eq!(sem.taken(), 0);
}

#[test]
fn notifier_wakes_one_or_all() {
    let mut rt = Runtime::new();
    let mut notifier = Notifier::new();
    let mut waiters = Vec::new();
    for i in 0..5 {
        let mut waiter = notifier.wait();
        assert_eq!(waiter.poll(&mut notifier, &w(i)), Poll::Pending);
        waiters.push(Some(waiter));
    }
    notifier.notify_one(&mut rt);
    assert_eq!(rt.get_waker(), Some(w(0)));
    assert_eq!(rt.get_waker(), None);
    assert_eq!(waiters[0].as_mut().unwrap().poll(&mut notifier, &w(0)), Poll::Ready(()));
    assert_eq!(waiters[1].as_mut().unwrap().poll(&mut notifier, &w(1)), Poll::Pending);

    waiters[2].take().unwrap().cancel(&mut notifier);
    notifier.notify_all(&mut rt);
    assert_eq!(rt.get_waker(), Some(w(1)));
    assert_eq!(rt.get_waker(), Some(w(3)));
    assert_eq!(rt.get_waker(), Some(w(4)));
    assert_eq!(rt.get_waker(), None);
    assert_eq!(waiters[4].as_mut().unwrap().poll(&mut notifier, &w(4)), Poll::Ready(()));
    notifier.notify_one(&mut rt);
    assert_eq!(rt.get_waker(), None);
}

#[test]
fn wait_group_wakes_when_the_last_member_is_done() {
    let mut rt = Runtime::new();
    let mut wg = WaitGroup::new();
    let mut waiting = wg.wait();
    assert_eq!(waiting.poll(&mut wg, &w(0)), Poll::Ready(()));
    let mut guards = Vec::new();
    for _ in 0..5 {
        guards.push(wg.add());
    }
    assert_eq!(wg.members(), 5);
    assert_eq!(waiting.poll(&mut wg, &w(0)), Poll::Pending);
    for (i, guard) in guards.into_iter().enumerate() {
        guard.release(&mut wg, &mut rt);
        assert_eq!(wg.members(), 4 - i);
        if i < 4 {
            assert_eq!(rt.get_waker(), None);
        }
    }
    assert_eq!(rt.get_waker(), Some(w(0)));
    assert_eq!(rt.get_waker(), None);
    assert_eq!(waiting.poll(&mut wg, &w(0)), Poll::Ready(()));
    assert_eq!(wg.sub_count(), 0);
    assert_eq!(wg.members(), 0);
}

#[test]
fn request_polled_by_another_task_moves_its_claim() {
    let mut rt = Runtime::new();
    let mut mtx = AsyncMutex::new(0u8);
    let mut a = mtx.lock();
    let mut b = mtx.lock();
    let mut c = mtx.lock();
    assert_eq!(a.poll(&mut mtx, &w(1)), Poll::Ready(()));
    assert_eq!(b.poll(&mut mtx, &w(2)), Poll::Pending);
    assert_eq!(c.poll(&mut mtx, &w(3)), Poll::Pending);
    assert_eq!(b.poll(&mut mtx, &w(2)), Poll::Pending);
    assert_eq!(b.poll(&mut mtx, &w(4)), Poll::Pending);
    *a.get_mut(&mut mtx) += 7;
    a.release(&mut mtx, &mut rt);
    assert_eq!(rt.get_waker(), Some(w(3)));
    assert_eq!(c.poll(&mut mtx, &w(3)), Poll::Ready(()));
    assert_eq!(*c.get(&mtx), 7);
    c.release(&mut mtx, &mut rt);
    assert_eq!(rt.get_waker(), Some(w(4)));
    b.release(&mut mtx, &mut rt);
    assert_eq!(rt.get_waker(), None);
    assert!(!mtx.occupied());
}

#[test]
fn cancelled_wait_for_the_group_is_not_woken() {
    let mut rt = Runtime::new();
    let mut wg = WaitGroup::new();
    let guard = wg.add();
    let mut waiting = wg.wait();
    assert_eq!(waiting.poll(&mut wg, &w(1)), Poll::Pending);
    waiting.cancel(&mut wg);
    guard.release(&mut wg, &mut rt);
    assert_eq!(rt.get_waker(), None);

    let guard = wg.add();
    let mut first = wg.wait();
    let mut second = wg.wait();
    assert_eq!(first.poll(&mut wg, &w(1)), Poll::Pending);
    assert_eq!(second.poll(&mut wg, &w(2)), Poll::Pending);
    first.cancel(&mut wg);
    guard.release(&mut wg, &mut rt);
    assert_eq!(rt.get_waker(), Some(w(2)));
}
