use mini_runtime::runtime::Runtime;
use mini_runtime::task::task_id::{alloc_id, TaskId, TaskIdGenerator};
use mini_runtime::task::waker_ext::{WakerExt, WakerSet};
use mini_runtime::task::{Poll, Task, TaskAttr};

#[test]
fn task_ids_are_dense_and_reused() {
    let mut ids = TaskIdGenerator::new();
    assert_eq!(ids.gen_id(), TaskId(0));
    assert_eq!(ids.gen_id(), TaskId(1));
    assert_eq!(alloc_id(&mut ids), TaskId(2));
    ids.recycle_use(1);
    assert_eq!(ids.gen_id(), TaskId(1));
    assert_eq!(ids.gen_id(), TaskId(3));
}

#[test]
fn recycling_an_unused_id_is_ignored() {
    let mut ids = TaskIdGenerator::new();
    ids.recycle_use(5);
    assert_eq!(ids.gen_id(), TaskId(0));
    ids.recycle_use(0);
    ids.recycle_use(0);
    assert_eq!(ids.gen_id(), TaskId(0));
    assert_eq!(ids.gen_id(), TaskId(1));
    assert!(ids.can_gen());
}

#[test]
fn waker_leads_back_to_its_task() {
    let mut ids = TaskIdGenerator::new();
    let _ = ids.gen_id();
    let (mut task, waker) = Task::new_waker(&mut ids);
    assert_eq!(task.task_id(), TaskId(1));
    assert_eq!(*TaskAttr::from_raw_data(waker.data()).get_tid(), task.task_id());
    assert_eq!(*waker.get_task_attr().get_tid(), TaskId(1));
    let second = task.into_waker();
    assert_eq!(second, waker);
    assert_eq!(task.ref_count(), 2);
}

#[test]
fn task_is_cleared_with_its_last_waker() {
    let mut rt = Runtime::new();
    let mut task = rt.spawn();
    let tid = task.task_id();
    assert!(rt.is_live(&tid));
    let first = rt.get_waker().unwrap();
    let second = task.into_waker();
    assert!(!task.drop_waker(first, &mut rt));
    assert!(rt.is_live(&tid));
    task.wake_by_ref(&Poll::Pending);
    assert!(!task.is_done());
    task.wake_by_ref(&Poll::Ready(()));
    assert!(task.is_done());
    assert!(task.drop_waker(second, &mut rt));
    assert!(!rt.is_live(&tid));
    assert_eq!(rt.task_count(), 0);
}

#[test]
fn waker_set_is_first_in_first_out() {
    let mut set = WakerSet::new();
    set.add_waker(WakerExt::new(TaskId(4)));
    set.add_waker(WakerExt::new(TaskId(2)));
    set.add_waker(WakerExt::new(TaskId(4)));
    set.add_waker(WakerExt::new(TaskId(9)));
    assert_eq!(set.len(), 3);
    assert!(set.contains(&TaskId(2)));
    set.remove_waker(&TaskId(2));
    assert!(!set.contains(&TaskId(2)));
    assert_eq!(set.pop(), Some(WakerExt::new(TaskId(4))));
    assert_eq!(set.drain(), vec![WakerExt::new(TaskId(9))]);
    assert_eq!(set.pop(), None);
}

#[test]
fn released_dropper_revokes_the_waker_once() {
    let mut set = WakerSet::new();
    let dropper = set.add_with_dropper(WakerExt::new(TaskId(1)));
    set.add_waker(WakerExt::new(TaskId(2)));
    dropper.release(&mut set);
    assert!(!set.contains(&TaskId(1)));
    assert_eq!(set.drain(), vec![WakerExt::new(TaskId(2))]);

    let dropper = set.add_with_dropper(WakerExt::new(TaskId(1)));
    assert_eq!(set.drain().len(), 1);
    set.add_waker(WakerExt::new(TaskId(3)));
    dropper.release(&mut set);
    assert_eq!(set.drain(), vec![WakerExt::new(TaskId(3))]);
}

#[test]
fn registering_again_keeps_the_place() {
    let mut set = WakerSet::new();
    let first = set.register(None, WakerExt::new(TaskId(1)));
    let _second = set.register(None, WakerExt::new(TaskId(2)));
    assert_eq!(first.task_id(), TaskId(1));
    let again = set.register(Some(first), WakerExt::new(TaskId(1)));
    assert_eq!(set.len(), 2);
    let moved = set.register(Some(again), WakerExt::new(TaskId(3)));
    assert_eq!(moved.task_id(), TaskId(3));
    assert_eq!(
        set.drain(),
        vec![WakerExt::new(TaskId(2)), WakerExt::new(TaskId(3))]
    );
}

#[test]
fn task_attr_gets_a_fresh_id() {
    let mut ids = TaskIdGenerator::new();
    let a = TaskAttr::new(&mut ids);
    let b = TaskAttr::new(&mut ids);
    assert_eq!(*a.get_tid(), TaskId(0));
    assert_eq!(*b.get_tid(), TaskId(1));
    let task = Task::new(&mut ids);
    assert_eq!(task.task_id(), TaskId(2));
    assert_eq!(task.ref_count(), 0);
}
