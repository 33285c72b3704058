use mini_runtime::collections::box_ptr_set::BoxPtrSet;
use mini_runtime::collections::hash_set::HashSetExt;
use mini_runtime::helper::take_vec_at;

#[test]
fn test_hash_set_ext() {
    let mut set: HashSetExt<usize> = HashSetExt::new();

    set.add(0);
    set.add(1);
    set.add(2);

    while let Some(elem) = set.pop() {
        println!("elem: {elem:?}");
    }

    assert_eq!(set.drain().len(), 0);

    {
        let dropper = set.add_with_dropper(0);
        println!("contain 0: {}-{}", set.contains(&0), set.contains(&0));
        assert!(set.contains(&0));
        dropper.release(&mut set);
    }

    println!("contain 0: {}-{}", set.contains(&0), set.contains(&0));
    assert!(!set.contains(&0));
}

#[test]
fn test_take_vec_at() {
    let mut a = vec![1, 2, 3, 4];
    let b = take_vec_at(&mut a, 2);
    assert_eq!(a, vec![3, 4]);
    assert_eq!(b, vec![1, 2]);
}

#[test]
fn take_vec_at_past_the_end_takes_nothing() {
    let mut a = vec![1, 2, 3];
    let b = take_vec_at(&mut a, 4);
    assert_eq!(a, vec![1, 2, 3]);
    assert_eq!(b, Vec::<i32>::new());
    let c = take_vec_at(&mut a, 3);
    assert_eq!(c, vec![1, 2, 3]);
    assert!(a.is_empty());
}

#[test]
fn hash_set_ext_keeps_insertion_order_and_ignores_repeats() {
    let mut set: HashSetExt<usize> = HashSetExt::new();
    set.add(7);
    set.add(3);
    set.add(7);
    set.add(5);
    assert_eq!(set.len(), 3);
    assert_eq!(set.remove(&3), Some(3));
    assert_eq!(set.remove(&3), None);
    assert_eq!(set.pop(), Some(7));
    assert_eq!(set.drain(), vec![5]);
    assert_eq!(set.pop(), None);
}

#[test]
fn box_ptr_set_gives_fresh_slots() {
    let mut set: BoxPtrSet<&str> = BoxPtrSet::new();
    let a = set.insert("a");
    let b = set.insert("b");
    assert_ne!(a, b);
    assert!(set.contains(&a));
    let dropper = set.build_dropper(a);
    assert_eq!(dropper.release(&mut set), Some("a"));
    assert!(!set.contains(&a));
    assert_eq!(set.remove(&a), None);
    assert_eq!(set.remove(&b), Some("b"));
    let c = set.insert("c");
    assert_ne!(c, a);
    assert_ne!(c, b);
}

#[test]
fn fresh_box_ptr_set_has_room() {
    let mut set: BoxPtrSet<u8> = BoxPtrSet::new();
    assert!(set.can_insert());
    let a = set.insert(1);
    assert_eq!(set.build_dropper(a).set_ptr(), a);
    let claim = {
        let mut other: HashSetExt<usize> = HashSetExt::new();
        other.add_with_dropper(4)
    };
    assert_eq!(claim.claimed(), 4);
}
