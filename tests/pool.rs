use static_pool::{StaticPool, StaticPoolHandle};

#[test]
fn it_works() {
    let mut p: StaticPool<i32, 1024> = StaticPool::new();
    let handle = p.allocate().unwrap();
    assert_eq!(p.get(handle), Some(&0));

    *p.get_mut(handle).unwrap() = 100;
    assert_eq!(p.get(handle), Some(&100));

    p.free(handle);
    assert_eq!(p.get(handle), None);
}

#[derive(Debug, Default)]
struct Data {
    x: usize,
    s: String,
}

#[test]
fn test_with_data() {
    let mut p: StaticPool<Data, 1024> = StaticPool::new();
    let handle = p.allocate().unwrap();
    let data = p.get_mut(handle).unwrap();
    data.x = 128;
    data.s = "Some data".to_owned();

    assert_eq!(p.get(handle).unwrap().x, 128);
    assert_eq!(p.get(handle).unwrap().s, "Some data");
}

#[test]
fn test_alloc_free() {
    let mut p: StaticPool<u64, 4> = StaticPool::new();
    let handle = p.allocate();
    assert_eq!(handle, Some(1));
    let handle = p.allocate();
    assert_eq!(handle, Some(2));
    let handle = p.allocate();
    assert_eq!(handle, Some(3));
    let handle = p.allocate();
    assert_eq!(handle, Some(4));
    let handle = p.allocate();
    assert_eq!(handle, None);
    let handle = p.allocate();
    assert_eq!(handle, None);

    p.free(2);
    let handle = p.allocate();
    assert_eq!(handle, Some(2));
    let handle = p.allocate();
    assert_eq!(handle, None);
}

#[test]
fn capacity_of_eight_gives_handles_in_order() {
    let mut p: StaticPool<u8, 8> = StaticPool::new();
    for expected in 1..=8usize {
        assert_eq!(p.allocate(), Some(expected));
    }
    assert_eq!(p.allocate(), None);
}

#[test]
fn pool_of_one_slot() {
    let mut p: StaticPool<u32, 1> = StaticPool::new();
    assert_eq!(p.allocate(), Some(1));
    assert_eq!(p.allocate(), None);
    p.free(1);
    assert_eq!(p.allocate(), Some(1));
}

#[test]
fn pool_of_no_slots() {
    let mut p: StaticPool<u32, 0> = StaticPool::new();
    assert_eq!(p.allocate(), None);
    assert_eq!(p.get(1), None);
    p.free(1);
    assert_eq!(p.allocate(), None);
}

#[test]
fn allocation_resets_a_reused_slot() {
    let mut p: StaticPool<String, 2> = StaticPool::new();
    let h = p.allocate().unwrap();
    *p.get_mut(h).unwrap() = "stale".to_owned();
    p.free(h);
    assert_eq!(p.allocate(), Some(h));
    assert_eq!(p.get(h), Some(&String::new()));
}

#[test]
fn written_value_survives_other_operations() {
    let mut p: StaticPool<i64, 3> = StaticPool::new();
    let a = p.allocate().unwrap();
    let b = p.allocate().unwrap();
    *p.get_mut(a).unwrap() = -7;
    *p.get_mut(b).unwrap() = 9;
    p.free(b);
    let c = p.allocate().unwrap();
    assert_eq!(c, b);
    assert_eq!(p.allocate(), Some(3));
    assert_eq!(p.get(a), Some(&-7));
    assert_eq!(p.get(c), Some(&0));
}

#[test]
fn released_handle_reads_and_writes_nothing() {
    let mut p: StaticPool<u16, 2> = StaticPool::new();
    let h = p.allocate().unwrap();
    *p.get_mut(h).unwrap() = 5;
    p.free(h);
    assert_eq!(p.get(h), None);
    assert!(p.get_mut(h).is_none());
}

#[test]
fn never_allocated_handle_reads_nothing() {
    let mut p: StaticPool<u16, 2> = StaticPool::new();
    assert_eq!(p.get(1), None);
    assert!(p.get_mut(2).is_none());
}

#[test]
fn double_release_is_a_single_release() {
    let mut p: StaticPool<u64, 3> = StaticPool::new();
    let a = p.allocate().unwrap();
    let b = p.allocate().unwrap();
    p.free(a);
    p.free(a);
    assert_eq!(p.get(b), Some(&0));
    assert_eq!(p.allocate(), Some(a));
    assert_eq!(p.allocate(), Some(3));
    assert_eq!(p.allocate(), None);
}

#[test]
fn lowest_freed_slot_is_reused_first() {
    let mut p: StaticPool<u64, 5> = StaticPool::new();
    for _ in 0..5 {
        p.allocate().unwrap();
    }
    p.free(4);
    p.free(2);
    assert_eq!(p.allocate(), Some(2));
    assert_eq!(p.allocate(), Some(4));
    assert_eq!(p.allocate(), None);
}

#[test]
fn out_of_range_handles_are_harmless() {
    let mut p: StaticPool<u64, 4> = StaticPool::new();
    let h = p.allocate().unwrap();
    *p.get_mut(h).unwrap() = 11;
    let zero: StaticPoolHandle = 0;
    assert_eq!(p.get(zero), None);
    assert!(p.get_mut(zero).is_none());
    assert_eq!(p.get(5), None);
    assert!(p.get_mut(usize::MAX).is_none());
    p.free(zero);
    p.free(5);
    p.free(usize::MAX);
    assert_eq!(p.get(h), Some(&11));
    assert_eq!(p.allocate(), Some(2));
}
