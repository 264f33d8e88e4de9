use shared_rwlock::SharedRwLock;

#[test]
fn new_then_read_returns_initial_value() {
    let w = SharedRwLock::new(String::from("hello"));
    let g = w.read();
    assert_eq!(g.get(), "hello");
}

#[test]
fn write_release_read_round_trip_forty_two() {
    let w = SharedRwLock::new(0u32);
    let mut g = w.write();
    g.set(42);
    let w = g.release();
    let g = w.read();
    assert_eq!(*g.get(), 42);
}

#[test]
fn get_mut_round_trip_string() {
    let w = SharedRwLock::new(String::from("before"));
    let mut g = w.write();
    *g.get_mut() = String::from("after");
    assert_eq!(g.get(), "after");
    let w = g.release();
    let g = w.read();
    assert_eq!(g.get(), "after");
}

#[test]
fn round_trip_keeps_composite_payloads() {
    let w = SharedRwLock::new(vec![String::from("a")]);
    let mut g = w.write();
    g.get_mut().push(String::from("b"));
    let w = g.release();
    let g = w.read();
    assert_eq!(g.get().len(), 2);
    assert_eq!(g.get()[1], "b");
}

#[test]
fn two_read_guards_coexist_and_agree() {
    let w = SharedRwLock::new(7i64);
    let g1 = w.read();
    let g2 = w.read();
    assert_eq!(*g1.get(), 7);
    assert_eq!(*g2.get(), 7);
    assert_eq!(*g1.get(), *g2.get());
}

#[test]
fn read_with_observes_sibling_payload() {
    let a = SharedRwLock::new(1u8);
    let b = a.new_with_same_lock(String::from("payload of b"));
    let ga = a.read();
    let gb = b.read_with(&ga);
    assert_eq!(gb.get(), "payload of b");
    let gc = a.read_with(&gb);
    assert_eq!(*gc.get(), 1);
}

#[test]
fn try_read_with_accepts_sibling_guard() {
    let a = SharedRwLock::new(1u8);
    let b = a.new_with_same_lock(2u16);
    let ga = a.read();
    let gb = b.try_read_with(&ga);
    assert!(gb.is_some());
    assert_eq!(*gb.unwrap().get(), 2);
}

#[test]
fn try_read_with_refuses_unrelated_guard_every_time() {
    let a = SharedRwLock::new(1u8);
    let c = SharedRwLock::new(3u8);
    let ga = a.read();
    assert!(c.try_read_with(&ga).is_none());
    assert!(c.try_read_with(&ga).is_none());
}

#[test]
fn write_with_composes_and_source_guard_recovers() {
    let a = SharedRwLock::new(10u32);
    let b = a.new_with_same_lock(20u32);
    let mut ga = a.write();
    let mut gb = b.write_with(&mut ga);
    gb.set(99);
    let b = gb.release();
    ga.set(11);
    let a = ga.release();
    assert_eq!(*a.read().get(), 11);
    assert_eq!(*b.read().get(), 99);
}

#[test]
fn try_write_with_refuses_unrelated_and_returns_wrapper() {
    let a = SharedRwLock::new(1u8);
    let c = SharedRwLock::new(5u8);
    let mut ga = a.write();
    match c.try_write_with(&mut ga) {
        Ok(_) => panic!("composition across unrelated lock domains must be refused"),
        Err(c) => assert_eq!(*c.read().get(), 5),
    }
    let _ = ga.release();
}

#[test]
fn try_write_with_accepts_sibling() {
    let a = SharedRwLock::new(1u8);
    let b = a.new_with_same_lock(2u8);
    let mut ga = a.write();
    match b.try_write_with(&mut ga) {
        Ok(mut gb) => {
            gb.set(4);
            assert_eq!(*gb.get(), 4);
        }
        Err(_) => panic!("sibling wrappers share a lock, so composition must succeed"),
    }
    let _ = ga.release();
}

#[test]
fn downgrade_gives_immediate_read_access() {
    let w = SharedRwLock::new(0u32);
    let mut g = w.write();
    g.set(7);
    {
        let d = g.downgrade();
        assert_eq!(*d.get(), 7);
        assert_eq!(*g.get(), 7);
    }
    g.set(8);
    let w = g.release();
    assert_eq!(*w.read().get(), 8);
}

#[test]
fn alternating_writes_and_reads_observe_written_values() {
    let mut w = SharedRwLock::new(0u64);
    for i in 1..=10_000u64 {
        let mut g = w.write();
        g.set(i);
        w = g.release();
        assert_eq!(*w.read().get(), i);
    }
}

#[test]
fn downgraded_guard_composes_to_sibling() {
    let a = SharedRwLock::new(1u8);
    let b = a.new_with_same_lock(String::from("sibling"));
    let ga = a.write();
    let d = ga.downgrade();
    let gb = b.read_with(&d);
    assert_eq!(gb.get(), "sibling");
    drop(gb);
    drop(d);
    let _ = ga.release();
}
