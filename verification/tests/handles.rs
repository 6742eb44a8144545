use rwsplit::new;

#[test]
fn guards_see_initial_value() {
    let (r, w) = new(41u32);
    let rg = r.read();
    assert_eq!(*rg.value(), 41);
    drop(rg);
    let wg = w.read();
    assert_eq!(*wg.value(), 41);
    drop(wg);
    let g = w.write();
    assert_eq!(*g.value(), 41);
}

#[test]
fn cloned_readers_share_read_access() {
    let (r, w) = new(1u32);
    let r2 = r.clone();
    let r3 = r2.clone();
    let g1 = r.read();
    let g2 = r2.try_read().expect("readers share the lock");
    let g3 = r3.try_read().expect("readers share the lock");
    let g4 = w.try_read().expect("a writer can read beside readers");
    assert_eq!(*g1.value(), 1);
    assert_eq!(*g2.value(), 1);
    assert_eq!(*g3.value(), 1);
    assert_eq!(*g4.value(), 1);
}

#[test]
fn write_guard_excludes_all_access() {
    let (r, w) = new(0u32);
    let w2 = w.clone();
    let g = w.try_write().expect("a fresh lock is free");
    assert!(r.try_read().is_none());
    assert!(w2.try_read().is_none());
    assert!(w2.try_write().is_none());
    drop(g);
    let rg = r.read();
    assert_eq!(*rg.value(), 0);
    drop(rg);
    let wg = w2.write();
    assert_eq!(*wg.value(), 0);
}

#[test]
fn read_guard_excludes_writers() {
    let (r, w) = new(3u32);
    let g = r.read();
    assert!(w.try_write().is_none());
    assert!(w.clone().try_write().is_none());
    drop(g);
    let mut wg = w.write();
    wg.set(4);
    assert_eq!(*wg.value(), 4);
}

#[test]
fn downgraded_reader_observes_writes() {
    let (_r, w) = new(0u32);
    let before = w.to_reader();
    let mut g = w.write();
    g.set(5);
    drop(g);
    let after = w.to_reader();
    assert_eq!(*before.read().value(), 5);
    assert_eq!(*after.read().value(), 5);
    assert_eq!(*w.read().value(), 5);
}

#[test]
fn writes_through_any_writer_are_shared() {
    let (r, w) = new(10u64);
    let w2 = w.clone();
    let mut g = w2.write();
    g.set(11);
    drop(g);
    assert_eq!(*r.read().value(), 11);
    assert_eq!(*w.read().value(), 11);
}

#[test]
fn reader_blocked_during_write_then_sees_new_value() {
    let (r, w) = new(0u32);
    let mut g = w.write();
    g.set(5);
    assert!(r.try_read().is_none());
    drop(g);
    let rg = r.try_read().expect("the lock is free after release");
    assert_eq!(*rg.value(), 5);
}

#[test]
fn separate_creations_are_independent() {
    let (r1, w1) = new(1u32);
    let (r2, w2) = new(2u32);
    let g = w1.try_write().expect("a fresh lock is free");
    assert!(r1.try_read().is_none());
    assert!(r2.try_read().is_some());
    assert!(w2.try_write().is_some());
    drop(g);
    assert_eq!(*r1.read().value(), 1);
    assert_eq!(*r2.read().value(), 2);
}

#[test]
fn dropping_all_handles_releases_storage_once() {
    let probe = std::sync::Arc::new(7i32);
    let (r, w) = new(std::sync::Arc::clone(&probe));
    assert_eq!(std::sync::Arc::strong_count(&probe), 2);
    let r2 = r.clone();
    let w2 = w.clone();
    let r3 = w.to_reader();
    assert_eq!(std::sync::Arc::strong_count(&probe), 2);
    drop(r);
    drop(w);
    drop(r2);
    drop(w2);
    assert_eq!(std::sync::Arc::strong_count(&probe), 2);
    drop(r3);
    assert_eq!(std::sync::Arc::strong_count(&probe), 1);
}

#[test]
fn write_guard_reads_back_its_own_store() {
    let (_r, w) = new(0u32);
    let mut g = w.write();
    assert_eq!(*g.value(), 0);
    g.set(5);
    assert_eq!(*g.value(), 5);
    let old = g.replace(6);
    assert_eq!(old, 5);
    assert_eq!(*g.value(), 6);
    drop(g);
    assert_eq!(*w.read().value(), 6);
}

#[test]
fn replace_returns_the_held_value_without_cloning() {
    let (r, w) = new(vec![1u8, 2, 3]);
    let mut g = w.write();
    let old = g.replace(vec![4u8]);
    assert_eq!(old, vec![1u8, 2, 3]);
    drop(g);
    assert_eq!(*r.read().value(), vec![4u8]);
}

#[test]
fn read_guard_contents_are_stable() {
    let (r, _w) = new(3u32);
    let g = r.read();
    let a = *g.value();
    let b = *g.value();
    assert_eq!(a, 3);
    assert_eq!(a, b);
}

#[test]
fn non_copy_values_are_supported() {
    let (r, w) = new(String::new());
    let mut g = w.write();
    g.set(format!("{}-{}", "shared", 9));
    drop(g);
    assert_eq!(r.read().value().as_str(), "shared-9");
}
