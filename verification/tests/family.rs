use winsafe::co::ERROR;
use winsafe::family::{Guard, ResourceFamily};

fn pass_through(g: Guard) -> Guard {
    g
}

#[test]
fn acquire_then_release_releases_exactly_once() {
    let mut f = ResourceFamily::new(42);
    let g = f.acquire(true, ERROR(0)).unwrap();
    assert_eq!(g.handle(), 42);
    assert!(f.is_live(42));
    f.release(g, true);
    assert_eq!(f.release_count(42), 1);
    assert_eq!(f.release_calls(), 1);
    assert!(!f.is_live(42));
}

#[test]
fn moving_a_guard_never_releases() {
    let mut f = ResourceFamily::new(7);
    let g = f.acquire(true, ERROR(0)).unwrap();
    let moved = pass_through(g);
    let mut slot = vec![moved];
    let back = slot.pop().unwrap();
    assert_eq!(f.release_calls(), 0);
    assert_eq!(f.release_count(7), 0);
    f.release(back, true);
    assert_eq!(f.release_calls(), 1);
    assert_eq!(f.release_count(7), 1);
}

#[test]
fn detach_returns_the_handle_and_prevents_release() {
    let mut f = ResourceFamily::new(100);
    let g = f.acquire(true, ERROR(0)).unwrap();
    let raw = g.detach();
    assert_eq!(raw, 100);
    let _ = f.acquire(true, ERROR(0)).unwrap().detach();
    assert_eq!(f.release_calls(), 0);
    assert_eq!(f.release_count(100), 0);
    assert!(f.is_live(100));
}

#[test]
fn failed_acquisition_yields_no_guard_and_no_leak() {
    let mut f = ResourceFamily::new(42);
    let r = f.acquire(false, ERROR(5));
    match r {
        Err(e) => assert_eq!(e, ERROR(5)),
        Ok(_) => panic!("expected the carried failure"),
    }
    assert_eq!(f.live_count(), 0);
    assert_eq!(f.release_calls(), 0);
    assert_eq!(f.acquire_calls(), 1);
    let g = f.acquire(true, ERROR(0)).unwrap();
    assert_eq!(g.handle(), 42);
    f.release(g, true);
}

#[test]
fn interleaved_guards_never_cross_release() {
    let mut f = ResourceFamily::new(42);
    let g1 = f.acquire(true, ERROR(0)).unwrap();
    let g2 = f.acquire(true, ERROR(0)).unwrap();
    assert_eq!(g1.handle(), 42);
    assert_eq!(g2.handle(), 43);
    f.release(g2, true);
    assert_eq!(f.release_count(42), 0);
    assert_eq!(f.release_count(43), 1);
    assert!(f.is_live(42));
    assert!(!f.is_live(43));
    f.release(g1, true);
    assert_eq!(f.release_count(42), 1);
    assert_eq!(f.release_count(43), 1);
    assert_eq!(f.release_calls(), 2);
}

#[test]
fn release_failure_is_discarded_after_the_attempt() {
    let mut f = ResourceFamily::new(9);
    let g = f.acquire(true, ERROR(0)).unwrap();
    f.release(g, false);
    assert_eq!(f.release_count(9), 1);
    assert_eq!(f.release_calls(), 1);
}

#[test]
fn example_acquire_42_release_once_then_failed_acquire() {
    let mut f = ResourceFamily::new(42);
    let g = f.acquire(true, ERROR(0)).unwrap();
    assert_eq!(g.handle(), 42);
    f.release(g, true);
    assert_eq!(f.release_count(42), 1);
    let r = f.acquire(false, ERROR(8));
    assert!(r.is_err());
    assert_eq!(f.release_calls(), 1);
    assert_eq!(f.release_count(42), 1);
}
