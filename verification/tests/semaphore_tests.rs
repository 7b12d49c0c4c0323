use sync_prims::semaphore::{Semaphore, SemaphoreState};

#[test]
fn test_state_count_stays_bounded() {
    let mut s = SemaphoreState::new(3);
    assert!(s.try_acquire());
    assert!(s.try_acquire());
    assert!(s.try_acquire());
    // the count is exhausted: further claims are refused, never negative
    assert!(!s.try_acquire());
    assert!(!s.try_acquire());
    let woke = s.signal();
    assert!(woke);
    assert!(s.try_acquire());
}

#[test]
fn test_state_signal_wakes_only_from_zero() {
    let mut s = SemaphoreState::init_with(2, 0);
    assert!(s.signal());
    assert!(!s.signal());
}

#[test]
fn test_semaphore_as_mutex_single_thread() {
    let guard = Semaphore::new(1);
    let mut counter: u32 = 0;
    for _ in 0..100 {
        assert!(guard.wait());
        counter += 1;
        assert!(guard.signal());
    }
    assert_eq!(counter, 100);
}

#[test]
fn test_semaphore_signal_beyond_max_refused() {
    let sem = Semaphore::new(1);
    // fully available: one more unit would exceed the bound
    assert!(!sem.signal());

    let sem = Semaphore::init_with(2, 0);
    assert!(sem.signal());
    assert!(sem.signal());
    assert!(!sem.signal());
}

#[test]
fn test_semaphore_counting_sequence() {
    let sem = Semaphore::init_with(3, 2);
    assert!(sem.wait());
    assert!(sem.wait());
    assert!(sem.signal());
    assert!(sem.wait());
    assert!(sem.signal());
    assert!(sem.signal());
    assert!(sem.signal());
    assert!(!sem.signal());
}

#[test]
fn test_semaphore_handles_share_counter() {
    let sem = Semaphore::init_with(1, 1);
    let other = sem.clone();
    assert!(other.wait());
    // the clone claimed the only unit, so the original observes a full release
    assert!(sem.signal());
    assert!(!other.signal());
}
