use sync_prims::handle::RefCount;

#[test]
fn test_clone_n_then_release_all_destroys_once() {
    let mut rc = RefCount::new();
    let n = 4;
    for _ in 0..n {
        rc.clone_handle();
    }
    let mut destructions = 0;
    for _ in 0..(n + 1) {
        if rc.release() {
            destructions += 1;
        }
    }
    assert_eq!(destructions, 1);
}

#[test]
fn test_only_last_release_destroys() {
    let mut rc = RefCount::new();
    rc.clone_handle();
    rc.clone_handle();
    assert!(!rc.release());
    assert!(!rc.release());
    assert!(rc.release());
}

#[test]
fn test_sole_handle_release_destroys_immediately() {
    let mut rc = RefCount::new();
    assert!(rc.release());
}
