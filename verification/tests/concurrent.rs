use serial_test::registry::LockRegistry;

#[test]
fn no_lost_entries_under_contention() {
    let r = LockRegistry::new();
    crossbeam_utils::thread::scope(|scope| {
        let mut i: u32 = 0;
        while i < 16 {
            scope.spawn(|_| {
                assert!(r.ensure_key_exists("contended").is_ok());
            });
            i += 1;
        }
    }).unwrap();
    assert_eq!(r.len(), 1);
    assert!(r.id_of("contended").is_some());
}

#[test]
fn concurrent_two_keys_scenario() {
    let r = LockRegistry::new();
    crossbeam_utils::thread::scope(|scope| {
        let mut i: u32 = 0;
        while i < 50 {
            scope.spawn(|_| {
                assert!(r.ensure_key_exists("a").is_ok());
            });
            scope.spawn(|_| {
                assert!(r.ensure_key_exists("b").is_ok());
            });
            i += 1;
        }
    }).unwrap();
    assert_eq!(r.len(), 2);
    assert_ne!(r.id_of("a"), r.id_of("b"));
    assert_eq!(r.parallel_count_of("a"), Some(0));
    assert_eq!(r.parallel_count_of("b"), Some(0));
}

#[test]
fn concurrent_parallel_counting() {
    let r = LockRegistry::new();
    r.ensure_key_exists("pp").unwrap();
    crossbeam_utils::thread::scope(|scope| {
        let mut i: u32 = 0;
        while i < 10 {
            scope.spawn(|_| {
                assert_eq!(r.enter_parallel("pp"), Some(true));
            });
            i += 1;
        }
    }).unwrap();
    assert_eq!(r.parallel_count_of("pp"), Some(10));
    crossbeam_utils::thread::scope(|scope| {
        let mut i: u32 = 0;
        while i < 10 {
            scope.spawn(|_| {
                assert_eq!(r.exit_parallel("pp"), Some(true));
            });
            i += 1;
        }
    }).unwrap();
    assert_eq!(r.parallel_count_of("pp"), Some(0));
}
