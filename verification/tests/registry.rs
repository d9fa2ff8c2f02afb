use serial_test::registry::LockRegistry;

#[test]
fn idempotent_creation_single_key() {
    let r = LockRegistry::new();
    assert!(r.ensure_key_exists("k").is_ok());
    assert!(r.ensure_key_exists("k").is_ok());
    let a = r.id_of("k");
    let b = r.id_of("k");
    assert!(a.is_some());
    assert_eq!(a, b);
    assert_eq!(r.len(), 1);
}

#[test]
fn repeated_first_access_converges() {
    let r = LockRegistry::new();
    let mut i: u32 = 0;
    while i < 50 {
        assert!(r.ensure_key_exists("fresh").is_ok());
        i += 1;
    }
    assert_eq!(r.len(), 1);
    assert_eq!(r.id_of("fresh"), Some(1));
}

#[test]
fn scenario_two_keys_many_callers() {
    let r = LockRegistry::new();
    let mut i: u32 = 0;
    while i < 50 {
        assert!(r.ensure_key_exists("a").is_ok());
        assert!(r.ensure_key_exists("b").is_ok());
        i += 1;
    }
    assert_eq!(r.len(), 2);
    let ia = r.id_of("a").unwrap();
    let ib = r.id_of("b").unwrap();
    assert_ne!(ia, ib);
    assert_eq!(r.parallel_count_of("a"), Some(0));
    assert_eq!(r.parallel_count_of("b"), Some(0));
}

#[test]
fn scenario_default_wait_single_call() {
    let r = LockRegistry::new();
    assert_eq!(r.wait_duration(), 60_000);
    assert!(r.ensure_key_exists("x").is_ok());
    assert!(r.id_of("x").is_some());
}

#[test]
fn identities_are_consecutive_from_one() {
    let r = LockRegistry::new();
    r.ensure_key_exists("first").unwrap();
    r.ensure_key_exists("second").unwrap();
    r.ensure_key_exists("third").unwrap();
    assert_eq!(r.id_of("first"), Some(1));
    assert_eq!(r.id_of("second"), Some(2));
    assert_eq!(r.id_of("third"), Some(3));
}

#[test]
fn set_max_wait_is_read_back() {
    let r = LockRegistry::new();
    r.set_max_wait(5_000);
    assert_eq!(r.wait_duration(), 5_000);
    r.set_max_wait(1);
    assert_eq!(r.wait_duration(), 1);
}

#[test]
fn small_wait_still_creates_uncontended() {
    let r = LockRegistry::new();
    r.set_max_wait(1);
    assert!(r.ensure_key_exists("quick").is_ok());
}

#[test]
fn parallel_ops_through_registry() {
    let r = LockRegistry::new();
    assert_eq!(r.enter_parallel("missing"), None);
    r.ensure_key_exists("p").unwrap();
    assert_eq!(r.enter_parallel("p"), Some(true));
    assert_eq!(r.enter_parallel("p"), Some(true));
    assert_eq!(r.parallel_count_of("p"), Some(2));
    assert_eq!(r.exit_parallel("p"), Some(true));
    assert_eq!(r.exit_parallel("p"), Some(true));
    assert_eq!(r.parallel_count_of("p"), Some(0));
    assert_eq!(r.exit_parallel("p"), Some(false));
}

#[test]
fn serial_ops_through_registry() {
    let r = LockRegistry::new();
    r.ensure_key_exists("s").unwrap();
    assert_eq!(r.serial_acquire("s"), Some(true));
    assert_eq!(r.serial_acquire("s"), Some(true));
    assert_eq!(r.serial_release("s"), Some(true));
    assert_eq!(r.serial_release("s"), Some(true));
    assert_eq!(r.serial_release("s"), Some(false));
    assert_eq!(r.serial_acquire("absent"), None);
}
