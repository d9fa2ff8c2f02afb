use serial_test::identity::IdentityAllocator;
use serial_test::mutex::UniqueReentrantMutex;
use serial_test::protocol::step;
use serial_test::protocol::CreationEvent;
use serial_test::protocol::CreationState;

#[test]
fn parallel_counting_balance() {
    let mut m = UniqueReentrantMutex::new(1);
    let mut i: u32 = 0;
    while i < 5 {
        m.start_parallel();
        i += 1;
    }
    assert_eq!(m.parallel_count(), 5);
    let mut j: u32 = 0;
    while j < 5 {
        m.end_parallel();
        j += 1;
    }
    assert_eq!(m.parallel_count(), 0);
}

#[test]
fn exclusive_side_is_reentrant() {
    let mut m = UniqueReentrantMutex::new(2);
    assert!(!m.is_locked());
    m.lock();
    m.lock();
    assert!(m.is_locked());
    m.unlock();
    assert!(m.is_locked());
    m.unlock();
    assert!(!m.is_locked());
}

#[test]
fn identity_field_is_kept() {
    let m = UniqueReentrantMutex::new(42);
    assert_eq!(m.id, 42);
}

#[test]
fn checked_operations_report_application() {
    let mut m = UniqueReentrantMutex::new(3);
    assert!(!m.try_end_parallel());
    assert!(m.try_start_parallel());
    assert!(m.try_end_parallel());
    assert!(!m.try_unlock());
    assert!(m.try_lock());
    assert!(m.try_unlock());
}

#[test]
fn allocator_hands_out_consecutive_identities() {
    let mut a = IdentityAllocator::new();
    let mut expected: u32 = 1;
    while expected <= 5 {
        let id = a.allocate();
        assert_eq!(id, expected);
        expected += 1;
    }
}

#[test]
fn creation_machine_reaches_present_on_hit() {
    let s = step(CreationState::Probing, CreationEvent::ProbeHit);
    assert!(matches!(s, CreationState::Present));
}

#[test]
fn creation_machine_inserts_on_miss() {
    let s = step(CreationState::Probing, CreationEvent::ProbeMiss);
    assert!(matches!(s, CreationState::Inserting));
    let t = step(s, CreationEvent::InsertDone);
    assert!(matches!(t, CreationState::Present));
}

#[test]
fn creation_machine_retries_on_contention() {
    let s = step(CreationState::Probing, CreationEvent::ProbeContended);
    assert!(matches!(s, CreationState::Probing));
    let t = step(CreationState::Inserting, CreationEvent::InsertContended);
    assert!(matches!(t, CreationState::Probing));
}

#[test]
fn creation_machine_times_out_on_expiry() {
    let s = step(CreationState::Probing, CreationEvent::Expired);
    assert!(matches!(s, CreationState::TimedOut));
    let t = step(CreationState::Inserting, CreationEvent::Expired);
    assert!(matches!(t, CreationState::TimedOut));
}

#[test]
fn terminal_states_absorb_events() {
    let s = step(CreationState::Present, CreationEvent::Expired);
    assert!(matches!(s, CreationState::Present));
    let t = step(CreationState::TimedOut, CreationEvent::ProbeHit);
    assert!(matches!(t, CreationState::TimedOut));
}
