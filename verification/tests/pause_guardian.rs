use mentorminds::common::Address;
use mentorminds::pause_guardian::{GuardianHalt, PauseGuardian, CIRCUIT_THRESHOLD};

fn address(tag: u8) -> Address {
    let mut strkey = [b'A'; 56];
    strkey[0] = b'G';
    strkey[55] = tag;
    Address { strkey }
}

fn empty() -> PauseGuardian {
    PauseGuardian { admin: None, paused: None, failures: None }
}

fn setup() -> (PauseGuardian, Address) {
    let admin = address(b'1');
    let mut guardian = empty();
    guardian.initialize(admin).unwrap();
    (guardian, admin)
}

#[test]
fn test_circuit_breaker_trips_after_threshold() {
    let (mut g, _admin) = setup();
    assert!(!g.is_paused());
    g.record_failure();
    g.record_failure();
    assert!(!g.is_paused());
    g.record_failure(); // hits threshold
    assert!(g.is_paused());
    assert_eq!(g.failure_count(), 3);
}

#[test]
fn test_manual_unpause_resets_failures() {
    let (mut g, admin) = setup();
    g.record_failure();
    g.record_failure();
    g.record_failure();
    assert!(g.is_paused());

    assert_eq!(g.set_paused(false), Ok(admin));
    assert!(!g.is_paused());
    assert_eq!(g.failure_count(), 0);
}

#[test]
fn guardian_double_initialize_refused() {
    let (mut g, _admin) = setup();
    let before = g;
    let err = g.initialize(address(b'2')).unwrap_err();
    assert_eq!(err, GuardianHalt::AlreadyInitialized);
    assert_eq!(err.message(), "already initialized");
    assert_eq!(g.admin, before.admin);
}

#[test]
fn guardian_admin_calls_need_initialization() {
    let mut g = empty();
    assert_eq!(g.set_paused(true), Err(GuardianHalt::NotInitialized));
    assert_eq!(g.reset_failures(), Err(GuardianHalt::NotInitialized));
    assert_eq!(GuardianHalt::NotInitialized.message(), "not initialized");
    assert!(!g.is_paused());
    assert_eq!(g.failure_count(), 0);
}

#[test]
fn guardian_record_failure_without_initialization() {
    // record_failure is permissionless and works on empty storage.
    let mut g = empty();
    for _ in 0..CIRCUIT_THRESHOLD {
        g.record_failure();
    }
    assert!(g.is_paused());
}

#[test]
fn guardian_pausing_keeps_failures() {
    let (mut g, admin) = setup();
    g.record_failure();
    assert_eq!(g.set_paused(true), Ok(admin));
    assert!(g.is_paused());
    assert_eq!(g.failure_count(), 1);
}

#[test]
fn guardian_reset_failures_keeps_pause() {
    let (mut g, admin) = setup();
    for _ in 0..4 {
        g.record_failure();
    }
    assert_eq!(g.failure_count(), 4);
    assert_eq!(g.reset_failures(), Ok(admin));
    assert_eq!(g.failure_count(), 0);
    assert!(g.is_paused());
    // Tripped state stays consistent: further failures keep it paused.
    g.record_failure();
    assert!(g.is_paused());
}

#[test]
fn guardian_counter_saturates() {
    let mut g = PauseGuardian { admin: None, paused: Some(false), failures: Some(u32::MAX) };
    g.record_failure();
    assert_eq!(g.failure_count(), u32::MAX);
    assert!(g.is_paused());
}
