use mentorminds::pause_guardian::{GuardianError, GuardianEvent, PauseGuardian};

const ADMIN: u64 = 1;
const YIELD: u64 = 50;

fn setup() -> PauseGuardian {
    let mut g = PauseGuardian::new();
    g.initialize(ADMIN).unwrap();
    g
}

fn trip(g: &mut PauseGuardian) {
    g.record_failure();
    g.record_failure();
    g.record_failure();
}

#[test]
fn test_circuit_breaker_trips_after_threshold() {
    let mut g = setup();
    assert!(!g.is_paused());
    g.record_failure();
    g.record_failure();
    assert!(!g.is_paused());
    assert_eq!(g.record_failure(), Some(GuardianEvent::CircuitTripped { failures: 3 }));
    assert!(g.is_paused());
    assert_eq!(g.failure_count(), 3);
}

#[test]
fn test_manual_unpause_resets_failures() {
    let mut g = setup();
    trip(&mut g);
    assert!(g.is_paused());
    g.set_paused(ADMIN, false).unwrap();
    assert!(!g.is_paused());
    assert_eq!(g.failure_count(), 0);
}

#[test]
fn test_yield_interface_invalid_before_registration() {
    let g = setup();
    assert!(!g.is_yield_interface_valid());
}

#[test]
fn test_set_yield_contract_clears_validation() {
    let mut g = setup();
    g.set_yield_contract(ADMIN, YIELD).unwrap();
    assert!(!g.is_yield_interface_valid());
    g.validate_yield_interface(ADMIN).unwrap();
    assert!(g.is_yield_interface_valid());
    g.set_yield_contract(ADMIN, YIELD + 1).unwrap();
    assert!(!g.is_yield_interface_valid());
}

#[test]
#[should_panic(expected = "yield contract not registered")]
fn test_validate_without_registration_panics() {
    let mut g = setup();
    g.validate_yield_interface(ADMIN).expect("yield contract not registered");
}

#[test]
fn test_yield_health_operational_when_not_paused() {
    let mut g = setup();
    g.set_yield_contract(ADMIN, YIELD).unwrap();
    g.validate_yield_interface(ADMIN).unwrap();
    let (health, _) = g.check_yield_health(1_000);
    assert!(health.operational);
    assert_eq!(health.failure_count, 0);
    assert_eq!(health.threshold, 3);
    assert!(health.interface_validated);
}

#[test]
fn test_yield_health_not_operational_after_circuit_trip() {
    let mut g = setup();
    trip(&mut g);
    let (health, _) = g.check_yield_health(1_000);
    assert!(!health.operational);
    assert_eq!(health.failure_count, 3);
}

#[test]
fn test_should_use_fallback_when_not_validated() {
    let g = setup();
    assert!(g.should_use_fallback());
}

#[test]
fn test_should_not_use_fallback_when_healthy_and_validated() {
    let mut g = setup();
    g.set_yield_contract(ADMIN, YIELD).unwrap();
    g.validate_yield_interface(ADMIN).unwrap();
    assert!(!g.should_use_fallback());
}

#[test]
fn test_should_use_fallback_when_circuit_tripped() {
    let mut g = setup();
    g.set_yield_contract(ADMIN, YIELD).unwrap();
    g.validate_yield_interface(ADMIN).unwrap();
    trip(&mut g);
    assert!(g.should_use_fallback());
}

#[test]
fn test_reset_failures_allows_recovery() {
    let mut g = setup();
    trip(&mut g);
    assert!(g.is_paused());
    g.reset_failures(ADMIN).unwrap();
    assert_eq!(g.failure_count(), 0);
    assert!(g.is_paused());
    g.set_paused(ADMIN, false).unwrap();
    assert!(!g.is_paused());
}

#[test]
fn test_failure_count_saturates_at_max_u32() {
    let mut g = setup();
    trip(&mut g);
    assert!(g.is_paused());
    assert_eq!(g.record_failure(), None);
    g.record_failure();
    assert_eq!(g.failure_count(), 5);
}

#[test]
fn test_validate_yield_requires_registered_contract() {
    let g = setup();
    assert!(g.get_yield_contract().is_none());
}

#[test]
fn test_get_yield_contract_returns_registered_address() {
    let mut g = setup();
    g.set_yield_contract(ADMIN, YIELD).unwrap();
    assert_eq!(g.get_yield_contract(), Some(YIELD));
}

#[test]
fn only_admin_controls_the_guardian() {
    let mut g = setup();
    assert_eq!(g.set_paused(9, true), Err(GuardianError::Unauthorized));
    assert_eq!(g.reset_failures(9), Err(GuardianError::Unauthorized));
    assert_eq!(g.set_yield_contract(9, YIELD), Err(GuardianError::Unauthorized));
    assert!(!g.is_paused());
    let mut fresh = PauseGuardian::new();
    assert_eq!(fresh.set_paused(ADMIN, true), Err(GuardianError::NotInitialized));
    assert_eq!(g.initialize(ADMIN), Err(GuardianError::AlreadyInitialized));
}

#[test]
fn failure_count_saturates_at_the_top() {
    let mut g = setup();
    g.failures = u32::MAX;
    g.record_failure();
    assert_eq!(g.failure_count(), u32::MAX);
    assert!(g.is_paused());
}

#[test]
fn health_check_time_recorded_only_after_interval() {
    let mut g = setup();
    let (h1, e1) = g.check_yield_health(1_000);
    assert_eq!(h1.last_checked_at, 1_000);
    assert_eq!(e1, Some(GuardianEvent::HealthChecked { at: 1_000 }));
    let (h2, e2) = g.check_yield_health(1_100);
    assert_eq!(h2.last_checked_at, 1_000);
    assert_eq!(e2, None);
}
