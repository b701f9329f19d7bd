use mentorminds::session_registry::{
    BookingChecks, RegistryError, SessionAccessAuditEntry, SessionRegistry, SessionStatus,
};

const BACKEND: u64 = 1;
const TOKEN: u64 = 2;
const NOW: u64 = 1_000_000;

fn clean() -> BookingChecks {
    BookingChecks { load_allowed: true, resources_granted: true, abusive: false, low_fee_count: 0, bypass_penalized: false }
}

fn setup() -> SessionRegistry {
    let mut r = SessionRegistry::new();
    r.initialize(BACKEND).unwrap();
    r
}

fn register(r: &mut SessionRegistry, id: u64, mentor: u64, learner: u64, at: u64, mins: u32) -> Result<u64, RegistryError> {
    r.register_session(BACKEND, id, mentor, learner, at, mins, 100, TOKEN, NOW, clean())
}

#[test]
fn test_register_session() {
    let mut r = setup();
    let returned_id = r.register_session(BACKEND, 1, 10, 20, 2_000_000, 60, 100, TOKEN, NOW, clean()).unwrap();
    assert_eq!(returned_id, 1);
    let record = r.get_session(1).unwrap();
    assert_eq!(record.status, SessionStatus::Pending);
    assert_eq!(record.mentor, 10);
    assert_eq!(record.learner, 20);
    assert_eq!(record.duration_mins, 60);
}

#[test]
fn test_update_status_full_lifecycle() {
    let mut r = setup();
    register(&mut r, 2, 10, 20, 2_000_000, 45).unwrap();
    r.update_status(BACKEND, 2, SessionStatus::Confirmed, true).unwrap();
    assert_eq!(r.get_session(2).unwrap().status, SessionStatus::Confirmed);
    r.update_status(BACKEND, 2, SessionStatus::Completed, true).unwrap();
    assert_eq!(r.get_session(2).unwrap().status, SessionStatus::Completed);
}

#[test]
fn test_get_sessions_by_mentor_and_learner() {
    let mut r = setup();
    for i in 1u64..=3 {
        let start = 2_000_000u64 + (i - 1) * 200_000;
        r.register_session(BACKEND, i, 10, 20, start, 60, 100, TOKEN, start, clean()).unwrap();
    }
    assert_eq!(r.get_sessions_by_mentor(10).len(), 3);
    assert_eq!(r.get_sessions_by_learner(20).len(), 3);
    let page1 = r.get_sessions_by_mentor_page(10, 0, 2);
    assert_eq!(page1.len(), 2);
    let page2 = r.get_sessions_by_mentor_page(10, 2, 2);
    assert_eq!(page2.len(), 1);
    assert_eq!(r.get_mentor_session_count(10), 3);
    assert_eq!(r.get_learner_session_count(20), 3);
}

#[test]
fn test_cancel_session() {
    let mut r = setup();
    register(&mut r, 3, 10, 20, 2_000_000, 30).unwrap();
    r.update_status(BACKEND, 3, SessionStatus::Cancelled, true).unwrap();
    assert_eq!(r.get_session(3).unwrap().status, SessionStatus::Cancelled);
}

#[test]
#[should_panic(expected = "Duplicate session")]
fn test_duplicate_session_rejected() {
    let mut r = setup();
    register(&mut r, 4, 10, 20, 2_000_000, 60).unwrap();
    register(&mut r, 4, 10, 20, 2_000_000, 60).expect("Duplicate session");
}

#[test]
fn test_overlapping_sessions_conflict() {
    let mut r = setup();
    register(&mut r, 5, 10, 20, 2_000_000, 60).unwrap();
    let result = register(&mut r, 6, 10, 21, 2_001_800, 30);
    assert!(result.is_err());
}

#[test]
fn test_non_overlapping_sessions_succeed() {
    let mut r = setup();
    register(&mut r, 7, 10, 20, 2_000_000, 60).unwrap();
    let returned_id = register(&mut r, 8, 10, 21, 2_004_500, 30).unwrap();
    assert_eq!(returned_id, 8);
}

#[test]
fn test_cancellation_releases_time_buckets() {
    let mut r = setup();
    register(&mut r, 9, 10, 20, 2_000_000, 60).unwrap();
    r.update_status(BACKEND, 9, SessionStatus::Cancelled, true).unwrap();
    let returned_id = register(&mut r, 10, 10, 21, 2_000_000, 60).unwrap();
    assert_eq!(returned_id, 10);
}

#[test]
fn test_get_mentor_availability() {
    let mut r = setup();
    register(&mut r, 11, 10, 20, 2_000_000, 60).unwrap();
    let availability = r.get_mentor_availability(10, 2_000_000, 2_007_200);
    assert!(availability.len() >= 4);
    let occupied_count = availability.iter().filter(|(_, free)| !free).count();
    assert!(occupied_count > 0);
}

#[test]
fn test_buffer_enforcement_15_min() {
    let mut r = setup();
    register(&mut r, 12, 10, 20, 2_000_000, 60).unwrap();
    let result = register(&mut r, 13, 10, 21, 2_003_600, 30);
    assert!(result.is_err());
    let returned_id = register(&mut r, 14, 10, 21, 2_004_500, 30).unwrap();
    assert_eq!(returned_id, 14);
}

#[test]
#[should_panic(expected = "SessionConflict")]
fn test_bucket_aligned_zero_gap_double_booking_rejected() {
    let mut r = setup();
    register(&mut r, 15, 10, 20, 1_800_000, 60).unwrap();
    register(&mut r, 16, 10, 21, 1_803_600, 30).unwrap();
}

#[test]
#[should_panic(expected = "InvalidDuration")]
fn test_zero_duration_session_rejected() {
    let mut r = setup();
    register(&mut r, 17, 10, 20, 2_000_000, 0).unwrap();
}

#[test]
fn test_coordination_block_on_clustered_pair_bookings() {
    let mut r = setup();
    register(&mut r, 18, 10, 20, 2_000_000, 5).unwrap();
    register(&mut r, 19, 10, 20, 2_003_500, 5).unwrap();
    let result = register(&mut r, 20, 10, 20, 2_007_000, 5);
    assert!(result.is_err());
    let returned = register(&mut r, 21, 10, 20, 2_020_000, 5).unwrap();
    assert_eq!(returned, 21);
}

#[test]
fn refusals_in_order_and_state_unchanged() {
    let mut r = setup();
    assert_eq!(r.register_session(99, 30, 10, 20, 2_000_000, 60, 100, TOKEN, NOW, clean()), Err(RegistryError::Unauthorized));
    let mut checks = clean();
    checks.load_allowed = false;
    assert_eq!(r.register_session(BACKEND, 30, 10, 20, 2_000_000, 60, 100, TOKEN, NOW, checks), Err(RegistryError::RateLimitExceeded));
    let mut checks = clean();
    checks.resources_granted = false;
    assert_eq!(r.register_session(BACKEND, 30, 10, 20, 2_000_000, 60, 100, TOKEN, NOW, checks), Err(RegistryError::ResourceQuotaExceeded));
    let mut checks = clean();
    checks.abusive = true;
    assert_eq!(r.register_session(BACKEND, 30, 10, 20, 2_000_000, 60, 100, TOKEN, NOW, checks), Err(RegistryError::AbusePatternDetected));
    let mut checks = clean();
    checks.bypass_penalized = true;
    assert_eq!(r.register_session(BACKEND, 30, 10, 20, 2_000_000, 60, 100, TOKEN, NOW, checks), Err(RegistryError::CollusionDetected));
    assert_eq!(register(&mut r, 30, 10, 20, u64::MAX - 10, 60), Err(RegistryError::SessionEndOverflow));
    assert_eq!(r.get_mentor_session_count(10), 0);
    assert!(r.get_session(30).is_err());
}

#[test]
fn uninitialized_registry_refuses_registration() {
    let mut r = SessionRegistry::new();
    assert_eq!(r.register_session(BACKEND, 1, 10, 20, 2_000_000, 60, 100, TOKEN, NOW, clean()), Err(RegistryError::NotInitialized));
    assert_eq!(r.initialize(BACKEND), Ok(()));
    assert_eq!(r.initialize(BACKEND), Err(RegistryError::AlreadyInitialized));
}

#[test]
fn completion_needs_authenticity() {
    let mut r = setup();
    register(&mut r, 31, 10, 20, 2_000_000, 60).unwrap();
    assert_eq!(r.update_status(BACKEND, 31, SessionStatus::Completed, false), Err(RegistryError::SessionNotAuthentic));
    assert_eq!(r.get_session(31).unwrap().status, SessionStatus::Pending);
    assert_eq!(r.update_status(BACKEND, 99, SessionStatus::Confirmed, true), Err(RegistryError::SessionNotFound));
}

#[test]
fn pages_concatenate_example() {
    let mut r = setup();
    for i in 0u64..5 {
        let start = 3_000_000 + i * 300_000;
        r.register_session(BACKEND, 40 + i, 10, 20 + i, start, 30, 100, TOKEN, start, clean()).unwrap();
    }
    let mut joined = r.get_sessions_by_mentor_page(10, 0, 2);
    joined.extend(r.get_sessions_by_mentor_page(10, 2, 3));
    assert_eq!(joined, r.get_sessions_by_mentor_page(10, 0, 5));
    assert_eq!(joined, vec![40, 41, 42, 43, 44]);
    assert_eq!(r.get_sessions_by_mentor_page(10, 7, 3), Vec::<u64>::new());
}

#[test]
fn availability_marks_exact_buckets() {
    let mut r = setup();
    register(&mut r, 50, 10, 20, 1_800_000, 60).unwrap();
    let slots = r.get_mentor_availability(10, 1_800_000, 1_807_200);
    assert_eq!(slots, vec![(1_800_000, false), (1_801_800, false), (1_803_600, true), (1_805_400, true)]);
    assert_eq!(r.get_mentor_availability(10, 5, 5), vec![]);
}

#[test]
fn overwritten_bucket_no_longer_blocks_its_first_session() {
    // A later session that shares a bucket with an earlier one takes the
    // bucket over; the earlier session's span is then no longer guarded.
    let mut r = setup();
    register(&mut r, 60, 10, 20, 1_800_000, 10).unwrap();
    register(&mut r, 61, 10, 21, 1_801_500, 10).unwrap();
    assert_eq!(register(&mut r, 62, 10, 22, 1_800_000, 10), Ok(62));
}

#[test]
fn trivial_matching_helpers() {
    assert!(SessionRegistry::recommend_mentors(1, 2).is_empty());
    assert_eq!(SessionRegistry::match_learners_to_mentors(1, vec![5, 4, 3]), vec![5, 4, 3]);
    assert_eq!(SessionRegistry::rank_session_options(vec![9, 1]), vec![9, 1]);
}

#[test]
fn test_emergency_scheduling_override_confirms_session() {
    let mut r = setup();
    register(&mut r, 70, 10, 20, 2_000_000, 30).unwrap();
    r.emergency_scheduling_override(BACKEND, 70).unwrap();
    assert_eq!(r.get_session(70).unwrap().status, SessionStatus::Confirmed);
    assert_eq!(r.emergency_overrides.get(&70), Some(&true));
}

#[test]
#[should_panic]
fn test_emergency_scheduling_override_requires_backend_auth() {
    let mut r = setup();
    register(&mut r, 71, 10, 20, 2_000_000, 60).unwrap();
    r.emergency_scheduling_override(999, 71).unwrap();
}

#[test]
fn participant_sessions_mentor_first_without_duplicates() {
    let mut r = setup();
    // Participant 10 mentors 80 and 82 and learns in 81.
    r.register_session(BACKEND, 80, 10, 20, 3_000_000, 30, 1, TOKEN, NOW, clean()).unwrap();
    r.register_session(BACKEND, 81, 30, 10, 3_000_000, 30, 1, TOKEN, NOW, clean()).unwrap();
    r.register_session(BACKEND, 82, 10, 21, 3_300_000, 30, 1, TOKEN, NOW, clean()).unwrap();
    assert_eq!(r.get_sessions_by_participant(10), vec![80, 82, 81]);
    assert_eq!(r.get_sessions_by_participant(20), vec![80]);
    assert!(r.get_sessions_by_participant(99).is_empty());
}

#[test]
fn quality_outcomes_and_audit() {
    let mut r = setup();
    register(&mut r, 90, 10, 20, 2_000_000, 30).unwrap();
    assert!(!r.validate_session_quality(90));
    r.update_status(BACKEND, 90, SessionStatus::Completed, true).unwrap();
    assert!(r.validate_session_quality(90));
    assert!(!r.validate_session_quality(91));
    r.track_learning_outcomes(90, 88, 5_000).unwrap();
    assert_eq!(r.learning_outcomes.get(&90), Some(&(88, 5_000)));
    assert_eq!(r.track_learning_outcomes(91, 1, 1), Err(RegistryError::SessionNotFound));
    for t in 0..25u64 {
        r.audit_data_access(10 + t, 90, t % 2 == 0, t);
    }
    let log = r.get_session_access_audit(90);
    assert_eq!(log.len(), 20);
    assert_eq!(log[0], SessionAccessAuditEntry { accessor: 15, accessed_at: 5, allowed: false });
    assert!(r.get_session_access_audit(91).is_empty());
    assert!(!r.is_accessor_contained(7));
    assert_eq!(r.restore_accessor_access(3, 7), Err(RegistryError::Unauthorized));
    r.restore_accessor_access(BACKEND, 7).unwrap();
    assert!(!r.is_accessor_contained(7));
}

#[test]
fn registry_cartel_and_fairness_reports_are_neutral() {
    let r = setup();
    let c = r.detect_scheduling_cartels(10, 3_600);
    assert!(!c.cartel_detected);
    assert_eq!(c.confidence_score, 0);
    let f = r.ensure_time_slot_fairness(&vec![10, 11], (0, 100));
    assert_eq!(f.fairness_score, 100);
    assert_eq!(f.total_slots, 0);
}

#[test]
fn content_and_metadata_queries() {
    let mut r = setup();
    register(&mut r, 95, 10, 20, 2_000_000, 30).unwrap();
    assert!(r.get_session_content(95).is_empty());
    assert!(r.get_session_content(96).is_empty());
    assert!(r.get_session_metadata(95).is_empty());
    r.update_session_metadata(95, vec!["math".to_string(), "beginner".to_string()]);
    assert_eq!(r.get_session_metadata(95), vec!["math".to_string(), "beginner".to_string()]);
    r.update_session_metadata(95, vec![]);
    assert!(r.get_session_metadata(95).is_empty());
}

#[test]
fn suspended_mentor_cannot_book() {
    let mut r = setup();
    assert_eq!(r.record_protection(99, 10, true), Err(RegistryError::Unauthorized));
    r.record_protection(BACKEND, 10, false).unwrap();
    assert!(!r.is_mentor_suspended(10));
    assert_eq!(r.enforce_fair_pricing(10, 250), Ok(250));
    r.record_protection(BACKEND, 10, true).unwrap();
    assert!(r.is_mentor_suspended(10));
    assert_eq!(r.enforce_fair_pricing(10, 250), Err(RegistryError::MentorSuspended));
    let res = r.register_session(BACKEND, 70, 10, 20, 2_000_000, 60, 100, TOKEN, NOW, clean());
    assert_eq!(res, Err(RegistryError::MentorSuspended));
    assert!(r.get_session(70).is_err());
    assert_eq!(r.get_mentor_session_count(10), 0);
    // Other mentors are unaffected.
    assert!(register(&mut r, 71, 11, 20, 2_000_000, 60).is_ok());
}

#[test]
fn fair_pricing_averages_of_spend_and_recent_prices() {
    let mut r = setup();
    assert_eq!(r.fair_pricing_averages(20), (0, 0));
    r.register_session(BACKEND, 80, 10, 20, 2_000_000, 60, 100, TOKEN, NOW, clean()).unwrap();
    r.register_session(BACKEND, 81, 11, 20, 3_000_000, 60, 251, TOKEN, NOW, clean()).unwrap();
    r.register_session(BACKEND, 82, 12, 21, 4_000_000, 60, 49, TOKEN, NOW, clean()).unwrap();
    // Learner 20: 351 over 2 sessions; platform: 400 over 3 prices.
    assert_eq!(r.fair_pricing_averages(20), (175, 133));
    assert_eq!(r.fair_pricing_averages(21).0, 49);
}

#[test]
fn pair_monitoring_log_keeps_last_twenty() {
    let mut r = setup();
    let mut last = 0;
    for i in 0..21u64 {
        last = 2_000_000 + i * 100_000;
        r.register_session(BACKEND, 200 + i, 10, 20, last, 30, 100, TOKEN, NOW, clean()).unwrap();
    }
    let log = r.pair_log.get(&mentorminds::common::make_pair_key(10, 20)).unwrap();
    assert_eq!(log.len(), 20);
    assert_eq!(*log.last().unwrap(), last);
    assert_eq!(log[0], 2_000_000 + 100_000);
}
