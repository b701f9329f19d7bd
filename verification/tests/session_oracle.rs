use mentorminds::session_oracle::{Error, SessionOracleContract, SessionOracleEvent, SessionState};

const ADMIN: u64 = 1;
const MENTOR: u64 = 2;
const LEARNER: u64 = 3;
const INVOKER: u64 = 9;

fn setup(session_id: u64) -> SessionOracleContract {
    let mut c = SessionOracleContract::new();
    c.initialize(ADMIN).unwrap();
    c.register_session(ADMIN, session_id, MENTOR, LEARNER, 7, 5_000).unwrap();
    c
}

#[test]
fn dual_confirmation_completes_session() {
    let mut c = setup(100);
    let first = c.confirm_completion(100, MENTOR, 1_000).unwrap();
    assert_eq!(first.state, SessionState::Pending);
    let second = c.confirm_completion(100, LEARNER, 1_000).unwrap();
    assert_eq!(second.state, SessionState::Completed);
    assert_eq!(second.escrow_id, 7);
}

#[test]
fn test_trigger_timeout_release_single_confirmation() {
    let mut c = setup(101);
    let first = c.confirm_completion(101, MENTOR, 1_000).unwrap();
    assert_eq!(first.state, SessionState::Pending);
    c.trigger_timeout_release(101, 178_000, INVOKER).unwrap();
    let session = c.get_session(101).unwrap();
    assert_eq!(session.state, SessionState::Completed);
    assert_eq!(session.completed_at, 178_000);
}

#[test]
fn test_trigger_timeout_release_before_deadline_fails() {
    let mut c = setup(102);
    c.confirm_completion(102, MENTOR, 1_000).unwrap();
    let result = c.trigger_timeout_release(102, 1_000, INVOKER);
    assert!(result.is_err());
}

#[test]
fn test_trigger_timeout_zero_confirmations_auto_dispute() {
    let mut c = setup(103);
    c.trigger_timeout_release(103, 351_000, INVOKER).unwrap();
    let session = c.get_session(103).unwrap();
    assert_eq!(session.state, SessionState::Disputed);
}

#[test]
fn deadlines_follow_the_session_end() {
    let c = setup(104);
    let s = c.get_session(104).unwrap();
    assert_eq!(s.confirmation_deadline, 177_800);
    assert_eq!(s.dispute_deadline, 350_600);
}

#[test]
fn zero_confirmations_before_dispute_deadline_is_refused() {
    let mut c = setup(105);
    assert_eq!(c.trigger_timeout_release(105, 200_000, INVOKER), Err(Error::NoConfirmations));
    assert_eq!(c.get_session(105).unwrap().state, SessionState::Pending);
}

#[test]
fn disputed_session_refuses_confirmation() {
    let mut c = setup(106);
    c.raise_dispute(106, LEARNER).unwrap();
    assert_eq!(c.confirm_completion(106, MENTOR, 2_000), Err(Error::SessionDisputed));
}

#[test]
fn outsiders_cannot_confirm_or_dispute() {
    let mut c = setup(107);
    assert_eq!(c.confirm_completion(107, 55, 2_000), Err(Error::Unauthorized));
    assert_eq!(c.raise_dispute(107, 55), Err(Error::Unauthorized));
}

#[test]
fn registration_errors() {
    let mut c = setup(108);
    assert_eq!(c.register_session(ADMIN, 108, MENTOR, LEARNER, 1, 1), Err(Error::SessionAlreadyExists));
    assert_eq!(c.register_session(77, 109, MENTOR, LEARNER, 1, 1), Err(Error::Unauthorized));
    assert_eq!(c.initialize(ADMIN), Err(Error::AlreadyInitialized));
    assert_eq!(c.get_session(999), Err(Error::SessionNotFound));
    assert_eq!(c.confirm_completion(999, MENTOR, 1), Err(Error::SessionNotFound));
}

#[test]
fn release_event_once_both_confirm() {
    let mut c = setup(110);
    c.confirm_completion(110, LEARNER, 1_000).unwrap();
    c.confirm_completion(110, MENTOR, 1_500).unwrap();
    assert!(c.events.contains(&SessionOracleEvent::EscrowReleaseReady { session_id: 110, escrow_id: 7 }));
    assert_eq!(c.get_session(110).unwrap().completed_at, 1_500);
}
