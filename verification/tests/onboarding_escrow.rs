use mentorminds::onboarding_escrow::{remaining_steps, OnboardingError, OnboardingEscrow, OnboardingStep};

const MENTOR: u64 = 5;

fn setup() -> OnboardingEscrow {
    let mut c = OnboardingEscrow::new();
    c.init_mentor(MENTOR);
    c
}

fn complete_all(c: &mut OnboardingEscrow) {
    c.complete_onboarding_step(MENTOR, OnboardingStep::Verified).unwrap();
    c.complete_onboarding_step(MENTOR, OnboardingStep::Bonded).unwrap();
    c.complete_onboarding_step(MENTOR, OnboardingStep::FirstSessionCompleted).unwrap();
}

#[test]
fn test_init_mentor() {
    let c = setup();
    let status = c.get_onboarding_status(MENTOR).unwrap();
    assert!(!status.is_verified);
    assert!(!status.is_bonded);
    assert!(!status.has_completed_first_session);
    assert!(!status.onboarding_complete);
}

#[test]
fn test_first_escrow_extended_default() {
    let c = setup();
    assert!(c.is_first_escrow_extended(MENTOR));
}

#[test]
fn test_complete_verified_step() {
    let mut c = setup();
    c.complete_onboarding_step(MENTOR, OnboardingStep::Verified).unwrap();
    let status = c.get_onboarding_status(MENTOR).unwrap();
    assert!(status.is_verified);
    assert!(!status.onboarding_complete);
}

#[test]
fn test_complete_all_steps() {
    let mut c = setup();
    complete_all(&mut c);
    let status = c.get_onboarding_status(MENTOR).unwrap();
    assert!(status.onboarding_complete);
    assert!(c.is_onboarding_complete(MENTOR).unwrap());
}

#[test]
fn test_step_completed_after_onboarding_done_is_noop() {
    let mut c = setup();
    complete_all(&mut c);
    c.complete_onboarding_step(MENTOR, OnboardingStep::Verified).unwrap();
    assert!(c.is_onboarding_complete(MENTOR).unwrap());
}

#[test]
fn test_onboarding_complete_all_steps_done() {
    let mut c = setup();
    assert!(!c.is_onboarding_complete(MENTOR).unwrap());
    c.complete_onboarding_step(MENTOR, OnboardingStep::Verified).unwrap();
    assert!(!c.is_onboarding_complete(MENTOR).unwrap());
    c.complete_onboarding_step(MENTOR, OnboardingStep::Bonded).unwrap();
    assert!(!c.is_onboarding_complete(MENTOR).unwrap());
    c.complete_onboarding_step(MENTOR, OnboardingStep::FirstSessionCompleted).unwrap();
    assert!(c.is_onboarding_complete(MENTOR).unwrap());
}

#[test]
fn unknown_mentor_is_refused() {
    let mut c = setup();
    assert_eq!(c.complete_onboarding_step(99, OnboardingStep::Bonded), Err(OnboardingError::MentorNotInitialised));
    assert_eq!(c.get_onboarding_status(99), Err(OnboardingError::MentorNotInitialised));
    assert_eq!(c.is_onboarding_complete(99), Err(OnboardingError::MentorNotInitialised));
}

#[test]
fn remaining_steps_in_order() {
    let mut c = setup();
    c.complete_onboarding_step(MENTOR, OnboardingStep::Bonded).unwrap();
    let status = c.get_onboarding_status(MENTOR).unwrap();
    assert_eq!(remaining_steps(&status), vec![OnboardingStep::Verified, OnboardingStep::FirstSessionCompleted]);
    complete_all(&mut c);
    assert!(remaining_steps(&c.get_onboarding_status(MENTOR).unwrap()).is_empty());
}
