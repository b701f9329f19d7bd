//! Mentor onboarding: verification, bonding and a first completed session,
//! after which onboarding is complete; a new mentor's first escrow uses an
//! extended release delay.
use vstd::prelude::*;
use std::collections::HashMap;

use crate::common::AccountId;

verus! {

broadcast use vstd::std_specs::hash::group_hash_axioms;

/// Extended auto-release delay of a mentor's first escrow: 7 days.
pub const EXTENDED_AUTO_RELEASE_SECS: u64 = 604_800;
/// Refund deadline for incomplete onboarding: 30 days.
pub const ONBOARDING_DEADLINE_SECS: u64 = 2_592_000;

#[derive(Clone, Copy, Debug, PartialEq, Eq, Structural)]
pub enum OnboardingStep {
    Verified,
    Bonded,
    FirstSessionCompleted,
}

#[derive(Clone, Copy, Debug, PartialEq, Eq, Structural)]
pub struct OnboardingStatus {
    pub is_verified: bool,
    pub is_bonded: bool,
    pub has_completed_first_session: bool,
    pub onboarding_complete: bool,
}

#[derive(Clone, Copy, Debug, PartialEq, Eq, Structural)]
pub enum OnboardingError {
    MentorNotInitialised,
}

#[derive(Clone, Debug)]
pub enum OnboardingEvent {
    /// A step was recorded; the steps still missing follow.
    StepCompleted { mentor: AccountId, step: OnboardingStep, remaining: Vec<OnboardingStep> },
    OnboardingDone { mentor: AccountId },
}

/// Steps not yet completed, in the order verified, bonded, first session.
pub open spec fn remaining_spec(s: OnboardingStatus) -> Seq<OnboardingStep> {
    (if !s.is_verified { seq![OnboardingStep::Verified] } else { Seq::empty() }) + (if !s.is_bonded {
        seq![OnboardingStep::Bonded]
    } else {
        Seq::empty()
    }) + (if !s.has_completed_first_session { seq![OnboardingStep::FirstSessionCompleted] } else { Seq::empty() })
}

/// Status after recording `step`.
pub open spec fn with_step(s: OnboardingStatus, step: OnboardingStep) -> OnboardingStatus {
    let t = match step {
        OnboardingStep::Verified => OnboardingStatus { is_verified: true, ..s },
        OnboardingStep::Bonded => OnboardingStatus { is_bonded: true, ..s },
        OnboardingStep::FirstSessionCompleted => OnboardingStatus { has_completed_first_session: true, ..s },
    };
    OnboardingStatus { onboarding_complete: remaining_spec(t).len() == 0, ..t }
}

pub fn remaining_steps(status: &OnboardingStatus) -> (r: Vec<OnboardingStep>)
    ensures
        r@ == remaining_spec(*status),
{
    let mut steps: Vec<OnboardingStep> = Vec::new();
    if !status.is_verified {
        steps.push(OnboardingStep::Verified);
    }
    let ghost a = steps@;
    if !status.is_bonded {
        steps.push(OnboardingStep::Bonded);
    }
    let ghost b = steps@;
    if !status.has_completed_first_session {
        steps.push(OnboardingStep::FirstSessionCompleted);
    }
    proof {
        let x = if !status.is_verified { seq![OnboardingStep::Verified] } else { Seq::empty() };
        let y = if !status.is_bonded { seq![OnboardingStep::Bonded] } else { Seq::empty() };
        let z = if !status.has_completed_first_session { seq![OnboardingStep::FirstSessionCompleted] } else { Seq::empty() };
        assert(a =~= x);
        assert(b =~= x + y);
        assert(steps@ =~= x + y + z);
    }
    steps
}

pub struct OnboardingEscrow {
    pub statuses: HashMap<AccountId, OnboardingStatus>,
    pub first_escrow_extended: HashMap<AccountId, bool>,
    pub events: Vec<OnboardingEvent>,
}

impl OnboardingEscrow {
    /// Well-formedness: a mentor's onboarding is complete exactly when no
    /// step remains.
    pub open spec fn wf(&self) -> bool {
        forall|m: AccountId|
            #[trigger] self.statuses@.contains_key(m) ==> (self.statuses@[m].onboarding_complete
                <==> remaining_spec(self.statuses@[m]).len() == 0)
    }

    pub fn new() -> (r: Self)
        ensures
            r.wf(),
            r.statuses@ == Map::<AccountId, OnboardingStatus>::empty(),
    {
        OnboardingEscrow { statuses: HashMap::new(), first_escrow_extended: HashMap::new(), events: Vec::new() }
    }

    /// Start a mentor's onboarding (once; later calls change nothing).
    pub fn init_mentor(&mut self, mentor: AccountId)
        requires
            old(self).wf(),
        ensures
            final(self).wf(),
            old(self).statuses@.contains_key(mentor) ==> *final(self) == *old(self),
            !old(self).statuses@.contains_key(mentor) ==> {
                &&& final(self).statuses@ == old(self).statuses@.insert(mentor, OnboardingStatus {
                    is_verified: false,
                    is_bonded: false,
                    has_completed_first_session: false,
                    onboarding_complete: false,
                })
                &&& final(self).first_escrow_extended@ == old(self).first_escrow_extended@.insert(mentor, true)
                &&& final(self).events@ == old(self).events@
            },
    {
        if self.statuses.contains_key(&mentor) {
            return;
        }
        self.statuses.insert(
            mentor,
            OnboardingStatus {
                is_verified: false,
                is_bonded: false,
                has_completed_first_session: false,
                onboarding_complete: false,
            },
        );
        self.first_escrow_extended.insert(mentor, true);
    }

    /// Record a completed step; once none remains onboarding is complete.
    /// After completion further steps change nothing.
    pub fn complete_onboarding_step(&mut self, mentor: AccountId, step: OnboardingStep) -> (r: Result<(), OnboardingError>)
        requires
            old(self).wf(),
        ensures
            final(self).wf(),
            !old(self).statuses@.contains_key(mentor) ==> r == Err::<(), OnboardingError>(
                OnboardingError::MentorNotInitialised,
            ) && *final(self) == *old(self),
            old(self).statuses@.contains_key(mentor) ==> r is Ok && if old(self).statuses@[mentor].onboarding_complete {
                *final(self) == *old(self)
            } else {
                let next = with_step(old(self).statuses@[mentor], step);
                &&& final(self).statuses@ == old(self).statuses@.insert(mentor, next)
                &&& final(self).first_escrow_extended@ == old(self).first_escrow_extended@
                &&& final(self).events@.len() == old(self).events@.len() + if next.onboarding_complete { 2int } else { 1int }
            },
    {
        let mut status = match self.statuses.get(&mentor) {
            Some(s) => *s,
            None => return Err(OnboardingError::MentorNotInitialised),
        };
        if status.onboarding_complete {
            return Ok(());
        }
        match step {
            OnboardingStep::Verified => status.is_verified = true,
            OnboardingStep::Bonded => status.is_bonded = true,
            OnboardingStep::FirstSessionCompleted => status.has_completed_first_session = true,
        }
        let remaining = remaining_steps(&status);
        let all_done = remaining.len() == 0;
        if all_done {
            status.onboarding_complete = true;
        }
        self.statuses.insert(mentor, status);
        self.events.push(OnboardingEvent::StepCompleted { mentor, step, remaining });
        if all_done {
            self.events.push(OnboardingEvent::OnboardingDone { mentor });
        }
        Ok(())
    }

    pub fn get_onboarding_status(&self, mentor: AccountId) -> (r: Result<OnboardingStatus, OnboardingError>)
        ensures
            r == (if self.statuses@.contains_key(mentor) {
                Ok(self.statuses@[mentor])
            } else {
                Err(OnboardingError::MentorNotInitialised)
            }),
    {
        match self.statuses.get(&mentor) {
            Some(s) => Ok(*s),
            None => Err(OnboardingError::MentorNotInitialised),
        }
    }

    pub fn is_first_escrow_extended(&self, mentor: AccountId) -> (r: bool)
        ensures
            r == (self.first_escrow_extended@.contains_key(mentor) && self.first_escrow_extended@[mentor]),
    {
        match self.first_escrow_extended.get(&mentor) {
            Some(b) => *b,
            None => false,
        }
    }

    pub fn is_onboarding_complete(&self, mentor: AccountId) -> (r: Result<bool, OnboardingError>)
        ensures
            r == (if self.statuses@.contains_key(mentor) {
                Ok(self.statuses@[mentor].onboarding_complete)
            } else {
                Err(OnboardingError::MentorNotInitialised)
            }),
    {
        match self.statuses.get(&mentor) {
            Some(s) => Ok(s.onboarding_complete),
            None => Err(OnboardingError::MentorNotInitialised),
        }
    }
}

} // verus!
