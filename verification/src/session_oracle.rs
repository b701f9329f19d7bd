//! Session completion oracle: both participants confirm a session to make
//! its escrow releasable; after the confirmation deadline a single
//! confirmation suffices, and with none a session past the dispute deadline
//! is disputed automatically.
use vstd::prelude::*;
use std::collections::HashMap;

use crate::common::{AccountId, SymbolId};

verus! {

broadcast use vstd::std_specs::hash::group_hash_axioms;

/// Confirmations are expected within 48 hours of the session's end.
pub const EXPIRY_GRACE_SECS: u64 = 172_800;
/// A further 48 hours before an unconfirmed session is disputed.
pub const DISPUTE_WINDOW_SECS: u64 = 172_800;

#[derive(Clone, Copy, Debug, PartialEq, Eq, Structural)]
pub enum SessionState {
    Pending,
    Completed,
    Disputed,
    Expired,
}

#[derive(Clone, Copy, Debug, PartialEq, Eq, Structural)]
pub struct OracleSession {
    pub session_id: SymbolId,
    pub mentor: AccountId,
    pub learner: AccountId,
    pub escrow_id: u64,
    pub end_time: u64,
    pub confirmation_deadline: u64,
    pub dispute_deadline: u64,
    pub mentor_confirmed: bool,
    pub learner_confirmed: bool,
    pub completed_at: u64,
    pub state: SessionState,
}

#[derive(Clone, Copy, Debug, PartialEq, Eq, Structural)]
pub enum Error {
    AlreadyInitialized,
    SessionAlreadyExists,
    SessionNotFound,
    Unauthorized,
    SessionDisputed,
    SessionExpired,
    DeadlineNotPassed,
    NoConfirmations,
}

#[derive(Clone, Copy, Debug, PartialEq, Eq, Structural)]
pub enum SessionOracleEvent {
    SessionRegistered { session_id: SymbolId, escrow_id: u64 },
    EscrowReleaseReady { session_id: SymbolId, escrow_id: u64 },
    SessionConfirmed { session_id: SymbolId, participant: AccountId },
    SessionDisputed { session_id: SymbolId, by: AccountId },
    ConfirmationTimeout { session_id: SymbolId, confirmed_by: AccountId },
}

pub struct SessionOracleContract {
    pub admin: Option<AccountId>,
    pub sessions: HashMap<SymbolId, OracleSession>,
    pub events: Vec<SessionOracleEvent>,
}

/// The record after `participant` confirms `rec` at `now`.
pub open spec fn confirmed_record(rec: OracleSession, participant: AccountId, now: u64) -> OracleSession {
    let m = rec.mentor_confirmed || participant == rec.mentor;
    let l = rec.learner_confirmed || participant == rec.learner;
    if m && l {
        OracleSession { mentor_confirmed: m, learner_confirmed: l, state: SessionState::Completed, completed_at: now, ..rec }
    } else {
        OracleSession { mentor_confirmed: m, learner_confirmed: l, ..rec }
    }
}

impl SessionOracleContract {
    pub fn new() -> (r: Self)
        ensures
            r.admin is None,
            r.sessions@ == Map::<SymbolId, OracleSession>::empty(),
            r.events@.len() == 0,
    {
        SessionOracleContract { admin: None, sessions: HashMap::new(), events: Vec::new() }
    }

    pub fn initialize(&mut self, admin: AccountId) -> (r: Result<(), Error>)
        ensures
            old(self).admin is Some ==> r == Err::<(), Error>(Error::AlreadyInitialized) && *final(self) == *old(self),
            old(self).admin is None ==> r is Ok && *final(self) == (SessionOracleContract { admin: Some(admin), ..*old(self) }),
    {
        if self.admin.is_some() {
            return Err(Error::AlreadyInitialized);
        }
        self.admin = Some(admin);
        Ok(())
    }

    pub open spec fn admin_check(&self, caller: AccountId) -> Result<(), Error> {
        match self.admin {
            Some(a) => if a == caller { Ok(()) } else { Err(Error::Unauthorized) },
            None => Err(Error::Unauthorized),
        }
    }

    /// Track a session ending at `end_time`; the admin only.
    pub fn register_session(
        &mut self,
        admin: AccountId,
        session_id: SymbolId,
        mentor: AccountId,
        learner: AccountId,
        escrow_id: u64,
        end_time: u64,
    ) -> (r: Result<(), Error>)
        ensures
            r == (if old(self).admin_check(admin) is Err {
                old(self).admin_check(admin)
            } else if old(self).sessions@.contains_key(session_id) {
                Err(Error::SessionAlreadyExists)
            } else {
                Ok(())
            }),
            r is Err ==> *final(self) == *old(self),
            r is Ok ==> {
                let cd = end_time.saturating_add(EXPIRY_GRACE_SECS);
                &&& final(self).sessions@ == old(self).sessions@.insert(session_id, OracleSession {
                    session_id,
                    mentor,
                    learner,
                    escrow_id,
                    end_time,
                    confirmation_deadline: cd,
                    dispute_deadline: cd.saturating_add(DISPUTE_WINDOW_SECS),
                    mentor_confirmed: false,
                    learner_confirmed: false,
                    completed_at: 0,
                    state: SessionState::Pending,
                })
                &&& final(self).events@ == old(self).events@.push(SessionOracleEvent::SessionRegistered { session_id, escrow_id })
                &&& final(self).admin == old(self).admin
            },
    {
        match self.admin {
            Some(a) => if a != admin {
                return Err(Error::Unauthorized);
            },
            None => return Err(Error::Unauthorized),
        }
        if self.sessions.contains_key(&session_id) {
            return Err(Error::SessionAlreadyExists);
        }
        let confirmation_deadline = end_time.saturating_add(EXPIRY_GRACE_SECS);
        let dispute_deadline = confirmation_deadline.saturating_add(DISPUTE_WINDOW_SECS);
        let record = OracleSession {
            session_id,
            mentor,
            learner,
            escrow_id,
            end_time,
            confirmation_deadline,
            dispute_deadline,
            mentor_confirmed: false,
            learner_confirmed: false,
            completed_at: 0,
            state: SessionState::Pending,
        };
        self.sessions.insert(session_id, record);
        self.events.push(SessionOracleEvent::SessionRegistered { session_id, escrow_id });
        Ok(())
    }

    pub open spec fn confirm_outcome(&self, session_id: SymbolId, participant: AccountId) -> Result<(), Error> {
        if !self.sessions@.contains_key(session_id) {
            Err(Error::SessionNotFound)
        } else if self.sessions@[session_id].state == SessionState::Disputed {
            Err(Error::SessionDisputed)
        } else if participant != self.sessions@[session_id].mentor && participant != self.sessions@[session_id].learner {
            Err(Error::Unauthorized)
        } else {
            Ok(())
        }
    }

    /// Record a participant's confirmation; once both have confirmed the
    /// session is completed at `now` and its escrow becomes releasable.
    pub fn confirm_completion(&mut self, session_id: SymbolId, participant: AccountId, now: u64) -> (r: Result<OracleSession, Error>)
        ensures
            old(self).confirm_outcome(session_id, participant) is Err ==> r == Err::<OracleSession, Error>(
                old(self).confirm_outcome(session_id, participant)->Err_0,
            ) && *final(self) == *old(self),
            old(self).confirm_outcome(session_id, participant) is Ok ==> {
                let rec = old(self).sessions@[session_id];
                let next = confirmed_record(rec, participant, now);
                &&& r == Ok::<OracleSession, Error>(next)
                &&& final(self).sessions@ == old(self).sessions@.insert(session_id, next)
                &&& final(self).events@ == old(self).events@ + (if next.mentor_confirmed && next.learner_confirmed {
                    seq![SessionOracleEvent::EscrowReleaseReady { session_id, escrow_id: rec.escrow_id }]
                } else {
                    Seq::<SessionOracleEvent>::empty()
                }) + seq![SessionOracleEvent::SessionConfirmed { session_id, participant }]
                &&& final(self).admin == old(self).admin
            },
    {
        let mut record = match self.sessions.get(&session_id) {
            Some(r) => *r,
            None => return Err(Error::SessionNotFound),
        };
        if record.state == SessionState::Disputed {
            return Err(Error::SessionDisputed);
        }
        if participant != record.mentor && participant != record.learner {
            return Err(Error::Unauthorized);
        }
        let ghost old_events = self.events@;
        if participant == record.mentor {
            record.mentor_confirmed = true;
        }
        if participant == record.learner {
            record.learner_confirmed = true;
        }
        if record.mentor_confirmed && record.learner_confirmed {
            record.state = SessionState::Completed;
            record.completed_at = now;
            self.events.push(SessionOracleEvent::EscrowReleaseReady { session_id, escrow_id: record.escrow_id });
        }
        self.sessions.insert(session_id, record);
        self.events.push(SessionOracleEvent::SessionConfirmed { session_id, participant });
        proof {
            let ev = if record.mentor_confirmed && record.learner_confirmed {
                seq![SessionOracleEvent::EscrowReleaseReady { session_id, escrow_id: record.escrow_id }]
            } else {
                Seq::<SessionOracleEvent>::empty()
            };
            assert(self.events@ =~= old_events + ev + seq![SessionOracleEvent::SessionConfirmed { session_id, participant }]);
        }
        Ok(record)
    }

    /// Either participant may dispute the session.
    pub fn raise_dispute(&mut self, session_id: SymbolId, participant: AccountId) -> (r: Result<(), Error>)
        ensures
            r == (if !old(self).sessions@.contains_key(session_id) {
                Err(Error::SessionNotFound)
            } else if participant != old(self).sessions@[session_id].mentor && participant != old(
                self,
            ).sessions@[session_id].learner {
                Err(Error::Unauthorized)
            } else {
                Ok(())
            }),
            r is Err ==> *final(self) == *old(self),
            r is Ok ==> final(self).sessions@ == old(self).sessions@.insert(
                session_id,
                OracleSession { state: SessionState::Disputed, ..old(self).sessions@[session_id] },
            ) && final(self).events@ == old(self).events@.push(SessionOracleEvent::SessionDisputed { session_id, by: participant })
                && final(self).admin == old(self).admin,
    {
        let record = match self.sessions.get(&session_id) {
            Some(r) => *r,
            None => return Err(Error::SessionNotFound),
        };
        if participant != record.mentor && participant != record.learner {
            return Err(Error::Unauthorized);
        }
        self.sessions.insert(session_id, OracleSession { state: SessionState::Disputed, ..record });
        self.events.push(SessionOracleEvent::SessionDisputed { session_id, by: participant });
        Ok(())
    }

    pub open spec fn timeout_outcome(&self, session_id: SymbolId, now: u64) -> Result<(), Error> {
        if !self.sessions@.contains_key(session_id) {
            Err(Error::SessionNotFound)
        } else if now <= self.sessions@[session_id].confirmation_deadline {
            Err(Error::DeadlineNotPassed)
        } else if !self.sessions@[session_id].mentor_confirmed && !self.sessions@[session_id].learner_confirmed
            && now <= self.sessions@[session_id].dispute_deadline {
            Err(Error::NoConfirmations)
        } else {
            Ok(())
        }
    }

    /// After the confirmation deadline, a session confirmed by at least one
    /// participant is completed; one confirmed by neither is disputed once
    /// the dispute deadline has passed.
    pub fn trigger_timeout_release(&mut self, session_id: SymbolId, now: u64, invoker: AccountId) -> (r: Result<(), Error>)
        ensures
            r == old(self).timeout_outcome(session_id, now),
            r is Err ==> *final(self) == *old(self),
            r is Ok ==> {
                let rec = old(self).sessions@[session_id];
                if rec.mentor_confirmed || rec.learner_confirmed {
                    &&& final(self).sessions@ == old(self).sessions@.insert(
                        session_id,
                        OracleSession { state: SessionState::Completed, completed_at: now, ..rec },
                    )
                    &&& final(self).events@ == old(self).events@.push(SessionOracleEvent::EscrowReleaseReady {
                        session_id,
                        escrow_id: rec.escrow_id,
                    }).push(SessionOracleEvent::ConfirmationTimeout {
                        session_id,
                        confirmed_by: if rec.mentor_confirmed { rec.mentor } else { rec.learner },
                    })
                    &&& final(self).admin == old(self).admin
                } else {
                    &&& final(self).sessions@ == old(self).sessions@.insert(
                        session_id,
                        OracleSession { state: SessionState::Disputed, ..rec },
                    )
                    &&& final(self).events@ == old(self).events@.push(SessionOracleEvent::SessionDisputed { session_id, by: invoker })
                    &&& final(self).admin == old(self).admin
                }
            },
    {
        let record = match self.sessions.get(&session_id) {
            Some(r) => *r,
            None => return Err(Error::SessionNotFound),
        };
        if now <= record.confirmation_deadline {
            return Err(Error::DeadlineNotPassed);
        }
        let confirmed_by = if record.mentor_confirmed {
            record.mentor
        } else if record.learner_confirmed {
            record.learner
        } else {
            if now > record.dispute_deadline {
                self.sessions.insert(session_id, OracleSession { state: SessionState::Disputed, ..record });
                self.events.push(SessionOracleEvent::SessionDisputed { session_id, by: invoker });
                return Ok(());
            } else {
                return Err(Error::NoConfirmations);
            }
        };
        self.sessions.insert(session_id, OracleSession { state: SessionState::Completed, completed_at: now, ..record });
        self.events.push(SessionOracleEvent::EscrowReleaseReady { session_id, escrow_id: record.escrow_id });
        self.events.push(SessionOracleEvent::ConfirmationTimeout { session_id, confirmed_by });
        Ok(())
    }

    pub fn get_session(&self, session_id: SymbolId) -> (r: Result<OracleSession, Error>)
        ensures
            r == (if self.sessions@.contains_key(session_id) {
                Ok(self.sessions@[session_id])
            } else {
                Err(Error::SessionNotFound)
            }),
    {
        match self.sessions.get(&session_id) {
            Some(r) => Ok(*r),
            None => Err(Error::SessionNotFound),
        }
    }
}


/// A confirmation that completes a session leaves both participants
/// confirmed: the escrow is released on a confirmation only once mentor and
/// learner have both confirmed.
pub proof fn lemma_completion_needs_both(rec: OracleSession, participant: AccountId, now: u64)
    requires
        rec.state != SessionState::Completed,
        confirmed_record(rec, participant, now).state == SessionState::Completed,
    ensures
        confirmed_record(rec, participant, now).mentor_confirmed,
        confirmed_record(rec, participant, now).learner_confirmed,
        confirmed_record(rec, participant, now).completed_at == now,
{
}

/// A disputed session refuses every further confirmation.
pub proof fn lemma_disputed_refuses_confirmation(c: SessionOracleContract, session_id: SymbolId, participant: AccountId)
    requires
        c.sessions@.contains_key(session_id),
        c.sessions@[session_id].state == SessionState::Disputed,
    ensures
        c.confirm_outcome(session_id, participant) == Err::<(), Error>(Error::SessionDisputed),
{
}

/// No timeout release before the confirmation deadline has passed.
pub proof fn lemma_no_release_before_deadline(c: SessionOracleContract, session_id: SymbolId, now: u64)
    requires
        c.sessions@.contains_key(session_id),
        now <= c.sessions@[session_id].confirmation_deadline,
    ensures
        c.timeout_outcome(session_id, now) == Err::<(), Error>(Error::DeadlineNotPassed),
{
}

} // verus!
