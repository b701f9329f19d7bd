//! Pause guardian: an admin pause switch, a circuit breaker that pauses
//! after consecutive failures, and the yield-integration health flags that
//! decide whether callers take the fallback path.
use vstd::prelude::*;

use crate::common::AccountId;

verus! {

/// Consecutive failures that trip the circuit breaker.
pub const CIRCUIT_THRESHOLD: u32 = 3;
/// Minimum seconds between recorded health checks.
pub const HEALTH_CHECK_INTERVAL: u64 = 300;

#[derive(Clone, Copy, Debug, PartialEq, Eq, Structural)]
pub struct YieldHealth {
    /// Whether the breaker is not tripped (not paused).
    pub operational: bool,
    pub failure_count: u32,
    pub threshold: u32,
    pub interface_validated: bool,
    /// Time of the last recorded health check (0 if never).
    pub last_checked_at: u64,
}

#[derive(Clone, Copy, Debug, PartialEq, Eq, Structural)]
pub enum GuardianError {
    AlreadyInitialized,
    NotInitialized,
    Unauthorized,
    YieldContractNotRegistered,
}

#[derive(Clone, Copy, Debug, PartialEq, Eq, Structural)]
pub enum GuardianEvent {
    Initialized { admin: AccountId },
    Paused { value: bool },
    CircuitTripped { failures: u32 },
    FailuresReset,
    YieldContractSet { yield_contract: AccountId },
    InterfaceValidated,
    HealthChecked { at: u64 },
}

#[derive(Clone, Copy, Debug, PartialEq, Eq, Structural)]
pub struct PauseGuardian {
    pub admin: Option<AccountId>,
    pub paused: bool,
    pub failures: u32,
    pub yield_contract: Option<AccountId>,
    pub interface_validated: bool,
    pub health_checked_at: u64,
}

/// The guardian after one more failure: the count saturates, and from
/// `CIRCUIT_THRESHOLD` failures on it is paused.
pub open spec fn after_failure(g: PauseGuardian) -> PauseGuardian {
    let next = g.failures.saturating_add(1);
    PauseGuardian { failures: next, paused: g.paused || next >= CIRCUIT_THRESHOLD, ..g }
}

impl PauseGuardian {
    pub fn new() -> (r: Self)
        ensures
            r == (PauseGuardian {
                admin: None,
                paused: false,
                failures: 0,
                yield_contract: None,
                interface_validated: false,
                health_checked_at: 0,
            }),
    {
        PauseGuardian {
            admin: None,
            paused: false,
            failures: 0,
            yield_contract: None,
            interface_validated: false,
            health_checked_at: 0,
        }
    }

    pub fn initialize(&mut self, admin: AccountId) -> (r: Result<GuardianEvent, GuardianError>)
        ensures
            old(self).admin is Some ==> r == Err::<GuardianEvent, GuardianError>(GuardianError::AlreadyInitialized)
                && *final(self) == *old(self),
            old(self).admin is None ==> r == Ok::<GuardianEvent, GuardianError>(GuardianEvent::Initialized { admin })
                && *final(self) == (PauseGuardian {
                admin: Some(admin),
                paused: false,
                failures: 0,
                interface_validated: false,
                ..*old(self)
            }),
    {
        if self.admin.is_some() {
            return Err(GuardianError::AlreadyInitialized);
        }
        self.admin = Some(admin);
        self.paused = false;
        self.failures = 0;
        self.interface_validated = false;
        Ok(GuardianEvent::Initialized { admin })
    }

    pub open spec fn admin_check(&self, caller: AccountId) -> Result<(), GuardianError> {
        match self.admin {
            None => Err(GuardianError::NotInitialized),
            Some(a) => if a == caller { Ok(()) } else { Err(GuardianError::Unauthorized) },
        }
    }

    fn require_admin(&self, caller: AccountId) -> (r: Result<(), GuardianError>)
        ensures
            r == self.admin_check(caller),
    {
        match self.admin {
            None => Err(GuardianError::NotInitialized),
            Some(a) => if a == caller { Ok(()) } else { Err(GuardianError::Unauthorized) },
        }
    }

    /// Pause or unpause; unpausing also clears the failure count.
    pub fn set_paused(&mut self, caller: AccountId, value: bool) -> (r: Result<GuardianEvent, GuardianError>)
        ensures
            old(self).admin_check(caller) is Err ==> r == Err::<GuardianEvent, GuardianError>(
                old(self).admin_check(caller)->Err_0,
            ) && *final(self) == *old(self),
            old(self).admin_check(caller) is Ok ==> r == Ok::<GuardianEvent, GuardianError>(GuardianEvent::Paused { value })
                && *final(self) == (PauseGuardian {
                paused: value,
                failures: if value { old(self).failures } else { 0 },
                ..*old(self)
            }),
    {
        match self.require_admin(caller) {
            Ok(()) => {},
            Err(e) => return Err(e),
        }
        self.paused = value;
        if !value {
            self.failures = 0;
        }
        Ok(GuardianEvent::Paused { value })
    }

    pub fn is_paused(&self) -> (r: bool)
        ensures
            r == self.paused,
    {
        self.paused
    }

    /// Count a failure (saturating); from `CIRCUIT_THRESHOLD` failures on
    /// the guardian is paused, with an event the first time it trips.
    pub fn record_failure(&mut self) -> (r: Option<GuardianEvent>)
        ensures
            ({
                let next = old(self).failures.saturating_add(1);
                &&& *final(self) == after_failure(*old(self))
                &&& r == (if next >= CIRCUIT_THRESHOLD && !old(self).paused {
                    Some(GuardianEvent::CircuitTripped { failures: next })
                } else {
                    None
                })
            }),
    {
        let next = self.failures.saturating_add(1);
        self.failures = next;
        if next >= CIRCUIT_THRESHOLD {
            let was_paused = self.paused;
            self.paused = true;
            if !was_paused {
                return Some(GuardianEvent::CircuitTripped { failures: next });
            }
        }
        None
    }

    pub fn failure_count(&self) -> (r: u32)
        ensures
            r == self.failures,
    {
        self.failures
    }

    /// Clear the failure count; the pause is left as it is.
    pub fn reset_failures(&mut self, caller: AccountId) -> (r: Result<GuardianEvent, GuardianError>)
        ensures
            old(self).admin_check(caller) is Err ==> r == Err::<GuardianEvent, GuardianError>(
                old(self).admin_check(caller)->Err_0,
            ) && *final(self) == *old(self),
            old(self).admin_check(caller) is Ok ==> r == Ok::<GuardianEvent, GuardianError>(GuardianEvent::FailuresReset)
                && *final(self) == (PauseGuardian { failures: 0, ..*old(self) }),
    {
        match self.require_admin(caller) {
            Ok(()) => {},
            Err(e) => return Err(e),
        }
        self.failures = 0;
        Ok(GuardianEvent::FailuresReset)
    }

    /// Register the yield contract; its interface must be validated anew.
    pub fn set_yield_contract(&mut self, caller: AccountId, yield_contract: AccountId) -> (r: Result<GuardianEvent, GuardianError>)
        ensures
            old(self).admin_check(caller) is Err ==> r == Err::<GuardianEvent, GuardianError>(
                old(self).admin_check(caller)->Err_0,
            ) && *final(self) == *old(self),
            old(self).admin_check(caller) is Ok ==> r == Ok::<GuardianEvent, GuardianError>(
                GuardianEvent::YieldContractSet { yield_contract },
            ) && *final(self) == (PauseGuardian {
                yield_contract: Some(yield_contract),
                interface_validated: false,
                ..*old(self)
            }),
    {
        match self.require_admin(caller) {
            Ok(()) => {},
            Err(e) => return Err(e),
        }
        self.yield_contract = Some(yield_contract);
        self.interface_validated = false;
        Ok(GuardianEvent::YieldContractSet { yield_contract })
    }

    pub fn get_yield_contract(&self) -> (r: Option<AccountId>)
        ensures
            r == self.yield_contract,
    {
        self.yield_contract
    }

    /// Mark the registered yield contract's interface as validated.
    pub fn validate_yield_interface(&mut self, caller: AccountId) -> (r: Result<GuardianEvent, GuardianError>)
        ensures
            r == (if old(self).admin_check(caller) is Err {
                Err(old(self).admin_check(caller)->Err_0)
            } else if old(self).yield_contract is None {
                Err(GuardianError::YieldContractNotRegistered)
            } else {
                Ok(GuardianEvent::InterfaceValidated)
            }),
            r is Err ==> *final(self) == *old(self),
            r is Ok ==> *final(self) == (PauseGuardian { interface_validated: true, ..*old(self) }),
    {
        match self.require_admin(caller) {
            Ok(()) => {},
            Err(e) => return Err(e),
        }
        if self.yield_contract.is_none() {
            return Err(GuardianError::YieldContractNotRegistered);
        }
        self.interface_validated = true;
        Ok(GuardianEvent::InterfaceValidated)
    }

    pub fn is_yield_interface_valid(&self) -> (r: bool)
        ensures
            r == self.interface_validated,
    {
        self.interface_validated
    }

    /// Health snapshot at `now`; records the check when at least
    /// `HEALTH_CHECK_INTERVAL` seconds passed since the last one.
    pub fn check_yield_health(&mut self, now: u64) -> (r: (YieldHealth, Option<GuardianEvent>))
        ensures
            ({
                let record = now.saturating_sub(old(self).health_checked_at) >= HEALTH_CHECK_INTERVAL;
                let at = if record { now } else { old(self).health_checked_at };
                &&& *final(self) == (PauseGuardian { health_checked_at: at, ..*old(self) })
                &&& r.0 == (YieldHealth {
                    operational: !old(self).paused,
                    failure_count: old(self).failures,
                    threshold: CIRCUIT_THRESHOLD,
                    interface_validated: old(self).interface_validated,
                    last_checked_at: at,
                })
                &&& r.1 == (if record { Some(GuardianEvent::HealthChecked { at: now }) } else { None })
            }),
    {
        let mut event = None;
        if now.saturating_sub(self.health_checked_at) >= HEALTH_CHECK_INTERVAL {
            self.health_checked_at = now;
            event = Some(GuardianEvent::HealthChecked { at: now });
        }
        let health = YieldHealth {
            operational: !self.paused,
            failure_count: self.failures,
            threshold: CIRCUIT_THRESHOLD,
            interface_validated: self.interface_validated,
            last_checked_at: self.health_checked_at,
        };
        (health, event)
    }

    /// Yield calls take the fallback path when paused or not validated.
    pub fn should_use_fallback(&self) -> (r: bool)
        ensures
            r == (self.paused || !self.interface_validated),
    {
        self.paused || !self.interface_validated
    }
}

/// Once `CIRCUIT_THRESHOLD` failures have been recorded the guardian is
/// paused and yield calls take the fallback path; recording more failures
/// never unpauses it.
pub proof fn lemma_breaker_trips(g: PauseGuardian)
    requires
        g.failures.saturating_add(1) >= CIRCUIT_THRESHOLD || g.paused,
    ensures
        after_failure(g).paused,
        after_failure(g).paused || !after_failure(g).interface_validated,
        after_failure(after_failure(g)).paused,
{
}

} // verus!
