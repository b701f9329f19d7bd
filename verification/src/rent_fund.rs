//! Rent fund: per-contract rent reserves with health estimates, automatic
//! top-up below a threshold, and a low-rent alert.
use vstd::prelude::*;
use std::collections::HashMap;

use crate::common::AccountId;
use crate::oracle_consumer::trunc_div;

verus! {

broadcast use vstd::std_specs::hash::group_hash_axioms;

/// Default alert threshold: 3 months of rent.
pub const DEFAULT_ALERT_THRESHOLD_MONTHS: u32 = 3;
/// Default monthly rent estimate: 0.1 XLM in stroops.
pub const DEFAULT_MONTHLY_RENT_STROOPS: i128 = 1_000_000;

#[derive(Clone, Copy, Debug, PartialEq, Eq, Structural)]
pub struct RentHealth {
    pub balance_xlm: i128,
    pub estimated_months_remaining: u32,
    pub alert_threshold_months: u32,
}

#[derive(Clone, Copy, Debug, PartialEq, Eq, Structural)]
pub enum RentError {
    NotInitialized,
    NotAdmin,
    NonPositiveAmount,
    NonPositiveEstimate,
}

#[derive(Clone, Copy, Debug, PartialEq, Eq, Structural)]
pub enum RentEvent {
    Deposit { contract_address: AccountId, funder: AccountId, amount: i128 },
    TopUp { contract_address: AccountId, amount: i128 },
    RentLow { contract_address: AccountId, balance: i128, months_remaining: u32 },
}

pub struct RentFund {
    pub admin: Option<AccountId>,
    pub alert_threshold_months: Option<u32>,
    pub balances: HashMap<AccountId, i128>,
    pub topup_thresholds: HashMap<AccountId, i128>,
    pub monthly_estimates: HashMap<AccountId, i128>,
    pub events: Vec<RentEvent>,
}

/// Whole months of rent `balance` covers at `monthly` per month (the
/// quotient truncated and cut to 32 bits); `u32::MAX` for a non-positive
/// estimate.
pub open spec fn months_remaining(balance: i128, monthly: i128) -> u32 {
    if monthly > 0 { trunc_div(balance as int, monthly as int) as u32 } else { u32::MAX }
}

fn months_of(balance: i128, monthly: i128) -> (r: u32)
    ensures
        r == months_remaining(balance, monthly),
{
    if monthly > 0 {
        let q: i128 = match balance.checked_div(monthly) {
            Some(v) => v,
            None => 0,
        };
        #[verifier::truncate]
        (q as u32)
    } else {
        u32::MAX
    }
}

impl RentFund {
    pub open spec fn balance_of(&self, c: AccountId) -> i128 {
        if self.balances@.contains_key(c) { self.balances@[c] } else { 0 }
    }

    pub open spec fn estimate_of(&self, c: AccountId) -> i128 {
        if self.monthly_estimates@.contains_key(c) { self.monthly_estimates@[c] } else { DEFAULT_MONTHLY_RENT_STROOPS }
    }

    pub open spec fn threshold_of(&self, c: AccountId) -> i128 {
        if self.topup_thresholds@.contains_key(c) {
            self.topup_thresholds@[c]
        } else {
            (DEFAULT_MONTHLY_RENT_STROOPS * 3) as i128
        }
    }

    pub open spec fn alert_months(&self) -> u32 {
        match self.alert_threshold_months {
            Some(m) => m,
            None => DEFAULT_ALERT_THRESHOLD_MONTHS,
        }
    }

    pub fn new() -> (r: Self)
        ensures
            r.admin is None,
            r.alert_threshold_months is None,
            r.balances@ == Map::<AccountId, i128>::empty(),
            r.events@.len() == 0,
    {
        RentFund {
            admin: None,
            alert_threshold_months: None,
            balances: HashMap::new(),
            topup_thresholds: HashMap::new(),
            monthly_estimates: HashMap::new(),
            events: Vec::new(),
        }
    }

    /// Set the admin (re-initialising replaces it) and the default alert
    /// threshold.
    pub fn init(&mut self, admin: AccountId)
        ensures
            *final(self) == (RentFund {
                admin: Some(admin),
                alert_threshold_months: Some(DEFAULT_ALERT_THRESHOLD_MONTHS),
                ..*old(self)
            }),
    {
        self.admin = Some(admin);
        self.alert_threshold_months = Some(DEFAULT_ALERT_THRESHOLD_MONTHS);
    }

    /// Add a positive amount to a contract's reserve.
    pub fn deposit_rent(&mut self, funder: AccountId, contract_address: AccountId, xlm_amount: i128) -> (r: Result<(), RentError>)
        requires
            xlm_amount > 0 ==> old(self).balance_of(contract_address) + xlm_amount <= i128::MAX,
        ensures
            xlm_amount <= 0 ==> r == Err::<(), RentError>(RentError::NonPositiveAmount) && *final(self) == *old(self),
            xlm_amount > 0 ==> r is Ok && final(self).balances@ == old(self).balances@.insert(
                contract_address,
                (old(self).balance_of(contract_address) + xlm_amount) as i128,
            ) && final(self).events@ == old(self).events@.push(RentEvent::Deposit { contract_address, funder, amount: xlm_amount })
                && *final(self) == (RentFund { balances: final(self).balances, events: final(self).events, ..*old(self) }),
    {
        if xlm_amount <= 0 {
            return Err(RentError::NonPositiveAmount);
        }
        let current = match self.balances.get(&contract_address) {
            Some(v) => *v,
            None => 0,
        };
        self.balances.insert(contract_address, current + xlm_amount);
        self.events.push(RentEvent::Deposit { contract_address, funder, amount: xlm_amount });
        Ok(())
    }

    pub fn check_rent_health(&self, contract_address: AccountId) -> (r: RentHealth)
        ensures
            r == (RentHealth {
                balance_xlm: self.balance_of(contract_address),
                estimated_months_remaining: months_remaining(
                    self.balance_of(contract_address),
                    self.estimate_of(contract_address),
                ),
                alert_threshold_months: self.alert_months(),
            }),
    {
        let balance = match self.balances.get(&contract_address) {
            Some(v) => *v,
            None => 0,
        };
        let monthly = match self.monthly_estimates.get(&contract_address) {
            Some(v) => *v,
            None => DEFAULT_MONTHLY_RENT_STROOPS,
        };
        let alert = match self.alert_threshold_months {
            Some(m) => m,
            None => DEFAULT_ALERT_THRESHOLD_MONTHS,
        };
        RentHealth { balance_xlm: balance, estimated_months_remaining: months_of(balance, monthly), alert_threshold_months: alert }
    }

    /// Top a reserve below its threshold up to one month above it; returns
    /// whether a top-up happened. A low-rent alert is published when the
    /// new balance still covers fewer months than the alert threshold.
    pub fn auto_topup(&mut self, contract_address: AccountId) -> (r: bool)
        requires
            old(self).balance_of(contract_address) < old(self).threshold_of(contract_address) ==> {
                &&& old(self).threshold_of(contract_address) - old(self).balance_of(contract_address)
                    + DEFAULT_MONTHLY_RENT_STROOPS <= i128::MAX
                &&& old(self).threshold_of(contract_address) + DEFAULT_MONTHLY_RENT_STROOPS <= i128::MAX
            },
        ensures
            ({
                let balance = old(self).balance_of(contract_address);
                let threshold = old(self).threshold_of(contract_address);
                let amount = threshold - balance + DEFAULT_MONTHLY_RENT_STROOPS;
                let new_balance = (threshold + DEFAULT_MONTHLY_RENT_STROOPS) as i128;
                let months = months_remaining(new_balance, old(self).estimate_of(contract_address));
                if balance >= threshold {
                    !r && *final(self) == *old(self)
                } else {
                    &&& r
                    &&& final(self).balances@ == old(self).balances@.insert(contract_address, new_balance)
                    &&& final(self).events@ == old(self).events@ + (if months < old(self).alert_months() {
                        seq![RentEvent::RentLow { contract_address, balance: new_balance, months_remaining: months }]
                    } else {
                        Seq::<RentEvent>::empty()
                    }) + seq![RentEvent::TopUp { contract_address, amount: amount as i128 }]
                    &&& *final(self) == (RentFund { balances: final(self).balances, events: final(self).events, ..*old(self) })
                }
            }),
    {
        let balance = match self.balances.get(&contract_address) {
            Some(v) => *v,
            None => 0,
        };
        let threshold = match self.topup_thresholds.get(&contract_address) {
            Some(v) => *v,
            None => DEFAULT_MONTHLY_RENT_STROOPS * 3,
        };
        if balance >= threshold {
            return false;
        }
        let ghost old_events = self.events@;
        let topup_amount = threshold - balance + DEFAULT_MONTHLY_RENT_STROOPS;
        let new_balance = balance + topup_amount;
        self.balances.insert(contract_address, new_balance);
        let monthly = match self.monthly_estimates.get(&contract_address) {
            Some(v) => *v,
            None => DEFAULT_MONTHLY_RENT_STROOPS,
        };
        let alert = match self.alert_threshold_months {
            Some(m) => m,
            None => DEFAULT_ALERT_THRESHOLD_MONTHS,
        };
        let months = months_of(new_balance, monthly);
        if months < alert {
            self.events.push(RentEvent::RentLow { contract_address, balance: new_balance, months_remaining: months });
        }
        self.events.push(RentEvent::TopUp { contract_address, amount: topup_amount });
        proof {
            let ev = if months < alert {
                seq![RentEvent::RentLow { contract_address, balance: new_balance, months_remaining: months }]
            } else {
                Seq::<RentEvent>::empty()
            };
            assert(self.events@ =~= old_events + ev + seq![RentEvent::TopUp { contract_address, amount: topup_amount }]);
        }
        true
    }

    pub open spec fn admin_check(&self, admin: AccountId) -> Result<(), RentError> {
        match self.admin {
            None => Err(RentError::NotInitialized),
            Some(a) => if a == admin { Ok(()) } else { Err(RentError::NotAdmin) },
        }
    }

    pub fn set_auto_topup_threshold(&mut self, admin: AccountId, contract_address: AccountId, threshold: i128) -> (r: Result<(), RentError>)
        ensures
            r == old(self).admin_check(admin),
            r is Err ==> *final(self) == *old(self),
            r is Ok ==> final(self).topup_thresholds@ == old(self).topup_thresholds@.insert(contract_address, threshold)
                && *final(self) == (RentFund { topup_thresholds: final(self).topup_thresholds, ..*old(self) }),
    {
        match self.admin {
            None => return Err(RentError::NotInitialized),
            Some(a) => if a != admin {
                return Err(RentError::NotAdmin);
            },
        }
        self.topup_thresholds.insert(contract_address, threshold);
        Ok(())
    }

    pub fn set_monthly_rent_estimate(&mut self, admin: AccountId, contract_address: AccountId, estimate: i128) -> (r: Result<(), RentError>)
        ensures
            r == (if old(self).admin_check(admin) is Err {
                old(self).admin_check(admin)
            } else if estimate <= 0 {
                Err(RentError::NonPositiveEstimate)
            } else {
                Ok(())
            }),
            r is Err ==> *final(self) == *old(self),
            r is Ok ==> final(self).monthly_estimates@ == old(self).monthly_estimates@.insert(contract_address, estimate)
                && *final(self) == (RentFund { monthly_estimates: final(self).monthly_estimates, ..*old(self) }),
    {
        match self.admin {
            None => return Err(RentError::NotInitialized),
            Some(a) => if a != admin {
                return Err(RentError::NotAdmin);
            },
        }
        if estimate <= 0 {
            return Err(RentError::NonPositiveEstimate);
        }
        self.monthly_estimates.insert(contract_address, estimate);
        Ok(())
    }

    pub fn get_balance(&self, contract_address: AccountId) -> (r: i128)
        ensures
            r == self.balance_of(contract_address),
    {
        match self.balances.get(&contract_address) {
            Some(v) => *v,
            None => 0,
        }
    }
}

} // verus!
