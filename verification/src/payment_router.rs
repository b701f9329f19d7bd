//! Payment router: routes a payment from a supported chain into an escrow,
//! with a token whitelist, replay protection per source transaction, a
//! routing fee, and timelocked changes of the escrow and bridge contracts.
//!
//! Routing is split around its calls into other contracts: `plan_route`
//! runs the router's own checks and says which outside checks and transfers
//! are owed, `settle_route_checks` judges their answers, and `record_route`
//! stores the route once the escrow exists.
use vstd::prelude::*;
use std::collections::HashMap;

use crate::common::{AccountId, Hash32};
use crate::oracle_consumer::trunc_div;

verus! {

broadcast use vstd::std_specs::hash::group_hash_axioms;

pub const CHAIN_STELLAR: u32 = 0;
pub const CHAIN_ETHEREUM: u32 = 2;
pub const CHAIN_SOLANA: u32 = 1;
pub const CHAIN_BSC: u32 = 4;
/// Maximum deviation (bps) between the oracle TWAP and spot price allowed
/// for a routed payment.
pub const ORACLE_PRICE_DEVIATION_BPS: i128 = 500;
/// Delay requested from the timelock for contract-address changes: 48 hours.
pub const TIMELOCK_DELAY_SECS: u64 = 172_800;

#[derive(Clone, Copy, Debug, PartialEq, Eq, Structural)]
pub enum RouterError {
    AlreadyInitialized,
    NotInitialized,
    Unauthorized,
    TokenNotApproved,
    ChainNotSupported,
    BridgeNotVerified,
    AlreadyRouted,
    InvalidAmount,
    PriceManipulated,
    InsufficientBalance,
    TreasuryNotSet,
    FeeTooHigh,
    RouteNotFound,
    ChainAlreadySupported,
    CannotRemoveStellar,
    TimelockNotSet,
    MultisigNotSet,
}

#[derive(Clone, Copy, Debug, PartialEq, Eq, Structural)]
pub struct RouterConfig {
    pub admin: AccountId,
    pub escrow_contract: AccountId,
    pub bridge_receiver: AccountId,
    /// When set, routed payments are checked against the oracle's TWAP.
    pub oracle_contract: Option<AccountId>,
}

#[derive(Clone, Copy, Debug, PartialEq, Eq, Structural)]
pub struct PaymentRoute {
    pub escrow_id: u64,
    pub source_chain: u32,
    pub source_tx_hash: Hash32,
    pub learner: AccountId,
    pub mentor: AccountId,
    /// Amount routed into the escrow, net of the routing fee.
    pub amount: i128,
    pub token: AccountId,
    pub created_at: u64,
}

/// The outcome of the router's own checks on a payment: the fee split and
/// the outside checks and transfers still owed.
#[derive(Clone, Copy, Debug, PartialEq, Eq, Structural)]
pub struct RoutePlan {
    pub source_chain: u32,
    pub source_tx_hash: Hash32,
    pub learner: AccountId,
    pub mentor: AccountId,
    pub amount: i128,
    pub token: AccountId,
    pub fee: i128,
    pub net_amount: i128,
    /// Sequence number naming the escrow's session (`RT_<seq>`).
    pub session_seq: u64,
    pub escrow_contract: AccountId,
    /// Oracle to consult for price manipulation, if configured.
    pub oracle: Option<AccountId>,
}

/// Which contract-address setter a timelocked schedule targets.
#[derive(Clone, Copy, Debug, PartialEq, Eq, Structural)]
pub enum RouterSetter {
    EscrowContract,
    BridgeReceiver,
}

/// A call to schedule on the timelock.
#[derive(Clone, Copy, Debug, PartialEq, Eq, Structural)]
pub struct TimelockSchedule {
    pub timelock: AccountId,
    pub target: AccountId,
    pub setter: RouterSetter,
    pub new_address: AccountId,
    pub delay: u64,
}

#[derive(Clone, Copy, Debug, PartialEq, Eq, Structural)]
pub enum RouterEvent {
    Initialized { admin: AccountId },
    TokenApproval { token: AccountId, approved: bool },
    PaymentRouted { source_chain: u32, source_tx_hash: Hash32, escrow_id: u64, learner: AccountId, mentor: AccountId, amount: i128, token: AccountId },
    EscrowSet { old_escrow: AccountId, new_escrow: AccountId },
    BridgeSet { old_bridge: AccountId, new_bridge: AccountId },
    OracleSet { oracle: AccountId },
}

/// Routing fee of `amount` at `fee_bps`: `amount * fee_bps / 10_000`
/// truncated toward zero, 0 when the product overflows or the rate is 0.
pub open spec fn fee_spec(amount: i128, fee_bps: u32) -> i128 {
    if fee_bps == 0 {
        0
    } else if i128::MIN <= amount * fee_bps <= i128::MAX {
        trunc_div(amount * fee_bps, 10_000) as i128
    } else {
        0
    }
}

pub struct PaymentRouter {
    pub contract_address: AccountId,
    pub config: Option<RouterConfig>,
    pub supported_chains: Vec<u32>,
    pub approved_tokens: HashMap<AccountId, bool>,
    pub fee_bps: u32,
    pub treasury: Option<AccountId>,
    pub timelock: Option<AccountId>,
    pub multisig: Option<AccountId>,
    /// Routed payments, in routing order; a transaction hash appears once.
    pub routes: Vec<PaymentRoute>,
    pub route_counter: u64,
    pub events: Vec<RouterEvent>,
}

fn trunc_div_by_bps(x: i128) -> (r: i128)
    ensures
        r == trunc_div(x as int, 10_000),
{
    match x.checked_div(10_000) {
        Some(q) => q,
        None => 0,
    }
}

impl PaymentRouter {
    pub open spec fn processed(&self, h: Hash32) -> bool {
        exists|i: int| 0 <= i < self.routes@.len() && #[trigger] self.routes@[i].source_tx_hash == h
    }

    pub open spec fn approved(&self, token: AccountId) -> bool {
        self.approved_tokens@.contains_key(token) && self.approved_tokens@[token]
    }

    pub open spec fn wf(&self) -> bool {
        &&& self.fee_bps <= 10_000
        &&& forall|i: int, j: int|
            0 <= i < j < self.routes@.len() ==> #[trigger] self.routes@[i].source_tx_hash
                != #[trigger] self.routes@[j].source_tx_hash
    }

    pub fn new(contract_address: AccountId) -> (r: Self)
        ensures
            r.wf(),
            r.config is None,
            r.routes@.len() == 0,
            r.route_counter == 0,
            r.contract_address == contract_address,
    {
        PaymentRouter {
            contract_address,
            config: None,
            supported_chains: Vec::new(),
            approved_tokens: HashMap::new(),
            fee_bps: 0,
            treasury: None,
            timelock: None,
            multisig: None,
            routes: Vec::new(),
            route_counter: 0,
            events: Vec::new(),
        }
    }

    /// Initialize with the admin, the escrow contract and the bridge
    /// receiver; the supported chains start as Stellar, Ethereum, Solana
    /// and BSC.
    pub fn init(&mut self, admin: AccountId, escrow_contract: AccountId, bridge_receiver: AccountId) -> (r: Result<(), RouterError>)
        requires
            old(self).wf(),
        ensures
            final(self).wf(),
            old(self).config is Some ==> r == Err::<(), RouterError>(RouterError::AlreadyInitialized)
                && *final(self) == *old(self),
            old(self).config is None ==> r is Ok && final(self).config == Some(RouterConfig {
                admin,
                escrow_contract,
                bridge_receiver,
                oracle_contract: None,
            }) && final(self).supported_chains@ == seq![CHAIN_STELLAR, CHAIN_ETHEREUM, CHAIN_SOLANA, CHAIN_BSC]
                && final(self).route_counter == 0 && final(self).events@ == old(self).events@.push(
                RouterEvent::Initialized { admin },
            ) && *final(self) == (PaymentRouter {
                config: final(self).config,
                supported_chains: final(self).supported_chains,
                route_counter: 0,
                events: final(self).events,
                ..*old(self)
            }),
    {
        if self.config.is_some() {
            return Err(RouterError::AlreadyInitialized);
        }
        let mut chains: Vec<u32> = Vec::new();
        chains.push(CHAIN_STELLAR);
        chains.push(CHAIN_ETHEREUM);
        chains.push(CHAIN_SOLANA);
        chains.push(CHAIN_BSC);
        self.config = Some(RouterConfig { admin, escrow_contract, bridge_receiver, oracle_contract: None });
        self.supported_chains = chains;
        self.route_counter = 0;
        self.events.push(RouterEvent::Initialized { admin });
        Ok(())
    }

    pub open spec fn admin_check(&self, caller: AccountId) -> Result<(), RouterError> {
        match self.config {
            None => Err(RouterError::NotInitialized),
            Some(c) => if c.admin == caller { Ok(()) } else { Err(RouterError::Unauthorized) },
        }
    }

    fn require_admin(&self, caller: AccountId) -> (r: Result<(), RouterError>)
        ensures
            r == self.admin_check(caller),
    {
        match self.config {
            None => Err(RouterError::NotInitialized),
            Some(c) => if c.admin == caller { Ok(()) } else { Err(RouterError::Unauthorized) },
        }
    }

    /// Add a token to, or remove it from, the routing whitelist.
    pub fn set_approved_token(&mut self, caller: AccountId, token_address: AccountId, approved: bool) -> (r: Result<(), RouterError>)
        requires
            old(self).wf(),
        ensures
            final(self).wf(),
            r == old(self).admin_check(caller),
            r is Err ==> *final(self) == *old(self),
            r is Ok ==> final(self).approved_tokens@ == old(self).approved_tokens@.insert(token_address, approved)
                && final(self).events@ == old(self).events@.push(RouterEvent::TokenApproval { token: token_address, approved })
                && *final(self) == (PaymentRouter {
                approved_tokens: final(self).approved_tokens,
                events: final(self).events,
                ..*old(self)
            }),
    {
        match self.require_admin(caller) {
            Ok(()) => {},
            Err(e) => return Err(e),
        }
        self.approved_tokens.insert(token_address, approved);
        self.events.push(RouterEvent::TokenApproval { token: token_address, approved });
        Ok(())
    }

    pub fn is_token_approved(&self, token_address: AccountId) -> (r: bool)
        ensures
            r == self.approved(token_address),
    {
        match self.approved_tokens.get(&token_address) {
            Some(b) => *b,
            None => false,
        }
    }

    fn chain_supported(&self, chain: u32) -> (r: bool)
        ensures
            r == self.supported_chains@.contains(chain),
    {
        let mut i: usize = 0;
        while i < self.supported_chains.len()
            invariant
                i <= self.supported_chains@.len(),
                forall|j: int| 0 <= j < i ==> self.supported_chains@[j] != chain,
            decreases self.supported_chains@.len() - i,
        {
            if self.supported_chains[i] == chain {
                return true;
            }
            i = i + 1;
        }
        false
    }

    fn find_route(&self, h: Hash32) -> (r: Option<usize>)
        ensures
            r is None ==> !self.processed(h),
            r is Some ==> r->0 < self.routes@.len() && self.routes@[r->0 as int].source_tx_hash == h,
    {
        let mut i: usize = 0;
        while i < self.routes.len()
            invariant
                i <= self.routes@.len(),
                forall|j: int| 0 <= j < i ==> self.routes@[j].source_tx_hash != h,
            decreases self.routes@.len() - i,
        {
            if self.routes[i].source_tx_hash == h {
                return Some(i);
            }
            i = i + 1;
        }
        None
    }

    /// Routing fee for `amount` at the configured rate.
    pub fn calculate_fee(&self, amount: i128) -> (r: i128)
        ensures
            r == fee_spec(amount, self.fee_bps),
    {
        if self.fee_bps > 0 {
            match amount.checked_mul(self.fee_bps as i128) {
                Some(p) => trunc_div_by_bps(p),
                None => 0,
            }
        } else {
            0
        }
    }

    /// Outcome of the router's own checks on a payment, in the contract's
    /// order; `bridge_verified` is the bridge receiver's answer for bridged
    /// payments.
    pub open spec fn plan_outcome(
        &self,
        source_chain: u32,
        tx_hash: Hash32,
        amount: i128,
        token: AccountId,
        bridge_verified: bool,
    ) -> Result<(), RouterError> {
        if !self.approved(token) {
            Err(RouterError::TokenNotApproved)
        } else if self.config is None {
            Err(RouterError::NotInitialized)
        } else if !self.supported_chains@.contains(source_chain) {
            Err(RouterError::ChainNotSupported)
        } else if source_chain != CHAIN_STELLAR && !bridge_verified {
            Err(RouterError::BridgeNotVerified)
        } else if self.processed(tx_hash) {
            Err(RouterError::AlreadyRouted)
        } else if amount <= 0 {
            Err(RouterError::InvalidAmount)
        } else {
            Ok(())
        }
    }

    /// Run the router's own checks on a payment and compute the fee split.
    /// Each refusal is returned as an error and stores nothing; the ledger
    /// entry point aborts the invocation on it.
    pub fn plan_route(
        &self,
        source_chain: u32,
        source_tx_hash: Hash32,
        learner: AccountId,
        mentor: AccountId,
        amount: i128,
        token: AccountId,
        bridge_verified: bool,
    ) -> (r: Result<RoutePlan, RouterError>)
        requires
            self.wf(),
        ensures
            self.plan_outcome(source_chain, source_tx_hash, amount, token, bridge_verified) is Err ==> r
                == Err::<RoutePlan, RouterError>(
                self.plan_outcome(source_chain, source_tx_hash, amount, token, bridge_verified)->Err_0,
            ),
            self.plan_outcome(source_chain, source_tx_hash, amount, token, bridge_verified) is Ok ==> r
                == Ok::<RoutePlan, RouterError>(RoutePlan {
                source_chain,
                source_tx_hash,
                learner,
                mentor,
                amount,
                token,
                fee: fee_spec(amount, self.fee_bps),
                net_amount: (amount - fee_spec(amount, self.fee_bps)) as i128,
                session_seq: self.route_counter,
                escrow_contract: self.config->0.escrow_contract,
                oracle: self.config->0.oracle_contract,
            }),
            r is Ok ==> 0 <= r->Ok_0.fee <= r->Ok_0.amount && 0 <= r->Ok_0.net_amount <= r->Ok_0.amount,
    {
        if !self.is_token_approved(token) {
            return Err(RouterError::TokenNotApproved);
        }
        let config = match self.config {
            Some(c) => c,
            None => return Err(RouterError::NotInitialized),
        };
        if !self.chain_supported(source_chain) {
            return Err(RouterError::ChainNotSupported);
        }
        if source_chain != CHAIN_STELLAR && !bridge_verified {
            return Err(RouterError::BridgeNotVerified);
        }
        if self.find_route(source_tx_hash).is_some() {
            return Err(RouterError::AlreadyRouted);
        }
        if amount <= 0 {
            return Err(RouterError::InvalidAmount);
        }
        let fee = self.calculate_fee(amount);
        proof {
            if self.fee_bps > 0 {
                assert(0 <= amount * self.fee_bps <= amount * 10_000) by (nonlinear_arith)
                    requires
                        amount > 0,
                        0 < self.fee_bps <= 10_000,
                ;
                assert(0 <= trunc_div(amount * self.fee_bps, 10_000) <= amount) by (nonlinear_arith)
                    requires
                        0 <= amount * self.fee_bps <= amount * 10_000,
                        trunc_div(amount * self.fee_bps, 10_000) == (amount * self.fee_bps) / 10_000,
                ;
            }
        }
        let net_amount = amount - fee;
        Ok(RoutePlan {
            source_chain,
            source_tx_hash,
            learner,
            mentor,
            amount,
            token,
            fee,
            net_amount,
            session_seq: self.route_counter,
            escrow_contract: config.escrow_contract,
            oracle: config.oracle_contract,
        })
    }

    /// Judge the outside answers on a planned payment: the oracle's
    /// manipulation verdict (when an oracle is configured and tracks the
    /// token) and, for a direct Stellar payment, the learner's balance and
    /// the treasury that receives a positive fee. On success hands back
    /// the treasury to pay the fee to, if one is owed.
    pub fn settle_route_checks(&self, plan: RoutePlan, price_manipulated: bool, learner_balance: i128) -> (r: Result<Option<AccountId>, RouterError>)
        ensures
            r == (if price_manipulated {
                Err(RouterError::PriceManipulated)
            } else if plan.source_chain == CHAIN_STELLAR && learner_balance < plan.amount {
                Err(RouterError::InsufficientBalance)
            } else if plan.source_chain == CHAIN_STELLAR && plan.fee > 0 {
                match self.treasury {
                    Some(t) => Ok(Some(t)),
                    None => Err(RouterError::TreasuryNotSet),
                }
            } else {
                Ok(None)
            }),
    {
        if price_manipulated {
            return Err(RouterError::PriceManipulated);
        }
        if plan.source_chain == CHAIN_STELLAR {
            if learner_balance < plan.amount {
                return Err(RouterError::InsufficientBalance);
            }
            if plan.fee > 0 {
                return match self.treasury {
                    Some(t) => Ok(Some(t)),
                    None => Err(RouterError::TreasuryNotSet),
                };
            }
        }
        Ok(None)
    }

    /// Store the route of a planned payment once the escrow contract has
    /// created escrow `escrow_id`, and count it.
    pub fn record_route(&mut self, plan: RoutePlan, escrow_id: u64, now: u64) -> (r: u64)
        requires
            old(self).wf(),
            !old(self).processed(plan.source_tx_hash),
            old(self).route_counter < u64::MAX,
        ensures
            final(self).wf(),
            r == escrow_id,
            final(self).processed(plan.source_tx_hash),
            final(self).routes@ == old(self).routes@.push(PaymentRoute {
                escrow_id,
                source_chain: plan.source_chain,
                source_tx_hash: plan.source_tx_hash,
                learner: plan.learner,
                mentor: plan.mentor,
                amount: plan.net_amount,
                token: plan.token,
                created_at: now,
            }),
            final(self).route_counter == old(self).route_counter + 1,
            final(self).events@ == old(self).events@.push(RouterEvent::PaymentRouted {
                source_chain: plan.source_chain,
                source_tx_hash: plan.source_tx_hash,
                escrow_id,
                learner: plan.learner,
                mentor: plan.mentor,
                amount: plan.net_amount,
                token: plan.token,
            }),
            *final(self) == (PaymentRouter {
                routes: final(self).routes,
                route_counter: final(self).route_counter,
                events: final(self).events,
                ..*old(self)
            }),
    {
        let route = PaymentRoute {
            escrow_id,
            source_chain: plan.source_chain,
            source_tx_hash: plan.source_tx_hash,
            learner: plan.learner,
            mentor: plan.mentor,
            amount: plan.net_amount,
            token: plan.token,
            created_at: now,
        };
        let ghost n = self.routes@.len();
        self.routes.push(route);
        assert(self.routes@[n as int].source_tx_hash == plan.source_tx_hash);
        self.route_counter = self.route_counter + 1;
        self.events.push(RouterEvent::PaymentRouted {
            source_chain: plan.source_chain,
            source_tx_hash: plan.source_tx_hash,
            escrow_id,
            learner: plan.learner,
            mentor: plan.mentor,
            amount: plan.net_amount,
            token: plan.token,
        });
        escrow_id
    }

    /// Set the routing fee; more than 10_000 bps is refused.
    pub fn set_fee_bps(&mut self, caller: AccountId, fee_bps: u32) -> (r: Result<(), RouterError>)
        requires
            old(self).wf(),
        ensures
            final(self).wf(),
            r == (if old(self).admin_check(caller) is Err {
                old(self).admin_check(caller)
            } else if fee_bps > 10_000 {
                Err(RouterError::FeeTooHigh)
            } else {
                Ok(())
            }),
            r is Err ==> *final(self) == *old(self),
            r is Ok ==> *final(self) == (PaymentRouter { fee_bps, ..*old(self) }),
    {
        match self.require_admin(caller) {
            Ok(()) => {},
            Err(e) => return Err(e),
        }
        if fee_bps > 10_000 {
            return Err(RouterError::FeeTooHigh);
        }
        self.fee_bps = fee_bps;
        Ok(())
    }

    pub fn set_treasury(&mut self, caller: AccountId, treasury: AccountId) -> (r: Result<(), RouterError>)
        requires
            old(self).wf(),
        ensures
            final(self).wf(),
            r == old(self).admin_check(caller),
            r is Err ==> *final(self) == *old(self),
            r is Ok ==> *final(self) == (PaymentRouter { treasury: Some(treasury), ..*old(self) }),
    {
        match self.require_admin(caller) {
            Ok(()) => {},
            Err(e) => return Err(e),
        }
        self.treasury = Some(treasury);
        Ok(())
    }

    pub fn get_fee_bps(&self) -> (r: u32)
        ensures
            r == self.fee_bps,
    {
        self.fee_bps
    }

    pub fn get_treasury(&self) -> (r: Result<AccountId, RouterError>)
        ensures
            r == (match self.treasury {
                Some(t) => Ok(t),
                None => Err(RouterError::TreasuryNotSet),
            }),
    {
        match self.treasury {
            Some(t) => Ok(t),
            None => Err(RouterError::TreasuryNotSet),
        }
    }

    /// The escrow created for source transaction `source_tx_hash`.
    pub fn get_route(&self, source_tx_hash: Hash32) -> (r: Result<u64, RouterError>)
        requires
            self.wf(),
        ensures
            !self.processed(source_tx_hash) ==> r == Err::<u64, RouterError>(RouterError::RouteNotFound),
            self.processed(source_tx_hash) ==> r is Ok && exists|i: int|
                0 <= i < self.routes@.len() && self.routes@[i].source_tx_hash == source_tx_hash
                    && #[trigger] self.routes@[i].escrow_id == r->Ok_0,
    {
        match self.find_route(source_tx_hash) {
            Some(i) => Ok(self.routes[i].escrow_id),
            None => Err(RouterError::RouteNotFound),
        }
    }

    /// The full route of source transaction `source_tx_hash`.
    pub fn get_route_details(&self, source_tx_hash: Hash32) -> (r: Result<PaymentRoute, RouterError>)
        requires
            self.wf(),
        ensures
            !self.processed(source_tx_hash) ==> r == Err::<PaymentRoute, RouterError>(RouterError::RouteNotFound),
            self.processed(source_tx_hash) ==> r is Ok && r->Ok_0.source_tx_hash == source_tx_hash
                && self.routes@.contains(r->Ok_0),
    {
        match self.find_route(source_tx_hash) {
            Some(i) => Ok(self.routes[i]),
            None => Err(RouterError::RouteNotFound),
        }
    }

    pub fn is_tx_processed(&self, source_tx_hash: Hash32) -> (r: bool)
        ensures
            r == self.processed(source_tx_hash),
    {
        self.find_route(source_tx_hash).is_some()
    }

    pub fn get_supported_chains(&self) -> (r: Vec<u32>)
        ensures
            r@ == self.supported_chains@,
    {
        let mut out: Vec<u32> = Vec::new();
        let mut i: usize = 0;
        while i < self.supported_chains.len()
            invariant
                i <= self.supported_chains@.len(),
                out@ == self.supported_chains@.subrange(0, i as int),
            decreases self.supported_chains@.len() - i,
        {
            out.push(self.supported_chains[i]);
            i = i + 1;
            assert(out@ == self.supported_chains@.subrange(0, i as int));
        }
        assert(self.supported_chains@.subrange(0, self.supported_chains@.len() as int) == self.supported_chains@);
        out
    }

    pub fn add_supported_chain(&mut self, caller: AccountId, chain_id: u32) -> (r: Result<(), RouterError>)
        requires
            old(self).wf(),
        ensures
            final(self).wf(),
            r == (if old(self).admin_check(caller) is Err {
                old(self).admin_check(caller)
            } else if old(self).supported_chains@.contains(chain_id) {
                Err(RouterError::ChainAlreadySupported)
            } else {
                Ok(())
            }),
            r is Err ==> *final(self) == *old(self),
            r is Ok ==> final(self).supported_chains@ == old(self).supported_chains@.push(chain_id)
                && *final(self) == (PaymentRouter { supported_chains: final(self).supported_chains, ..*old(self) }),
    {
        match self.require_admin(caller) {
            Ok(()) => {},
            Err(e) => return Err(e),
        }
        if self.chain_supported(chain_id) {
            return Err(RouterError::ChainAlreadySupported);
        }
        self.supported_chains.push(chain_id);
        Ok(())
    }

    /// Remove every occurrence of `chain_id` from the supported chains;
    /// Stellar cannot be removed.
    pub fn remove_supported_chain(&mut self, caller: AccountId, chain_id: u32) -> (r: Result<(), RouterError>)
        requires
            old(self).wf(),
        ensures
            final(self).wf(),
            r == (if old(self).admin_check(caller) is Err {
                old(self).admin_check(caller)
            } else if chain_id == CHAIN_STELLAR {
                Err(RouterError::CannotRemoveStellar)
            } else {
                Ok(())
            }),
            r is Err ==> *final(self) == *old(self),
            r is Ok ==> final(self).supported_chains@ == old(self).supported_chains@.filter(|c: u32| c != chain_id)
                && *final(self) == (PaymentRouter { supported_chains: final(self).supported_chains, ..*old(self) }),
    {
        match self.require_admin(caller) {
            Ok(()) => {},
            Err(e) => return Err(e),
        }
        if chain_id == CHAIN_STELLAR {
            return Err(RouterError::CannotRemoveStellar);
        }
        let ghost keep = |c: u32| c != chain_id;
        let mut kept: Vec<u32> = Vec::new();
        let mut i: usize = 0;
        while i < self.supported_chains.len()
            invariant
                i <= self.supported_chains@.len(),
                keep == (|c: u32| c != chain_id),
                kept@ == self.supported_chains@.subrange(0, i as int).filter(keep),
            decreases self.supported_chains@.len() - i,
        {
            let c = self.supported_chains[i];
            proof {
                let s = self.supported_chains@.subrange(0, i + 1);
                assert(s.drop_last() == self.supported_chains@.subrange(0, i as int));
                assert(s.last() == c);
                reveal(Seq::filter);
            }
            if c != chain_id {
                kept.push(c);
            }
            i = i + 1;
        }
        assert(self.supported_chains@.subrange(0, self.supported_chains@.len() as int) == self.supported_chains@);
        self.supported_chains = kept;
        Ok(())
    }

    pub fn set_timelock(&mut self, caller: AccountId, timelock: AccountId) -> (r: Result<(), RouterError>)
        requires
            old(self).wf(),
        ensures
            final(self).wf(),
            r == old(self).admin_check(caller),
            r is Err ==> *final(self) == *old(self),
            r is Ok ==> *final(self) == (PaymentRouter { timelock: Some(timelock), ..*old(self) }),
    {
        match self.require_admin(caller) {
            Ok(()) => {},
            Err(e) => return Err(e),
        }
        self.timelock = Some(timelock);
        Ok(())
    }

    pub fn set_multisig(&mut self, caller: AccountId, multisig: AccountId) -> (r: Result<(), RouterError>)
        requires
            old(self).wf(),
        ensures
            final(self).wf(),
            r == old(self).admin_check(caller),
            r is Err ==> *final(self) == *old(self),
            r is Ok ==> *final(self) == (PaymentRouter { multisig: Some(multisig), ..*old(self) }),
    {
        match self.require_admin(caller) {
            Ok(()) => {},
            Err(e) => return Err(e),
        }
        self.multisig = Some(multisig);
        Ok(())
    }

    pub open spec fn schedule_outcome(&self, caller: AccountId, setter: RouterSetter, new_address: AccountId) -> Result<TimelockSchedule, RouterError> {
        match self.multisig {
            None => Err(RouterError::MultisigNotSet),
            Some(m) => if m != caller {
                Err(RouterError::Unauthorized)
            } else {
                match self.timelock {
                    None => Err(RouterError::TimelockNotSet),
                    Some(t) => Ok(TimelockSchedule {
                        timelock: t,
                        target: self.contract_address,
                        setter,
                        new_address,
                        delay: TIMELOCK_DELAY_SECS,
                    }),
                }
            },
        }
    }

    fn schedule(&self, caller: AccountId, setter: RouterSetter, new_address: AccountId) -> (r: Result<TimelockSchedule, RouterError>)
        ensures
            r == self.schedule_outcome(caller, setter, new_address),
    {
        let multisig = match self.multisig {
            Some(m) => m,
            None => return Err(RouterError::MultisigNotSet),
        };
        if multisig != caller {
            return Err(RouterError::Unauthorized);
        }
        let timelock = match self.timelock {
            Some(t) => t,
            None => return Err(RouterError::TimelockNotSet),
        };
        Ok(TimelockSchedule {
            timelock,
            target: self.contract_address,
            setter,
            new_address,
            delay: TIMELOCK_DELAY_SECS,
        })
    }

    /// The multisig asks the timelock to schedule a change of the escrow
    /// contract after the 48-hour delay; hands back the call to make.
    pub fn schedule_escrow_contract(&self, caller: AccountId, new_escrow: AccountId) -> (r: Result<TimelockSchedule, RouterError>)
        ensures
            r == self.schedule_outcome(caller, RouterSetter::EscrowContract, new_escrow),
    {
        self.schedule(caller, RouterSetter::EscrowContract, new_escrow)
    }

    /// The multisig asks the timelock to schedule a change of the bridge
    /// receiver after the 48-hour delay; hands back the call to make.
    pub fn schedule_bridge_receiver(&self, caller: AccountId, new_bridge: AccountId) -> (r: Result<TimelockSchedule, RouterError>)
        ensures
            r == self.schedule_outcome(caller, RouterSetter::BridgeReceiver, new_bridge),
    {
        self.schedule(caller, RouterSetter::BridgeReceiver, new_bridge)
    }

    pub open spec fn timelock_check(&self, caller: AccountId) -> Result<(), RouterError> {
        match self.timelock {
            None => Err(RouterError::TimelockNotSet),
            Some(t) => if t != caller {
                Err(RouterError::Unauthorized)
            } else if self.config is None {
                Err(RouterError::NotInitialized)
            } else {
                Ok(())
            },
        }
    }

    /// Replace the escrow contract; only the timelock may.
    pub fn set_escrow_contract(&mut self, caller: AccountId, escrow_contract: AccountId) -> (r: Result<(), RouterError>)
        requires
            old(self).wf(),
        ensures
            final(self).wf(),
            r == old(self).timelock_check(caller),
            r is Err ==> *final(self) == *old(self),
            r is Ok ==> final(self).config == Some(RouterConfig { escrow_contract, ..old(self).config->0 })
                && final(self).events@ == old(self).events@.push(RouterEvent::EscrowSet {
                old_escrow: old(self).config->0.escrow_contract,
                new_escrow: escrow_contract,
            }) && *final(self) == (PaymentRouter {
                config: final(self).config,
                events: final(self).events,
                ..*old(self)
            }),
    {
        let timelock = match self.timelock {
            Some(t) => t,
            None => return Err(RouterError::TimelockNotSet),
        };
        if timelock != caller {
            return Err(RouterError::Unauthorized);
        }
        let config = match self.config {
            Some(c) => c,
            None => return Err(RouterError::NotInitialized),
        };
        self.config = Some(RouterConfig { escrow_contract, ..config });
        self.events.push(RouterEvent::EscrowSet { old_escrow: config.escrow_contract, new_escrow: escrow_contract });
        Ok(())
    }

    /// Replace the bridge receiver; only the timelock may.
    pub fn set_bridge_receiver(&mut self, caller: AccountId, bridge_receiver: AccountId) -> (r: Result<(), RouterError>)
        requires
            old(self).wf(),
        ensures
            final(self).wf(),
            r == old(self).timelock_check(caller),
            r is Err ==> *final(self) == *old(self),
            r is Ok ==> final(self).config == Some(RouterConfig { bridge_receiver, ..old(self).config->0 })
                && final(self).events@ == old(self).events@.push(RouterEvent::BridgeSet {
                old_bridge: old(self).config->0.bridge_receiver,
                new_bridge: bridge_receiver,
            }) && *final(self) == (PaymentRouter {
                config: final(self).config,
                events: final(self).events,
                ..*old(self)
            }),
    {
        let timelock = match self.timelock {
            Some(t) => t,
            None => return Err(RouterError::TimelockNotSet),
        };
        if timelock != caller {
            return Err(RouterError::Unauthorized);
        }
        let config = match self.config {
            Some(c) => c,
            None => return Err(RouterError::NotInitialized),
        };
        self.config = Some(RouterConfig { bridge_receiver, ..config });
        self.events.push(RouterEvent::BridgeSet { old_bridge: config.bridge_receiver, new_bridge: bridge_receiver });
        Ok(())
    }

    pub fn set_oracle(&mut self, caller: AccountId, oracle_contract: AccountId) -> (r: Result<(), RouterError>)
        requires
            old(self).wf(),
        ensures
            final(self).wf(),
            r == old(self).admin_check(caller),
            r is Err ==> *final(self) == *old(self),
            r is Ok ==> final(self).config == Some(RouterConfig { oracle_contract: Some(oracle_contract), ..old(self).config->0 })
                && final(self).events@ == old(self).events@.push(RouterEvent::OracleSet { oracle: oracle_contract })
                && *final(self) == (PaymentRouter {
                config: final(self).config,
                events: final(self).events,
                ..*old(self)
            }),
    {
        match self.require_admin(caller) {
            Ok(()) => {},
            Err(e) => return Err(e),
        }
        let config = match self.config {
            Some(c) => c,
            None => return Err(RouterError::NotInitialized),
        };
        self.config = Some(RouterConfig { oracle_contract: Some(oracle_contract), ..config });
        self.events.push(RouterEvent::OracleSet { oracle: oracle_contract });
        Ok(())
    }

    pub fn clear_oracle(&mut self, caller: AccountId) -> (r: Result<(), RouterError>)
        requires
            old(self).wf(),
        ensures
            final(self).wf(),
            r == old(self).admin_check(caller),
            r is Err ==> *final(self) == *old(self),
            r is Ok ==> *final(self) == (PaymentRouter {
                config: Some(RouterConfig { oracle_contract: None, ..old(self).config->0 }),
                ..*old(self)
            }),
    {
        match self.require_admin(caller) {
            Ok(()) => {},
            Err(e) => return Err(e),
        }
        let config = match self.config {
            Some(c) => c,
            None => return Err(RouterError::NotInitialized),
        };
        self.config = Some(RouterConfig { oracle_contract: None, ..config });
        Ok(())
    }

    pub fn get_oracle(&self) -> (r: Result<Option<AccountId>, RouterError>)
        ensures
            r == (match self.config {
                Some(c) => Ok(c.oracle_contract),
                None => Err(RouterError::NotInitialized),
            }),
    {
        match self.config {
            Some(c) => Ok(c.oracle_contract),
            None => Err(RouterError::NotInitialized),
        }
    }

    pub fn get_config(&self) -> (r: Result<RouterConfig, RouterError>)
        ensures
            r == (match self.config {
                Some(c) => Ok(c),
                None => Err(RouterError::NotInitialized),
            }),
    {
        match self.config {
            Some(c) => Ok(c),
            None => Err(RouterError::NotInitialized),
        }
    }

    pub fn get_route_count(&self) -> (r: u64)
        ensures
            r == self.route_counter,
    {
        self.route_counter
    }
}


/// A source transaction is routed at most once: once its hash is recorded,
/// every later attempt to route it is refused.
pub proof fn lemma_replay_refused(
    r: PaymentRouter,
    source_chain: u32,
    tx_hash: Hash32,
    amount: i128,
    token: AccountId,
    bridge_verified: bool,
)
    requires
        r.processed(tx_hash),
    ensures
        r.plan_outcome(source_chain, tx_hash, amount, token, bridge_verified) is Err,
{
}

/// The fee never exceeds the amount and the fee plus the net amount is the
/// whole payment, for every positive amount and admissible rate.
pub proof fn lemma_fee_split_conserves(amount: i128, fee_bps: u32)
    requires
        amount > 0,
        fee_bps <= 10_000,
    ensures
        0 <= fee_spec(amount, fee_bps) <= amount,
        fee_spec(amount, fee_bps) + (amount - fee_spec(amount, fee_bps)) == amount,
{
    if fee_bps > 0 {
        assert(0 <= amount * fee_bps <= amount * 10_000) by (nonlinear_arith)
            requires
                amount > 0,
                0 < fee_bps <= 10_000,
        ;
        assert(0 <= (amount * fee_bps) / 10_000 <= amount) by (nonlinear_arith)
            requires
                0 <= amount * fee_bps <= amount * 10_000,
        ;
    }
}

} // verus!
