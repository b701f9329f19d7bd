//! Referral rewards: referral registration and fulfilment, pending rewards,
//! and claims capped by a multiplier ceiling, a per-referrer lifetime cap
//! and a global mint cap.
use vstd::prelude::*;
use std::collections::HashMap;

use crate::common::AccountId;

verus! {

broadcast use vstd::std_specs::hash::group_hash_axioms;

/// Reward for referring a mentor: 50 MNT (7 decimals).
pub const REWARD_MENTOR: i128 = 500_000_000;
/// Reward for referring a learner: 20 MNT (7 decimals).
pub const REWARD_LEARNER: i128 = 200_000_000;
/// Default multiplier ceiling: 2x.
pub const DEFAULT_MAX_MULTIPLIER_BPS: u32 = 20_000;
/// Default lifetime cap per referrer: 10_000 MNT.
pub const DEFAULT_MAX_LIFETIME_REWARD: i128 = 100_000_000_000;
/// Default global referral mint cap: 5_000_000 MNT.
pub const DEFAULT_GLOBAL_REFERRAL_MINT_CAP: i128 = 50_000_000_000_000;

#[derive(Clone, Copy, Debug, PartialEq, Eq, Structural)]
pub enum RefereeType {
    Mentor,
    Learner,
}

#[derive(Clone, Copy, Debug, PartialEq, Eq, Structural)]
pub struct ReferralInfo {
    pub referrer: AccountId,
    pub referee_type: RefereeType,
    pub completed: bool,
}

#[derive(Clone, Copy, Debug, PartialEq, Eq, Structural)]
pub struct ReferralConfig {
    /// Maximum multiplier in basis points (20000 = 2x).
    pub max_multiplier_bps: u32,
    /// Maximum a single referrer can ever claim.
    pub max_lifetime_reward: i128,
    /// Cap on the total ever minted through referrals.
    pub global_referral_mint_cap: i128,
}

#[derive(Clone, Copy, Debug, PartialEq, Eq, Structural)]
pub enum ReferralError {
    AlreadyInitialized,
    NotInitialized,
    Unauthorized,
    InvalidMultiplier,
    InvalidLifetimeCap,
    InvalidGlobalCap,
    SelfReferral,
    RefereeAlreadyRegistered,
    ReferralNotFound,
    AlreadyCompleted,
    NoRewardsToClaim,
    LifetimeCapReached,
    GlobalCapReached,
    ZeroReward,
}

/// Payload of the event published when a referral is registered.
#[derive(Clone, Copy, Debug, PartialEq, Eq, Structural)]
pub struct ReferralRegisteredEventData {
    pub referee: AccountId,
    pub is_mentor: bool,
}

/// Payload of the event published when a reward is claimed.
#[derive(Clone, Copy, Debug, PartialEq, Eq, Structural)]
pub struct RewardClaimedEventData {
    pub amount: i128,
}

#[derive(Clone, Copy, Debug, PartialEq, Eq, Structural)]
pub enum ReferralEvent {
    Registered { referrer: AccountId, data: ReferralRegisteredEventData },
    RewardClaimed { referrer: AccountId, data: RewardClaimedEventData },
    FeeReward { referrer: AccountId, reward: i128 },
}

/// The leaderboard update owed after a fulfilment: record `count`
/// referrals for `referrer`.
#[derive(Clone, Copy, Debug, PartialEq, Eq, Structural)]
pub struct LeaderboardUpdate {
    pub leaderboard: AccountId,
    pub referrer: AccountId,
    pub count: u32,
}

/// The mint owed after a claim: `amount` MNT to `to`.
#[derive(Clone, Copy, Debug, PartialEq, Eq, Structural)]
pub struct MintOrder {
    pub token: AccountId,
    pub to: AccountId,
    pub amount: i128,
}

pub open spec fn reward_for(t: RefereeType) -> i128 {
    match t {
        RefereeType::Mentor => REWARD_MENTOR,
        RefereeType::Learner => REWARD_LEARNER,
    }
}

pub open spec fn i128_in(m: Map<AccountId, i128>, k: AccountId) -> i128 {
    if m.contains_key(k) { m[k] } else { 0 }
}

pub open spec fn u32_in(m: Map<AccountId, u32>, k: AccountId) -> u32 {
    if m.contains_key(k) { m[k] } else { 0 }
}

pub open spec fn min_i(a: int, b: int) -> int {
    if a <= b { a } else { b }
}

/// Room left under a cap: `cap - used`, or 0 when that does not fit in
/// `i128`.
pub open spec fn room(cap: i128, used: i128) -> int {
    if i128::MIN <= cap - used <= i128::MAX { cap - used } else { 0 }
}

/// Amount minted by a claim: the pending reward scaled by the clamped
/// multiplier (truncating), then capped by the lifetime and global room.
pub open spec fn claim_amount(pending: i128, raw_multiplier: u32, config: ReferralConfig, lifetime: i128, global: i128) -> int {
    let mult = min_i(raw_multiplier as int, config.max_multiplier_bps as int);
    let scaled = (pending * mult) / 10_000;
    min_i(min_i(scaled, room(config.max_lifetime_reward, lifetime)), room(config.global_referral_mint_cap, global))
}

pub struct ReferralContract {
    pub admin: Option<AccountId>,
    pub mnt_token: AccountId,
    pub leaderboard: AccountId,
    pub config: Option<ReferralConfig>,
    /// Referee to its referral.
    pub referrals: HashMap<AccountId, ReferralInfo>,
    pub referrer_count: HashMap<AccountId, u32>,
    pub pending: HashMap<AccountId, i128>,
    pub lifetime_claimed: HashMap<AccountId, i128>,
    pub global_minted: i128,
    pub events: Vec<ReferralEvent>,
}

fn i128_get(m: &HashMap<AccountId, i128>, k: AccountId) -> (r: i128)
    ensures
        r == i128_in(m@, k),
{
    match m.get(&k) {
        Some(v) => *v,
        None => 0,
    }
}

fn u32_get(m: &HashMap<AccountId, u32>, k: AccountId) -> (r: u32)
    ensures
        r == u32_in(m@, k),
{
    match m.get(&k) {
        Some(v) => *v,
        None => 0,
    }
}

impl ReferralContract {
    /// Everything minted so far lies within the configured caps: the global
    /// total within the global cap and every referrer's lifetime total
    /// within the lifetime cap. Before initialization nothing is configured
    /// and nothing has been claimed.
    pub open spec fn within_caps(&self) -> bool {
        &&& self.admin is None ==> self.config is None
        &&& match self.config {
            Some(cfg) => {
                &&& self.global_minted <= cfg.global_referral_mint_cap
                &&& forall|a: AccountId| #[trigger] i128_in(self.lifetime_claimed@, a) <= cfg.max_lifetime_reward
            },
            None => self.global_minted == 0 && self.lifetime_claimed@ == Map::<AccountId, i128>::empty(),
        }
    }

    pub fn new() -> (r: Self)
        ensures
            r.within_caps(),
            r.admin is None,
            r.config is None,
            r.global_minted == 0,
            r.referrals@ == Map::<AccountId, ReferralInfo>::empty(),
            r.pending@ == Map::<AccountId, i128>::empty(),
            r.referrer_count@ == Map::<AccountId, u32>::empty(),
            r.lifetime_claimed@ == Map::<AccountId, i128>::empty(),
            r.events@.len() == 0,
    {
        ReferralContract {
            admin: None,
            mnt_token: 0,
            leaderboard: 0,
            config: None,
            referrals: HashMap::new(),
            referrer_count: HashMap::new(),
            pending: HashMap::new(),
            lifetime_claimed: HashMap::new(),
            global_minted: 0,
            events: Vec::new(),
        }
    }

    /// Set the admin, the MNT token and the leaderboard, with the default
    /// caps.
    pub fn initialize(&mut self, admin: AccountId, mnt_token: AccountId, leaderboard: AccountId) -> (r: Result<(), ReferralError>)
        ensures
            old(self).within_caps() ==> final(self).within_caps(),
            old(self).admin is Some ==> r == Err::<(), ReferralError>(ReferralError::AlreadyInitialized)
                && *final(self) == *old(self),
            old(self).admin is None ==> r is Ok && *final(self) == (ReferralContract {
                admin: Some(admin),
                mnt_token,
                leaderboard,
                config: Some(ReferralConfig {
                    max_multiplier_bps: DEFAULT_MAX_MULTIPLIER_BPS,
                    max_lifetime_reward: DEFAULT_MAX_LIFETIME_REWARD,
                    global_referral_mint_cap: DEFAULT_GLOBAL_REFERRAL_MINT_CAP,
                }),
                global_minted: 0,
                ..*old(self)
            }),
    {
        if self.admin.is_some() {
            return Err(ReferralError::AlreadyInitialized);
        }
        self.admin = Some(admin);
        self.mnt_token = mnt_token;
        self.leaderboard = leaderboard;
        self.config = Some(ReferralConfig {
            max_multiplier_bps: DEFAULT_MAX_MULTIPLIER_BPS,
            max_lifetime_reward: DEFAULT_MAX_LIFETIME_REWARD,
            global_referral_mint_cap: DEFAULT_GLOBAL_REFERRAL_MINT_CAP,
        });
        self.global_minted = 0;
        Ok(())
    }

    pub open spec fn admin_check(&self, caller: AccountId) -> Result<(), ReferralError> {
        match self.admin {
            None => Err(ReferralError::NotInitialized),
            Some(a) => if a == caller { Ok(()) } else { Err(ReferralError::Unauthorized) },
        }
    }

    fn require_admin(&self, caller: AccountId) -> (r: Result<(), ReferralError>)
        ensures
            r == self.admin_check(caller),
    {
        match self.admin {
            None => Err(ReferralError::NotInitialized),
            Some(a) => if a == caller { Ok(()) } else { Err(ReferralError::Unauthorized) },
        }
    }

    /// Replace the caps; each must be positive.
    pub fn set_config(&mut self, caller: AccountId, config: ReferralConfig) -> (r: Result<(), ReferralError>)
        ensures
            old(self).within_caps() && old(self).config is Some && config.global_referral_mint_cap
                >= old(self).config->0.global_referral_mint_cap && config.max_lifetime_reward
                >= old(self).config->0.max_lifetime_reward ==> final(self).within_caps(),
            r == (if old(self).admin_check(caller) is Err {
                old(self).admin_check(caller)
            } else if config.max_multiplier_bps == 0 {
                Err(ReferralError::InvalidMultiplier)
            } else if config.max_lifetime_reward <= 0 {
                Err(ReferralError::InvalidLifetimeCap)
            } else if config.global_referral_mint_cap <= 0 {
                Err(ReferralError::InvalidGlobalCap)
            } else {
                Ok(())
            }),
            r is Err ==> *final(self) == *old(self),
            r is Ok ==> *final(self) == (ReferralContract { config: Some(config), ..*old(self) }),
    {
        match self.require_admin(caller) {
            Ok(()) => {},
            Err(e) => return Err(e),
        }
        if config.max_multiplier_bps == 0 {
            return Err(ReferralError::InvalidMultiplier);
        }
        if config.max_lifetime_reward <= 0 {
            return Err(ReferralError::InvalidLifetimeCap);
        }
        if config.global_referral_mint_cap <= 0 {
            return Err(ReferralError::InvalidGlobalCap);
        }
        self.config = Some(config);
        Ok(())
    }

    /// Record that `referee` was referred by `referrer`.
    pub fn register_referral(&mut self, caller: AccountId, referrer: AccountId, referee: AccountId, is_mentor: bool) -> (r: Result<(), ReferralError>)
        requires
            u32_in(old(self).referrer_count@, referrer) < u32::MAX,
        ensures
            old(self).within_caps() ==> final(self).within_caps(),
            r == (if old(self).admin_check(caller) is Err {
                old(self).admin_check(caller)
            } else if referrer == referee {
                Err(ReferralError::SelfReferral)
            } else if old(self).referrals@.contains_key(referee) {
                Err(ReferralError::RefereeAlreadyRegistered)
            } else {
                Ok(())
            }),
            r is Err ==> *final(self) == *old(self),
            r is Ok ==> {
                &&& final(self).referrals@ == old(self).referrals@.insert(referee, ReferralInfo {
                    referrer,
                    referee_type: if is_mentor { RefereeType::Mentor } else { RefereeType::Learner },
                    completed: false,
                })
                &&& final(self).referrer_count@ == old(self).referrer_count@.insert(
                    referrer,
                    (u32_in(old(self).referrer_count@, referrer) + 1) as u32,
                )
                &&& final(self).events@ == old(self).events@.push(ReferralEvent::Registered { referrer, data: ReferralRegisteredEventData { referee, is_mentor } })
                &&& *final(self) == (ReferralContract {
                    referrals: final(self).referrals,
                    referrer_count: final(self).referrer_count,
                    events: final(self).events,
                    ..*old(self)
                })
            },
    {
        match self.require_admin(caller) {
            Ok(()) => {},
            Err(e) => return Err(e),
        }
        if referrer == referee {
            return Err(ReferralError::SelfReferral);
        }
        if self.referrals.contains_key(&referee) {
            return Err(ReferralError::RefereeAlreadyRegistered);
        }
        let referee_type = if is_mentor { RefereeType::Mentor } else { RefereeType::Learner };
        self.referrals.insert(referee, ReferralInfo { referrer, referee_type, completed: false });
        let count = u32_get(&self.referrer_count, referrer);
        self.referrer_count.insert(referrer, count + 1);
        self.events.push(ReferralEvent::Registered { referrer, data: ReferralRegisteredEventData { referee, is_mentor } });
        Ok(())
    }

    pub open spec fn fulfill_outcome(&self, caller: AccountId, referee: AccountId) -> Result<(), ReferralError> {
        if self.admin_check(caller) is Err {
            self.admin_check(caller)
        } else if !self.referrals@.contains_key(referee) {
            Err(ReferralError::ReferralNotFound)
        } else if self.referrals@[referee].completed {
            Err(ReferralError::AlreadyCompleted)
        } else {
            Ok(())
        }
    }

    /// Mark a referral completed and credit its reward to the referrer's
    /// pending balance; hands back the leaderboard update to perform.
    pub fn fulfill_referral(&mut self, caller: AccountId, referee: AccountId) -> (r: Result<LeaderboardUpdate, ReferralError>)
        requires
            old(self).fulfill_outcome(caller, referee) is Ok ==> i128_in(
                old(self).pending@,
                old(self).referrals@[referee].referrer,
            ) + reward_for(old(self).referrals@[referee].referee_type) <= i128::MAX,
        ensures
            old(self).within_caps() ==> final(self).within_caps(),
            old(self).fulfill_outcome(caller, referee) is Err ==> r == Err::<LeaderboardUpdate, ReferralError>(
                old(self).fulfill_outcome(caller, referee)->Err_0,
            ),
            old(self).fulfill_outcome(caller, referee) is Ok ==> r is Ok,
            r is Err ==> *final(self) == *old(self),
            r is Ok ==> {
                let info = old(self).referrals@[referee];
                &&& old(self).fulfill_outcome(caller, referee) is Ok
                &&& final(self).referrals@ == old(self).referrals@.insert(referee, ReferralInfo { completed: true, ..info })
                &&& final(self).pending@ == old(self).pending@.insert(
                    info.referrer,
                    (i128_in(old(self).pending@, info.referrer) + reward_for(info.referee_type)) as i128,
                )
                &&& r->Ok_0 == (LeaderboardUpdate {
                    leaderboard: old(self).leaderboard,
                    referrer: info.referrer,
                    count: u32_in(old(self).referrer_count@, info.referrer),
                })
                &&& *final(self) == (ReferralContract {
                    referrals: final(self).referrals,
                    pending: final(self).pending,
                    ..*old(self)
                })
            },
    {
        match self.require_admin(caller) {
            Ok(()) => {},
            Err(e) => return Err(e),
        }
        let info = match self.referrals.get(&referee) {
            Some(i) => *i,
            None => return Err(ReferralError::ReferralNotFound),
        };
        if info.completed {
            return Err(ReferralError::AlreadyCompleted);
        }
        self.referrals.insert(referee, ReferralInfo { completed: true, ..info });
        let reward = match info.referee_type {
            RefereeType::Mentor => REWARD_MENTOR,
            RefereeType::Learner => REWARD_LEARNER,
        };
        let pending = i128_get(&self.pending, info.referrer);
        self.pending.insert(info.referrer, pending + reward);
        let count = u32_get(&self.referrer_count, info.referrer);
        Ok(LeaderboardUpdate { leaderboard: self.leaderboard, referrer: info.referrer, count })
    }

    pub open spec fn claim_outcome(&self, referrer: AccountId, raw_multiplier: u32) -> Result<i128, ReferralError> {
        let pending = i128_in(self.pending@, referrer);
        let lifetime = i128_in(self.lifetime_claimed@, referrer);
        if pending <= 0 {
            Err(ReferralError::NoRewardsToClaim)
        } else if self.config is None {
            Err(ReferralError::NotInitialized)
        } else if room(self.config->0.max_lifetime_reward, lifetime) <= 0 {
            Err(ReferralError::LifetimeCapReached)
        } else if room(self.config->0.global_referral_mint_cap, self.global_minted) <= 0 {
            Err(ReferralError::GlobalCapReached)
        } else if claim_amount(pending, raw_multiplier, self.config->0, lifetime, self.global_minted) <= 0 {
            Err(ReferralError::ZeroReward)
        } else {
            Ok(claim_amount(pending, raw_multiplier, self.config->0, lifetime, self.global_minted) as i128)
        }
    }

    /// Claim the referrer's pending reward, given the leaderboard's
    /// multiplier for them. The pending balance is cleared and both caps
    /// are charged before the mint is handed back to be performed. A claim
    /// with nothing pending or no allowance left under either cap is
    /// returned as an error and changes nothing; the ledger entry point
    /// aborts the invocation on it.
    pub fn claim_reward(&mut self, referrer: AccountId, raw_multiplier: u32) -> (r: Result<MintOrder, ReferralError>)
        requires
            old(self).config is Some ==> i128_in(old(self).pending@, referrer) * min_i(
                raw_multiplier as int,
                old(self).config->0.max_multiplier_bps as int,
            ) <= i128::MAX,
        ensures
            old(self).within_caps() ==> final(self).within_caps(),
            old(self).claim_outcome(referrer, raw_multiplier) is Err ==> r == Err::<MintOrder, ReferralError>(
                old(self).claim_outcome(referrer, raw_multiplier)->Err_0,
            ),
            old(self).claim_outcome(referrer, raw_multiplier) is Ok ==> r == Ok::<MintOrder, ReferralError>(MintOrder {
                token: old(self).mnt_token,
                to: referrer,
                amount: old(self).claim_outcome(referrer, raw_multiplier)->Ok_0,
            }),
            r is Err ==> *final(self) == *old(self),
            r is Ok ==> {
                let amount = r->Ok_0.amount;
                let lifetime = i128_in(old(self).lifetime_claimed@, referrer);
                &&& amount > 0
                &&& final(self).pending@ == old(self).pending@.insert(referrer, 0)
                &&& final(self).lifetime_claimed@ == old(self).lifetime_claimed@.insert(referrer, (lifetime + amount) as i128)
                &&& final(self).global_minted == old(self).global_minted + amount
                &&& lifetime + amount <= old(self).config->0.max_lifetime_reward
                &&& old(self).global_minted + amount <= old(self).config->0.global_referral_mint_cap
                &&& final(self).events@ == old(self).events@.push(ReferralEvent::RewardClaimed { referrer, data: RewardClaimedEventData { amount } })
                &&& *final(self) == (ReferralContract {
                    pending: final(self).pending,
                    lifetime_claimed: final(self).lifetime_claimed,
                    global_minted: final(self).global_minted,
                    events: final(self).events,
                    ..*old(self)
                })
            },
    {
        let pending = i128_get(&self.pending, referrer);
        if pending <= 0 {
            return Err(ReferralError::NoRewardsToClaim);
        }
        let config = match self.config {
            Some(c) => c,
            None => return Err(ReferralError::NotInitialized),
        };
        let multiplier = if raw_multiplier < config.max_multiplier_bps { raw_multiplier } else { config.max_multiplier_bps };
        let scaled = (pending * multiplier as i128) / 10_000;
        let lifetime_claimed = i128_get(&self.lifetime_claimed, referrer);
        let remaining_lifetime = match config.max_lifetime_reward.checked_sub(lifetime_claimed) {
            Some(v) => v,
            None => 0,
        };
        if remaining_lifetime <= 0 {
            return Err(ReferralError::LifetimeCapReached);
        }
        let amount = if scaled < remaining_lifetime { scaled } else { remaining_lifetime };
        let global_remaining = match config.global_referral_mint_cap.checked_sub(self.global_minted) {
            Some(v) => v,
            None => 0,
        };
        if global_remaining <= 0 {
            return Err(ReferralError::GlobalCapReached);
        }
        let amount = if amount < global_remaining { amount } else { global_remaining };
        if amount <= 0 {
            return Err(ReferralError::ZeroReward);
        }
        self.pending.insert(referrer, 0);
        self.lifetime_claimed.insert(referrer, lifetime_claimed + amount);
        self.global_minted = self.global_minted + amount;
        self.events.push(ReferralEvent::RewardClaimed { referrer, data: RewardClaimedEventData { amount } });
        proof {
            if old(self).within_caps() {
                assert forall|a: AccountId| #[trigger] i128_in(self.lifetime_claimed@, a) <= config.max_lifetime_reward by {
                    if a != referrer {
                        assert(i128_in(self.lifetime_claimed@, a) == i128_in(old(self).lifetime_claimed@, a));
                    }
                }
            }
        }
        Ok(MintOrder { token: self.mnt_token, to: referrer, amount })
    }

    pub fn get_referral_count(&self, referrer: AccountId) -> (r: u32)
        ensures
            r == u32_in(self.referrer_count@, referrer),
    {
        u32_get(&self.referrer_count, referrer)
    }

    pub fn get_pending_rewards(&self, referrer: AccountId) -> (r: i128)
        ensures
            r == i128_in(self.pending@, referrer),
    {
        i128_get(&self.pending, referrer)
    }

    pub fn get_admin(&self) -> (r: Result<AccountId, ReferralError>)
        ensures
            r == (match self.admin {
                Some(a) => Ok(a),
                None => Err(ReferralError::NotInitialized),
            }),
    {
        match self.admin {
            Some(a) => Ok(a),
            None => Err(ReferralError::NotInitialized),
        }
    }

    pub fn get_global_referral_minted(&self) -> (r: i128)
        ensures
            r == self.global_minted,
    {
        self.global_minted
    }

    /// Credit `platform_fee * reward_bps / 10_000` (truncating) to the
    /// referrer's pending balance; a non-positive fee, a zero rate or a
    /// non-positive reward changes nothing.
    pub fn distribute_from_fee(&mut self, caller: AccountId, referrer: AccountId, platform_fee: i128, reward_bps: u32) -> (r: Result<(), ReferralError>)
        requires
            old(self).admin_check(caller) is Ok && platform_fee > 0 && reward_bps > 0 ==> platform_fee
                * reward_bps <= i128::MAX && i128_in(old(self).pending@, referrer) + (platform_fee * reward_bps) / 10_000
                <= i128::MAX,
        ensures
            old(self).within_caps() ==> final(self).within_caps(),
            r == old(self).admin_check(caller),
            r is Err ==> *final(self) == *old(self),
            r is Ok ==> {
                let reward = (platform_fee * reward_bps) / 10_000;
                if platform_fee <= 0 || reward_bps == 0 || reward <= 0 {
                    *final(self) == *old(self)
                } else {
                    &&& final(self).pending@ == old(self).pending@.insert(
                        referrer,
                        (i128_in(old(self).pending@, referrer) + reward) as i128,
                    )
                    &&& final(self).events@ == old(self).events@.push(ReferralEvent::FeeReward { referrer, reward: reward as i128 })
                    &&& *final(self) == (ReferralContract {
                        pending: final(self).pending,
                        events: final(self).events,
                        ..*old(self)
                    })
                }
            },
    {
        match self.require_admin(caller) {
            Ok(()) => {},
            Err(e) => return Err(e),
        }
        if platform_fee <= 0 || reward_bps == 0 {
            return Ok(());
        }
        let reward = (platform_fee * reward_bps as i128) / 10_000;
        if reward <= 0 {
            return Ok(());
        }
        let pending = i128_get(&self.pending, referrer);
        self.pending.insert(referrer, pending + reward);
        self.events.push(ReferralEvent::FeeReward { referrer, reward });
        Ok(())
    }
}


/// A successful claim keeps the referrer's lifetime total within the
/// lifetime cap and the global total within the global cap, and pays no
/// more than the pending reward scaled by the maximum multiplier.
pub proof fn lemma_claim_within_caps(c: ReferralContract, referrer: AccountId, raw_multiplier: u32)
    requires
        c.claim_outcome(referrer, raw_multiplier) is Ok,
    ensures
        ({
            let amount = c.claim_outcome(referrer, raw_multiplier)->Ok_0;
            let cfg = c.config->0;
            let pending = i128_in(c.pending@, referrer);
            &&& 0 < amount
            &&& i128_in(c.lifetime_claimed@, referrer) + amount <= cfg.max_lifetime_reward
            &&& c.global_minted + amount <= cfg.global_referral_mint_cap
            &&& amount <= (pending * cfg.max_multiplier_bps) / 10_000
        }),
{
    let cfg = c.config->0;
    let pending = i128_in(c.pending@, referrer);
    let mult = min_i(raw_multiplier as int, cfg.max_multiplier_bps as int);
    assert(pending * mult <= pending * cfg.max_multiplier_bps) by (nonlinear_arith)
        requires
            pending > 0,
            mult <= cfg.max_multiplier_bps,
    ;
    assert((pending * mult) / 10_000 <= (pending * cfg.max_multiplier_bps) / 10_000) by (nonlinear_arith)
        requires
            pending * mult <= pending * cfg.max_multiplier_bps,
    ;
}

/// A multiplier above the configured maximum is clamped: the claim comes
/// out exactly as with the maximum itself.
pub proof fn lemma_multiplier_clamped(c: ReferralContract, referrer: AccountId, raw_multiplier: u32)
    requires
        c.config is Some,
        raw_multiplier >= c.config->0.max_multiplier_bps,
    ensures
        c.claim_outcome(referrer, raw_multiplier) == c.claim_outcome(referrer, c.config->0.max_multiplier_bps),
{
}

} // verus!
