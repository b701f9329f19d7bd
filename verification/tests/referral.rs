use mentorminds::referral::{
    MintOrder, ReferralConfig, ReferralContract, ReferralError, ReferralEvent, ReferralRegisteredEventData,
    RewardClaimedEventData, DEFAULT_GLOBAL_REFERRAL_MINT_CAP, DEFAULT_MAX_LIFETIME_REWARD,
    DEFAULT_MAX_MULTIPLIER_BPS, REWARD_LEARNER, REWARD_MENTOR,
};

const ADMIN: u64 = 1;
const MNT: u64 = 2;
const LEADERBOARD: u64 = 3;
/// The leaderboard's multiplier for a rank-1 referrer: 2x.
const RANK1_MULTIPLIER: u32 = 20_000;

fn setup() -> ReferralContract {
    let mut c = ReferralContract::new();
    c.initialize(ADMIN, MNT, LEADERBOARD).unwrap();
    c
}

fn refer_and_fulfil(c: &mut ReferralContract, referrer: u64, referee: u64, is_mentor: bool) {
    c.register_referral(ADMIN, referrer, referee, is_mentor).unwrap();
    c.fulfill_referral(ADMIN, referee).unwrap();
}

#[test]
fn test_initialization() {
    let c = setup();
    assert_eq!(c.get_referral_count(77), 0);
    assert_eq!(c.get_global_referral_minted(), 0);
}

#[test]
fn test_referral_flow() {
    let mut c = setup();
    let referrer = 10;
    let referee = 11;
    c.register_referral(ADMIN, referrer, referee, true).unwrap();
    assert_eq!(c.get_referral_count(referrer), 1);
    assert_eq!(c.get_pending_rewards(referrer), 0);
    assert_eq!(
        c.events.last(),
        Some(&ReferralEvent::Registered { referrer, data: ReferralRegisteredEventData { referee, is_mentor: true } })
    );
    let update = c.fulfill_referral(ADMIN, referee).unwrap();
    assert_eq!(update.referrer, referrer);
    assert_eq!(update.count, 1);
    assert_eq!(c.get_pending_rewards(referrer), REWARD_MENTOR);
    let mint = c.claim_reward(referrer, RANK1_MULTIPLIER).unwrap();
    assert_eq!(c.get_pending_rewards(referrer), 0);
    assert_eq!(mint, MintOrder { token: MNT, to: referrer, amount: REWARD_MENTOR * 2 });
    assert_eq!(c.get_global_referral_minted(), REWARD_MENTOR * 2);
    assert_eq!(
        c.events.last(),
        Some(&ReferralEvent::RewardClaimed { referrer, data: RewardClaimedEventData { amount: REWARD_MENTOR * 2 } })
    );
}

#[test]
#[should_panic(expected = "Self-referral not allowed")]
fn test_self_referral_rejection() {
    let mut c = setup();
    c.register_referral(ADMIN, 10, 10, true).expect("Self-referral not allowed");
}

#[test]
#[should_panic(expected = "Referee already registered")]
fn test_duplicate_referral_rejection() {
    let mut c = setup();
    c.register_referral(ADMIN, 10, 12, true).unwrap();
    c.register_referral(ADMIN, 11, 12, false).expect("Referee already registered");
}

#[test]
fn test_multiplier_clamped_at_max() {
    let mut c = setup();
    c.set_config(ADMIN, ReferralConfig {
        max_multiplier_bps: 15_000,
        max_lifetime_reward: DEFAULT_MAX_LIFETIME_REWARD,
        global_referral_mint_cap: DEFAULT_GLOBAL_REFERRAL_MINT_CAP,
    })
    .unwrap();
    refer_and_fulfil(&mut c, 10, 11, true);
    let mint = c.claim_reward(10, RANK1_MULTIPLIER).unwrap();
    assert_eq!(mint.amount, (REWARD_MENTOR * 15_000) / 10_000);
}

#[test]
#[should_panic(expected = "Lifetime reward cap reached")]
fn test_lifetime_reward_cap_enforced() {
    let mut c = setup();
    c.set_config(ADMIN, ReferralConfig {
        max_multiplier_bps: DEFAULT_MAX_MULTIPLIER_BPS,
        max_lifetime_reward: REWARD_MENTOR * 2,
        global_referral_mint_cap: DEFAULT_GLOBAL_REFERRAL_MINT_CAP,
    })
    .unwrap();
    refer_and_fulfil(&mut c, 10, 11, true);
    c.claim_reward(10, RANK1_MULTIPLIER).unwrap();
    refer_and_fulfil(&mut c, 10, 12, true);
    c.claim_reward(10, RANK1_MULTIPLIER).expect("Lifetime reward cap reached");
}

#[test]
fn test_global_cap_enforced() {
    let mut c = setup();
    let cap = REWARD_MENTOR * 2 * 2;
    c.set_config(ADMIN, ReferralConfig {
        max_multiplier_bps: DEFAULT_MAX_MULTIPLIER_BPS,
        max_lifetime_reward: DEFAULT_MAX_LIFETIME_REWARD,
        global_referral_mint_cap: cap,
    })
    .unwrap();
    refer_and_fulfil(&mut c, 10, 11, true);
    c.claim_reward(10, RANK1_MULTIPLIER).unwrap();
    refer_and_fulfil(&mut c, 20, 21, true);
    c.claim_reward(20, RANK1_MULTIPLIER).unwrap();
    assert_eq!(c.get_global_referral_minted(), cap);
    refer_and_fulfil(&mut c, 30, 31, true);
    let result = c.claim_reward(30, RANK1_MULTIPLIER);
    assert!(result.is_err(), "Expected failure when global cap is reached");
    assert_eq!(result, Err(ReferralError::GlobalCapReached));
}

#[test]
fn test_supply_invariant_held() {
    const MNT_SUPPLY_CAP: i128 = 100_000_000 * 10_000_000;
    let mut c = setup();
    refer_and_fulfil(&mut c, 10, 11, true);
    let mint = c.claim_reward(10, RANK1_MULTIPLIER).unwrap();
    assert!(mint.amount <= MNT_SUPPLY_CAP);
    assert!(c.get_global_referral_minted() <= DEFAULT_GLOBAL_REFERRAL_MINT_CAP);
}

#[test]
fn test_sybil_resistance_1000_addresses() {
    let mut c = setup();
    let global_cap = 100 * REWARD_LEARNER * 2;
    c.set_config(ADMIN, ReferralConfig {
        max_multiplier_bps: DEFAULT_MAX_MULTIPLIER_BPS,
        max_lifetime_reward: DEFAULT_MAX_LIFETIME_REWARD,
        global_referral_mint_cap: global_cap,
    })
    .unwrap();
    let mut total_minted: i128 = 0;
    let mut claims_accepted = 0u32;
    for i in 0..1000u64 {
        let referrer = 10_000 + 2 * i;
        let referee = 10_001 + 2 * i;
        refer_and_fulfil(&mut c, referrer, referee, false);
        if c.get_global_referral_minted() >= global_cap {
            break;
        }
        c.claim_reward(referrer, RANK1_MULTIPLIER).unwrap();
        let minted = c.get_global_referral_minted();
        assert!(minted <= global_cap, "Global cap breached at claim {}", claims_accepted);
        total_minted = minted;
        claims_accepted += 1;
    }
    assert!(total_minted <= global_cap);
    assert!(c.get_global_referral_minted() <= global_cap);
    assert_eq!(claims_accepted, 100);
}

#[test]
fn second_claim_has_nothing_to_mint() {
    let mut c = setup();
    refer_and_fulfil(&mut c, 10, 11, true);
    c.claim_reward(10, RANK1_MULTIPLIER).unwrap();
    assert_eq!(c.claim_reward(10, RANK1_MULTIPLIER), Err(ReferralError::NoRewardsToClaim));
    assert_eq!(c.get_global_referral_minted(), REWARD_MENTOR * 2);
}

#[test]
fn fulfilment_errors() {
    let mut c = setup();
    assert_eq!(c.fulfill_referral(ADMIN, 99), Err(ReferralError::ReferralNotFound));
    refer_and_fulfil(&mut c, 10, 11, false);
    assert_eq!(c.fulfill_referral(ADMIN, 11), Err(ReferralError::AlreadyCompleted));
    assert_eq!(c.fulfill_referral(5, 11), Err(ReferralError::Unauthorized));
    assert_eq!(c.get_pending_rewards(10), REWARD_LEARNER);
}

#[test]
fn config_must_be_positive() {
    let mut c = setup();
    let ok = ReferralConfig { max_multiplier_bps: 1, max_lifetime_reward: 1, global_referral_mint_cap: 1 };
    assert_eq!(c.set_config(ADMIN, ReferralConfig { max_multiplier_bps: 0, ..ok }), Err(ReferralError::InvalidMultiplier));
    assert_eq!(c.set_config(ADMIN, ReferralConfig { max_lifetime_reward: 0, ..ok }), Err(ReferralError::InvalidLifetimeCap));
    assert_eq!(c.set_config(ADMIN, ReferralConfig { global_referral_mint_cap: -1, ..ok }), Err(ReferralError::InvalidGlobalCap));
    assert_eq!(c.set_config(9, ok), Err(ReferralError::Unauthorized));
}

#[test]
fn fee_distribution_credits_pending() {
    let mut c = setup();
    c.distribute_from_fee(ADMIN, 10, 10_000, 500).unwrap();
    assert_eq!(c.get_pending_rewards(10), 500);
    c.distribute_from_fee(ADMIN, 10, 1, 500).unwrap();
    assert_eq!(c.get_pending_rewards(10), 500);
    let mint = c.claim_reward(10, 10_000).unwrap();
    assert_eq!(mint.amount, 500);
}

#[test]
fn claim_caps_law_example() {
    let mut c = setup();
    c.set_config(ADMIN, ReferralConfig {
        max_multiplier_bps: 20_000,
        max_lifetime_reward: REWARD_MENTOR + 7,
        global_referral_mint_cap: DEFAULT_GLOBAL_REFERRAL_MINT_CAP,
    })
    .unwrap();
    refer_and_fulfil(&mut c, 10, 11, true);
    let mint = c.claim_reward(10, 20_000).unwrap();
    assert_eq!(mint.amount, REWARD_MENTOR + 7);
}
