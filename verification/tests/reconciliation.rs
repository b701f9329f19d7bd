use mentorminds::reconciliation::{
    apply_referral_caps, calc_insurance_yield, calc_platform_fee, calc_referral_fee_reward, Error,
    LedgerSource, ReconciliationEngine, ReportParams, SummaryTag, REFERRAL_REWARD_LEARNER,
    REFERRAL_REWARD_MENTOR,
};

const ADMIN: u64 = 1;
const ESCROW: u64 = 2;
const TREASURY: u64 = 3;
const REFERRAL: u64 = 4;
const INSURANCE: u64 = 5;
const TOKEN: u64 = 10;
const NOW: u64 = 1_000_000;

fn setup() -> ReconciliationEngine {
    let mut e = ReconciliationEngine::new();
    e.initialize(ADMIN, ESCROW, TREASURY, REFERRAL, INSURANCE).unwrap();
    e
}

fn append(e: &mut ReconciliationEngine, source: LedgerSource, amount: i128, bps: u32, gross: i128, account: u64, reference: u64) -> u64 {
    e.append_record(ADMIN, NOW, source, TOKEN, amount, bps, gross, account, reference).unwrap()
}

#[test]
fn calc_fee_matches_contract_formula() {
    assert_eq!(calc_platform_fee(1000, 500), 50);
    assert_eq!(calc_platform_fee(1000, 1000), 100);
    assert_eq!(calc_platform_fee(1, 500), 0);
    assert_eq!(calc_platform_fee(0, 500), 0);
    assert_eq!(calc_platform_fee(-100, 500), 0);
    assert_eq!(calc_platform_fee(10_000, 0), 0);
    assert_eq!(calc_platform_fee(10_000, 10_000), 10_000);
}

#[test]
fn calc_fee_rounds_toward_zero_no_dust() {
    for gross in [1i128, 7, 99, 100, 12345, 1_000_000_000] {
        for bps in [0u32, 1, 50, 500, 1000, 5000, 10_000] {
            let fee = calc_platform_fee(gross, bps);
            let net = gross - fee;
            assert_eq!(fee + net, gross, "dust: gross={} bps={} fee={} net={}", gross, bps, fee, net);
            assert!(fee >= 0);
            assert!(net >= 0);
            assert!(fee <= gross);
        }
    }
}

#[test]
fn referral_caps_applied() {
    assert_eq!(apply_referral_caps(100, 20_000, 50, 80), 50);
    assert_eq!(apply_referral_caps(100, 10_000, 500, 80), 80);
    assert_eq!(apply_referral_caps(100, 15_000, 1000, 1000), 150);
    assert_eq!(apply_referral_caps(0, 20_000, 1000, 1000), 0);
    assert_eq!(apply_referral_caps(100, 20_000, 0, 1000), 0);
}

#[test]
fn validate_fees_clean_dataset_zero_failures() {
    let mut e = setup();
    for (i, gross) in [1000i128, 2000, 7777, 1_000_000].into_iter().enumerate() {
        let fee = calc_platform_fee(gross, 500);
        append(&mut e, LedgerSource::EscrowFee, fee, 500, gross, 100 + i as u64, 200 + i as u64);
    }
    let val = e.validate_fee_distributions(1, 4).unwrap();
    assert_eq!(val.len(), 4);
    for v in val.iter() {
        assert!(v.fee_matches);
        assert!(v.net_matches);
        assert!(v.sum_matches);
    }
    assert_eq!(e.get_mismatches(0, 100).len(), 0);
}

#[test]
fn validate_fees_detects_tampered_record() {
    let mut e = setup();
    let gross = 1000i128;
    let correct_fee = calc_platform_fee(gross, 500);
    append(&mut e, LedgerSource::EscrowFee, 60, 500, gross, 100, 300);
    let val = e.validate_fee_distributions(1, 1).unwrap();
    assert_eq!(val.len(), 1);
    let v = val[0];
    assert_eq!(v.expected_fee, correct_fee);
    assert_eq!(v.recorded_fee, 60);
    assert!(!v.fee_matches);
    assert!(e.get_mismatches(0, 100).len() >= 1);
}

#[test]
fn referral_validation_mentor_2x_multiplier() {
    let mut e = setup();
    let referrer = 77;
    let base = REFERRAL_REWARD_MENTOR;
    let expected = (base * 20_000) / 10_000;
    append(&mut e, LedgerSource::ReferralReward, expected, 20_000, base, referrer, 301);
    let refs = e
        .validate_referral_rewards(1, 1, 20_000, 1_000_000 * 10_000_000i128, 5_000_000 * 10_000_000i128)
        .unwrap();
    assert_eq!(refs.len(), 1);
    let r = refs[0];
    assert_eq!(r.referee_type, 0);
    assert!(r.matches);
    assert!(r.within_lifetime_cap);
    assert!(r.within_global_cap);
}

#[test]
fn referral_validation_learner_base_amount() {
    let mut e = setup();
    let referrer = 78;
    let expected = (REFERRAL_REWARD_LEARNER * 10_000) / 10_000;
    append(&mut e, LedgerSource::ReferralReward, expected, 0, REFERRAL_REWARD_LEARNER, referrer, 302);
    let refs = e.validate_referral_rewards(1, 1, 20_000, i128::MAX, i128::MAX).unwrap();
    assert_eq!(refs.len(), 1);
    let r = refs[0];
    assert_eq!(r.referee_type, 1);
    assert!(r.matches);
}

#[test]
fn treasury_consistency_clean_flow() {
    let mut e = setup();
    append(&mut e, LedgerSource::EscrowFee, 100, 500, 2000, 101, 401);
    append(&mut e, LedgerSource::EscrowFee, 150, 500, 3000, 102, 402);
    append(&mut e, LedgerSource::EscrowFee, 100, 500, 2000, 103, 403);
    append(&mut e, LedgerSource::TreasuryAlloc, -50, 0, 0, 104, 404);
    // The treasury holds 1000 tokens.
    let probe = e.check_treasury_consistency(TOKEN, 650, 1, 4, 1000).unwrap();
    assert_eq!(probe.computed_balance, 950);
    assert_eq!(probe.actual_balance, 1000);
    assert_eq!(probe.difference, 50);
    assert!(!probe.consistent);
}

#[test]
fn detect_flags_bps_over_cap_and_sign_flip() {
    let mut e = setup();
    append(&mut e, LedgerSource::EscrowFee, 50, 20_000, 1000, 101, 501);
    append(&mut e, LedgerSource::InsuranceClaim, 100, 0, 0, 102, 502);
    append(&mut e, LedgerSource::EscrowFee, 50, 500, 1000, 103, 503);
    append(&mut e, LedgerSource::EscrowFee, 50, 500, 1000, 104, 503);
    let mm = e.detect_mismatches(1, 4).unwrap();
    assert!(mm.len() >= 4, "expected bps + sign + 2*dup; got {}", mm.len());
}

#[test]
fn historical_tx_registration_and_replay() {
    let mut e = setup();
    let gross = 1000i128;
    let fee = calc_platform_fee(gross, 500);
    let id = e.register_historical(ADMIN, NOW, 601, fee, TOKEN, 21, 22, 602).unwrap();
    assert_eq!(id, 1);
    assert_eq!(e.get_historical_count(), 1);
    assert!(e.replay_historical_fee(1, 500, gross).unwrap());
    assert!(!e.replay_historical_fee(1, 1000, gross).unwrap());
    assert!(!e.replay_historical_fee(1, 500, 2000).unwrap());
    let tx = e.get_historical(1).unwrap();
    assert_eq!(tx.op, 601);
    assert_eq!(tx.amount, fee);
    assert_eq!(tx.reference, 602);
}

#[test]
fn historical_zero_amount_rejected() {
    let mut e = setup();
    let r = e.register_historical(ADMIN, NOW, 603, 0, TOKEN, 21, 22, 604);
    assert!(r.is_err());
}

#[test]
fn report_fail_dataset_flagged_fail_tag() {
    let mut e = setup();
    append(&mut e, LedgerSource::EscrowFee, 100, 15_000, 1000, 101, 801);
    let params = ReportParams {
        start: 1,
        end: 1,
        token: TOKEN,
        start_treasury_bal: 0,
        max_multiplier_bps: 20_000,
        max_lifetime_per_ref: i128::MAX,
        global_ref_cap: i128::MAX,
        insurance_pool_bal: 0,
    };
    let report = e.generate_report(ADMIN, NOW, params, &vec![], 0).unwrap();
    assert!(!report.reconciled);
    assert_eq!(report.summary_tag, SummaryTag::Fail);
    assert!(report.mismatches_found > 0);
}

#[test]
fn double_init_rejected() {
    let mut e = setup();
    let r = e.initialize(ADMIN, 11, 12, 13, 14);
    assert!(r.is_err());
}

#[test]
fn append_record_invalid_range_rejected() {
    let mut e = setup();
    let r = e.validate_fee_distributions(10, 1);
    assert!(r.is_err());
}

#[test]
fn running_totals_and_aggs_accumulate() {
    let mut e = setup();
    let referrer = 120;
    let provider = 121;
    append(&mut e, LedgerSource::EscrowFee, 100, 500, 2000, 101, 901);
    append(&mut e, LedgerSource::EscrowFee, 200, 500, 4000, 102, 902);
    append(&mut e, LedgerSource::ReferralReward, 30, 0, REFERRAL_REWARD_LEARNER, referrer, 903);
    append(&mut e, LedgerSource::InsuranceYield, 500, 10, 0, provider, 904);
    let (fi, fo) = e.get_running_totals(LedgerSource::EscrowFee);
    assert_eq!(fi, 300);
    assert_eq!(fo, 0);
    let (_, credited) = e.get_referrer_agg(referrer);
    assert_eq!(credited, 30);
    assert_eq!(e.get_insurance_provider_shares(provider), 500);
}

#[test]
fn calc_fee_never_panics_on_extreme_inputs() {
    for gross in [0i128, 1, -1, i128::MIN, i128::MAX, 1_000_000_000_000_000i128, -999_999_999_999i128] {
        for bps in [0u32, 1, 500, 1_000, 5_000, 10_000, u32::MAX] {
            let fee = calc_platform_fee(gross, bps);
            if gross >= 0 && bps <= 10_000 {
                assert!(fee <= gross, "fee={} > gross={} bps={}", fee, gross, bps);
                assert!(fee >= 0);
            }
        }
    }
}

#[test]
fn insurance_yield_matches_10bps() {
    assert_eq!(calc_insurance_yield(100_000), 10);
    assert_eq!(calc_insurance_yield(0), 0);
    assert_eq!(calc_insurance_yield(99), 0);
}

#[test]
fn referral_fee_reward_is_bps_of_fee() {
    assert_eq!(calc_referral_fee_reward(10_000, 1_000), 1_000);
    assert_eq!(calc_referral_fee_reward(10_000, 0), 0);
    assert_eq!(calc_referral_fee_reward(-5, 1_000), 0);
}

#[test]
fn append_by_non_admin_is_refused_and_changes_nothing() {
    let mut e = setup();
    let r = e.append_record(99, NOW, LedgerSource::EscrowFee, TOKEN, 10, 500, 200, 1, 2);
    assert_eq!(r, Err(Error::Unauthorized));
    assert_eq!(e.get_record_count(), 0);
}

#[test]
fn append_before_initialize_is_refused() {
    let mut e = ReconciliationEngine::new();
    let r = e.append_record(ADMIN, NOW, LedgerSource::EscrowFee, TOKEN, 10, 500, 200, 1, 2);
    assert_eq!(r, Err(Error::NotInitialized));
}

#[test]
fn replay_of_unknown_transaction_has_no_data() {
    let e = setup();
    assert_eq!(e.replay_historical_fee(5, 500, 1000), Err(Error::NoData));
}

#[test]
fn recorded_fee_replays_law_example() {
    let mut e = setup();
    let fee = calc_platform_fee(12_345, 250);
    assert!(fee > 0);
    e.register_historical(ADMIN, NOW, 1, fee, TOKEN, 2, 3, 4).unwrap();
    assert!(e.replay_historical_fee(1, 250, 12_345).unwrap());
}

#[test]
fn records_are_append_only() {
    let mut e = setup();
    let a = append(&mut e, LedgerSource::EscrowFee, 5, 500, 100, 1, 2);
    let first = e.get_record(a).unwrap();
    append(&mut e, LedgerSource::TreasuryAlloc, -3, 0, 0, 1, 3);
    assert_eq!(e.get_record(a).unwrap(), first);
    assert_eq!(e.get_record_count(), 2);
}

#[test]
fn report_clean_dataset_matches_summary_tag_clean() {
    let mut e = setup();
    append(&mut e, LedgerSource::EscrowFee, 50, 500, 1000, 131, 1001);
    append(&mut e, LedgerSource::EscrowFee, 250, 500, 5000, 132, 1002);
    let ref_expected = (REFERRAL_REWARD_LEARNER * 20_000) / 10_000;
    let referrer = 133;
    append(&mut e, LedgerSource::ReferralReward, ref_expected, 0, REFERRAL_REWARD_LEARNER, referrer, 1003);
    let provider = 134;
    append(&mut e, LedgerSource::InsuranceClaim, -50, 0, 0, provider, 1004);
    let p2 = 135;
    append(&mut e, LedgerSource::InsuranceYield, 400, 10, 0, provider, 1005);
    append(&mut e, LedgerSource::InsuranceYield, 600, 10, 0, p2, 1006);
    let params = ReportParams {
        start: 1,
        end: 6,
        token: TOKEN,
        start_treasury_bal: 0,
        max_multiplier_bps: 20_000,
        max_lifetime_per_ref: i128::MAX,
        global_ref_cap: i128::MAX,
        insurance_pool_bal: 1000,
    };
    let report = e.generate_report(ADMIN, NOW, params, &vec![provider, p2], 300).unwrap();
    assert_eq!(report.fee_validations, 2);
    assert_eq!(report.fee_failures, 0);
    assert_eq!(report.referral_validations, 1);
    assert_eq!(report.referral_failures, 0);
    assert_eq!(report.insurance_validations, 1);
    assert_eq!(report.insurance_failures, 0);
    assert_eq!(report.probes_failed, 0);
    assert_eq!(report.critical_mismatches, 0);
    assert!(report.reconciled);
    assert_eq!(report.summary_tag, SummaryTag::Clean);
    assert_eq!(report.report_id, 1);
    assert_eq!(e.get_report_count(), 1);
}

#[test]
fn learner_reward_outside_multiplier_range_is_flagged() {
    let mut e = setup();
    let over = (REFERRAL_REWARD_LEARNER * 30_000) / 10_000;
    append(&mut e, LedgerSource::ReferralReward, over, 0, REFERRAL_REWARD_LEARNER, 140, 1101);
    let between = (REFERRAL_REWARD_LEARNER * 15_000) / 10_000;
    append(&mut e, LedgerSource::ReferralReward, between, 0, REFERRAL_REWARD_LEARNER, 141, 1102);
    let refs = e.validate_referral_rewards(1, 2, 20_000, i128::MAX, i128::MAX).unwrap();
    assert_eq!(refs.len(), 2);
    assert!(!refs[0].matches);
    assert_eq!(refs[0].expected, REFERRAL_REWARD_LEARNER);
    assert!(!refs[1].matches);
    assert_eq!(refs[1].expected, REFERRAL_REWARD_LEARNER);
}

#[test]
fn insurance_claim_leaves_provider_shares() {
    let mut e = setup();
    append(&mut e, LedgerSource::InsuranceYield, 400, 10, 0, 150, 1201);
    append(&mut e, LedgerSource::InsuranceClaim, -50, 0, 0, 150, 1202);
    assert_eq!(e.get_insurance_provider_shares(150), 400);
    let mm = e.detect_mismatches(1, 2).unwrap();
    assert_eq!(mm.len(), 0);
    // Any other non-zero amount on a zero gross is flagged, whatever its sign.
    append(&mut e, LedgerSource::EscrowFee, -5, 500, 0, 151, 1203);
    append(&mut e, LedgerSource::TreasuryAlloc, -7, 0, 0, 152, 1204);
    let mm = e.detect_mismatches(3, 4).unwrap();
    assert_eq!(mm.len(), 3);
    assert_eq!(mm.iter().filter(|m| m.severity == 3 && m.record_id == 3).count(), 2);
}
