//! Reconciliation engine: an append-only tape of ledger records with
//! validators for fee distributions, referral rewards, treasury and
//! insurance balances, structural mismatch detection and report
//! generation.
use vstd::prelude::*;

use crate::common::{clamp_i128, max_int, min_int, sat_add_i128, sat_sub_i128, AccountId, SymbolId};

verus! {

broadcast use vstd::std_specs::hash::group_hash_axioms;

#[derive(Clone, Copy, Debug, PartialEq, Eq, Structural)]
pub enum Error {
    AlreadyInitialized,
    NotInitialized,
    Unauthorized,
    InvalidRange,
    NoData,
    MismatchDetected,
    InvalidAmount,
    DuplicateRecord,
    Overflow,
    Underflow,
}

const BPS_DENOM: i128 = 10_000;
pub const REFERRAL_REWARD_MENTOR: i128 = 500_000_000;
pub const REFERRAL_REWARD_LEARNER: i128 = 200_000_000;
/// Insurance yield rate on a platform fee, in basis points.
pub const INSURANCE_YIELD_BPS: u32 = 1;

/// Origin of a fee distribution record.
#[derive(Clone, Copy, Debug, PartialEq, Eq, Structural)]
pub enum LedgerSource {
    EscrowFee,
    ReferralReward,
    ReferralFeeDist,
    InsuranceYield,
    InsuranceClaim,
    TreasuryDeposit,
    TreasuryAlloc,
    TreasuryDistrib,
    BuybackBurn,
}

/// Numeric code of a ledger source (1-9).
pub open spec fn source_code_spec(s: LedgerSource) -> u32 {
    match s {
        LedgerSource::EscrowFee => 1,
        LedgerSource::ReferralReward => 2,
        LedgerSource::ReferralFeeDist => 3,
        LedgerSource::InsuranceYield => 4,
        LedgerSource::InsuranceClaim => 5,
        LedgerSource::TreasuryDeposit => 6,
        LedgerSource::TreasuryAlloc => 7,
        LedgerSource::TreasuryDistrib => 8,
        LedgerSource::BuybackBurn => 9,
    }
}

pub fn source_code(s: LedgerSource) -> (r: u32)
    ensures
        r == source_code_spec(s),
        1 <= r <= 9,
{
    match s {
        LedgerSource::EscrowFee => 1,
        LedgerSource::ReferralReward => 2,
        LedgerSource::ReferralFeeDist => 3,
        LedgerSource::InsuranceYield => 4,
        LedgerSource::InsuranceClaim => 5,
        LedgerSource::TreasuryDeposit => 6,
        LedgerSource::TreasuryAlloc => 7,
        LedgerSource::TreasuryDistrib => 8,
        LedgerSource::BuybackBurn => 9,
    }
}

/// One bookkeeping line of the reconciliation tape.
#[derive(Clone, Copy, Debug, PartialEq, Eq, Structural)]
pub struct LedgerRecord {
    pub id: u64,
    pub source: LedgerSource,
    pub token: AccountId,
    /// Positive: funds flowing in; negative: funds flowing out.
    pub amount: i128,
    pub aux_bps: u32,
    pub gross_base: i128,
    pub account: AccountId,
    pub reference: SymbolId,
    pub timestamp: u64,
}

#[derive(Clone, Copy, Debug, PartialEq, Eq, Structural)]
pub struct FeeValidationEntry {
    pub reference: SymbolId,
    pub gross_amount: i128,
    pub fee_bps: u32,
    pub expected_fee: i128,
    pub recorded_fee: i128,
    pub expected_net: i128,
    pub recorded_net: i128,
    pub fee_matches: bool,
    pub net_matches: bool,
    pub sum_matches: bool,
}

#[derive(Clone, Copy, Debug, PartialEq, Eq, Structural)]
pub struct ReferralValidationEntry {
    pub referrer: AccountId,
    /// 0 = mentor, 1 = learner, 2 = fee-based.
    pub referee_type: u32,
    pub base_reward: i128,
    pub multiplier_bps: u32,
    pub expected: i128,
    pub recorded: i128,
    pub matches: bool,
    pub within_lifetime_cap: bool,
    pub within_global_cap: bool,
}

#[derive(Clone, Copy, Debug, PartialEq, Eq, Structural)]
pub struct InsuranceValidationEntry {
    /// Zero: the entry aggregates all providers.
    pub provider: AccountId,
    pub expected_shares: i128,
    pub recorded_shares: i128,
    pub expected_pool_delta: i128,
    pub recorded_pool_delta: i128,
    pub shares_match: bool,
    pub pool_match: bool,
}

#[derive(Clone, Copy, Debug, PartialEq, Eq, Structural)]
pub struct ConsistencyProbe {
    pub contract: AccountId,
    pub token: AccountId,
    pub actual_balance: i128,
    pub computed_balance: i128,
    pub difference: i128,
    pub consistent: bool,
}

/// Field that a mismatch concerns.
#[derive(Clone, Copy, Debug, PartialEq, Eq, Structural)]
pub enum MismatchField {
    PlatformFee,
    ReferralPayout,
    TreasuryBalance,
    PoolVsShares,
    AuxBps,
    GrossBase,
    Sign,
    Reference,
}

/// Kind of accounting mismatch.
#[derive(Clone, Copy, Debug, PartialEq, Eq, Structural)]
pub enum MismatchKind {
    FeeMath,
    RefMath,
    BalMismatch,
    InsPoolMismatch,
    BpsOverCap,
    ZeroGrossFee,
    SignFlipPos,
    SignFlipNeg,
    DoubleCount,
}

#[derive(Clone, Copy, Debug, PartialEq, Eq, Structural)]
pub struct MismatchRecord {
    pub record_id: u64,
    pub source: LedgerSource,
    pub field: MismatchField,
    pub expected: i128,
    pub recorded: i128,
    pub difference: i128,
    /// 1 = warn, 2 = critical, 3 = fatal.
    pub severity: u32,
    pub description: MismatchKind,
}

/// Summary tag of a report.
#[derive(Clone, Copy, Debug, PartialEq, Eq, Structural)]
pub enum SummaryTag {
    Clean,
    Warn,
    Fail,
}

#[derive(Clone, Copy, Debug, PartialEq, Eq, Structural)]
pub struct ReconciliationReport {
    pub report_id: u64,
    pub generated_at: u64,
    pub range_start: u64,
    pub range_end: u64,
    pub records_processed: u64,
    pub total_inflows: i128,
    pub total_outflows: i128,
    pub net_flow: i128,
    pub fee_validations: u32,
    pub fee_failures: u32,
    pub referral_validations: u32,
    pub referral_failures: u32,
    pub insurance_validations: u32,
    pub insurance_failures: u32,
    pub consistency_probes: u32,
    pub probes_failed: u32,
    pub mismatches_found: u32,
    pub critical_mismatches: u32,
    pub treasury_balance_start: i128,
    pub treasury_balance_end: i128,
    pub treasury_computed_delta: i128,
    pub reconciled: bool,
    pub summary_tag: SummaryTag,
}

#[derive(Clone, Copy, Debug, PartialEq, Eq, Structural)]
pub struct HistoricalTx {
    pub tx_id: u64,
    pub op: SymbolId,
    pub amount: i128,
    pub token: AccountId,
    pub sender: AccountId,
    pub recipient: AccountId,
    pub reference: SymbolId,
    pub timestamp: u64,
}

/// Addresses fixed at initialization.
#[derive(Clone, Copy, Debug, PartialEq, Eq, Structural)]
pub struct ReconConfig {
    pub admin: AccountId,
    pub escrow: AccountId,
    pub treasury: AccountId,
    pub referral: AccountId,
    pub insurance: AccountId,
}

/// Events published by the engine.
#[derive(Clone, Copy, Debug, PartialEq, Eq, Structural)]
pub enum ReconEvent {
    RecordAdded { id: u64, source_code: u32, amount: i128, timestamp: u64 },
    Report { report_id: u64, processed: u64, found: u64, tag: SummaryTag },
}

// ---------------------------------------------------------------------------
// Pure arithmetic
// ---------------------------------------------------------------------------

/// Platform fee: `gross * fee_bps / 10_000` truncated; zero for a
/// non-positive gross, a zero rate, or when the product overflows.
pub open spec fn platform_fee_spec(gross: i128, fee_bps: u32) -> i128 {
    if gross <= 0 || fee_bps == 0 {
        0
    } else if gross * fee_bps > i128::MAX {
        0
    } else {
        ((gross * fee_bps) / 10_000) as i128
    }
}

/// Platform fee = gross * fee_bps / 10_000 (truncating toward zero).
pub fn calc_platform_fee(gross_amount: i128, fee_bps: u32) -> (r: i128)
    ensures
        r == platform_fee_spec(gross_amount, fee_bps),
        0 <= r,
        gross_amount >= 0 && fee_bps <= 10_000 ==> r <= gross_amount,
{
    if gross_amount <= 0 || fee_bps == 0 {
        return 0;
    }
    let r = match gross_amount.checked_mul(fee_bps as i128) {
        Some(v) => v / BPS_DENOM,
        None => 0,
    };
    proof {
        if gross_amount * fee_bps <= i128::MAX && fee_bps <= 10_000 {
            assert((gross_amount * fee_bps) / 10_000 <= gross_amount) by (nonlinear_arith)
                requires gross_amount > 0, fee_bps <= 10_000;
        }
        if gross_amount * fee_bps <= i128::MAX {
            assert((gross_amount * fee_bps) / 10_000 >= 0) by (nonlinear_arith)
                requires gross_amount > 0, fee_bps > 0;
        }
    }
    r
}

/// Insurance yield on a platform fee: one ten-thousandth of the fee,
/// truncated (10 on a fee of 100_000, nothing below 10_000).
pub fn calc_insurance_yield(platform_fee: i128) -> (r: i128)
    ensures
        r == platform_fee_spec(platform_fee, INSURANCE_YIELD_BPS),
{
    calc_platform_fee(platform_fee, INSURANCE_YIELD_BPS)
}

/// Fee-based referral reward = platform_fee * reward_bps / 10_000.
pub fn calc_referral_fee_reward(platform_fee: i128, reward_bps: u32) -> (r: i128)
    ensures
        r == platform_fee_spec(platform_fee, reward_bps),
{
    calc_platform_fee(platform_fee, reward_bps)
}

/// `base * multiplier / 10_000`, or zero when the product overflows.
pub open spec fn scaled_reward(base: i128, multiplier: u32) -> i128 {
    if base * multiplier > i128::MAX || base * multiplier < i128::MIN {
        0
    } else {
        crate::oracle_consumer::trunc_div(base * multiplier, 10_000) as i128
    }
}

fn scale_reward(base: i128, multiplier: u32) -> (r: i128)
    ensures
        r == scaled_reward(base, multiplier),
{
    match base.checked_mul(multiplier as i128) {
        Some(v) => v / BPS_DENOM,
        None => 0,
    }
}

pub open spec fn referral_caps_spec(base: i128, multiplier_bps: u32, remaining_lifetime: i128, remaining_global: i128) -> i128 {
    let m: u32 = if multiplier_bps >= 10_000 { multiplier_bps } else { 10_000 };
    let raw = scaled_reward(base, m);
    min_int(min_int(raw as int, max_int(remaining_lifetime as int, 0)), max_int(remaining_global as int, 0)) as i128
}

/// Apply the multiplier (at least 1x) and clamp the reward to the smaller
/// of the remaining lifetime and global allowances (never below zero caps).
pub fn apply_referral_caps(base_reward: i128, multiplier_bps: u32, remaining_lifetime: i128, remaining_global: i128) -> (r: i128)
    ensures
        r == referral_caps_spec(base_reward, multiplier_bps, remaining_lifetime, remaining_global),
        r <= remaining_lifetime || remaining_lifetime < 0,
        r <= remaining_global || remaining_global < 0,
{
    let m: u32 = if multiplier_bps >= 10_000 { multiplier_bps } else { 10_000 };
    let raw = scale_reward(base_reward, m);
    let lt = if remaining_lifetime >= 0 { remaining_lifetime } else { 0 };
    let gl = if remaining_global >= 0 { remaining_global } else { 0 };
    let after_lt = if raw <= lt { raw } else { lt };
    if after_lt <= gl { after_lt } else { gl }
}

// ---------------------------------------------------------------------------
// Record access and per-record rules
// ---------------------------------------------------------------------------

/// The record with id `id` (ids start at 1).
pub open spec fn rec_at(records: Seq<LedgerRecord>, id: int) -> Option<LedgerRecord> {
    if 1 <= id <= records.len() { Some(records[id - 1]) } else { None }
}

/// `recorded - expected`, or zero when it does not fit.
pub open spec fn checked_diff(recorded: i128, expected: i128) -> i128 {
    if recorded - expected > i128::MAX || recorded - expected < i128::MIN { 0 } else { (recorded - expected) as i128 }
}

fn diff_or_zero(recorded: i128, expected: i128) -> (r: i128)
    ensures
        r == checked_diff(recorded, expected),
{
    match recorded.checked_sub(expected) {
        Some(v) => v,
        None => 0,
    }
}

pub open spec fn make_mismatch(
    record_id: u64,
    source: LedgerSource,
    field: MismatchField,
    expected: i128,
    recorded: i128,
    severity: u32,
    description: MismatchKind,
) -> MismatchRecord {
    MismatchRecord { record_id, source, field, expected, recorded, difference: checked_diff(recorded, expected), severity, description }
}

pub open spec fn fee_entry_spec(rec: LedgerRecord) -> FeeValidationEntry {
    let expected_fee = platform_fee_spec(rec.gross_base, rec.aux_bps);
    let expected_net = checked_diff(rec.gross_base, expected_fee);
    let recorded_fee: i128 = if rec.amount >= 0 { rec.amount } else { 0 };
    let recorded_net = checked_diff(rec.gross_base, recorded_fee);
    FeeValidationEntry {
        reference: rec.reference,
        gross_amount: rec.gross_base,
        fee_bps: rec.aux_bps,
        expected_fee,
        recorded_fee,
        expected_net,
        recorded_net,
        fee_matches: recorded_fee == expected_fee,
        net_matches: recorded_net == expected_net,
        sum_matches: recorded_fee + recorded_net <= i128::MAX && recorded_fee + recorded_net == rec.gross_base,
    }
}

pub open spec fn fee_entry_ok(e: FeeValidationEntry) -> bool {
    e.fee_matches && e.net_matches && e.sum_matches
}

/// Entries and raised mismatches of the fee validation over ids in
/// `[lo, upto)`.
pub open spec fn fee_scan(records: Seq<LedgerRecord>, lo: int, upto: int) -> (Seq<FeeValidationEntry>, Seq<MismatchRecord>)
    decreases upto - lo,
{
    if upto <= lo {
        (Seq::empty(), Seq::empty())
    } else {
        let (es, ms) = fee_scan(records, lo, upto - 1);
        match rec_at(records, upto - 1) {
            Some(rec) => if rec.source == LedgerSource::EscrowFee {
                let e = fee_entry_spec(rec);
                let ms2 = if fee_entry_ok(e) {
                    ms
                } else {
                    ms.push(make_mismatch((upto - 1) as u64, rec.source, MismatchField::PlatformFee, e.expected_fee, e.recorded_fee,
                        if !e.sum_matches { 3 } else { 2 }, MismatchKind::FeeMath))
                };
                (es.push(e), ms2)
            } else {
                (es, ms)
            },
            None => (es, ms),
        }
    }
}

/// Running state of the referral validation: entries, raised mismatches,
/// global amount used and per-referrer lifetime totals.
pub struct RefScan {
    pub entries: Seq<ReferralValidationEntry>,
    pub mismatches: Seq<MismatchRecord>,
    pub global_used: i128,
    pub lifetime: Map<AccountId, i128>,
}

pub open spec fn ref_type_base(rec: LedgerRecord) -> Option<(u32, i128)> {
    match rec.source {
        LedgerSource::ReferralReward => if rec.aux_bps == 0 {
            Some((1u32, REFERRAL_REWARD_LEARNER))
        } else {
            Some((0u32, REFERRAL_REWARD_MENTOR))
        },
        LedgerSource::ReferralFeeDist => Some((2u32, platform_fee_spec(rec.gross_base, rec.aux_bps))),
        _ => None,
    }
}

pub open spec fn clamp_multiplier(aux_bps: u32, max_multiplier_bps: u32) -> u32 {
    let lo: u32 = if aux_bps >= 10_000 { aux_bps } else { 10_000 };
    let hi: u32 = if max_multiplier_bps >= 10_000 { max_multiplier_bps } else { 10_000 };
    if lo <= hi { lo } else { hi }
}

/// The largest multiplier the caller allows (never below 1x).
pub open spec fn multiplier_ceiling(max_multiplier_bps: u32) -> u32 {
    if max_multiplier_bps >= 10_000 { max_multiplier_bps } else { 10_000 }
}

/// A learner reward (`ReferralReward` with `aux_bps == 0`) records the
/// referee type, not the multiplier the leaderboard applied.
pub open spec fn multiplier_unrecorded(rec: LedgerRecord) -> bool {
    rec.source == LedgerSource::ReferralReward && rec.aux_bps == 0
}

/// Expected payout of a reward whose multiplier was not recorded: the base
/// (1x), unless the recorded payout is the base at the largest allowed
/// multiplier, which is then expected as it stands.
pub open spec fn learner_expected(base: i128, ceiling_multiplier: u32, recorded: i128) -> i128 {
    let top = scaled_reward(base, ceiling_multiplier);
    if recorded == top {
        top
    } else {
        base
    }
}

pub open spec fn ref_step(st: RefScan, id: u64, rec: LedgerRecord, max_mult: u32, max_lt: i128, global_cap: i128) -> RefScan {
    match ref_type_base(rec) {
        Some((ref_type, base)) => {
            let unrecorded = multiplier_unrecorded(rec);
            let multiplier = if unrecorded { multiplier_ceiling(max_mult) } else { clamp_multiplier(rec.aux_bps, max_mult) };
            let recorded: i128 = if rec.amount >= 0 { rec.amount } else { 0 };
            let expected_raw = if unrecorded {
                learner_expected(base, multiplier, recorded)
            } else {
                scaled_reward(base, multiplier)
            };
            let prev_lt: i128 = if st.lifetime.contains_key(rec.account) { st.lifetime[rec.account] } else { 0 };
            let after_lt = clamp_i128(prev_lt + expected_raw);
            let under_lt = after_lt <= max_lt;
            let expected1 = if under_lt { expected_raw } else { clamp_i128(max_lt - prev_lt) };
            let after_global = clamp_i128(st.global_used + expected1);
            let under_global = after_global <= global_cap;
            let expected = if under_global { expected1 } else { clamp_i128(global_cap - st.global_used) };
            let ok = recorded == expected;
            let entry = ReferralValidationEntry {
                referrer: rec.account,
                referee_type: ref_type,
                base_reward: base,
                multiplier_bps: multiplier,
                expected,
                recorded,
                matches: ok,
                within_lifetime_cap: under_lt,
                within_global_cap: under_global,
            };
            RefScan {
                entries: st.entries.push(entry),
                mismatches: if ok {
                    st.mismatches
                } else {
                    st.mismatches.push(make_mismatch(id, rec.source, MismatchField::ReferralPayout, expected, recorded, 2, MismatchKind::RefMath))
                },
                global_used: clamp_i128(st.global_used + expected),
                lifetime: st.lifetime.insert(rec.account, after_lt),
            }
        },
        None => st,
    }
}

pub open spec fn ref_scan(records: Seq<LedgerRecord>, lo: int, upto: int, max_mult: u32, max_lt: i128, global_cap: i128) -> RefScan
    decreases upto - lo,
{
    if upto <= lo {
        RefScan { entries: Seq::empty(), mismatches: Seq::empty(), global_used: 0, lifetime: Map::empty() }
    } else {
        let st = ref_scan(records, lo, upto - 1, max_mult, max_lt, global_cap);
        match rec_at(records, upto - 1) {
            Some(rec) => ref_step(st, (upto - 1) as u64, rec, max_mult, max_lt, global_cap),
            None => st,
        }
    }
}

/// Whether a record moves the treasury balance (for the given token).
pub open spec fn treasury_relevant(rec: LedgerRecord, token: AccountId) -> bool {
    &&& rec.token == token
    &&& ((rec.source == LedgerSource::EscrowFee || rec.source == LedgerSource::TreasuryDeposit) && rec.amount >= 0)
        || ((rec.source == LedgerSource::TreasuryAlloc || rec.source == LedgerSource::TreasuryDistrib
        || rec.source == LedgerSource::BuybackBurn) && rec.amount <= 0)
}

/// The treasury balance computed from `start_balance` over ids in
/// `[lo, upto)`; an addition that would overflow is skipped.
pub open spec fn treasury_scan(records: Seq<LedgerRecord>, lo: int, upto: int, token: AccountId, start_balance: i128) -> i128
    decreases upto - lo,
{
    if upto <= lo {
        start_balance
    } else {
        let c = treasury_scan(records, lo, upto - 1, token, start_balance);
        match rec_at(records, upto - 1) {
            Some(rec) => if treasury_relevant(rec, token) && i128::MIN <= c + rec.amount <= i128::MAX {
                (c + rec.amount) as i128
            } else {
                c
            },
            None => c,
        }
    }
}

/// A non-zero amount recorded against a zero gross. Insurance rows are not
/// taken from a gross: yields accrue on the pool and a correctly signed
/// (negative) claim is paid out of it, so neither counts; every other
/// non-zero amount does.
pub open spec fn zero_gross_fee(rec: LedgerRecord) -> bool {
    &&& rec.gross_base == 0
    &&& rec.amount != 0
    &&& rec.source != LedgerSource::InsuranceYield
    &&& !(rec.source == LedgerSource::InsuranceClaim && rec.amount < 0)
}

/// Structural mismatches of one record, in the order they are raised,
/// before the duplicate check.
pub open spec fn structural_checks(id: u64, rec: LedgerRecord) -> Seq<MismatchRecord> {
    let s1: Seq<MismatchRecord> = if rec.aux_bps > 10_000 {
        seq![MismatchRecord { record_id: id, source: rec.source, field: MismatchField::AuxBps, expected: 10_000,
            recorded: rec.aux_bps as i128, difference: (rec.aux_bps - 10_000) as i128, severity: 2,
            description: MismatchKind::BpsOverCap }]
    } else {
        Seq::empty()
    };
    let s2 = if zero_gross_fee(rec) {
        s1.push(MismatchRecord { record_id: id, source: rec.source, field: MismatchField::GrossBase, expected: 0,
            recorded: rec.amount, difference: rec.amount, severity: 3, description: MismatchKind::ZeroGrossFee })
    } else {
        s1
    };
    let pos_expected = rec.source == LedgerSource::EscrowFee || rec.source == LedgerSource::ReferralReward
        || rec.source == LedgerSource::ReferralFeeDist || rec.source == LedgerSource::InsuranceYield
        || rec.source == LedgerSource::TreasuryDeposit;
    let s3 = if pos_expected && rec.amount < 0 {
        s2.push(MismatchRecord { record_id: id, source: rec.source, field: MismatchField::Sign, expected: 1, recorded: -1i128,
            difference: -2i128, severity: 3, description: MismatchKind::SignFlipPos })
    } else {
        s2
    };
    if !pos_expected && rec.amount > 0 {
        s3.push(MismatchRecord { record_id: id, source: rec.source, field: MismatchField::Sign, expected: -1i128, recorded: 1,
            difference: 2, severity: 3, description: MismatchKind::SignFlipNeg })
    } else {
        s3
    }
}

/// Structural scan over ids in `[lo, upto)`: raised mismatches and the
/// `(reference, source code)` pairs seen so far.
pub open spec fn structural_scan(records: Seq<LedgerRecord>, lo: int, upto: int) -> (Seq<MismatchRecord>, Seq<(SymbolId, u32)>)
    decreases upto - lo,
{
    if upto <= lo {
        (Seq::empty(), Seq::empty())
    } else {
        let (ms, seen) = structural_scan(records, lo, upto - 1);
        match rec_at(records, upto - 1) {
            Some(rec) => {
                let id = (upto - 1) as u64;
                let ms2 = ms + structural_checks(id, rec);
                let pair = (rec.reference, source_code_spec(rec.source));
                if seen.contains(pair) {
                    (ms2.push(MismatchRecord { record_id: id, source: rec.source, field: MismatchField::Reference, expected: 0,
                        recorded: 1, difference: 1, severity: 3, description: MismatchKind::DoubleCount }), seen)
                } else {
                    (ms2, seen.push(pair))
                }
            },
            None => (ms, seen),
        }
    }
}

/// Totals over ids in `[lo, upto)`: (records processed, saturated inflows,
/// saturated outflows).
pub open spec fn flow_scan(records: Seq<LedgerRecord>, lo: int, upto: int) -> (int, i128, i128)
    decreases upto - lo,
{
    if upto <= lo {
        (0, 0, 0)
    } else {
        let (n, ins, outs) = flow_scan(records, lo, upto - 1);
        match rec_at(records, upto - 1) {
            Some(rec) => if rec.amount >= 0 {
                (n + 1, clamp_i128(ins + rec.amount), outs)
            } else {
                (n + 1, ins, clamp_i128(outs - rec.amount))
            },
            None => (n, ins, outs),
        }
    }
}

/// Number of scanned ids: the ids `start ..= min(end, count)`.
pub open spec fn scan_end(records: Seq<LedgerRecord>, end: u64) -> int {
    min_int(end as int, records.len() as int) + 1
}

pub proof fn lemma_scan_lengths(records: Seq<LedgerRecord>, lo: int, upto: int, mm: u32, lt: i128, gc: i128)
    requires
        lo <= upto,
    ensures
        fee_scan(records, lo, upto).0.len() <= upto - lo,
        fee_scan(records, lo, upto).1.len() <= upto - lo,
        ref_scan(records, lo, upto, mm, lt, gc).entries.len() <= upto - lo,
        ref_scan(records, lo, upto, mm, lt, gc).mismatches.len() <= upto - lo,
        structural_scan(records, lo, upto).0.len() <= 4 * (upto - lo),
        0 <= flow_scan(records, lo, upto).0 <= upto - lo,
    decreases upto - lo,
{
    if upto > lo {
        lemma_scan_lengths(records, lo, upto - 1, mm, lt, gc);
    }
}


/// Recorded shares of a provider in an aggregate map; zero when unknown.
pub open spec fn agg_shares(agg: Map<AccountId, i128>, a: AccountId) -> i128 {
    if agg.contains_key(a) { agg[a] } else { 0 }
}

/// Sum of the recorded shares of the first `n` providers; an addition that
/// would overflow is skipped.
pub open spec fn shares_sum(agg: Map<AccountId, i128>, providers: Seq<AccountId>, n: int) -> i128
    decreases n,
{
    if n <= 0 {
        0
    } else {
        let prev = shares_sum(agg, providers, n - 1);
        let s = agg_shares(agg, providers[n - 1]);
        if i128::MIN <= prev + s <= i128::MAX { (prev + s) as i128 } else { prev }
    }
}

pub open spec fn count_fee_failures(s: Seq<FeeValidationEntry>) -> int
    decreases s.len(),
{
    if s.len() == 0 { 0 } else { count_fee_failures(s.drop_last()) + if fee_entry_ok(s.last()) { 0int } else { 1int } }
}

pub open spec fn count_ref_failures(s: Seq<ReferralValidationEntry>) -> int
    decreases s.len(),
{
    if s.len() == 0 { 0 } else { count_ref_failures(s.drop_last()) + if s.last().matches { 0int } else { 1int } }
}

pub open spec fn count_critical(s: Seq<MismatchRecord>) -> int
    decreases s.len(),
{
    if s.len() == 0 { 0 } else { count_critical(s.drop_last()) + if s.last().severity >= 2 { 1int } else { 0int } }
}

pub proof fn lemma_counts_bounded(a: Seq<FeeValidationEntry>, b: Seq<ReferralValidationEntry>, c: Seq<MismatchRecord>)
    ensures
        0 <= count_fee_failures(a) <= a.len(),
        0 <= count_ref_failures(b) <= b.len(),
        0 <= count_critical(c) <= c.len(),
    decreases a.len() + b.len() + c.len(),
{
    if a.len() > 0 {
        lemma_counts_bounded(a.drop_last(), b, c);
    } else if b.len() > 0 {
        lemma_counts_bounded(a, b.drop_last(), c);
    } else if c.len() > 0 {
        lemma_counts_bounded(a, b, c.drop_last());
    }
}

fn fee_failures(v: &Vec<FeeValidationEntry>) -> (r: u32)
    requires
        v@.len() <= u32::MAX,
    ensures
        r == count_fee_failures(v@),
{
    let mut n: u32 = 0;
    let mut i: usize = 0;
    while i < v.len()
        invariant
            0 <= i <= v@.len(),
            v@.len() <= u32::MAX,
            n == count_fee_failures(v@.take(i as int)),
            n <= i,
        decreases v@.len() - i,
    {
        assert(v@.take(i as int + 1).drop_last() =~= v@.take(i as int));
        let e = v[i];
        if !e.fee_matches || !e.net_matches || !e.sum_matches {
            n = n + 1;
        }
        i = i + 1;
    }
    assert(v@.take(v@.len() as int) =~= v@);
    n
}

fn ref_failures(v: &Vec<ReferralValidationEntry>) -> (r: u32)
    requires
        v@.len() <= u32::MAX,
    ensures
        r == count_ref_failures(v@),
{
    let mut n: u32 = 0;
    let mut i: usize = 0;
    while i < v.len()
        invariant
            0 <= i <= v@.len(),
            v@.len() <= u32::MAX,
            n == count_ref_failures(v@.take(i as int)),
            n <= i,
        decreases v@.len() - i,
    {
        assert(v@.take(i as int + 1).drop_last() =~= v@.take(i as int));
        if !v[i].matches {
            n = n + 1;
        }
        i = i + 1;
    }
    assert(v@.take(v@.len() as int) =~= v@);
    n
}

fn critical_count(v: &Vec<MismatchRecord>) -> (r: u32)
    requires
        v@.len() <= u32::MAX,
    ensures
        r == count_critical(v@),
{
    let mut n: u32 = 0;
    let mut i: usize = 0;
    while i < v.len()
        invariant
            0 <= i <= v@.len(),
            v@.len() <= u32::MAX,
            n == count_critical(v@.take(i as int)),
            n <= i,
        decreases v@.len() - i,
    {
        assert(v@.take(i as int + 1).drop_last() =~= v@.take(i as int));
        if v[i].severity >= 2 {
            n = n + 1;
        }
        i = i + 1;
    }
    assert(v@.take(v@.len() as int) =~= v@);
    n
}

/// Parameters of a report run.
#[derive(Clone, Copy, Debug, PartialEq, Eq, Structural)]
pub struct ReportParams {
    pub start: u64,
    pub end: u64,
    pub token: AccountId,
    pub start_treasury_bal: i128,
    pub max_multiplier_bps: u32,
    pub max_lifetime_per_ref: i128,
    pub global_ref_cap: i128,
    pub insurance_pool_bal: i128,
}

/// The mismatches raised by one report run, in order: fee, referral,
/// treasury, insurance pool and structural.
pub open spec fn report_mismatches(e: ReconciliationEngine, p: ReportParams, providers: Seq<AccountId>, actual: i128) -> Seq<MismatchRecord> {
    let recs = e.records@;
    let upto = scan_end(recs, p.end);
    let fm = fee_scan(recs, p.start as int, upto).1;
    let rm = ref_scan(recs, p.start as int, upto, p.max_multiplier_bps, p.max_lifetime_per_ref, p.global_ref_cap).mismatches;
    let computed = treasury_scan(recs, p.start as int, upto, p.token, p.start_treasury_bal);
    let tm: Seq<MismatchRecord> = if checked_diff(actual, computed) == 0 {
        Seq::empty()
    } else {
        seq![make_mismatch(0, LedgerSource::TreasuryDeposit, MismatchField::TreasuryBalance, computed, actual, 3, MismatchKind::BalMismatch)]
    };
    let total = shares_sum(e.insurance_agg@, providers, providers.len() as int);
    let im: Seq<MismatchRecord> = if total == p.insurance_pool_bal {
        Seq::empty()
    } else {
        seq![make_mismatch(0, LedgerSource::InsuranceYield, MismatchField::PoolVsShares, total, p.insurance_pool_bal, 2,
            MismatchKind::InsPoolMismatch)]
    };
    fm + rm + tm + im + structural_scan(recs, p.start as int, upto).0
}

/// The report produced by a run at time `now` over engine `e`.
pub open spec fn report_spec(e: ReconciliationEngine, p: ReportParams, providers: Seq<AccountId>, actual: i128, now: u64) -> ReconciliationReport {
    let recs = e.records@;
    let upto = scan_end(recs, p.end);
    let fees = fee_scan(recs, p.start as int, upto).0;
    let refs = ref_scan(recs, p.start as int, upto, p.max_multiplier_bps, p.max_lifetime_per_ref, p.global_ref_cap).entries;
    let computed = treasury_scan(recs, p.start as int, upto, p.token, p.start_treasury_bal);
    let consistent = checked_diff(actual, computed) == 0;
    let total = shares_sum(e.insurance_agg@, providers, providers.len() as int);
    let ins_fail: int = if total == p.insurance_pool_bal { 0 } else { 1 };
    let probes_failed: int = if consistent { 0 } else { 1 };
    let structural = structural_scan(recs, p.start as int, upto).0;
    let (processed, ins, outs) = flow_scan(recs, p.start as int, upto);
    let found = report_mismatches(e, p, providers, actual).len();
    let fee_fail = count_fee_failures(fees);
    let ref_fail = count_ref_failures(refs);
    let critical = count_critical(structural) + fee_fail + ref_fail + ins_fail + probes_failed;
    let reconciled = fee_fail == 0 && ref_fail == 0 && ins_fail == 0 && consistent && found == 0;
    ReconciliationReport {
        report_id: (e.reports@.len() + 1) as u64,
        generated_at: now,
        range_start: p.start,
        range_end: p.end,
        records_processed: processed as u64,
        total_inflows: ins,
        total_outflows: outs,
        net_flow: clamp_i128(ins - outs),
        fee_validations: fees.len() as u32,
        fee_failures: fee_fail as u32,
        referral_validations: refs.len() as u32,
        referral_failures: ref_fail as u32,
        insurance_validations: 1,
        insurance_failures: ins_fail as u32,
        consistency_probes: 1,
        probes_failed: probes_failed as u32,
        mismatches_found: found as u32,
        critical_mismatches: critical as u32,
        treasury_balance_start: p.start_treasury_bal,
        treasury_balance_end: actual,
        treasury_computed_delta: checked_diff(computed, p.start_treasury_bal),
        reconciled,
        summary_tag: if reconciled { SummaryTag::Clean } else if critical == 0 { SummaryTag::Warn } else { SummaryTag::Fail },
    }
}

/// The reconciliation engine's state.
pub struct ReconciliationEngine {
    pub config: Option<ReconConfig>,
    /// Record with id `k` is `records[k - 1]`.
    pub records: Vec<LedgerRecord>,
    /// Mismatch with id `k` is `mismatches[k - 1]`.
    pub mismatches: Vec<MismatchRecord>,
    pub reports: Vec<ReconciliationReport>,
    pub historical: Vec<HistoricalTx>,
    /// Running (inflow, outflow) totals per source; entry `code - 1`.
    pub running_totals: Vec<(i128, i128)>,
    /// Referrer aggregates: (pending_claimed, total_credited).
    pub referrer_agg: std::collections::HashMap<AccountId, (i128, i128)>,
    /// Insurance provider shares.
    pub insurance_agg: std::collections::HashMap<AccountId, i128>,
    pub events: Vec<ReconEvent>,
}

/// Upper bound on the number of records the engine accepts, so that every
/// counter of a report fits in 32 bits.
pub const MAX_RECORDS: u64 = 100_000_000;

impl ReconciliationEngine {
    /// Well-formedness: record and report ids match their positions and the
    /// running totals hold one pair per source.
    /// Room left in the mismatch log for one full validation pass (a
    /// length that must fit in the 64-bit mismatch counter).
    pub open spec fn mismatch_room(&self) -> bool {
        self.mismatches@.len() < u64::MAX - 16 * MAX_RECORDS - 16
    }

    pub open spec fn wf(&self) -> bool {
        &&& self.running_totals@.len() == 9
        &&& forall|i: int| 0 <= i < self.records@.len() ==> #[trigger] self.records@[i].id == i + 1
        &&& forall|i: int| 0 <= i < self.reports@.len() ==> #[trigger] self.reports@[i].report_id == i + 1
        &&& forall|i: int| 0 <= i < self.historical@.len() ==> #[trigger] self.historical@[i].tx_id == i + 1
        &&& self.records@.len() <= MAX_RECORDS
        &&& self.reports@.len() < u64::MAX
        &&& self.historical@.len() < u64::MAX
    }

    /// An engine before initialization.
    pub fn new() -> (r: Self)
        ensures
            r.wf(),
            r.config is None,
            r.records@.len() == 0,
            r.mismatches@.len() == 0,
            r.reports@.len() == 0,
            r.historical@.len() == 0,
            forall|i: int| 0 <= i < 9 ==> r.running_totals@[i] == (0i128, 0i128),
            r.referrer_agg@ == Map::<AccountId, (i128, i128)>::empty(),
            r.insurance_agg@ == Map::<AccountId, i128>::empty(),
            r.events@.len() == 0,
    {
        let mut running_totals: Vec<(i128, i128)> = Vec::new();
        let mut i: usize = 0;
        while i < 9
            invariant
                0 <= i <= 9,
                running_totals@.len() == i,
                forall|k: int| 0 <= k < i ==> running_totals@[k] == (0i128, 0i128),
            decreases 9 - i,
        {
            running_totals.push((0, 0));
            i = i + 1;
        }
        ReconciliationEngine {
            config: None,
            records: Vec::new(),
            mismatches: Vec::new(),
            reports: Vec::new(),
            historical: Vec::new(),
            running_totals,
            referrer_agg: std::collections::HashMap::new(),
            insurance_agg: std::collections::HashMap::new(),
            events: Vec::new(),
        }
    }

    /// Initialize with the admin and the escrow, treasury, referral and
    /// insurance contracts; fails if already initialized.
    pub fn initialize(
        &mut self,
        admin: AccountId,
        escrow: AccountId,
        treasury: AccountId,
        referral: AccountId,
        insurance: AccountId,
    ) -> (r: Result<(), Error>)
        requires
            old(self).wf(),
        ensures
            final(self).wf(),
            old(self).config is Some ==> r == Err::<(), Error>(Error::AlreadyInitialized) && *final(self) == *old(self),
            old(self).config is None ==> r is Ok && *final(self) == (ReconciliationEngine {
                config: Some(ReconConfig { admin, escrow, treasury, referral, insurance }),
                ..*old(self)
            }),
    {
        if self.config.is_some() {
            return Err(Error::AlreadyInitialized);
        }
        self.config = Some(ReconConfig { admin, escrow, treasury, referral, insurance });
        Ok(())
    }

    /// The admin check: `NotInitialized` before initialization,
    /// `Unauthorized` for any caller but the admin.
    pub open spec fn admin_check(&self, caller: AccountId) -> Result<(), Error> {
        match self.config {
            None => Err(Error::NotInitialized),
            Some(c) => if c.admin == caller { Ok(()) } else { Err(Error::Unauthorized) },
        }
    }

    fn assert_admin(&self, caller: AccountId) -> (r: Result<(), Error>)
        ensures
            r == self.admin_check(caller),
    {
        match self.config {
            None => Err(Error::NotInitialized),
            Some(c) => if c.admin == caller { Ok(()) } else { Err(Error::Unauthorized) },
        }
    }

    /// The running totals after a record of `amount`: inflows grow by a
    /// non-negative amount, outflows by the magnitude of a negative one.
    pub open spec fn totals_after(t: (i128, i128), amount: i128) -> Option<(i128, i128)> {
        if amount >= 0 {
            if t.0 + amount > i128::MAX { None } else { Some(((t.0 + amount) as i128, t.1)) }
        } else {
            if t.1 - amount > i128::MAX { None } else { Some((t.0, (t.1 - amount) as i128)) }
        }
    }

    pub open spec fn is_referral_source(s: LedgerSource) -> bool {
        s == LedgerSource::ReferralReward || s == LedgerSource::ReferralFeeDist
    }

    /// Provider shares accrue from yield records only; claims are paid out
    /// of the pool and leave the providers' shares as they are.
    pub open spec fn is_insurance_source(s: LedgerSource) -> bool {
        s == LedgerSource::InsuranceYield
    }

    pub open spec fn referrer_entry(&self, a: AccountId) -> (i128, i128) {
        if self.referrer_agg@.contains_key(a) { self.referrer_agg@[a] } else { (0, 0) }
    }

    pub open spec fn insurance_entry(&self, a: AccountId) -> i128 {
        if self.insurance_agg@.contains_key(a) { self.insurance_agg@[a] } else { 0 }
    }

    /// Whether appending `amount` for `source`/`account` overflows a total
    /// or an aggregate.
    pub open spec fn append_overflows(&self, source: LedgerSource, amount: i128, account: AccountId) -> bool {
        ||| Self::totals_after(self.running_totals@[source_code_spec(source) - 1], amount) is None
        ||| Self::is_referral_source(source) && self.referrer_entry(account).1 + max_int(amount as int, 0) > i128::MAX
        ||| Self::is_insurance_source(source) && (self.insurance_entry(account) + amount > i128::MAX
            || self.insurance_entry(account) + amount < i128::MIN)
    }

    /// Append one record to the tape (admin only) at ledger time `now`;
    /// returns its id. Running totals and the referral or insurance
    /// aggregates of the account are updated; any overflow rejects the
    /// record and leaves the engine unchanged.
    pub fn append_record(
        &mut self,
        caller: AccountId,
        now: u64,
        source: LedgerSource,
        token: AccountId,
        amount: i128,
        aux_bps: u32,
        gross_base: i128,
        account: AccountId,
        reference: SymbolId,
    ) -> (r: Result<u64, Error>)
        requires
            old(self).wf(),
        ensures
            final(self).wf(),
            r is Err ==> *final(self) == *old(self),
            old(self).admin_check(caller) is Err ==> r == Err::<u64, Error>(old(self).admin_check(caller)->Err_0),
            old(self).admin_check(caller) is Ok && old(self).records@.len() >= MAX_RECORDS ==> r == Err::<u64, Error>(
                Error::Overflow,
            ),
            old(self).admin_check(caller) is Ok && old(self).records@.len() < MAX_RECORDS ==> (r is Ok
                <==> !old(self).append_overflows(source, amount, account)),
            old(self).admin_check(caller) is Ok && old(self).records@.len() < MAX_RECORDS && old(self).append_overflows(
                source,
                amount,
                account,
            ) ==> r == Err::<u64, Error>(Error::Overflow),
            r is Ok ==> {
                let id = old(self).records@.len() + 1;
                let code = source_code_spec(source);
                &&& r == Ok::<u64, Error>(id as u64)
                &&& final(self).records@ == old(self).records@.push(LedgerRecord {
                    id: id as u64, source, token, amount, aux_bps, gross_base, account, reference, timestamp: now,
                })
                &&& final(self).running_totals@ == old(self).running_totals@.update(
                    code - 1,
                    Self::totals_after(old(self).running_totals@[code - 1], amount)->Some_0,
                )
                &&& final(self).referrer_agg@ == (if Self::is_referral_source(source) {
                    old(self).referrer_agg@.insert(
                        account,
                        (old(self).referrer_entry(account).0, (old(self).referrer_entry(account).1 + max_int(amount as int, 0)) as i128),
                    )
                } else {
                    old(self).referrer_agg@
                })
                &&& final(self).insurance_agg@ == (if Self::is_insurance_source(source) {
                    old(self).insurance_agg@.insert(account, (old(self).insurance_entry(account) + amount) as i128)
                } else {
                    old(self).insurance_agg@
                })
                &&& final(self).events@ == old(self).events@.push(
                    ReconEvent::RecordAdded { id: id as u64, source_code: code, amount, timestamp: now },
                )
                &&& final(self).config == old(self).config
                &&& final(self).mismatches@ == old(self).mismatches@
                &&& final(self).reports@ == old(self).reports@
                &&& final(self).historical@ == old(self).historical@
            },
    {
        self.assert_admin(caller)?;
        let count = self.records.len() as u64;
        if count >= MAX_RECORDS {
            return Err(Error::Overflow);
        }
        let id = match count.checked_add(1) {
            Some(v) => v,
            None => return Err(Error::Overflow),
        };
        let code = source_code(source);
        let idx = (code - 1) as usize;
        let (ins, outs) = self.running_totals[idx];
        let new_totals: (i128, i128) = if amount >= 0 {
            match ins.checked_add(amount) {
                Some(v) => (v, outs),
                None => return Err(Error::Overflow),
            }
        } else {
            match outs.checked_sub(amount) {
                Some(v) => (ins, v),
                None => return Err(Error::Overflow),
            }
        };
        let referral = match source {
            LedgerSource::ReferralReward | LedgerSource::ReferralFeeDist => true,
            _ => false,
        };
        let insurance = match source {
            LedgerSource::InsuranceYield => true,
            _ => false,
        };
        let mut new_ref: (i128, i128) = (0, 0);
        if referral {
            let (pending, credited) = match self.referrer_agg.get(&account) {
                Some(v) => *v,
                None => (0, 0),
            };
            let add = if amount >= 0 { amount } else { 0 };
            new_ref = match credited.checked_add(add) {
                Some(v) => (pending, v),
                None => return Err(Error::Overflow),
            };
        }
        let mut new_shares: i128 = 0;
        if insurance {
            let shares = match self.insurance_agg.get(&account) {
                Some(v) => *v,
                None => 0,
            };
            new_shares = match shares.checked_add(amount) {
                Some(v) => v,
                None => return Err(Error::Overflow),
            };
        }
        let rec = LedgerRecord { id, source, token, amount, aux_bps, gross_base, account, reference, timestamp: now };
        self.records.push(rec);
        self.running_totals.set(idx, new_totals);
        if referral {
            self.referrer_agg.insert(account, new_ref);
        }
        if insurance {
            self.insurance_agg.insert(account, new_shares);
        }
        self.events.push(ReconEvent::RecordAdded { id, source_code: code, amount, timestamp: now });
        Ok(id)
    }

    /// The record with the given id.
    pub fn get_record(&self, id: u64) -> (r: Result<LedgerRecord, Error>)
        requires
            self.wf(),
        ensures
            r == (match rec_at(self.records@, id as int) {
                Some(rec) => Ok::<LedgerRecord, Error>(rec),
                None => Err(Error::NoData),
            }),
    {
        if id >= 1 && id <= self.records.len() as u64 {
            Ok(self.records[(id - 1) as usize])
        } else {
            Err(Error::NoData)
        }
    }

    pub fn get_record_count(&self) -> (r: u64)
        requires
            self.wf(),
        ensures
            r == self.records@.len(),
    {
        self.records.len() as u64
    }

    fn push_mismatch(&mut self, m: MismatchRecord)
        requires
            old(self).mismatches@.len() < u64::MAX,
        ensures
            *final(self) == (ReconciliationEngine { mismatches: final(self).mismatches, ..*old(self) }),
            final(self).mismatches@ == old(self).mismatches@.push(m),
    {
        self.mismatches.push(m);
    }

    /// Recompute each escrow fee with id in `[start, end]` and record a
    /// mismatch (severity 3 when fee and net do not sum to the gross,
    /// otherwise 2) for every failing entry.
    pub fn validate_fee_distributions(&mut self, start: u64, end: u64) -> (r: Result<Vec<FeeValidationEntry>, Error>)
        requires
            old(self).wf(),
            old(self).mismatch_room(),
        ensures
            final(self).wf(),
            start > end ==> r is Err && r->Err_0 == Error::InvalidRange && *final(self) == *old(self),
            start <= end ==> r is Ok && r->Ok_0@ == fee_scan(old(self).records@, start as int, scan_end(old(self).records@, end)).0
                && final(self).mismatches@ == old(self).mismatches@ + fee_scan(
                old(self).records@,
                start as int,
                scan_end(old(self).records@, end),
            ).1 && *final(self) == (ReconciliationEngine { mismatches: final(self).mismatches, ..*old(self) }),
    {
        if start > end {
            return Err(Error::InvalidRange);
        }
        let count = self.records.len() as u64;
        let hi: u64 = if end <= count { end } else { count };
        let mut out: Vec<FeeValidationEntry> = Vec::new();
        if start > hi {
            return Ok(out);
        }
        let mut id: u64 = start;
        let ghost old_self = *self;
        proof {
            lemma_scan_lengths(self.records@, start as int, hi as int + 1, 0, 0, 0);
        }
        while id <= hi
            invariant
                old_self.wf(),
                old_self.mismatch_room(),
                start <= id,
                id as int <= hi as int + 1,
                hi <= count,
                count == old_self.records@.len(),
                hi as int + 1 == scan_end(old_self.records@, end),
                *self == (ReconciliationEngine { mismatches: self.mismatches, ..old_self }),
                out@ == fee_scan(old_self.records@, start as int, id as int).0,
                self.mismatches@ == old_self.mismatches@ + fee_scan(old_self.records@, start as int, id as int).1,
                fee_scan(old_self.records@, start as int, id as int).1.len() <= id - start,
            decreases hi as int + 1 - id as int,
        {
            proof {
                lemma_scan_lengths(self.records@, start as int, id as int + 1, 0, 0, 0);
            }
            if id >= 1 {
                let rec = self.records[(id - 1) as usize];
                match rec.source {
                    LedgerSource::EscrowFee => {
                        let expected_fee = calc_platform_fee(rec.gross_base, rec.aux_bps);
                        let expected_net = diff_or_zero(rec.gross_base, expected_fee);
                        let recorded_fee = if rec.amount >= 0 { rec.amount } else { 0 };
                        let recorded_net = diff_or_zero(rec.gross_base, recorded_fee);
                        let fee_ok = recorded_fee == expected_fee;
                        let net_ok = recorded_net == expected_net;
                        let sum_ok = match recorded_fee.checked_add(recorded_net) {
                            Some(s) => s == rec.gross_base,
                            None => false,
                        };
                        if !fee_ok || !net_ok || !sum_ok {
                            let diff = diff_or_zero(recorded_fee, expected_fee);
                            self.push_mismatch(MismatchRecord {
                                record_id: id,
                                source: rec.source,
                                field: MismatchField::PlatformFee,
                                expected: expected_fee,
                                recorded: recorded_fee,
                                difference: diff,
                                severity: if !sum_ok { 3 } else { 2 },
                                description: MismatchKind::FeeMath,
                            });
                        }
                        out.push(FeeValidationEntry {
                            reference: rec.reference,
                            gross_amount: rec.gross_base,
                            fee_bps: rec.aux_bps,
                            expected_fee,
                            recorded_fee,
                            expected_net,
                            recorded_net,
                            fee_matches: fee_ok,
                            net_matches: net_ok,
                            sum_matches: sum_ok,
                        });
                    },
                    _ => {},
                }
            }
            proof {
                assert(old_self.mismatches@ + fee_scan(old_self.records@, start as int, id as int + 1).1 =~= self.mismatches@);
            }
            id = id + 1;
        }
        Ok(out)
    }

    /// Recompute each referral payout with id in `[start, end]` under the
    /// given multiplier, per-referrer lifetime and global caps, and record
    /// a mismatch (severity 2) for every payout that differs. A learner
    /// reward carries no multiplier, so it is expected at 1x or at the
    /// largest allowed multiplier.
    pub fn validate_referral_rewards(
        &mut self,
        start: u64,
        end: u64,
        max_multiplier_bps: u32,
        max_lifetime_per_ref: i128,
        global_cap: i128,
    ) -> (r: Result<Vec<ReferralValidationEntry>, Error>)
        requires
            old(self).wf(),
            old(self).mismatch_room(),
        ensures
            final(self).wf(),
            start > end ==> r is Err && r->Err_0 == Error::InvalidRange && *final(self) == *old(self),
            start <= end ==> {
                let st = ref_scan(old(self).records@, start as int, scan_end(old(self).records@, end), max_multiplier_bps,
                    max_lifetime_per_ref, global_cap);
                &&& r is Ok
                &&& r->Ok_0@ == st.entries
                &&& final(self).mismatches@ == old(self).mismatches@ + st.mismatches
                &&& *final(self) == (ReconciliationEngine { mismatches: final(self).mismatches, ..*old(self) })
            },
    {
        if start > end {
            return Err(Error::InvalidRange);
        }
        let count = self.records.len() as u64;
        let hi: u64 = if end <= count { end } else { count };
        let mut out: Vec<ReferralValidationEntry> = Vec::new();
        if start > hi {
            return Ok(out);
        }
        let mut global_used: i128 = 0;
        let mut lifetime: std::collections::HashMap<AccountId, i128> = std::collections::HashMap::new();
        let mut id: u64 = start;
        let ghost old_self = *self;
        while id <= hi
            invariant
                old_self.wf(),
                old_self.mismatch_room(),
                start <= id,
                id as int <= hi as int + 1,
                hi <= count,
                count == old_self.records@.len(),
                hi as int + 1 == scan_end(old_self.records@, end),
                *self == (ReconciliationEngine { mismatches: self.mismatches, ..old_self }),
                ({
                    let st = ref_scan(old_self.records@, start as int, id as int, max_multiplier_bps, max_lifetime_per_ref, global_cap);
                    &&& out@ == st.entries
                    &&& self.mismatches@ == old_self.mismatches@ + st.mismatches
                    &&& global_used == st.global_used
                    &&& lifetime@ == st.lifetime
                    &&& st.mismatches.len() <= id - start
                }),
            decreases hi as int + 1 - id as int,
        {
            proof {
                lemma_scan_lengths(self.records@, start as int, id as int + 1, max_multiplier_bps, max_lifetime_per_ref, global_cap);
            }
            if id >= 1 {
                let rec = self.records[(id - 1) as usize];
                let tb: Option<(u32, i128)> = match rec.source {
                    LedgerSource::ReferralReward => if rec.aux_bps == 0 {
                        Some((1u32, REFERRAL_REWARD_LEARNER))
                    } else {
                        Some((0u32, REFERRAL_REWARD_MENTOR))
                    },
                    LedgerSource::ReferralFeeDist => Some((2u32, calc_platform_fee(rec.gross_base, rec.aux_bps))),
                    _ => None,
                };
                match tb {
                    Some((ref_type, base)) => {
                        let unrecorded = match rec.source {
                            LedgerSource::ReferralReward => rec.aux_bps == 0,
                            _ => false,
                        };
                        let lo: u32 = if rec.aux_bps >= 10_000 { rec.aux_bps } else { 10_000 };
                        let hi_m: u32 = if max_multiplier_bps >= 10_000 { max_multiplier_bps } else { 10_000 };
                        let multiplier = if unrecorded { hi_m } else if lo <= hi_m { lo } else { hi_m };
                        let recorded = if rec.amount >= 0 { rec.amount } else { 0 };
                        let ceiling = scale_reward(base, multiplier);
                        let expected_raw = if !unrecorded {
                            ceiling
                        } else if recorded == ceiling {
                            ceiling
                        } else {
                            base
                        };
                        let prev_lt: i128 = match lifetime.get(&rec.account) {
                            Some(v) => *v,
                            None => 0,
                        };
                        let after_lt = sat_add_i128(prev_lt, expected_raw);
                        let under_lt = after_lt <= max_lifetime_per_ref;
                        let expected1 = if under_lt { expected_raw } else { sat_sub_i128(max_lifetime_per_ref, prev_lt) };
                        let after_global = sat_add_i128(global_used, expected1);
                        let under_global = after_global <= global_cap;
                        let expected = if under_global { expected1 } else { sat_sub_i128(global_cap, global_used) };
                        global_used = sat_add_i128(global_used, expected);
                        lifetime.insert(rec.account, after_lt);
                        let ok = recorded == expected;
                        if !ok {
                            let diff = diff_or_zero(recorded, expected);
                            self.push_mismatch(MismatchRecord {
                                record_id: id,
                                source: rec.source,
                                field: MismatchField::ReferralPayout,
                                expected,
                                recorded,
                                difference: diff,
                                severity: 2,
                                description: MismatchKind::RefMath,
                            });
                        }
                        out.push(ReferralValidationEntry {
                            referrer: rec.account,
                            referee_type: ref_type,
                            base_reward: base,
                            multiplier_bps: multiplier,
                            expected,
                            recorded,
                            matches: ok,
                            within_lifetime_cap: under_lt,
                            within_global_cap: under_global,
                        });
                    },
                    None => {},
                }
            }
            proof {
                let st = ref_scan(old_self.records@, start as int, id as int + 1, max_multiplier_bps, max_lifetime_per_ref, global_cap);
                assert(old_self.mismatches@ + st.mismatches =~= self.mismatches@);
            }
            id = id + 1;
        }
        Ok(out)
    }

    /// The treasury address, once initialized.
    pub fn treasury(&self) -> (r: Option<AccountId>)
        ensures
            r == (match self.config {
                Some(c) => Some(c.treasury),
                None => None::<AccountId>,
            }),
    {
        match self.config {
            Some(c) => Some(c.treasury),
            None => None,
        }
    }

    /// Compare the treasury's actual token balance `actual_balance` (read
    /// from the token contract) with `start_balance` plus the treasury flows
    /// of ids `[start, end]` for that token; an inconsistency is recorded as
    /// a fatal mismatch.
    pub fn check_treasury_consistency(
        &mut self,
        token: AccountId,
        start_balance: i128,
        start: u64,
        end: u64,
        actual_balance: i128,
    ) -> (r: Result<ConsistencyProbe, Error>)
        requires
            old(self).wf(),
            old(self).mismatch_room(),
        ensures
            final(self).wf(),
            start > end ==> r == Err::<ConsistencyProbe, Error>(Error::InvalidRange) && *final(self) == *old(self),
            start <= end && old(self).config is None ==> r == Err::<ConsistencyProbe, Error>(Error::NotInitialized)
                && *final(self) == *old(self),
            start <= end && old(self).config is Some ==> {
                let computed = treasury_scan(old(self).records@, start as int, scan_end(old(self).records@, end), token, start_balance);
                let diff = checked_diff(actual_balance, computed);
                let probe = ConsistencyProbe {
                    contract: old(self).config->Some_0.treasury,
                    token,
                    actual_balance,
                    computed_balance: computed,
                    difference: diff,
                    consistent: diff == 0,
                };
                &&& r == Ok::<ConsistencyProbe, Error>(probe)
                &&& final(self).mismatches@ == (if diff == 0 {
                    old(self).mismatches@
                } else {
                    old(self).mismatches@.push(make_mismatch(0, LedgerSource::TreasuryDeposit, MismatchField::TreasuryBalance,
                        computed, actual_balance, 3, MismatchKind::BalMismatch))
                })
                &&& *final(self) == (ReconciliationEngine { mismatches: final(self).mismatches, ..*old(self) })
            },
    {
        if start > end {
            return Err(Error::InvalidRange);
        }
        let treasury = match self.config {
            Some(c) => c.treasury,
            None => return Err(Error::NotInitialized),
        };
        let count = self.records.len() as u64;
        let hi: u64 = if end <= count { end } else { count };
        let mut computed: i128 = start_balance;
        if start <= hi {
            let mut id: u64 = start;
            while id <= hi
                invariant
                    self.wf(),
                    start <= id,
                    id as int <= hi as int + 1,
                    hi <= count,
                    count == self.records@.len(),
                    hi as int + 1 == scan_end(self.records@, end),
                    computed == treasury_scan(self.records@, start as int, id as int, token, start_balance),
                decreases hi as int + 1 - id as int,
            {
                if id >= 1 {
                    let rec = self.records[(id - 1) as usize];
                    if rec.token == token {
                        let inflow = match rec.source {
                            LedgerSource::EscrowFee | LedgerSource::TreasuryDeposit => rec.amount >= 0,
                            _ => false,
                        };
                        let outflow = match rec.source {
                            LedgerSource::TreasuryAlloc | LedgerSource::TreasuryDistrib | LedgerSource::BuybackBurn => rec.amount <= 0,
                            _ => false,
                        };
                        if inflow || outflow {
                            computed = match computed.checked_add(rec.amount) {
                                Some(v) => v,
                                None => computed,
                            };
                        }
                    }
                }
                id = id + 1;
            }
        }
        let diff = diff_or_zero(actual_balance, computed);
        let consistent = diff == 0;
        if !consistent {
            let d2 = diff_or_zero(actual_balance, computed);
            self.push_mismatch(MismatchRecord {
                record_id: 0,
                source: LedgerSource::TreasuryDeposit,
                field: MismatchField::TreasuryBalance,
                expected: computed,
                recorded: actual_balance,
                difference: d2,
                severity: 3,
                description: MismatchKind::BalMismatch,
            });
        }
        Ok(ConsistencyProbe {
            contract: treasury,
            token,
            actual_balance,
            computed_balance: computed,
            difference: diff,
            consistent,
        })
    }

    /// Cross-check insurance: the sum of the providers' shares must equal
    /// the recorded pool; a difference is recorded as a mismatch.
    pub fn check_insurance_pool_consistency(&mut self, recorded_pool: i128, providers: &Vec<AccountId>) -> (r: Result<InsuranceValidationEntry, Error>)
        requires
            old(self).wf(),
            old(self).mismatch_room(),
        ensures
            final(self).wf(),
            ({
                let total = shares_sum(old(self).insurance_agg@, providers@, providers@.len() as int);
                &&& r == Ok::<InsuranceValidationEntry, Error>(InsuranceValidationEntry {
                    provider: 0,
                    expected_shares: total,
                    recorded_shares: total,
                    expected_pool_delta: total,
                    recorded_pool_delta: recorded_pool,
                    shares_match: true,
                    pool_match: total == recorded_pool,
                })
                &&& final(self).mismatches@ == (if total == recorded_pool {
                    old(self).mismatches@
                } else {
                    old(self).mismatches@.push(make_mismatch(0, LedgerSource::InsuranceYield, MismatchField::PoolVsShares, total,
                        recorded_pool, 2, MismatchKind::InsPoolMismatch))
                })
                &&& *final(self) == (ReconciliationEngine { mismatches: final(self).mismatches, ..*old(self) })
            }),
    {
        let mut shares_total: i128 = 0;
        let mut i: usize = 0;
        while i < providers.len()
            invariant
                0 <= i <= providers@.len(),
                shares_total == shares_sum(self.insurance_agg@, providers@, i as int),
            decreases providers@.len() - i,
        {
            let s: i128 = match self.insurance_agg.get(&providers[i]) {
                Some(v) => *v,
                None => 0,
            };
            shares_total = match shares_total.checked_add(s) {
                Some(v) => v,
                None => shares_total,
            };
            i = i + 1;
        }
        let m = shares_total == recorded_pool;
        if !m {
            let d = diff_or_zero(recorded_pool, shares_total);
            self.push_mismatch(MismatchRecord {
                record_id: 0,
                source: LedgerSource::InsuranceYield,
                field: MismatchField::PoolVsShares,
                expected: shares_total,
                recorded: recorded_pool,
                difference: d,
                severity: 2,
                description: MismatchKind::InsPoolMismatch,
            });
        }
        Ok(InsuranceValidationEntry {
            provider: 0,
            expected_shares: shares_total,
            recorded_shares: shares_total,
            expected_pool_delta: shares_total,
            recorded_pool_delta: recorded_pool,
            shares_match: true,
            pool_match: m,
        })
    }

    fn seen_contains(seen: &Vec<(SymbolId, u32)>, pair: (SymbolId, u32)) -> (r: bool)
        ensures
            r == seen@.contains(pair),
    {
        let mut i: usize = 0;
        while i < seen.len()
            invariant
                0 <= i <= seen@.len(),
                forall|k: int| 0 <= k < i ==> seen@[k] != pair,
            decreases seen@.len() - i,
        {
            if seen[i].0 == pair.0 && seen[i].1 == pair.1 {
                assert(seen@[i as int] == pair);
                return true;
            }
            i = i + 1;
        }
        false
    }

    fn record_structural(&mut self, id: u64, rec: LedgerRecord, out: &mut Vec<MismatchRecord>)
        requires
            old(self).mismatches@.len() + 4 < u64::MAX,
        ensures
            final(out)@ == old(out)@ + structural_checks(id, rec),
            final(self).mismatches@ == old(self).mismatches@ + structural_checks(id, rec),
            *final(self) == (ReconciliationEngine { mismatches: final(self).mismatches, ..*old(self) }),
    {
        let ghost out0 = out@;
        let ghost mm0 = self.mismatches@;
        if rec.aux_bps > 10_000 {
            let m = MismatchRecord {
                record_id: id,
                source: rec.source,
                field: MismatchField::AuxBps,
                expected: 10_000,
                recorded: rec.aux_bps as i128,
                difference: rec.aux_bps as i128 - 10_000,
                severity: 2,
                description: MismatchKind::BpsOverCap,
            };
            out.push(m);
            self.push_mismatch(m);
        }
        let pool_row = match rec.source {
            LedgerSource::InsuranceYield => true,
            LedgerSource::InsuranceClaim => rec.amount < 0,
            _ => false,
        };
        if rec.gross_base == 0 && rec.amount != 0 && !pool_row {
            let m = MismatchRecord {
                record_id: id,
                source: rec.source,
                field: MismatchField::GrossBase,
                expected: 0,
                recorded: rec.amount,
                difference: rec.amount,
                severity: 3,
                description: MismatchKind::ZeroGrossFee,
            };
            out.push(m);
            self.push_mismatch(m);
        }
        let pos_expected = match rec.source {
            LedgerSource::EscrowFee | LedgerSource::ReferralReward | LedgerSource::ReferralFeeDist
            | LedgerSource::InsuranceYield | LedgerSource::TreasuryDeposit => true,
            _ => false,
        };
        if pos_expected && rec.amount < 0 {
            let m = MismatchRecord {
                record_id: id,
                source: rec.source,
                field: MismatchField::Sign,
                expected: 1,
                recorded: -1,
                difference: -2,
                severity: 3,
                description: MismatchKind::SignFlipPos,
            };
            out.push(m);
            self.push_mismatch(m);
        }
        if !pos_expected && rec.amount > 0 {
            let m = MismatchRecord {
                record_id: id,
                source: rec.source,
                field: MismatchField::Sign,
                expected: -1,
                recorded: 1,
                difference: 2,
                severity: 3,
                description: MismatchKind::SignFlipNeg,
            };
            out.push(m);
            self.push_mismatch(m);
        }
        assert(out@ =~= out0 + structural_checks(id, rec));
        assert(self.mismatches@ =~= mm0 + structural_checks(id, rec));
    }

    /// Walk the records with id in `[start, end]` and surface structural
    /// mismatches: a rate above 10_000 bps, a non-zero amount on a zero
    /// gross (insurance yields and negative claims aside), an amount whose
    /// sign contradicts its source, and a repeated `(reference, source)`
    /// pair. Every mismatch is also recorded.
    pub fn detect_mismatches(&mut self, start: u64, end: u64) -> (r: Result<Vec<MismatchRecord>, Error>)
        requires
            old(self).wf(),
            old(self).mismatch_room(),
        ensures
            final(self).wf(),
            start > end ==> r is Err && r->Err_0 == Error::InvalidRange && *final(self) == *old(self),
            start <= end ==> {
                let ms = structural_scan(old(self).records@, start as int, scan_end(old(self).records@, end)).0;
                &&& r is Ok
                &&& r->Ok_0@ == ms
                &&& final(self).mismatches@ == old(self).mismatches@ + ms
                &&& *final(self) == (ReconciliationEngine { mismatches: final(self).mismatches, ..*old(self) })
            },
    {
        if start > end {
            return Err(Error::InvalidRange);
        }
        let count = self.records.len() as u64;
        let hi: u64 = if end <= count { end } else { count };
        let mut out: Vec<MismatchRecord> = Vec::new();
        if start > hi {
            return Ok(out);
        }
        let mut seen: Vec<(SymbolId, u32)> = Vec::new();
        let mut id: u64 = start;
        let ghost old_self = *self;
        while id <= hi
            invariant
                old_self.wf(),
                old_self.mismatch_room(),
                start <= id,
                id as int <= hi as int + 1,
                hi <= count,
                count == old_self.records@.len(),
                hi as int + 1 == scan_end(old_self.records@, end),
                *self == (ReconciliationEngine { mismatches: self.mismatches, ..old_self }),
                ({
                    let (ms, sn) = structural_scan(old_self.records@, start as int, id as int);
                    &&& out@ == ms
                    &&& seen@ == sn
                    &&& self.mismatches@ == old_self.mismatches@ + ms
                    &&& ms.len() <= 4 * (id - start)
                }),
            decreases hi as int + 1 - id as int,
        {
            proof {
                lemma_scan_lengths(self.records@, start as int, id as int + 1, 0, 0, 0);
                lemma_scan_lengths(self.records@, start as int, id as int, 0, 0, 0);
            }
            if id >= 1 {
                let rec = self.records[(id - 1) as usize];
                let ghost out1 = out@;
                self.record_structural(id, rec, &mut out);
                let code = source_code(rec.source);
                let pair = (rec.reference, code);
                if Self::seen_contains(&seen, pair) {
                    let m = MismatchRecord {
                        record_id: id,
                        source: rec.source,
                        field: MismatchField::Reference,
                        expected: 0,
                        recorded: 1,
                        difference: 1,
                        severity: 3,
                        description: MismatchKind::DoubleCount,
                    };
                    out.push(m);
                    self.push_mismatch(m);
                } else {
                    seen.push(pair);
                }
            }
            proof {
                let (ms, sn) = structural_scan(old_self.records@, start as int, id as int + 1);
                assert(old_self.mismatches@ + ms =~= self.mismatches@);
            }
            id = id + 1;
        }
        Ok(out)
    }

    /// Mismatches with ids `start + 1 ..= min(start + limit + 1, total)`.
    pub fn get_mismatches(&self, start: u64, limit: u32) -> (r: Vec<MismatchRecord>)
        requires
            start + limit <= u64::MAX,
            self.mismatches@.len() < u64::MAX,
        ensures
            ({
                let total = self.mismatches@.len() as int;
                let upto = min_int(min_int(start + limit, total) + 1, total);
                &&& start < upto ==> r@ == self.mismatches@.subrange(start as int, upto)
                &&& start >= upto ==> r@.len() == 0
            }),
    {
        let total_us: usize = self.mismatches.len();
        let total = total_us as u64;
        let s_plus = start + limit as u64;
        let m = if s_plus <= total { s_plus } else { total };
        let end = m.saturating_add(1);
        let mut out: Vec<MismatchRecord> = Vec::new();
        let mut i: u64 = start;
        while i < end
            invariant
                start <= i,
                start < end ==> i <= end,
                end == (if s_plus <= total { s_plus } else { total }) + 1,
                total == self.mismatches@.len(),
                total == total_us,
                total < u64::MAX,
                start <= total ==> out@ == self.mismatches@.subrange(start as int, min_int(i as int, total as int)),
                start > total ==> out@.len() == 0,
            decreases end - i,
        {
            if i < total {
                proof {
                    assert(min_int(i as int, total as int) == i);
                    assert(min_int(i + 1, total as int) == i + 1);
                    assert(self.mismatches@.subrange(start as int, i + 1) =~= self.mismatches@.subrange(start as int, i as int).push(
                        self.mismatches@[i as int],
                    ));
                }
                let ghost prev = out@;
                let m = self.mismatches[i as usize];
                out.push(m);
                assert(prev == self.mismatches@.subrange(start as int, i as int));
                assert(out@ == prev.push(self.mismatches@[i as int]));
            } else {
                proof {
                    assert(min_int(i + 1, total as int) == min_int(i as int, total as int));
                }
            }
            i = i + 1;
        }
        out
    }

    /// Register a historical transaction (admin only) at time `now`; a zero
    /// amount is rejected. Returns its id.
    pub fn register_historical(
        &mut self,
        caller: AccountId,
        now: u64,
        op: SymbolId,
        amount: i128,
        token: AccountId,
        sender: AccountId,
        recipient: AccountId,
        reference: SymbolId,
    ) -> (r: Result<u64, Error>)
        requires
            old(self).wf(),
        ensures
            final(self).wf(),
            r is Err ==> *final(self) == *old(self),
            old(self).admin_check(caller) is Err ==> r == Err::<u64, Error>(old(self).admin_check(caller)->Err_0),
            old(self).admin_check(caller) is Ok && amount == 0 ==> r == Err::<u64, Error>(Error::InvalidAmount),
            old(self).admin_check(caller) is Ok && amount != 0 && old(self).historical@.len() + 1 >= u64::MAX ==> r
                == Err::<u64, Error>(Error::Overflow),
            old(self).admin_check(caller) is Ok && amount != 0 && old(self).historical@.len() + 1 < u64::MAX ==> {
                let id = (old(self).historical@.len() + 1) as u64;
                &&& r == Ok::<u64, Error>(id)
                &&& final(self).historical@ == old(self).historical@.push(HistoricalTx {
                    tx_id: id, op, amount, token, sender, recipient, reference, timestamp: now,
                })
                &&& *final(self) == (ReconciliationEngine { historical: final(self).historical, ..*old(self) })
            },
    {
        self.assert_admin(caller)?;
        if amount == 0 {
            return Err(Error::InvalidAmount);
        }
        let count = self.historical.len() as u64;
        let id = match count.checked_add(1) {
            Some(v) => v,
            None => return Err(Error::Overflow),
        };
        if id == u64::MAX {
            return Err(Error::Overflow);
        }
        self.historical.push(HistoricalTx { tx_id: id, op, amount, token, sender, recipient, reference, timestamp: now });
        Ok(id)
    }

    /// The historical transaction with id `id` (ids start at 1).
    pub open spec fn historical_at(&self, id: u64) -> Option<HistoricalTx> {
        if 1 <= id <= self.historical@.len() { Some(self.historical@[id - 1]) } else { None }
    }

    pub fn get_historical(&self, id: u64) -> (r: Result<HistoricalTx, Error>)
        ensures
            r == (match self.historical_at(id) {
                Some(t) => Ok::<HistoricalTx, Error>(t),
                None => Err(Error::NoData),
            }),
    {
        if id >= 1 && id <= self.historical.len() as u64 {
            Ok(self.historical[(id - 1) as usize])
        } else {
            Err(Error::NoData)
        }
    }

    pub fn get_historical_count(&self) -> (r: u64)
        ensures
            r == self.historical@.len(),
    {
        self.historical.len() as u64
    }

    pub open spec fn replay_spec(tx: HistoricalTx, fee_bps: u32, gross: i128) -> bool {
        let fee = platform_fee_spec(gross, fee_bps);
        let net = clamp_i128(gross - fee);
        let ok = if tx.amount > 0 { tx.amount == fee } else { -tx.amount == net };
        ok && clamp_i128(fee + net) == gross
    }

    /// Replay the fee math of a historical transaction: a positive amount
    /// must equal the recomputed fee, a non-positive one the negated net, and
    /// fee plus net must give back the gross.
    pub fn replay_historical_fee(&self, tx_id: u64, fee_bps: u32, gross_amount: i128) -> (r: Result<bool, Error>)
        requires
            self.historical_at(tx_id) matches Some(t) ==> t.amount != i128::MIN,
        ensures
            r == (match self.historical_at(tx_id) {
                Some(t) => Ok::<bool, Error>(Self::replay_spec(t, fee_bps, gross_amount)),
                None => Err(Error::NoData),
            }),
    {
        let tx = self.get_historical(tx_id)?;
        let expected_fee = calc_platform_fee(gross_amount, fee_bps);
        let expected_net = sat_sub_i128(gross_amount, expected_fee);
        let ok = if tx.amount > 0 { tx.amount == expected_fee } else { -tx.amount == expected_net };
        Ok(ok && sat_add_i128(expected_fee, expected_net) == gross_amount)
    }

    pub fn get_report(&self, id: u64) -> (r: Result<ReconciliationReport, Error>)
        ensures
            r == (if 1 <= id <= self.reports@.len() {
                Ok::<ReconciliationReport, Error>(self.reports@[id - 1])
            } else {
                Err(Error::NoData)
            }),
    {
        if id >= 1 && id <= self.reports.len() as u64 {
            Ok(self.reports[(id - 1) as usize])
        } else {
            Err(Error::NoData)
        }
    }

    pub fn get_report_count(&self) -> (r: u64)
        ensures
            r == self.reports@.len(),
    {
        self.reports.len() as u64
    }

    /// Running (inflow, outflow) totals of a source.
    pub fn get_running_totals(&self, source: LedgerSource) -> (r: (i128, i128))
        requires
            self.wf(),
        ensures
            r == self.running_totals@[source_code_spec(source) - 1],
    {
        let code = source_code(source);
        self.running_totals[(code - 1) as usize]
    }

    /// (pending, credited) aggregate of a referrer; zero when unknown.
    pub fn get_referrer_agg(&self, referrer: AccountId) -> (r: (i128, i128))
        ensures
            r == self.referrer_entry(referrer),
    {
        match self.referrer_agg.get(&referrer) {
            Some(v) => *v,
            None => (0, 0),
        }
    }

    /// Recorded shares of an insurance provider; zero when unknown.
    pub fn get_insurance_provider_shares(&self, provider: AccountId) -> (r: i128)
        ensures
            r == self.insurance_entry(provider),
    {
        match self.insurance_agg.get(&provider) {
            Some(v) => *v,
            None => 0,
        }
    }

    /// Room in the mismatch log for a whole report run.
    pub open spec fn report_room(&self) -> bool {
        self.mismatches@.len() < u64::MAX - 64 * MAX_RECORDS - 64 && self.reports@.len() + 1 < u64::MAX
    }

    /// Run the full reconciliation pipeline over ids `[start, end]` (admin
    /// only): fee, referral, treasury (against the treasury's actual token
    /// balance `actual_treasury_balance`), insurance and structural checks;
    /// aggregate them into a report, store it and return it.
    pub fn generate_report(
        &mut self,
        caller: AccountId,
        now: u64,
        params: ReportParams,
        insurance_providers: &Vec<AccountId>,
        actual_treasury_balance: i128,
    ) -> (r: Result<ReconciliationReport, Error>)
        requires
            old(self).wf(),
            old(self).report_room(),
        ensures
            final(self).wf(),
            r is Err ==> *final(self) == *old(self),
            old(self).admin_check(caller) is Err ==> r == Err::<ReconciliationReport, Error>(old(self).admin_check(caller)->Err_0),
            old(self).admin_check(caller) is Ok && params.start > params.end ==> r == Err::<ReconciliationReport, Error>(
                Error::InvalidRange,
            ),
            old(self).admin_check(caller) is Ok && params.start <= params.end ==> {
                let rep = report_spec(*old(self), params, insurance_providers@, actual_treasury_balance, now);
                &&& r == Ok::<ReconciliationReport, Error>(rep)
                &&& rep.reconciled == (rep.fee_failures == 0 && rep.referral_failures == 0 && rep.insurance_failures == 0
                    && rep.probes_failed == 0 && rep.mismatches_found == 0)
                &&& rep.summary_tag == (if rep.reconciled {
                    SummaryTag::Clean
                } else if rep.critical_mismatches == 0 {
                    SummaryTag::Warn
                } else {
                    SummaryTag::Fail
                })
                &&& rep.report_id == final(self).reports@.len()
                &&& final(self).mismatches@ == old(self).mismatches@ + report_mismatches(
                    *old(self),
                    params,
                    insurance_providers@,
                    actual_treasury_balance,
                )
                &&& final(self).reports@ == old(self).reports@.push(rep)
                &&& final(self).events@ == old(self).events@.push(
                    ReconEvent::Report {
                        report_id: rep.report_id,
                        processed: rep.records_processed,
                        found: rep.mismatches_found as u64,
                        tag: rep.summary_tag,
                    },
                )
                &&& final(self).records@ == old(self).records@
                &&& final(self).config == old(self).config
                &&& final(self).historical@ == old(self).historical@
                &&& final(self).running_totals@ == old(self).running_totals@
                &&& final(self).referrer_agg@ == old(self).referrer_agg@
                &&& final(self).insurance_agg@ == old(self).insurance_agg@
            },
    {
        self.assert_admin(caller)?;
        let start = params.start;
        let end = params.end;
        if start > end {
            return Err(Error::InvalidRange);
        }
        let ghost s0 = *self;
        let ghost upto = scan_end(s0.records@, end);
        proof {
            if start <= upto {
                lemma_scan_lengths(s0.records@, start as int, upto, params.max_multiplier_bps, params.max_lifetime_per_ref,
                    params.global_ref_cap);
            }
        }
        let before = self.mismatches.len() as u64;
        let fees = match self.validate_fee_distributions(start, end) {
            Ok(v) => v,
            Err(e) => return Err(e),
        };
        let fee_val = fees.len() as u32;
        let fee_fail = fee_failures(&fees);
        let refs = match self.validate_referral_rewards(start, end, params.max_multiplier_bps, params.max_lifetime_per_ref,
            params.global_ref_cap) {
            Ok(v) => v,
            Err(e) => return Err(e),
        };
        let ref_val = refs.len() as u32;
        let ref_fail = ref_failures(&refs);
        let probe = match self.check_treasury_consistency(params.token, params.start_treasury_bal, start, end,
            actual_treasury_balance) {
            Ok(v) => v,
            Err(e) => return Err(e),
        };
        let ins_entry = match self.check_insurance_pool_consistency(params.insurance_pool_bal, insurance_providers) {
            Ok(v) => v,
            Err(e) => return Err(e),
        };
        let ins_val: u32 = 1;
        let ins_fail: u32 = if ins_entry.pool_match { 0 } else { 1 };
        let probes: u32 = 1;
        let probes_failed: u32 = if probe.consistent { 0 } else { 1 };
        let structural = match self.detect_mismatches(start, end) {
            Ok(v) => v,
            Err(e) => return Err(e),
        };
        let count = self.records.len() as u64;
        let hi: u64 = if end <= count { end } else { count };
        let mut ins: i128 = 0;
        let mut outs: i128 = 0;
        let mut processed: u64 = 0;
        if start <= hi {
            let mut id: u64 = start;
            while id <= hi
                invariant
                    self.wf(),
                    self.records@ == s0.records@,
                    start <= id,
                    id as int <= hi as int + 1,
                    hi <= count,
                    count == self.records@.len(),
                    (processed as int, ins, outs) == flow_scan(self.records@, start as int, id as int),
                    processed <= id - start,
                decreases hi as int + 1 - id as int,
            {
                proof {
                    lemma_scan_lengths(self.records@, start as int, id as int + 1, 0, 0, 0);
                }
                if id >= 1 {
                    let rec = self.records[(id - 1) as usize];
                    processed = processed + 1;
                    if rec.amount >= 0 {
                        ins = sat_add_i128(ins, rec.amount);
                    } else {
                        outs = sat_sub_i128(outs, rec.amount);
                    }
                }
                id = id + 1;
            }
        }
        let net = sat_sub_i128(ins, outs);
        let after = self.mismatches.len() as u64;
        let found = after - before;
        proof {
            lemma_counts_bounded(fees@, refs@, structural@);
            assert(self.mismatches@ =~= s0.mismatches@ + report_mismatches(s0, params, insurance_providers@, actual_treasury_balance));
        }
        let mut critical = critical_count(&structural);
        critical = critical + fee_fail + ref_fail + ins_fail + probes_failed;
        let reconciling = fee_fail == 0 && ref_fail == 0 && ins_fail == 0 && probe.consistent && found == 0;
        let tag = if reconciling {
            SummaryTag::Clean
        } else if critical == 0 {
            SummaryTag::Warn
        } else {
            SummaryTag::Fail
        };
        let computed_delta = diff_or_zero(probe.computed_balance, params.start_treasury_bal);
        let report_id = self.reports.len() as u64 + 1;
        let report = ReconciliationReport {
            report_id,
            generated_at: now,
            range_start: start,
            range_end: end,
            records_processed: processed,
            total_inflows: ins,
            total_outflows: outs,
            net_flow: net,
            fee_validations: fee_val,
            fee_failures: fee_fail,
            referral_validations: ref_val,
            referral_failures: ref_fail,
            insurance_validations: ins_val,
            insurance_failures: ins_fail,
            consistency_probes: probes,
            probes_failed,
            mismatches_found: found as u32,
            critical_mismatches: critical,
            treasury_balance_start: params.start_treasury_bal,
            treasury_balance_end: probe.actual_balance,
            treasury_computed_delta: computed_delta,
            reconciled: reconciling,
            summary_tag: tag,
        };
        self.reports.push(report);
        self.events.push(ReconEvent::Report { report_id, processed, found, tag });
        Ok(report)
    }
}


/// The fee split leaves no dust: for a non-negative gross and a rate of at
/// most 10_000 bps the fee lies in `[0, gross]` and fee plus net is the
/// gross.
pub proof fn lemma_fee_split_no_dust(gross: i128, fee_bps: u32)
    requires
        gross >= 0,
        fee_bps <= 10_000,
    ensures
        0 <= platform_fee_spec(gross, fee_bps) <= gross,
        platform_fee_spec(gross, fee_bps) + (gross - platform_fee_spec(gross, fee_bps)) == gross,
{
    if gross > 0 && fee_bps > 0 && gross * fee_bps <= i128::MAX {
        assert(0 <= (gross * fee_bps) / 10_000 <= gross) by (nonlinear_arith)
            requires
                gross > 0,
                0 < fee_bps <= 10_000,
        ;
    }
}

/// A historical fee recorded as the platform fee of its gross at a rate of
/// at most 10_000 bps replays successfully against that gross and rate.
pub proof fn lemma_recorded_fee_replays(tx: HistoricalTx, fee_bps: u32, gross: i128)
    requires
        gross >= 0,
        fee_bps <= 10_000,
        tx.amount > 0,
        tx.amount == platform_fee_spec(gross, fee_bps),
    ensures
        ReconciliationEngine::replay_spec(tx, fee_bps, gross),
{
    lemma_fee_split_no_dust(gross, fee_bps);
}

/// How one more record (id `id`) moves the computed treasury balance: a
/// non-negative `EscrowFee` or `TreasuryDeposit` amount of the token raises
/// it by that amount, a non-positive `TreasuryAlloc`, `TreasuryDistrib` or
/// `BuybackBurn` amount of the token lowers it by the amount's size, and any
/// other record leaves it as it was; an addition that would overflow is
/// skipped.
pub proof fn lemma_treasury_record_effect(
    records: Seq<LedgerRecord>,
    lo: int,
    id: int,
    token: AccountId,
    start_balance: i128,
)
    requires
        lo <= id,
        rec_at(records, id) is Some,
    ensures
        ({
            let before = treasury_scan(records, lo, id, token, start_balance);
            let after = treasury_scan(records, lo, id + 1, token, start_balance);
            let rec = rec_at(records, id)->Some_0;
            let fits = i128::MIN <= before + rec.amount <= i128::MAX;
            let inflow = rec.token == token && rec.amount >= 0 && (rec.source == LedgerSource::EscrowFee || rec.source
                == LedgerSource::TreasuryDeposit);
            let outflow = rec.token == token && rec.amount <= 0 && (rec.source == LedgerSource::TreasuryAlloc
                || rec.source == LedgerSource::TreasuryDistrib || rec.source == LedgerSource::BuybackBurn);
            &&& inflow && fits ==> after == before + rec.amount
            &&& outflow && fits ==> after == before - (-rec.amount)
            &&& !(inflow || outflow) || !fits ==> after == before
        }),
{
}

/// The raw payout behind a referral check (before the caps): the base at
/// the entry's multiplier, or for a learner reward, whose multiplier is not
/// recorded, the payout expected of it.
pub open spec fn entry_raw(e: ReferralValidationEntry) -> i128 {
    if e.referee_type == 1 {
        learner_expected(e.base_reward, e.multiplier_bps, e.recorded)
    } else {
        scaled_reward(e.base_reward, e.multiplier_bps)
    }
}

/// Saturating total of the raw payouts of `referrer`'s checks in `entries`.
pub open spec fn referrer_total(entries: Seq<ReferralValidationEntry>, referrer: AccountId) -> i128
    decreases entries.len(),
{
    if entries.len() == 0 {
        0
    } else {
        let prev = referrer_total(entries.drop_last(), referrer);
        if entries.last().referrer == referrer {
            clamp_i128(prev + entry_raw(entries.last()))
        } else {
            prev
        }
    }
}

pub open spec fn lifetime_of(m: Map<AccountId, i128>, a: AccountId) -> i128 {
    if m.contains_key(a) { m[a] } else { 0 }
}

proof fn lemma_scaled_reward_nonneg(base: i128, m: u32)
    requires
        base >= 0,
    ensures
        scaled_reward(base, m) >= 0,
{
    if !(base * m > i128::MAX || base * m < i128::MIN) {
        assert(base * m >= 0) by (nonlinear_arith)
            requires
                base >= 0,
                m >= 0,
        ;
    }
}

proof fn lemma_ref_scan_lifetime(
    records: Seq<LedgerRecord>,
    lo: int,
    upto: int,
    max_mult: u32,
    max_lt: i128,
    global_cap: i128,
)
    ensures
        ({
            let st = ref_scan(records, lo, upto, max_mult, max_lt, global_cap);
            &&& forall|a: AccountId| #[trigger] lifetime_of(st.lifetime, a) == referrer_total(st.entries, a)
            &&& forall|k: int|
                0 <= k < st.entries.len() ==> (#[trigger] st.entries[k]).within_lifetime_cap == (clamp_i128(
                    referrer_total(st.entries.take(k), st.entries[k].referrer) + entry_raw(st.entries[k]),
                ) <= max_lt)
            &&& forall|k: int| 0 <= k < st.entries.len() ==> entry_raw(#[trigger] st.entries[k]) >= 0
        }),
    decreases upto - lo,
{
    if upto > lo {
        lemma_ref_scan_lifetime(records, lo, upto - 1, max_mult, max_lt, global_cap);
        let st0 = ref_scan(records, lo, upto - 1, max_mult, max_lt, global_cap);
        let st = ref_scan(records, lo, upto, max_mult, max_lt, global_cap);
        match rec_at(records, upto - 1) {
            Some(rec) => {
                match ref_type_base(rec) {
                    Some((t, base)) => {
                        let e = st.entries.last();
                        assert(st.entries == st0.entries.push(e));
                        assert(st.entries.drop_last() == st0.entries);
                        assert(base >= 0);
                        lemma_scaled_reward_nonneg(base, e.multiplier_bps);
                        assert(entry_raw(e) >= 0);
                        let unrecorded = multiplier_unrecorded(rec);
                        let multiplier = if unrecorded {
                            multiplier_ceiling(max_mult)
                        } else {
                            clamp_multiplier(rec.aux_bps, max_mult)
                        };
                        let recorded: i128 = if rec.amount >= 0 { rec.amount } else { 0 };
                        let raw = if unrecorded {
                            learner_expected(base, multiplier, recorded)
                        } else {
                            scaled_reward(base, multiplier)
                        };
                        assert(e.referee_type == 1 <==> unrecorded);
                        assert(e.multiplier_bps == multiplier && e.base_reward == base && e.recorded == recorded);
                        assert(entry_raw(e) == raw);
                        assert(e.referrer == rec.account);
                        assert(st.lifetime == st0.lifetime.insert(
                            rec.account,
                            clamp_i128(lifetime_of(st0.lifetime, rec.account) + raw),
                        ));
                        assert forall|a: AccountId| #[trigger] lifetime_of(st.lifetime, a) == referrer_total(st.entries, a) by {
                            if a != rec.account {
                                assert(lifetime_of(st.lifetime, a) == lifetime_of(st0.lifetime, a));
                            }
                        }
                        assert forall|k: int| 0 <= k < st.entries.len() implies (#[trigger] st.entries[k]).within_lifetime_cap
                            == (clamp_i128(referrer_total(st.entries.take(k), st.entries[k].referrer) + entry_raw(st.entries[k]))
                            <= max_lt) by {
                            if k < st0.entries.len() {
                                assert(st.entries[k] == st0.entries[k]);
                                assert(st.entries.take(k) == st0.entries.take(k));
                            } else {
                                assert(st.entries.take(k) == st0.entries);
                                assert(lifetime_of(st0.lifetime, rec.account) == referrer_total(st0.entries, rec.account));
                            }
                        }
                        assert forall|k: int| 0 <= k < st.entries.len() implies entry_raw(#[trigger] st.entries[k]) >= 0 by {
                            if k < st0.entries.len() {
                                assert(st.entries[k] == st0.entries[k]);
                            }
                        }
                    },
                    None => {},
                }
            },
            None => {},
        }
    }
}

proof fn lemma_referrer_total_bounds(s: Seq<ReferralValidationEntry>, a: AccountId, i: int)
    requires
        0 <= i < s.len(),
        s[i].referrer == a,
        forall|k: int| 0 <= k < s.len() ==> entry_raw(#[trigger] s[k]) >= 0,
    ensures
        referrer_total(s, a) >= entry_raw(s[i]),
    decreases s.len(),
{
    lemma_referrer_total_nonneg(s.drop_last(), a);
    if i < s.len() - 1 {
        assert forall|k: int| 0 <= k < s.drop_last().len() implies entry_raw(#[trigger] s.drop_last()[k]) >= 0 by {
            assert(s.drop_last()[k] == s[k]);
        }
        assert(s.drop_last()[i] == s[i]);
        lemma_referrer_total_bounds(s.drop_last(), a, i);
    }
    assert(entry_raw(s.last()) >= 0);
}

proof fn lemma_referrer_total_nonneg(s: Seq<ReferralValidationEntry>, a: AccountId)
    requires
        forall|k: int| 0 <= k < s.len() ==> entry_raw(#[trigger] s[k]) >= 0,
    ensures
        referrer_total(s, a) >= 0,
    decreases s.len(),
{
    if s.len() > 0 {
        assert forall|k: int| 0 <= k < s.drop_last().len() implies entry_raw(#[trigger] s.drop_last()[k]) >= 0 by {
            assert(s.drop_last()[k] == s[k]);
        }
        lemma_referrer_total_nonneg(s.drop_last(), a);
        assert(entry_raw(s.last()) >= 0);
    }
}

/// The lifetime cap counts every earlier payout to the same referrer: each
/// check is within the cap exactly when the referrer's running total of
/// raw payouts, this one included, stays within it. So two payouts to one
/// referrer whose raw amounts together exceed the cap are never both
/// within it; the later one is not.
pub proof fn lemma_lifetime_cap_counts_earlier_payouts(
    records: Seq<LedgerRecord>,
    lo: int,
    upto: int,
    max_mult: u32,
    max_lt: i128,
    global_cap: i128,
    i: int,
    j: int,
)
    requires
        ({
            let es = ref_scan(records, lo, upto, max_mult, max_lt, global_cap).entries;
            &&& 0 <= i < j < es.len()
            &&& es[i].referrer == es[j].referrer
            &&& entry_raw(es[i]) + entry_raw(es[j]) > max_lt
        }),
        max_lt < i128::MAX,
    ensures
        ({
            let es = ref_scan(records, lo, upto, max_mult, max_lt, global_cap).entries;
            &&& forall|k: int|
                0 <= k < es.len() ==> (#[trigger] es[k]).within_lifetime_cap == (clamp_i128(
                    referrer_total(es.take(k), es[k].referrer) + entry_raw(es[k]),
                ) <= max_lt)
            &&& !es[j].within_lifetime_cap
            &&& !(es[i].within_lifetime_cap && es[j].within_lifetime_cap)
        }),
{
    lemma_ref_scan_lifetime(records, lo, upto, max_mult, max_lt, global_cap);
    let es = ref_scan(records, lo, upto, max_mult, max_lt, global_cap).entries;
    let pre = es.take(j);
    assert forall|k: int| 0 <= k < pre.len() implies entry_raw(#[trigger] pre[k]) >= 0 by {
        assert(pre[k] == es[k]);
    }
    assert(pre[i] == es[i]);
    lemma_referrer_total_bounds(pre, es[i].referrer, i);
    assert(entry_raw(es[j]) >= 0);
}

} // verus!
