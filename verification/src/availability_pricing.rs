//! Availability and pricing protection: price coordination, dynamic pricing
//! validation, artificial scarcity and fair availability requirements.
use vstd::prelude::*;

use crate::assessment_authenticity::MAX_ID_XDR_LEN;
use crate::atomic_state::{
    append_all, append_be, be_bytes, digest_words, lemma_be_bytes_len, sha256, sha256_of, words_of,
};
use crate::common::{clamp_u32, AccountId, Hash32, SymbolId};

verus! {

pub const BASE_HOURS_PER_WEEK: u32 = 5;
pub const MAX_REQUIRED_HOURS_PER_WEEK: u32 = 40;
/// 90% booked.
pub const SCARCITY_BOOKING_RATE_THRESHOLD: u32 = 9_000;
/// 25% maximum deviation from the market baseline.
pub const MAX_PRICE_DEVIATION_BPS: u32 = 2_500;
pub const MAX_PRICE_CHANGES_PER_WEEK: u32 = 3;
/// 75% correlation counts as coordination.
pub const PRICE_COORDINATION_THRESHOLD_BPS: u32 = 7_500;
/// 80% shortage is an emergency.
pub const EMERGENCY_INTERVENTION_THRESHOLD_BPS: u32 = 8_000;
/// 50% penalty for a violated commitment.
pub const COMMITMENT_ENFORCEMENT_PENALTY_BPS: u32 = 5_000;
/// One week.
pub const MIN_COMMITMENT_DURATION_SECS: u64 = 604_800;
/// One year.
pub const MAX_COMMITMENT_DURATION_SECS: u64 = 31_536_000;

/// Price coordination detection record.
#[derive(Clone, Copy, Debug, PartialEq, Eq, Structural)]
pub struct PriceCoordinationFlag {
    pub same_price: bool,
    pub price_set_time_diff: u64,
    /// 0-10000 basis points.
    pub correlation_score: u32,
    pub detected_at: u64,
}

/// Dynamic pricing validation result.
#[derive(Clone, Copy, Debug, PartialEq, Eq, Structural)]
pub struct DynamicPricingValidation {
    pub mentor: AccountId,
    pub price: i128,
    pub market_baseline: i128,
    /// Basis points, negative below the baseline.
    pub deviation_bps: i32,
    pub is_valid: bool,
    /// 0-10000.
    pub manipulation_score: u32,
}

/// Market availability monitoring record.
#[derive(Clone, Copy, Debug, PartialEq, Eq, Structural)]
pub struct AvailabilityPattern {
    pub mentor: AccountId,
    pub total_availability_slots: u32,
    pub actually_booked_slots: u32,
    pub rapid_availability_changes: u32,
    pub analyzed_at: u64,
}

pub open spec fn abs_diff_u64(a: u64, b: u64) -> u64 {
    if a > b { (a - b) as u64 } else { (b - a) as u64 }
}

pub open spec fn abs_diff_int(a: int, b: int) -> int {
    if a > b { a - b } else { b - a }
}

/// `x` saturated into `u128`.
pub open spec fn clamp_u128(x: int) -> u128 {
    if x > u128::MAX { u128::MAX } else { x as u128 }
}

pub open spec fn price_coordination_score(p1: i128, p2: i128, t1: u64, t2: u64) -> u32 {
    let time_diff = abs_diff_u64(t1, t2);
    let same = p1 == p2;
    let diff = abs_diff_int(p1 as int, p2 as int) as u128;
    let max_price = (if p1 >= p2 { p1 } else { p2 }) as u128;
    let pct: u128 = if max_price > 0 { (clamp_u128(diff * 100) / max_price) as u128 } else { 0 };
    let s1: int = if same { 6_000 } else { 0 };
    let s2: int = if pct < 1 && !same { s1 + 4_000 } else { s1 };
    let s3: int = if time_diff < 300 { s2 + 3_000 } else { s2 };
    (if s3 <= 10_000 { s3 } else { 10_000 }) as u32
}

/// Detect price coordination between two mentors: identical prices,
/// prices within 1% and prices set within five minutes each raise the
/// correlation score (capped at 10_000).
pub fn detect_price_coordination(
    now: u64,
    mentor_1_price: i128,
    mentor_2_price: i128,
    mentor_1_price_time: u64,
    mentor_2_price_time: u64,
) -> (r: PriceCoordinationFlag)
    requires
        abs_diff_int(mentor_1_price as int, mentor_2_price as int) <= i128::MAX,
    ensures
        r.same_price == (mentor_1_price == mentor_2_price),
        r.price_set_time_diff == abs_diff_u64(mentor_1_price_time, mentor_2_price_time),
        r.correlation_score == price_coordination_score(
            mentor_1_price,
            mentor_2_price,
            mentor_1_price_time,
            mentor_2_price_time,
        ),
        r.detected_at == now,
{
    let time_diff = if mentor_1_price_time > mentor_2_price_time {
        mentor_1_price_time - mentor_2_price_time
    } else {
        mentor_2_price_time - mentor_1_price_time
    };
    let same_price = mentor_1_price == mentor_2_price;
    let price_diff: u128 = if mentor_1_price > mentor_2_price {
        (mentor_1_price - mentor_2_price) as u128
    } else {
        (mentor_2_price - mentor_1_price) as u128
    };
    let max_price: u128 = if mentor_1_price >= mentor_2_price {
        #[verifier::truncate] (mentor_1_price as u128)
    } else {
        #[verifier::truncate] (mentor_2_price as u128)
    };
    let scaled: u128 = match price_diff.checked_mul(100) {
        Some(v) => v,
        None => u128::MAX,
    };
    let price_variance_pct: u128 = if max_price > 0 { scaled / max_price } else { 0 };
    let mut correlation_score: u32 = 0;
    if same_price {
        correlation_score = correlation_score + 6_000;
    }
    if price_variance_pct < 1 && !same_price {
        correlation_score = correlation_score + 4_000;
    }
    if time_diff < 300 {
        correlation_score = correlation_score + 3_000;
    }
    if correlation_score > 10_000 {
        correlation_score = 10_000;
    }
    PriceCoordinationFlag {
        same_price,
        price_set_time_diff: time_diff,
        correlation_score,
        detected_at: now,
    }
}

/// The unsigned deviation of `price` from `baseline` in basis points of the
/// larger of the two, truncated to `i32` by the cast.
pub open spec fn raw_deviation_bps(price: i128, baseline: i128) -> i32 {
    let deviation = abs_diff_int(price as int, baseline as int) as u128;
    let max_baseline = (if price >= baseline { price } else { baseline }) as u128;
    if max_baseline > 0 {
        (clamp_u128(deviation * 10_000) / max_baseline) as i32
    } else {
        0
    }
}

/// The signed deviation: negative when the price lies below the baseline.
pub open spec fn signed_deviation_bps(price: i128, baseline: i128) -> int {
    if price > baseline { raw_deviation_bps(price, baseline) as int } else { -(raw_deviation_bps(price, baseline) as int) }
}

pub open spec fn abs_int(x: int) -> int {
    if x >= 0 { x } else { -x }
}

/// The inputs on which pricing validation is defined: the price difference
/// fits in `i128` and the deviation never reaches `i32::MIN` (whose
/// negation and absolute value would overflow).
pub open spec fn pricing_inputs_ok(price: i128, baseline: i128) -> bool {
    &&& abs_diff_int(price as int, baseline as int) <= i128::MAX
    &&& raw_deviation_bps(price, baseline) != i32::MIN
}

/// Validate a proposed price against the market baseline: valid when the
/// deviation is at most `MAX_PRICE_DEVIATION_BPS`; above that the excess is
/// the manipulation score (capped at 10_000).
pub fn validate_dynamic_pricing(mentor: AccountId, proposed_price: i128, market_baseline: i128) -> (r: DynamicPricingValidation)
    requires
        pricing_inputs_ok(proposed_price, market_baseline),
    ensures
        r.mentor == mentor,
        r.price == proposed_price,
        r.market_baseline == market_baseline,
        r.deviation_bps as int == signed_deviation_bps(proposed_price, market_baseline),
        r.is_valid == (abs_int(signed_deviation_bps(proposed_price, market_baseline)) <= MAX_PRICE_DEVIATION_BPS),
        r.manipulation_score == (if abs_int(signed_deviation_bps(proposed_price, market_baseline)) > MAX_PRICE_DEVIATION_BPS {
            crate::common::min_int(abs_int(signed_deviation_bps(proposed_price, market_baseline)) - MAX_PRICE_DEVIATION_BPS, 10_000) as u32
        } else {
            0
        }),
{
    let deviation: u128 = if proposed_price > market_baseline {
        (proposed_price - market_baseline) as u128
    } else {
        (market_baseline - proposed_price) as u128
    };
    let max_baseline: u128 = if proposed_price >= market_baseline {
        #[verifier::truncate] (proposed_price as u128)
    } else {
        #[verifier::truncate] (market_baseline as u128)
    };
    let deviation_bps: i32 = if max_baseline > 0 {
        let scaled: u128 = match deviation.checked_mul(10_000) {
            Some(v) => v,
            None => u128::MAX,
        };
        #[verifier::truncate]
        ((scaled / max_baseline) as i32)
    } else {
        0
    };
    let adjusted_deviation: i32 = if proposed_price > market_baseline { deviation_bps } else { -deviation_bps };
    let abs_dev: i32 = if adjusted_deviation >= 0 { adjusted_deviation } else { -adjusted_deviation };
    let is_valid = abs_dev <= MAX_PRICE_DEVIATION_BPS as i32;
    let manipulation_score: u32 = if abs_dev > MAX_PRICE_DEVIATION_BPS as i32 {
        let excess = (abs_dev as u32) - MAX_PRICE_DEVIATION_BPS;
        if excess <= 10_000 { excess } else { 10_000 }
    } else {
        0
    };
    DynamicPricingValidation {
        mentor,
        price: proposed_price,
        market_baseline,
        deviation_bps: adjusted_deviation,
        is_valid,
        manipulation_score,
    }
}

/// Record a mentor's availability pattern at time `now`.
pub fn analyze_availability_pattern(
    now: u64,
    mentor: AccountId,
    total_slots: u32,
    booked_slots: u32,
    rapid_changes: u32,
) -> (r: AvailabilityPattern)
    ensures
        r == (AvailabilityPattern {
            mentor,
            total_availability_slots: total_slots,
            actually_booked_slots: booked_slots,
            rapid_availability_changes: rapid_changes,
            analyzed_at: now,
        }),
{
    AvailabilityPattern {
        mentor,
        total_availability_slots: total_slots,
        actually_booked_slots: booked_slots,
        rapid_availability_changes: rapid_changes,
        analyzed_at: now,
    }
}

/// Artificial scarcity: a booking rate above 90% together with more than
/// three rapid availability changes.
pub fn detect_artificial_scarcity(pattern: &AvailabilityPattern) -> (r: bool)
    ensures
        r == (pattern.total_availability_slots != 0
            && clamp_u32(pattern.actually_booked_slots * 10_000) / pattern.total_availability_slots
            > SCARCITY_BOOKING_RATE_THRESHOLD && pattern.rapid_availability_changes > 3),
{
    if pattern.total_availability_slots == 0 {
        return false;
    }
    let booking_rate = crate::common::sat_mul_u32(pattern.actually_booked_slots, 10_000)
        / pattern.total_availability_slots;
    booking_rate > SCARCITY_BOOKING_RATE_THRESHOLD && pattern.rapid_availability_changes > 3
}

/// `x * x / 10_000` truncated to `u32`.
pub open spec fn square_scaling(x: u32) -> u32 {
    ((x as int * x as int) / 10_000) as u32
}

/// The base requirement plus the averaged quadratic demand and rating
/// scalings, in hours per week, capped at `MAX_REQUIRED_HOURS_PER_WEEK`.
pub open spec fn fair_availability_spec(rating: u32, demand: u32) -> u32 {
    let hours = BASE_HOURS_PER_WEEK + (square_scaling(demand) + square_scaling(rating)) / 2_000;
    (if hours <= MAX_REQUIRED_HOURS_PER_WEEK { hours } else { MAX_REQUIRED_HOURS_PER_WEEK as int }) as u32
}

/// Calculate the fair availability requirement (hours per week) for a
/// mentor from rating and specialization demand (both 0-10000).
pub fn calculate_fair_availability_requirement(mentor_rating: u32, specialization_demand: u32) -> (r: u32)
    requires
        square_scaling(specialization_demand) + square_scaling(mentor_rating) <= u32::MAX,
    ensures
        r == fair_availability_spec(mentor_rating, specialization_demand),
        r <= MAX_REQUIRED_HOURS_PER_WEEK,
{
    let d = specialization_demand as u128;
    assert(d * d <= 0xffff_ffff_ffff_ffff_ffff_ffff_ffff_ffff) by (nonlinear_arith)
        requires d <= 0xffff_ffff;
    let demand_scaling: u32 = #[verifier::truncate] ((d * d / 10_000) as u32);
    let m = mentor_rating as u128;
    assert(m * m <= 0xffff_ffff_ffff_ffff_ffff_ffff_ffff_ffff) by (nonlinear_arith)
        requires m <= 0xffff_ffff;
    let rating_scaling: u32 = #[verifier::truncate] ((m * m / 10_000) as u32);
    let min_hours = BASE_HOURS_PER_WEEK + (demand_scaling + rating_scaling) / 2_000;
    if min_hours <= MAX_REQUIRED_HOURS_PER_WEEK { min_hours } else { MAX_REQUIRED_HOURS_PER_WEEK }
}

/// Enforce fair pricing: too many recent price changes or an invalid
/// deviation from the baseline rejects the price.
pub fn enforce_fair_pricing(
    mentor: AccountId,
    proposed_price: i128,
    market_baseline: i128,
    recent_price_changes: u32,
) -> (r: bool)
    requires
        recent_price_changes <= MAX_PRICE_CHANGES_PER_WEEK ==> pricing_inputs_ok(proposed_price, market_baseline),
    ensures
        r == (recent_price_changes <= MAX_PRICE_CHANGES_PER_WEEK && abs_int(
            signed_deviation_bps(proposed_price, market_baseline),
        ) <= MAX_PRICE_DEVIATION_BPS),
{
    if recent_price_changes > MAX_PRICE_CHANGES_PER_WEEK {
        return false;
    }
    let validation = validate_dynamic_pricing(mentor, proposed_price, market_baseline);
    validation.is_valid
}

/// An emergency market intervention triggers at 80% shortage severity.
pub fn trigger_availability_intervention(shortage_severity: u32) -> (r: bool)
    ensures
        r == (shortage_severity >= EMERGENCY_INTERVENTION_THRESHOLD_BPS),
{
    shortage_severity >= EMERGENCY_INTERVENTION_THRESHOLD_BPS
}


/// The digest binding a mentor (by the XDR encoding of its address) to its
/// two minimums and the commitment time: SHA-256 of the encoding, the
/// minimums as four big-endian bytes each, and the time as eight.
pub open spec fn commitment_digest(
    mentor_xdr: Seq<u8>,
    min_hours_per_week: u32,
    min_response_time_secs: u32,
    committed_at: u64,
) -> Hash32 {
    words_of(
        sha256_of(
            mentor_xdr + be_bytes(min_hours_per_week as nat, 4) + be_bytes(min_response_time_secs as nat, 4) + be_bytes(
                committed_at as nat,
                8,
            ),
        ),
    )
}

fn commitment_hash_of(
    mentor_xdr: &Vec<u8>,
    min_hours_per_week: u32,
    min_response_time_secs: u32,
    committed_at: u64,
) -> (r: Hash32)
    requires
        mentor_xdr@.len() <= MAX_ID_XDR_LEN,
    ensures
        r == commitment_digest(mentor_xdr@, min_hours_per_week, min_response_time_secs, committed_at),
{
    let mut bytes: Vec<u8> = Vec::new();
    append_all(&mut bytes, mentor_xdr);
    append_be(&mut bytes, min_hours_per_week as u64, 4);
    append_be(&mut bytes, min_response_time_secs as u64, 4);
    append_be(&mut bytes, committed_at, 8);
    proof {
        lemma_be_bytes_len(min_hours_per_week as nat, 4);
        lemma_be_bytes_len(min_response_time_secs as nat, 4);
        lemma_be_bytes_len(committed_at as nat, 8);
        assert(bytes@ =~= mentor_xdr@ + be_bytes(min_hours_per_week as nat, 4) + be_bytes(
            min_response_time_secs as nat,
            4,
        ) + be_bytes(committed_at as nat, 8));
    }
    let digest = sha256(&bytes);
    digest_words(&digest)
}

/// A mentor's availability commitment; `commitment_hash` binds the mentor
/// to the two minimums and the commitment time.
#[derive(Clone, Copy, Debug, PartialEq, Eq, Structural)]
pub struct AvailabilityCommitment {
    pub mentor: AccountId,
    pub commitment_hash: Hash32,
    pub min_hours_per_week: u32,
    pub min_response_time_secs: u32,
    pub committed_at: u64,
    pub expires_at: u64,
    pub is_binding: bool,
}

/// A binding commitment of `mentor` (whose address encodes to
/// `mentor_xdr`) made at `now` that lasts `duration_secs`.
pub fn create_availability_commitment(
    mentor: AccountId,
    mentor_xdr: &Vec<u8>,
    min_hours_per_week: u32,
    min_response_time_secs: u32,
    duration_secs: u64,
    now: u64,
) -> (r: AvailabilityCommitment)
    requires
        now + duration_secs <= u64::MAX,
        mentor_xdr@.len() <= MAX_ID_XDR_LEN,
    ensures
        r == (AvailabilityCommitment {
            mentor,
            commitment_hash: commitment_digest(mentor_xdr@, min_hours_per_week, min_response_time_secs, now),
            min_hours_per_week,
            min_response_time_secs,
            committed_at: now,
            expires_at: (now + duration_secs) as u64,
            is_binding: true,
        }),
{
    let commitment_hash = commitment_hash_of(mentor_xdr, min_hours_per_week, min_response_time_secs, now);
    AvailabilityCommitment {
        mentor,
        commitment_hash,
        min_hours_per_week,
        min_response_time_secs,
        committed_at: now,
        expires_at: now + duration_secs,
        is_binding: true,
    }
}

/// A commitment holds at `now` when it has not expired, is binding, and its
/// hash is the one recomputed from its fields, its mentor taken by the XDR
/// encoding `mentor_xdr`.
pub fn verify_availability_commitment(commitment: &AvailabilityCommitment, mentor_xdr: &Vec<u8>, now: u64) -> (r: bool)
    requires
        mentor_xdr@.len() <= MAX_ID_XDR_LEN,
    ensures
        r == (now <= commitment.expires_at && commitment.is_binding && commitment.commitment_hash == commitment_digest(
            mentor_xdr@,
            commitment.min_hours_per_week,
            commitment.min_response_time_secs,
            commitment.committed_at,
        )),
{
    if now > commitment.expires_at {
        return false;
    }
    if !commitment.is_binding {
        return false;
    }
    let expected = commitment_hash_of(
        mentor_xdr,
        commitment.min_hours_per_week,
        commitment.min_response_time_secs,
        commitment.committed_at,
    );
    commitment.commitment_hash == expected
}

} // verus!
