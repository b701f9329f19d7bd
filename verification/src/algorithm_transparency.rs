//! Algorithm transparency scoring and black-box exploitation protection.
//!
//! Pure scoring and decision logic over probe, score and weight data that the
//! calling contract already holds.
use vstd::prelude::*;

use crate::common::{clamp_u32, min_int, sat_mul_u32};

verus! {

/// Time window (seconds) within which repeated score-probing queries from a
/// single address are tracked for reverse-engineering detection.
pub const PROBE_DETECTION_WINDOW_SECS: u64 = 3_600;

/// Number of probes within the detection window above which an address is
/// considered to be reverse-engineering the algorithm.
pub const PROBE_HIGH_FREQUENCY_THRESHOLD: u32 = 20;

/// Risk score (0-100) at or above which a probe pattern is flagged.
pub const REVERSE_ENGINEERING_RISK_THRESHOLD: u32 = 60;

/// Maximum fraction (bps) of the scoring formula disclosed in one response.
pub const MAX_TRANSPARENCY_DISCLOSURE_BPS: u32 = 7_000;

/// Minimum fraction (bps) of the scoring formula that must be disclosed.
pub const MIN_TRANSPARENCY_DISCLOSURE_BPS: u32 = 3_000;

/// Number of distinct factor categories used in ranking scores.
pub const RANKING_FACTOR_COUNT: u32 = 5;

/// Risk score (0-100) at or above which manipulation triggers protection.
pub const ALGO_MANIPULATION_RISK_THRESHOLD: u32 = 65;

/// Cooldown (seconds) before restoration after protection.
pub const ALGO_PROTECTION_COOLDOWN_SECS: u64 = 3_600;

/// Combined risk score at or above which protection intervenes.
pub const ALGO_INTERVENTION_THRESHOLD: u32 = 65;

/// Window (seconds) over which ranking-score variance is measured.
pub const RANKING_GAMING_WINDOW_SECS: u64 = 1_800;

/// Maximum acceptable ranking-score deviation (bps) before a gaming flag.
pub const RANKING_SCORE_DEVIATION_BPS: u32 = 3_000;

#[derive(Clone, Copy, Debug, PartialEq, Eq, Structural)]
pub struct AlgorithmTransparency {
    pub fair_operation: bool,
    pub transparency_score: u32,
    pub disclosure_bps: u32,
    pub factor_count: u32,
    pub manipulation_detected: bool,
}

#[derive(Clone, Copy, Debug, PartialEq, Eq, Structural)]
pub struct ReverseEngineeringProtection {
    pub safe: bool,
    pub probe_count: u32,
    pub risk_score: u32,
    pub systematic_variation: bool,
}

/// Why a disclosure level was chosen.
#[derive(Clone, Copy, Debug, PartialEq, Eq, Structural)]
pub enum BalanceReason {
    BelowMinDisclosure,
    CappedForSecurity,
    Balanced,
}

#[derive(Clone, Copy, Debug, PartialEq, Eq, Structural)]
pub struct TransparencyBalance {
    pub balanced: bool,
    pub chosen_disclosure_bps: u32,
    pub capped: bool,
    pub reason: BalanceReason,
}

#[derive(Clone, Copy, Debug, PartialEq, Eq, Structural)]
pub struct AlgorithmMonitoringResult {
    pub operating_normally: bool,
    pub suspicious_deviations: u32,
    pub manipulation_risk_score: u32,
    pub coordinated_gaming: bool,
}

#[derive(Clone, Copy, Debug, PartialEq, Eq, Structural)]
pub struct TransparencyAuditRecord {
    pub compliant: bool,
    pub violation_count: u32,
    pub fairness_score: u32,
    pub security_verified: bool,
}

/// Primary reason for an algorithm-protection intervention.
#[derive(Clone, Copy, Debug, PartialEq, Eq, Structural)]
pub enum ProtectionReason {
    ReverseEngineering,
    CoordinatedGaming,
    ManipulationDetected,
    CombinedRisk,
    NoIntervention,
}

#[derive(Clone, Copy, Debug, PartialEq, Eq, Structural)]
pub struct AlgorithmProtectionRecord {
    pub intervention_active: bool,
    pub combined_risk_score: u32,
    pub reason: ProtectionReason,
    pub restoration_eligible_at: u64,
}

/// Sum of disclosed weights, saturating at `u32::MAX` at every step.
pub open spec fn sat_sum_u32(s: Seq<u32>) -> u32
    decreases s.len(),
{
    if s.len() == 0 {
        0
    } else {
        sat_sum_u32(s.drop_last()).saturating_add(s.last())
    }
}

pub open spec fn transparency_spec(weights: Seq<u32>, total_factors: u32, signals: u32) -> AlgorithmTransparency {
    let disclosed = weights.len() as u32;
    let factor_count = min_int(disclosed as int, total_factors as int) as u32;
    let disclosure = min_int(sat_sum_u32(weights) as int, 10_000) as u32;
    let ratio: u32 = if total_factors == 0 {
        10_000
    } else {
        (clamp_u32(factor_count * 10_000) as int / total_factors as int) as u32
    };
    let score = min_int(ratio as int / 100 + disclosure as int / 200, 100) as u32;
    AlgorithmTransparency {
        fair_operation: signals == 0 && disclosure >= MIN_TRANSPARENCY_DISCLOSURE_BPS,
        transparency_score: score,
        disclosure_bps: disclosure,
        factor_count,
        manipulation_detected: signals > 0,
    }
}

/// Produce an algorithm-transparency assessment from the disclosed factor
/// weights, the total number of factors and the count of active
/// manipulation signals.
pub fn assess_algorithm_transparency(
    factor_weights_bps: &Vec<u32>,
    total_factors: u32,
    manipulation_signal_count: u32,
) -> (r: AlgorithmTransparency)
    requires
        factor_weights_bps@.len() <= u32::MAX,
    ensures
        r == transparency_spec(factor_weights_bps@, total_factors, manipulation_signal_count),
{
    let disclosed_factors = factor_weights_bps.len() as u32;
    let factor_count = if disclosed_factors <= total_factors { disclosed_factors } else { total_factors };
    let mut disclosure_bps: u32 = 0;
    let mut i: usize = 0;
    while i < factor_weights_bps.len()
        invariant
            0 <= i <= factor_weights_bps@.len(),
            disclosure_bps == sat_sum_u32(factor_weights_bps@.take(i as int)),
        decreases factor_weights_bps@.len() - i,
    {
        assert(factor_weights_bps@.take(i as int + 1).drop_last() == factor_weights_bps@.take(i as int));
        disclosure_bps = disclosure_bps.saturating_add(factor_weights_bps[i]);
        i = i + 1;
    }
    assert(factor_weights_bps@.take(factor_weights_bps@.len() as int) == factor_weights_bps@);
    if disclosure_bps > 10_000 {
        disclosure_bps = 10_000;
    }
    let factor_ratio_bps: u32 = if total_factors == 0 {
        10_000
    } else {
        sat_mul_u32(factor_count, 10_000) / total_factors
    };
    let raw = factor_ratio_bps / 100 + disclosure_bps / 200;
    let transparency_score = if raw <= 100 { raw } else { 100 };
    let manipulation_detected = manipulation_signal_count > 0;
    AlgorithmTransparency {
        fair_operation: !manipulation_detected && disclosure_bps >= MIN_TRANSPARENCY_DISCLOSURE_BPS,
        transparency_score,
        disclosure_bps,
        factor_count,
        manipulation_detected,
    }
}

pub open spec fn probe_risk_spec(probe_count: u32, systematic: bool) -> u32 {
    let base: u32 = if probe_count >= 40 {
        60
    } else if probe_count >= 20 {
        35
    } else if probe_count >= 10 {
        15
    } else {
        0
    };
    let with_sys: u32 = if systematic { (base + 35) as u32 } else { base };
    if with_sys <= 100 { with_sys } else { 100 }
}

pub open spec fn reverse_engineering_spec(probe_count: u32, variations: u32) -> ReverseEngineeringProtection {
    let systematic = probe_count > 0 && variations >= clamp_u32(probe_count * 7) / 10;
    let risk = probe_risk_spec(probe_count, systematic);
    ReverseEngineeringProtection {
        safe: risk < REVERSE_ENGINEERING_RISK_THRESHOLD,
        probe_count,
        risk_score: risk,
        systematic_variation: systematic,
    }
}

/// Analyse the probes of one address within the detection window: the
/// probe count and the share of systematically varied inputs give a risk
/// score; at `REVERSE_ENGINEERING_RISK_THRESHOLD` or above the pattern is
/// unsafe.
pub fn detect_reverse_engineering(probe_timestamps: &Vec<u64>, distinct_input_variations: u32) -> (r: ReverseEngineeringProtection)
    requires
        probe_timestamps@.len() <= u32::MAX,
    ensures
        r == reverse_engineering_spec(probe_timestamps@.len() as u32, distinct_input_variations),
{
    let probe_count = probe_timestamps.len() as u32;
    let systematic_variation = probe_count > 0 && distinct_input_variations >= sat_mul_u32(probe_count, 7) / 10;
    let mut risk: u32 = 0;
    if probe_count >= PROBE_HIGH_FREQUENCY_THRESHOLD * 2 {
        risk = 60;
    } else if probe_count >= PROBE_HIGH_FREQUENCY_THRESHOLD {
        risk = 35;
    } else if probe_count >= PROBE_HIGH_FREQUENCY_THRESHOLD / 2 {
        risk = 15;
    }
    if systematic_variation {
        risk = risk + 35;
    }
    if risk > 100 {
        risk = 100;
    }
    ReverseEngineeringProtection {
        safe: risk < REVERSE_ENGINEERING_RISK_THRESHOLD,
        probe_count,
        risk_score: risk,
        systematic_variation,
    }
}

/// Whether an address should be blocked from further transparency responses.
pub fn should_block_transparency_response(protection: &ReverseEngineeringProtection) -> (r: bool)
    ensures
        r == !protection.safe,
{
    !protection.safe
}

pub open spec fn transparency_balance_spec(requested: u32, probe_risk: u32) -> TransparencyBalance {
    let effective_max = if probe_risk >= REVERSE_ENGINEERING_RISK_THRESHOLD {
        MIN_TRANSPARENCY_DISCLOSURE_BPS
    } else {
        MAX_TRANSPARENCY_DISCLOSURE_BPS
    };
    let capped = requested > effective_max;
    let chosen = if capped { effective_max } else { requested };
    if chosen < MIN_TRANSPARENCY_DISCLOSURE_BPS {
        TransparencyBalance { balanced: false, chosen_disclosure_bps: chosen, capped, reason: BalanceReason::BelowMinDisclosure }
    } else if capped {
        TransparencyBalance { balanced: true, chosen_disclosure_bps: chosen, capped, reason: BalanceReason::CappedForSecurity }
    } else {
        TransparencyBalance { balanced: true, chosen_disclosure_bps: chosen, capped, reason: BalanceReason::Balanced }
    }
}

/// Choose a disclosure level: under probing pressure only the minimum may be
/// disclosed, otherwise at most `MAX_TRANSPARENCY_DISCLOSURE_BPS`.
pub fn compute_transparency_balance(requested_disclosure_bps: u32, probe_risk_score: u32) -> (r: TransparencyBalance)
    ensures
        r == transparency_balance_spec(requested_disclosure_bps, probe_risk_score),
        r.chosen_disclosure_bps <= MAX_TRANSPARENCY_DISCLOSURE_BPS,
{
    let effective_max = if probe_risk_score >= REVERSE_ENGINEERING_RISK_THRESHOLD {
        MIN_TRANSPARENCY_DISCLOSURE_BPS
    } else {
        MAX_TRANSPARENCY_DISCLOSURE_BPS
    };
    let capped = requested_disclosure_bps > effective_max;
    let chosen_disclosure_bps = if capped { effective_max } else { requested_disclosure_bps };
    let (balanced, reason) = if chosen_disclosure_bps < MIN_TRANSPARENCY_DISCLOSURE_BPS {
        (false, BalanceReason::BelowMinDisclosure)
    } else if capped {
        (true, BalanceReason::CappedForSecurity)
    } else {
        (true, BalanceReason::Balanced)
    };
    TransparencyBalance { balanced, chosen_disclosure_bps, capped, reason }
}

/// Number of deviations above the gaming threshold among the first `n`.
pub open spec fn count_suspicious(devs: Seq<u32>, n: int) -> u32
    decreases n,
{
    if n <= 0 {
        0
    } else {
        let prev = count_suspicious(devs, n - 1);
        if devs[n - 1] > RANKING_SCORE_DEVIATION_BPS { prev.saturating_add(1) } else { prev }
    }
}

pub open spec fn monitoring_spec(n: u32, suspicious: u32, coordinated_actor_count: u32) -> AlgorithmMonitoringResult {
    if n == 0 {
        AlgorithmMonitoringResult { operating_normally: true, suspicious_deviations: 0, manipulation_risk_score: 0, coordinated_gaming: false }
    } else {
        let coordinated = coordinated_actor_count >= 3 && suspicious >= 2;
        let base: u32 = if suspicious >= n / 2 { 50 } else if suspicious >= 2 { 25 } else { 0 };
        let risk: u32 = if coordinated { (base + 35) as u32 } else { base };
        AlgorithmMonitoringResult {
            operating_normally: risk < ALGO_MANIPULATION_RISK_THRESHOLD,
            suspicious_deviations: suspicious,
            manipulation_risk_score: risk,
            coordinated_gaming: coordinated,
        }
    }
}

/// Monitor ranking-score deviations for manipulation signals. Only the
/// first `min(len(timestamps), len(deviations))` entries are considered.
pub fn monitor_ranking_algorithm(
    score_timestamps: &Vec<u64>,
    score_deviations_bps: &Vec<u32>,
    coordinated_actor_count: u32,
) -> (r: AlgorithmMonitoringResult)
    requires
        score_timestamps@.len() <= u32::MAX,
    ensures
        ({
            let n = min_int(score_timestamps@.len() as int, score_deviations_bps@.len() as int);
            r == monitoring_spec(n as u32, count_suspicious(score_deviations_bps@, n), coordinated_actor_count)
        }),
{
    let n: usize = if score_timestamps.len() <= score_deviations_bps.len() {
        score_timestamps.len()
    } else {
        score_deviations_bps.len()
    };
    if n == 0 {
        return AlgorithmMonitoringResult {
            operating_normally: true,
            suspicious_deviations: 0,
            manipulation_risk_score: 0,
            coordinated_gaming: false,
        };
    }
    let mut suspicious: u32 = 0;
    let mut i: usize = 0;
    while i < n
        invariant
            0 <= i <= n,
            n <= score_deviations_bps@.len(),
            suspicious == count_suspicious(score_deviations_bps@, i as int),
        decreases n - i,
    {
        if score_deviations_bps[i] > RANKING_SCORE_DEVIATION_BPS {
            suspicious = suspicious.saturating_add(1);
        }
        i = i + 1;
    }
    let coordinated_gaming = coordinated_actor_count >= 3 && suspicious >= 2;
    let n32 = n as u32;
    let mut risk: u32 = 0;
    if suspicious >= n32 / 2 {
        risk = 50;
    } else if suspicious >= 2 {
        risk = 25;
    }
    if coordinated_gaming {
        risk = risk + 35;
    }
    AlgorithmMonitoringResult {
        operating_normally: risk < ALGO_MANIPULATION_RISK_THRESHOLD,
        suspicious_deviations: suspicious,
        manipulation_risk_score: risk,
        coordinated_gaming,
    }
}

pub open spec fn audit_spec(
    t: AlgorithmTransparency,
    p: ReverseEngineeringProtection,
    b: TransparencyBalance,
    m: AlgorithmMonitoringResult,
) -> TransparencyAuditRecord {
    let v: u32 = ((if !t.fair_operation { 1int } else { 0int }) + (if !p.safe { 1int } else { 0int })
        + (if !b.balanced { 1int } else { 0int }) + (if !m.operating_normally { 1int } else { 0int })) as u32;
    let fairness = min_int(t.transparency_score.saturating_sub((v * 15) as u32) as int, 100) as u32;
    TransparencyAuditRecord {
        compliant: v == 0,
        violation_count: v,
        fairness_score: fairness,
        security_verified: p.safe && !m.coordinated_gaming,
    }
}

/// Produce a transparency audit from the sub-component results: one
/// violation per failed component, 15 fairness points lost per violation.
pub fn audit_algorithm_transparency(
    transparency: &AlgorithmTransparency,
    protection: &ReverseEngineeringProtection,
    balance: &TransparencyBalance,
    monitoring: &AlgorithmMonitoringResult,
) -> (r: TransparencyAuditRecord)
    ensures
        r == audit_spec(*transparency, *protection, *balance, *monitoring),
{
    let mut violations: u32 = 0;
    if !transparency.fair_operation {
        violations = violations + 1;
    }
    if !protection.safe {
        violations = violations + 1;
    }
    if !balance.balanced {
        violations = violations + 1;
    }
    if !monitoring.operating_normally {
        violations = violations + 1;
    }
    let f = transparency.transparency_score.saturating_sub(violations * 15);
    let fairness_score = if f <= 100 { f } else { 100 };
    TransparencyAuditRecord {
        compliant: violations == 0,
        violation_count: violations,
        fairness_score,
        security_verified: protection.safe && !monitoring.coordinated_gaming,
    }
}

pub open spec fn combined_algo_risk(
    t: AlgorithmTransparency,
    p: ReverseEngineeringProtection,
    m: AlgorithmMonitoringResult,
) -> u32 {
    let combined = (t.transparency_score.saturating_sub(p.risk_score).saturating_add(m.manipulation_risk_score) / 2) as u32;
    let inverted = min_int(100u32.saturating_sub(combined) as int, 100);
    let a = if inverted >= (p.risk_score / 2) as int { inverted } else { (p.risk_score / 2) as int };
    (if a >= (m.manipulation_risk_score / 2) as int { a } else { (m.manipulation_risk_score / 2) as int }) as u32
}

pub open spec fn protection_spec(
    t: AlgorithmTransparency,
    p: ReverseEngineeringProtection,
    m: AlgorithmMonitoringResult,
    cooldown: u64,
    now: u64,
) -> AlgorithmProtectionRecord {
    let risk = combined_algo_risk(t, p, m);
    let reason = if !p.safe {
        ProtectionReason::ReverseEngineering
    } else if m.coordinated_gaming {
        ProtectionReason::CoordinatedGaming
    } else if t.manipulation_detected {
        ProtectionReason::ManipulationDetected
    } else if risk >= ALGO_INTERVENTION_THRESHOLD {
        ProtectionReason::CombinedRisk
    } else {
        ProtectionReason::NoIntervention
    };
    let intervene = reason != ProtectionReason::NoIntervention;
    AlgorithmProtectionRecord {
        intervention_active: intervene,
        combined_risk_score: risk,
        reason,
        restoration_eligible_at: if intervene { now.saturating_add(cooldown) } else { now },
    }
}

/// Combine all algorithm-protection signals into one automatic intervention
/// decision at ledger time `now`.
pub fn compute_algo_protection_intervention(
    now: u64,
    transparency: &AlgorithmTransparency,
    protection: &ReverseEngineeringProtection,
    monitoring: &AlgorithmMonitoringResult,
    restoration_cooldown_secs: u64,
) -> (r: AlgorithmProtectionRecord)
    ensures
        r == protection_spec(*transparency, *protection, *monitoring, restoration_cooldown_secs, now),
{
    let combined = transparency.transparency_score.saturating_sub(protection.risk_score).saturating_add(
        monitoring.manipulation_risk_score,
    ) / 2;
    let inv = 100u32.saturating_sub(combined);
    let mut combined_risk = if inv <= 100 { inv } else { 100 };
    if combined_risk < protection.risk_score / 2 {
        combined_risk = protection.risk_score / 2;
    }
    if combined_risk < monitoring.manipulation_risk_score / 2 {
        combined_risk = monitoring.manipulation_risk_score / 2;
    }
    let reason = if !protection.safe {
        ProtectionReason::ReverseEngineering
    } else if monitoring.coordinated_gaming {
        ProtectionReason::CoordinatedGaming
    } else if transparency.manipulation_detected {
        ProtectionReason::ManipulationDetected
    } else if combined_risk >= ALGO_INTERVENTION_THRESHOLD {
        ProtectionReason::CombinedRisk
    } else {
        ProtectionReason::NoIntervention
    };
    let intervene = match reason {
        ProtectionReason::NoIntervention => false,
        _ => true,
    };
    AlgorithmProtectionRecord {
        intervention_active: intervene,
        combined_risk_score: combined_risk,
        reason,
        restoration_eligible_at: if intervene { now.saturating_add(restoration_cooldown_secs) } else { now },
    }
}

pub open spec fn algo_restoration_eligible_spec(record: AlgorithmProtectionRecord, now: u64) -> bool {
    !record.intervention_active || now >= record.restoration_eligible_at
}

/// Whether a previously intervened algorithm may be restored.
pub fn is_algo_restoration_eligible(record: &AlgorithmProtectionRecord, now: u64) -> (r: bool)
    ensures
        r == algo_restoration_eligible_spec(*record, now),
{
    !record.intervention_active || now >= record.restoration_eligible_at
}

/// An intervention lasts exactly the cooldown (when the clock does not
/// saturate): the record is not eligible for restoration before
/// `now + cooldown` and is eligible from then on.
pub proof fn lemma_intervention_cooldown(
    t: AlgorithmTransparency,
    p: ReverseEngineeringProtection,
    m: AlgorithmMonitoringResult,
    cooldown: u64,
    now: u64,
    later: u64,
)
    requires
        protection_spec(t, p, m, cooldown, now).intervention_active,
        now + cooldown <= u64::MAX,
    ensures
        algo_restoration_eligible_spec(protection_spec(t, p, m, cooldown, now), later) <==> later >= now + cooldown,
{
}

} // verus!
