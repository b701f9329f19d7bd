//! Community dynamics protection: coordination rings, network growth,
//! social proof and the resulting access and intervention decisions.
use vstd::prelude::*;

use crate::common::{clamp_u32, sat_mul_u32};

verus! {

/// Minimum interactions between the same counterparties before scoring.
pub const COORDINATION_MIN_INTERACTIONS: u32 = 3;

/// Interactions of one pair within this window are tightly clustered.
pub const COORDINATION_TIGHT_WINDOW_SECS: u64 = 3_600;

/// Risk score (0-100) at or above which a coordination flag is suspicious.
pub const COORDINATION_RISK_THRESHOLD: u32 = 60;

/// Below this ratio (bps) of distinct sources growth is concentrated.
pub const NETWORK_DISTINCT_SOURCE_MIN_BPS: u32 = 2_000;

/// Growth rate (new members per day) above which growth is scrutinized.
pub const NETWORK_SUSPICIOUS_GROWTH_PER_DAY: u32 = 25;

/// Endorsements within this window of each other form a burst.
pub const SOCIAL_PROOF_BURST_WINDOW_SECS: u64 = 1_800;

/// Minimum distinct endorsers (bps of all endorsements) for genuineness.
pub const SOCIAL_PROOF_MIN_DISTINCT_BPS: u32 = 4_000;

/// Risk score at or above which community protection auto-intervenes.
pub const COMMUNITY_INTERVENTION_THRESHOLD: u32 = 70;

#[derive(Clone, Copy, Debug, PartialEq, Eq, Structural)]
pub struct CoordinationFlag {
    pub suspicious: bool,
    pub risk_score: u32,
    pub repeated_pair_count: u32,
    pub clustered_timing_count: u32,
}

#[derive(Clone, Copy, Debug, PartialEq, Eq, Structural)]
pub struct NetworkEffectScore {
    pub authentic: bool,
    pub influence_score: u32,
    pub artificial_growth_flag: bool,
    pub distinct_source_bps: u32,
}

#[derive(Clone, Copy, Debug, PartialEq, Eq, Structural)]
pub struct SocialProofRecord {
    pub genuine: bool,
    pub gaming_risk_score: u32,
    pub distinct_endorser_bps: u32,
    pub burst_count: u32,
}

/// Why community access was restricted or flagged.
#[derive(Clone, Copy, Debug, PartialEq, Eq, Structural)]
pub enum AccessRestriction {
    CoordinationDetected,
    SocialProofGaming,
    Monitored,
}

#[derive(Clone, Copy, Debug, PartialEq, Eq, Structural)]
pub struct FairAccessDecision {
    pub access_granted: bool,
    pub restriction_reason: Option<AccessRestriction>,
    pub review_required: bool,
}

/// Primary reason for a community intervention.
#[derive(Clone, Copy, Debug, PartialEq, Eq, Structural)]
pub enum InterventionReason {
    CoordinationRing,
    SocialProofGaming,
    ArtificialNetworkGrowth,
    NoIntervention,
}

#[derive(Clone, Copy, Debug, PartialEq, Eq, Structural)]
pub struct CommunityInterventionRecord {
    pub intervene: bool,
    pub combined_risk_score: u32,
    pub reason: InterventionReason,
    pub restoration_eligible_at: u64,
}

/// Number of consecutive pairs among the first `n` timestamps closer than
/// `window` seconds (gaps computed with saturating subtraction).
pub open spec fn close_pairs(ts: Seq<u64>, n: int, window: u64) -> u32
    decreases n,
{
    if n <= 1 {
        0
    } else {
        let prev = close_pairs(ts, n - 1, window);
        if ts[n - 1].saturating_sub(ts[n - 2]) < window { prev.saturating_add(1) } else { prev }
    }
}

fn count_close_pairs(ts: &Vec<u64>, window: u64) -> (r: u32)
    ensures
        r == close_pairs(ts@, ts@.len() as int, window),
{
    let mut count: u32 = 0;
    if ts.len() < 2 {
        return 0;
    }
    let mut i: usize = 1;
    while i < ts.len()
        invariant
            1 <= i <= ts@.len(),
            count == close_pairs(ts@, i as int, window),
        decreases ts@.len() - i,
    {
        if ts[i].saturating_sub(ts[i - 1]) < window {
            count = count.saturating_add(1);
        }
        i = i + 1;
    }
    count
}

pub open spec fn coordination_spec(count: u32, clustered: u32) -> CoordinationFlag {
    let r1: u32 = if count >= COORDINATION_MIN_INTERACTIONS { 30 } else { 0 };
    let r2: u32 = if clustered >= 2 { (r1 + 40) as u32 } else { r1 };
    let r3: u32 = if count >= 6 { (r2 + 20) as u32 } else { r2 };
    CoordinationFlag {
        suspicious: r3 >= COORDINATION_RISK_THRESHOLD,
        risk_score: r3,
        repeated_pair_count: count,
        clustered_timing_count: clustered,
    }
}

/// Detect coordination between two counterparties from the timestamps of
/// their shared interactions.
pub fn detect_coordination(timestamps: &Vec<u64>) -> (r: CoordinationFlag)
    requires
        timestamps@.len() <= u32::MAX,
    ensures
        r == coordination_spec(
            timestamps@.len() as u32,
            close_pairs(timestamps@, timestamps@.len() as int, COORDINATION_TIGHT_WINDOW_SECS),
        ),
{
    let count = timestamps.len() as u32;
    let clustered = count_close_pairs(timestamps, COORDINATION_TIGHT_WINDOW_SECS);
    let mut risk: u32 = 0;
    if count >= COORDINATION_MIN_INTERACTIONS {
        risk = risk + 30;
    }
    if clustered >= 2 {
        risk = risk + 40;
    }
    if count >= COORDINATION_MIN_INTERACTIONS * 2 {
        risk = risk + 20;
    }
    CoordinationFlag {
        suspicious: risk >= COORDINATION_RISK_THRESHOLD,
        risk_score: risk,
        repeated_pair_count: count,
        clustered_timing_count: clustered,
    }
}

pub open spec fn coordination_ring_spec(group_size: u32, distinct_counterparties: u32) -> CoordinationFlag {
    if group_size < 2 {
        CoordinationFlag { suspicious: false, risk_score: 0, repeated_pair_count: 0, clustered_timing_count: 0 }
    } else {
        let ratio = (clamp_u32(distinct_counterparties * 10_000) / group_size) as u32;
        let r1: u32 = if ratio < 1_000 { 60 } else if ratio < 3_000 { 30 } else { 0 };
        let r2: u32 = if group_size >= 3 { (r1 + 20) as u32 } else { r1 };
        CoordinationFlag {
            suspicious: r2 >= COORDINATION_RISK_THRESHOLD,
            risk_score: r2,
            repeated_pair_count: group_size,
            clustered_timing_count: 0,
        }
    }
}

/// Scan a suspected clique for a coordination ring: members that barely
/// interact outside the group raise the risk.
pub fn detect_coordination_ring(group_size: u32, distinct_counterparties: u32) -> (r: CoordinationFlag)
    ensures
        r == coordination_ring_spec(group_size, distinct_counterparties),
{
    if group_size < 2 {
        return CoordinationFlag {
            suspicious: false,
            risk_score: 0,
            repeated_pair_count: 0,
            clustered_timing_count: 0,
        };
    }
    let external_ratio_bps = sat_mul_u32(distinct_counterparties, 10_000) / group_size;
    let mut risk: u32 = 0;
    if external_ratio_bps < 1_000 {
        risk = 60;
    } else if external_ratio_bps < 3_000 {
        risk = 30;
    }
    if group_size >= 3 {
        risk = risk + 20;
    }
    CoordinationFlag {
        suspicious: risk >= COORDINATION_RISK_THRESHOLD,
        risk_score: risk,
        repeated_pair_count: group_size,
        clustered_timing_count: 0,
    }
}

pub open spec fn network_spec(per_day: u32, total: u32, sources: u32) -> NetworkEffectScore {
    let bps: u32 = if total == 0 { 10_000 } else { (clamp_u32(sources * 10_000) / total) as u32 };
    let artificial = per_day > NETWORK_SUSPICIOUS_GROWTH_PER_DAY && bps < NETWORK_DISTINCT_SOURCE_MIN_BPS;
    let influence: u32 = if artificial { 40 } else if bps < NETWORK_DISTINCT_SOURCE_MIN_BPS { 70 } else { 100 };
    NetworkEffectScore {
        authentic: !artificial,
        influence_score: influence,
        artificial_growth_flag: artificial,
        distinct_source_bps: bps,
    }
}

/// Validate the authenticity of network growth from the daily growth rate
/// and the share of distinct referral sources.
pub fn validate_network_authenticity(new_members_per_day: u32, total_new_members: u32, distinct_sources: u32) -> (r: NetworkEffectScore)
    ensures
        r == network_spec(new_members_per_day, total_new_members, distinct_sources),
{
    let distinct_source_bps = if total_new_members == 0 {
        10_000
    } else {
        sat_mul_u32(distinct_sources, 10_000) / total_new_members
    };
    let mut artificial_growth_flag = false;
    let mut influence_score: u32 = 100;
    if new_members_per_day > NETWORK_SUSPICIOUS_GROWTH_PER_DAY && distinct_source_bps < NETWORK_DISTINCT_SOURCE_MIN_BPS {
        artificial_growth_flag = true;
        influence_score = influence_score - 60;
    } else if distinct_source_bps < NETWORK_DISTINCT_SOURCE_MIN_BPS {
        influence_score = influence_score - 30;
    }
    NetworkEffectScore {
        authentic: !artificial_growth_flag,
        influence_score,
        artificial_growth_flag,
        distinct_source_bps,
    }
}

pub open spec fn social_proof_spec(total: u32, distinct: u32, bursts: u32) -> SocialProofRecord {
    let bps: u32 = if total == 0 { 10_000 } else { (clamp_u32(distinct * 10_000) / total) as u32 };
    let r1: u32 = if bps < SOCIAL_PROOF_MIN_DISTINCT_BPS { 50 } else { 0 };
    let r2: u32 = if bursts >= 3 { (r1 + 40) as u32 } else if bursts >= 1 { (r1 + 15) as u32 } else { r1 };
    SocialProofRecord {
        genuine: r2 < COORDINATION_RISK_THRESHOLD,
        gaming_risk_score: r2,
        distinct_endorser_bps: bps,
        burst_count: bursts,
    }
}

/// Verify the genuineness of social-proof signals aimed at one subject.
pub fn verify_social_proof(signal_timestamps: &Vec<u64>, distinct_endorsers: u32) -> (r: SocialProofRecord)
    requires
        signal_timestamps@.len() <= u32::MAX,
    ensures
        r == social_proof_spec(
            signal_timestamps@.len() as u32,
            distinct_endorsers,
            close_pairs(signal_timestamps@, signal_timestamps@.len() as int, SOCIAL_PROOF_BURST_WINDOW_SECS),
        ),
{
    let total = signal_timestamps.len() as u32;
    let distinct_endorser_bps = if total == 0 { 10_000 } else { sat_mul_u32(distinct_endorsers, 10_000) / total };
    let burst_count = count_close_pairs(signal_timestamps, SOCIAL_PROOF_BURST_WINDOW_SECS);
    let mut gaming_risk: u32 = 0;
    if distinct_endorser_bps < SOCIAL_PROOF_MIN_DISTINCT_BPS {
        gaming_risk = 50;
    }
    if burst_count >= 3 {
        gaming_risk = gaming_risk + 40;
    } else if burst_count >= 1 {
        gaming_risk = gaming_risk + 15;
    }
    SocialProofRecord {
        genuine: gaming_risk < COORDINATION_RISK_THRESHOLD,
        gaming_risk_score: gaming_risk,
        distinct_endorser_bps,
        burst_count,
    }
}

pub open spec fn fair_access_spec(c: CoordinationFlag, s: SocialProofRecord) -> FairAccessDecision {
    if c.risk_score >= COMMUNITY_INTERVENTION_THRESHOLD {
        FairAccessDecision { access_granted: false, restriction_reason: Some(AccessRestriction::CoordinationDetected), review_required: true }
    } else if s.gaming_risk_score >= COMMUNITY_INTERVENTION_THRESHOLD {
        FairAccessDecision { access_granted: false, restriction_reason: Some(AccessRestriction::SocialProofGaming), review_required: true }
    } else if c.suspicious || !s.genuine {
        FairAccessDecision { access_granted: true, restriction_reason: Some(AccessRestriction::Monitored), review_required: true }
    } else {
        FairAccessDecision { access_granted: true, restriction_reason: None, review_required: false }
    }
}

/// Decide whether an account keeps full community access.
pub fn evaluate_fair_access(coordination: CoordinationFlag, social_proof: SocialProofRecord) -> (r: FairAccessDecision)
    ensures
        r == fair_access_spec(coordination, social_proof),
{
    if coordination.risk_score >= COMMUNITY_INTERVENTION_THRESHOLD {
        return FairAccessDecision {
            access_granted: false,
            restriction_reason: Some(AccessRestriction::CoordinationDetected),
            review_required: true,
        };
    }
    if social_proof.gaming_risk_score >= COMMUNITY_INTERVENTION_THRESHOLD {
        return FairAccessDecision {
            access_granted: false,
            restriction_reason: Some(AccessRestriction::SocialProofGaming),
            review_required: true,
        };
    }
    if coordination.suspicious || !social_proof.genuine {
        return FairAccessDecision {
            access_granted: true,
            restriction_reason: Some(AccessRestriction::Monitored),
            review_required: true,
        };
    }
    FairAccessDecision { access_granted: true, restriction_reason: None, review_required: false }
}

pub open spec fn community_intervention_spec(
    c: CoordinationFlag,
    n: NetworkEffectScore,
    s: SocialProofRecord,
    cooldown: u64,
    now: u64,
) -> CommunityInterventionRecord {
    let sum = c.risk_score.saturating_add(s.gaming_risk_score).saturating_add(
        if n.artificial_growth_flag { 40u32 } else { 0u32 },
    );
    let half = (sum / 2) as u32;
    let combined: u32 = if half <= 100 { half } else { 100 };
    let reason = if c.risk_score >= COMMUNITY_INTERVENTION_THRESHOLD {
        InterventionReason::CoordinationRing
    } else if s.gaming_risk_score >= COMMUNITY_INTERVENTION_THRESHOLD {
        InterventionReason::SocialProofGaming
    } else if n.artificial_growth_flag {
        InterventionReason::ArtificialNetworkGrowth
    } else {
        InterventionReason::NoIntervention
    };
    let intervene = reason != InterventionReason::NoIntervention;
    CommunityInterventionRecord {
        intervene,
        combined_risk_score: combined,
        reason,
        restoration_eligible_at: if intervene { now.saturating_add(cooldown) } else { now },
    }
}

/// Combine coordination, network and social-proof signals into one
/// automatic intervention decision at ledger time `now`.
pub fn compute_community_intervention(
    now: u64,
    coordination: CoordinationFlag,
    network: NetworkEffectScore,
    social_proof: SocialProofRecord,
    restoration_cooldown_secs: u64,
) -> (r: CommunityInterventionRecord)
    ensures
        r == community_intervention_spec(coordination, network, social_proof, restoration_cooldown_secs, now),
{
    let extra: u32 = if network.artificial_growth_flag { 40 } else { 0 };
    let half = coordination.risk_score.saturating_add(social_proof.gaming_risk_score).saturating_add(extra) / 2;
    let combined = if half <= 100 { half } else { 100 };
    let reason = if coordination.risk_score >= COMMUNITY_INTERVENTION_THRESHOLD {
        InterventionReason::CoordinationRing
    } else if social_proof.gaming_risk_score >= COMMUNITY_INTERVENTION_THRESHOLD {
        InterventionReason::SocialProofGaming
    } else if network.artificial_growth_flag {
        InterventionReason::ArtificialNetworkGrowth
    } else {
        InterventionReason::NoIntervention
    };
    let intervene = match reason {
        InterventionReason::NoIntervention => false,
        _ => true,
    };
    CommunityInterventionRecord {
        intervene,
        combined_risk_score: combined,
        reason,
        restoration_eligible_at: if intervene { now.saturating_add(restoration_cooldown_secs) } else { now },
    }
}

/// Whether an account that was intervened on may participate again.
pub fn is_restoration_eligible(record: &CommunityInterventionRecord, now: u64) -> (r: bool)
    ensures
        r == (!record.intervene || now >= record.restoration_eligible_at),
{
    !record.intervene || now >= record.restoration_eligible_at
}

/// Whenever community access is denied, an intervention is also decided for
/// the same signals, and a review is always required.
pub proof fn lemma_denied_access_implies_intervention(
    c: CoordinationFlag,
    n: NetworkEffectScore,
    s: SocialProofRecord,
    cooldown: u64,
    now: u64,
)
    ensures
        !fair_access_spec(c, s).access_granted ==> community_intervention_spec(c, n, s, cooldown, now).intervene
            && fair_access_spec(c, s).review_required,
{
}

} // verus!
