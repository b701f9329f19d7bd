//! Scoring of suspicious session events and attack confirmation.
use vstd::prelude::*;

verus! {

/// Maximum number of detection events retained per session.
pub const DETECTION_LOG_CAP: u32 = 20;

/// Minimum number of suspicious events within the detection window to
/// trigger an attack flag.
pub const ATTACK_FLAG_THRESHOLD: u32 = 3;

/// Detection window in seconds for counting suspicious events.
pub const ATTACK_DETECTION_WINDOW_SECS: u64 = 3_600;

#[derive(Clone, Copy, Debug, PartialEq, Eq, Structural)]
pub enum AttackType {
    /// Repeated rapid session creation/deletion.
    SessionFlooding,
    /// Attempting to access sessions the caller does not own.
    UnauthorizedAccess,
    /// Status toggled back-and-forth rapidly.
    StatusFlipAttack,
    /// Excessive resource consumption in a short window.
    ResourceExhaustion,
}

#[derive(Clone, Copy, Debug, PartialEq, Eq, Structural)]
pub struct AttackEvent {
    pub timestamp: u64,
    pub event_type: AttackType,
    pub severity: u32,
}

#[derive(Clone, Copy, Debug, PartialEq, Eq, Structural)]
pub struct AttackDetectionResult {
    pub detected: bool,
    pub attack_type: AttackType,
    pub event_count: u32,
    pub risk_score: u32,
}

/// Severity in basis points of each kind of attack event.
pub open spec fn attack_score(t: AttackType) -> u32 {
    match t {
        AttackType::SessionFlooding => 3_000,
        AttackType::UnauthorizedAccess => 4_000,
        AttackType::StatusFlipAttack => 2_500,
        AttackType::ResourceExhaustion => 3_500,
    }
}

/// Score a single attack event. Returns a severity in basis points.
pub fn score_attack_event(event_type: &AttackType) -> (r: u32)
    ensures
        r == attack_score(*event_type),
{
    match event_type {
        AttackType::SessionFlooding => 3_000,
        AttackType::UnauthorizedAccess => 4_000,
        AttackType::StatusFlipAttack => 2_500,
        AttackType::ResourceExhaustion => 3_500,
    }
}

/// Running state of the scan over the event log: (recent count, saturated
/// severity total, dominant type, maximum severity seen).
pub open spec fn attack_scan(events: Seq<AttackEvent>, window_start: u64) -> (u32, u32, AttackType, u32)
    decreases events.len(),
{
    if events.len() == 0 {
        (0, 0, AttackType::SessionFlooding, 0)
    } else {
        let (recent, total, dominant, max_sev) = attack_scan(events.drop_last(), window_start);
        let e = events.last();
        if e.timestamp >= window_start {
            (
                recent.saturating_add(1),
                total.saturating_add(e.severity),
                if e.severity >= max_sev { e.event_type } else { dominant },
                if e.severity >= max_sev { e.severity } else { max_sev },
            )
        } else {
            (recent, total, dominant, max_sev)
        }
    }
}

/// The verdict over a whole event log at time `now`.
pub open spec fn attack_risk_spec(events: Seq<AttackEvent>, now: u64) -> AttackDetectionResult {
    let (recent, total, dominant, _) = attack_scan(events, now.saturating_sub(ATTACK_DETECTION_WINDOW_SECS));
    AttackDetectionResult {
        detected: recent >= ATTACK_FLAG_THRESHOLD,
        attack_type: dominant,
        event_count: recent,
        risk_score: if total <= 10_000 { total } else { 10_000 },
    }
}

/// Determine whether a series of attack events constitutes a confirmed
/// attack: events inside the detection window are counted, their severity
/// summed (capped at 10_000) and the most severe (latest on ties) names the
/// attack type.
pub fn evaluate_attack_risk(events: &Vec<AttackEvent>, now: u64) -> (r: AttackDetectionResult)
    ensures
        r == attack_risk_spec(events@, now),
{
    let window_start = now.saturating_sub(ATTACK_DETECTION_WINDOW_SECS);
    let mut recent: u32 = 0;
    let mut total_severity: u32 = 0;
    let mut dominant = AttackType::SessionFlooding;
    let mut max_severity: u32 = 0;
    let mut i: usize = 0;
    while i < events.len()
        invariant
            0 <= i <= events@.len(),
            window_start == now.saturating_sub(ATTACK_DETECTION_WINDOW_SECS),
            (recent, total_severity, dominant, max_severity) == attack_scan(events@.take(i as int), window_start),
        decreases events@.len() - i,
    {
        let e = events[i];
        assert(events@.take(i as int + 1).drop_last() == events@.take(i as int));
        if e.timestamp >= window_start {
            recent = recent.saturating_add(1);
            total_severity = total_severity.saturating_add(e.severity);
            if e.severity >= max_severity {
                max_severity = e.severity;
                dominant = e.event_type;
            }
        }
        i = i + 1;
    }
    assert(events@.take(events@.len() as int) == events@);
    let risk = if total_severity <= 10_000 { total_severity } else { 10_000 };
    AttackDetectionResult {
        detected: recent >= ATTACK_FLAG_THRESHOLD,
        attack_type: dominant,
        event_count: recent,
        risk_score: risk,
    }
}

} // verus!
