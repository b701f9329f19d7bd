//! Detection of scheduling cartels, time-slot monopolization and
//! availability manipulation among mentors.
use vstd::prelude::*;

use crate::common::AccountId;

verus! {

#[derive(Clone, Copy, Debug, PartialEq, Eq, Structural)]
pub enum CartelDetectionError {
    CartelDetected,
    MonopolizationDetected,
    FairnessViolation,
    CoordinationActivity,
    SchedulingManipulation,
}

/// Cartel activity severity levels.
#[derive(Clone, Copy, Debug, PartialEq, Eq, Structural)]
pub enum CartelSeverity {
    Low,
    Medium,
    High,
    Critical,
}

/// Numeric code of a severity level (1-4).
pub open spec fn severity_code_spec(s: CartelSeverity) -> u32 {
    match s {
        CartelSeverity::Low => 1,
        CartelSeverity::Medium => 2,
        CartelSeverity::High => 3,
        CartelSeverity::Critical => 4,
    }
}

pub fn severity_code(s: CartelSeverity) -> (r: u32)
    ensures
        r == severity_code_spec(s),
{
    match s {
        CartelSeverity::Low => 1,
        CartelSeverity::Medium => 2,
        CartelSeverity::High => 3,
        CartelSeverity::Critical => 4,
    }
}

/// Time slot information for cartel analysis.
#[derive(Clone, Copy, Debug, PartialEq, Eq, Structural)]
pub struct TimeSlotInfo {
    pub slot_start: u64,
    pub slot_end: u64,
    pub mentor: AccountId,
    pub price: u64,
    pub availability_status: bool,
}

/// Scheduling coordination pattern.
#[derive(Clone, Debug, PartialEq, Eq)]
pub struct CoordinationPattern {
    pub pattern_type: u32,
    pub mentors_involved: Vec<AccountId>,
    pub time_window_start: u64,
    pub time_window_end: u64,
    /// 0-100.
    pub confidence_score: u32,
}

/// Time slot fairness analysis result.
#[derive(Clone, Debug, PartialEq, Eq)]
pub struct TimeSlotFairnessAnalysis {
    pub total_slots: u32,
    pub fairly_distributed: u32,
    pub monopolized_slots: u32,
    /// 0-100.
    pub fairness_score: u32,
    pub monopoly_mentors: Vec<AccountId>,
}

/// Recommended follow-up of a cartel scan.
#[derive(Clone, Copy, Debug, PartialEq, Eq, Structural)]
pub enum CartelAction {
    InvestigateAndWarn,
    Monitor,
}

/// Cartel detection result.
#[derive(Clone, Debug, PartialEq, Eq)]
pub struct CartelDetectionResult {
    pub cartel_detected: bool,
    pub severity: u32,
    pub involved_mentors: Vec<AccountId>,
    pub coordination_patterns: Vec<CoordinationPattern>,
    /// 0-100.
    pub confidence_score: u32,
    pub recommended_action: CartelAction,
}

/// Availability change record.
#[derive(Clone, Copy, Debug, PartialEq, Eq, Structural)]
pub struct AvailabilityChange {
    pub mentor: AccountId,
    pub timestamp: u64,
    pub slot_start: u64,
    pub slot_end: u64,
    pub old_price: u64,
    pub new_price: u64,
    pub is_now_available: bool,
}

/// Cartel activity record.
#[derive(Clone, Debug, PartialEq, Eq)]
pub struct CartelActivityRecord {
    pub primary_mentor: AccountId,
    pub coordinators: Vec<AccountId>,
    pub detection_timestamp: u64,
    pub affected_time_slots: Vec<TimeSlotInfo>,
    pub activity_type: u32,
    pub severity: u32,
}

/// Severity code for a confidence score (0-100).
pub open spec fn cartel_severity_spec(confidence: u32) -> u32 {
    if confidence >= 80 {
        4
    } else if confidence >= 70 {
        3
    } else if confidence >= 60 {
        2
    } else {
        1
    }
}

/// Number of slots among the first `n` that are not available.
pub open spec fn unavailable_count(slots: Seq<TimeSlotInfo>, n: int) -> int
    decreases n,
{
    if n <= 0 {
        0
    } else {
        unavailable_count(slots, n - 1) + if !slots[n - 1].availability_status { 1int } else { 0int }
    }
}

/// Synchronized withdrawals: more than half of the slots are unavailable.
pub open spec fn synchronized_withdrawals_spec(slots: Seq<TimeSlotInfo>) -> bool {
    unavailable_count(slots, slots.len() as int) > (slots.len() as u32 / 2) as int
}

/// Uniform pricing: at least two slots and every slot priced like the first.
pub open spec fn uniform_pricing_spec(slots: Seq<TimeSlotInfo>) -> bool {
    slots.len() >= 2 && forall|i: int| 0 <= i < slots.len() ==> #[trigger] slots[i].price == slots[0].price
}

pub open spec fn cartel_confidence_spec(recent: Seq<TimeSlotInfo>) -> u32 {
    ((if synchronized_withdrawals_spec(recent) { 25int } else { 0int }) + (if uniform_pricing_spec(recent) { 20int } else { 0int })) as u32
}

/// Zero-based namespace for the cartel detection system.
pub struct CartelDetection;

impl CartelDetection {
    /// Scan a mentor's recent scheduling activity for cartel coordination:
    /// synchronized withdrawals add 25 and uniform pricing 20 to the
    /// confidence; the time-slot, complementary-pattern and communication
    /// analyses contribute nothing. A confidence of 50 or more is a cartel.
    pub fn detect_scheduling_cartels(
        mentor_id: AccountId,
        recent_scheduling_activity: &Vec<TimeSlotInfo>,
        other_mentors_activity: &Vec<(AccountId, Vec<TimeSlotInfo>)>,
    ) -> (r: CartelDetectionResult)
        requires
            recent_scheduling_activity@.len() <= u32::MAX,
        ensures
            r.confidence_score == cartel_confidence_spec(recent_scheduling_activity@),
            r.cartel_detected == (r.confidence_score >= 50),
            r.severity == (if r.cartel_detected { cartel_severity_spec(r.confidence_score) } else { 0 }),
            r.involved_mentors@ == (if synchronized_withdrawals_spec(recent_scheduling_activity@) {
                seq![mentor_id]
            } else {
                Seq::<AccountId>::empty()
            }),
            r.coordination_patterns@.len() == 0,
            r.recommended_action == (if r.cartel_detected { CartelAction::InvestigateAndWarn } else { CartelAction::Monitor }),
    {
        let mut involved_mentors: Vec<AccountId> = Vec::new();
        let coordination_patterns: Vec<CoordinationPattern> = Vec::new();
        let mut confidence_score: u32 = 0;
        if Self::detect_synchronized_withdrawals(recent_scheduling_activity) {
            confidence_score = confidence_score + 25;
            involved_mentors.push(mentor_id);
        }
        if Self::detect_uniform_pricing(recent_scheduling_activity) {
            confidence_score = confidence_score + 20;
        }
        let cartel_detected = confidence_score >= 50;
        let severity = if cartel_detected { Self::calculate_cartel_severity(confidence_score) } else { 0 };
        let recommended_action = if cartel_detected { CartelAction::InvestigateAndWarn } else { CartelAction::Monitor };
        CartelDetectionResult {
            cartel_detected,
            severity,
            involved_mentors,
            coordination_patterns,
            confidence_score,
            recommended_action,
        }
    }

    /// Severity code (1-4) for a confidence score.
    pub fn calculate_cartel_severity(confidence: u32) -> (r: u32)
        ensures
            r == cartel_severity_spec(confidence),
            1 <= r <= 4,
    {
        if confidence >= 80 {
            severity_code(CartelSeverity::Critical)
        } else if confidence >= 70 {
            severity_code(CartelSeverity::High)
        } else if confidence >= 60 {
            severity_code(CartelSeverity::Medium)
        } else {
            severity_code(CartelSeverity::Low)
        }
    }

    /// More than half of the slots are unavailable.
    pub fn detect_synchronized_withdrawals(activity: &Vec<TimeSlotInfo>) -> (r: bool)
        requires
            activity@.len() <= u32::MAX,
        ensures
            r == synchronized_withdrawals_spec(activity@),
    {
        let mut acc: u32 = 0;
        let mut i: usize = 0;
        while i < activity.len()
            invariant
                0 <= i <= activity@.len(),
                activity@.len() <= u32::MAX,
                acc == unavailable_count(activity@, i as int),
                acc <= i,
            decreases activity@.len() - i,
        {
            if !activity[i].availability_status {
                acc = acc + 1;
            }
            i = i + 1;
        }
        acc > activity.len() as u32 / 2
    }

    /// At least two slots and all priced like the first.
    pub fn detect_uniform_pricing(slots: &Vec<TimeSlotInfo>) -> (r: bool)
        ensures
            r == uniform_pricing_spec(slots@),
    {
        if slots.len() < 2 {
            return false;
        }
        let first_price = slots[0].price;
        let mut i: usize = 0;
        while i < slots.len()
            invariant
                0 <= i <= slots@.len(),
                slots@.len() >= 2,
                first_price == slots@[0].price,
                forall|k: int| 0 <= k < i ==> #[trigger] slots@[k].price == first_price,
            decreases slots@.len() - i,
        {
            if slots[i].price != first_price {
                return false;
            }
            i = i + 1;
        }
        true
    }

    /// Number of premium slots (price at or above `threshold`) among the
    /// first `n`, optionally only those of `mentor`.
    pub open spec fn premium_count(slots: Seq<TimeSlotInfo>, n: int, threshold: u64, mentor: Option<AccountId>) -> int
        decreases n,
    {
        if n <= 0 {
            0
        } else {
            let s = slots[n - 1];
            let hit = s.price >= threshold && match mentor {
                Some(m) => s.mentor == m,
                None => true,
            };
            Self::premium_count(slots, n - 1, threshold, mentor) + if hit { 1int } else { 0int }
        }
    }

    pub proof fn lemma_premium_count_bounds(slots: Seq<TimeSlotInfo>, n: int, threshold: u64, mentor: Option<AccountId>)
        requires
            0 <= n,
        ensures
            0 <= Self::premium_count(slots, n, threshold, mentor) <= n,
        decreases n,
    {
        if n > 0 {
            Self::lemma_premium_count_bounds(slots, n - 1, threshold, mentor);
        }
    }

    fn count_premium(slots: &Vec<TimeSlotInfo>, threshold: u64, mentor: Option<AccountId>) -> (r: u32)
        requires
            slots@.len() <= u32::MAX,
        ensures
            r == Self::premium_count(slots@, slots@.len() as int, threshold, mentor),
    {
        let mut acc: u32 = 0;
        let mut i: usize = 0;
        while i < slots.len()
            invariant
                0 <= i <= slots@.len(),
                slots@.len() <= u32::MAX,
                acc == Self::premium_count(slots@, i as int, threshold, mentor),
            decreases slots@.len() - i,
        {
            proof {
                Self::lemma_premium_count_bounds(slots@, i as int, threshold, mentor);
            }
            let s = slots[i];
            let hit = s.price >= threshold && match mentor {
                Some(m) => s.mentor == m,
                None => true,
            };
            if hit {
                acc = acc + 1;
            }
            i = i + 1;
        }
        acc
    }

    /// Scan of the mentor list: monopolists (more than 60% of the premium
    /// slots) and fairly distributed premium slots.
    pub open spec fn fairness_scan(
        mentors: Seq<AccountId>,
        slots: Seq<TimeSlotInfo>,
        threshold: u64,
        monopoly_threshold: int,
        avg: int,
    ) -> (Seq<AccountId>, int, int)
        decreases mentors.len(),
    {
        if mentors.len() == 0 {
            (Seq::empty(), 0, 0)
        } else {
            let (mono, monopolized, fair) = Self::fairness_scan(mentors.drop_last(), slots, threshold, monopoly_threshold, avg);
            let m = mentors.last();
            let c = Self::premium_count(slots, slots.len() as int, threshold, Some(m));
            if c > monopoly_threshold {
                (mono.push(m), monopolized + c, fair)
            } else if c > 0 && c <= avg + 2 {
                (mono, monopolized, fair + c)
            } else {
                (mono, monopolized, fair)
            }
        }
    }

    pub proof fn lemma_fairness_scan_bounds(
        mentors: Seq<AccountId>,
        slots: Seq<TimeSlotInfo>,
        threshold: u64,
        monopoly_threshold: int,
        avg: int,
    )
        ensures
            ({
                let (mono, a, b) = Self::fairness_scan(mentors, slots, threshold, monopoly_threshold, avg);
                0 <= a && 0 <= b && a + b <= mentors.len() * slots.len() && mono.len() <= mentors.len()
            }),
        decreases mentors.len(),
    {
        if mentors.len() > 0 {
            Self::lemma_fairness_scan_bounds(mentors.drop_last(), slots, threshold, monopoly_threshold, avg);
            Self::lemma_premium_count_bounds(slots, slots.len() as int, threshold, Some(mentors.last()));
            assert((mentors.len() - 1) * slots.len() + slots.len() == mentors.len() * slots.len()) by (nonlinear_arith);
        }
    }

    /// Analyse how premium slots (price at least `premium_threshold_price`)
    /// are spread among mentors: a mentor holding more than 60% of them is
    /// a monopolist, a mentor holding at most the average plus two holds
    /// them fairly; the fairness score is the fairly held share (0-100).
    pub fn ensure_time_slot_fairness(
        all_mentors: &Vec<AccountId>,
        available_slots: &Vec<TimeSlotInfo>,
        premium_threshold_price: u64,
    ) -> (r: TimeSlotFairnessAnalysis)
        requires
            available_slots@.len() * (all_mentors@.len() + 1) <= 40_000_000,
        ensures
            ({
                let total = available_slots@.len() as int;
                let premium = Self::premium_count(available_slots@, total, premium_threshold_price, None);
                let avg = if all_mentors@.len() > 0 { total / all_mentors@.len() as int } else { 0 };
                let (mono, monopolized, fair) = Self::fairness_scan(
                    all_mentors@,
                    available_slots@,
                    premium_threshold_price,
                    premium * 60 / 100,
                    avg,
                );
                &&& r.total_slots == total
                &&& r.fairly_distributed == fair
                &&& r.monopolized_slots == monopolized
                &&& r.monopoly_mentors@ == mono
                &&& r.fairness_score == (if total > 0 { crate::common::min_int(fair * 100 / total, 100) } else { 100 })
            }),
    {
        proof {
            assert(available_slots@.len() <= 40_000_000) by (nonlinear_arith)
                requires available_slots@.len() * (all_mentors@.len() + 1) <= 40_000_000;
        }
        let total_slots = available_slots.len() as u32;
        let avg_per_mentor: u32 = if all_mentors.len() > 0 {
            (available_slots.len() / all_mentors.len()) as u32
        } else {
            0
        };
        let premium_slot_count = Self::count_premium(available_slots, premium_threshold_price, None);
        proof {
            Self::lemma_premium_count_bounds(available_slots@, available_slots@.len() as int, premium_threshold_price, None);
        }
        let monopoly_threshold = (premium_slot_count * 60) / 100;
        let mut monopoly_mentors: Vec<AccountId> = Vec::new();
        let mut monopolized_count: u32 = 0;
        let mut fairly_distributed: u32 = 0;
        let mut i: usize = 0;
        while i < all_mentors.len()
            invariant
                0 <= i <= all_mentors@.len(),
                available_slots@.len() * (all_mentors@.len() + 1) <= 40_000_000,
                total_slots == available_slots@.len(),
                avg_per_mentor as int == (if all_mentors@.len() > 0 { total_slots as int / all_mentors@.len() as int } else { 0 }),
                ({
                    let (mono, a, b) = Self::fairness_scan(
                        all_mentors@.take(i as int),
                        available_slots@,
                        premium_threshold_price,
                        monopoly_threshold as int,
                        avg_per_mentor as int,
                    );
                    monopoly_mentors@ == mono && monopolized_count == a && fairly_distributed == b
                }),
            decreases all_mentors@.len() - i,
        {
            let m = all_mentors[i];
            proof {
                assert(all_mentors@.take(i as int + 1).drop_last() =~= all_mentors@.take(i as int));
                Self::lemma_fairness_scan_bounds(
                    all_mentors@.take(i as int),
                    available_slots@,
                    premium_threshold_price,
                    monopoly_threshold as int,
                    avg_per_mentor as int,
                );
                Self::lemma_premium_count_bounds(available_slots@, available_slots@.len() as int, premium_threshold_price, Some(m));
                assert(i * available_slots@.len() + available_slots@.len() <= available_slots@.len() * (all_mentors@.len() + 1))
                    by (nonlinear_arith)
                    requires i < all_mentors@.len();
            }
            let mentor_premium_slots = Self::count_premium(available_slots, premium_threshold_price, Some(m));
            if mentor_premium_slots > monopoly_threshold {
                monopoly_mentors.push(m);
                monopolized_count = monopolized_count + mentor_premium_slots;
            } else if mentor_premium_slots > 0 && mentor_premium_slots <= avg_per_mentor + 2 {
                fairly_distributed = fairly_distributed + mentor_premium_slots;
            }
            i = i + 1;
        }
        proof {
            assert(all_mentors@.take(all_mentors@.len() as int) =~= all_mentors@);
            Self::lemma_fairness_scan_bounds(
                all_mentors@,
                available_slots@,
                premium_threshold_price,
                monopoly_threshold as int,
                avg_per_mentor as int,
            );
            assert(all_mentors@.len() * available_slots@.len() <= available_slots@.len() * (all_mentors@.len() + 1))
                by (nonlinear_arith);
        }
        let fairness_score = if total_slots > 0 {
            let f = (fairly_distributed * 100) / total_slots;
            if f <= 100 { f } else { 100 }
        } else {
            100
        };
        TimeSlotFairnessAnalysis {
            total_slots,
            fairly_distributed,
            monopolized_slots: monopolized_count,
            fairness_score,
            monopoly_mentors,
        }
    }

    /// Whether the allocation keeps scheduling equity. The monopolization,
    /// distribution and pricing checks of this rule set accept every
    /// allocation.
    pub fn maintain_scheduling_equity(
        mentor: AccountId,
        slot_allocation: &Vec<TimeSlotInfo>,
        historical_pattern: &Vec<TimeSlotInfo>,
    ) -> (r: bool)
        ensures
            r,
    {
        if Self::is_attempting_monopolization(slot_allocation, historical_pattern) {
            return false;
        }
        if !Self::has_fair_slot_distribution(slot_allocation) {
            return false;
        }
        if !Self::has_equitable_pricing(slot_allocation) {
            return false;
        }
        true
    }

    /// Suspicious availability patterns; the simultaneous-change, strategic
    /// window and coordinated-pricing detectors of this rule set report
    /// none.
    pub fn monitor_availability_patterns(mentor: AccountId, availability_changes: &Vec<AvailabilityChange>) -> (r: Vec<CoordinationPattern>)
        ensures
            r@.len() == 0,
    {
        let mut suspicious_patterns: Vec<CoordinationPattern> = Vec::new();
        if Self::detect_simultaneous_changes(availability_changes) {
            suspicious_patterns.push(CoordinationPattern {
                pattern_type: 1,
                mentors_involved: Vec::new(),
                time_window_start: 0,
                time_window_end: 0,
                confidence_score: 75,
            });
        }
        if Self::detect_strategic_windows(availability_changes) {
            suspicious_patterns.push(CoordinationPattern {
                pattern_type: 2,
                mentors_involved: Vec::new(),
                time_window_start: 0,
                time_window_end: 0,
                confidence_score: 65,
            });
        }
        if Self::detect_coordinated_pricing(availability_changes) {
            suspicious_patterns.push(CoordinationPattern {
                pattern_type: 3,
                mentors_involved: Vec::new(),
                time_window_start: 0,
                time_window_end: 0,
                confidence_score: 70,
            });
        }
        suspicious_patterns
    }

    /// Apply corrective measures for cartel activity (always succeeds).
    pub fn apply_cartel_correction(cartel_record: &CartelActivityRecord, correction_type: u64) -> (r: bool)
        ensures
            r,
    {
        true
    }

    /// Restore fair access after cartel detection (always succeeds).
    pub fn restore_fair_access(affected_time_period: (u64, u64), all_mentors: &Vec<AccountId>) -> (r: bool)
        ensures
            r,
    {
        true
    }

    fn is_attempting_monopolization(current: &Vec<TimeSlotInfo>, historical: &Vec<TimeSlotInfo>) -> (r: bool)
        ensures
            !r,
    {
        false
    }

    fn has_fair_slot_distribution(slots: &Vec<TimeSlotInfo>) -> (r: bool)
        ensures
            r,
    {
        true
    }

    fn has_equitable_pricing(slots: &Vec<TimeSlotInfo>) -> (r: bool)
        ensures
            r,
    {
        true
    }

    fn detect_simultaneous_changes(changes: &Vec<AvailabilityChange>) -> (r: bool)
        ensures
            !r,
    {
        false
    }

    fn detect_strategic_windows(changes: &Vec<AvailabilityChange>) -> (r: bool)
        ensures
            !r,
    {
        false
    }

    fn detect_coordinated_pricing(changes: &Vec<AvailabilityChange>) -> (r: bool)
        ensures
            !r,
    {
        false
    }
}

/// The cartel scan never reaches the detection threshold with the two
/// active signals alone: the confidence is at most 45.
pub proof fn lemma_cartel_confidence_bounded(recent: Seq<TimeSlotInfo>)
    ensures
        cartel_confidence_spec(recent) <= 45,
        cartel_confidence_spec(recent) < 50,
{
}

} // verus!
