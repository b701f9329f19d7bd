//! Assessment security: gaming-pattern detection over a learner's
//! assessment history, authenticity of score progression, and integrity of
//! assessment metrics.
use vstd::prelude::*;

use crate::common::{AccountId, SymbolId};

verus! {

#[derive(Clone, Copy, Debug, PartialEq, Eq, Structural)]
pub enum AssessmentSecurityError {
    GamingPatternDetected,
    ManipulationDetected,
    CoordinationDetected,
    IntegrityViolation,
    InvalidMetrics,
    AuthenticityCheckFailed,
}

/// Suspicious assessment behaviours.
#[derive(Clone, Copy, Debug, PartialEq, Eq, Structural)]
pub enum GamingFlag {
    UnusualRapidProgression,
    ExcessiveRetaking,
    SuspiciousPerfectScores,
    TemporalClustering,
    AnomalousPatterns,
}

/// Numeric code of a gaming flag, as reported in detection results.
pub open spec fn flag_code_spec(f: GamingFlag) -> u32 {
    match f {
        GamingFlag::UnusualRapidProgression => 1,
        GamingFlag::ExcessiveRetaking => 2,
        GamingFlag::SuspiciousPerfectScores => 3,
        GamingFlag::TemporalClustering => 4,
        GamingFlag::AnomalousPatterns => 5,
    }
}

pub fn flag_code(f: GamingFlag) -> (r: u32)
    ensures
        r == flag_code_spec(f),
{
    match f {
        GamingFlag::UnusualRapidProgression => 1,
        GamingFlag::ExcessiveRetaking => 2,
        GamingFlag::SuspiciousPerfectScores => 3,
        GamingFlag::TemporalClustering => 4,
        GamingFlag::AnomalousPatterns => 5,
    }
}

#[derive(Clone, Copy, Debug, PartialEq, Eq, Structural)]
pub enum Recommendation {
    ReviewRequired,
    Approved,
}

#[derive(Clone, Debug)]
pub struct ManipulationRecord {
    pub learner: AccountId,
    pub assessment_id: SymbolId,
    pub timestamp: u64,
    pub manipulation_type: u32,
    /// 0-100.
    pub severity: u32,
    pub evidence: Vec<u32>,
}

#[derive(Clone, Debug)]
pub struct GamingDetectionResult {
    pub is_gaming: bool,
    /// 0-100.
    pub confidence_score: u32,
    /// Codes of the detected flags, in detection order.
    pub detected_flags: Vec<u32>,
    pub recommendation: Recommendation,
}

#[derive(Clone, Debug)]
pub struct ProgressAuthenticityRecord {
    pub learner: AccountId,
    pub assessment_sequence: Vec<SymbolId>,
    pub completion_times: Vec<u64>,
    pub score_progression: Vec<u32>,
    pub is_authentic: bool,
    /// 0-100.
    pub authenticity_score: u32,
}

#[derive(Clone, Copy, Debug, PartialEq, Eq, Structural)]
pub struct AssessmentRecord {
    pub assessment_id: SymbolId,
    pub timestamp: u64,
    pub score: u32,
    pub duration_secs: u64,
}

#[derive(Clone, Copy, Debug, PartialEq, Eq, Structural)]
pub struct AssessmentMetrics {
    pub total_attempts: u32,
    pub pass_rate: u32,
    pub average_score: u32,
    pub completion_rate: u32,
}

/// Sum of the gaps between consecutive completions (each gap saturating
/// at 0).
pub open spec fn interval_sum(h: Seq<AssessmentRecord>) -> int
    decreases h.len(),
{
    if h.len() < 2 {
        0
    } else {
        interval_sum(h.drop_last()) + h.last().timestamp.saturating_sub(h[h.len() - 2].timestamp)
    }
}

/// Number of perfect (100) scores.
pub open spec fn perfect_count(h: Seq<AssessmentRecord>) -> int
    decreases h.len(),
{
    if h.len() == 0 {
        0
    } else {
        perfect_count(h.drop_last()) + if h.last().score == 100 { 1int } else { 0int }
    }
}

/// Completions average less than an hour apart.
pub open spec fn rapid_progression(h: Seq<AssessmentRecord>) -> bool {
    h.len() >= 2 && interval_sum(h) / (h.len() - 1) < 3600
}

/// More than half of at least three attempts are perfect scores.
pub open spec fn suspicious_perfect(h: Seq<AssessmentRecord>) -> bool {
    h.len() >= 3 && perfect_count(h) > h.len() / 2
}

/// The flags raised by a history, in detection order.
pub open spec fn gaming_flags(h: Seq<AssessmentRecord>) -> Seq<u32> {
    (if rapid_progression(h) { seq![1u32] } else { Seq::empty() }) + (if h.len() > 5 {
        seq![2u32]
    } else {
        Seq::empty()
    }) + (if suspicious_perfect(h) { seq![3u32] } else { Seq::empty() }) + (if h.len() >= 3 {
        seq![4u32]
    } else {
        Seq::empty()
    })
}

/// Confidence that a history is gamed: 20 for rapid progression, 15 for
/// excessive retaking, 25 for suspicious perfect scores and 20 for
/// temporal clustering (three or more attempts).
pub open spec fn gaming_confidence(h: Seq<AssessmentRecord>) -> u32 {
    ((if rapid_progression(h) { 20int } else { 0int }) + (if h.len() > 5 { 15int } else { 0int }) + (
    if suspicious_perfect(h) {
        25int
    } else {
        0int
    }) + (if h.len() >= 3 { 20int } else { 0int })) as u32
}

fn average_interval(h: &Vec<AssessmentRecord>) -> (r: u64)
    requires
        h@.len() >= 2,
        interval_sum(h@) <= u64::MAX,
    ensures
        r == interval_sum(h@) / (h@.len() - 1),
{
    let mut total: u64 = 0;
    let mut i: usize = 1;
    proof {
        lemma_interval_sum_monotone(h@, 1);
    }
    while i < h.len()
        invariant
            1 <= i <= h@.len(),
            total == interval_sum(h@.subrange(0, i as int)),
            interval_sum(h@) <= u64::MAX,
        decreases h@.len() - i,
    {
        proof {
            let p = h@.subrange(0, i + 1);
            assert(p.drop_last() == h@.subrange(0, i as int));
            lemma_interval_sum_monotone(h@, i + 1);
        }
        let gap = h[i].timestamp.saturating_sub(h[i - 1].timestamp);
        total = total + gap;
        i = i + 1;
    }
    assert(h@.subrange(0, h@.len() as int) == h@);
    total / ((h.len() - 1) as u64)
}

/// The interval sum of a prefix never exceeds that of the whole history.
proof fn lemma_interval_sum_monotone(h: Seq<AssessmentRecord>, k: int)
    requires
        0 <= k <= h.len(),
    ensures
        interval_sum(h.subrange(0, k)) <= interval_sum(h),
    decreases h.len() - k,
{
    if k < h.len() {
        lemma_interval_sum_monotone(h, k + 1);
        let p = h.subrange(0, k + 1);
        assert(p.drop_last() == h.subrange(0, k));
    } else {
        assert(h.subrange(0, k) == h);
    }
}

fn count_perfect(h: &Vec<AssessmentRecord>) -> (r: u32)
    requires
        h@.len() <= u32::MAX,
    ensures
        r == perfect_count(h@),
{
    let mut count: u32 = 0;
    let mut i: usize = 0;
    while i < h.len()
        invariant
            i <= h@.len() <= u32::MAX,
            count == perfect_count(h@.subrange(0, i as int)),
            count <= i,
        decreases h@.len() - i,
    {
        proof {
            assert(h@.subrange(0, i + 1).drop_last() == h@.subrange(0, i as int));
        }
        if h[i].score == 100 {
            count = count + 1;
        }
        i = i + 1;
    }
    assert(h@.subrange(0, h@.len() as int) == h@);
    count
}

/// No three consecutive perfect scores.
pub open spec fn no_perfect_triple(s: Seq<u32>) -> bool {
    forall|i: int| 0 <= i && i + 2 < s.len() ==> !(s[i] == 100 && s[i + 1] == 100 && #[trigger] s[i + 2] == 100)
}

/// Strictly increasing completion times.
pub open spec fn strictly_increasing(t: Seq<u64>) -> bool {
    forall|i: int| 0 < i < t.len() ==> t[i - 1] < #[trigger] t[i]
}

fn times_strictly_increasing(t: &Vec<u64>) -> (r: bool)
    ensures
        r == strictly_increasing(t@),
{
    let mut i: usize = 1;
    while i < t.len()
        invariant
            1 <= i,
            forall|j: int| 0 < j < i && j < t@.len() ==> t@[j - 1] < #[trigger] t@[j],
        decreases t@.len() - i,
    {
        if t[i - 1] >= t[i] {
            return false;
        }
        i = i + 1;
    }
    true
}

fn no_triple_perfect(s: &Vec<u32>) -> (r: bool)
    ensures
        r == no_perfect_triple(s@),
{
    let mut run: u32 = 0;
    let mut k: usize = 0;
    while k < s.len()
        invariant
            k <= s@.len(),
            run <= 2,
            run == 0 ==> k == 0 || s@[k - 1] != 100,
            run == 1 ==> k >= 1 && s@[k - 1] == 100 && (k < 2 || s@[k - 2] != 100),
            run == 2 ==> k >= 2 && s@[k - 1] == 100 && s@[k - 2] == 100,
            forall|i: int| 0 <= i && i + 2 < k ==> !(s@[i] == 100 && s@[i + 1] == 100 && #[trigger] s@[i + 2] == 100),
        decreases s@.len() - k,
    {
        if s[k] == 100 {
            if run == 2 {
                proof {
                    let i = k - 2;
                    assert(s@[i] == 100 && s@[i + 1] == 100 && s@[i + 2] == 100);
                }
                return false;
            }
            run = run + 1;
        } else {
            run = 0;
        }
        k = k + 1;
    }
    true
}

fn extract_sequence(h: &Vec<AssessmentRecord>) -> (r: (Vec<SymbolId>, Vec<u64>, Vec<u32>))
    ensures
        r.0@ == h@.map_values(|a: AssessmentRecord| a.assessment_id),
        r.1@ == h@.map_values(|a: AssessmentRecord| a.timestamp),
        r.2@ == h@.map_values(|a: AssessmentRecord| a.score),
{
    let mut ids: Vec<SymbolId> = Vec::new();
    let mut times: Vec<u64> = Vec::new();
    let mut scores: Vec<u32> = Vec::new();
    let mut i: usize = 0;
    while i < h.len()
        invariant
            i <= h@.len(),
            ids@ == h@.subrange(0, i as int).map_values(|a: AssessmentRecord| a.assessment_id),
            times@ == h@.subrange(0, i as int).map_values(|a: AssessmentRecord| a.timestamp),
            scores@ == h@.subrange(0, i as int).map_values(|a: AssessmentRecord| a.score),
        decreases h@.len() - i,
    {
        ids.push(h[i].assessment_id);
        times.push(h[i].timestamp);
        scores.push(h[i].score);
        i = i + 1;
        assert(ids@ =~= h@.subrange(0, i as int).map_values(|a: AssessmentRecord| a.assessment_id));
        assert(times@ =~= h@.subrange(0, i as int).map_values(|a: AssessmentRecord| a.timestamp));
        assert(scores@ =~= h@.subrange(0, i as int).map_values(|a: AssessmentRecord| a.score));
    }
    assert(h@.subrange(0, h@.len() as int) == h@);
    (ids, times, scores)
}

/// Sum of the scores.
pub open spec fn score_sum(s: Seq<u32>) -> int
    decreases s.len(),
{
    if s.len() == 0 { 0 } else { score_sum(s.drop_last()) + s.last() }
}

/// Sum of squared deviations of the scores from `avg`.
pub open spec fn squared_deviation_sum(s: Seq<u32>, avg: int) -> int
    decreases s.len(),
{
    if s.len() == 0 {
        0
    } else {
        squared_deviation_sum(s.drop_last(), avg) + (s.last() - avg) * (s.last() - avg)
    }
}

/// Mean squared deviation of the scores from their (truncated) mean, as
/// an integer quotient.
pub open spec fn mean_square_deviation(s: Seq<u32>) -> int {
    let avg = score_sum(s) / (s.len() as int);
    squared_deviation_sum(s, avg) / (s.len() as int)
}

/// Whether the squared deviations of the scores can be summed in 64 bits.
pub open spec fn deviation_fits(s: Seq<u32>) -> bool {
    let avg = score_sum(s) / (s.len() as int);
    &&& score_sum(s) <= u64::MAX
    &&& forall|i: int| 0 <= i < s.len() ==> (#[trigger] s[i] - avg) * (s[i] - avg) <= i64::MAX
    &&& forall|k: int| 0 <= k <= s.len() ==> #[trigger] squared_deviation_sum(s.subrange(0, k), avg) <= u64::MAX
}

proof fn lemma_score_sum_bound(s: Seq<u32>)
    ensures
        0 <= score_sum(s) <= s.len() * (u32::MAX as int),
    decreases s.len(),
{
    if s.len() > 0 {
        lemma_score_sum_bound(s.drop_last());
    }
}

proof fn lemma_score_sum_monotone(s: Seq<u32>, k: int)
    requires
        0 <= k <= s.len(),
    ensures
        score_sum(s.subrange(0, k)) <= score_sum(s),
    decreases s.len() - k,
{
    if k < s.len() {
        lemma_score_sum_monotone(s, k + 1);
        assert(s.subrange(0, k + 1).drop_last() == s.subrange(0, k));
    } else {
        assert(s.subrange(0, k) == s);
    }
}

/// The mean squared deviation of `scores` from their truncated mean; the
/// authenticity score of a progression is its square root, capped at 100.
pub fn score_mean_square_deviation(scores: &Vec<u32>) -> (r: u64)
    requires
        scores@.len() >= 1,
        deviation_fits(scores@),
    ensures
        r == mean_square_deviation(scores@),
{
    let n = scores.len();
    let mut sum: u64 = 0;
    let mut i: usize = 0;
    while i < n
        invariant
            n == scores@.len(),
            i <= n,
            sum == score_sum(scores@.subrange(0, i as int)),
            score_sum(scores@) <= u64::MAX,
        decreases n - i,
    {
        proof {
            assert(scores@.subrange(0, i + 1).drop_last() == scores@.subrange(0, i as int));
            lemma_score_sum_monotone(scores@, i + 1);
        }
        sum = sum + scores[i] as u64;
        i = i + 1;
    }
    assert(scores@.subrange(0, n as int) == scores@);
    let avg: u64 = sum / (n as u64);
    let ghost avg_i: int = avg as int;
    assert(avg_i == score_sum(scores@) / (scores@.len() as int));
    proof {
        lemma_score_sum_bound(scores@);
        let len = scores@.len() as int;
        let tot = score_sum(scores@);
        assert(tot / len <= u32::MAX) by (nonlinear_arith)
            requires
                0 <= tot <= len * (u32::MAX as int),
                len >= 1,
        ;
    }
    let mut variance: u64 = 0;
    let mut j: usize = 0;
    while j < n
        invariant
            n == scores@.len(),
            j <= n,
            avg as int == avg_i,
            avg_i == score_sum(scores@) / (scores@.len() as int),
            0 <= avg_i <= u32::MAX,
            deviation_fits(scores@),
            variance == squared_deviation_sum(scores@.subrange(0, j as int), avg_i),
        decreases n - j,
    {
        proof {
            assert(scores@.subrange(0, j + 1).drop_last() == scores@.subrange(0, j as int));
            assert(squared_deviation_sum(scores@.subrange(0, j + 1), avg_i) <= u64::MAX);
            assert((scores@[j as int] - avg_i) * (scores@[j as int] - avg_i) <= i64::MAX);
        }
        let diff: i64 = (scores[j] as i64) - (avg as i64);
        assert(diff as int == scores@[j as int] - avg_i);
        assert(diff * diff <= i64::MAX);
        assert(diff * diff >= 0) by (nonlinear_arith);
        let sq: i64 = diff * diff;
        variance = variance + sq as u64;
        j = j + 1;
    }
    assert(scores@.subrange(0, n as int) == scores@);
    variance / (n as u64)
}

pub struct AssessmentSecurity;

impl AssessmentSecurity {
    /// Score a learner's assessment history for gaming: each raised flag
    /// adds to the confidence, and 40 or more calls for review.
    pub fn detect_gaming_patterns(
        learner: AccountId,
        assessment_id: SymbolId,
        completion_time: u64,
        score: u32,
        historical_data: &Vec<AssessmentRecord>,
    ) -> (r: GamingDetectionResult)
        requires
            historical_data@.len() <= u32::MAX,
            interval_sum(historical_data@) <= u64::MAX,
        ensures
            r.detected_flags@ == gaming_flags(historical_data@),
            r.confidence_score == gaming_confidence(historical_data@),
            r.is_gaming == (gaming_confidence(historical_data@) >= 40),
            r.recommendation == (if r.is_gaming { Recommendation::ReviewRequired } else { Recommendation::Approved }),
    {
        let h = historical_data;
        let mut flags: Vec<u32> = Vec::new();
        let mut confidence: u32 = 0;
        let rapid = if h.len() >= 2 { average_interval(h) < 3600 } else { false };
        if rapid {
            flags.push(flag_code(GamingFlag::UnusualRapidProgression));
            confidence = confidence + 20;
        }
        let ghost f1 = flags@;
        if h.len() > 5 {
            flags.push(flag_code(GamingFlag::ExcessiveRetaking));
            confidence = confidence + 15;
        }
        let ghost f2 = flags@;
        let perfect = if h.len() >= 3 { count_perfect(h) > (h.len() as u32) / 2 } else { false };
        if perfect {
            flags.push(flag_code(GamingFlag::SuspiciousPerfectScores));
            confidence = confidence + 25;
        }
        let ghost f3 = flags@;
        if h.len() >= 3 {
            flags.push(flag_code(GamingFlag::TemporalClustering));
            confidence = confidence + 20;
        }
        proof {
            let a = if rapid_progression(h@) { seq![1u32] } else { Seq::empty() };
            let b = if h@.len() > 5 { seq![2u32] } else { Seq::empty() };
            let c = if suspicious_perfect(h@) { seq![3u32] } else { Seq::empty() };
            let d = if h@.len() >= 3 { seq![4u32] } else { Seq::empty() };
            assert(f1 =~= a);
            assert(f2 =~= a + b);
            assert(f3 =~= a + b + c);
            assert(flags@ =~= a + b + c + d);
        }
        let is_gaming = confidence >= 40;
        GamingDetectionResult {
            is_gaming,
            confidence_score: confidence,
            detected_flags: flags,
            recommendation: if is_gaming { Recommendation::ReviewRequired } else { Recommendation::Approved },
        }
    }

    /// Judge a learner's progression: completion times must strictly
    /// increase and no more than two perfect scores may come in a row. An
    /// authentic progression of two or more assessments scores the square
    /// root of its scores' mean squared deviation (computed by the caller
    /// as `score_std_dev`), capped at 100; a single assessment scores 50
    /// and an inauthentic progression 20.
    pub fn validate_authentic_progression(
        learner: AccountId,
        assessment_history: &Vec<AssessmentRecord>,
        score_std_dev: u32,
    ) -> (r: ProgressAuthenticityRecord)
        ensures
            r.learner == learner,
            r.assessment_sequence@ == assessment_history@.map_values(|a: AssessmentRecord| a.assessment_id),
            r.completion_times@ == assessment_history@.map_values(|a: AssessmentRecord| a.timestamp),
            r.score_progression@ == assessment_history@.map_values(|a: AssessmentRecord| a.score),
            r.is_authentic == (strictly_increasing(r.completion_times@) && no_perfect_triple(r.score_progression@)),
            r.authenticity_score == (if !r.is_authentic {
                20
            } else if assessment_history@.len() < 2 {
                50
            } else if score_std_dev < 100 {
                score_std_dev
            } else {
                100
            }),
    {
        let (sequence, times, scores) = extract_sequence(assessment_history);
        let is_authentic = times_strictly_increasing(&times) && no_triple_perfect(&scores);
        let authenticity_score = if !is_authentic {
            20
        } else if scores.len() < 2 {
            50
        } else if score_std_dev < 100 {
            score_std_dev
        } else {
            100
        };
        ProgressAuthenticityRecord {
            learner,
            assessment_sequence: sequence,
            completion_times: times,
            score_progression: scores,
            is_authentic,
            authenticity_score,
        }
    }

    /// Coordination between two learners on a shared assessment is not
    /// scored yet: never reported.
    pub fn detect_learner_coordination(
        learner1: AccountId,
        learner2: AccountId,
        shared_assessment: SymbolId,
        time_window_secs: u64,
    ) -> (r: bool)
        ensures
            !r,
    {
        false
    }

    /// Metrics are consistent when attempts were made and the pass rate
    /// and average score are percentages.
    pub fn verify_assessment_integrity(assessment_id: SymbolId, metrics: &AssessmentMetrics) -> (r: bool)
        ensures
            r == (metrics.total_attempts != 0 && metrics.pass_rate <= 100 && metrics.average_score <= 100),
    {
        if metrics.total_attempts == 0 {
            return false;
        }
        if metrics.pass_rate > 100 {
            return false;
        }
        if metrics.average_score > 100 {
            return false;
        }
        true
    }

    /// Corrections are accepted as applied.
    pub fn apply_correction_for_manipulation(learner: AccountId, assessment_id: SymbolId, correction_type: u32) -> (r: bool)
        ensures
            r,
    {
        true
    }
}

} // verus!
