//! Session registry: registration of mentoring sessions with conflict and
//! buffer enforcement over a 30-minute bucket index, status transitions,
//! availability queries, per-participant indexes and the community
//! monitoring logs consulted before a booking is accepted.
use vstd::prelude::*;
use std::collections::HashMap;

use crate::common::{
    clamp_i128, lemma_pair_key, make_pair_key, pair_key, sat_add_i128, AccountId, SymbolId,
};
use crate::cartel_detection::{CartelAction, CartelDetectionResult, TimeSlotFairnessAnalysis};
use crate::oracle_consumer::trunc_div;
use crate::community_protection::{
    coordination_spec, close_pairs, detect_coordination, evaluate_fair_access, fair_access_spec,
    CoordinationFlag, FairAccessDecision, SocialProofRecord, COORDINATION_TIGHT_WINDOW_SECS,
};

verus! {

/// Saturating sum of `s`, added from the front.
pub open spec fn sat_sum(s: Seq<i128>) -> i128
    decreases s.len(),
{
    if s.len() == 0 {
        0
    } else {
        clamp_i128(sat_sum(s.drop_last()) + s.last())
    }
}

broadcast use vstd::std_specs::hash::group_hash_axioms;

/// Schedule occupancy is tracked in 30-minute buckets.
pub const SLOT_SIZE_SECS: u64 = 1_800;
/// Minimum free time required between consecutive sessions of a mentor.
pub const SCHEDULING_BUFFER_SECS: u64 = 900;
/// Maximum length of the rolling monitoring logs.
pub const MONITORING_LOG_CAP: usize = 20;
/// Number of sessions returned by the unpaginated listings.
pub const DEFAULT_PAGE: u32 = 50;

#[derive(Clone, Copy, Debug, PartialEq, Eq, Structural)]
pub enum SessionStatus {
    Pending,
    Confirmed,
    Completed,
    Cancelled,
}

#[derive(Clone, Copy, Debug, PartialEq, Eq, Structural)]
pub enum RegistryError {
    AlreadyInitialized,
    NotInitialized,
    Unauthorized,
    SessionNotFound,
    DuplicateSession,
    InvalidDuration,
    SessionEndOverflow,
    SessionConflict,
    RateLimitExceeded,
    ResourceQuotaExceeded,
    AbusePatternDetected,
    CollusionDetected,
    CommunityAccessRestricted,
    MentorSuspended,
    SessionNotAuthentic,
    OracleNotConfigured,
}

#[derive(Clone, Debug)]
pub struct SessionRecord {
    pub session_id: SymbolId,
    pub mentor: AccountId,
    pub learner: AccountId,
    pub scheduled_at: u64,
    pub duration_mins: u32,
    pub amount: i128,
    pub token: AccountId,
    pub status: SessionStatus,
    pub registered_at: u64,
    /// Content ids attached to the session.
    pub protected_content: Vec<SymbolId>,
    /// License ids granted for the session's content.
    pub content_licenses: Vec<SymbolId>,
}

impl SessionRecord {
    /// A field-for-field copy of the record.
    pub fn duplicate(&self) -> (r: Self)
        ensures
            r.same_as(*self),
    {
        SessionRecord {
            session_id: self.session_id,
            mentor: self.mentor,
            learner: self.learner,
            scheduled_at: self.scheduled_at,
            duration_mins: self.duration_mins,
            amount: self.amount,
            token: self.token,
            status: self.status,
            registered_at: self.registered_at,
            protected_content: copy_ids(&self.protected_content),
            content_licenses: copy_ids(&self.content_licenses),
        }
    }

    pub open spec fn same_as(self, other: SessionRecord) -> bool {
        &&& self.session_id == other.session_id
        &&& self.mentor == other.mentor
        &&& self.learner == other.learner
        &&& self.scheduled_at == other.scheduled_at
        &&& self.duration_mins == other.duration_mins
        &&& self.amount == other.amount
        &&& self.token == other.token
        &&& self.status == other.status
        &&& self.registered_at == other.registered_at
        &&& self.protected_content@ == other.protected_content@
        &&& self.content_licenses@ == other.content_licenses@
    }

    /// Exact end of the session in seconds.
    pub open spec fn end(self) -> int {
        self.scheduled_at + self.duration_mins * 60
    }
}

fn copy_ids(v: &Vec<SymbolId>) -> (r: Vec<SymbolId>)
    ensures
        r@ == v@,
{
    let mut out: Vec<SymbolId> = Vec::new();
    let mut i: usize = 0;
    while i < v.len()
        invariant
            i <= v@.len(),
            out@ == v@.subrange(0, i as int),
        decreases v@.len() - i,
    {
        out.push(v[i]);
        i = i + 1;
        assert(out@ == v@.subrange(0, i as int));
    }
    assert(v@.subrange(0, v@.len() as int) == v@);
    out
}

/// End of a session starting at `scheduled_at` and lasting `duration_mins`.
pub open spec fn span_end(scheduled_at: u64, duration_mins: u32) -> int {
    scheduled_at + duration_mins * 60
}

/// Largest end (plus buffer and bucket rounding) the bucket arithmetic can
/// handle without overflowing.
pub open spec fn span_fits(scheduled_at: u64, duration_mins: u32) -> bool {
    span_end(scheduled_at, duration_mins) + SCHEDULING_BUFFER_SECS + SLOT_SIZE_SECS - 1 <= u64::MAX
}

/// First bucket touched by `[start, end)`.
pub open spec fn first_bucket(start: int) -> int {
    start / SLOT_SIZE_SECS as int
}

/// One past the last bucket touched by `[start, end)`.
pub open spec fn end_bucket(end: int) -> int {
    (end + SLOT_SIZE_SECS - 1) / SLOT_SIZE_SECS as int
}

/// Saturating `u64` addition as a mathematical integer.
pub open spec fn sat_u64(x: int) -> int {
    if x > u64::MAX { u64::MAX as int } else { x }
}

/// Whether a session `other` collides with `[start, end)` once the
/// scheduling buffer is added on both sides (ends saturate at `u64::MAX`).
pub open spec fn overlaps_with_buffer(other: SessionRecord, start: u64, end: int) -> bool {
    let other_end = sat_u64(other.end());
    &&& start < sat_u64(other_end + SCHEDULING_BUFFER_SECS)
    &&& other.scheduled_at < sat_u64(end + SCHEDULING_BUFFER_SECS)
}

/// A validated slot: its exact end timestamp, or why it was refused.
pub open spec fn time_slot_spec(scheduled_at: u64, duration_mins: u32) -> Result<u64, RegistryError> {
    if duration_mins == 0 {
        Err(RegistryError::InvalidDuration)
    } else if span_end(scheduled_at, duration_mins) > u64::MAX {
        Err(RegistryError::SessionEndOverflow)
    } else {
        Ok(span_end(scheduled_at, duration_mins) as u64)
    }
}

/// Validate a requested time slot and compute its exact end timestamp: a
/// zero-length session and an end past `u64::MAX` are refused with an
/// error (never a wrapped end time); the ledger entry point aborts the
/// invocation on it.
pub fn validate_time_slot(scheduled_at: u64, duration_mins: u32) -> (r: Result<u64, RegistryError>)
    ensures
        r == time_slot_spec(scheduled_at, duration_mins),
{
    if duration_mins == 0 {
        return Err(RegistryError::InvalidDuration);
    }
    let session_duration_secs = (duration_mins as u64) * 60;
    match scheduled_at.checked_add(session_duration_secs) {
        Some(end) => Ok(end),
        None => Err(RegistryError::SessionEndOverflow),
    }
}


/// The session holding `bucket` of `mentor`'s schedule in `slots`, if any.
pub open spec fn slot_in(slots: Map<u128, SymbolId>, mentor: AccountId, bucket: u64) -> Option<SymbolId> {
    if slots.contains_key(pair_key(mentor, bucket)) {
        Some(slots[pair_key(mentor, bucket)])
    } else {
        None
    }
}

proof fn lemma_bucket_start_below(bucket: int, to: int)
    requires
        0 <= bucket,
        0 <= to,
        bucket < (to + SLOT_SIZE_SECS - 1) / SLOT_SIZE_SECS as int,
    ensures
        bucket * SLOT_SIZE_SECS < to,
{
    assert(bucket * 1800 < to) by (nonlinear_arith)
        requires
            0 <= bucket,
            0 <= to,
            bucket < (to + 1799) / 1800,
    ;
}

/// Point every bucket of `[scheduled_at, end)` of `mentor` at `session_id`.
/// Only the session's own span is reserved; the buffer is enforced when
/// bookings are checked.
fn reserve_time_buckets(
    slots: &mut HashMap<u128, SymbolId>,
    mentor: AccountId,
    scheduled_at: u64,
    duration_mins: u32,
    session_id: SymbolId,
)
    requires
        time_slot_spec(scheduled_at, duration_mins) is Ok,
        span_fits(scheduled_at, duration_mins),
    ensures
        forall|m: AccountId, b: u64|
            #[trigger] slot_in(final(slots)@, m, b) == if m == mentor && first_bucket(scheduled_at as int) <= b
                < end_bucket(span_end(scheduled_at, duration_mins)) {
                Some(session_id)
            } else {
                slot_in(old(slots)@, m, b)
            },
{
    let session_end = scheduled_at + (duration_mins as u64) * 60;
    let start_bucket = scheduled_at / SLOT_SIZE_SECS;
    let end_b = (session_end + (SLOT_SIZE_SECS - 1)) / SLOT_SIZE_SECS;
    let mut bucket = start_bucket;
    while bucket < end_b
        invariant
            start_bucket <= bucket,
            bucket <= end_b || start_bucket >= end_b,
            start_bucket == first_bucket(scheduled_at as int),
            end_b == end_bucket(span_end(scheduled_at, duration_mins)),
            forall|m: AccountId, b: u64|
                #[trigger] slot_in(slots@, m, b) == if m == mentor && start_bucket <= b < bucket {
                    Some(session_id)
                } else {
                    slot_in(old(slots)@, m, b)
                },
        decreases end_b - bucket,
    {
        let key = make_pair_key(mentor, bucket);
        let ghost before = slots@;
        slots.insert(key, session_id);
        assert forall|m: AccountId, b: u64|
            #[trigger] slot_in(slots@, m, b) == if m == mentor && start_bucket <= b < bucket + 1 {
                Some(session_id)
            } else {
                slot_in(old(slots)@, m, b)
            } by {
            lemma_pair_key(m, b, mentor, bucket);
            assert(slot_in(before, m, b) == slot_in(before, m, b));
        }
        bucket = bucket + 1;
    }
}

/// Free every bucket of `[scheduled_at, end)` of `mentor`.
fn release_time_buckets(
    slots: &mut HashMap<u128, SymbolId>,
    mentor: AccountId,
    scheduled_at: u64,
    duration_mins: u32,
)
    requires
        time_slot_spec(scheduled_at, duration_mins) is Ok,
        span_fits(scheduled_at, duration_mins),
    ensures
        forall|m: AccountId, b: u64|
            #[trigger] slot_in(final(slots)@, m, b) == if m == mentor && first_bucket(scheduled_at as int) <= b
                < end_bucket(span_end(scheduled_at, duration_mins)) {
                None
            } else {
                slot_in(old(slots)@, m, b)
            },
{
    let session_end = scheduled_at + (duration_mins as u64) * 60;
    let start_bucket = scheduled_at / SLOT_SIZE_SECS;
    let end_b = (session_end + (SLOT_SIZE_SECS - 1)) / SLOT_SIZE_SECS;
    let mut bucket = start_bucket;
    while bucket < end_b
        invariant
            start_bucket <= bucket,
            bucket <= end_b || bucket == start_bucket,
            start_bucket == first_bucket(scheduled_at as int),
            end_b == end_bucket(span_end(scheduled_at, duration_mins)),
            forall|m: AccountId, b: u64|
                #[trigger] slot_in(slots@, m, b) == if m == mentor && start_bucket <= b < bucket {
                    None
                } else {
                    slot_in(old(slots)@, m, b)
                },
        decreases end_b - bucket,
    {
        let key = make_pair_key(mentor, bucket);
        let ghost before = slots@;
        if slots.contains_key(&key) {
            slots.remove(&key);
        }
        assert forall|m: AccountId, b: u64|
            #[trigger] slot_in(slots@, m, b) == if m == mentor && start_bucket <= b < bucket + 1 {
                None
            } else {
                slot_in(old(slots)@, m, b)
            } by {
            lemma_pair_key(m, b, mentor, bucket);
            assert(slot_in(before, m, b) == slot_in(before, m, b));
        }
        bucket = bucket + 1;
    }
}


/// Value of a counter map, 0 when absent.
pub open spec fn count_in(m: Map<u64, u32>, k: u64) -> u32 {
    if m.contains_key(k) { m[k] } else { 0 }
}

/// Value of a pair-keyed counter map, 0 when absent.
pub open spec fn pair_count_in(m: Map<u128, u32>, a: u64, b: u64) -> u32 {
    if m.contains_key(pair_key(a, b)) { m[pair_key(a, b)] } else { 0 }
}

/// Value of an amount map, 0 when absent.
pub open spec fn amount_in(m: Map<u64, i128>, k: u64) -> i128 {
    if m.contains_key(k) { m[k] } else { 0 }
}

/// Contents of a pair-keyed log, empty when absent.
pub open spec fn pair_log_in(m: Map<u128, Vec<u64>>, a: u64, b: u64) -> Seq<u64> {
    if m.contains_key(pair_key(a, b)) { m[pair_key(a, b)]@ } else { Seq::empty() }
}

/// Contents of a per-account log, empty when absent.
pub open spec fn log_in(m: Map<u64, Vec<u64>>, k: u64) -> Seq<u64> {
    if m.contains_key(k) { m[k]@ } else { Seq::empty() }
}

/// The last `MONITORING_LOG_CAP` entries of a log.
pub open spec fn capped<T>(s: Seq<T>) -> Seq<T> {
    if s.len() > MONITORING_LOG_CAP { s.subrange(s.len() - MONITORING_LOG_CAP, s.len() as int) } else { s }
}

/// A monitoring log after one more entry keeps at most `MONITORING_LOG_CAP`
/// entries, ends with the new entry, and holds the most recent entries of
/// the old log in their order.
pub proof fn lemma_monitoring_log_capped(log: Seq<u64>, t: u64)
    ensures
        capped(log.push(t)).len() == if log.len() + 1 > MONITORING_LOG_CAP { MONITORING_LOG_CAP as int } else { log.len() + 1 as int },
        capped(log.push(t)).len() <= MONITORING_LOG_CAP,
        capped(log.push(t)).last() == t,
        forall|i: int|
            0 <= i < capped(log.push(t)).len() ==> #[trigger] capped(log.push(t))[i] == log.push(t)[log.len() + 1
                - capped(log.push(t)).len() + i],
{
}

fn count_get(m: &HashMap<u64, u32>, k: u64) -> (r: u32)
    ensures
        r == count_in(m@, k),
{
    match m.get(&k) {
        Some(v) => *v,
        None => 0,
    }
}

fn pair_count_get(m: &HashMap<u128, u32>, a: u64, b: u64) -> (r: u32)
    ensures
        r == pair_count_in(m@, a, b),
{
    match m.get(&make_pair_key(a, b)) {
        Some(v) => *v,
        None => 0,
    }
}

fn amount_get(m: &HashMap<u64, i128>, k: u64) -> (r: i128)
    ensures
        r == amount_in(m@, k),
{
    match m.get(&k) {
        Some(v) => *v,
        None => 0,
    }
}

/// Append `x` to `log`, then drop the oldest entries beyond the cap.
fn push_capped<T: Copy>(log: &mut Vec<T>, x: T)
    ensures
        final(log)@ == capped(old(log)@.push(x)),
{
    log.push(x);
    let ghost full = log@;
    let ghost mut dropped: int = 0;
    while log.len() > MONITORING_LOG_CAP
        invariant
            0 <= dropped <= full.len(),
            log@ == full.subrange(dropped, full.len() as int),
            dropped > 0 ==> full.len() - dropped >= MONITORING_LOG_CAP,
        decreases log@.len(),
    {
        log.remove(0);
        proof {
            dropped = dropped + 1;
        }
        assert(log@ == full.subrange(dropped, full.len() as int));
    }
    assert(log@ == capped(full));
}

/// Social-proof signal used when the registry scores access on its own:
/// endorsement signals live with the reputation contract, so the registry
/// assumes a genuine, fully distinct record.
pub open spec fn neutral_social_proof() -> SocialProofRecord {
    SocialProofRecord { genuine: true, gaming_risk_score: 0, distinct_endorser_bps: 10_000, burst_count: 0 }
}

/// Coordination flag of a mentor/learner pair scored on the pair log `log`.
pub open spec fn pair_flag(log: Seq<u64>) -> CoordinationFlag {
    coordination_spec(log.len() as u32, close_pairs(log, log.len() as int, COORDINATION_TIGHT_WINDOW_SECS))
}

pub open spec fn is_terminal(s: SessionStatus) -> bool {
    s == SessionStatus::Cancelled || s == SessionStatus::Completed
}


/// Bounds `[start, end)` of the page at `offset` of length `limit` in a list
/// of `count` entries.
pub open spec fn page_start(count: u32, offset: u32) -> int {
    if offset <= count { offset as int } else { count as int }
}

pub open spec fn page_end(count: u32, offset: u32, limit: u32) -> int {
    if offset + limit <= count { offset + limit } else { count as int }
}

/// The page of `who`'s indexed entries in `at`.
pub open spec fn index_page_spec(at: Map<u128, SymbolId>, who: u64, count: u32, offset: u32, limit: u32) -> Seq<SymbolId> {
    let start = page_start(count, offset);
    Seq::new((page_end(count, offset, limit) - start) as nat, |j: int| at[pair_key(who, (start + j) as u64)])
}

fn index_page(at: &HashMap<u128, SymbolId>, who: u64, count: u32, offset: u32, limit: u32) -> (r: Vec<SymbolId>)
    requires
        offset + limit <= u32::MAX,
        forall|i: u64| i < count ==> #[trigger] at@.contains_key(pair_key(who, i)),
    ensures
        r@ == index_page_spec(at@, who, count, offset, limit),
{
    let start = if offset < count { offset } else { count };
    let end = if offset + limit < count { offset + limit } else { count };
    let mut result: Vec<SymbolId> = Vec::new();
    let mut i = start;
    while i < end
        invariant
            start == page_start(count, offset),
            end == page_end(count, offset, limit),
            start <= end <= count,
            start <= i <= end,
            forall|k: u64| k < count ==> #[trigger] at@.contains_key(pair_key(who, k)),
            result@ == index_page_spec(at@, who, count, offset, limit).subrange(0, i - start),
        decreases end - i,
    {
        match at.get(&make_pair_key(who, i as u64)) {
            Some(sid) => result.push(*sid),
            None => {
                assert(false);
            },
        }
        i = i + 1;
        assert(result@ == index_page_spec(at@, who, count, offset, limit).subrange(0, i - start));
    }
    assert(result@ == index_page_spec(at@, who, count, offset, limit));
    result
}

/// Number of sessions among `ids` that are stored, start in `[from, to)`
/// and are not cancelled.
pub open spec fn scheduled_in(ids: Seq<SymbolId>, sessions: Map<SymbolId, SessionRecord>, from: u64, to: u64) -> nat
    decreases ids.len(),
{
    if ids.len() == 0 {
        0
    } else {
        let id = ids.last();
        let prev = scheduled_in(ids.drop_last(), sessions, from, to);
        if sessions.contains_key(id) && from <= sessions[id].scheduled_at < to
            && sessions[id].status != SessionStatus::Cancelled {
            prev + 1
        } else {
            prev
        }
    }
}

proof fn lemma_scheduled_in_bound(ids: Seq<SymbolId>, sessions: Map<SymbolId, SessionRecord>, from: u64, to: u64)
    ensures
        scheduled_in(ids, sessions, from, to) <= ids.len(),
    decreases ids.len(),
{
    if ids.len() > 0 {
        lemma_scheduled_in_bound(ids.drop_last(), sessions, from, to);
    }
}

/// A registry event, as published by the contract.
#[derive(Clone, Copy, Debug, PartialEq, Eq, Structural)]
pub enum RegistryEvent {
    SessionRegistered { session_id: SymbolId, mentor: AccountId, learner: AccountId, scheduled_at: u64 },
    StatusChanged { session_id: SymbolId, old_status: SessionStatus, new_status: SessionStatus },
    OracleStatusChanged { session_id: SymbolId, old_status: SessionStatus, new_status: SessionStatus },
    QuotaShortfall { mentor: AccountId, scheduled: u32, quota: u32 },
    CoordinationFlagged { mentor: AccountId, risk_score: u32 },
    EmergencyOverride { session_id: SymbolId },
    LearningOutcome { session_id: SymbolId, mentor: AccountId, learner: AccountId, score: u32 },
    MentorSuspended { mentor: AccountId },
}

/// One data-access attempt on a session's records.
#[derive(Clone, Copy, Debug, PartialEq, Eq, Structural)]
pub struct SessionAccessAuditEntry {
    pub accessor: AccountId,
    pub accessed_at: u64,
    pub allowed: bool,
}

/// The access log of a session, empty when none is kept.
pub open spec fn audit_in(m: Map<SymbolId, Vec<SessionAccessAuditEntry>>, k: SymbolId) -> Seq<SessionAccessAuditEntry> {
    if m.contains_key(k) { m[k]@ } else { Seq::empty() }
}

/// `base` followed by the entries of `xs` it does not contain yet, in order.
pub open spec fn append_new(base: Seq<SymbolId>, xs: Seq<SymbolId>) -> Seq<SymbolId>
    decreases xs.len(),
{
    if xs.len() == 0 {
        base
    } else {
        let prev = append_new(base, xs.drop_last());
        if prev.contains(xs.last()) { prev } else { prev.push(xs.last()) }
    }
}

/// The verdicts on a booking that come from the load, resource, abuse and
/// platform-bypass checks run by the caller before registration.
#[derive(Clone, Copy, Debug, PartialEq, Eq, Structural)]
pub struct BookingChecks {
    pub load_allowed: bool,
    pub resources_granted: bool,
    pub abusive: bool,
    /// Low-fee booking count of the pair after this booking.
    pub low_fee_count: u32,
    /// Whether the bypass check calls for a suspension or a ban.
    pub bypass_penalized: bool,
}

pub struct SessionRegistry {
    pub backend: Option<AccountId>,
    pub session_oracle: Option<AccountId>,
    pub sessions: HashMap<SymbolId, SessionRecord>,
    /// `pair_key(mentor, bucket)` to the session holding that bucket.
    pub schedule_slots: HashMap<u128, SymbolId>,
    pub mentor_session_count: HashMap<AccountId, u32>,
    /// `pair_key(mentor, index)` to the mentor's `index`-th session.
    pub mentor_session_at: HashMap<u128, SymbolId>,
    pub learner_session_count: HashMap<AccountId, u32>,
    /// `pair_key(learner, index)` to the learner's `index`-th session.
    pub learner_session_at: HashMap<u128, SymbolId>,
    pub active_sessions: HashMap<AccountId, u32>,
    pub total_requests: HashMap<AccountId, u32>,
    pub cancelled_requests: HashMap<AccountId, u32>,
    /// `pair_key(mentor, learner)` to the pair's low-fee booking count.
    pub low_fee_count: HashMap<u128, u32>,
    /// `pair_key(mentor, learner)` to the pair's recent scheduled times.
    pub pair_log: HashMap<u128, Vec<u64>>,
    /// `pair_key(mentor, learner)` present once the learner booked the mentor.
    pub booked_before: HashMap<u128, bool>,
    pub distinct_learner_count: HashMap<AccountId, u32>,
    /// Recent booking-request times per mentor.
    pub request_log: HashMap<AccountId, Vec<u64>>,
    pub recent_prices: Vec<i128>,
    pub recent_price_times: Vec<u64>,
    /// `pair_key(learner, mentor)` to the pair's session count.
    pub pair_session_count: HashMap<u128, u32>,
    pub learner_total_spend: HashMap<AccountId, i128>,
    pub learner_session_total: HashMap<AccountId, u32>,
    pub requested_units: HashMap<AccountId, u32>,
    pub availability_quota: HashMap<AccountId, u32>,
    pub coordination: HashMap<AccountId, CoordinationFlag>,
    pub fair_access: HashMap<AccountId, FairAccessDecision>,
    /// Sessions confirmed through the emergency scheduling override.
    pub emergency_overrides: HashMap<SymbolId, bool>,
    /// Learning outcome `(score, recorded_at)` per session.
    pub learning_outcomes: HashMap<SymbolId, (u32, u64)>,
    /// Recent data-access attempts per session.
    pub access_audit: HashMap<SymbolId, Vec<SessionAccessAuditEntry>>,
    /// Accessors whose session-data access is contained.
    pub contained_accessors: HashMap<AccountId, bool>,
    /// Free-form tags attached to a session.
    pub session_metadata: HashMap<SymbolId, Vec<String>>,
    /// Mentors under an emergency suspension for learner protection.
    pub suspended_mentors: HashMap<AccountId, bool>,
    pub events: Vec<RegistryEvent>,
}

impl SessionRegistry {
    pub open spec fn wf(&self) -> bool {
        &&& forall|id: SymbolId|
            #[trigger] self.sessions@.contains_key(id) ==> {
                let rec = self.sessions@[id];
                &&& rec.session_id == id
                &&& time_slot_spec(rec.scheduled_at, rec.duration_mins) is Ok
                &&& span_fits(rec.scheduled_at, rec.duration_mins)
            }
        &&& forall|m: AccountId, i: u64|
            i < count_in(self.mentor_session_count@, m) ==> #[trigger] self.mentor_session_at@.contains_key(
                pair_key(m, i),
            )
        &&& forall|l: AccountId, i: u64|
            i < count_in(self.learner_session_count@, l) ==> #[trigger] self.learner_session_at@.contains_key(
                pair_key(l, i),
            )
        &&& forall|k: u128| #[trigger] self.pair_log@.contains_key(k) ==> self.pair_log@[k]@.len() <= MONITORING_LOG_CAP
        &&& forall|k: u64| #[trigger] self.request_log@.contains_key(k) ==> self.request_log@[k]@.len() <= MONITORING_LOG_CAP
        &&& self.recent_prices@.len() <= MONITORING_LOG_CAP
        &&& self.recent_price_times@.len() <= MONITORING_LOG_CAP
    }

    pub fn new() -> (r: Self)
        ensures
            r.wf(),
            r.backend is None,
            r.session_oracle is None,
            r.sessions@ == Map::<SymbolId, SessionRecord>::empty(),
            r.schedule_slots@ == Map::<u128, SymbolId>::empty(),
            r.mentor_session_count@ == Map::<AccountId, u32>::empty(),
            r.mentor_session_at@ == Map::<u128, SymbolId>::empty(),
            r.learner_session_count@ == Map::<AccountId, u32>::empty(),
            r.learner_session_at@ == Map::<u128, SymbolId>::empty(),
            r.active_sessions@ == Map::<AccountId, u32>::empty(),
            r.pair_log@ == Map::<u128, Vec<u64>>::empty(),
            r.request_log@ == Map::<AccountId, Vec<u64>>::empty(),
            r.recent_prices@.len() == 0,
            r.recent_price_times@.len() == 0,
            r.availability_quota@ == Map::<AccountId, u32>::empty(),
            r.emergency_overrides@ == Map::<SymbolId, bool>::empty(),
            r.learning_outcomes@ == Map::<SymbolId, (u32, u64)>::empty(),
            r.access_audit@ == Map::<SymbolId, Vec<SessionAccessAuditEntry>>::empty(),
            r.contained_accessors@ == Map::<AccountId, bool>::empty(),
            r.session_metadata@ == Map::<SymbolId, Vec<String>>::empty(),
            r.suspended_mentors@ == Map::<AccountId, bool>::empty(),
            r.events@.len() == 0,
    {
        SessionRegistry {
            backend: None,
            session_oracle: None,
            sessions: HashMap::new(),
            schedule_slots: HashMap::new(),
            mentor_session_count: HashMap::new(),
            mentor_session_at: HashMap::new(),
            learner_session_count: HashMap::new(),
            learner_session_at: HashMap::new(),
            active_sessions: HashMap::new(),
            total_requests: HashMap::new(),
            cancelled_requests: HashMap::new(),
            low_fee_count: HashMap::new(),
            pair_log: HashMap::new(),
            booked_before: HashMap::new(),
            distinct_learner_count: HashMap::new(),
            request_log: HashMap::new(),
            recent_prices: Vec::new(),
            recent_price_times: Vec::new(),
            pair_session_count: HashMap::new(),
            learner_total_spend: HashMap::new(),
            learner_session_total: HashMap::new(),
            requested_units: HashMap::new(),
            availability_quota: HashMap::new(),
            coordination: HashMap::new(),
            fair_access: HashMap::new(),
            emergency_overrides: HashMap::new(),
            learning_outcomes: HashMap::new(),
            access_audit: HashMap::new(),
            contained_accessors: HashMap::new(),
            session_metadata: HashMap::new(),
            suspended_mentors: HashMap::new(),
            events: Vec::new(),
        }
    }

    /// Set the platform backend, the only caller allowed to register and
    /// update sessions. Refused once a backend is set.
    pub fn initialize(&mut self, backend: AccountId) -> (r: Result<(), RegistryError>)
        ensures
            old(self).backend is Some ==> r == Err::<(), RegistryError>(RegistryError::AlreadyInitialized)
                && *final(self) == *old(self),
            old(self).backend is None ==> r is Ok && *final(self) == (SessionRegistry {
                backend: Some(backend),
                ..*old(self)
            }),
    {
        if self.backend.is_some() {
            return Err(RegistryError::AlreadyInitialized);
        }
        self.backend = Some(backend);
        Ok(())
    }

    pub open spec fn backend_check(&self, caller: AccountId) -> Result<(), RegistryError> {
        match self.backend {
            None => Err(RegistryError::NotInitialized),
            Some(b) => if b == caller { Ok(()) } else { Err(RegistryError::Unauthorized) },
        }
    }

    fn require_backend(&self, caller: AccountId) -> (r: Result<(), RegistryError>)
        ensures
            r == self.backend_check(caller),
    {
        match self.backend {
            None => Err(RegistryError::NotInitialized),
            Some(b) => if b == caller { Ok(()) } else { Err(RegistryError::Unauthorized) },
        }
    }

    /// The pair log of `mentor`/`learner` once `scheduled_at` is appended.
    pub open spec fn next_pair_log(&self, mentor: AccountId, learner: AccountId, scheduled_at: u64) -> Seq<u64> {
        capped(pair_log_in(self.pair_log@, mentor, learner).push(scheduled_at))
    }

    /// Outcome of a registration request: the first check that refuses it,
    /// in the order the contract runs them, or the session id.
    pub open spec fn register_outcome(
        &self,
        caller: AccountId,
        session_id: SymbolId,
        mentor: AccountId,
        learner: AccountId,
        scheduled_at: u64,
        duration_mins: u32,
        checks: BookingChecks,
    ) -> Result<SymbolId, RegistryError> {
        if self.backend_check(caller) is Err {
            Err(self.backend_check(caller)->Err_0)
        } else if self.sessions@.contains_key(session_id) {
            Err(RegistryError::DuplicateSession)
        } else if time_slot_spec(scheduled_at, duration_mins) is Err {
            Err(time_slot_spec(scheduled_at, duration_mins)->Err_0)
        } else if !span_fits(scheduled_at, duration_mins) {
            Err(RegistryError::SessionEndOverflow)
        } else if self.has_conflict(mentor, scheduled_at, span_end(scheduled_at, duration_mins)) {
            Err(RegistryError::SessionConflict)
        } else if !checks.load_allowed {
            Err(RegistryError::RateLimitExceeded)
        } else if !checks.resources_granted {
            Err(RegistryError::ResourceQuotaExceeded)
        } else if checks.abusive {
            Err(RegistryError::AbusePatternDetected)
        } else if checks.bypass_penalized {
            Err(RegistryError::CollusionDetected)
        } else if !fair_access_spec(
            pair_flag(self.next_pair_log(mentor, learner, scheduled_at)),
            neutral_social_proof(),
        ).access_granted {
            Err(RegistryError::CommunityAccessRestricted)
        } else if self.suspended_mentors@.contains_key(mentor) {
            Err(RegistryError::MentorSuspended)
        } else {
            Ok(session_id)
        }
    }

    /// Run every refusal check of a registration without changing state;
    /// on success hand back the pair log with the new booking appended.
    fn registration_checks(
        &self,
        caller: AccountId,
        session_id: SymbolId,
        mentor: AccountId,
        learner: AccountId,
        scheduled_at: u64,
        duration_mins: u32,
        checks: BookingChecks,
    ) -> (r: Result<Vec<u64>, RegistryError>)
        requires
            self.wf(),
        ensures
            r is Err <==> self.register_outcome(caller, session_id, mentor, learner, scheduled_at, duration_mins, checks) is Err,
            r is Err ==> r->Err_0 == self.register_outcome(caller, session_id, mentor, learner, scheduled_at, duration_mins, checks)->Err_0,
            r is Ok ==> r->Ok_0@ == self.next_pair_log(mentor, learner, scheduled_at),
    {
        match self.require_backend(caller) {
            Ok(()) => {},
            Err(e) => return Err(e),
        }
        if self.sessions.contains_key(&session_id) {
            return Err(RegistryError::DuplicateSession);
        }
        match self.check_scheduling_conflicts(mentor, scheduled_at, duration_mins) {
            Ok(()) => {},
            Err(e) => return Err(e),
        }
        if !checks.load_allowed {
            return Err(RegistryError::RateLimitExceeded);
        }
        if !checks.resources_granted {
            return Err(RegistryError::ResourceQuotaExceeded);
        }
        if checks.abusive {
            return Err(RegistryError::AbusePatternDetected);
        }
        if checks.bypass_penalized {
            return Err(RegistryError::CollusionDetected);
        }
        let key = make_pair_key(mentor, learner);
        let mut log: Vec<u64> = match self.pair_log.get(&key) {
            Some(v) => copy_ids(v),
            None => Vec::new(),
        };
        push_capped(&mut log, scheduled_at);
        let flag = detect_coordination(&log);
        let neutral = SocialProofRecord {
            genuine: true,
            gaming_risk_score: 0,
            distinct_endorser_bps: 10_000,
            burst_count: 0,
        };
        let access = evaluate_fair_access(flag, neutral);
        if !access.access_granted {
            return Err(RegistryError::CommunityAccessRestricted);
        }
        if self.suspended_mentors.contains_key(&mentor) {
            return Err(RegistryError::MentorSuspended);
        }
        Ok(log)
    }

    /// Update the pair, demand and pricing monitoring logs for a booking of
    /// `learner` with `mentor` (the pair log already holds the new entry).
    fn record_monitoring_signals(
        &mut self,
        mentor: AccountId,
        learner: AccountId,
        amount: i128,
        now: u64,
        pair_log: Vec<u64>,
    )
        requires
            old(self).wf(),
            pair_log@.len() <= MONITORING_LOG_CAP,
            !(old(self).booked_before@.contains_key(pair_key(mentor, learner)))
                ==> count_in(old(self).distinct_learner_count@, mentor) < u32::MAX,
        ensures
            final(self).wf(),
            final(self).pair_log@.contains_key(pair_key(mentor, learner)),
            final(self).pair_log@[pair_key(mentor, learner)]@ == pair_log@,
            final(self).pair_log@.remove(pair_key(mentor, learner)) == old(self).pair_log@.remove(
                pair_key(mentor, learner),
            ),
            final(self).booked_before@ == old(self).booked_before@.insert(pair_key(mentor, learner), true),
            final(self).distinct_learner_count@ == if old(self).booked_before@.contains_key(
                pair_key(mentor, learner),
            ) {
                old(self).distinct_learner_count@
            } else {
                old(self).distinct_learner_count@.insert(
                    mentor,
                    (count_in(old(self).distinct_learner_count@, mentor) + 1) as u32,
                )
            },
            final(self).request_log@.contains_key(mentor),
            final(self).request_log@[mentor]@ == capped(log_in(old(self).request_log@, mentor).push(now)),
            final(self).request_log@.remove(mentor) == old(self).request_log@.remove(mentor),
            final(self).recent_prices@ == capped(old(self).recent_prices@.push(amount)),
            final(self).recent_price_times@ == capped(old(self).recent_price_times@.push(now)),
            final(self).backend == old(self).backend,
            final(self).session_oracle == old(self).session_oracle,
            final(self).sessions@ == old(self).sessions@,
            final(self).schedule_slots@ == old(self).schedule_slots@,
            final(self).mentor_session_count@ == old(self).mentor_session_count@,
            final(self).mentor_session_at@ == old(self).mentor_session_at@,
            final(self).learner_session_count@ == old(self).learner_session_count@,
            final(self).learner_session_at@ == old(self).learner_session_at@,
            final(self).active_sessions@ == old(self).active_sessions@,
            final(self).total_requests@ == old(self).total_requests@,
            final(self).cancelled_requests@ == old(self).cancelled_requests@,
            final(self).low_fee_count@ == old(self).low_fee_count@,
            final(self).pair_session_count@ == old(self).pair_session_count@,
            final(self).learner_total_spend@ == old(self).learner_total_spend@,
            final(self).learner_session_total@ == old(self).learner_session_total@,
            final(self).requested_units@ == old(self).requested_units@,
            final(self).availability_quota@ == old(self).availability_quota@,
            final(self).coordination@ == old(self).coordination@,
            final(self).fair_access@ == old(self).fair_access@,
            final(self).emergency_overrides@ == old(self).emergency_overrides@,
            final(self).learning_outcomes@ == old(self).learning_outcomes@,
            final(self).access_audit@ == old(self).access_audit@,
            final(self).contained_accessors@ == old(self).contained_accessors@,
            final(self).session_metadata@ == old(self).session_metadata@,
            final(self).suspended_mentors@ == old(self).suspended_mentors@,
            final(self).events@ == old(self).events@,
    {
        let pk = make_pair_key(mentor, learner);
        self.pair_log.insert(pk, pair_log);
        if !self.booked_before.contains_key(&pk) {
            let cnt = count_get(&self.distinct_learner_count, mentor);
            self.distinct_learner_count.insert(mentor, cnt + 1);
        }
        self.booked_before.insert(pk, true);
        let mut req: Vec<u64> = match self.request_log.remove(&mentor) {
            Some(v) => v,
            None => Vec::new(),
        };
        push_capped(&mut req, now);
        self.request_log.insert(mentor, req);
        push_capped(&mut self.recent_prices, amount);
        push_capped(&mut self.recent_price_times, now);
        assert(self.pair_log@.remove(pk) =~= old(self).pair_log@.remove(pk));
        assert(self.request_log@.remove(mentor) =~= old(self).request_log@.remove(mentor));
    }

    /// Register a new session on behalf of the backend. Refusals, in order:
    /// caller, duplicate id, invalid or overflowing slot, conflict with a
    /// session in the buffer-widened bucket range, the load / resource /
    /// abuse / bypass verdicts, restricted community access for the pair, and
    /// a suspended mentor. Each refusal is returned as an error and leaves the
    /// registry unchanged; the ledger entry point aborts the invocation on
    /// it, so a refused call stores nothing.
    pub fn register_session(
        &mut self,
        caller: AccountId,
        session_id: SymbolId,
        mentor: AccountId,
        learner: AccountId,
        scheduled_at: u64,
        duration_mins: u32,
        amount: i128,
        token: AccountId,
        now: u64,
        checks: BookingChecks,
    ) -> (r: Result<SymbolId, RegistryError>)
        requires
            old(self).wf(),
            count_in(old(self).active_sessions@, mentor) < u32::MAX,
            count_in(old(self).total_requests@, mentor) < u32::MAX,
            count_in(old(self).distinct_learner_count@, mentor) < u32::MAX,
            count_in(old(self).mentor_session_count@, mentor) < u32::MAX,
            count_in(old(self).learner_session_count@, learner) < u32::MAX,
        ensures
            final(self).wf(),
            r == old(self).register_outcome(caller, session_id, mentor, learner, scheduled_at, duration_mins, checks),
            r is Err ==> *final(self) == *old(self),
            r is Ok ==> {
                let rec = final(self).sessions@[session_id];
                let flag = pair_flag(old(self).next_pair_log(mentor, learner, scheduled_at));
                let mc = count_in(old(self).mentor_session_count@, mentor);
                let lc = count_in(old(self).learner_session_count@, learner);
                &&& final(self).sessions@.contains_key(session_id)
                &&& final(self).sessions@.remove(session_id) == old(self).sessions@
                &&& rec.session_id == session_id && rec.mentor == mentor && rec.learner == learner
                &&& rec.scheduled_at == scheduled_at && rec.duration_mins == duration_mins
                &&& rec.amount == amount && rec.token == token && rec.registered_at == now
                &&& rec.status == SessionStatus::Pending
                &&& rec.protected_content@.len() == 0 && rec.content_licenses@.len() == 0
                &&& forall|m: AccountId, b: u64|
                    #[trigger] final(self).slot_of(m, b) == if m == mentor && first_bucket(scheduled_at as int)
                        <= b < end_bucket(span_end(scheduled_at, duration_mins)) {
                        Some(session_id)
                    } else {
                        old(self).slot_of(m, b)
                    }
                &&& final(self).mentor_session_count@ == old(self).mentor_session_count@.insert(mentor, (mc + 1) as u32)
                &&& final(self).mentor_session_at@ == old(self).mentor_session_at@.insert(pair_key(mentor, mc as u64), session_id)
                &&& final(self).learner_session_count@ == old(self).learner_session_count@.insert(learner, (lc + 1) as u32)
                &&& final(self).learner_session_at@ == old(self).learner_session_at@.insert(pair_key(learner, lc as u64), session_id)
                &&& final(self).active_sessions@ == old(self).active_sessions@.insert(
                    mentor,
                    (count_in(old(self).active_sessions@, mentor) + 1) as u32,
                )
                &&& final(self).total_requests@ == old(self).total_requests@.insert(
                    mentor,
                    (count_in(old(self).total_requests@, mentor) + 1) as u32,
                )
                &&& final(self).low_fee_count@ == old(self).low_fee_count@.insert(pair_key(mentor, learner), checks.low_fee_count)
                &&& final(self).pair_log@[pair_key(mentor, learner)]@ == old(self).next_pair_log(mentor, learner, scheduled_at)
                &&& final(self).pair_log@.contains_key(pair_key(mentor, learner))
                &&& final(self).pair_log@.remove(pair_key(mentor, learner)) == old(self).pair_log@.remove(
                    pair_key(mentor, learner),
                )
                &&& final(self).request_log@.contains_key(mentor)
                &&& final(self).request_log@[mentor]@ == capped(log_in(old(self).request_log@, mentor).push(now))
                &&& final(self).request_log@.remove(mentor) == old(self).request_log@.remove(mentor)
                &&& final(self).booked_before@ == old(self).booked_before@.insert(pair_key(mentor, learner), true)
                &&& final(self).distinct_learner_count@ == if old(self).booked_before@.contains_key(
                    pair_key(mentor, learner),
                ) {
                    old(self).distinct_learner_count@
                } else {
                    old(self).distinct_learner_count@.insert(
                        mentor,
                        (count_in(old(self).distinct_learner_count@, mentor) + 1) as u32,
                    )
                }
                &&& final(self).recent_prices@ == capped(old(self).recent_prices@.push(amount))
                &&& final(self).recent_price_times@ == capped(old(self).recent_price_times@.push(now))
                &&& final(self).pair_session_count@ == old(self).pair_session_count@.insert(
                    pair_key(learner, mentor),
                    pair_count_in(old(self).pair_session_count@, learner, mentor).saturating_add(1),
                )
                &&& final(self).learner_total_spend@ == old(self).learner_total_spend@.insert(
                    learner,
                    clamp_i128(amount_in(old(self).learner_total_spend@, learner) + amount),
                )
                &&& final(self).learner_session_total@ == old(self).learner_session_total@.insert(
                    learner,
                    count_in(old(self).learner_session_total@, learner).saturating_add(1),
                )
                &&& final(self).requested_units@ == old(self).requested_units@.insert(
                    mentor,
                    count_in(old(self).requested_units@, mentor).saturating_add(duration_mins),
                )
                &&& final(self).coordination@ == old(self).coordination@.insert(mentor, flag)
                &&& final(self).fair_access@ == old(self).fair_access@.insert(
                    mentor,
                    fair_access_spec(flag, neutral_social_proof()),
                )
                &&& final(self).events@ == old(self).events@ + (if flag.suspicious {
                    seq![RegistryEvent::CoordinationFlagged { mentor, risk_score: flag.risk_score }]
                } else {
                    Seq::<RegistryEvent>::empty()
                }) + seq![RegistryEvent::SessionRegistered { session_id, mentor, learner, scheduled_at }]
                &&& final(self).backend == old(self).backend
                &&& final(self).session_oracle == old(self).session_oracle
                &&& final(self).cancelled_requests@ == old(self).cancelled_requests@
                &&& final(self).availability_quota@ == old(self).availability_quota@
                &&& final(self).emergency_overrides@ == old(self).emergency_overrides@
                &&& final(self).learning_outcomes@ == old(self).learning_outcomes@
                &&& final(self).access_audit@ == old(self).access_audit@
                &&& final(self).contained_accessors@ == old(self).contained_accessors@
                &&& final(self).session_metadata@ == old(self).session_metadata@
                &&& final(self).suspended_mentors@ == old(self).suspended_mentors@
            },
    {
        let log = match self.registration_checks(
            caller,
            session_id,
            mentor,
            learner,
            scheduled_at,
            duration_mins,
            checks,
        ) {
            Ok(l) => l,
            Err(e) => return Err(e),
        };
        let ghost old_events = self.events@;
        // Resource counters.
        let active = count_get(&self.active_sessions, mentor);
        self.active_sessions.insert(mentor, active + 1);
        let total = count_get(&self.total_requests, mentor);
        self.total_requests.insert(mentor, total + 1);
        self.low_fee_count.insert(make_pair_key(mentor, learner), checks.low_fee_count);
        // Community monitoring and access decision.
        let flag = detect_coordination(&log);
        self.record_monitoring_signals(mentor, learner, amount, now, log);
        self.coordination.insert(mentor, flag);
        if flag.suspicious {
            self.events.push(RegistryEvent::CoordinationFlagged { mentor, risk_score: flag.risk_score });
        }
        let neutral = SocialProofRecord {
            genuine: true,
            gaming_risk_score: 0,
            distinct_endorser_bps: 10_000,
            burst_count: 0,
        };
        let decision = evaluate_fair_access(flag, neutral);
        self.fair_access.insert(mentor, decision);
        // Learner protection counters.
        let pair_cnt = pair_count_get(&self.pair_session_count, learner, mentor);
        self.pair_session_count.insert(make_pair_key(learner, mentor), pair_cnt.saturating_add(1));
        let spend = amount_get(&self.learner_total_spend, learner);
        self.learner_total_spend.insert(learner, sat_add_i128(spend, amount));
        let lsc = count_get(&self.learner_session_total, learner);
        self.learner_session_total.insert(learner, lsc.saturating_add(1));
        let units = count_get(&self.requested_units, mentor);
        self.requested_units.insert(mentor, units.saturating_add(duration_mins));
        // The record, its buckets and the participant indexes.
        let record = SessionRecord {
            session_id,
            mentor,
            learner,
            scheduled_at,
            duration_mins,
            amount,
            token,
            status: SessionStatus::Pending,
            registered_at: now,
            protected_content: Vec::new(),
            content_licenses: Vec::new(),
        };
        self.sessions.insert(session_id, record);
        reserve_time_buckets(&mut self.schedule_slots, mentor, scheduled_at, duration_mins, session_id);
        let mentor_idx = count_get(&self.mentor_session_count, mentor);
        self.mentor_session_at.insert(make_pair_key(mentor, mentor_idx as u64), session_id);
        self.mentor_session_count.insert(mentor, mentor_idx + 1);
        let learner_idx = count_get(&self.learner_session_count, learner);
        self.learner_session_at.insert(make_pair_key(learner, learner_idx as u64), session_id);
        self.learner_session_count.insert(learner, learner_idx + 1);
        self.events.push(RegistryEvent::SessionRegistered { session_id, mentor, learner, scheduled_at });
        proof {
            assert(self.sessions@.remove(session_id) =~= old(self).sessions@);
            assert forall|m: AccountId, i: u64|
                i < count_in(self.mentor_session_count@, m) implies #[trigger] self.mentor_session_at@.contains_key(
                    pair_key(m, i),
                ) by {
                if m != mentor || i != mentor_idx {
                    assert(old(self).mentor_session_at@.contains_key(pair_key(m, i)));
                }
            }
            assert forall|l: AccountId, i: u64|
                i < count_in(self.learner_session_count@, l) implies #[trigger] self.learner_session_at@.contains_key(
                    pair_key(l, i),
                ) by {
                if l != learner || i != learner_idx {
                    assert(old(self).learner_session_at@.contains_key(pair_key(l, i)));
                }
            }
            let ev = if flag.suspicious {
                seq![RegistryEvent::CoordinationFlagged { mentor, risk_score: flag.risk_score }]
            } else {
                Seq::<RegistryEvent>::empty()
            };
            assert(self.events@ =~= old_events + ev + seq![RegistryEvent::SessionRegistered { session_id, mentor, learner, scheduled_at }]);
        }
        Ok(session_id)
    }

    /// Active-session count of `mentor` after a session of theirs moves
    /// into a terminal state (an absent count is read as 1).
    pub open spec fn active_after_close(&self, mentor: AccountId) -> u32 {
        let cur: u32 = if self.active_sessions@.contains_key(mentor) { self.active_sessions@[mentor] } else { 1 };
        cur.saturating_sub(1)
    }

    /// State change of moving session `session_id` to `status`: the stored
    /// status, the mentor's active and cancellation counters, and, on a
    /// cancellation, the release of the session's buckets.
    pub open spec fn status_changed(&self, next: &Self, session_id: SymbolId, status: SessionStatus) -> bool {
        &&& self.status_moved(next, session_id, status)
        &&& next.emergency_overrides@ == self.emergency_overrides@
    }

    /// `status_changed` except for the record of emergency overrides.
    pub open spec fn status_moved(&self, next: &Self, session_id: SymbolId, status: SessionStatus) -> bool {
        let rec = self.sessions@[session_id];
        let old_status = rec.status;
        let mentor = rec.mentor;
        &&& next.sessions@ == self.sessions@.insert(session_id, SessionRecord { status, ..rec })
        &&& next.active_sessions@ == if is_terminal(status) && !is_terminal(old_status) {
            self.active_sessions@.insert(mentor, self.active_after_close(mentor))
        } else {
            self.active_sessions@
        }
        &&& next.cancelled_requests@ == if status == SessionStatus::Cancelled && old_status != SessionStatus::Cancelled {
            self.cancelled_requests@.insert(mentor, (count_in(self.cancelled_requests@, mentor) + 1) as u32)
        } else {
            self.cancelled_requests@
        }
        &&& forall|m: AccountId, b: u64|
            #[trigger] slot_in(next.schedule_slots@, m, b) == if status == SessionStatus::Cancelled
                && old_status != SessionStatus::Cancelled && m == mentor && first_bucket(
                rec.scheduled_at as int,
            ) <= b < end_bucket(span_end(rec.scheduled_at, rec.duration_mins)) {
                None
            } else {
                slot_in(self.schedule_slots@, m, b)
            }
        &&& next.backend == self.backend
        &&& next.session_oracle == self.session_oracle
        &&& next.mentor_session_count@ == self.mentor_session_count@
        &&& next.mentor_session_at@ == self.mentor_session_at@
        &&& next.learner_session_count@ == self.learner_session_count@
        &&& next.learner_session_at@ == self.learner_session_at@
        &&& next.total_requests@ == self.total_requests@
        &&& next.low_fee_count@ == self.low_fee_count@
        &&& next.pair_log@ == self.pair_log@
        &&& next.booked_before@ == self.booked_before@
        &&& next.distinct_learner_count@ == self.distinct_learner_count@
        &&& next.request_log@ == self.request_log@
        &&& next.recent_prices@ == self.recent_prices@
        &&& next.recent_price_times@ == self.recent_price_times@
        &&& next.pair_session_count@ == self.pair_session_count@
        &&& next.learner_total_spend@ == self.learner_total_spend@
        &&& next.learner_session_total@ == self.learner_session_total@
        &&& next.requested_units@ == self.requested_units@
        &&& next.availability_quota@ == self.availability_quota@
        &&& next.coordination@ == self.coordination@
        &&& next.fair_access@ == self.fair_access@
        &&& next.learning_outcomes@ == self.learning_outcomes@
        &&& next.access_audit@ == self.access_audit@
        &&& next.contained_accessors@ == self.contained_accessors@
        &&& next.session_metadata@ == self.session_metadata@
    }

    /// Whether moving `session_id` to `status` could overflow the mentor's
    /// cancellation counter.
    pub open spec fn cancel_count_fits(&self, session_id: SymbolId, status: SessionStatus) -> bool {
        self.sessions@.contains_key(session_id) && status == SessionStatus::Cancelled
            && self.sessions@[session_id].status != SessionStatus::Cancelled ==> count_in(
            self.cancelled_requests@,
            self.sessions@[session_id].mentor,
        ) < u32::MAX
    }

    fn apply_status_change(&mut self, session_id: SymbolId, status: SessionStatus) -> (old_status: SessionStatus)
        requires
            old(self).wf(),
            old(self).sessions@.contains_key(session_id),
            old(self).cancel_count_fits(session_id, status),
        ensures
            final(self).wf(),
            old_status == old(self).sessions@[session_id].status,
            old(self).status_changed(&*final(self), session_id, status),
            final(self).events@ == old(self).events@,
    {
        let mut rec = match self.sessions.remove(&session_id) {
            Some(r) => r,
            None => {
                proof {
                    assert(false);
                }
                return status;
            },
        };
        let old_status = rec.status;
        let terminal_new = status == SessionStatus::Cancelled || status == SessionStatus::Completed;
        let terminal_old = old_status == SessionStatus::Cancelled || old_status == SessionStatus::Completed;
        if terminal_new && !terminal_old {
            let current: u32 = match self.active_sessions.get(&rec.mentor) {
                Some(v) => *v,
                None => 1,
            };
            self.active_sessions.insert(rec.mentor, current.saturating_sub(1));
        }
        if status == SessionStatus::Cancelled && old_status != SessionStatus::Cancelled {
            let cancelled = count_get(&self.cancelled_requests, rec.mentor);
            self.cancelled_requests.insert(rec.mentor, cancelled + 1);
            release_time_buckets(&mut self.schedule_slots, rec.mentor, rec.scheduled_at, rec.duration_mins);
        }
        let ghost orig = old(self).sessions@[session_id];
        rec.status = status;
        assert(rec == SessionRecord { status, ..orig });
        self.sessions.insert(session_id, rec);
        assert(self.sessions@ == old(self).sessions@.insert(session_id, SessionRecord { status, ..orig }));
        old_status
    }

    pub open spec fn status_outcome(&self, session_id: SymbolId, status: SessionStatus, authentic: bool) -> Result<(), RegistryError> {
        if !self.sessions@.contains_key(session_id) {
            Err(RegistryError::SessionNotFound)
        } else if status == SessionStatus::Completed && !authentic {
            Err(RegistryError::SessionNotAuthentic)
        } else {
            Ok(())
        }
    }

    /// Move a session to `status` on behalf of the backend. Cancelling
    /// releases the session's buckets; completing requires the session's
    /// authenticity verdict `completion_authentic`.
    pub fn update_status(
        &mut self,
        caller: AccountId,
        session_id: SymbolId,
        status: SessionStatus,
        completion_authentic: bool,
    ) -> (r: Result<(), RegistryError>)
        requires
            old(self).wf(),
            old(self).cancel_count_fits(session_id, status),
        ensures
            final(self).wf(),
            old(self).backend_check(caller) is Err ==> r == Err::<(), RegistryError>(old(self).backend_check(caller)->Err_0),
            old(self).backend_check(caller) is Ok ==> r == old(self).status_outcome(session_id, status, completion_authentic),
            r is Err ==> *final(self) == *old(self),
            r is Ok ==> old(self).status_changed(&*final(self), session_id, status)
                && final(self).events@ == old(self).events@.push(RegistryEvent::StatusChanged {
                session_id,
                old_status: old(self).sessions@[session_id].status,
                new_status: status,
            }),
    {
        match self.require_backend(caller) {
            Ok(()) => {},
            Err(e) => return Err(e),
        }
        if !self.sessions.contains_key(&session_id) {
            return Err(RegistryError::SessionNotFound);
        }
        if status == SessionStatus::Completed && !completion_authentic {
            return Err(RegistryError::SessionNotAuthentic);
        }
        let old_status = self.apply_status_change(session_id, status);
        self.events.push(RegistryEvent::StatusChanged { session_id, old_status, new_status: status });
        Ok(())
    }

    /// Cancel a session and release its buckets for re-booking.
    pub fn cancel_session(&mut self, caller: AccountId, session_id: SymbolId) -> (r: Result<(), RegistryError>)
        requires
            old(self).wf(),
            old(self).cancel_count_fits(session_id, SessionStatus::Cancelled),
        ensures
            final(self).wf(),
            old(self).backend_check(caller) is Err ==> r == Err::<(), RegistryError>(old(self).backend_check(caller)->Err_0),
            old(self).backend_check(caller) is Ok ==> r == old(self).status_outcome(session_id, SessionStatus::Cancelled, true),
            r is Err ==> *final(self) == *old(self),
            r is Ok ==> old(self).status_changed(&*final(self), session_id, SessionStatus::Cancelled)
                && final(self).events@ == old(self).events@.push(RegistryEvent::StatusChanged {
                session_id,
                old_status: old(self).sessions@[session_id].status,
                new_status: SessionStatus::Cancelled,
            }),
    {
        self.update_status(caller, session_id, SessionStatus::Cancelled, true)
    }

    /// Record the outcome of a learner-protection review of `mentor` (backend
    /// only): an emergency suspension puts the mentor under suspension and
    /// is published; otherwise nothing changes.
    pub fn record_protection(&mut self, caller: AccountId, mentor: AccountId, emergency_suspension: bool) -> (r: Result<
        (),
        RegistryError,
    >)
        ensures
            r == old(self).backend_check(caller),
            r is Err || !emergency_suspension ==> *final(self) == *old(self),
            r is Ok && emergency_suspension ==> {
                &&& final(self).suspended_mentors@ == old(self).suspended_mentors@.insert(mentor, true)
                &&& final(self).events@ == old(self).events@.push(RegistryEvent::MentorSuspended { mentor })
                &&& *final(self) == (SessionRegistry {
                    suspended_mentors: final(self).suspended_mentors,
                    events: final(self).events,
                    ..*old(self)
                })
            },
    {
        match self.require_backend(caller) {
            Ok(()) => {},
            Err(e) => return Err(e),
        }
        if emergency_suspension {
            self.suspended_mentors.insert(mentor, true);
            self.events.push(RegistryEvent::MentorSuspended { mentor });
        }
        Ok(())
    }

    /// Whether `mentor` is under an emergency suspension.
    pub fn is_mentor_suspended(&self, mentor: AccountId) -> (r: bool)
        ensures
            r == self.suspended_mentors@.contains_key(mentor),
    {
        self.suspended_mentors.contains_key(&mentor)
    }

    /// Gate a booking price through learner protection: a suspended mentor
    /// cannot be booked; otherwise the price `enforced_price` settled by the
    /// fair-pricing policy stands.
    pub fn enforce_fair_pricing(&self, mentor: AccountId, enforced_price: i128) -> (r: Result<i128, RegistryError>)
        ensures
            r == (if self.suspended_mentors@.contains_key(mentor) {
                Err(RegistryError::MentorSuspended)
            } else {
                Ok(enforced_price)
            }),
    {
        if self.suspended_mentors.contains_key(&mentor) {
            return Err(RegistryError::MentorSuspended);
        }
        Ok(enforced_price)
    }

    /// The learner's average historical spend per session (0 before any
    /// session) and the platform's average over the recent booking prices
    /// (0 when none), both truncated toward zero; the price total
    /// saturates.
    pub fn fair_pricing_averages(&self, learner: AccountId) -> (r: (i128, i128))
        ensures
            r.0 == (if count_in(self.learner_session_total@, learner) > 0 {
                trunc_div(
                    amount_in(self.learner_total_spend@, learner) as int,
                    count_in(self.learner_session_total@, learner) as int,
                ) as i128
            } else {
                0
            }),
            r.1 == (if self.recent_prices@.len() == 0 {
                0
            } else {
                trunc_div(sat_sum(self.recent_prices@) as int, self.recent_prices@.len() as int) as i128
            }),
    {
        let spend = amount_get(&self.learner_total_spend, learner);
        let count = count_get(&self.learner_session_total, learner);
        let avg_historical: i128 = if count > 0 {
            match spend.checked_div(count as i128) {
                Some(v) => v,
                None => 0,
            }
        } else {
            0
        };
        let n = self.recent_prices.len();
        let mut sum: i128 = 0;
        let mut i: usize = 0;
        while i < n
            invariant
                i <= n == self.recent_prices@.len(),
                sum == sat_sum(self.recent_prices@.subrange(0, i as int)),
            decreases n - i,
        {
            proof {
                assert(self.recent_prices@.subrange(0, i + 1).drop_last() == self.recent_prices@.subrange(0, i as int));
            }
            sum = sat_add_i128(sum, self.recent_prices[i]);
            i = i + 1;
        }
        assert(self.recent_prices@.subrange(0, n as int) == self.recent_prices@);
        let platform_avg: i128 = if n == 0 {
            0
        } else if n as u128 > i128::MAX as u128 {
            0
        } else {
            match sum.checked_div(n as i128) {
                Some(v) => v,
                None => 0,
            }
        };
        (avg_historical, platform_avg)
    }

    /// Configure the session oracle allowed to report outcomes.
    pub fn set_session_oracle(&mut self, caller: AccountId, oracle: AccountId) -> (r: Result<(), RegistryError>)
        ensures
            r == old(self).backend_check(caller),
            r is Err ==> *final(self) == *old(self),
            r is Ok ==> *final(self) == (SessionRegistry { session_oracle: Some(oracle), ..*old(self) }),
    {
        match self.require_backend(caller) {
            Ok(()) => {},
            Err(e) => return Err(e),
        }
        self.session_oracle = Some(oracle);
        Ok(())
    }

    pub open spec fn oracle_check(&self, oracle: AccountId) -> Result<(), RegistryError> {
        match self.session_oracle {
            None => Err(RegistryError::OracleNotConfigured),
            Some(o) => if o == oracle { Ok(()) } else { Err(RegistryError::Unauthorized) },
        }
    }

    /// Move a session to `status` on a report of the configured oracle.
    pub fn update_status_from_oracle(
        &mut self,
        oracle: AccountId,
        session_id: SymbolId,
        status: SessionStatus,
        completion_authentic: bool,
    ) -> (r: Result<(), RegistryError>)
        requires
            old(self).wf(),
            old(self).cancel_count_fits(session_id, status),
        ensures
            final(self).wf(),
            old(self).oracle_check(oracle) is Err ==> r == Err::<(), RegistryError>(old(self).oracle_check(oracle)->Err_0),
            old(self).oracle_check(oracle) is Ok ==> r == old(self).status_outcome(session_id, status, completion_authentic),
            r is Err ==> *final(self) == *old(self),
            r is Ok ==> old(self).status_changed(&*final(self), session_id, status)
                && final(self).events@ == old(self).events@.push(RegistryEvent::OracleStatusChanged {
                session_id,
                old_status: old(self).sessions@[session_id].status,
                new_status: status,
            }),
    {
        match self.session_oracle {
            None => return Err(RegistryError::OracleNotConfigured),
            Some(o) => if o != oracle {
                return Err(RegistryError::Unauthorized);
            },
        }
        if !self.sessions.contains_key(&session_id) {
            return Err(RegistryError::SessionNotFound);
        }
        if status == SessionStatus::Completed && !completion_authentic {
            return Err(RegistryError::SessionNotAuthentic);
        }
        let old_status = self.apply_status_change(session_id, status);
        self.events.push(RegistryEvent::OracleStatusChanged { session_id, old_status, new_status: status });
        Ok(())
    }

    /// A copy of the stored record of `session_id`.
    pub fn get_session(&self, session_id: SymbolId) -> (r: Result<SessionRecord, RegistryError>)
        ensures
            !self.sessions@.contains_key(session_id) ==> r == Err::<SessionRecord, RegistryError>(RegistryError::SessionNotFound),
            self.sessions@.contains_key(session_id) ==> r is Ok && r->Ok_0.same_as(self.sessions@[session_id]),
    {
        match self.sessions.get(&session_id) {
            Some(rec) => Ok(rec.duplicate()),
            None => Err(RegistryError::SessionNotFound),
        }
    }

    pub fn get_mentor_session_count(&self, mentor: AccountId) -> (r: u32)
        ensures
            r == count_in(self.mentor_session_count@, mentor),
    {
        count_get(&self.mentor_session_count, mentor)
    }

    pub fn get_learner_session_count(&self, learner: AccountId) -> (r: u32)
        ensures
            r == count_in(self.learner_session_count@, learner),
    {
        count_get(&self.learner_session_count, learner)
    }

    /// The mentor's session ids from index `offset`, at most `limit` of them,
    /// in registration order.
    pub fn get_sessions_by_mentor_page(&self, mentor: AccountId, offset: u32, limit: u32) -> (r: Vec<SymbolId>)
        requires
            self.wf(),
            offset + limit <= u32::MAX,
        ensures
            r@ == index_page_spec(
                self.mentor_session_at@,
                mentor,
                count_in(self.mentor_session_count@, mentor),
                offset,
                limit,
            ),
    {
        let count = count_get(&self.mentor_session_count, mentor);
        index_page(&self.mentor_session_at, mentor, count, offset, limit)
    }

    /// The learner's session ids from index `offset`, at most `limit` of
    /// them, in registration order.
    pub fn get_sessions_by_learner_page(&self, learner: AccountId, offset: u32, limit: u32) -> (r: Vec<SymbolId>)
        requires
            self.wf(),
            offset + limit <= u32::MAX,
        ensures
            r@ == index_page_spec(
                self.learner_session_at@,
                learner,
                count_in(self.learner_session_count@, learner),
                offset,
                limit,
            ),
    {
        let count = count_get(&self.learner_session_count, learner);
        index_page(&self.learner_session_at, learner, count, offset, limit)
    }

    /// The mentor's first fifty sessions.
    pub fn get_sessions_by_mentor(&self, mentor: AccountId) -> (r: Vec<SymbolId>)
        requires
            self.wf(),
        ensures
            r@ == index_page_spec(
                self.mentor_session_at@,
                mentor,
                count_in(self.mentor_session_count@, mentor),
                0,
                DEFAULT_PAGE,
            ),
    {
        self.get_sessions_by_mentor_page(mentor, 0, DEFAULT_PAGE)
    }

    /// The learner's first fifty sessions.
    pub fn get_sessions_by_learner(&self, learner: AccountId) -> (r: Vec<SymbolId>)
        requires
            self.wf(),
        ensures
            r@ == index_page_spec(
                self.learner_session_at@,
                learner,
                count_in(self.learner_session_count@, learner),
                0,
                DEFAULT_PAGE,
            ),
    {
        self.get_sessions_by_learner_page(learner, 0, DEFAULT_PAGE)
    }

    /// Set the minimum number of sessions `mentor` must keep scheduled.
    pub fn set_mentor_availability_quota(&mut self, caller: AccountId, mentor: AccountId, min_sessions: u32) -> (r: Result<(), RegistryError>)
        ensures
            r == old(self).backend_check(caller),
            r is Err ==> *final(self) == *old(self),
            r is Ok ==> *final(self) == (SessionRegistry {
                availability_quota: final(self).availability_quota,
                ..*old(self)
            }) && final(self).availability_quota@ == old(self).availability_quota@.insert(mentor, min_sessions),
    {
        match self.require_backend(caller) {
            Ok(()) => {},
            Err(e) => return Err(e),
        }
        self.availability_quota.insert(mentor, min_sessions);
        Ok(())
    }

    /// Audit the mentor's quota over `[from, to)`: counts the mentor's
    /// listed (first fifty) sessions that start in the window and are not
    /// cancelled, and reports `(compliant, scheduled, quota)`; a shortfall
    /// is published as an event.
    pub fn audit_mentor_availability_quota(&mut self, mentor: AccountId, from: u64, to: u64) -> (r: (bool, u32, u32))
        requires
            old(self).wf(),
        ensures
            ({
                let ids = index_page_spec(
                    old(self).mentor_session_at@,
                    mentor,
                    count_in(old(self).mentor_session_count@, mentor),
                    0,
                    DEFAULT_PAGE,
                );
                let scheduled = scheduled_in(ids, old(self).sessions@, from, to);
                let quota = count_in(old(self).availability_quota@, mentor);
                &&& r == (scheduled >= quota, scheduled as u32, quota)
                &&& final(self).events@ == if scheduled >= quota {
                    old(self).events@
                } else {
                    old(self).events@.push(RegistryEvent::QuotaShortfall { mentor, scheduled: scheduled as u32, quota })
                }
                &&& *final(self) == (SessionRegistry { events: final(self).events, ..*old(self) })
            }),
    {
        let quota = count_get(&self.availability_quota, mentor);
        let ids = self.get_sessions_by_mentor(mentor);
        let mut scheduled: u32 = 0;
        let mut i: usize = 0;
        while i < ids.len()
            invariant
                i <= ids@.len(),
                ids@.len() <= DEFAULT_PAGE,
                scheduled == scheduled_in(ids@.subrange(0, i as int), self.sessions@, from, to),
            decreases ids@.len() - i,
        {
            proof {
                lemma_scheduled_in_bound(ids@.subrange(0, i as int), self.sessions@, from, to);
                assert(ids@.subrange(0, i + 1).drop_last() == ids@.subrange(0, i as int));
            }
            match self.sessions.get(&ids[i]) {
                Some(rec) => {
                    if rec.scheduled_at >= from && rec.scheduled_at < to && rec.status != SessionStatus::Cancelled {
                        scheduled = scheduled.saturating_add(1);
                    }
                },
                None => {},
            }
            i = i + 1;
        }
        assert(ids@.subrange(0, ids@.len() as int) == ids@);
        let compliant = scheduled >= quota;
        if !compliant {
            self.events.push(RegistryEvent::QuotaShortfall { mentor, scheduled, quota });
        }
        (compliant, scheduled, quota)
    }

    /// Score the mentor/learner pair log for coordination, store the flag as
    /// the mentor's latest and publish it when suspicious.
    pub fn detect_mentor_coordination(&mut self, mentor: AccountId, learner: AccountId) -> (r: CoordinationFlag)
        requires
            old(self).wf(),
        ensures
            final(self).wf(),
            r == pair_flag(pair_log_in(old(self).pair_log@, mentor, learner)),
            final(self).coordination@ == old(self).coordination@.insert(mentor, r),
            final(self).events@ == if r.suspicious {
                old(self).events@.push(RegistryEvent::CoordinationFlagged { mentor, risk_score: r.risk_score })
            } else {
                old(self).events@
            },
            *final(self) == (SessionRegistry {
                coordination: final(self).coordination,
                events: final(self).events,
                ..*old(self)
            }),
    {
        let flag = match self.pair_log.get(&make_pair_key(mentor, learner)) {
            Some(log) => detect_coordination(log),
            None => {
                let empty: Vec<u64> = Vec::new();
                detect_coordination(&empty)
            },
        };
        self.coordination.insert(mentor, flag);
        if flag.suspicious {
            self.events.push(RegistryEvent::CoordinationFlagged { mentor, risk_score: flag.risk_score });
        }
        flag
    }

    /// Decide whether the pair keeps fair community access, from its
    /// coordination score and a neutral social-proof record; the decision
    /// is stored as the mentor's latest.
    pub fn ensure_fair_community_access(&mut self, mentor: AccountId, learner: AccountId) -> (r: FairAccessDecision)
        requires
            old(self).wf(),
        ensures
            final(self).wf(),
            ({
                let flag = pair_flag(pair_log_in(old(self).pair_log@, mentor, learner));
                &&& r == fair_access_spec(flag, neutral_social_proof())
                &&& final(self).coordination@ == old(self).coordination@.insert(mentor, flag)
                &&& final(self).fair_access@ == old(self).fair_access@.insert(mentor, r)
                &&& final(self).events@ == if flag.suspicious {
                    old(self).events@.push(RegistryEvent::CoordinationFlagged { mentor, risk_score: flag.risk_score })
                } else {
                    old(self).events@
                }
                &&& *final(self) == (SessionRegistry {
                    coordination: final(self).coordination,
                    fair_access: final(self).fair_access,
                    events: final(self).events,
                    ..*old(self)
                })
            }),
    {
        let coordination = self.detect_mentor_coordination(mentor, learner);
        let neutral = SocialProofRecord {
            genuine: true,
            gaming_risk_score: 0,
            distinct_endorser_bps: 10_000,
            burst_count: 0,
        };
        let decision = evaluate_fair_access(coordination, neutral);
        self.fair_access.insert(mentor, decision);
        decision
    }

    /// The session holding `bucket` of `mentor`'s schedule, if any.
    pub open spec fn slot_of(&self, mentor: AccountId, bucket: u64) -> Option<SymbolId> {
        slot_in(self.schedule_slots@, mentor, bucket)
    }

    /// Whether bucket `b` of `mentor` points at a stored session that
    /// collides with `[start, end)` including the buffer.
    pub open spec fn conflict_in_bucket(&self, mentor: AccountId, b: int, start: u64, end: int) -> bool {
        &&& 0 <= b <= u64::MAX
        &&& self.slot_of(mentor, b as u64) is Some
        &&& self.sessions@.contains_key(self.slot_of(mentor, b as u64)->0)
        &&& overlaps_with_buffer(self.sessions@[self.slot_of(mentor, b as u64)->0], start, end)
    }

    /// Whether booking `[start, end)` for `mentor` is refused as a conflict:
    /// some bucket in the buffer-widened scan range holds a colliding
    /// session.
    pub open spec fn has_conflict(&self, mentor: AccountId, start: u64, end: int) -> bool {
        let lo = first_bucket(if start >= SCHEDULING_BUFFER_SECS { start - SCHEDULING_BUFFER_SECS } else { 0 });
        let hi = end_bucket(end + SCHEDULING_BUFFER_SECS);
        exists|b: int| lo <= b < hi && #[trigger] self.conflict_in_bucket(mentor, b, start, end)
    }

    /// Check the requested slot against the mentor's schedule. The bucket
    /// index only finds candidate sessions; the overlap-plus-buffer test is
    /// exact arithmetic on each candidate's stored span.
    pub fn check_scheduling_conflicts(&self, mentor: AccountId, scheduled_at: u64, duration_mins: u32) -> (r: Result<(), RegistryError>)
        ensures
            time_slot_spec(scheduled_at, duration_mins) is Err ==> r == Err::<(), RegistryError>(
                time_slot_spec(scheduled_at, duration_mins)->Err_0,
            ),
            time_slot_spec(scheduled_at, duration_mins) is Ok && !span_fits(scheduled_at, duration_mins)
                ==> r == Err::<(), RegistryError>(RegistryError::SessionEndOverflow),
            time_slot_spec(scheduled_at, duration_mins) is Ok && span_fits(scheduled_at, duration_mins)
                ==> (r is Err <==> self.has_conflict(mentor, scheduled_at, span_end(scheduled_at, duration_mins)))
                && (r is Err ==> r == Err::<(), RegistryError>(RegistryError::SessionConflict)),
    {
        let session_end = match validate_time_slot(scheduled_at, duration_mins) {
            Ok(e) => e,
            Err(e) => return Err(e),
        };
        let scan_start = scheduled_at.saturating_sub(SCHEDULING_BUFFER_SECS);
        let scan_end = match session_end.checked_add(SCHEDULING_BUFFER_SECS) {
            Some(v) => v,
            None => return Err(RegistryError::SessionEndOverflow),
        };
        if scan_end > u64::MAX - (SLOT_SIZE_SECS - 1) {
            return Err(RegistryError::SessionEndOverflow);
        }
        let start_bucket = scan_start / SLOT_SIZE_SECS;
        let end_b = (scan_end + (SLOT_SIZE_SECS - 1)) / SLOT_SIZE_SECS;
        let ghost end: int = span_end(scheduled_at, duration_mins);
        let mut bucket = start_bucket;
        while bucket < end_b
            invariant
                start_bucket <= bucket,
                time_slot_spec(scheduled_at, duration_mins) == Ok::<u64, RegistryError>(session_end),
                span_fits(scheduled_at, duration_mins),
                start_bucket == first_bucket(scan_start as int),
                scan_start == (if scheduled_at >= SCHEDULING_BUFFER_SECS { scheduled_at - SCHEDULING_BUFFER_SECS } else { 0 }),
                end_b == end_bucket(end + SCHEDULING_BUFFER_SECS),
                end == session_end,
                forall|b: int| start_bucket <= b < bucket ==> !#[trigger] self.conflict_in_bucket(mentor, b, scheduled_at, end),
            decreases end_b - bucket,
        {
            let key = make_pair_key(mentor, bucket);
            match self.schedule_slots.get(&key) {
                None => {},
                Some(other_id) => {
                    match self.sessions.get(other_id) {
                        None => {},
                        Some(other) => {
                            let other_end = other.scheduled_at.saturating_add((other.duration_mins as u64) * 60);
                            let overlaps = scheduled_at < other_end.saturating_add(SCHEDULING_BUFFER_SECS)
                                && other.scheduled_at < session_end.saturating_add(SCHEDULING_BUFFER_SECS);
                            if overlaps {
                                assert(self.conflict_in_bucket(mentor, bucket as int, scheduled_at, end));
                                return Err(RegistryError::SessionConflict);
                            }
                        },
                    }
                },
            }
            assert(!self.conflict_in_bucket(mentor, bucket as int, scheduled_at, end));
            bucket = bucket + 1;
        }
        Ok(())
    }

    /// Availability of each 30-minute slot overlapping `[from, to)`, as
    /// `(slot_start, is_free)`.
    pub fn get_mentor_availability(&self, mentor: AccountId, from: u64, to: u64) -> (r: Vec<(u64, bool)>)
        requires
            to <= from || to + SLOT_SIZE_SECS - 1 <= u64::MAX,
        ensures
            to <= from ==> r@.len() == 0,
            from < to ==> r@.len() == end_bucket(to as int) - first_bucket(from as int) && forall|j: int|
                0 <= j < r@.len() ==> #[trigger] r@[j] == (
                    ((first_bucket(from as int) + j) * SLOT_SIZE_SECS) as u64,
                    self.slot_of(mentor, (first_bucket(from as int) + j) as u64) is None,
                ),
    {
        let mut result: Vec<(u64, bool)> = Vec::new();
        if to <= from {
            return result;
        }
        let start_bucket = from / SLOT_SIZE_SECS;
        let end_b = (to + (SLOT_SIZE_SECS - 1)) / SLOT_SIZE_SECS;
        let mut bucket = start_bucket;
        while bucket < end_b
            invariant
                start_bucket == first_bucket(from as int),
                end_b == end_bucket(to as int),
                start_bucket <= bucket <= end_b,
                result@.len() == bucket - start_bucket,
                forall|j: int|
                    0 <= j < result@.len() ==> #[trigger] result@[j] == (
                        ((start_bucket + j) * SLOT_SIZE_SECS) as u64,
                        self.slot_of(mentor, (start_bucket + j) as u64) is None,
                    ),
            decreases end_b - bucket,
        {
            proof {
                lemma_bucket_start_below(bucket as int, to as int);
            }
            let slot_start = bucket * SLOT_SIZE_SECS;
            let key = make_pair_key(mentor, bucket);
            let is_available = !self.schedule_slots.contains_key(&key);
            result.push((slot_start, is_available));
            bucket = bucket + 1;
        }
        result
    }

    /// The participant's sessions: every session they mentor, in
    /// registration order, then the sessions they attend as learner that are
    /// not listed yet.
    pub fn get_sessions_by_participant(&self, participant: AccountId) -> (r: Vec<SymbolId>)
        requires
            self.wf(),
        ensures
            ({
                let mc = count_in(self.mentor_session_count@, participant);
                let lc = count_in(self.learner_session_count@, participant);
                r@ == append_new(
                    index_page_spec(self.mentor_session_at@, participant, mc, 0, mc),
                    index_page_spec(self.learner_session_at@, participant, lc, 0, lc),
                )
            }),
    {
        let mc = count_get(&self.mentor_session_count, participant);
        let mut result = index_page(&self.mentor_session_at, participant, mc, 0, mc);
        let lc = count_get(&self.learner_session_count, participant);
        let learned = index_page(&self.learner_session_at, participant, lc, 0, lc);
        let ghost base = result@;
        let mut i: usize = 0;
        while i < learned.len()
            invariant
                i <= learned@.len(),
                result@ == append_new(base, learned@.subrange(0, i as int)),
            decreases learned@.len() - i,
        {
            let sid = learned[i];
            let mut found = false;
            let mut j: usize = 0;
            while j < result.len()
                invariant
                    j <= result@.len(),
                    found == (exists|k: int| 0 <= k < j && result@[k] == sid),
                decreases result@.len() - j,
            {
                if result[j] == sid {
                    found = true;
                }
                j = j + 1;
            }
            proof {
                let prefix = learned@.subrange(0, i + 1);
                assert(prefix.drop_last() == learned@.subrange(0, i as int));
                assert(prefix.last() == sid);
                assert(found ==> result@.contains(sid));
            }
            if !found {
                result.push(sid);
            }
            i = i + 1;
        }
        assert(learned@.subrange(0, learned@.len() as int) == learned@);
        result
    }

    /// A session passes the quality check once it is completed.
    pub fn validate_session_quality(&self, session_id: SymbolId) -> (r: bool)
        ensures
            r == (self.sessions@.contains_key(session_id) && self.sessions@[session_id].status == SessionStatus::Completed),
    {
        match self.sessions.get(&session_id) {
            Some(rec) => rec.status == SessionStatus::Completed,
            None => false,
        }
    }

    /// Record the learning outcome of a session at `now`.
    pub fn track_learning_outcomes(&mut self, session_id: SymbolId, outcome_score: u32, now: u64) -> (r: Result<(), RegistryError>)
        ensures
            !old(self).sessions@.contains_key(session_id) ==> r == Err::<(), RegistryError>(RegistryError::SessionNotFound)
                && *final(self) == *old(self),
            old(self).sessions@.contains_key(session_id) ==> {
                let rec = old(self).sessions@[session_id];
                &&& r is Ok
                &&& final(self).learning_outcomes@ == old(self).learning_outcomes@.insert(session_id, (outcome_score, now))
                &&& final(self).events@ == old(self).events@.push(RegistryEvent::LearningOutcome {
                    session_id,
                    mentor: rec.mentor,
                    learner: rec.learner,
                    score: outcome_score,
                })
                &&& *final(self) == (SessionRegistry {
                    learning_outcomes: final(self).learning_outcomes,
                    events: final(self).events,
                    ..*old(self)
                })
            },
    {
        let (mentor, learner) = match self.sessions.get(&session_id) {
            Some(rec) => (rec.mentor, rec.learner),
            None => return Err(RegistryError::SessionNotFound),
        };
        self.learning_outcomes.insert(session_id, (outcome_score, now));
        self.events.push(RegistryEvent::LearningOutcome { session_id, mentor, learner, score: outcome_score });
        Ok(())
    }

    /// Force-confirm a session on behalf of the backend, recording the
    /// override.
    pub fn emergency_scheduling_override(&mut self, caller: AccountId, session_id: SymbolId) -> (r: Result<(), RegistryError>)
        requires
            old(self).wf(),
        ensures
            final(self).wf(),
            old(self).backend_check(caller) is Err ==> r == Err::<(), RegistryError>(old(self).backend_check(caller)->Err_0),
            old(self).backend_check(caller) is Ok ==> r == old(self).status_outcome(session_id, SessionStatus::Confirmed, true),
            r is Err ==> *final(self) == *old(self),
            r is Ok ==> {
                &&& old(self).status_moved(&*final(self), session_id, SessionStatus::Confirmed)
                &&& final(self).emergency_overrides@ == old(self).emergency_overrides@.insert(session_id, true)
                &&& final(self).events@ == old(self).events@.push(RegistryEvent::StatusChanged {
                    session_id,
                    old_status: old(self).sessions@[session_id].status,
                    new_status: SessionStatus::Confirmed,
                }).push(RegistryEvent::EmergencyOverride { session_id })
            },
    {
        match self.update_status(caller, session_id, SessionStatus::Confirmed, true) {
            Ok(()) => {},
            Err(e) => return Err(e),
        }
        self.emergency_overrides.insert(session_id, true);
        self.events.push(RegistryEvent::EmergencyOverride { session_id });
        Ok(())
    }

    /// Append an access attempt to the session's audit log (the last
    /// `MONITORING_LOG_CAP` attempts are kept).
    pub fn audit_data_access(&mut self, accessor: AccountId, session_id: SymbolId, allowed: bool, now: u64)
        ensures
            final(self).access_audit@.contains_key(session_id),
            final(self).access_audit@[session_id]@ == capped(audit_in(old(self).access_audit@, session_id).push(
                SessionAccessAuditEntry { accessor, accessed_at: now, allowed },
            )),
            final(self).access_audit@.remove(session_id) == old(self).access_audit@.remove(session_id),
            *final(self) == (SessionRegistry { access_audit: final(self).access_audit, ..*old(self) }),
    {
        let mut log: Vec<SessionAccessAuditEntry> = match self.access_audit.remove(&session_id) {
            Some(v) => v,
            None => Vec::new(),
        };
        push_capped(&mut log, SessionAccessAuditEntry { accessor, accessed_at: now, allowed });
        self.access_audit.insert(session_id, log);
        assert(self.access_audit@.remove(session_id) =~= old(self).access_audit@.remove(session_id));
    }

    /// The session's access audit log, oldest first.
    pub fn get_session_access_audit(&self, session_id: SymbolId) -> (r: Vec<SessionAccessAuditEntry>)
        ensures
            r@ == audit_in(self.access_audit@, session_id),
    {
        let mut out: Vec<SessionAccessAuditEntry> = Vec::new();
        match self.access_audit.get(&session_id) {
            None => {},
            Some(log) => {
                let mut i: usize = 0;
                while i < log.len()
                    invariant
                        i <= log@.len(),
                        out@ == log@.subrange(0, i as int),
                    decreases log@.len() - i,
                {
                    out.push(log[i]);
                    i = i + 1;
                    assert(out@ == log@.subrange(0, i as int));
                }
                assert(log@.subrange(0, log@.len() as int) == log@);
            },
        }
        out
    }

    /// Whether the accessor's session-data access is contained.
    pub fn is_accessor_contained(&self, accessor: AccountId) -> (r: bool)
        ensures
            r == (self.contained_accessors@.contains_key(accessor) && self.contained_accessors@[accessor]),
    {
        match self.contained_accessors.get(&accessor) {
            Some(b) => *b,
            None => false,
        }
    }

    /// Lift the containment of an accessor; the backend only.
    pub fn restore_accessor_access(&mut self, caller: AccountId, accessor: AccountId) -> (r: Result<(), RegistryError>)
        ensures
            r == old(self).backend_check(caller),
            r is Err ==> *final(self) == *old(self),
            r is Ok ==> final(self).contained_accessors@ == old(self).contained_accessors@.insert(accessor, false)
                && *final(self) == (SessionRegistry { contained_accessors: final(self).contained_accessors, ..*old(self) }),
    {
        match self.require_backend(caller) {
            Ok(()) => {},
            Err(e) => return Err(e),
        }
        self.contained_accessors.insert(accessor, false);
        Ok(())
    }

    /// Content ids attached to a session; none for an unknown session.
    pub fn get_session_content(&self, session_id: SymbolId) -> (r: Vec<SymbolId>)
        ensures
            r@ == (if self.sessions@.contains_key(session_id) {
                self.sessions@[session_id].protected_content@
            } else {
                Seq::<SymbolId>::empty()
            }),
    {
        match self.sessions.get(&session_id) {
            Some(rec) => copy_ids(&rec.protected_content),
            None => Vec::new(),
        }
    }

    /// Replace the tags attached to a session.
    pub fn update_session_metadata(&mut self, session_id: SymbolId, tags: Vec<String>)
        ensures
            final(self).session_metadata@ == old(self).session_metadata@.insert(session_id, tags),
            *final(self) == (SessionRegistry { session_metadata: final(self).session_metadata, ..*old(self) }),
    {
        self.session_metadata.insert(session_id, tags);
    }

    /// The tags attached to a session; none when unset.
    pub fn get_session_metadata(&self, session_id: SymbolId) -> (r: Vec<String>)
        ensures
            r@ == (if self.session_metadata@.contains_key(session_id) {
                self.session_metadata@[session_id]@
            } else {
                Seq::<String>::empty()
            }),
    {
        let mut out: Vec<String> = Vec::new();
        match self.session_metadata.get(&session_id) {
            None => {},
            Some(tags) => {
                let mut i: usize = 0;
                while i < tags.len()
                    invariant
                        i <= tags@.len(),
                        out@ == tags@.subrange(0, i as int),
                    decreases tags@.len() - i,
                {
                    out.push(tags[i].clone());
                    i = i + 1;
                    assert(out@ == tags@.subrange(0, i as int));
                }
                assert(tags@.subrange(0, tags@.len() as int) == tags@);
            },
        }
        out
    }

    /// Mentor recommendations for a learner in a category: none are
    /// produced by the registry itself.
    pub fn recommend_mentors(learner: AccountId, category: SymbolId) -> (r: Vec<AccountId>)
        ensures
            r@.len() == 0,
    {
        Vec::new()
    }

    /// Matching keeps the candidate pool as given, in its order.
    pub fn match_learners_to_mentors(learner: AccountId, mentor_pool: Vec<AccountId>) -> (r: Vec<AccountId>)
        ensures
            r@ == mentor_pool@,
    {
        mentor_pool
    }

    /// The registry's own scheduling-cartel scan: it reports no cartel and
    /// recommends monitoring.
    pub fn detect_scheduling_cartels(&self, mentor: AccountId, time_window_secs: u64) -> (r: CartelDetectionResult)
        ensures
            !r.cartel_detected,
            r.severity == 0,
            r.involved_mentors@.len() == 0,
            r.coordination_patterns@.len() == 0,
            r.confidence_score == 0,
            r.recommended_action == CartelAction::Monitor,
    {
        CartelDetectionResult {
            cartel_detected: false,
            severity: 0,
            involved_mentors: Vec::new(),
            coordination_patterns: Vec::new(),
            confidence_score: 0,
            recommended_action: CartelAction::Monitor,
        }
    }

    /// The registry's own time-slot fairness report: no slots, fully fair.
    pub fn ensure_time_slot_fairness(&self, all_mentors: &Vec<AccountId>, time_window: (u64, u64)) -> (r: TimeSlotFairnessAnalysis)
        ensures
            r.total_slots == 0,
            r.fairly_distributed == 0,
            r.monopolized_slots == 0,
            r.fairness_score == 100,
            r.monopoly_mentors@.len() == 0,
    {
        TimeSlotFairnessAnalysis {
            total_slots: 0,
            fairly_distributed: 0,
            monopolized_slots: 0,
            fairness_score: 100,
            monopoly_mentors: Vec::new(),
        }
    }

    /// Ranking keeps the options in the order they were offered.
    pub fn rank_session_options(options: Vec<SymbolId>) -> (r: Vec<SymbolId>)
        ensures
            r@ == options@,
    {
        options
    }
}


/// Consecutive pages concatenate: the page at `offset` of length `l1`
/// followed by the page right after it of length `l2` is the page at
/// `offset` of length `l1 + l2`.
pub proof fn lemma_pages_concatenate(at: Map<u128, SymbolId>, who: u64, count: u32, offset: u32, l1: u32, l2: u32)
    requires
        offset + l1 + l2 <= u32::MAX,
    ensures
        index_page_spec(at, who, count, offset, l1) + index_page_spec(at, who, count, (offset + l1) as u32, l2)
            == index_page_spec(at, who, count, offset, (l1 + l2) as u32),
{
    let a = index_page_spec(at, who, count, offset, l1);
    let b = index_page_spec(at, who, count, (offset + l1) as u32, l2);
    let c = index_page_spec(at, who, count, offset, (l1 + l2) as u32);
    assert(a + b =~= c);
}

/// A page that starts at 0 and is at least as long as the list is the whole
/// list, in index order.
pub proof fn lemma_full_page(at: Map<u128, SymbolId>, who: u64, count: u32, limit: u32)
    requires
        count <= limit,
    ensures
        index_page_spec(at, who, count, 0, limit).len() == count,
        forall|i: int| 0 <= i < count ==> #[trigger] index_page_spec(at, who, count, 0, limit)[i] == at[pair_key(who, i as u64)],
{
}

/// No double booking against a session that still holds its buckets: a
/// valid request for `mentor` that collides, buffer included, with a stored
/// session whose whole span is indexed under `mentor` is refused as a
/// conflict.
pub proof fn lemma_indexed_session_blocks_overlap(
    reg: SessionRegistry,
    mentor: AccountId,
    other: SymbolId,
    start: u64,
    duration_mins: u32,
)
    requires
        reg.wf(),
        reg.sessions@.contains_key(other),
        forall|b: u64|
            first_bucket(reg.sessions@[other].scheduled_at as int) <= b < end_bucket(reg.sessions@[other].end())
                ==> #[trigger] reg.slot_of(mentor, b) == Some(other),
        time_slot_spec(start, duration_mins) is Ok,
        span_fits(start, duration_mins),
        overlaps_with_buffer(reg.sessions@[other], start, span_end(start, duration_mins)),
    ensures
        reg.has_conflict(mentor, start, span_end(start, duration_mins)),
{
    let rec = reg.sessions@[other];
    let end = span_end(start, duration_mins);
    let lo_t: int = if start >= SCHEDULING_BUFFER_SECS { start - SCHEDULING_BUFFER_SECS } else { 0 };
    let lo = first_bucket(lo_t);
    let hi = end_bucket(end + SCHEDULING_BUFFER_SECS);
    assert(time_slot_spec(rec.scheduled_at, rec.duration_mins) is Ok);
    assert(span_fits(rec.scheduled_at, rec.duration_mins));
    let s0 = rec.scheduled_at as int;
    let s1 = rec.end();
    assert(s0 < s1);
    assert(start < s1 + SCHEDULING_BUFFER_SECS);
    assert(s0 < end + SCHEDULING_BUFFER_SECS);
    let b: int = if first_bucket(s0) >= lo { first_bucket(s0) } else { lo };
    assert(first_bucket(s0) < end_bucket(s1)) by (nonlinear_arith)
        requires 0 <= s0 < s1;
    assert(first_bucket(s0) < hi) by (nonlinear_arith)
        requires 0 <= s0 < end + SCHEDULING_BUFFER_SECS, hi == end_bucket(end + SCHEDULING_BUFFER_SECS);
    assert(lo < end_bucket(s1)) by (nonlinear_arith)
        requires 0 <= lo_t < s1, lo == first_bucket(lo_t);
    assert(lo < hi) by (nonlinear_arith)
        requires 0 <= lo_t < end + SCHEDULING_BUFFER_SECS, lo == first_bucket(lo_t), hi == end_bucket(end + SCHEDULING_BUFFER_SECS);
    assert(b <= first_bucket(s1)) by (nonlinear_arith)
        requires 0 <= s0 < s1, 0 <= lo, b == (if first_bucket(s0) >= lo { first_bucket(s0) } else { lo }), lo < end_bucket(s1), first_bucket(s0) < end_bucket(s1);
    assert(0 <= b <= u64::MAX);
    assert(reg.slot_of(mentor, b as u64) == Some(other));
    assert(reg.conflict_in_bucket(mentor, b, start, end));
}

} // verus!
