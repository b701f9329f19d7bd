//! Price oracle: feeder submissions guarded by a circuit breaker, a rolling
//! window of readings per asset, and a price served as the median of fresh
//! readings after outlier rejection, with health and aggregation queries.
use vstd::prelude::*;
use vstd::relations::{sorted_by, total_ordering};
use std::collections::HashMap;

use crate::common::{clamp_i128, sat_sub_i128, AccountId, SymbolId};
use crate::oracle_consumer::trunc_div;

verus! {

broadcast use vstd::std_specs::hash::group_hash_axioms;

/// Minimum number of distinct fresh feeders needed to serve a price.
pub const MIN_FEEDERS: u32 = 3;
/// Readings kept per asset.
pub const MAX_POINTS: usize = 10;
/// A reading older than this is stale (1 hour).
pub const MAX_STALENESS_SECS: u64 = 3_600;
/// Default circuit-breaker threshold: 50% deviation from the TWAP.
pub const DEFAULT_CB_THRESHOLD_BPS: i128 = 5_000;
/// Maximum number of secondary sources.
pub const MAX_SECONDARY_SOURCES: usize = 5;
/// Minimum number of secondary sources that must answer.
pub const MIN_SECONDARY_CONSENSUS: u32 = 2;
/// Maximum divergence (bps) between the primary price and the secondary
/// median.
pub const MAX_SOURCE_DIVERGENCE_BPS: i128 = 1_000;

/// Verdicts on a price submission that come from outside the oracle's own
/// state: whether the protocol-isolation policy refuses the feeder for
/// atomic arbitrage in this ledger, and whether the oracle's source chain is
/// isolated.
#[derive(Clone, Copy, Debug, PartialEq, Eq, Structural)]
pub struct SubmissionGuards {
    pub mev_arbitrage: bool,
    pub chain_isolated: bool,
}

#[derive(Clone, Copy, Debug, PartialEq, Eq, Structural)]
pub enum OracleError {
    AlreadyInitialized,
    NotInitialized,
    Unauthorized,
    UnauthorizedFeeder,
    NonPositivePrice,
    InvalidThreshold,
    CircuitBreakerTripped,
    MevArbitrageDetected,
    OracleChainIsolated,
    SourceLimitReached,
    NoPrices,
    NotEnoughFeeders,
    NoPricesAfterOutlierRejection,
    InsufficientSecondarySources,
    DivergenceExceeded,
}

#[derive(Clone, Copy, Debug, PartialEq, Eq, Structural)]
pub struct PricePoint {
    pub price: i128,
    pub timestamp: u64,
    pub feeder: AccountId,
    /// Ledger sequence at submission.
    pub submitted_at_ledger: u32,
}

#[derive(Clone, Copy, Debug, PartialEq, Eq, Structural)]
pub struct OracleSource {
    pub source_address: AccountId,
    pub weight: u32,
}

#[derive(Clone, Copy, Debug, PartialEq, Eq, Structural)]
pub struct OracleHealth {
    /// Distinct feeders with a non-stale reading.
    pub active_feeders: u32,
    /// Timestamp of the most recent reading.
    pub last_update: u64,
    /// Whether the most recent reading is stale.
    pub is_stale: bool,
}

#[derive(Clone, Copy, Debug, PartialEq, Eq, Structural)]
pub struct TwapState {
    pub twap: i128,
    pub last_updated: u64,
}

#[derive(Clone, Copy, Debug, PartialEq, Eq, Structural)]
pub enum OracleEvent {
    PriceUpdated { asset: SymbolId, price: i128, timestamp: u64 },
}

pub open spec fn leq_i128() -> spec_fn(i128, i128) -> bool {
    |a: i128, b: i128| a <= b
}

/// The upper median: the middle element of the sorted values.
pub open spec fn median_spec(s: Seq<i128>) -> i128 {
    s.sort_by(leq_i128())[(s.len() / 2) as int]
}

proof fn lemma_leq_total()
    ensures
        total_ordering(leq_i128()),
{
    let leq = leq_i128();
    assert(vstd::relations::reflexive(leq));
    assert(vstd::relations::antisymmetric(leq));
    assert(vstd::relations::transitive(leq));
    assert(vstd::relations::strongly_connected(leq));
}

/// Sort by insertion into a growing sorted vector.
fn sort_values(values: &Vec<i128>) -> (r: Vec<i128>)
    ensures
        r@.to_multiset() == values@.to_multiset(),
        sorted_by(r@, leq_i128()),
        r@.len() == values@.len(),
{
    broadcast use vstd::seq_lib::group_to_multiset_ensures;
    let mut out: Vec<i128> = Vec::new();
    let mut i: usize = 0;
    while i < values.len()
        invariant
            i <= values@.len(),
            out@.len() == i,
            out@.to_multiset() == values@.subrange(0, i as int).to_multiset(),
            sorted_by(out@, leq_i128()),
        decreases values@.len() - i,
    {
        let x = values[i];
        let mut k: usize = 0;
        while k < out.len() && out[k] <= x
            invariant
                k <= out@.len(),
                forall|j: int| 0 <= j < k ==> out@[j] <= x,
            decreases out@.len() - k,
        {
            k = k + 1;
        }
        let ghost before = out@;
        out.insert(k, x);
        proof {
            assert(out@ == before.insert(k as int, x));
            assert forall|a: int, b: int| 0 <= a < b < out@.len() implies #[trigger] leq_i128()(out@[a], out@[b]) by {
                if b < k {
                    assert(leq_i128()(before[a], before[b]));
                } else if b == k {
                    assert(out@[a] == before[a]);
                } else if a == k {
                    assert(before[k as int] > x);
                    if k < b - 1 {
                        assert(leq_i128()(before[k as int], before[b - 1]));
                    }
                } else if a < k {
                    assert(leq_i128()(before[a], before[b - 1]));
                } else {
                    assert(leq_i128()(before[a - 1], before[b - 1]));
                }
            }
            assert(values@.subrange(0, i + 1) == values@.subrange(0, i as int).push(x));
            vstd::seq_lib::to_multiset_insert(before, k as int, x);
            vstd::seq_lib::to_multiset_build(values@.subrange(0, i as int), x);
        }
        i = i + 1;
    }
    assert(values@.subrange(0, values@.len() as int) == values@);
    out
}

/// Median of a non-empty list of values.
pub fn median(values: &Vec<i128>) -> (r: i128)
    requires
        values@.len() > 0,
    ensures
        r == median_spec(values@),
{
    let sorted = sort_values(values);
    proof {
        lemma_leq_total();
        values@.lemma_sort_by_ensures(leq_i128());
        vstd::seq_lib::lemma_sorted_unique(sorted@, values@.sort_by(leq_i128()), leq_i128());
    }
    sorted[values.len() / 2]
}

/// Whether a reading taken at `timestamp` is fresh at `now`.
pub open spec fn is_fresh(timestamp: u64, now: u64) -> bool {
    now.saturating_sub(timestamp) <= MAX_STALENESS_SECS
}

/// Readings of `points` that are fresh at `now`, in order.
pub open spec fn fresh_points(points: Seq<PricePoint>, now: u64) -> Seq<PricePoint>
    decreases points.len(),
{
    if points.len() == 0 {
        Seq::empty()
    } else {
        let prev = fresh_points(points.drop_last(), now);
        if is_fresh(points.last().timestamp, now) { prev.push(points.last()) } else { prev }
    }
}

/// The feeders of `points`.
pub open spec fn feeders_of(points: Seq<PricePoint>) -> Set<AccountId> {
    points.map_values(|p: PricePoint| p.feeder).to_set()
}

/// The prices of `points`.
pub open spec fn prices_of(points: Seq<PricePoint>) -> Seq<i128> {
    points.map_values(|p: PricePoint| p.price)
}

/// Latest timestamp among `points` (0 when empty).
pub open spec fn latest_timestamp(points: Seq<PricePoint>) -> u64
    decreases points.len(),
{
    if points.len() == 0 {
        0
    } else {
        let prev = latest_timestamp(points.drop_last());
        if points.last().timestamp > prev { points.last().timestamp } else { prev }
    }
}

/// Distance of `p` from `m`, computed with saturating subtraction.
pub open spec fn sat_distance(p: i128, m: i128) -> int {
    if p >= m { clamp_i128(p - m) as int } else { clamp_i128(m - p) as int }
}

/// Prices within one median's distance of the median.
pub open spec fn inliers_of(prices: Seq<i128>, med: i128) -> Seq<i128>
    decreases prices.len(),
{
    if prices.len() == 0 {
        Seq::empty()
    } else {
        let prev = inliers_of(prices.drop_last(), med);
        if sat_distance(prices.last(), med) <= med { prev.push(prices.last()) } else { prev }
    }
}

/// The price served for `points` at `now`: the median of the inliers of
/// the fresh readings, with the latest fresh timestamp.
pub open spec fn price_outcome(points: Seq<PricePoint>, now: u64) -> Result<(i128, u64), OracleError> {
    let fresh = fresh_points(points, now);
    if points.len() == 0 {
        Err(OracleError::NoPrices)
    } else if feeders_of(fresh).len() < MIN_FEEDERS {
        Err(OracleError::NotEnoughFeeders)
    } else {
        let prices = prices_of(fresh);
        let inl = inliers_of(prices, median_spec(prices));
        if inl.len() == 0 {
            Err(OracleError::NoPricesAfterOutlierRejection)
        } else {
            Ok((median_spec(inl), latest_timestamp(fresh)))
        }
    }
}

/// Deviation of `price` from a positive `twap` in basis points, the scaled
/// difference saturating at `i128::MAX`.
pub open spec fn cb_deviation_bps(price: i128, twap: i128) -> int {
    let diff = if price > twap { price - twap } else { twap - price };
    let scaled = if diff * 10_000 > i128::MAX { i128::MAX as int } else { diff * 10_000 };
    trunc_div(scaled, twap as int)
}

fn distinct_feeder_count(points: &Vec<PricePoint>) -> (r: u32)
    requires
        points@.len() <= MAX_POINTS,
    ensures
        r == feeders_of(points@).len(),
{
    let mut seen: Vec<AccountId> = Vec::new();
    let mut i: usize = 0;
    while i < points.len()
        invariant
            i <= points@.len() <= MAX_POINTS,
            seen@.no_duplicates(),
            seen@.len() <= i,
            seen@.to_set() == feeders_of(points@.subrange(0, i as int)),
        decreases points@.len() - i,
    {
        let f = points[i].feeder;
        let mut found = false;
        let mut j: usize = 0;
        while j < seen.len()
            invariant
                j <= seen@.len(),
                found == (exists|k: int| 0 <= k < j && seen@[k] == f),
            decreases seen@.len() - j,
        {
            if seen[j] == f {
                found = true;
            }
            j = j + 1;
        }
        proof {
            let pre = points@.subrange(0, i as int);
            let next = points@.subrange(0, i + 1);
            assert(next == pre.push(points@[i as int]));
            assert(next.map_values(|p: PricePoint| p.feeder) == pre.map_values(|p: PricePoint| p.feeder).push(f));
            pre.map_values(|p: PricePoint| p.feeder).lemma_push_to_set_commute(f);
        }
        if !found {
            proof {
                seen@.lemma_push_to_set_commute(f);
                assert(!seen@.contains(f));
            }
            seen.push(f);
        } else {
            proof {
                assert(seen@.contains(f));
                assert(seen@.to_set().insert(f) =~= seen@.to_set());
            }
        }
        i = i + 1;
    }
    proof {
        assert(points@.subrange(0, points@.len() as int) == points@);
        seen@.unique_seq_to_set();
    }
    seen.len() as u32
}

pub struct OracleContract {
    pub admin: Option<AccountId>,
    pub feeders: Vec<AccountId>,
    pub rbac: Option<AccountId>,
    pub secondary_sources: Vec<OracleSource>,
    pub cb_threshold_bps: Option<i128>,
    /// Rolling window of readings per asset, oldest first.
    pub prices: HashMap<SymbolId, Vec<PricePoint>>,
    /// Last served price per asset.
    pub twap: HashMap<SymbolId, TwapState>,
    pub events: Vec<OracleEvent>,
}

impl OracleContract {
    pub open spec fn wf(&self) -> bool {
        &&& forall|a: SymbolId| #[trigger] self.prices@.contains_key(a) ==> self.prices@[a]@.len() <= MAX_POINTS
        &&& self.secondary_sources@.len() <= MAX_SECONDARY_SOURCES
    }

    pub open spec fn points_of(&self, asset: SymbolId) -> Seq<PricePoint> {
        if self.prices@.contains_key(asset) { self.prices@[asset]@ } else { Seq::empty() }
    }

    pub open spec fn threshold_spec(&self) -> i128 {
        match self.cb_threshold_bps {
            Some(t) => t,
            None => DEFAULT_CB_THRESHOLD_BPS,
        }
    }

    pub fn new() -> (r: Self)
        ensures
            r.wf(),
            r.admin is None,
            r.prices@ == Map::<SymbolId, Vec<PricePoint>>::empty(),
    {
        OracleContract {
            admin: None,
            feeders: Vec::new(),
            rbac: None,
            secondary_sources: Vec::new(),
            cb_threshold_bps: None,
            prices: HashMap::new(),
            twap: HashMap::new(),
            events: Vec::new(),
        }
    }

    pub fn initialize(&mut self, admin: AccountId) -> (r: Result<(), OracleError>)
        requires
            old(self).wf(),
        ensures
            final(self).wf(),
            old(self).admin is Some ==> r == Err::<(), OracleError>(OracleError::AlreadyInitialized)
                && *final(self) == *old(self),
            old(self).admin is None ==> r is Ok && final(self).admin == Some(admin) && final(self).feeders@.len() == 0
                && final(self).secondary_sources@.len() == 0 && final(self).cb_threshold_bps == Some(
                DEFAULT_CB_THRESHOLD_BPS,
            ) && *final(self) == (OracleContract {
                admin: Some(admin),
                feeders: final(self).feeders,
                secondary_sources: final(self).secondary_sources,
                cb_threshold_bps: Some(DEFAULT_CB_THRESHOLD_BPS),
                ..*old(self)
            }),
    {
        if self.admin.is_some() {
            return Err(OracleError::AlreadyInitialized);
        }
        self.admin = Some(admin);
        self.feeders = Vec::new();
        self.secondary_sources = Vec::new();
        self.cb_threshold_bps = Some(DEFAULT_CB_THRESHOLD_BPS);
        Ok(())
    }

    /// Admin check: the caller is the admin, or (as reported by the role
    /// contract) holds the oracle-admin role.
    pub open spec fn admin_check(&self, caller: AccountId, has_admin_role: bool) -> Result<(), OracleError> {
        match self.admin {
            None => Err(OracleError::NotInitialized),
            Some(a) => if a == caller || has_admin_role { Ok(()) } else { Err(OracleError::Unauthorized) },
        }
    }

    fn require_admin(&self, caller: AccountId, has_admin_role: bool) -> (r: Result<(), OracleError>)
        ensures
            r == self.admin_check(caller, has_admin_role),
    {
        match self.admin {
            None => Err(OracleError::NotInitialized),
            Some(a) => if a == caller || has_admin_role { Ok(()) } else { Err(OracleError::Unauthorized) },
        }
    }

    pub fn set_rbac_contract(&mut self, caller: AccountId, has_admin_role: bool, rbac: AccountId) -> (r: Result<(), OracleError>)
        requires
            old(self).wf(),
        ensures
            final(self).wf(),
            r == old(self).admin_check(caller, has_admin_role),
            r is Err ==> *final(self) == *old(self),
            r is Ok ==> *final(self) == (OracleContract { rbac: Some(rbac), ..*old(self) }),
    {
        match self.require_admin(caller, has_admin_role) {
            Ok(()) => {},
            Err(e) => return Err(e),
        }
        self.rbac = Some(rbac);
        Ok(())
    }

    /// Set the circuit-breaker threshold, between 100 and 9_000 bps.
    pub fn set_circuit_breaker_threshold(&mut self, caller: AccountId, has_admin_role: bool, threshold_bps: i128) -> (r: Result<(), OracleError>)
        requires
            old(self).wf(),
        ensures
            final(self).wf(),
            r == (if old(self).admin_check(caller, has_admin_role) is Err {
                old(self).admin_check(caller, has_admin_role)
            } else if threshold_bps < 100 || threshold_bps > 9_000 {
                Err(OracleError::InvalidThreshold)
            } else {
                Ok(())
            }),
            r is Err ==> *final(self) == *old(self),
            r is Ok ==> *final(self) == (OracleContract { cb_threshold_bps: Some(threshold_bps), ..*old(self) }),
    {
        match self.require_admin(caller, has_admin_role) {
            Ok(()) => {},
            Err(e) => return Err(e),
        }
        if threshold_bps < 100 || threshold_bps > 9_000 {
            return Err(OracleError::InvalidThreshold);
        }
        self.cb_threshold_bps = Some(threshold_bps);
        Ok(())
    }

    pub fn get_circuit_breaker_threshold(&self) -> (r: i128)
        ensures
            r == self.threshold_spec(),
    {
        match self.cb_threshold_bps {
            Some(t) => t,
            None => DEFAULT_CB_THRESHOLD_BPS,
        }
    }

    fn is_feeder(&self, who: AccountId) -> (r: bool)
        ensures
            r == self.feeders@.contains(who),
    {
        let mut i: usize = 0;
        while i < self.feeders.len()
            invariant
                i <= self.feeders@.len(),
                forall|j: int| 0 <= j < i ==> self.feeders@[j] != who,
            decreases self.feeders@.len() - i,
        {
            if self.feeders[i] == who {
                return true;
            }
            i = i + 1;
        }
        false
    }

    /// Register a primary feeder (once).
    pub fn add_feeder(&mut self, caller: AccountId, has_admin_role: bool, feeder: AccountId) -> (r: Result<(), OracleError>)
        requires
            old(self).wf(),
        ensures
            final(self).wf(),
            r == old(self).admin_check(caller, has_admin_role),
            r is Err ==> *final(self) == *old(self),
            r is Ok ==> final(self).feeders@ == (if old(self).feeders@.contains(feeder) {
                old(self).feeders@
            } else {
                old(self).feeders@.push(feeder)
            }) && *final(self) == (OracleContract { feeders: final(self).feeders, ..*old(self) }),
    {
        match self.require_admin(caller, has_admin_role) {
            Ok(()) => {},
            Err(e) => return Err(e),
        }
        if !self.is_feeder(feeder) {
            self.feeders.push(feeder);
        }
        Ok(())
    }

    /// Remove every registration of `feeder`.
    pub fn remove_feeder(&mut self, caller: AccountId, has_admin_role: bool, feeder: AccountId) -> (r: Result<(), OracleError>)
        requires
            old(self).wf(),
        ensures
            final(self).wf(),
            r == old(self).admin_check(caller, has_admin_role),
            r is Err ==> *final(self) == *old(self),
            r is Ok ==> final(self).feeders@ == old(self).feeders@.filter(|f: AccountId| f != feeder)
                && *final(self) == (OracleContract { feeders: final(self).feeders, ..*old(self) }),
    {
        match self.require_admin(caller, has_admin_role) {
            Ok(()) => {},
            Err(e) => return Err(e),
        }
        let ghost keep = |f: AccountId| f != feeder;
        let mut kept: Vec<AccountId> = Vec::new();
        let mut i: usize = 0;
        while i < self.feeders.len()
            invariant
                i <= self.feeders@.len(),
                keep == (|f: AccountId| f != feeder),
                kept@ == self.feeders@.subrange(0, i as int).filter(keep),
            decreases self.feeders@.len() - i,
        {
            let f = self.feeders[i];
            proof {
                let s = self.feeders@.subrange(0, i + 1);
                assert(s.drop_last() == self.feeders@.subrange(0, i as int));
                assert(s.last() == f);
                reveal(Seq::filter);
            }
            if f != feeder {
                kept.push(f);
            }
            i = i + 1;
        }
        assert(self.feeders@.subrange(0, self.feeders@.len() as int) == self.feeders@);
        self.feeders = kept;
        Ok(())
    }

    /// Register a secondary source; at most `MAX_SECONDARY_SOURCES`.
    pub fn add_secondary_source(&mut self, caller: AccountId, has_admin_role: bool, source: AccountId, weight: u32) -> (r: Result<(), OracleError>)
        requires
            old(self).wf(),
        ensures
            final(self).wf(),
            r == (if old(self).admin_check(caller, has_admin_role) is Err {
                old(self).admin_check(caller, has_admin_role)
            } else if old(self).secondary_sources@.len() >= MAX_SECONDARY_SOURCES {
                Err(OracleError::SourceLimitReached)
            } else {
                Ok(())
            }),
            r is Err ==> *final(self) == *old(self),
            r is Ok ==> final(self).secondary_sources@ == old(self).secondary_sources@.push(
                OracleSource { source_address: source, weight },
            ) && *final(self) == (OracleContract { secondary_sources: final(self).secondary_sources, ..*old(self) }),
    {
        match self.require_admin(caller, has_admin_role) {
            Ok(()) => {},
            Err(e) => return Err(e),
        }
        if self.secondary_sources.len() >= MAX_SECONDARY_SOURCES {
            return Err(OracleError::SourceLimitReached);
        }
        self.secondary_sources.push(OracleSource { source_address: source, weight });
        Ok(())
    }

    pub open spec fn submit_outcome(
        &self,
        feeder: AccountId,
        has_feeder_role: bool,
        asset: SymbolId,
        price: i128,
        guards: SubmissionGuards,
    ) -> Result<(), OracleError> {
        if !self.feeders@.contains(feeder) && !has_feeder_role {
            Err(OracleError::UnauthorizedFeeder)
        } else if price <= 0 {
            Err(OracleError::NonPositivePrice)
        } else if guards.mev_arbitrage {
            Err(OracleError::MevArbitrageDetected)
        } else if guards.chain_isolated {
            Err(OracleError::OracleChainIsolated)
        } else if self.twap@.contains_key(asset) && self.twap@[asset].twap > 0 && cb_deviation_bps(
            price,
            self.twap@[asset].twap,
        ) > self.threshold_spec() {
            Err(OracleError::CircuitBreakerTripped)
        } else {
            Ok(())
        }
    }

    /// Accept a reading from a registered feeder (or a holder of the feeder
    /// role). Refused, in order: an unauthorized feeder, a non-positive
    /// price, a feeder flagged for atomic arbitrage, an isolated oracle
    /// chain, and a price deviating from the asset's TWAP by more than the
    /// circuit-breaker threshold. The asset keeps its last `MAX_POINTS`
    /// readings. Each refusal is returned as an error and leaves the stored
    /// readings unchanged; the ledger entry point aborts the invocation on
    /// it.
    pub fn submit_price(
        &mut self,
        feeder: AccountId,
        has_feeder_role: bool,
        asset: SymbolId,
        price: i128,
        timestamp: u64,
        ledger: u32,
        guards: SubmissionGuards,
    ) -> (r: Result<(), OracleError>)
        requires
            old(self).wf(),
        ensures
            final(self).wf(),
            r == old(self).submit_outcome(feeder, has_feeder_role, asset, price, guards),
            r is Err ==> *final(self) == *old(self),
            r is Ok ==> {
                let pts = old(self).points_of(asset).push(PricePoint { price, timestamp, feeder, submitted_at_ledger: ledger });
                &&& final(self).points_of(asset) == (if pts.len() > MAX_POINTS { pts.drop_first() } else { pts })
                &&& final(self).prices@.remove(asset) == old(self).prices@.remove(asset)
                &&& final(self).events@ == old(self).events@.push(OracleEvent::PriceUpdated { asset, price, timestamp })
                &&& *final(self) == (OracleContract {
                    prices: final(self).prices,
                    events: final(self).events,
                    ..*old(self)
                })
            },
    {
        if !self.is_feeder(feeder) && !has_feeder_role {
            return Err(OracleError::UnauthorizedFeeder);
        }
        if price <= 0 {
            return Err(OracleError::NonPositivePrice);
        }
        if guards.mev_arbitrage {
            return Err(OracleError::MevArbitrageDetected);
        }
        if guards.chain_isolated {
            return Err(OracleError::OracleChainIsolated);
        }
        let threshold = self.get_circuit_breaker_threshold();
        match self.twap.get(&asset) {
            Some(state) => {
                if state.twap > 0 {
                    let diff = if price > state.twap { price - state.twap } else { state.twap - price };
                    let scaled: i128 = match diff.checked_mul(10_000) {
                        Some(v) => v,
                        None => i128::MAX,
                    };
                    let deviation_bps: i128 = match scaled.checked_div(state.twap) {
                        Some(v) => v,
                        None => i128::MAX,
                    };
                    if deviation_bps > threshold {
                        return Err(OracleError::CircuitBreakerTripped);
                    }
                }
            },
            None => {},
        }
        let mut points: Vec<PricePoint> = match self.prices.remove(&asset) {
            Some(v) => v,
            None => Vec::new(),
        };
        points.push(PricePoint { price, timestamp, feeder, submitted_at_ledger: ledger });
        if points.len() > MAX_POINTS {
            points.remove(0);
        }
        self.prices.insert(asset, points);
        self.events.push(OracleEvent::PriceUpdated { asset, price, timestamp });
        proof {
            assert(self.prices@.remove(asset) =~= old(self).prices@.remove(asset));
            assert forall|a: SymbolId| #[trigger] self.prices@.contains_key(a) implies self.prices@[a]@.len() <= MAX_POINTS by {
                if a != asset {
                    assert(old(self).prices@.contains_key(a));
                }
            }
        }
        Ok(())
    }

    /// Serve the price of `asset` at `now`: fresh readings from at least
    /// `MIN_FEEDERS` distinct feeders, the median of those within one
    /// median's distance of their median, and the latest fresh timestamp;
    /// the result is kept as the asset's TWAP.
    pub fn get_price(&mut self, asset: SymbolId, now: u64) -> (r: Result<(i128, u64), OracleError>)
        requires
            old(self).wf(),
        ensures
            final(self).wf(),
            r == price_outcome(old(self).points_of(asset), now),
            r is Err ==> *final(self) == *old(self),
            r is Ok ==> final(self).twap@ == old(self).twap@.insert(
                asset,
                TwapState { twap: r->Ok_0.0, last_updated: r->Ok_0.1 },
            ) && *final(self) == (OracleContract { twap: final(self).twap, ..*old(self) }),
    {
        let result = self.compute_price(asset, now);
        match result {
            Ok((twap, last_updated)) => {
                self.twap.insert(asset, TwapState { twap, last_updated });
                Ok((twap, last_updated))
            },
            Err(e) => Err(e),
        }
    }

    fn compute_price(&self, asset: SymbolId, now: u64) -> (r: Result<(i128, u64), OracleError>)
        requires
            self.wf(),
        ensures
            r == price_outcome(self.points_of(asset), now),
    {
        let empty: Vec<PricePoint> = Vec::new();
        let points: &Vec<PricePoint> = match self.prices.get(&asset) {
            Some(v) => v,
            None => &empty,
        };
        assert(points@ == self.points_of(asset));
        if points.len() == 0 {
            return Err(OracleError::NoPrices);
        }
        let mut fresh: Vec<PricePoint> = Vec::new();
        let mut last_updated: u64 = 0;
        let mut i: usize = 0;
        while i < points.len()
            invariant
                i <= points@.len() <= MAX_POINTS,
                fresh@ == fresh_points(points@.subrange(0, i as int), now),
                fresh@.len() <= i,
                last_updated == latest_timestamp(fresh@),
            decreases points@.len() - i,
        {
            let p = points[i];
            proof {
                assert(points@.subrange(0, i + 1).drop_last() == points@.subrange(0, i as int));
            }
            if now.saturating_sub(p.timestamp) <= MAX_STALENESS_SECS {
                let ghost prev = fresh@;
                fresh.push(p);
                proof {
                    assert(fresh@.drop_last() == prev);
                }
                if p.timestamp > last_updated {
                    last_updated = p.timestamp;
                }
            }
            i = i + 1;
        }
        assert(points@.subrange(0, points@.len() as int) == points@);
        let active = distinct_feeder_count(&fresh);
        if active < MIN_FEEDERS {
            return Err(OracleError::NotEnoughFeeders);
        }
        proof {
            if fresh@.len() == 0 {
                assert(fresh@.map_values(|p: PricePoint| p.feeder) =~= Seq::<AccountId>::empty());
                assert(feeders_of(fresh@) =~= Set::<AccountId>::empty());
            }
        }
        let mut prices: Vec<i128> = Vec::new();
        let mut j: usize = 0;
        while j < fresh.len()
            invariant
                j <= fresh@.len(),
                prices@ == prices_of(fresh@.subrange(0, j as int)),
            decreases fresh@.len() - j,
        {
            prices.push(fresh[j].price);
            j = j + 1;
            assert(prices@ =~= prices_of(fresh@.subrange(0, j as int)));
        }
        assert(fresh@.subrange(0, fresh@.len() as int) == fresh@);
        let med = median(&prices);
        let mut inliers: Vec<i128> = Vec::new();
        let mut k: usize = 0;
        while k < prices.len()
            invariant
                k <= prices@.len(),
                inliers@ == inliers_of(prices@.subrange(0, k as int), med),
            decreases prices@.len() - k,
        {
            let p = prices[k];
            proof {
                assert(prices@.subrange(0, k + 1).drop_last() == prices@.subrange(0, k as int));
            }
            let diff = if p >= med { sat_sub_i128(p, med) } else { sat_sub_i128(med, p) };
            if diff <= med {
                inliers.push(p);
            }
            k = k + 1;
        }
        assert(prices@.subrange(0, prices@.len() as int) == prices@);
        if inliers.len() == 0 {
            return Err(OracleError::NoPricesAfterOutlierRejection);
        }
        let twap = median(&inliers);
        Ok((twap, last_updated))
    }

    pub open spec fn aggregate_outcome(&self, asset: SymbolId, now: u64, secondary: Seq<i128>) -> Result<(i128, u32), OracleError> {
        if self.secondary_sources@.len() < MIN_SECONDARY_CONSENSUS {
            Err(OracleError::InsufficientSecondarySources)
        } else if price_outcome(self.points_of(asset), now) is Err {
            Err(price_outcome(self.points_of(asset), now)->Err_0)
        } else {
            let primary = price_outcome(self.points_of(asset), now)->Ok_0.0;
            let med = median_spec(secondary);
            let denom: i128 = if med >= 1 { med } else { 1 };
            let divergence = if primary > med { primary - med } else { med - primary };
            let scaled = if divergence * 10_000 > i128::MAX { i128::MAX as int } else { divergence * 10_000 };
            if trunc_div(scaled, denom as int) > MAX_SOURCE_DIVERGENCE_BPS {
                Err(OracleError::DivergenceExceeded)
            } else {
                Ok((med, secondary.len() as u32))
            }
        }
    }

    /// Aggregate the secondary sources' answers for `asset` (one per
    /// registered source, in order): their median, provided the primary
    /// price is served and lies within `MAX_SOURCE_DIVERGENCE_BPS` of it.
    /// Serving the primary price refreshes the asset's TWAP. Fewer than two
    /// sources and a divergence above the limit are returned as errors with
    /// the state unchanged; the ledger entry point aborts the invocation on
    /// them.
    pub fn get_aggregated_price(&mut self, asset: SymbolId, now: u64, secondary_prices: &Vec<i128>) -> (r: Result<(i128, u32), OracleError>)
        requires
            old(self).wf(),
            secondary_prices@.len() == old(self).secondary_sources@.len(),
            price_outcome(old(self).points_of(asset), now) is Ok && secondary_prices@.len() > 0 ==> {
                let primary = price_outcome(old(self).points_of(asset), now)->Ok_0.0;
                let med = median_spec(secondary_prices@);
                -i128::MAX <= primary - med <= i128::MAX
            },
        ensures
            final(self).wf(),
            r == old(self).aggregate_outcome(asset, now, secondary_prices@),
            r is Err ==> *final(self) == *old(self),
            r is Ok ==> {
                let served = price_outcome(old(self).points_of(asset), now)->Ok_0;
                &&& final(self).twap@ == old(self).twap@.insert(asset, TwapState { twap: served.0, last_updated: served.1 })
                &&& *final(self) == (OracleContract { twap: final(self).twap, ..*old(self) })
            },
    {
        if self.secondary_sources.len() < MIN_SECONDARY_CONSENSUS as usize {
            return Err(OracleError::InsufficientSecondarySources);
        }
        let (primary, last_updated) = match self.compute_price(asset, now) {
            Ok(v) => v,
            Err(e) => return Err(e),
        };
        let med = median(secondary_prices);
        let divergence = if primary > med { primary - med } else { med - primary };
        let denom = if med >= 1 { med } else { 1 };
        let scaled: i128 = match divergence.checked_mul(10_000) {
            Some(v) => v,
            None => i128::MAX,
        };
        let divergence_bps: i128 = match scaled.checked_div(denom) {
            Some(v) => v,
            None => i128::MAX,
        };
        if divergence_bps > MAX_SOURCE_DIVERGENCE_BPS {
            return Err(OracleError::DivergenceExceeded);
        }
        self.twap.insert(asset, TwapState { twap: primary, last_updated });
        Ok((med, secondary_prices.len() as u32))
    }

    /// Whether the latest reading of `asset` is stale at `now`.
    pub fn is_price_stale(&self, asset: SymbolId, now: u64) -> (r: bool)
        ensures
            r == (now.saturating_sub(latest_timestamp(self.points_of(asset))) > MAX_STALENESS_SECS),
    {
        let empty: Vec<PricePoint> = Vec::new();
        let points: &Vec<PricePoint> = match self.prices.get(&asset) {
            Some(v) => v,
            None => &empty,
        };
        let mut last: u64 = 0;
        let mut i: usize = 0;
        while i < points.len()
            invariant
                i <= points@.len(),
                points@ == self.points_of(asset),
                last == latest_timestamp(points@.subrange(0, i as int)),
            decreases points@.len() - i,
        {
            proof {
                assert(points@.subrange(0, i + 1).drop_last() == points@.subrange(0, i as int));
            }
            if points[i].timestamp > last {
                last = points[i].timestamp;
            }
            i = i + 1;
        }
        assert(points@.subrange(0, points@.len() as int) == points@);
        now.saturating_sub(last) > MAX_STALENESS_SECS
    }

    /// Health of the `asset` feed at `now`.
    pub fn get_oracle_health(&self, asset: SymbolId, now: u64) -> (r: OracleHealth)
        requires
            self.wf(),
        ensures
            r == (OracleHealth {
                active_feeders: feeders_of(fresh_points(self.points_of(asset), now)).len() as u32,
                last_update: latest_timestamp(self.points_of(asset)),
                is_stale: now.saturating_sub(latest_timestamp(self.points_of(asset))) > MAX_STALENESS_SECS,
            }),
    {
        let empty: Vec<PricePoint> = Vec::new();
        let points: &Vec<PricePoint> = match self.prices.get(&asset) {
            Some(v) => v,
            None => &empty,
        };
        let mut last: u64 = 0;
        let mut fresh: Vec<PricePoint> = Vec::new();
        let mut i: usize = 0;
        while i < points.len()
            invariant
                i <= points@.len() <= MAX_POINTS,
                points@ == self.points_of(asset),
                last == latest_timestamp(points@.subrange(0, i as int)),
                fresh@ == fresh_points(points@.subrange(0, i as int), now),
                fresh@.len() <= i,
            decreases points@.len() - i,
        {
            let p = points[i];
            proof {
                assert(points@.subrange(0, i + 1).drop_last() == points@.subrange(0, i as int));
            }
            if p.timestamp > last {
                last = p.timestamp;
            }
            if now.saturating_sub(p.timestamp) <= MAX_STALENESS_SECS {
                let ghost prev = fresh@;
                fresh.push(p);
                proof {
                    assert(fresh@.drop_last() == prev);
                }
            }
            i = i + 1;
        }
        assert(points@.subrange(0, points@.len() as int) == points@);
        let active_feeders = distinct_feeder_count(&fresh);
        OracleHealth { active_feeders, last_update: last, is_stale: now.saturating_sub(last) > MAX_STALENESS_SECS }
    }
}


/// The median is one of the readings.
pub proof fn lemma_median_is_a_reading(s: Seq<i128>)
    requires
        s.len() > 0,
    ensures
        s.contains(median_spec(s)),
{
    broadcast use vstd::seq_lib::group_to_multiset_ensures;
    lemma_leq_total();
    s.lemma_sort_by_ensures(leq_i128());
    let t = s.sort_by(leq_i128());
    let k = (s.len() / 2) as int;
    assert(t.to_multiset().len() == s.to_multiset().len());
    assert(t.len() == s.len());
    assert(t.contains(t[k]));
}

/// Number of values of `s` that satisfy `f`.
pub open spec fn count_where(s: Seq<i128>, f: spec_fn(i128) -> bool) -> nat
    decreases s.len(),
{
    if s.len() == 0 {
        0
    } else {
        count_where(s.drop_last(), f) + if f(s.last()) { 1nat } else { 0nat }
    }
}

proof fn lemma_count_remove(s: Seq<i128>, j: int, f: spec_fn(i128) -> bool)
    requires
        0 <= j < s.len(),
    ensures
        count_where(s, f) == count_where(s.remove(j), f) + if f(s[j]) { 1nat } else { 0nat },
    decreases s.len(),
{
    if j == s.len() - 1 {
        assert(s.remove(j) =~= s.drop_last());
    } else {
        lemma_count_remove(s.drop_last(), j, f);
        assert(s.remove(j).drop_last() =~= s.drop_last().remove(j));
        assert(s.remove(j).last() == s.last());
    }
}

/// Counts do not depend on the order of the values.
proof fn lemma_count_perm(a: Seq<i128>, b: Seq<i128>, f: spec_fn(i128) -> bool)
    requires
        a.to_multiset() == b.to_multiset(),
    ensures
        count_where(a, f) == count_where(b, f),
    decreases a.len(),
{
    broadcast use vstd::seq_lib::group_to_multiset_ensures;
    broadcast use vstd::multiset::group_multiset_axioms;
    if a.len() == 0 {
        assert(a.to_multiset().len() == 0);
        assert(b.to_multiset().len() == 0);
        assert(b.len() == 0);
    } else {
        let x = a.last();
        let a1 = a.drop_last();
        assert(a =~= a1.push(x));
        assert(a.to_multiset().count(x) > 0);
        assert(b.contains(x));
        let j = choose|j: int| 0 <= j < b.len() && b[j] == x;
        let b1 = b.remove(j);
        assert(a1.to_multiset() =~= b1.to_multiset());
        lemma_count_perm(a1, b1, f);
        lemma_count_remove(b, j, f);
    }
}

proof fn lemma_count_lower(s: Seq<i128>, m: int, f: spec_fn(i128) -> bool)
    requires
        0 <= m <= s.len(),
        forall|i: int| 0 <= i < m ==> f(#[trigger] s[i]),
    ensures
        count_where(s, f) >= m,
    decreases s.len(),
{
    if s.len() > 0 {
        if m == s.len() {
            lemma_count_lower(s.drop_last(), m - 1, f);
            assert(f(s[s.len() - 1]));
        } else {
            lemma_count_lower(s.drop_last(), m, f);
        }
    }
}

proof fn lemma_count_upper(s: Seq<i128>, m: int, f: spec_fn(i128) -> bool)
    requires
        0 <= m,
        forall|i: int| m <= i < s.len() ==> f(#[trigger] s[i]),
    ensures
        count_where(s, f) >= s.len() - m,
    decreases s.len(),
{
    if s.len() > m {
        lemma_count_upper(s.drop_last(), m, f);
        assert(f(s[s.len() - 1]));
    }
}

/// The upper median of a non-empty list is one of its values, more than
/// half of the values are at most it, and at least half are at least it.
pub proof fn lemma_median_splits(s: Seq<i128>)
    requires
        s.len() > 0,
    ensures
        s.contains(median_spec(s)),
        count_where(s, |x: i128| x <= median_spec(s)) >= s.len() / 2 + 1,
        count_where(s, |x: i128| x >= median_spec(s)) >= s.len() - s.len() / 2,
{
    broadcast use vstd::seq_lib::group_to_multiset_ensures;
    lemma_median_is_a_reading(s);
    lemma_leq_total();
    s.lemma_sort_by_ensures(leq_i128());
    let t = s.sort_by(leq_i128());
    let k = (s.len() / 2) as int;
    assert(t.to_multiset().len() == s.to_multiset().len());
    assert(t.len() == s.len());
    let m = t[k];
    let le = |x: i128| x <= m;
    let ge = |x: i128| x >= m;
    assert forall|i: int| 0 <= i < k + 1 implies le(#[trigger] t[i]) by {
        if i < k {
            assert(leq_i128()(t[i], t[k]));
        }
    }
    assert forall|i: int| k <= i < t.len() implies ge(#[trigger] t[i]) by {
        if i > k {
            assert(leq_i128()(t[k], t[i]));
        }
    }
    lemma_count_lower(t, k + 1, le);
    lemma_count_upper(t, k, ge);
    lemma_count_perm(t, s, le);
    lemma_count_perm(t, s, ge);
}

/// An aggregated price is the upper median of the secondary sources'
/// answers: one of them, with more than half of the answers at most it and
/// at least half at least it; the count is the number of answers.
pub proof fn lemma_aggregate_is_secondary_median(o: OracleContract, asset: SymbolId, now: u64, secondary: Seq<i128>)
    requires
        secondary.len() > 0,
        o.aggregate_outcome(asset, now, secondary) is Ok,
    ensures
        ({
            let (p, n) = o.aggregate_outcome(asset, now, secondary)->Ok_0;
            &&& n == secondary.len() as u32
            &&& secondary.contains(p)
            &&& count_where(secondary, |x: i128| x <= p) >= secondary.len() / 2 + 1
            &&& count_where(secondary, |x: i128| x >= p) >= secondary.len() - secondary.len() / 2
        }),
{
    lemma_median_splits(secondary);
}

/// The latest timestamp of a list of readings bounds every reading's
/// timestamp and, for a non-empty list, is one of them.
pub proof fn lemma_latest_timestamp_is_max(points: Seq<PricePoint>)
    ensures
        forall|i: int| 0 <= i < points.len() ==> #[trigger] points[i].timestamp <= latest_timestamp(points),
        points.len() > 0 ==> exists|i: int|
            0 <= i < points.len() && #[trigger] points[i].timestamp == latest_timestamp(points),
    decreases points.len(),
{
    if points.len() > 0 {
        let prev = points.drop_last();
        lemma_latest_timestamp_is_max(prev);
        assert forall|i: int| 0 <= i < points.len() implies #[trigger] points[i].timestamp <= latest_timestamp(points) by {
            if i < points.len() - 1 {
                assert(points[i] == prev[i]);
            }
        }
        if points.last().timestamp > latest_timestamp(prev) || prev.len() == 0 {
            assert(points[points.len() - 1].timestamp == latest_timestamp(points));
        } else {
            let w = choose|i: int| 0 <= i < prev.len() && #[trigger] prev[i].timestamp == latest_timestamp(prev);
            assert(points[w] == prev[w]);
            assert(points[w].timestamp == latest_timestamp(points));
        }
    }
}

proof fn lemma_fresh_points_members(points: Seq<PricePoint>, now: u64)
    ensures
        forall|j: int|
            0 <= j < fresh_points(points, now).len() ==> points.contains(#[trigger] fresh_points(points, now)[j])
                && is_fresh(fresh_points(points, now)[j].timestamp, now),
        forall|i: int|
            0 <= i < points.len() && is_fresh(points[i].timestamp, now) ==> fresh_points(points, now).contains(
                #[trigger] points[i],
            ),
    decreases points.len(),
{
    if points.len() > 0 {
        let prev = points.drop_last();
        lemma_fresh_points_members(prev, now);
        let f = fresh_points(points, now);
        let fp = fresh_points(prev, now);
        assert forall|j: int| 0 <= j < f.len() implies points.contains(#[trigger] f[j]) && is_fresh(f[j].timestamp, now) by {
            if j < fp.len() {
                assert(f[j] == fp[j]);
                let i = choose|i: int| 0 <= i < prev.len() && prev[i] == fp[j];
                assert(points[i] == prev[i]);
            } else {
                assert(f[j] == points.last());
                assert(points[points.len() - 1] == f[j]);
            }
        }
        assert forall|i: int| 0 <= i < points.len() && is_fresh(points[i].timestamp, now) implies f.contains(
            #[trigger] points[i],
        ) by {
            if i < points.len() - 1 {
                assert(points[i] == prev[i]);
                assert(fp.contains(prev[i]));
                let j = choose|j: int| 0 <= j < fp.len() && fp[j] == prev[i];
                assert(f[j] == fp[j]);
            } else {
                assert(f[f.len() - 1] == points[i]);
            }
        }
    }
}

/// A served price carries the latest timestamp among the fresh readings:
/// no fresh reading is newer, and some fresh reading has exactly that
/// timestamp.
pub proof fn lemma_price_timestamp_is_latest_fresh(points: Seq<PricePoint>, now: u64)
    requires
        price_outcome(points, now) is Ok,
    ensures
        ({
            let t = price_outcome(points, now)->Ok_0.1;
            &&& forall|i: int|
                0 <= i < points.len() && is_fresh(points[i].timestamp, now) ==> #[trigger] points[i].timestamp <= t
            &&& exists|i: int|
                0 <= i < points.len() && is_fresh(points[i].timestamp, now) && #[trigger] points[i].timestamp == t
        }),
{
    let f = fresh_points(points, now);
    lemma_fresh_points_members(points, now);
    lemma_latest_timestamp_is_max(f);
    if f.len() == 0 {
        assert(f.map_values(|p: PricePoint| p.feeder) =~= Seq::<AccountId>::empty());
        assert(feeders_of(f) =~= Set::<AccountId>::empty());
        assert(false);
    }
    let t = latest_timestamp(f);
    assert forall|i: int| 0 <= i < points.len() && is_fresh(points[i].timestamp, now) implies #[trigger] points[i].timestamp
        <= t by {
        assert(f.contains(points[i]));
        let j = choose|j: int| 0 <= j < f.len() && f[j] == points[i];
        assert(f[j].timestamp <= t);
    }
    let j = choose|j: int| 0 <= j < f.len() && #[trigger] f[j].timestamp == t;
    assert(points.contains(f[j]));
    let i = choose|i: int| 0 <= i < points.len() && points[i] == f[j];
    assert(is_fresh(points[i].timestamp, now) && points[i].timestamp == t);
}

} // verus!
