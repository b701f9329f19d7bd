//! Oracle consumer: validation of oracle prices by staleness, range and
//! deviation from a reference price.
use vstd::prelude::*;

use crate::availability_pricing::abs_diff_int;

verus! {

#[derive(Clone, Copy, Debug, PartialEq, Eq, Structural)]
pub enum OracleError {
    Stale,
    InsufficientFeeders,
    DeviationExceeded,
    PriceNotFound,
}

/// Division truncating toward zero, as Rust's integer division does.
pub open spec fn trunc_div(x: int, d: int) -> int {
    if d == 0 {
        0
    } else if (x >= 0) == (d > 0) {
        if x >= 0 { x / d } else { (-x) / (-d) }
    } else if x < 0 {
        -((-x) / d)
    } else {
        -(x / (-d))
    }
}

/// Deviation of `price` from `reference` in basis points (truncated toward
/// zero; the scaled difference saturates at `i128::MAX`).
pub open spec fn deviation_bps_spec(price: i128, reference: i128) -> int {
    let diff = abs_diff_int(price as int, reference as int);
    let scaled = if diff * 10_000 > i128::MAX { i128::MAX as int } else { diff * 10_000 };
    trunc_div(scaled, reference as int)
}

/// Reusable validation of oracle prices.
pub struct OracleConsumer;

impl OracleConsumer {
    /// Validate a reading `(price, timestamp)` returned by the oracle at
    /// ledger time `now`: it is stale when older than `max_staleness_secs`.
    pub fn get_price(reading: (i128, u64), now: u64, max_staleness_secs: u64) -> (r: Result<(i128, u64), OracleError>)
        ensures
            now.saturating_sub(reading.1) > max_staleness_secs ==> r == Err::<(i128, u64), OracleError>(OracleError::Stale),
            now.saturating_sub(reading.1) <= max_staleness_secs ==> r == Ok::<(i128, u64), OracleError>(reading),
    {
        let (price, timestamp) = reading;
        if now.saturating_sub(timestamp) > max_staleness_secs {
            return Err(OracleError::Stale);
        }
        Ok((price, timestamp))
    }

    /// Accept a price inside `[min_price, max_price]`; a price outside the
    /// range is refused by the precondition (the host aborts on it).
    pub fn assert_price_in_range(price: i128, min_price: i128, max_price: i128)
        requires
            min_price <= price <= max_price,
    {
    }

    /// Whether `price` deviates from `reference_price` by more than
    /// `threshold_bps`; a zero reference never counts as a deviation.
    pub fn check_deviation(price: i128, reference_price: i128, threshold_bps: i128) -> (r: bool)
        requires
            reference_price != 0 ==> abs_diff_int(price as int, reference_price as int) <= i128::MAX,
        ensures
            r == (reference_price != 0 && deviation_bps_spec(price, reference_price) > threshold_bps),
    {
        if reference_price == 0 {
            return false;
        }
        let diff = if price > reference_price { price - reference_price } else { reference_price - price };
        let scaled: i128 = match diff.checked_mul(10_000) {
            Some(v) => v,
            None => i128::MAX,
        };
        let deviation_bps: i128 = match scaled.checked_div(reference_price) {
            Some(v) => v,
            None => i128::MAX,
        };
        deviation_bps > threshold_bps
    }
}

/// The oracle consumer library contract.
pub struct OracleConsumerLib;

impl OracleConsumerLib {
    /// Version of this library contract.
    pub fn version() -> (r: u32)
        ensures
            r == 1,
    {
        1
    }
}

} // verus!
