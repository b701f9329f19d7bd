use mentorminds::oracle::{median, OracleContract, OracleError, SubmissionGuards, MAX_STALENESS_SECS};

const ADMIN: u64 = 1;
const XLM: u64 = 77;
const LEDGER: u32 = 7;
const OPEN: SubmissionGuards = SubmissionGuards { mev_arbitrage: false, chain_isolated: false };

fn setup() -> OracleContract {
    let mut c = OracleContract::new();
    c.initialize(ADMIN).unwrap();
    c
}

fn add_feeders(c: &mut OracleContract, n: u64) -> Vec<u64> {
    let mut out = Vec::new();
    for i in 0..n {
        let f = 100 + i;
        c.add_feeder(ADMIN, false, f).unwrap();
        out.push(f);
    }
    out
}

fn submit(c: &mut OracleContract, feeder: u64, price: i128, ts: u64) {
    c.submit_price(feeder, false, XLM, price, ts, LEDGER, OPEN).unwrap();
}

#[test]
fn test_get_price_basic_median() {
    let mut c = setup();
    let f = add_feeders(&mut c, 3);
    submit(&mut c, f[0], 100, 999);
    submit(&mut c, f[1], 110, 999);
    submit(&mut c, f[2], 105, 999);
    let (price, _) = c.get_price(XLM, 1_000).unwrap();
    assert_eq!(price, 105);
}

#[test]
#[should_panic(expected = "not enough feeders")]
fn test_insufficient_feeders_panics() {
    let mut c = setup();
    let f = add_feeders(&mut c, 2);
    submit(&mut c, f[0], 100, 999);
    submit(&mut c, f[1], 110, 999);
    c.get_price(XLM, 1_000).expect("not enough feeders");
}

#[test]
#[should_panic(expected = "not enough feeders")]
fn test_stale_readings_excluded() {
    let mut c = setup();
    let f = add_feeders(&mut c, 3);
    submit(&mut c, f[0], 100, 0);
    submit(&mut c, f[1], 110, 0);
    submit(&mut c, f[2], 105, 0);
    c.get_price(XLM, MAX_STALENESS_SECS + 1).expect("not enough feeders");
}

#[test]
fn test_outlier_rejection() {
    let mut c = setup();
    let f = add_feeders(&mut c, 4);
    submit(&mut c, f[0], 100, 999);
    submit(&mut c, f[1], 102, 999);
    submit(&mut c, f[2], 98, 999);
    submit(&mut c, f[3], 500, 999);
    let (price, _) = c.get_price(XLM, 1_000).unwrap();
    assert!(price <= 102, "outlier should be rejected, got {}", price);
    assert!(price >= 98);
}

#[test]
fn test_oracle_health_active_feeders() {
    let mut c = setup();
    let f = add_feeders(&mut c, 3);
    submit(&mut c, f[0], 100, 99);
    submit(&mut c, f[1], 110, 99);
    submit(&mut c, f[2], 105, 99);
    let health = c.get_oracle_health(XLM, 100);
    assert_eq!(health.active_feeders, 3);
    assert!(!health.is_stale);
}

#[test]
fn test_oracle_health_stale() {
    let mut c = setup();
    let f = add_feeders(&mut c, 3);
    submit(&mut c, f[0], 100, 0);
    let health = c.get_oracle_health(XLM, MAX_STALENESS_SECS + 1);
    assert!(health.is_stale);
    assert_eq!(health.active_feeders, 0);
}

#[test]
fn median_is_upper_middle_value() {
    assert_eq!(median(&vec![5]), 5);
    assert_eq!(median(&vec![3, 1, 2]), 2);
    assert_eq!(median(&vec![4, 1, 3, 2]), 3);
    assert_eq!(median(&vec![-7, 7, 0, 7]), 7);
}

#[test]
fn submission_errors() {
    let mut c = setup();
    let f = add_feeders(&mut c, 1);
    assert_eq!(c.submit_price(999, false, XLM, 100, 1, LEDGER, OPEN), Err(OracleError::UnauthorizedFeeder));
    assert_eq!(c.submit_price(f[0], false, XLM, 0, 1, LEDGER, OPEN), Err(OracleError::NonPositivePrice));
    assert_eq!(c.submit_price(999, true, XLM, 100, 1, LEDGER, OPEN), Ok(()));
    assert_eq!(c.get_price(555, 1), Err(OracleError::NoPrices));
}

#[test]
fn circuit_breaker_refuses_large_jump_after_price_served() {
    let mut c = setup();
    let f = add_feeders(&mut c, 3);
    submit(&mut c, f[0], 100, 999);
    submit(&mut c, f[1], 100, 999);
    submit(&mut c, f[2], 100, 999);
    c.get_price(XLM, 1_000).unwrap();
    // The default threshold is 5_000 bps: +50% passes, +51% trips.
    assert_eq!(c.submit_price(f[0], false, XLM, 150, 1_000, LEDGER, OPEN), Ok(()));
    assert_eq!(c.submit_price(f[0], false, XLM, 151, 1_000, LEDGER, OPEN), Err(OracleError::CircuitBreakerTripped));
}

#[test]
fn admin_operations_need_admin() {
    let mut c = setup();
    assert_eq!(c.add_feeder(5, false, 100), Err(OracleError::Unauthorized));
    assert_eq!(c.add_feeder(5, true, 100), Ok(()));
    assert_eq!(c.set_circuit_breaker_threshold(ADMIN, false, 0), Err(OracleError::InvalidThreshold));
    assert_eq!(c.initialize(ADMIN), Err(OracleError::AlreadyInitialized));
}

#[test]
fn submissions_refused_while_isolated_or_flagged() {
    let mut c = setup();
    let f = add_feeders(&mut c, 1);
    let isolated = SubmissionGuards { chain_isolated: true, ..OPEN };
    assert_eq!(c.submit_price(f[0], false, XLM, 100, 1, LEDGER, isolated), Err(OracleError::OracleChainIsolated));
    let flagged = SubmissionGuards { mev_arbitrage: true, ..OPEN };
    assert_eq!(c.submit_price(f[0], false, XLM, 100, 1, LEDGER, flagged), Err(OracleError::MevArbitrageDetected));
    // Authorization and price are checked first.
    assert_eq!(c.submit_price(999, false, XLM, 100, 1, LEDGER, isolated), Err(OracleError::UnauthorizedFeeder));
    assert_eq!(c.submit_price(f[0], false, XLM, 0, 1, LEDGER, flagged), Err(OracleError::NonPositivePrice));
    assert_eq!(c.submit_price(f[0], false, XLM, 100, 1, LEDGER, OPEN), Ok(()));
}
