use mentorminds::rent_fund::{RentError, RentEvent, RentFund};

const ADMIN: u64 = 1;
const CONTRACT: u64 = 2;
const FUNDER: u64 = 3;

fn setup() -> RentFund {
    let mut f = RentFund::new();
    f.init(ADMIN);
    f
}

#[test]
fn test_deposit_increases_balance() {
    let mut f = setup();
    f.deposit_rent(FUNDER, CONTRACT, 1_000_000).unwrap();
    assert_eq!(f.get_balance(CONTRACT), 1_000_000);
    f.deposit_rent(FUNDER, CONTRACT, 500_000).unwrap();
    assert_eq!(f.get_balance(CONTRACT), 1_500_000);
}

#[test]
fn test_check_rent_health() {
    let mut f = setup();
    f.deposit_rent(FUNDER, CONTRACT, 3_000_000).unwrap();
    let health = f.check_rent_health(CONTRACT);
    assert_eq!(health.balance_xlm, 3_000_000);
    assert_eq!(health.estimated_months_remaining, 3);
    assert_eq!(health.alert_threshold_months, 3);
}

#[test]
fn test_rent_low_event_at_3_months() {
    let mut f = setup();
    f.deposit_rent(FUNDER, CONTRACT, 2_000_000).unwrap();
    let health = f.check_rent_health(CONTRACT);
    assert_eq!(health.estimated_months_remaining, 2);
}

#[test]
fn test_auto_topup_below_threshold() {
    let mut f = setup();
    f.set_auto_topup_threshold(ADMIN, CONTRACT, 5_000_000).unwrap();
    f.deposit_rent(FUNDER, CONTRACT, 2_000_000).unwrap();
    let topped = f.auto_topup(CONTRACT);
    assert!(topped);
    assert_eq!(f.get_balance(CONTRACT), 6_000_000);
    assert_eq!(f.events.last(), Some(&RentEvent::TopUp { contract_address: CONTRACT, amount: 4_000_000 }));
}

#[test]
fn test_auto_topup_noop_when_above_threshold() {
    let mut f = setup();
    f.deposit_rent(FUNDER, CONTRACT, 10_000_000).unwrap();
    let topped = f.auto_topup(CONTRACT);
    assert!(!topped);
    assert_eq!(f.get_balance(CONTRACT), 10_000_000);
}

#[test]
fn test_set_monthly_estimate() {
    let mut f = setup();
    f.set_monthly_rent_estimate(ADMIN, CONTRACT, 500_000).unwrap();
    f.deposit_rent(FUNDER, CONTRACT, 1_000_000).unwrap();
    let health = f.check_rent_health(CONTRACT);
    assert_eq!(health.estimated_months_remaining, 2);
}

#[test]
fn deposit_must_be_positive() {
    let mut f = setup();
    assert_eq!(f.deposit_rent(FUNDER, CONTRACT, 0), Err(RentError::NonPositiveAmount));
    assert_eq!(f.get_balance(CONTRACT), 0);
}

#[test]
fn low_rent_alert_after_topup_below_alert_months() {
    let mut f = setup();
    // Default threshold is three months; topped up to four, no alert.
    assert!(f.auto_topup(CONTRACT));
    assert_eq!(f.get_balance(CONTRACT), 4_000_000);
    assert!(!f.events.iter().any(|e| matches!(e, RentEvent::RentLow { .. })));
    // With a 2M monthly estimate four million covers two months: alert.
    let other = 9;
    f.set_monthly_rent_estimate(ADMIN, other, 2_000_000).unwrap();
    assert!(f.auto_topup(other));
    assert!(f.events.iter().any(|e| matches!(e, RentEvent::RentLow { months_remaining: 2, .. })));
}

#[test]
fn admin_settings_need_admin() {
    let mut f = setup();
    assert_eq!(f.set_auto_topup_threshold(7, CONTRACT, 1), Err(RentError::NotAdmin));
    assert_eq!(f.set_monthly_rent_estimate(ADMIN, CONTRACT, 0), Err(RentError::NonPositiveEstimate));
    let mut fresh = RentFund::new();
    assert_eq!(fresh.set_monthly_rent_estimate(ADMIN, CONTRACT, 5), Err(RentError::NotInitialized));
}
