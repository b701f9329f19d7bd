use mentorminds::common::Hash32;
use mentorminds::payment_router::{
    PaymentRouter, RouterError, CHAIN_BSC, CHAIN_ETHEREUM, CHAIN_STELLAR,
};

const ROUTER: u64 = 500;
const ADMIN: u64 = 1;
const ESCROW: u64 = 2;
const BRIDGE: u64 = 3;
const TOKEN: u64 = 4;
const LEARNER: u64 = 5;
const MENTOR: u64 = 6;

fn hash(b: u64) -> Hash32 {
    Hash32 { w0: b, w1: b, w2: b, w3: b }
}

fn setup() -> PaymentRouter {
    let mut r = PaymentRouter::new(ROUTER);
    r.init(ADMIN, ESCROW, BRIDGE).unwrap();
    r
}

fn integration() -> PaymentRouter {
    let mut r = setup();
    r.set_approved_token(ADMIN, TOKEN, true).unwrap();
    r
}

/// Route a payment the way the contract does: the router's checks, the
/// outside answers (bridge verification, no oracle, the learner's balance),
/// then the escrow (numbered from the route count) and the stored route.
fn route(
    r: &mut PaymentRouter,
    chain: u32,
    tx: Hash32,
    amount: i128,
    token: u64,
    bridge_verified: bool,
    learner_balance: i128,
) -> Result<u64, RouterError> {
    let plan = r.plan_route(chain, tx, LEARNER, MENTOR, amount, token, bridge_verified)?;
    r.settle_route_checks(plan, false, learner_balance)?;
    let escrow_id = r.get_route_count() + 1;
    Ok(r.record_route(plan, escrow_id, 1_000))
}

#[test]
fn test_init() {
    let r = setup();
    let config = r.get_config().unwrap();
    assert_eq!(config.admin, ADMIN);
    assert_eq!(config.escrow_contract, ESCROW);
    assert_eq!(config.bridge_receiver, BRIDGE);
    let chains = r.get_supported_chains();
    assert_eq!(chains.len(), 4);
    assert_eq!(chains[0], CHAIN_STELLAR);
    assert_eq!(chains[1], CHAIN_ETHEREUM);
}

#[test]
#[should_panic(expected = "Already initialized")]
fn test_double_init() {
    let mut r = setup();
    r.init(ADMIN, ESCROW, BRIDGE).expect("Already initialized");
}

#[test]
fn test_add_supported_chain() {
    let mut r = setup();
    r.add_supported_chain(ADMIN, 23).unwrap();
    assert_eq!(r.get_supported_chains().len(), 5);
}

#[test]
#[should_panic(expected = "Chain already supported")]
fn test_add_duplicate_chain() {
    let mut r = setup();
    r.add_supported_chain(ADMIN, CHAIN_ETHEREUM).expect("Chain already supported");
}

#[test]
fn test_remove_supported_chain() {
    let mut r = setup();
    r.remove_supported_chain(ADMIN, CHAIN_BSC).unwrap();
    let chains = r.get_supported_chains();
    assert_eq!(chains.len(), 3);
    assert!(!chains.iter().any(|c| *c == CHAIN_BSC));
}

#[test]
#[should_panic(expected = "Cannot remove Stellar native chain")]
fn test_remove_stellar_chain() {
    let mut r = setup();
    r.remove_supported_chain(ADMIN, CHAIN_STELLAR).expect("Cannot remove Stellar native chain");
}

#[test]
fn test_is_tx_processed_not_found() {
    let r = setup();
    assert!(!r.is_tx_processed(hash(0)));
}

#[test]
#[should_panic(expected = "Source chain not supported")]
fn test_route_payment_unsupported_chain() {
    let mut r = setup();
    r.set_approved_token(ADMIN, TOKEN, true).unwrap();
    route(&mut r, 99, hash(1), 1000, TOKEN, true, 1000).expect("Source chain not supported");
}

#[test]
#[should_panic(expected = "Amount must be positive")]
fn test_route_payment_zero_amount() {
    let mut r = setup();
    r.set_approved_token(ADMIN, TOKEN, true).unwrap();
    route(&mut r, CHAIN_STELLAR, hash(1), 0, TOKEN, true, 0).expect("Amount must be positive");
}

#[test]
fn test_set_escrow_contract() {
    let mut r = setup();
    let new_escrow = 70;
    let timelock = 71;
    r.set_timelock(ADMIN, timelock).unwrap();
    r.set_escrow_contract(timelock, new_escrow).unwrap();
    assert_eq!(r.get_config().unwrap().escrow_contract, new_escrow);
}

#[test]
fn test_set_bridge_receiver() {
    let mut r = setup();
    let new_bridge = 72;
    let timelock = 71;
    r.set_timelock(ADMIN, timelock).unwrap();
    r.set_bridge_receiver(timelock, new_bridge).unwrap();
    assert_eq!(r.get_config().unwrap().bridge_receiver, new_bridge);
}

#[test]
fn test_get_route_count_initial() {
    let r = setup();
    assert_eq!(r.get_route_count(), 0);
}

#[test]
fn test_token_whitelist_toggle() {
    let mut r = setup();
    let token = 80;
    assert!(!r.is_token_approved(token));
    r.set_approved_token(ADMIN, token, true).unwrap();
    assert!(r.is_token_approved(token));
    r.set_approved_token(ADMIN, token, false).unwrap();
    assert!(!r.is_token_approved(token));
}

#[test]
#[should_panic(expected = "Token not approved for routing")]
fn test_route_payment_unapproved_token() {
    let mut r = integration();
    let malicious_token = 81;
    route(&mut r, CHAIN_STELLAR, hash(1), 1000, malicious_token, true, 1000).expect("Token not approved for routing");
}

#[test]
#[should_panic(expected = "Token not approved for routing")]
fn test_route_payment_revoked_token() {
    let mut r = integration();
    r.set_approved_token(ADMIN, TOKEN, false).unwrap();
    route(&mut r, CHAIN_STELLAR, hash(1), 1000, TOKEN, true, 1000).expect("Token not approved for routing");
}

#[test]
fn test_unknown_token_not_approved() {
    let r = setup();
    for t in 90..95u64 {
        assert!(!r.is_token_approved(t), "unknown tokens must default to not-approved");
    }
}

#[test]
fn test_stellar_direct_payment() {
    let mut r = integration();
    let amount = 1000i128;
    let tx = hash(1);
    let escrow_id = route(&mut r, CHAIN_STELLAR, tx, amount, TOKEN, true, amount).unwrap();
    assert_eq!(escrow_id, 1);
    assert_eq!(r.get_route(tx).unwrap(), escrow_id);
    assert!(r.is_tx_processed(tx));
    assert_eq!(r.get_route_count(), 1);
    let details = r.get_route_details(tx).unwrap();
    assert_eq!(details.source_chain, CHAIN_STELLAR);
    assert_eq!(details.learner, LEARNER);
    assert_eq!(details.mentor, MENTOR);
    assert_eq!(details.amount, amount);
}

#[test]
fn test_bridged_eth_payment() {
    let mut r = integration();
    let tx = hash(2);
    let amount = 5000i128;
    let escrow_id = route(&mut r, CHAIN_ETHEREUM, tx, amount, TOKEN, true, 0).unwrap();
    assert_eq!(escrow_id, 1);
    let details = r.get_route_details(tx).unwrap();
    assert_eq!(details.source_chain, CHAIN_ETHEREUM);
    assert_eq!(details.amount, amount);
    assert!(r.is_tx_processed(tx));
}

#[test]
#[should_panic(expected = "Transaction already routed")]
fn test_duplicate_routing_prevention() {
    let mut r = integration();
    let tx = hash(3);
    let id1 = route(&mut r, CHAIN_STELLAR, tx, 1000, TOKEN, true, 1000).unwrap();
    assert_eq!(id1, 1);
    route(&mut r, CHAIN_STELLAR, tx, 1000, TOKEN, true, 1000).expect("Transaction already routed");
}

#[test]
fn test_multiple_routes_different_ids() {
    let mut r = integration();
    let tx1 = hash(1);
    let id1 = route(&mut r, CHAIN_STELLAR, tx1, 1000, TOKEN, true, 3000).unwrap();
    let tx2 = hash(2);
    let id2 = route(&mut r, CHAIN_STELLAR, tx2, 2000, TOKEN, true, 2000).unwrap();
    assert_ne!(id1, id2);
    assert_eq!(id1, 1);
    assert_eq!(id2, 2);
    assert_eq!(r.get_route_count(), 2);
    assert_eq!(r.get_route(tx1).unwrap(), id1);
    assert_eq!(r.get_route(tx2).unwrap(), id2);
}

#[test]
fn test_bridged_payments_different_chains() {
    let mut r = integration();
    let tx_eth = hash(10);
    let id_eth = route(&mut r, CHAIN_ETHEREUM, tx_eth, 3000, TOKEN, true, 0).unwrap();
    let tx_bsc = hash(20);
    let id_bsc = route(&mut r, CHAIN_BSC, tx_bsc, 4000, TOKEN, true, 0).unwrap();
    assert_ne!(id_eth, id_bsc);
    assert_eq!(r.get_route_details(tx_eth).unwrap().source_chain, CHAIN_ETHEREUM);
    assert_eq!(r.get_route_details(tx_bsc).unwrap().source_chain, CHAIN_BSC);
}

#[test]
#[should_panic(expected = "Route not found")]
fn test_get_route_not_found() {
    let r = setup();
    r.get_route(hash(99)).expect("Route not found");
}

#[test]
#[should_panic(expected = "Amount must be positive")]
fn test_route_payment_negative_amount() {
    let mut r = integration();
    route(&mut r, CHAIN_STELLAR, hash(1), -100, TOKEN, true, 0).expect("Amount must be positive");
}

#[test]
#[should_panic(expected = "Bridge transaction not verified")]
fn test_bridged_payment_not_verified() {
    let mut r = integration();
    route(&mut r, CHAIN_ETHEREUM, hash(5), 1000, TOKEN, false, 0).expect("Bridge transaction not verified");
}

#[test]
fn fee_is_split_off_and_sent_to_treasury() {
    let mut r = integration();
    r.set_fee_bps(ADMIN, 250).unwrap();
    assert_eq!(r.calculate_fee(1000), 25);
    let plan = r.plan_route(CHAIN_STELLAR, hash(7), LEARNER, MENTOR, 1000, TOKEN, true).unwrap();
    assert_eq!(plan.fee, 25);
    assert_eq!(plan.net_amount, 975);
    assert_eq!(r.settle_route_checks(plan, false, 1000), Err(RouterError::TreasuryNotSet));
    r.set_treasury(ADMIN, 99).unwrap();
    assert_eq!(r.settle_route_checks(plan, false, 1000), Ok(Some(99)));
    assert_eq!(r.settle_route_checks(plan, false, 999), Err(RouterError::InsufficientBalance));
    assert_eq!(r.settle_route_checks(plan, true, 1000), Err(RouterError::PriceManipulated));
    r.record_route(plan, 1, 5);
    assert_eq!(r.get_route_details(hash(7)).unwrap().amount, 975);
}

#[test]
fn fee_rate_above_full_is_refused() {
    let mut r = setup();
    assert_eq!(r.set_fee_bps(ADMIN, 10_001), Err(RouterError::FeeTooHigh));
    assert_eq!(r.set_fee_bps(7, 100), Err(RouterError::Unauthorized));
    assert_eq!(r.get_fee_bps(), 0);
}

#[test]
fn escrow_change_requires_timelock() {
    let mut r = setup();
    assert_eq!(r.set_escrow_contract(ADMIN, 70), Err(RouterError::TimelockNotSet));
    r.set_timelock(ADMIN, 71).unwrap();
    assert_eq!(r.set_escrow_contract(ADMIN, 70), Err(RouterError::Unauthorized));
}
