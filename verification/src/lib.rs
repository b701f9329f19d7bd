//! Verified core of the mentoring-platform contracts: scoring, accounting
//! and state-transition logic, kept free of the ledger host so that every
//! rule can be checked.
use vstd::prelude::*;

pub mod common;
pub mod account_security;
pub mod admin;
pub mod algorithm_transparency;
pub mod assessment_authenticity;
pub mod atomic_state;
pub mod assessment_security;
pub mod attack_detection;
pub mod availability_pricing;
pub mod benchmark_integrity;
pub mod bft_consensus;
pub mod cartel_detection;
pub mod certification_integrity;
pub mod community_protection;
pub mod content_authentication;
pub mod competency_validation;
pub mod multisig_admin;
pub mod onboarding_escrow;
pub mod oracle;
pub mod oracle_consumer;
pub mod pause_guardian;
pub mod payment_router;
pub mod reconciliation;
pub mod referral;
pub mod rent_fund;
pub mod session_oracle;
pub mod session_registry;

verus! {

} // verus!
