use mentorminds::common::Hash32;
use mentorminds::multisig_admin::{Error, MultisigAdminContract, ProposalFunction, EXPIRY_SECONDS};

const CONTRACT: u64 = 1_000;
const SIGNERS: [u64; 5] = [11, 12, 13, 14, 15];

fn code_hash() -> Hash32 {
    Hash32 { w0: 1, w1: 2, w2: 3, w3: 4 }
}

fn setup() -> MultisigAdminContract {
    let mut c = MultisigAdminContract::new(CONTRACT, code_hash());
    c.initialize(&SIGNERS.to_vec(), 3).unwrap();
    c
}

fn propose(c: &mut MultisigAdminContract, target: u64, name: u64) -> u32 {
    c.propose_action(SIGNERS[0], target, ProposalFunction::Named(name), vec![], 0).unwrap()
}

fn sign_n(c: &mut MultisigAdminContract, pid: u32, n: usize) {
    for i in 1..n {
        c.sign_action(SIGNERS[i], pid, 0).unwrap();
    }
}

fn self_proposal(c: &mut MultisigAdminContract, function: ProposalFunction, arg: u64) -> u32 {
    c.propose_action(SIGNERS[0], CONTRACT, function, vec![arg], 0).unwrap()
}

#[test]
fn test_initialize() {
    let s0 = 21;
    let s1 = 22;
    let mut c = MultisigAdminContract::new(CONTRACT, code_hash());
    assert_eq!(c.initialize(&vec![s0], 0), Err(Error::InvalidThreshold));
    assert_eq!(c.initialize(&vec![s0], 2), Err(Error::InvalidThreshold));
    assert_eq!(c.initialize(&vec![s0, s0], 1), Err(Error::AlreadySigner));
    c.initialize(&vec![s0, s1], 1).unwrap();
    assert_eq!(c.get_threshold(), Ok(1));
    assert_eq!(c.get_signer_count(), Ok(2));
    assert_eq!(c.is_signer(s0), Ok(true));
    assert_eq!(c.is_signer(s1), Ok(true));
    assert_eq!(c.initialize(&vec![s0], 1), Err(Error::AlreadyInitialized));
}

#[test]
fn test_propose_action() {
    let mut c = setup();
    let target = 500;
    let outsider = 99;
    assert_eq!(
        c.propose_action(outsider, target, ProposalFunction::Named(7), vec![], 0),
        Err(Error::NotSigner)
    );
    let pid1 = propose(&mut c, target, 7);
    assert_eq!(pid1, 1);
    let pid2 = propose(&mut c, target, 7);
    assert_eq!(pid2, 2);
    let proposal = c.get_proposal(pid1).unwrap();
    assert_eq!(proposal.approval_count, 1);
    assert_eq!(proposal.proposer, SIGNERS[0]);
    assert!(!proposal.executed);
    assert!(!proposal.cancelled);
    assert_eq!(proposal.expiry, EXPIRY_SECONDS);
}

#[test]
fn test_sign_action() {
    let mut c = setup();
    let target = 500;
    let outsider = 99;
    let pid = propose(&mut c, target, 7);
    assert_eq!(c.sign_action(outsider, pid, 0), Err(Error::NotSigner));
    c.sign_action(SIGNERS[1], pid, 0).unwrap();
    assert_eq!(c.get_proposal(pid).unwrap().approval_count, 2);
    assert_eq!(c.sign_action(SIGNERS[1], pid, 0), Err(Error::AlreadySigned));
    assert_eq!(c.sign_action(SIGNERS[2], pid, EXPIRY_SECONDS + 1), Err(Error::Expired));
}

#[test]
fn test_execute_below_threshold() {
    let mut c = setup();
    let pid = propose(&mut c, 500, 7);
    assert!(matches!(c.execute_action(pid, 0), Err(Error::BelowThreshold)));
    c.sign_action(SIGNERS[1], pid, 0).unwrap();
    assert!(matches!(c.execute_action(pid, 0), Err(Error::BelowThreshold)));
}

#[test]
fn test_signer_management_via_proposal() {
    let mut c = setup();
    let new_signer = 77;
    let pid_add = self_proposal(&mut c, ProposalFunction::AddSigner, new_signer);
    sign_n(&mut c, pid_add, 3);
    c.execute_action(pid_add, 0).unwrap();
    assert_eq!(c.get_signer_count(), Ok(6));
    assert_eq!(c.is_signer(new_signer), Ok(true));

    let pid_rem = self_proposal(&mut c, ProposalFunction::RemoveSigner, new_signer);
    sign_n(&mut c, pid_rem, 3);
    c.execute_action(pid_rem, 0).unwrap();
    assert_eq!(c.get_signer_count(), Ok(5));
    assert_eq!(c.is_signer(new_signer), Ok(false));

    let pid_r1 = self_proposal(&mut c, ProposalFunction::RemoveSigner, SIGNERS[3]);
    sign_n(&mut c, pid_r1, 3);
    c.execute_action(pid_r1, 0).unwrap();

    let pid_r2 = self_proposal(&mut c, ProposalFunction::RemoveSigner, SIGNERS[4]);
    sign_n(&mut c, pid_r2, 3);
    c.execute_action(pid_r2, 0).unwrap();

    let pid_r3 = self_proposal(&mut c, ProposalFunction::RemoveSigner, SIGNERS[2]);
    sign_n(&mut c, pid_r3, 3);
    assert!(matches!(c.execute_action(pid_r3, 0), Err(Error::InvalidThreshold)));
}

#[test]
fn test_update_threshold_via_proposal() {
    let mut c = setup();
    let pid = self_proposal(&mut c, ProposalFunction::UpdateThreshold, 2);
    sign_n(&mut c, pid, 3);
    c.execute_action(pid, 0).unwrap();
    assert_eq!(c.get_threshold(), Ok(2));

    let pid2 = self_proposal(&mut c, ProposalFunction::UpdateThreshold, 5);
    c.sign_action(SIGNERS[1], pid2, 0).unwrap();
    c.execute_action(pid2, 0).unwrap();
    assert_eq!(c.get_threshold(), Ok(5));

    let pid3 = self_proposal(&mut c, ProposalFunction::UpdateThreshold, 6);
    for i in 1..5 {
        c.sign_action(SIGNERS[i], pid3, 0).unwrap();
    }
    assert!(matches!(c.execute_action(pid3, 0), Err(Error::InvalidThreshold)));
}

#[test]
fn test_cancel_action() {
    let mut c = setup();
    let outsider = 99;
    let pid = propose(&mut c, 500, 7);
    assert_eq!(c.cancel_action(outsider, pid, 0), Err(Error::NotSigner));
    c.cancel_action(SIGNERS[1], pid, 0).unwrap();
    assert!(c.get_proposal(pid).unwrap().cancelled);
    assert_eq!(c.cancel_action(SIGNERS[0], pid, 0), Err(Error::Cancelled));
}

#[test]
fn test_three_of_five_threshold() {
    let mut c = setup();
    assert_eq!(c.get_threshold(), Ok(3));
    assert_eq!(c.get_signer_count(), Ok(5));
    let pid = propose(&mut c, 500, 8);
    assert!(matches!(c.execute_action(pid, 0), Err(Error::BelowThreshold)));
    c.sign_action(SIGNERS[1], pid, 0).unwrap();
    assert!(matches!(c.execute_action(pid, 0), Err(Error::BelowThreshold)));
    c.sign_action(SIGNERS[2], pid, 0).unwrap();
    let result = c.execute_action(pid, 0);
    assert!(!matches!(result, Err(Error::BelowThreshold)));
}

#[test]
fn external_proposal_hands_back_its_call_once() {
    let mut c = setup();
    let pid = c.propose_action(SIGNERS[0], 500, ProposalFunction::Named(9), vec![4, 5], 0).unwrap();
    sign_n(&mut c, pid, 3);
    let call = c.execute_action(pid, 10).unwrap().unwrap();
    assert_eq!(call.target, 500);
    assert_eq!(call.function, ProposalFunction::Named(9));
    assert_eq!(call.args, vec![4, 5]);
    assert!(c.get_proposal(pid).unwrap().executed);
    assert!(matches!(c.execute_action(pid, 10), Err(Error::AlreadyExecuted)));
}

#[test]
fn expired_proposal_cannot_execute() {
    let mut c = setup();
    let pid = propose(&mut c, 500, 7);
    sign_n(&mut c, pid, 3);
    assert!(matches!(c.execute_action(pid, EXPIRY_SECONDS + 1), Err(Error::Expired)));
}

#[test]
fn unknown_proposal_not_found() {
    let mut c = setup();
    assert!(matches!(c.get_proposal(42), Err(Error::ProposalNotFound)));
    assert!(matches!(c.execute_action(42, 0), Err(Error::ProposalNotFound)));
}

#[test]
fn queries_before_initialize_fail() {
    let c = MultisigAdminContract::new(CONTRACT, code_hash());
    assert_eq!(c.get_threshold(), Err(Error::NotInitialized));
    assert_eq!(c.get_signer_count(), Err(Error::NotInitialized));
}

const EMERGENCY: [u64; 7] = [31, 32, 33, 34, 35, 36, 37];

#[test]
fn snapshots_keep_the_last_three() {
    let mut c = setup();
    for id in 1..=4u32 {
        c.snapshot_state(SIGNERS[0], id, 100 + id as u64, 7, code_hash()).unwrap();
    }
    assert_eq!(c.get_gov_snapshot_index(), vec![2, 3, 4]);
    assert!(c.get_gov_snapshot_meta(1).is_none());
    let meta = c.get_gov_snapshot_meta(4).unwrap();
    assert_eq!(meta.created_at, 104);
    assert_eq!(meta.record_count, 5);
    assert_eq!(meta.snapshot_index, 2);
    assert_eq!(c.snapshot_state(99, 9, 0, 0, code_hash()), Err(Error::NotSigner));
}

#[test]
fn post_upgrade_verification_reports_mismatches() {
    let mut c = setup();
    c.snapshot_state(SIGNERS[0], 1, 0, 0, code_hash()).unwrap();
    assert!(c.verify_post_upgrade_state(1).unwrap().mismatches.is_empty());
    let pid = self_proposal(&mut c, ProposalFunction::UpdateThreshold, 2);
    sign_n(&mut c, pid, 3);
    c.execute_action(pid, 0).unwrap();
    let report = c.verify_post_upgrade_state(1).unwrap();
    assert_eq!(report.fields_checked, 3);
    assert_eq!(report.mismatches.len(), 2);
    assert!(c.verify_post_upgrade_state(9).is_err());
}

#[test]
fn emergency_rollback_needs_four_of_seven() {
    let mut c = setup();
    c.set_emergency_signers(SIGNERS[0], EMERGENCY.to_vec()).unwrap();
    c.snapshot_state(SIGNERS[0], 1, 0, 0, code_hash()).unwrap();
    let pid = self_proposal(&mut c, ProposalFunction::UpdateThreshold, 2);
    sign_n(&mut c, pid, 3);
    c.execute_action(pid, 0).unwrap();
    assert_eq!(c.get_threshold(), Ok(2));

    let old_code = Hash32 { w0: 9, w1: 9, w2: 9, w3: 9 };
    let rid = c.propose_emergency_rollback(EMERGENCY[0], 1, old_code, 10).unwrap();
    assert_eq!(c.approve_emergency_rollback(EMERGENCY[0], rid), Err(Error::AlreadySigned));
    assert_eq!(c.approve_emergency_rollback(SIGNERS[0], rid), Err(Error::NotSigner));
    c.approve_emergency_rollback(EMERGENCY[1], rid).unwrap();
    c.approve_emergency_rollback(EMERGENCY[2], rid).unwrap();
    assert_eq!(c.execute_emergency_rollback(rid), Err(Error::BelowThreshold));
    c.approve_emergency_rollback(EMERGENCY[3], rid).unwrap();
    c.execute_emergency_rollback(rid).unwrap();
    assert_eq!(c.get_threshold(), Ok(3));
    assert_eq!(c.wasm_hash, old_code);
    assert_eq!(c.execute_emergency_rollback(rid), Err(Error::AlreadyExecuted));
}

#[test]
fn emergency_signer_set_must_be_seven_distinct() {
    let mut c = setup();
    assert_eq!(c.set_emergency_signers(SIGNERS[0], EMERGENCY[..6].to_vec()), Err(Error::InvalidThreshold));
    let mut dup = EMERGENCY.to_vec();
    dup[6] = dup[0];
    assert_eq!(c.set_emergency_signers(SIGNERS[0], dup), Err(Error::InvalidThreshold));
    assert_eq!(c.set_emergency_signers(99, EMERGENCY.to_vec()), Err(Error::NotSigner));
    c.set_emergency_signers(SIGNERS[0], EMERGENCY.to_vec()).unwrap();
    assert_eq!(c.validate_emergency_signatures(&EMERGENCY[..4].to_vec()), Ok(true));
    assert_eq!(c.validate_emergency_signatures(&EMERGENCY[..3].to_vec()), Err(Error::InvalidEmergencySignatures));
}
