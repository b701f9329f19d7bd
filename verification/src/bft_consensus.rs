//! Simplified practical Byzantine fault tolerant (pBFT) consensus rounds,
//! quorum certificates, view changes and proposer rotation. The protocol
//! tolerates up to `f = floor(n / 3)` malicious validators.
use vstd::prelude::*;

use crate::common::{AccountId, Hash32};

verus! {

/// Consensus round phases.
#[derive(Clone, Copy, Debug, PartialEq, Eq, Structural)]
pub enum ConsensusPhase {
    Idle,
    PrePrepare,
    Prepare,
    Commit,
    Finalized,
    Failed,
}

/// A single consensus round.
#[derive(Clone, Copy, Debug, PartialEq, Eq, Structural)]
pub struct ConsensusRound {
    pub round: u64,
    pub phase: ConsensusPhase,
    pub block_hash: Hash32,
    pub proposer: AccountId,
    pub epoch: u64,
    pub started_at: u64,
    pub prepare_count: u32,
    pub commit_count: u32,
    pub quorum_threshold: u32,
    pub view_change_requested: bool,
}

/// Proof that a quorum of validators agreed on a block.
#[derive(Clone, Debug, PartialEq, Eq)]
pub struct QuorumCertificate {
    pub block_hash: Hash32,
    pub round: u64,
    pub signers: Vec<AccountId>,
    pub signature_count: u32,
    pub quorum_threshold: u32,
    pub created_at: u64,
}

/// Reasons for a view change.
#[derive(Clone, Copy, Debug, PartialEq, Eq, Structural)]
pub enum ViewChangeReason {
    LeaderTimeout,
    InvalidProposal,
    NetworkPartition,
    ByzantineBehavior,
}

/// View change message for leader rotation.
#[derive(Clone, Copy, Debug, PartialEq, Eq, Structural)]
pub struct ViewChange {
    pub new_view: u64,
    pub validator: AccountId,
    pub last_block_hash: Hash32,
    pub requested_at: u64,
    pub reason: ViewChangeReason,
}

/// Validator status within a consensus round.
#[derive(Clone, Copy, Debug, PartialEq, Eq, Structural)]
pub enum ValidatorVote {
    NoVote,
    Prepare,
    Commit,
}

#[derive(Clone, Copy, Debug, PartialEq, Eq, Structural)]
pub enum ConsensusError {
    NotValidator,
    AlreadyFinalized,
    InvalidPhase,
    QuorumNotMet,
    DoubleVote,
    HashMismatch,
    RoundExpired,
    InsufficientSigners,
    InvalidProposer,
}

/// Maximum duration of a consensus round before view change (30 seconds).
pub const ROUND_TIMEOUT_SECS: u64 = 30;

/// Maximum consecutive timeouts before validator ejection.
pub const MAX_TIMEOUTS_BEFORE_EJECT: u32 = 3;

pub open spec fn view_change_quorum_spec(validator_count: u32) -> u32 {
    (validator_count / 3 + 1) as u32
}

/// View change quorum: `f + 1` validators with `f = floor(n / 3)`.
pub fn view_change_quorum(validator_count: u32) -> (r: u32)
    ensures
        r == view_change_quorum_spec(validator_count),
        r > validator_count / 3,
{
    let f = validator_count / 3;
    f + 1
}

/// Create a new consensus round started at `now`.
pub fn start_round(
    now: u64,
    round: u64,
    block_hash: Hash32,
    proposer: AccountId,
    epoch: u64,
    quorum_threshold: u32,
) -> (r: ConsensusRound)
    ensures
        r == (ConsensusRound {
            round,
            phase: ConsensusPhase::PrePrepare,
            block_hash,
            proposer,
            epoch,
            started_at: now,
            prepare_count: 0,
            commit_count: 0,
            quorum_threshold,
            view_change_requested: false,
        }),
{
    ConsensusRound {
        round,
        phase: ConsensusPhase::PrePrepare,
        block_hash,
        proposer,
        epoch,
        started_at: now,
        prepare_count: 0,
        commit_count: 0,
        quorum_threshold,
        view_change_requested: false,
    }
}

pub open spec fn round_expired_spec(round: ConsensusRound, now: u64) -> bool {
    now >= round.started_at.saturating_add(ROUND_TIMEOUT_SECS)
}

/// Whether a round has timed out at `now`.
pub fn is_round_expired(now: u64, round: &ConsensusRound) -> (r: bool)
    ensures
        r == round_expired_spec(*round, now),
{
    now >= round.started_at.saturating_add(ROUND_TIMEOUT_SECS)
}

/// Cast a prepare vote: accepted only in the pre-prepare phase, for the
/// round's block and before expiry; reaching the quorum moves the round to
/// the prepare phase. A rejected vote leaves the round unchanged.
pub fn cast_prepare(now: u64, round: &mut ConsensusRound, voter: AccountId, block_hash: &Hash32) -> (r: Result<(), ConsensusError>)
    ensures
        old(round).phase != ConsensusPhase::PrePrepare ==> r == Err::<(), ConsensusError>(ConsensusError::InvalidPhase),
        old(round).phase == ConsensusPhase::PrePrepare && old(round).block_hash != block_hash ==> r == Err::<(), ConsensusError>(
            ConsensusError::HashMismatch,
        ),
        old(round).phase == ConsensusPhase::PrePrepare && old(round).block_hash == block_hash && round_expired_spec(*old(round), now)
            ==> r == Err::<(), ConsensusError>(ConsensusError::RoundExpired),
        r is Err ==> *final(round) == *old(round),
        r is Ok <==> (old(round).phase == ConsensusPhase::PrePrepare && old(round).block_hash == block_hash
            && !round_expired_spec(*old(round), now)),
        r is Ok ==> *final(round) == (ConsensusRound {
            prepare_count: old(round).prepare_count.saturating_add(1),
            phase: if old(round).prepare_count.saturating_add(1) >= old(round).quorum_threshold {
                ConsensusPhase::Prepare
            } else {
                ConsensusPhase::PrePrepare
            },
            ..*old(round)
        }),
{
    if round.phase != ConsensusPhase::PrePrepare {
        return Err(ConsensusError::InvalidPhase);
    }
    if round.block_hash != *block_hash {
        return Err(ConsensusError::HashMismatch);
    }
    if is_round_expired(now, round) {
        return Err(ConsensusError::RoundExpired);
    }
    round.prepare_count = round.prepare_count.saturating_add(1);
    if round.prepare_count >= round.quorum_threshold {
        round.phase = ConsensusPhase::Prepare;
    }
    Ok(())
}

/// Cast a commit vote: accepted only in the prepare phase, for the round's
/// block and before expiry; reaching the quorum moves the round to the
/// commit phase. A rejected vote leaves the round unchanged.
pub fn cast_commit(now: u64, round: &mut ConsensusRound, voter: AccountId, block_hash: &Hash32) -> (r: Result<(), ConsensusError>)
    ensures
        old(round).phase != ConsensusPhase::Prepare ==> r == Err::<(), ConsensusError>(ConsensusError::InvalidPhase),
        old(round).phase == ConsensusPhase::Prepare && old(round).block_hash != block_hash ==> r == Err::<(), ConsensusError>(
            ConsensusError::HashMismatch,
        ),
        old(round).phase == ConsensusPhase::Prepare && old(round).block_hash == block_hash && round_expired_spec(*old(round), now)
            ==> r == Err::<(), ConsensusError>(ConsensusError::RoundExpired),
        r is Err ==> *final(round) == *old(round),
        r is Ok <==> (old(round).phase == ConsensusPhase::Prepare && old(round).block_hash == block_hash
            && !round_expired_spec(*old(round), now)),
        r is Ok ==> *final(round) == (ConsensusRound {
            commit_count: old(round).commit_count.saturating_add(1),
            phase: if old(round).commit_count.saturating_add(1) >= old(round).quorum_threshold {
                ConsensusPhase::Commit
            } else {
                ConsensusPhase::Prepare
            },
            ..*old(round)
        }),
{
    if round.phase != ConsensusPhase::Prepare {
        return Err(ConsensusError::InvalidPhase);
    }
    if round.block_hash != *block_hash {
        return Err(ConsensusError::HashMismatch);
    }
    if is_round_expired(now, round) {
        return Err(ConsensusError::RoundExpired);
    }
    round.commit_count = round.commit_count.saturating_add(1);
    if round.commit_count >= round.quorum_threshold {
        round.phase = ConsensusPhase::Commit;
    }
    Ok(())
}

/// Finalize a round that reached the commit phase with a commit quorum and
/// issue its quorum certificate at `now`.
pub fn finalize_round(now: u64, round: &mut ConsensusRound, signers: Vec<AccountId>) -> (r: Result<QuorumCertificate, ConsensusError>)
    ensures
        old(round).phase != ConsensusPhase::Commit ==> r == Err::<QuorumCertificate, ConsensusError>(ConsensusError::InvalidPhase),
        old(round).phase == ConsensusPhase::Commit && old(round).commit_count < old(round).quorum_threshold ==> r == Err::<
            QuorumCertificate,
            ConsensusError,
        >(ConsensusError::QuorumNotMet),
        r is Err ==> *final(round) == *old(round),
        r is Ok <==> (old(round).phase == ConsensusPhase::Commit && old(round).commit_count >= old(round).quorum_threshold),
        r matches Ok(qc) ==> {
            &&& *final(round) == (ConsensusRound { phase: ConsensusPhase::Finalized, ..*old(round) })
            &&& qc.block_hash == old(round).block_hash
            &&& qc.round == old(round).round
            &&& qc.signers@ == signers@
            &&& qc.signature_count == old(round).commit_count
            &&& qc.quorum_threshold == old(round).quorum_threshold
            &&& qc.created_at == now
            &&& qc.signature_count >= qc.quorum_threshold
        },
{
    if round.phase != ConsensusPhase::Commit {
        return Err(ConsensusError::InvalidPhase);
    }
    if round.commit_count < round.quorum_threshold {
        return Err(ConsensusError::QuorumNotMet);
    }
    round.phase = ConsensusPhase::Finalized;
    Ok(QuorumCertificate {
        block_hash: round.block_hash,
        round: round.round,
        signers,
        signature_count: round.commit_count,
        quorum_threshold: round.quorum_threshold,
        created_at: now,
    })
}

/// Mark a round as failed and request a view change.
pub fn fail_round(round: &mut ConsensusRound)
    ensures
        *final(round) == (ConsensusRound {
            phase: ConsensusPhase::Failed,
            view_change_requested: true,
            ..*old(round)
        }),
{
    round.phase = ConsensusPhase::Failed;
    round.view_change_requested = true;
}

/// Number of positions `i < n` whose element does not occur before `i`.
pub open spec fn unique_prefix_count(s: Seq<AccountId>, n: int) -> nat
    decreases n,
{
    if n <= 0 {
        0
    } else {
        let prev = unique_prefix_count(s, n - 1);
        if s.take(n - 1).contains(s[n - 1]) { prev } else { prev + 1 }
    }
}

/// The number of distinct signers equals the number of signers exactly
/// when no signer occurs twice.
pub proof fn lemma_unique_count_full(s: Seq<AccountId>, n: int)
    requires
        0 <= n <= s.len(),
    ensures
        unique_prefix_count(s, n) <= n,
        unique_prefix_count(s, n) == n <==> s.take(n).no_duplicates(),
    decreases n,
{
    if n > 0 {
        lemma_unique_count_full(s, n - 1);
        let t = s.take(n);
        let p = s.take(n - 1);
        assert(t.drop_last() =~= p);
        assert(t.last() == s[n - 1]);
        if p.contains(s[n - 1]) {
            let k = choose|k: int| 0 <= k < p.len() && p[k] == s[n - 1];
            assert(t[k] == t[n - 1]);
        } else {
            if p.no_duplicates() {
                assert forall|i: int, j: int| 0 <= i < t.len() && 0 <= j < t.len() && i != j implies t[i] != t[j] by {
                    if i == n - 1 {
                        assert(p[j] == t[j]);
                    } else if j == n - 1 {
                        assert(p[i] == t[i]);
                    } else {
                        assert(p[i] == t[i] && p[j] == t[j]);
                    }
                }
            }
            if t.no_duplicates() {
                assert forall|i: int, j: int| 0 <= i < p.len() && 0 <= j < p.len() && i != j implies p[i] != p[j] by {
                    assert(p[i] == t[i] && p[j] == t[j]);
                }
            }
        }
    }
}

/// Count unique signers in a certificate (first occurrences).
fn count_unique_signers(signers: &Vec<AccountId>) -> (r: u32)
    requires
        signers@.len() <= u32::MAX,
    ensures
        r == unique_prefix_count(signers@, signers@.len() as int),
{
    let mut count: u32 = 0;
    let mut i: usize = 0;
    while i < signers.len()
        invariant
            0 <= i <= signers@.len(),
            signers@.len() <= u32::MAX,
            count == unique_prefix_count(signers@, i as int),
        decreases signers@.len() - i,
    {
        proof {
            lemma_unique_count_full(signers@, i as int);
        }
        let signer = signers[i];
        let mut is_unique = true;
        let mut j: usize = 0;
        while j < i
            invariant
                0 <= j <= i < signers@.len(),
                signer == signers@[i as int],
                is_unique == !signers@.take(j as int).contains(signer),
            decreases i - j,
        {
            proof {
                let t1 = signers@.take(j as int + 1);
                let t0 = signers@.take(j as int);
                if t0.contains(signer) {
                    let k = choose|k: int| 0 <= k < t0.len() && t0[k] == signer;
                    assert(t1[k] == signer);
                }
                if signers@[j as int] == signer {
                    assert(t1[j as int] == signer);
                }
                if t1.contains(signer) && signers@[j as int] != signer {
                    let k = choose|k: int| 0 <= k < t1.len() && t1[k] == signer;
                    assert(t0[k] == signer);
                }
            }
            if signers[j] == signer {
                is_unique = false;
            }
            j = j + 1;
        }
        if is_unique {
            count = count + 1;
        }
        i = i + 1;
    }
    count
}

pub open spec fn qc_valid_spec(qc: QuorumCertificate, expected_hash: Hash32, expected_round: u64) -> bool {
    &&& qc.block_hash == expected_hash
    &&& qc.round == expected_round
    &&& qc.signature_count >= qc.quorum_threshold
    &&& qc.signers@.no_duplicates()
}

/// A certificate is valid when it names the expected block and round, meets
/// its quorum and lists no signer twice.
pub fn verify_quorum_certificate(qc: &QuorumCertificate, expected_block_hash: &Hash32, expected_round: u64) -> (r: bool)
    requires
        qc.signers@.len() <= u32::MAX,
    ensures
        r == qc_valid_spec(*qc, *expected_block_hash, expected_round),
{
    if qc.block_hash != *expected_block_hash {
        return false;
    }
    if qc.round != expected_round {
        return false;
    }
    if qc.signature_count < qc.quorum_threshold {
        return false;
    }
    let signer_count = qc.signers.len() as u32;
    let unique_count = count_unique_signers(&qc.signers);
    proof {
        lemma_unique_count_full(qc.signers@, qc.signers@.len() as int);
        assert(qc.signers@.take(qc.signers@.len() as int) =~= qc.signers@);
    }
    signer_count == unique_count
}

/// Create a view change request at `now`.
pub fn create_view_change(
    now: u64,
    new_view: u64,
    validator: AccountId,
    last_block_hash: Hash32,
    reason: ViewChangeReason,
) -> (r: ViewChange)
    ensures
        r == (ViewChange { new_view, validator, last_block_hash, requested_at: now, reason }),
{
    ViewChange { new_view, validator, last_block_hash, requested_at: now, reason }
}

/// Whether enough view changes were received to rotate the leader.
pub fn has_view_change_quorum(view_change_count: u32, validator_count: u32) -> (r: bool)
    ensures
        r == (view_change_count >= view_change_quorum_spec(validator_count)),
{
    view_change_count >= view_change_quorum(validator_count)
}

/// The proposer of `round`: `validators[round % n]`, none for an empty set.
pub fn select_proposer(validators: &Vec<AccountId>, round: u64) -> (r: Option<AccountId>)
    ensures
        validators@.len() == 0 ==> r is None,
        validators@.len() > 0 ==> r == Some(validators@[(round as int % validators@.len() as int)]),
{
    if validators.len() == 0 {
        return None;
    }
    let n = validators.len() as u64;
    let idx = (round % n) as usize;
    Some(validators[idx])
}

/// Whether `proposer` is the expected proposer of `round`.
pub fn is_valid_proposer(validators: &Vec<AccountId>, round: u64, proposer: AccountId) -> (r: bool)
    ensures
        r == (validators@.len() > 0 && validators@[(round as int % validators@.len() as int)] == proposer),
{
    match select_proposer(validators, round) {
        Some(expected) => expected == proposer,
        None => false,
    }
}

/// Full consensus state of the protocol.
#[derive(Clone, Debug, PartialEq, Eq)]
pub struct ConsensusState {
    pub current_epoch: u64,
    pub current_round: u64,
    pub current_phase: ConsensusPhase,
    pub active_round: Option<ConsensusRound>,
    pub last_qc: Option<QuorumCertificate>,
    pub consecutive_timeouts: u32,
    pub emergency_mode: bool,
}

/// A fresh consensus state for `epoch`.
pub fn init_consensus_state(epoch: u64) -> (r: ConsensusState)
    ensures
        r.current_epoch == epoch,
        r.current_round == 0,
        r.current_phase == ConsensusPhase::Idle,
        r.active_round is None,
        r.last_qc is None,
        r.consecutive_timeouts == 0,
        !r.emergency_mode,
{
    ConsensusState {
        current_epoch: epoch,
        current_round: 0,
        current_phase: ConsensusPhase::Idle,
        active_round: None,
        last_qc: None,
        consecutive_timeouts: 0,
        emergency_mode: false,
    }
}

/// Start the next round (round numbers saturate) in the pre-prepare phase.
pub fn start_new_round(
    state: &mut ConsensusState,
    now: u64,
    block_hash: Hash32,
    proposer: AccountId,
    quorum_threshold: u32,
)
    ensures
        final(state).current_round == old(state).current_round.saturating_add(1),
        final(state).current_phase == ConsensusPhase::PrePrepare,
        final(state).active_round == Some(ConsensusRound {
            round: old(state).current_round.saturating_add(1),
            phase: ConsensusPhase::PrePrepare,
            block_hash,
            proposer,
            epoch: old(state).current_epoch,
            started_at: now,
            prepare_count: 0,
            commit_count: 0,
            quorum_threshold,
            view_change_requested: false,
        }),
        final(state).current_epoch == old(state).current_epoch,
        final(state).last_qc == old(state).last_qc,
        final(state).consecutive_timeouts == old(state).consecutive_timeouts,
        final(state).emergency_mode == old(state).emergency_mode,
{
    state.current_round = state.current_round.saturating_add(1);
    state.current_phase = ConsensusPhase::PrePrepare;
    state.active_round = Some(
        start_round(now, state.current_round, block_hash, proposer, state.current_epoch, quorum_threshold),
    );
}

/// Count a round timeout; returns whether the proposer should be ejected.
pub fn handle_round_timeout(state: &mut ConsensusState) -> (r: bool)
    ensures
        final(state).consecutive_timeouts == old(state).consecutive_timeouts.saturating_add(1),
        final(state).current_phase == ConsensusPhase::Failed,
        r == (final(state).consecutive_timeouts >= MAX_TIMEOUTS_BEFORE_EJECT),
        final(state).current_epoch == old(state).current_epoch,
        final(state).current_round == old(state).current_round,
        final(state).active_round == old(state).active_round,
        final(state).last_qc == old(state).last_qc,
        final(state).emergency_mode == old(state).emergency_mode,
{
    state.consecutive_timeouts = state.consecutive_timeouts.saturating_add(1);
    state.current_phase = ConsensusPhase::Failed;
    state.consecutive_timeouts >= MAX_TIMEOUTS_BEFORE_EJECT
}

/// Reset the timeout counter after a successful consensus.
pub fn reset_timeouts(state: &mut ConsensusState)
    ensures
        *final(state) == (ConsensusState { consecutive_timeouts: 0, ..*old(state) }),
{
    state.consecutive_timeouts = 0;
}

/// Every view-change quorum exceeds the tolerated number of faulty
/// validators `floor(n / 3)`, so faulty validators alone never reach it.
pub proof fn lemma_view_change_quorum_exceeds_faults(n: u32)
    ensures
        view_change_quorum_spec(n) > n / 3,
        view_change_quorum_spec(n) >= 1,
{
}

} // verus!
