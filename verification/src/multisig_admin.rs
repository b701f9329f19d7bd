//! Multi-signature administration: threshold-approved proposals that manage
//! the signer set and threshold or call other contracts, governance
//! snapshots, and the 4-of-7 emergency rollback path.
use vstd::prelude::*;
use std::collections::{HashMap, HashSet};

use crate::common::{AccountId, Hash32, SymbolId};

verus! {

broadcast use vstd::std_specs::hash::group_hash_axioms;

/// A proposal expires seven days after it is created.
pub const EXPIRY_SECONDS: u64 = 604_800;
/// Approvals needed on an emergency signature set.
pub const EMERGENCY_MSIG_THRESHOLD: u32 = 4;
/// Size of the emergency signer set.
pub const EMERGENCY_MSIG_SIGNERS: u32 = 7;
/// Approvals needed to execute an emergency rollback.
pub const EMERGENCY_THRESHOLD: u32 = 4;
/// Number of governance snapshots retained.
pub const MAX_SNAPSHOTS: u32 = 3;

#[derive(Clone, Copy, Debug, PartialEq, Eq, Structural)]
pub enum Error {
    AlreadyInitialized,
    NotInitialized,
    NotAdmin,
    NotSigner,
    AlreadySigner,
    ProposalNotFound,
    AlreadySigned,
    BelowThreshold,
    AlreadyExecuted,
    Cancelled,
    Expired,
    InvalidThreshold,
    /// Emergency signature set failed 4-of-7 validation.
    InvalidEmergencySignatures,
    /// Duplicate or unregistered emergency signer in aggregation.
    InvalidEmergencySigner,
}

/// The function a proposal calls: one of the contract's own administration
/// operations, or a named function of another contract.
#[derive(Clone, Copy, Debug, PartialEq, Eq, Structural)]
pub enum ProposalFunction {
    AddSigner,
    RemoveSigner,
    UpdateThreshold,
    Named(SymbolId),
}

#[derive(Clone, Debug)]
pub struct ProposalRecord {
    pub id: u32,
    pub proposer: AccountId,
    pub target: AccountId,
    pub function: ProposalFunction,
    /// Call arguments as plain values (an account id or an integer).
    pub args: Vec<u64>,
    pub approval_count: u32,
    pub expiry: u64,
    pub executed: bool,
    pub cancelled: bool,
}

impl ProposalRecord {
    pub open spec fn same_as(self, o: ProposalRecord) -> bool {
        &&& self.id == o.id
        &&& self.proposer == o.proposer
        &&& self.target == o.target
        &&& self.function == o.function
        &&& self.args@ == o.args@
        &&& self.approval_count == o.approval_count
        &&& self.expiry == o.expiry
        &&& self.executed == o.executed
        &&& self.cancelled == o.cancelled
    }

    pub fn duplicate(&self) -> (r: Self)
        ensures
            r.same_as(*self),
    {
        ProposalRecord {
            id: self.id,
            proposer: self.proposer,
            target: self.target,
            function: self.function,
            args: copy_u64s(&self.args),
            approval_count: self.approval_count,
            expiry: self.expiry,
            executed: self.executed,
            cancelled: self.cancelled,
        }
    }
}

/// Compact governance configuration captured by a snapshot.
#[derive(Clone, Copy, Debug, PartialEq, Eq, Structural)]
pub struct GovConfigSnapshot {
    pub threshold: u32,
    pub signer_count: u32,
    pub proposal_count: u32,
}

/// Metadata kept beside a governance snapshot.
#[derive(Clone, Copy, Debug, PartialEq, Eq, Structural)]
pub struct SnapshotMeta {
    pub created_at: u64,
    pub block_height: u32,
    pub contract_version: Hash32,
    pub admin: AccountId,
    pub checksum: Hash32,
    pub record_count: u64,
    pub snapshot_index: u32,
}

/// A configuration field compared after an upgrade.
#[derive(Clone, Copy, Debug, PartialEq, Eq, Structural)]
pub enum ConfigField {
    Threshold,
    SignerCount,
    ProposalCount,
}

#[derive(Clone, Debug)]
pub struct StateVerificationReport {
    pub fields_checked: u32,
    /// The fields whose live value differs from the snapshot, in order.
    pub mismatches: Vec<ConfigField>,
}

#[derive(Clone, Copy, Debug, PartialEq, Eq, Structural)]
pub struct RollbackProposal {
    pub id: u32,
    pub snapshot_id: u32,
    pub old_wasm_hash: Hash32,
    pub approval_count: u32,
    pub executed: bool,
    pub created_at: u64,
    pub proposer: AccountId,
}

/// A call the contract makes on another contract when a proposal targeting
/// it is executed.
#[derive(Clone, Debug)]
pub struct ExternalCall {
    pub target: AccountId,
    pub function: ProposalFunction,
    pub args: Vec<u64>,
}

#[derive(Clone, Copy, Debug, PartialEq, Eq, Structural)]
pub enum MultisigEvent {
    Initialized { signer_count: u32, threshold: u32 },
    Proposed { id: u32, proposer: AccountId, expiry: u64 },
    Signed { id: u32, signer: AccountId, approval_count: u32 },
    Executed { id: u32, target: AccountId, function: ProposalFunction },
    ProposalCancelled { id: u32, caller: AccountId },
    SignerAdded { signer: AccountId, signer_count: u32 },
    SignerRemoved { signer: AccountId, signer_count: u32 },
    ThresholdUpdated { threshold: u32, old_threshold: u32 },
    EmergencySignersSet { count: u32 },
    SnapshotTaken { snapshot_id: u32, signer_count: u32, block_height: u32 },
    RollbackProposed { id: u32, snapshot_id: u32, proposer: AccountId },
    RollbackApproved { id: u32, signer: AccountId, approval_count: u32 },
    RollbackExecuted { id: u32, snapshot_id: u32, wasm_hash: Hash32 },
}

fn copy_u64s(v: &Vec<u64>) -> (r: Vec<u64>)
    ensures
        r@ == v@,
{
    let mut out: Vec<u64> = Vec::new();
    let mut i: usize = 0;
    while i < v.len()
        invariant
            i <= v@.len(),
            out@ == v@.subrange(0, i as int),
        decreases v@.len() - i,
    {
        out.push(v[i]);
        i = i + 1;
        assert(out@ == v@.subrange(0, i as int));
    }
    assert(v@.subrange(0, v@.len() as int) == v@);
    out
}

fn contains_account(v: &Vec<AccountId>, x: AccountId) -> (r: bool)
    ensures
        r == v@.contains(x),
{
    let mut i: usize = 0;
    while i < v.len()
        invariant
            i <= v@.len(),
            forall|j: int| 0 <= j < i ==> v@[j] != x,
        decreases v@.len() - i,
    {
        if v[i] == x {
            return true;
        }
        i = i + 1;
    }
    false
}

/// Whether `v` lists distinct accounts (checked pairwise).
fn all_distinct(v: &Vec<AccountId>) -> (r: bool)
    ensures
        r == v@.no_duplicates(),
{
    let mut i: usize = 0;
    while i < v.len()
        invariant
            i <= v@.len(),
            forall|a: int, b: int| 0 <= a < b < v@.len() && a < i ==> v@[a] != v@[b],
        decreases v@.len() - i,
    {
        let mut j: usize = i + 1;
        while j < v.len()
            invariant
                i < v@.len(),
                i + 1 <= j <= v@.len(),
                forall|a: int, b: int| 0 <= a < b < v@.len() && a < i ==> v@[a] != v@[b],
                forall|b: int| i < b < j ==> v@[i as int] != v@[b],
            decreases v@.len() - j,
        {
            if v[i] == v[j] {
                return false;
            }
            j = j + 1;
        }
        i = i + 1;
    }
    true
}

pub struct MultisigAdminContract {
    /// This contract's own address; proposals targeting it run the
    /// administration operations.
    pub contract_address: AccountId,
    /// Approval threshold; `None` until initialized.
    pub threshold: Option<u32>,
    pub signer_count: u32,
    pub proposal_count: u32,
    pub signers: HashSet<AccountId>,
    pub proposals: HashMap<u32, ProposalRecord>,
    /// Approvers of each proposal, in approval order.
    pub approvals: HashMap<u32, Vec<AccountId>>,
    pub snapshots: HashMap<u32, GovConfigSnapshot>,
    pub snapshot_meta: HashMap<u32, SnapshotMeta>,
    /// Retained snapshot ids, oldest first.
    pub snapshot_index: Vec<u32>,
    pub emergency_signers: Option<Vec<AccountId>>,
    pub rollback_proposals: HashMap<u32, RollbackProposal>,
    /// Approvers of each rollback proposal, in approval order.
    pub rollback_approvals: HashMap<u32, Vec<AccountId>>,
    pub rollback_count: u32,
    /// Code hash the contract runs; replaced by an executed rollback.
    pub wasm_hash: Hash32,
    pub events: Vec<MultisigEvent>,
}

impl MultisigAdminContract {
    /// Well-formedness: every proposal's approval count is at most the
    /// number of distinct accounts recorded as approving its id (equal for
    /// rollback proposals), proposals are stored under their own id, and at
    /// most `MAX_SNAPSHOTS` snapshot ids are retained.
    pub open spec fn wf(&self) -> bool {
        &&& self.threshold is None ==> self.signers@.len() == 0 && self.proposals@.len() == 0
        &&& self.signers@.finite()
        &&& forall|id: u32| #[trigger] self.approvals@.contains_key(id) ==> self.approvals@[id]@.no_duplicates()
        &&& forall|id: u32| #[trigger] self.proposals@.contains_key(id) ==> self.wf_proposal(id)
        &&& forall|id: u32|
            #[trigger] self.rollback_proposals@.contains_key(id) ==> {
                &&& self.rollback_proposals@[id].id == id
                &&& self.rollback_approvals@.contains_key(id)
                &&& self.rollback_approvals@[id]@.len() == self.rollback_proposals@[id].approval_count
                &&& self.rollback_approvals@[id]@.no_duplicates()
            }
        &&& self.snapshot_index@.len() <= MAX_SNAPSHOTS
    }

    /// Proposal `id` is stored under its id and has at least as many
    /// distinct recorded approvers as its approval count, its proposer
    /// among them.
    pub open spec fn wf_proposal(&self, id: u32) -> bool {
        &&& self.proposals@[id].id == id
        &&& self.approvals@.contains_key(id)
        &&& self.proposals@[id].approval_count <= self.approvals@[id]@.len()
        &&& self.approvals@[id]@.no_duplicates()
        &&& self.approvals@[id]@.contains(self.proposals@[id].proposer)
    }

    pub open spec fn is_signer_spec(&self, a: AccountId) -> bool {
        self.signers@.contains(a)
    }

    /// Approvers recorded for proposal id `id`.
    pub open spec fn approvers(&self, id: u32) -> Seq<AccountId> {
        if self.approvals@.contains_key(id) { self.approvals@[id]@ } else { Seq::empty() }
    }

    /// The approver list of `id` once `a` is recorded (no duplicates).
    pub open spec fn approvers_with(&self, id: u32, a: AccountId) -> Seq<AccountId> {
        if self.approvers(id).contains(a) { self.approvers(id) } else { self.approvers(id).push(a) }
    }

    fn add_approver(approvals: &mut HashMap<u32, Vec<AccountId>>, id: u32, a: AccountId)
        requires
            old(approvals)@.contains_key(id) ==> old(approvals)@[id]@.no_duplicates(),
        ensures
            final(approvals)@.contains_key(id),
            final(approvals)@[id]@ == (if old(approvals)@.contains_key(id) {
                if old(approvals)@[id]@.contains(a) { old(approvals)@[id]@ } else { old(approvals)@[id]@.push(a) }
            } else {
                seq![a]
            }),
            final(approvals)@[id]@.no_duplicates(),
            final(approvals)@.remove(id) == old(approvals)@.remove(id),
    {
        let mut list: Vec<AccountId> = match approvals.remove(&id) {
            Some(v) => v,
            None => Vec::new(),
        };
        if !contains_account(&list, a) {
            list.push(a);
        }
        approvals.insert(id, list);
        assert(approvals@.remove(id) =~= old(approvals)@.remove(id));
    }

    pub open spec fn propose_outcome(&self, proposer: AccountId) -> Result<u32, Error> {
        if self.threshold is None {
            Err(Error::NotInitialized)
        } else if !self.signers@.contains(proposer) {
            Err(Error::NotSigner)
        } else {
            Ok((self.proposal_count + 1) as u32)
        }
    }

    /// Propose an action; the proposer counts as its first approval and
    /// the proposal expires `EXPIRY_SECONDS` after `now`.
    pub fn propose_action(
        &mut self,
        proposer: AccountId,
        target: AccountId,
        function: ProposalFunction,
        args: Vec<u64>,
        now: u64,
    ) -> (r: Result<u32, Error>)
        requires
            old(self).wf(),
            old(self).propose_outcome(proposer) is Ok ==> old(self).proposal_count < u32::MAX && now
                + EXPIRY_SECONDS <= u64::MAX,
        ensures
            final(self).wf(),
            r == old(self).propose_outcome(proposer),
            r is Err ==> *final(self) == *old(self),
            r is Ok ==> {
                let id = r->Ok_0;
                let p = final(self).proposals@[id];
                &&& final(self).proposal_count == id
                &&& final(self).proposals@.contains_key(id)
                &&& final(self).proposals@.remove(id) == old(self).proposals@.remove(id)
                &&& p.id == id && p.proposer == proposer && p.target == target && p.function == function
                &&& p.args@ == args@ && p.approval_count == 1 && p.expiry == now + EXPIRY_SECONDS
                &&& !p.executed && !p.cancelled
                &&& final(self).approvers(id) == old(self).approvers_with(id, proposer)
                &&& final(self).approvals@.remove(id) == old(self).approvals@.remove(id)
                &&& final(self).events@ == old(self).events@.push(
                    MultisigEvent::Proposed { id, proposer, expiry: (now + EXPIRY_SECONDS) as u64 },
                )
                &&& *final(self) == (MultisigAdminContract {
                    proposal_count: final(self).proposal_count,
                    proposals: final(self).proposals,
                    approvals: final(self).approvals,
                    events: final(self).events,
                    ..*old(self)
                })
            },
    {
        if self.threshold.is_none() {
            return Err(Error::NotInitialized);
        }
        if !self.signers.contains(&proposer) {
            return Err(Error::NotSigner);
        }
        let new_id = self.proposal_count + 1;
        self.proposal_count = new_id;
        let expiry = now + EXPIRY_SECONDS;
        let proposal = ProposalRecord {
            id: new_id,
            proposer,
            target,
            function,
            args,
            approval_count: 1,
            expiry,
            executed: false,
            cancelled: false,
        };
        self.proposals.insert(new_id, proposal);
        Self::add_approver(&mut self.approvals, new_id, proposer);
        self.events.push(MultisigEvent::Proposed { id: new_id, proposer, expiry });
        proof {
            assert(self.proposals@.remove(new_id) =~= old(self).proposals@.remove(new_id));
            assert forall|id: u32| #[trigger] self.proposals@.contains_key(id) implies self.wf_proposal(id) by {
                if id != new_id {
                    assert(old(self).proposals@.contains_key(id));
                    assert(old(self).wf_proposal(id));
                    assert(old(self).approvals@.remove(new_id).contains_key(id));
                    assert(self.approvals@.remove(new_id)[id] == self.approvals@[id]);
                    assert(old(self).approvals@.remove(new_id)[id] == old(self).approvals@[id]);
                } else {
                    assert(self.approvals@[id]@.contains(proposer)) by {
                        if !old(self).approvals@.contains_key(id) {
                            assert(self.approvals@[id]@[0] == proposer);
                        } else if !old(self).approvals@[id]@.contains(proposer) {
                            assert(self.approvals@[id]@.last() == proposer);
                        }
                    }
                }
            }
            assert forall|id: u32| #[trigger] self.approvals@.contains_key(id) implies self.approvals@[id]@.no_duplicates() by {
                if id != new_id {
                    assert(old(self).approvals@.remove(new_id).contains_key(id));
                    assert(self.approvals@.remove(new_id)[id] == self.approvals@[id]);
                }
            }
        }
        Ok(new_id)
    }

    pub open spec fn sign_outcome(&self, signer: AccountId, id: u32, now: u64) -> Result<(), Error> {
        if self.threshold is None {
            Err(Error::NotInitialized)
        } else if !self.signers@.contains(signer) {
            Err(Error::NotSigner)
        } else if !self.proposals@.contains_key(id) {
            Err(Error::ProposalNotFound)
        } else if self.proposals@[id].executed {
            Err(Error::AlreadyExecuted)
        } else if self.proposals@[id].cancelled {
            Err(Error::Cancelled)
        } else if now > self.proposals@[id].expiry {
            Err(Error::Expired)
        } else if self.approvers(id).contains(signer) {
            Err(Error::AlreadySigned)
        } else {
            Ok(())
        }
    }

    /// Approve an open, unexpired proposal once per signer.
    pub fn sign_action(&mut self, signer: AccountId, action_id: u32, now: u64) -> (r: Result<(), Error>)
        requires
            old(self).wf(),
            old(self).sign_outcome(signer, action_id, now) is Ok ==> old(
                self,
            ).proposals@[action_id].approval_count < u32::MAX,
        ensures
            final(self).wf(),
            r == old(self).sign_outcome(signer, action_id, now),
            r is Err ==> *final(self) == *old(self),
            r is Ok ==> {
                let p = old(self).proposals@[action_id];
                &&& final(self).proposals@ == old(self).proposals@.insert(
                    action_id,
                    ProposalRecord { approval_count: (p.approval_count + 1) as u32, ..p },
                )
                &&& final(self).approvers(action_id) == old(self).approvers(action_id).push(signer)
                &&& final(self).approvals@.remove(action_id) == old(self).approvals@.remove(action_id)
                &&& final(self).events@ == old(self).events@.push(
                    MultisigEvent::Signed { id: action_id, signer, approval_count: (p.approval_count + 1) as u32 },
                )
                &&& *final(self) == (MultisigAdminContract {
                    proposals: final(self).proposals,
                    approvals: final(self).approvals,
                    events: final(self).events,
                    ..*old(self)
                })
            },
    {
        if self.threshold.is_none() {
            return Err(Error::NotInitialized);
        }
        if !self.signers.contains(&signer) {
            return Err(Error::NotSigner);
        }
        match self.proposals.get(&action_id) {
            None => return Err(Error::ProposalNotFound),
            Some(p) => {
                if p.executed {
                    return Err(Error::AlreadyExecuted);
                }
                if p.cancelled {
                    return Err(Error::Cancelled);
                }
                if now > p.expiry {
                    return Err(Error::Expired);
                }
            },
        }
        let already = match self.approvals.get(&action_id) {
            Some(list) => contains_account(list, signer),
            None => false,
        };
        if already {
            return Err(Error::AlreadySigned);
        }
        let mut proposal = match self.proposals.remove(&action_id) {
            Some(p) => p,
            None => {
                assert(false);
                return Err(Error::ProposalNotFound);
            },
        };
        let ghost p0 = proposal;
        proposal.approval_count = proposal.approval_count + 1;
        let count = proposal.approval_count;
        assert(proposal == ProposalRecord { approval_count: count, ..p0 });
        self.proposals.insert(action_id, proposal);
        Self::add_approver(&mut self.approvals, action_id, signer);
        self.events.push(MultisigEvent::Signed { id: action_id, signer, approval_count: count });
        proof {
            assert forall|id: u32| #[trigger] self.proposals@.contains_key(id) implies self.wf_proposal(id) by {
                assert(old(self).proposals@.contains_key(id));
                assert(old(self).wf_proposal(id));
                if id != action_id {
                    assert(old(self).approvals@.remove(action_id).contains_key(id));
                    assert(self.approvals@.remove(action_id)[id] == self.approvals@[id]);
                    assert(old(self).approvals@.remove(action_id)[id] == old(self).approvals@[id]);
                } else {
                    assert(old(self).approvals@[id]@.contains(p0.proposer));
                    let k = choose|k: int| 0 <= k < old(self).approvals@[id]@.len() && old(self).approvals@[id]@[k] == p0.proposer;
                    assert(self.approvals@[id]@[k] == p0.proposer);
                }
            }
            assert forall|id: u32| #[trigger] self.approvals@.contains_key(id) implies self.approvals@[id]@.no_duplicates() by {
                if id != action_id {
                    assert(old(self).approvals@.remove(action_id).contains_key(id));
                    assert(self.approvals@.remove(action_id)[id] == self.approvals@[id]);
                }
            }
        }
        Ok(())
    }

    pub open spec fn cancel_outcome(&self, caller: AccountId, id: u32, now: u64) -> Result<(), Error> {
        if self.threshold is None {
            Err(Error::NotInitialized)
        } else if !self.proposals@.contains_key(id) {
            Err(Error::ProposalNotFound)
        } else if self.proposals@[id].proposer != caller && !self.signers@.contains(caller) {
            Err(Error::NotSigner)
        } else if self.proposals@[id].executed {
            Err(Error::AlreadyExecuted)
        } else if self.proposals@[id].cancelled {
            Err(Error::Cancelled)
        } else if now > self.proposals@[id].expiry {
            Err(Error::Expired)
        } else {
            Ok(())
        }
    }

    /// Cancel an open, unexpired proposal; its proposer or any signer may.
    pub fn cancel_action(&mut self, caller: AccountId, action_id: u32, now: u64) -> (r: Result<(), Error>)
        requires
            old(self).wf(),
        ensures
            final(self).wf(),
            r == old(self).cancel_outcome(caller, action_id, now),
            r is Err ==> *final(self) == *old(self),
            r is Ok ==> {
                let p = old(self).proposals@[action_id];
                &&& final(self).proposals@ == old(self).proposals@.insert(action_id, ProposalRecord { cancelled: true, ..p })
                &&& final(self).events@ == old(self).events@.push(MultisigEvent::ProposalCancelled { id: action_id, caller })
                &&& *final(self) == (MultisigAdminContract {
                    proposals: final(self).proposals,
                    events: final(self).events,
                    ..*old(self)
                })
            },
    {
        if self.threshold.is_none() {
            return Err(Error::NotInitialized);
        }
        let refusal = match self.proposals.get(&action_id) {
            None => Some(Error::ProposalNotFound),
            Some(p) => {
                let is_proposer = p.proposer == caller;
                let is_signer = self.signers.contains(&caller);
                if !is_proposer && !is_signer {
                    Some(Error::NotSigner)
                } else if p.executed {
                    Some(Error::AlreadyExecuted)
                } else if p.cancelled {
                    Some(Error::Cancelled)
                } else if now > p.expiry {
                    Some(Error::Expired)
                } else {
                    None
                }
            },
        };
        if let Some(e) = refusal {
            return Err(e);
        }
        let mut proposal = match self.proposals.remove(&action_id) {
            Some(p) => p,
            None => {
                assert(false);
                return Err(Error::ProposalNotFound);
            },
        };
        let ghost p0 = proposal;
        proposal.cancelled = true;
        assert(proposal == ProposalRecord { cancelled: true, ..p0 });
        self.proposals.insert(action_id, proposal);
        self.events.push(MultisigEvent::ProposalCancelled { id: action_id, caller });
        Ok(())
    }

    /// Outcome of executing proposal `id` at time `now`, before dispatch.
    pub open spec fn execute_gate(&self, id: u32, now: u64) -> Result<(), Error> {
        if self.threshold is None {
            Err(Error::NotInitialized)
        } else if !self.proposals@.contains_key(id) {
            Err(Error::ProposalNotFound)
        } else if self.proposals@[id].executed {
            Err(Error::AlreadyExecuted)
        } else if self.proposals@[id].cancelled {
            Err(Error::Cancelled)
        } else if now > self.proposals@[id].expiry {
            Err(Error::Expired)
        } else if self.proposals@[id].approval_count < self.threshold->0 {
            Err(Error::BelowThreshold)
        } else {
            Ok(())
        }
    }

    /// Outcome of the administration operation a self-targeted proposal
    /// runs (the first argument is the signer or the new threshold).
    pub open spec fn admin_outcome(&self, function: ProposalFunction, args: Seq<u64>) -> Result<(), Error> {
        match function {
            ProposalFunction::Named(_) => Err(Error::ProposalNotFound),
            _ => if args.len() == 0 {
                Err(Error::ProposalNotFound)
            } else {
                match function {
                    ProposalFunction::AddSigner => if self.signers@.contains(args[0]) {
                        Err(Error::AlreadySigner)
                    } else {
                        Ok(())
                    },
                    ProposalFunction::RemoveSigner => if !self.signers@.contains(args[0]) {
                        Err(Error::NotSigner)
                    } else if self.signer_count - 1 < self.threshold->0 {
                        Err(Error::InvalidThreshold)
                    } else {
                        Ok(())
                    },
                    _ => if args[0] > u32::MAX {
                        Err(Error::ProposalNotFound)
                    } else if args[0] == 0 || args[0] > self.signer_count {
                        Err(Error::InvalidThreshold)
                    } else {
                        Ok(())
                    },
                }
            },
        }
    }

    /// Whether the counters touched by executing proposal `id` stay in range.
    pub open spec fn exec_counts_fit(&self, id: u32) -> bool {
        let p = self.proposals@[id];
        self.proposals@.contains_key(id) && p.target == self.contract_address && p.args@.len() > 0 ==> {
            &&& p.function == ProposalFunction::AddSigner ==> self.signer_count < u32::MAX
            &&& p.function == ProposalFunction::RemoveSigner && self.signers@.contains(p.args@[0])
                ==> self.signer_count > 0
        }
    }

    /// Apply a self-targeted administration operation to the signer set or
    /// threshold, publishing its event.
    fn apply_admin(&mut self, function: ProposalFunction, args: &Vec<u64>) -> (r: Result<(), Error>)
        requires
            old(self).wf(),
            old(self).threshold is Some,
            args@.len() > 0 ==> {
                &&& function == ProposalFunction::AddSigner ==> old(self).signer_count < u32::MAX
                &&& function == ProposalFunction::RemoveSigner && old(self).signers@.contains(args@[0])
                    ==> old(self).signer_count > 0
            },
        ensures
            final(self).wf(),
            r == old(self).admin_outcome(function, args@),
            r is Err ==> *final(self) == *old(self),
            r is Ok ==> match function {
                ProposalFunction::AddSigner => *final(self) == (MultisigAdminContract {
                    signers: final(self).signers,
                    signer_count: (old(self).signer_count + 1) as u32,
                    events: final(self).events,
                    ..*old(self)
                }) && final(self).signers@ == old(self).signers@.insert(args@[0])
                    && final(self).events@ == old(self).events@.push(MultisigEvent::SignerAdded {
                    signer: args@[0],
                    signer_count: (old(self).signer_count + 1) as u32,
                }),
                ProposalFunction::RemoveSigner => *final(self) == (MultisigAdminContract {
                    signers: final(self).signers,
                    signer_count: (old(self).signer_count - 1) as u32,
                    events: final(self).events,
                    ..*old(self)
                }) && final(self).signers@ == old(self).signers@.remove(args@[0])
                    && final(self).events@ == old(self).events@.push(MultisigEvent::SignerRemoved {
                    signer: args@[0],
                    signer_count: (old(self).signer_count - 1) as u32,
                }),
                _ => *final(self) == (MultisigAdminContract {
                    threshold: Some(args@[0] as u32),
                    events: final(self).events,
                    ..*old(self)
                }) && final(self).events@ == old(self).events@.push(MultisigEvent::ThresholdUpdated {
                    threshold: args@[0] as u32,
                    old_threshold: old(self).threshold->0,
                }),
            },
    {
        if let ProposalFunction::Named(_) = function {
            return Err(Error::ProposalNotFound);
        }
        if args.len() == 0 {
            return Err(Error::ProposalNotFound);
        }
        let arg = args[0];
        let threshold = match self.threshold {
            Some(t) => t,
            None => 0,
        };
        match function {
            ProposalFunction::AddSigner => {
                if self.signers.contains(&arg) {
                    return Err(Error::AlreadySigner);
                }
                self.signers.insert(arg);
                self.signer_count = self.signer_count + 1;
                self.events.push(MultisigEvent::SignerAdded { signer: arg, signer_count: self.signer_count });
                Ok(())
            },
            ProposalFunction::RemoveSigner => {
                if !self.signers.contains(&arg) {
                    return Err(Error::NotSigner);
                }
                let new_count = self.signer_count - 1;
                if new_count < threshold {
                    return Err(Error::InvalidThreshold);
                }
                self.signers.remove(&arg);
                self.signer_count = new_count;
                self.events.push(MultisigEvent::SignerRemoved { signer: arg, signer_count: new_count });
                Ok(())
            },
            _ => {
                if arg > u32::MAX as u64 {
                    return Err(Error::ProposalNotFound);
                }
                let new_threshold = arg as u32;
                if new_threshold == 0 || new_threshold > self.signer_count {
                    return Err(Error::InvalidThreshold);
                }
                self.threshold = Some(new_threshold);
                self.events.push(MultisigEvent::ThresholdUpdated { threshold: new_threshold, old_threshold: threshold });
                Ok(())
            },
        }
    }

    /// Execute an approved proposal. A proposal targeting this contract runs
    /// the administration operation it names; one targeting another
    /// contract is marked executed and its call is handed back for the
    /// caller to perform.
    pub fn execute_action(&mut self, action_id: u32, now: u64) -> (r: Result<Option<ExternalCall>, Error>)
        requires
            old(self).wf(),
            old(self).exec_counts_fit(action_id),
        ensures
            final(self).wf(),
            old(self).execute_gate(action_id, now) is Err ==> r == Err::<Option<ExternalCall>, Error>(
                old(self).execute_gate(action_id, now)->Err_0,
            ),
            old(self).execute_gate(action_id, now) is Ok ==> {
                let p = old(self).proposals@[action_id];
                &&& p.target == old(self).contract_address ==> {
                    &&& (r is Err <==> old(self).admin_outcome(p.function, p.args@) is Err)
                    &&& r is Err ==> r->Err_0 == old(self).admin_outcome(p.function, p.args@)->Err_0
                    &&& r is Ok ==> r->Ok_0 is None
                }
                &&& p.target != old(self).contract_address ==> r is Ok && r->Ok_0 is Some
                    && r->Ok_0->0.target == p.target && r->Ok_0->0.args@ == p.args@
            },
            r is Err ==> *final(self) == *old(self),
            r is Ok ==> {
                let p = old(self).proposals@[action_id];
                &&& old(self).execute_gate(action_id, now) is Ok
                &&& p.approval_count >= old(self).threshold->0
                &&& final(self).proposals@ == old(self).proposals@.insert(action_id, ProposalRecord { executed: true, ..p })
                &&& final(self).events@.last() == MultisigEvent::Executed { id: action_id, target: p.target, function: p.function }
                &&& p.target != old(self).contract_address ==> final(self).signers@ == old(self).signers@
                    && final(self).threshold == old(self).threshold && final(self).signer_count == old(self).signer_count
                &&& p.target == old(self).contract_address ==> match p.function {
                    ProposalFunction::AddSigner => {
                        &&& final(self).signers@ == old(self).signers@.insert(p.args@[0])
                        &&& final(self).signer_count == old(self).signer_count + 1
                        &&& final(self).threshold == old(self).threshold
                    },
                    ProposalFunction::RemoveSigner => {
                        &&& final(self).signers@ == old(self).signers@.remove(p.args@[0])
                        &&& final(self).signer_count == old(self).signer_count - 1
                        &&& final(self).threshold == old(self).threshold
                    },
                    _ => {
                        &&& final(self).signers@ == old(self).signers@
                        &&& final(self).signer_count == old(self).signer_count
                        &&& final(self).threshold == Some(p.args@[0] as u32)
                    },
                }
                &&& *final(self) == (MultisigAdminContract {
                    signers: final(self).signers,
                    signer_count: final(self).signer_count,
                    threshold: final(self).threshold,
                    proposals: final(self).proposals,
                    events: final(self).events,
                    ..*old(self)
                })
            },
    {
        if self.threshold.is_none() {
            return Err(Error::NotInitialized);
        }
        let threshold = match self.threshold {
            Some(t) => t,
            None => 0,
        };
        let (target, function, args) = match self.proposals.get(&action_id) {
            None => return Err(Error::ProposalNotFound),
            Some(p) => {
                if p.executed {
                    return Err(Error::AlreadyExecuted);
                }
                if p.cancelled {
                    return Err(Error::Cancelled);
                }
                if now > p.expiry {
                    return Err(Error::Expired);
                }
                if p.approval_count < threshold {
                    return Err(Error::BelowThreshold);
                }
                (p.target, p.function, copy_u64s(&p.args))
            },
        };
        let is_self = target == self.contract_address;
        if is_self {
            let outcome = self.apply_admin(function, &args);
            if let Err(e) = outcome {
                return Err(e);
            }
        }
        let mut proposal = match self.proposals.remove(&action_id) {
            Some(p) => p,
            None => {
                assert(false);
                return Err(Error::ProposalNotFound);
            },
        };
        let ghost p0 = proposal;
        proposal.executed = true;
        assert(proposal == ProposalRecord { executed: true, ..p0 });
        self.proposals.insert(action_id, proposal);
        self.events.push(MultisigEvent::Executed { id: action_id, target, function });
        proof {
            assert forall|id: u32| #[trigger] self.proposals@.contains_key(id) implies self.wf_proposal(id) by {
                assert(old(self).proposals@.contains_key(id));
                assert(old(self).wf_proposal(id));
            }
        }
        if is_self {
            Ok(None)
        } else {
            Ok(Some(ExternalCall { target, function, args }))
        }
    }

    pub open spec fn signer_gate(&self, caller: AccountId) -> Result<(), Error> {
        if self.threshold is None {
            Err(Error::NotInitialized)
        } else if !self.signers@.contains(caller) {
            Err(Error::NotSigner)
        } else {
            Ok(())
        }
    }

    /// The snapshot index after recording `id`: appended, with the oldest
    /// entry evicted once more than `MAX_SNAPSHOTS` are held.
    pub open spec fn index_after(index: Seq<u32>, id: u32) -> Seq<u32> {
        if index.len() + 1 > MAX_SNAPSHOTS { index.push(id).drop_first() } else { index.push(id) }
    }

    /// Capture the governance configuration (threshold, signer count,
    /// proposal count) under `snapshot_id`, keeping the last
    /// `MAX_SNAPSHOTS` snapshots; `checksum` is the digest the caller
    /// computed over the configuration.
    pub fn snapshot_state(
        &mut self,
        caller: AccountId,
        snapshot_id: u32,
        now: u64,
        block_height: u32,
        checksum: Hash32,
    ) -> (r: Result<(), Error>)
        requires
            old(self).wf(),
        ensures
            final(self).wf(),
            r == old(self).signer_gate(caller),
            r is Err ==> *final(self) == *old(self),
            r is Ok ==> {
                let cfg = GovConfigSnapshot {
                    threshold: old(self).threshold->0,
                    signer_count: old(self).signer_count,
                    proposal_count: old(self).proposal_count,
                };
                let pos = old(self).snapshot_index@.len();
                let evicted = old(self).snapshot_index@.len() + 1 > MAX_SNAPSHOTS;
                let base_snaps = if evicted { old(self).snapshots@.remove(old(self).snapshot_index@[0]) } else { old(self).snapshots@ };
                let base_meta = if evicted { old(self).snapshot_meta@.remove(old(self).snapshot_index@[0]) } else { old(self).snapshot_meta@ };
                &&& final(self).snapshot_index@ == Self::index_after(old(self).snapshot_index@, snapshot_id)
                &&& final(self).snapshots@ == base_snaps.insert(snapshot_id, cfg)
                &&& final(self).snapshot_meta@ == base_meta.insert(snapshot_id, SnapshotMeta {
                    created_at: now,
                    block_height,
                    contract_version: Hash32 { w0: 0, w1: 0, w2: 0, w3: 0 },
                    admin: caller,
                    checksum,
                    record_count: old(self).signer_count as u64,
                    snapshot_index: if pos < MAX_SNAPSHOTS - 1 { pos as u32 } else { (MAX_SNAPSHOTS - 1) as u32 },
                })
                &&& final(self).events@ == old(self).events@.push(MultisigEvent::SnapshotTaken {
                    snapshot_id,
                    signer_count: old(self).signer_count,
                    block_height,
                })
                &&& *final(self) == (MultisigAdminContract {
                    snapshots: final(self).snapshots,
                    snapshot_meta: final(self).snapshot_meta,
                    snapshot_index: final(self).snapshot_index,
                    events: final(self).events,
                    ..*old(self)
                })
            },
    {
        let threshold = match self.threshold {
            Some(t) => t,
            None => return Err(Error::NotInitialized),
        };
        if !self.signers.contains(&caller) {
            return Err(Error::NotSigner);
        }
        let config = GovConfigSnapshot {
            threshold,
            signer_count: self.signer_count,
            proposal_count: self.proposal_count,
        };
        let snapshot_pos = self.snapshot_index.len() as u32;
        self.snapshot_index.push(snapshot_id);
        if self.snapshot_index.len() > MAX_SNAPSHOTS as usize {
            let old_id = self.snapshot_index.remove(0);
            self.snapshots.remove(&old_id);
            self.snapshot_meta.remove(&old_id);
        }
        let meta = SnapshotMeta {
            created_at: now,
            block_height,
            contract_version: Hash32 { w0: 0, w1: 0, w2: 0, w3: 0 },
            admin: caller,
            checksum,
            record_count: self.signer_count as u64,
            snapshot_index: if snapshot_pos < MAX_SNAPSHOTS - 1 { snapshot_pos } else { MAX_SNAPSHOTS - 1 },
        };
        self.snapshots.insert(snapshot_id, config);
        self.snapshot_meta.insert(snapshot_id, meta);
        self.events.push(MultisigEvent::SnapshotTaken { snapshot_id, signer_count: self.signer_count, block_height });
        Ok(())
    }

    /// Compare the live configuration with snapshot `snapshot_id`.
    pub fn verify_post_upgrade_state(&self, snapshot_id: u32) -> (r: Result<StateVerificationReport, Error>)
        ensures
            !self.snapshots@.contains_key(snapshot_id) ==> r is Err && r->Err_0 == Error::ProposalNotFound,
            self.snapshots@.contains_key(snapshot_id) ==> {
                let cfg = self.snapshots@[snapshot_id];
                let cur_t: u32 = if self.threshold is Some { self.threshold->0 } else { 0 };
                &&& r is Ok
                &&& r->Ok_0.fields_checked == 3
                &&& r->Ok_0.mismatches@ == (if cur_t != cfg.threshold { seq![ConfigField::Threshold] } else { Seq::empty() })
                    + (if self.signer_count != cfg.signer_count { seq![ConfigField::SignerCount] } else { Seq::empty() })
                    + (if self.proposal_count != cfg.proposal_count { seq![ConfigField::ProposalCount] } else { Seq::empty() })
            },
    {
        let config = match self.snapshots.get(&snapshot_id) {
            Some(c) => *c,
            None => return Err(Error::ProposalNotFound),
        };
        let mut mismatches: Vec<ConfigField> = Vec::new();
        let cur_threshold = match self.threshold {
            Some(t) => t,
            None => 0,
        };
        if cur_threshold != config.threshold {
            mismatches.push(ConfigField::Threshold);
        }
        let ghost m1 = mismatches@;
        if self.signer_count != config.signer_count {
            mismatches.push(ConfigField::SignerCount);
        }
        let ghost m2 = mismatches@;
        if self.proposal_count != config.proposal_count {
            mismatches.push(ConfigField::ProposalCount);
        }
        proof {
            let a = if cur_threshold != config.threshold { seq![ConfigField::Threshold] } else { Seq::empty() };
            let b = if self.signer_count != config.signer_count { seq![ConfigField::SignerCount] } else { Seq::empty() };
            let c = if self.proposal_count != config.proposal_count { seq![ConfigField::ProposalCount] } else { Seq::empty() };
            assert(m1 =~= a);
            assert(m2 =~= a + b);
            assert(mismatches@ =~= a + b + c);
        }
        Ok(StateVerificationReport { fields_checked: 3, mismatches })
    }

    /// A valid emergency signer set: exactly `EMERGENCY_MSIG_SIGNERS`
    /// distinct accounts.
    pub open spec fn valid_emergency_config(signers: Seq<AccountId>) -> bool {
        signers.len() == EMERGENCY_MSIG_SIGNERS && signers.no_duplicates()
    }

    /// Register the emergency signer set; any regular signer may.
    pub fn set_emergency_signers(&mut self, caller: AccountId, signers: Vec<AccountId>) -> (r: Result<(), Error>)
        requires
            old(self).wf(),
        ensures
            final(self).wf(),
            r == (if old(self).signer_gate(caller) is Err {
                old(self).signer_gate(caller)
            } else if !Self::valid_emergency_config(signers@) {
                Err(Error::InvalidThreshold)
            } else {
                Ok(())
            }),
            r is Err ==> *final(self) == *old(self),
            r is Ok ==> final(self).emergency_signers is Some && final(self).emergency_signers->0@ == signers@
                && final(self).events@ == old(self).events@.push(MultisigEvent::EmergencySignersSet { count: EMERGENCY_MSIG_SIGNERS })
                && *final(self) == (MultisigAdminContract {
                emergency_signers: final(self).emergency_signers,
                events: final(self).events,
                ..*old(self)
            }),
    {
        if self.threshold.is_none() {
            return Err(Error::NotInitialized);
        }
        if !self.signers.contains(&caller) {
            return Err(Error::NotSigner);
        }
        if signers.len() != EMERGENCY_MSIG_SIGNERS as usize || !all_distinct(&signers) {
            return Err(Error::InvalidThreshold);
        }
        self.emergency_signers = Some(signers);
        self.events.push(MultisigEvent::EmergencySignersSet { count: EMERGENCY_MSIG_SIGNERS });
        Ok(())
    }

    /// Whether `approvals` is exactly `EMERGENCY_MSIG_THRESHOLD` distinct
    /// accounts drawn from `registered`.
    pub open spec fn valid_emergency_approvals(registered: Seq<AccountId>, approvals: Seq<AccountId>) -> bool {
        &&& approvals.len() == EMERGENCY_MSIG_THRESHOLD
        &&& approvals.no_duplicates()
        &&& forall|i: int| 0 <= i < approvals.len() ==> registered.contains(#[trigger] approvals[i])
    }

    /// Check that `approvals` is an exact 4-of-7 set of registered
    /// emergency signers.
    pub fn validate_emergency_signatures(&self, approvals: &Vec<AccountId>) -> (r: Result<bool, Error>)
        ensures
            self.emergency_signers is None ==> r == Err::<bool, Error>(Error::NotInitialized),
            self.emergency_signers is Some ==> r == (if Self::valid_emergency_approvals(
                self.emergency_signers->0@,
                approvals@,
            ) {
                Ok(true)
            } else {
                Err(Error::InvalidEmergencySignatures)
            }),
    {
        let registered = match &self.emergency_signers {
            Some(v) => v,
            None => return Err(Error::NotInitialized),
        };
        if approvals.len() != EMERGENCY_MSIG_THRESHOLD as usize || !all_distinct(approvals) {
            return Err(Error::InvalidEmergencySignatures);
        }
        let mut i: usize = 0;
        while i < approvals.len()
            invariant
                i <= approvals@.len(),
                self.emergency_signers is Some,
                registered@ == self.emergency_signers->0@,
                approvals@.len() == EMERGENCY_MSIG_THRESHOLD,
                approvals@.no_duplicates(),
                forall|j: int| 0 <= j < i ==> registered@.contains(#[trigger] approvals@[j]),
            decreases approvals@.len() - i,
        {
            if !contains_account(registered, approvals[i]) {
                return Err(Error::InvalidEmergencySignatures);
            }
            i = i + 1;
        }
        Ok(true)
    }

    /// Add an authenticated emergency signer to an approval set (once);
    /// refused when the set would exceed the emergency threshold.
    pub fn aggregate_signatures(&self, signer: AccountId, approvals: Vec<AccountId>) -> (r: Result<Vec<AccountId>, Error>)
        ensures
            self.emergency_signers is None ==> r is Err && r->Err_0 == Error::NotInitialized,
            self.emergency_signers is Some ==> {
                let merged = if approvals@.contains(signer) { approvals@ } else { approvals@.push(signer) };
                if !self.emergency_signers->0@.contains(signer) {
                    r is Err && r->Err_0 == Error::InvalidEmergencySigner
                } else if merged.len() > EMERGENCY_MSIG_THRESHOLD {
                    r is Err && r->Err_0 == Error::InvalidEmergencySignatures
                } else {
                    r is Ok && r->Ok_0@ == merged
                }
            },
    {
        let registered = match &self.emergency_signers {
            Some(v) => v,
            None => return Err(Error::NotInitialized),
        };
        if !contains_account(registered, signer) {
            return Err(Error::InvalidEmergencySigner);
        }
        let mut approvals = approvals;
        if !contains_account(&approvals, signer) {
            approvals.push(signer);
        }
        if approvals.len() > EMERGENCY_MSIG_THRESHOLD as usize {
            return Err(Error::InvalidEmergencySignatures);
        }
        Ok(approvals)
    }

    pub fn get_emergency_threshold(&self) -> (r: u32)
        ensures
            r == EMERGENCY_MSIG_THRESHOLD,
    {
        EMERGENCY_MSIG_THRESHOLD
    }

    pub fn get_emergency_signer_slots(&self) -> (r: u32)
        ensures
            r == EMERGENCY_MSIG_SIGNERS,
    {
        EMERGENCY_MSIG_SIGNERS
    }

    pub open spec fn emergency_gate(&self, signer: AccountId) -> Result<(), Error> {
        match self.emergency_signers {
            None => Err(Error::NotInitialized),
            Some(v) => if v@.contains(signer) { Ok(()) } else { Err(Error::NotSigner) },
        }
    }

    /// Open an emergency rollback to snapshot `snapshot_id`; the proposer,
    /// an emergency signer, counts as its first approval.
    pub fn propose_emergency_rollback(
        &mut self,
        proposer: AccountId,
        snapshot_id: u32,
        old_wasm_hash: Hash32,
        now: u64,
    ) -> (r: Result<u32, Error>)
        requires
            old(self).wf(),
            old(self).emergency_gate(proposer) is Ok && old(self).snapshot_meta@.contains_key(snapshot_id)
                ==> old(self).rollback_count < u32::MAX,
        ensures
            final(self).wf(),
            old(self).emergency_gate(proposer) is Err ==> r == Err::<u32, Error>(old(self).emergency_gate(proposer)->Err_0),
            old(self).emergency_gate(proposer) is Ok ==> r == (if !old(self).snapshot_meta@.contains_key(snapshot_id) {
                Err(Error::ProposalNotFound)
            } else {
                Ok((old(self).rollback_count + 1) as u32)
            }),
            r is Err ==> *final(self) == *old(self),
            r is Ok ==> {
                let id = r->Ok_0;
                &&& final(self).rollback_count == id
                &&& final(self).rollback_proposals@ == old(self).rollback_proposals@.insert(id, RollbackProposal {
                    id,
                    snapshot_id,
                    old_wasm_hash,
                    approval_count: 1,
                    executed: false,
                    created_at: now,
                    proposer,
                })
                &&& final(self).rollback_approvals@.contains_key(id)
                &&& final(self).rollback_approvals@[id]@ == seq![proposer]
                &&& final(self).events@ == old(self).events@.push(MultisigEvent::RollbackProposed { id, snapshot_id, proposer })
                &&& *final(self) == (MultisigAdminContract {
                    rollback_count: final(self).rollback_count,
                    rollback_proposals: final(self).rollback_proposals,
                    rollback_approvals: final(self).rollback_approvals,
                    events: final(self).events,
                    ..*old(self)
                })
            },
    {
        match &self.emergency_signers {
            None => return Err(Error::NotInitialized),
            Some(v) => {
                if !contains_account(v, proposer) {
                    return Err(Error::NotSigner);
                }
            },
        }
        if !self.snapshot_meta.contains_key(&snapshot_id) {
            return Err(Error::ProposalNotFound);
        }
        let new_id = self.rollback_count + 1;
        self.rollback_count = new_id;
        let proposal = RollbackProposal {
            id: new_id,
            snapshot_id,
            old_wasm_hash,
            approval_count: 1,
            executed: false,
            created_at: now,
            proposer,
        };
        self.rollback_proposals.insert(new_id, proposal);
        let mut first: Vec<AccountId> = Vec::new();
        first.push(proposer);
        self.rollback_approvals.insert(new_id, first);
        self.events.push(MultisigEvent::RollbackProposed { id: new_id, snapshot_id, proposer });
        proof {
            assert forall|id: u32| #[trigger] self.rollback_proposals@.contains_key(id) implies {
                &&& self.rollback_proposals@[id].id == id
                &&& self.rollback_approvals@.contains_key(id)
                &&& self.rollback_approvals@[id]@.len() == self.rollback_proposals@[id].approval_count
                &&& self.rollback_approvals@[id]@.no_duplicates()
            } by {
                if id != new_id {
                    assert(old(self).rollback_proposals@.contains_key(id));
                }
            }
        }
        Ok(new_id)
    }

    pub open spec fn approve_rollback_outcome(&self, signer: AccountId, id: u32) -> Result<(), Error> {
        if self.emergency_gate(signer) is Err {
            self.emergency_gate(signer)
        } else if !self.rollback_proposals@.contains_key(id) {
            Err(Error::ProposalNotFound)
        } else if self.rollback_proposals@[id].executed {
            Err(Error::AlreadyExecuted)
        } else if self.rollback_approvals@[id]@.contains(signer) {
            Err(Error::AlreadySigned)
        } else {
            Ok(())
        }
    }

    /// Approve an open emergency rollback, once per emergency signer.
    pub fn approve_emergency_rollback(&mut self, signer: AccountId, proposal_id: u32) -> (r: Result<(), Error>)
        requires
            old(self).wf(),
            old(self).approve_rollback_outcome(signer, proposal_id) is Ok ==> old(
                self,
            ).rollback_proposals@[proposal_id].approval_count < u32::MAX,
        ensures
            final(self).wf(),
            r == old(self).approve_rollback_outcome(signer, proposal_id),
            r is Err ==> *final(self) == *old(self),
            r is Ok ==> {
                let p = old(self).rollback_proposals@[proposal_id];
                &&& final(self).rollback_proposals@ == old(self).rollback_proposals@.insert(
                    proposal_id,
                    RollbackProposal { approval_count: (p.approval_count + 1) as u32, ..p },
                )
                &&& final(self).rollback_approvals@[proposal_id]@ == old(self).rollback_approvals@[proposal_id]@.push(signer)
                &&& final(self).events@ == old(self).events@.push(MultisigEvent::RollbackApproved {
                    id: proposal_id,
                    signer,
                    approval_count: (p.approval_count + 1) as u32,
                })
            },
    {
        match &self.emergency_signers {
            None => return Err(Error::NotInitialized),
            Some(v) => {
                if !contains_account(v, signer) {
                    return Err(Error::NotSigner);
                }
            },
        }
        let mut proposal = match self.rollback_proposals.get(&proposal_id) {
            Some(p) => *p,
            None => return Err(Error::ProposalNotFound),
        };
        if proposal.executed {
            return Err(Error::AlreadyExecuted);
        }
        let already = match self.rollback_approvals.get(&proposal_id) {
            Some(list) => contains_account(list, signer),
            None => false,
        };
        if already {
            return Err(Error::AlreadySigned);
        }
        let mut list: Vec<AccountId> = match self.rollback_approvals.remove(&proposal_id) {
            Some(v) => v,
            None => Vec::new(),
        };
        list.push(signer);
        self.rollback_approvals.insert(proposal_id, list);
        proposal.approval_count = proposal.approval_count + 1;
        self.rollback_proposals.insert(proposal_id, proposal);
        self.events.push(MultisigEvent::RollbackApproved {
            id: proposal_id,
            signer,
            approval_count: proposal.approval_count,
        });
        proof {
            assert forall|id: u32| #[trigger] self.rollback_proposals@.contains_key(id) implies {
                &&& self.rollback_proposals@[id].id == id
                &&& self.rollback_approvals@.contains_key(id)
                &&& self.rollback_approvals@[id]@.len() == self.rollback_proposals@[id].approval_count
                &&& self.rollback_approvals@[id]@.no_duplicates()
            } by {
                assert(old(self).rollback_proposals@.contains_key(id));
            }
        }
        Ok(())
    }

    pub open spec fn execute_rollback_outcome(&self, id: u32) -> Result<(), Error> {
        if !self.rollback_proposals@.contains_key(id) {
            Err(Error::ProposalNotFound)
        } else if self.rollback_proposals@[id].executed {
            Err(Error::AlreadyExecuted)
        } else if self.rollback_proposals@[id].approval_count < EMERGENCY_THRESHOLD {
            Err(Error::BelowThreshold)
        } else if !self.snapshots@.contains_key(self.rollback_proposals@[id].snapshot_id) {
            Err(Error::ProposalNotFound)
        } else {
            Ok(())
        }
    }

    /// Execute an emergency rollback approved by at least
    /// `EMERGENCY_THRESHOLD` emergency signers: restore the snapshot's
    /// threshold, signer count and proposal count, and switch the contract
    /// code back to the proposal's hash.
    pub fn execute_emergency_rollback(&mut self, proposal_id: u32) -> (r: Result<(), Error>)
        requires
            old(self).wf(),
        ensures
            final(self).wf(),
            r == old(self).execute_rollback_outcome(proposal_id),
            r is Err ==> *final(self) == *old(self),
            r is Ok ==> {
                let p = old(self).rollback_proposals@[proposal_id];
                let cfg = old(self).snapshots@[p.snapshot_id];
                &&& old(self).rollback_approvals@[proposal_id]@.len() >= EMERGENCY_THRESHOLD
                &&& final(self).threshold == Some(cfg.threshold)
                &&& final(self).signer_count == cfg.signer_count
                &&& final(self).proposal_count == cfg.proposal_count
                &&& final(self).wasm_hash == p.old_wasm_hash
                &&& final(self).rollback_proposals@ == old(self).rollback_proposals@.insert(
                    proposal_id,
                    RollbackProposal { executed: true, ..p },
                )
                &&& final(self).events@ == old(self).events@.push(MultisigEvent::RollbackExecuted {
                    id: proposal_id,
                    snapshot_id: p.snapshot_id,
                    wasm_hash: p.old_wasm_hash,
                })
                &&& *final(self) == (MultisigAdminContract {
                    threshold: final(self).threshold,
                    signer_count: final(self).signer_count,
                    proposal_count: final(self).proposal_count,
                    wasm_hash: final(self).wasm_hash,
                    rollback_proposals: final(self).rollback_proposals,
                    events: final(self).events,
                    ..*old(self)
                })
            },
    {
        let mut proposal = match self.rollback_proposals.get(&proposal_id) {
            Some(p) => *p,
            None => return Err(Error::ProposalNotFound),
        };
        if proposal.executed {
            return Err(Error::AlreadyExecuted);
        }
        if proposal.approval_count < EMERGENCY_THRESHOLD {
            return Err(Error::BelowThreshold);
        }
        let config = match self.snapshots.get(&proposal.snapshot_id) {
            Some(c) => *c,
            None => return Err(Error::ProposalNotFound),
        };
        self.threshold = Some(config.threshold);
        self.signer_count = config.signer_count;
        self.proposal_count = config.proposal_count;
        self.wasm_hash = proposal.old_wasm_hash;
        proposal.executed = true;
        self.rollback_proposals.insert(proposal_id, proposal);
        self.events.push(MultisigEvent::RollbackExecuted {
            id: proposal_id,
            snapshot_id: proposal.snapshot_id,
            wasm_hash: proposal.old_wasm_hash,
        });
        proof {
            assert forall|id: u32| #[trigger] self.rollback_proposals@.contains_key(id) implies {
                &&& self.rollback_proposals@[id].id == id
                &&& self.rollback_approvals@.contains_key(id)
                &&& self.rollback_approvals@[id]@.len() == self.rollback_proposals@[id].approval_count
                &&& self.rollback_approvals@[id]@.no_duplicates()
            } by {
                assert(old(self).rollback_proposals@.contains_key(id));
            }
        }
        Ok(())
    }

    pub fn get_gov_snapshot_meta(&self, snapshot_id: u32) -> (r: Option<SnapshotMeta>)
        ensures
            r == (if self.snapshot_meta@.contains_key(snapshot_id) { Some(self.snapshot_meta@[snapshot_id]) } else { None }),
    {
        match self.snapshot_meta.get(&snapshot_id) {
            Some(m) => Some(*m),
            None => None,
        }
    }

    pub fn get_gov_snapshot_index(&self) -> (r: Vec<u32>)
        ensures
            r@ == self.snapshot_index@,
    {
        let mut out: Vec<u32> = Vec::new();
        let mut i: usize = 0;
        while i < self.snapshot_index.len()
            invariant
                i <= self.snapshot_index@.len(),
                out@ == self.snapshot_index@.subrange(0, i as int),
            decreases self.snapshot_index@.len() - i,
        {
            out.push(self.snapshot_index[i]);
            i = i + 1;
            assert(out@ == self.snapshot_index@.subrange(0, i as int));
        }
        assert(self.snapshot_index@.subrange(0, self.snapshot_index@.len() as int) == self.snapshot_index@);
        out
    }

    pub fn get_gov_rollback_proposal(&self, proposal_id: u32) -> (r: Option<RollbackProposal>)
        ensures
            r == (if self.rollback_proposals@.contains_key(proposal_id) {
                Some(self.rollback_proposals@[proposal_id])
            } else {
                None
            }),
    {
        match self.rollback_proposals.get(&proposal_id) {
            Some(p) => Some(*p),
            None => None,
        }
    }

    pub fn get_proposal(&self, action_id: u32) -> (r: Result<ProposalRecord, Error>)
        ensures
            !self.proposals@.contains_key(action_id) ==> r == Err::<ProposalRecord, Error>(Error::ProposalNotFound),
            self.proposals@.contains_key(action_id) ==> r is Ok && r->Ok_0.same_as(self.proposals@[action_id]),
    {
        match self.proposals.get(&action_id) {
            Some(p) => Ok(p.duplicate()),
            None => Err(Error::ProposalNotFound),
        }
    }

    pub fn is_signer(&self, address: AccountId) -> (r: Result<bool, Error>)
        ensures
            r == (if self.threshold is None {
                Err(Error::NotInitialized)
            } else {
                Ok(self.signers@.contains(address))
            }),
    {
        if self.threshold.is_none() {
            return Err(Error::NotInitialized);
        }
        Ok(self.signers.contains(&address))
    }

    pub fn get_threshold(&self) -> (r: Result<u32, Error>)
        ensures
            r == (match self.threshold {
                Some(t) => Ok(t),
                None => Err(Error::NotInitialized),
            }),
    {
        match self.threshold {
            Some(t) => Ok(t),
            None => Err(Error::NotInitialized),
        }
    }

    pub fn get_signer_count(&self) -> (r: Result<u32, Error>)
        ensures
            r == (if self.threshold is None { Err(Error::NotInitialized) } else { Ok(self.signer_count) }),
    {
        if self.threshold.is_none() {
            return Err(Error::NotInitialized);
        }
        Ok(self.signer_count)
    }

    pub fn new(contract_address: AccountId, wasm_hash: Hash32) -> (r: Self)
        ensures
            r.wf(),
            r.contract_address == contract_address,
            r.threshold is None,
            r.wasm_hash == wasm_hash,
            r.events@.len() == 0,
    {
        MultisigAdminContract {
            contract_address,
            threshold: None,
            signer_count: 0,
            proposal_count: 0,
            signers: HashSet::new(),
            proposals: HashMap::new(),
            approvals: HashMap::new(),
            snapshots: HashMap::new(),
            snapshot_meta: HashMap::new(),
            snapshot_index: Vec::new(),
            emergency_signers: None,
            rollback_proposals: HashMap::new(),
            rollback_approvals: HashMap::new(),
            rollback_count: 0,
            wasm_hash,
            events: Vec::new(),
        }
    }

    /// Set up the signer set and the approval threshold. The threshold must
    /// lie in `1..=signers.len()` and the signers must be distinct.
    pub fn initialize(&mut self, signers: &Vec<AccountId>, threshold: u32) -> (r: Result<(), Error>)
        requires
            old(self).wf(),
            signers@.len() <= u32::MAX,
        ensures
            final(self).wf(),
            r == (if old(self).threshold is Some {
                Err(Error::AlreadyInitialized)
            } else if signers@.len() == 0 || threshold == 0 || threshold > signers@.len() {
                Err(Error::InvalidThreshold)
            } else if !signers@.no_duplicates() {
                Err(Error::AlreadySigner)
            } else {
                Ok(())
            }),
            r is Err ==> *final(self) == *old(self),
            r is Ok ==> *final(self) == (MultisigAdminContract {
                threshold: Some(threshold),
                signer_count: signers@.len() as u32,
                proposal_count: 0,
                signers: final(self).signers,
                events: final(self).events,
                ..*old(self)
            }) && final(self).signers@ == signers@.to_set() && final(self).events@ == old(self).events@.push(
                MultisigEvent::Initialized { signer_count: signers@.len() as u32, threshold },
            ),
    {
        if self.threshold.is_some() {
            return Err(Error::AlreadyInitialized);
        }
        if signers.len() == 0 || threshold == 0 {
            return Err(Error::InvalidThreshold);
        }
        if threshold as usize > signers.len() {
            return Err(Error::InvalidThreshold);
        }
        if !all_distinct(signers) {
            return Err(Error::AlreadySigner);
        }
        let mut set: HashSet<AccountId> = HashSet::new();
        let mut i: usize = 0;
        while i < signers.len()
            invariant
                i <= signers@.len(),
                set@ == signers@.subrange(0, i as int).to_set(),
            decreases signers@.len() - i,
        {
            set.insert(signers[i]);
            proof {
                assert(signers@.subrange(0, i + 1) == signers@.subrange(0, i as int).push(signers@[i as int]));
                signers@.subrange(0, i as int).lemma_push_to_set_commute(signers@[i as int]);
            }
            i = i + 1;
        }
        assert(signers@.subrange(0, signers@.len() as int) == signers@);
        proof {
            vstd::seq_lib::seq_to_set_is_finite(signers@);
        }
        self.signers = set;
        self.threshold = Some(threshold);
        self.signer_count = signers.len() as u32;
        self.proposal_count = 0;
        self.events.push(MultisigEvent::Initialized { signer_count: signers.len() as u32, threshold });
        Ok(())
    }
}


/// A proposal that passes the execution gate has at least `threshold`
/// distinct recorded approvers.
pub proof fn lemma_execution_needs_threshold_approvers(c: MultisigAdminContract, id: u32, now: u64)
    requires
        c.wf(),
        c.execute_gate(id, now) is Ok,
    ensures
        c.approvers(id).no_duplicates(),
        c.approvers(id).len() >= c.threshold->0,
{
    assert(c.proposals@.contains_key(id));
    assert(c.wf_proposal(id));
}

/// An emergency rollback that may execute carries at least
/// `EMERGENCY_THRESHOLD` distinct approving emergency signers.
pub proof fn lemma_rollback_needs_emergency_quorum(c: MultisigAdminContract, id: u32)
    requires
        c.wf(),
        c.execute_rollback_outcome(id) is Ok,
    ensures
        c.rollback_approvals@.contains_key(id),
        c.rollback_approvals@[id]@.no_duplicates(),
        c.rollback_approvals@[id]@.len() >= EMERGENCY_THRESHOLD,
{
    assert(c.rollback_proposals@.contains_key(id));
}

} // verus!
