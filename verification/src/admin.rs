//! Timelocked admin transfer: proposal states and the delays that govern
//! a change of admin.
use vstd::prelude::*;

use crate::common::AccountId;

verus! {

/// State of an admin change proposal.
#[derive(Clone, Copy, Debug, PartialEq, Eq, Structural)]
pub enum AdminChangeProposal {
    Proposed,
    Accepted,
    Revoked,
}

/// A pending admin transfer.
#[derive(Clone, Copy, Debug, PartialEq, Eq, Structural)]
pub struct AdminTransfer {
    pub new_admin: AccountId,
    pub effective_at: u64,
    pub status: AdminChangeProposal,
}

/// Minimum delay before a new admin can accept the role: 48 hours.
pub const MIN_ADMIN_TIMELOCK_SECS: u64 = 172_800;

/// Cooling-off period between consecutive admin changes: 24 hours.
pub const ADMIN_COOLING_OFF_SECS: u64 = 86_400;

} // verus!
