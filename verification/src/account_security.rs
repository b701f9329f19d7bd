//! Account lockout and cross-platform identity correlation.
use vstd::prelude::*;

use crate::common::AccountId;

verus! {

/// Maximum number of failed login attempts before lockout.
pub const MAX_FAILED_ATTEMPTS: u32 = 5;

/// Lockout duration (seconds) after exceeding max failed attempts.
pub const LOCKOUT_DURATION_SECS: u64 = 3_600;

/// Maximum number of device signatures retained per user.
pub const MAX_DEVICE_SIGNATURES: u32 = 10;

/// Threshold (basis points) for cross-platform identity correlation.
pub const CROSS_PLATFORM_CORRELATION_THRESHOLD_BPS: u32 = 7_000;

/// Window (seconds) for behavioral analysis.
pub const BEHAVIORAL_WINDOW_SECS: u64 = 86_400;

#[derive(Clone, Copy, Debug, PartialEq, Eq, Structural)]
pub struct AccountSecurityRecord {
    pub user: AccountId,
    pub failed_attempts: u32,
    pub locked_until: u64,
    pub last_login_at: u64,
    pub mfa_verified: bool,
}

#[derive(Clone, Copy, Debug, PartialEq, Eq, Structural)]
pub struct CrossPlatformIdentity {
    pub user: AccountId,
    pub platform_id: u64,
    pub correlation_score: u32,
    pub verified: bool,
}

#[derive(Clone, Copy, Debug, PartialEq, Eq, Structural)]
pub enum FraudType {
    AccountTakeover,
    IdentitySpoofing,
    MultiAccountAbuse,
    CredentialStuffing,
}

#[derive(Clone, Copy, Debug, PartialEq, Eq, Structural)]
pub struct FraudAlert {
    pub user: AccountId,
    pub alert_type: FraudType,
    pub confidence_bps: u32,
    pub detected_at: u64,
}

/// An account is locked while its lockout end lies in the future.
pub open spec fn is_locked_spec(record: AccountSecurityRecord, now: u64) -> bool {
    record.locked_until > now
}

/// Whether an account is currently locked out.
pub fn is_account_locked(record: &AccountSecurityRecord, now: u64) -> (r: bool)
    ensures
        r == is_locked_spec(*record, now),
{
    record.locked_until > now
}

/// Record a failed login attempt; the lockout starts once the attempt count
/// reaches `MAX_FAILED_ATTEMPTS`.
pub fn record_failed_attempt(record: &mut AccountSecurityRecord, now: u64)
    ensures
        final(record).failed_attempts == old(record).failed_attempts.saturating_add(1),
        final(record).locked_until == (if final(record).failed_attempts >= MAX_FAILED_ATTEMPTS {
            now.saturating_add(LOCKOUT_DURATION_SECS)
        } else {
            old(record).locked_until
        }),
        final(record).failed_attempts >= MAX_FAILED_ATTEMPTS && now + LOCKOUT_DURATION_SECS
            <= u64::MAX ==> is_locked_spec(*final(record), now),
        final(record).user == old(record).user,
        final(record).last_login_at == old(record).last_login_at,
        final(record).mfa_verified == old(record).mfa_verified,
{
    record.failed_attempts = record.failed_attempts.saturating_add(1);
    if record.failed_attempts >= MAX_FAILED_ATTEMPTS {
        record.locked_until = now.saturating_add(LOCKOUT_DURATION_SECS);
    }
}

/// Reset failed attempts on a successful login.
pub fn record_successful_login(record: &mut AccountSecurityRecord, now: u64)
    ensures
        *final(record) == (AccountSecurityRecord {
            failed_attempts: 0,
            locked_until: 0,
            last_login_at: now,
            ..*old(record)
        }),
        forall|t: u64| !is_locked_spec(*final(record), t),
{
    record.failed_attempts = 0;
    record.locked_until = 0;
    record.last_login_at = now;
}

/// The correlation score in basis points: `shared * 10_000 / total`, or 0
/// when there are no attributes.
pub open spec fn correlation_score_spec(shared_attributes: u32, total_attributes: u32) -> u32 {
    if total_attributes == 0 {
        0
    } else {
        ((shared_attributes as int * 10_000) / (total_attributes as int)) as u32
    }
}

/// Compute a cross-platform correlation score from shared attributes.
/// The quotient is truncated to 32 bits, as the cast does.
pub fn compute_correlation_score(shared_attributes: u32, total_attributes: u32) -> (r: u32)
    ensures
        r == correlation_score_spec(shared_attributes, total_attributes),
{
    if total_attributes == 0 {
        return 0;
    }
    let num: u64 = shared_attributes as u64 * 10_000;
    let q: u64 = num / (total_attributes as u64);
    #[verifier::truncate]
    (q as u32)
}

/// Whether the correlation score warrants an identity match.
pub fn is_identity_match(correlation_score: u32) -> (r: bool)
    ensures
        r == (correlation_score >= CROSS_PLATFORM_CORRELATION_THRESHOLD_BPS),
{
    correlation_score >= CROSS_PLATFORM_CORRELATION_THRESHOLD_BPS
}

} // verus!
