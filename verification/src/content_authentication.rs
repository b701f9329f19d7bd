//! Content authentication: watermarks and ownership records that bind an
//! owner to a content hash through a digest taken by the ledger host. The
//! owner and the content hash enter a digest by their XDR encodings.
use vstd::prelude::*;

use crate::assessment_authenticity::MAX_ID_XDR_LEN;
use crate::atomic_state::{
    append_all, append_be, be_bytes, digest_words, lemma_be_bytes_len, sha256, sha256_of, words_of,
};
use crate::common::{AccountId, Hash32, SymbolId};

verus! {

pub const WATERMARK_VERIFICATION_THRESHOLD_BPS: u32 = 8_000;
/// One year.
pub const MAX_WATERMARK_AGE_SECS: u64 = 31_536_000;
pub const MIN_SIGNATURE_LENGTH: usize = 32;
pub const CONTENT_HASH_SIZE: usize = 32;

/// A watermark: `signature` is the digest of owner, content hash and nonce.
#[derive(Clone, Copy, Debug, PartialEq, Eq, Structural)]
pub struct DigitalWatermark {
    pub owner: AccountId,
    pub content_hash: SymbolId,
    pub timestamp: u64,
    pub nonce: u64,
    pub signature: Hash32,
}

#[derive(Clone, Copy, Debug, PartialEq, Eq, Structural)]
pub struct AuthenticationResult {
    pub is_authentic: bool,
    pub owner: AccountId,
    pub creation_time: u64,
    pub tamper_detected: bool,
    /// Basis points (0-10000).
    pub integrity_score: u32,
}

/// An ownership record: `ownership_proof` is the digest of owner, content
/// hash and registration time.
#[derive(Clone, Copy, Debug, PartialEq, Eq, Structural)]
pub struct OwnershipRecord {
    pub owner: AccountId,
    pub content_hash: SymbolId,
    pub ownership_proof: Hash32,
    pub registration_time: u64,
    pub last_verified: u64,
    pub verification_count: u32,
}

/// The digest binding an owner to a content hash and a number (a nonce or
/// a time): SHA-256 of the owner's XDR encoding, the content hash's XDR
/// encoding and the number as eight big-endian bytes.
pub open spec fn binding_digest(owner_xdr: Seq<u8>, content_xdr: Seq<u8>, n: u64) -> Hash32 {
    words_of(sha256_of(owner_xdr + content_xdr + be_bytes(n as nat, 8)))
}

fn binding(owner_xdr: &Vec<u8>, content_xdr: &Vec<u8>, n: u64) -> (r: Hash32)
    requires
        owner_xdr@.len() <= MAX_ID_XDR_LEN,
        content_xdr@.len() <= MAX_ID_XDR_LEN,
    ensures
        r == binding_digest(owner_xdr@, content_xdr@, n),
{
    let mut bytes: Vec<u8> = Vec::new();
    append_all(&mut bytes, owner_xdr);
    append_all(&mut bytes, content_xdr);
    append_be(&mut bytes, n, 8);
    proof {
        lemma_be_bytes_len(n as nat, 8);
        assert(bytes@ =~= owner_xdr@ + content_xdr@ + be_bytes(n as nat, 8));
    }
    let digest = sha256(&bytes);
    digest_words(&digest)
}

/// A watermark made at `now` whose signature binds the owner (XDR encoding
/// `owner_xdr`) to the content hash (XDR encoding `content_xdr`) and the
/// nonce.
pub fn create_watermark(
    owner: AccountId,
    owner_xdr: &Vec<u8>,
    content_hash: SymbolId,
    content_xdr: &Vec<u8>,
    nonce: u64,
    now: u64,
) -> (r: DigitalWatermark)
    requires
        owner_xdr@.len() <= MAX_ID_XDR_LEN,
        content_xdr@.len() <= MAX_ID_XDR_LEN,
    ensures
        r == (DigitalWatermark {
            owner,
            content_hash,
            timestamp: now,
            nonce,
            signature: binding_digest(owner_xdr@, content_xdr@, nonce),
        }),
{
    let signature = binding(owner_xdr, content_xdr, nonce);
    DigitalWatermark { owner, content_hash, timestamp: now, nonce, signature }
}

/// Whether the watermark is less than a year old at `now`.
pub open spec fn watermark_fresh(watermark: DigitalWatermark, now: u64) -> bool {
    (if now >= watermark.timestamp { now - watermark.timestamp } else { 0 }) < MAX_WATERMARK_AGE_SECS
}

/// Check a watermark against `content_hash`; its signature is recomputed
/// from the watermark's own owner and content hash (XDR encodings
/// `owner_xdr` and `content_xdr`) and nonce. Authentic means the content
/// and signature match and the mark is fresh; tampering means either does
/// not match.
pub fn verify_watermark(
    watermark: &DigitalWatermark,
    owner_xdr: &Vec<u8>,
    content_xdr: &Vec<u8>,
    content_hash: SymbolId,
    now: u64,
) -> (r: AuthenticationResult)
    requires
        owner_xdr@.len() <= MAX_ID_XDR_LEN,
        content_xdr@.len() <= MAX_ID_XDR_LEN,
    ensures
        ({
            let content_matches = watermark.content_hash == content_hash;
            let signature_matches = watermark.signature == binding_digest(owner_xdr@, content_xdr@, watermark.nonce);
            let authentic = content_matches && signature_matches && watermark_fresh(*watermark, now);
            r == (AuthenticationResult {
                is_authentic: authentic,
                owner: watermark.owner,
                creation_time: watermark.timestamp,
                tamper_detected: !signature_matches || !content_matches,
                integrity_score: if authentic { 10_000 } else { 0 },
            })
        }),
{
    let expected_signature = binding(owner_xdr, content_xdr, watermark.nonce);
    let age = now.saturating_sub(watermark.timestamp);
    let is_reasonably_fresh = age < MAX_WATERMARK_AGE_SECS;
    let content_matches = watermark.content_hash == content_hash;
    let signature_matches = watermark.signature == expected_signature;
    let is_authentic = content_matches && signature_matches && is_reasonably_fresh;
    AuthenticationResult {
        is_authentic,
        owner: watermark.owner,
        creation_time: watermark.timestamp,
        tamper_detected: !signature_matches || !content_matches,
        integrity_score: if is_authentic { 10_000 } else { 0 },
    }
}

/// A fresh ownership record registered at `now`, whose proof binds the
/// owner (XDR encoding `owner_xdr`) to the content hash (XDR encoding
/// `content_xdr`) and the registration time.
pub fn register_ownership(
    owner: AccountId,
    owner_xdr: &Vec<u8>,
    content_hash: SymbolId,
    content_xdr: &Vec<u8>,
    now: u64,
) -> (r: OwnershipRecord)
    requires
        owner_xdr@.len() <= MAX_ID_XDR_LEN,
        content_xdr@.len() <= MAX_ID_XDR_LEN,
    ensures
        r == (OwnershipRecord {
            owner,
            content_hash,
            ownership_proof: binding_digest(owner_xdr@, content_xdr@, now),
            registration_time: now,
            last_verified: now,
            verification_count: 1,
        }),
{
    let ownership_proof = binding(owner_xdr, content_xdr, now);
    OwnershipRecord {
        owner,
        content_hash,
        ownership_proof,
        registration_time: now,
        last_verified: now,
        verification_count: 1,
    }
}

/// The record belongs to `owner` and `content_hash` (XDR encodings
/// `owner_xdr` and `content_xdr`) and carries the proof recomputed from
/// them and its registration time.
pub fn verify_ownership(
    record: &OwnershipRecord,
    owner: AccountId,
    owner_xdr: &Vec<u8>,
    content_hash: SymbolId,
    content_xdr: &Vec<u8>,
) -> (r: bool)
    requires
        owner_xdr@.len() <= MAX_ID_XDR_LEN,
        content_xdr@.len() <= MAX_ID_XDR_LEN,
    ensures
        r == (record.owner == owner && record.content_hash == content_hash
            && record.ownership_proof == binding_digest(owner_xdr@, content_xdr@, record.registration_time)),
{
    let expected_proof = binding(owner_xdr, content_xdr, record.registration_time);
    record.owner == owner && record.content_hash == content_hash && record.ownership_proof == expected_proof
}

} // verus!
