//! Atomic state transitions: the records that describe a guarded transition
//! of an entity, the checkpoint and timeout checks, and the preimage whose
//! digest proves a transition.
use vstd::prelude::*;

use crate::common::{AccountId, Hash32, SymbolId};
use soroban_sdk::{Bytes, Env};

verus! {

/// A transition must complete within 5 minutes.
pub const STATE_TRANSITION_TIMEOUT_SECS: u64 = 300;
/// Lifetime of a transition lock, in ledgers.
pub const STATE_TRANSITION_LOCK_TTL: u32 = 50_000;
pub const MAX_CHECKPOINT_COUNT: u32 = 10;

#[derive(Clone, Copy, Debug, PartialEq, Eq, Structural)]
pub struct StateTransitionContext {
    pub transition_id: Hash32,
    pub entity_id: u64,
    pub pre_state: SymbolId,
    pub post_state: SymbolId,
    pub started_at: u64,
    pub timeout_at: u64,
    pub checkpoints_passed: u32,
    pub total_checkpoints: u32,
    pub lock_holder: AccountId,
    pub rollback_initiated: bool,
}

#[derive(Clone, Copy, Debug, PartialEq, Eq, Structural)]
pub struct PreConditionCheck {
    pub entity_id: u64,
    pub required_state: SymbolId,
    pub min_amount: i128,
    pub max_amount: i128,
    pub time_constraint: u64,
    pub custom_validation_passed: bool,
}

#[derive(Clone, Copy, Debug, PartialEq, Eq, Structural)]
pub struct PostConditionCheck {
    pub required_state: SymbolId,
    pub balance_consistent: bool,
    pub cross_contract_consistent: bool,
    pub integrity_maintained: bool,
    pub validated_at: u64,
}

#[derive(Clone, Copy, Debug, PartialEq, Eq, Structural)]
pub struct CrossContractStateCheck {
    pub peer_contract: AccountId,
    pub peer_entity_id: u64,
    pub expected_peer_state: SymbolId,
    pub actual_peer_state: SymbolId,
    pub states_consistent: bool,
}

#[derive(Clone, Copy, Debug, PartialEq, Eq, Structural)]
pub struct StateTransitionProof {
    pub transition_type: SymbolId,
    pub from_state: SymbolId,
    pub to_state: SymbolId,
    pub is_valid_transition: bool,
    pub preconditions_verified: bool,
    pub postconditions_verified: bool,
    pub invariant_maintained: bool,
    pub proof_hash: Hash32,
}

#[derive(Clone, Copy, Debug, PartialEq, Eq, Structural)]
pub struct InvalidStateRecord {
    pub entity_id: u64,
    pub invalid_state: SymbolId,
    pub expected_valid_states: u32,
    pub detected_at: u64,
    pub recovery_attempted: bool,
    pub recovery_successful: bool,
    pub invalidity_reason: SymbolId,
}

/// Every required checkpoint has been passed.
pub fn all_checkpoints_passed(context: &StateTransitionContext) -> (r: bool)
    ensures
        r == (context.checkpoints_passed >= context.total_checkpoints),
{
    context.checkpoints_passed >= context.total_checkpoints
}

/// The transition's deadline has been reached.
pub fn is_transition_expired(context: &StateTransitionContext, now: u64) -> (r: bool)
    ensures
        r == (now >= context.timeout_at),
{
    now >= context.timeout_at
}

/// The ASCII tag `state_transition` that labels both states in a proof
/// preimage.
pub open spec fn transition_tag() -> Seq<u8> {
    seq![115u8, 116, 97, 116, 101, 95, 116, 114, 97, 110, 115, 105, 116, 105, 111, 110]
}

/// The `n` low bytes of `x`, least significant first.
pub open spec fn le_bytes(x: nat, n: nat) -> Seq<u8>
    decreases n,
{
    if n == 0 {
        Seq::empty()
    } else {
        seq![(x % 256) as u8] + le_bytes(x / 256, (n - 1) as nat)
    }
}

/// The bytes whose SHA-256 digest is the proof hash of a transition at
/// `timestamp`: the state tag for the source state, the tag for the target
/// state, then the timestamp in little-endian order. The states themselves
/// do not enter the preimage.
pub fn transition_proof_preimage(from_state: SymbolId, to_state: SymbolId, timestamp: u64) -> (r: Vec<u8>)
    ensures
        r@ == transition_tag() + transition_tag() + le_bytes(timestamp as nat, 8),
{
    let tag: [u8; 16] = [115u8, 116, 97, 116, 101, 95, 116, 114, 97, 110, 115, 105, 116, 105, 111, 110];
    assert(tag@ == transition_tag());
    let mut out: Vec<u8> = Vec::new();
    let mut round: usize = 0;
    while round < 2
        invariant
            round <= 2,
            tag@ == transition_tag(),
            round == 0 ==> out@ == Seq::<u8>::empty(),
            round == 1 ==> out@ == transition_tag(),
            round == 2 ==> out@ == transition_tag() + transition_tag(),
        decreases 2 - round,
    {
        let ghost before = out@;
        let mut j: usize = 0;
        while j < 16
            invariant
                j <= 16,
                tag@ == transition_tag(),
                out@ == before + tag@.subrange(0, j as int),
            decreases 16 - j,
        {
            out.push(tag[j]);
            j = j + 1;
            assert(out@ == before + tag@.subrange(0, j as int));
        }
        assert(tag@.subrange(0, 16) == tag@);
        round = round + 1;
    }
    let ghost prefix = out@;
    let mut x: u64 = timestamp;
    let mut k: usize = 0;
    while k < 8
        invariant
            k <= 8,
            out@ + le_bytes(x as nat, (8 - k) as nat) == prefix + le_bytes(timestamp as nat, 8),
        decreases 8 - k,
    {
        let ghost rest = le_bytes((x / 256) as nat, (8 - k - 1) as nat);
        assert(le_bytes(x as nat, (8 - k) as nat) == seq![(x % 256) as u8] + rest);
        out.push((x % 256) as u8);
        x = x / 256;
        k = k + 1;
        assert(out@ + le_bytes(x as nat, (8 - k) as nat) == prefix + le_bytes(timestamp as nat, 8));
    }
    out
}


/// The SHA-256 digest of `bytes`.
pub uninterp spec fn sha256_of(bytes: Seq<u8>) -> Seq<u8>;

/// Longest input hashed through the host: the host meters hashing per byte
/// against its default budget and aborts once that is spent, which inputs
/// of this size stay far below.
pub const MAX_DIGEST_INPUT: usize = 65_536;

/// SHA-256 of `data` through the ledger host's `Crypto::sha256`
/// (soroban-sdk), on the host the current environment provides. The digest
/// is named, not described; that it has 32 bytes is its type.
#[verifier::external_body]
pub(crate) fn sha256(data: &Vec<u8>) -> (r: Vec<u8>)
    requires
        data@.len() <= MAX_DIGEST_INPUT,
    ensures
        r@ == sha256_of(data@),
        r@.len() == 32,
{
    let env = Env::default();
    env.crypto().sha256(&Bytes::from_slice(&env, data.as_slice())).to_array().to_vec()
}

/// Big-endian value of the eight bytes of `b` from `at`.
pub open spec fn be_word(b: Seq<u8>, at: int) -> u64 {
    ((((((((b[at] as int) * 256 + b[at + 1] as int) * 256 + b[at + 2] as int) * 256 + b[at + 3] as int) * 256
        + b[at + 4] as int) * 256 + b[at + 5] as int) * 256 + b[at + 6] as int) * 256 + b[at + 7] as int) as u64
}

/// A 32-byte digest as four big-endian words.
pub open spec fn words_of(b: Seq<u8>) -> Hash32 {
    Hash32 { w0: be_word(b, 0), w1: be_word(b, 8), w2: be_word(b, 16), w3: be_word(b, 24) }
}

fn read_word(b: &Vec<u8>, at: usize) -> (r: u64)
    requires
        at + 8 <= b@.len(),
    ensures
        r == be_word(b@, at as int),
{
    let mut acc: u64 = 0;
    let mut k: usize = 0;
    let n = b.len();
    while k < 8
        invariant
            k <= 8,
            at + 8 <= b@.len() == n,
            acc < pow256(k as nat),
            acc == prefix_value(b@, at as int, k as int),
            pow256(0) == 1,
        decreases 8 - k,
    {
        proof {
            lemma_prefix_step(b@, at as int, k as int);
        }
        acc = acc * 256 + b[at + k] as u64;
        k = k + 1;
    }
    proof {
        lemma_prefix_eight(b@, at as int);
    }
    acc
}

/// 256 to the power `n`.
pub open spec fn pow256(n: nat) -> int
    decreases n,
{
    if n == 0 { 1 } else { 256 * pow256((n - 1) as nat) }
}

/// Big-endian value of the `k` bytes of `b` from `at`.
pub open spec fn prefix_value(b: Seq<u8>, at: int, k: int) -> int
    decreases k,
{
    if k <= 0 { 0 } else { prefix_value(b, at, k - 1) * 256 + b[at + k - 1] as int }
}

proof fn lemma_prefix_step(b: Seq<u8>, at: int, k: int)
    requires
        0 <= k < 8,
        0 <= at,
        at + 8 <= b.len(),
        0 <= prefix_value(b, at, k) < pow256(k as nat),
    ensures
        prefix_value(b, at, k + 1) == prefix_value(b, at, k) * 256 + b[at + k] as int,
        0 <= prefix_value(b, at, k + 1) < pow256((k + 1) as nat),
        pow256((k + 1) as nat) <= pow256(8),
        pow256(8) == 0x1_0000_0000_0000_0000,
{
    assert(prefix_value(b, at, k + 1) == prefix_value(b, at, k) * 256 + b[at + k] as int);
    let p = prefix_value(b, at, k);
    let q = pow256(k as nat);
    assert(pow256((k + 1) as nat) == 256 * q);
    assert(p * 256 + (b[at + k] as int) < 256 * q) by (nonlinear_arith)
        requires
            0 <= p < q,
            0 <= b[at + k] < 256,
    ;
    reveal_with_fuel(pow256, 9);
    lemma_pow256_monotone((k + 1) as nat, 8);
}

proof fn lemma_pow256_monotone(i: nat, j: nat)
    requires
        i <= j,
    ensures
        pow256(i) <= pow256(j),
        pow256(i) >= 1,
    decreases j,
{
    if j > i {
        lemma_pow256_monotone(i, (j - 1) as nat);
    } else if i > 0 {
        lemma_pow256_monotone((i - 1) as nat, (i - 1) as nat);
    }
}

proof fn lemma_prefix_eight(b: Seq<u8>, at: int)
    ensures
        prefix_value(b, at, 8) < 0x1_0000_0000_0000_0000 ==> prefix_value(b, at, 8) as u64 == be_word(b, at),
{
    reveal_with_fuel(prefix_value, 9);
}

/// Read a 32-byte digest as four big-endian words.
pub fn digest_words(digest: &Vec<u8>) -> (r: Hash32)
    requires
        digest@.len() == 32,
    ensures
        r == words_of(digest@),
{
    Hash32 { w0: read_word(digest, 0), w1: read_word(digest, 8), w2: read_word(digest, 16), w3: read_word(digest, 24) }
}

/// The `n` low bytes of `x`, most significant first.
pub open spec fn be_bytes(x: nat, n: nat) -> Seq<u8>
    decreases n,
{
    if n == 0 {
        Seq::empty()
    } else {
        be_bytes(x / 256, (n - 1) as nat).push((x % 256) as u8)
    }
}

pub proof fn lemma_le_bytes_len(x: nat, n: nat)
    ensures
        le_bytes(x, n).len() == n,
    decreases n,
{
    if n > 0 {
        lemma_le_bytes_len(x / 256, (n - 1) as nat);
    }
}

pub proof fn lemma_be_bytes_len(x: nat, n: nat)
    ensures
        be_bytes(x, n).len() == n,
    decreases n,
{
    if n > 0 {
        lemma_be_bytes_len(x / 256, (n - 1) as nat);
    }
}

/// Append the `n` low bytes of `x`, most significant first.
pub(crate) fn append_be(out: &mut Vec<u8>, x: u64, n: usize)
    ensures
        final(out)@ == old(out)@ + be_bytes(x as nat, n as nat),
    decreases n,
{
    if n > 0 {
        append_be(out, x / 256, n - 1);
        out.push((x % 256) as u8);
        assert(out@ =~= old(out)@ + be_bytes(x as nat, n as nat));
    } else {
        assert(out@ =~= old(out)@ + be_bytes(x as nat, n as nat));
    }
}

/// Append all of `src`.
pub(crate) fn append_all(out: &mut Vec<u8>, src: &Vec<u8>)
    ensures
        final(out)@ == old(out)@ + src@,
{
    let ghost start = out@;
    let mut i: usize = 0;
    while i < src.len()
        invariant
            i <= src@.len(),
            out@ == start + src@.subrange(0, i as int),
        decreases src@.len() - i,
    {
        out.push(src[i]);
        i = i + 1;
        assert(out@ =~= start + src@.subrange(0, i as int));
    }
    assert(src@.subrange(0, src@.len() as int) =~= src@);
}

/// The preimage of the proof hash of a transition at `timestamp`.
pub open spec fn transition_preimage(timestamp: u64) -> Seq<u8> {
    transition_tag() + transition_tag() + le_bytes(timestamp as nat, 8)
}

/// The proof hash of a state transition at `timestamp`: the SHA-256 digest
/// of its preimage.
pub fn compute_transition_proof_hash(from_state: SymbolId, to_state: SymbolId, timestamp: u64) -> (r: Hash32)
    ensures
        r == words_of(sha256_of(transition_preimage(timestamp))),
{
    let preimage = transition_proof_preimage(from_state, to_state, timestamp);
    proof {
        lemma_le_bytes_len(timestamp as nat, 8);
    }
    let digest = sha256(&preimage);
    digest_words(&digest)
}

} // verus!
