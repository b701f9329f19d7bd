//! Assessment authenticity: multi-source validation results, consensus on
//! an assessment's authenticity, and source diversity.
use vstd::prelude::*;

use crate::atomic_state::{
    append_all, append_be, be_bytes, digest_words, lemma_be_bytes_len, sha256, sha256_of, words_of,
};
use crate::common::{AccountId, Hash32, SymbolId};

verus! {

/// Minimum distinct validation sources for authenticity.
pub const MIN_VALIDATION_SOURCES: u32 = 3;
/// Agreement (bps) needed among validators for consensus.
pub const VALIDATION_CONSENSUS_BPS: u32 = 8000;
/// Maximum age of a validation: 30 days.
pub const MAX_VALIDATION_AGE_SECS: u64 = 2_592_000;
/// Longest XDR encoding of an identifier (a symbol or an address) that is
/// hashed; real encodings are a few dozen bytes.
pub const MAX_ID_XDR_LEN: usize = 1024;

#[derive(Clone, Copy, Debug, PartialEq, Eq, Structural)]
pub enum ValidationSource {
    MentorAssessment,
    PeerReview,
    AutomatedCheck,
    ExternalOracle,
    LearnerSelfAssessment,
    PlatformAudit,
}

#[derive(Clone, Copy, Debug, PartialEq, Eq, Structural)]
pub struct ValidationResult {
    pub source: ValidationSource,
    pub validator: AccountId,
    pub assessment_id: SymbolId,
    pub is_valid: bool,
    /// 0-10000.
    pub confidence_bps: u32,
    pub evidence_hash: Hash32,
    pub validated_at: u64,
    pub details: SymbolId,
}

/// The bytes an attestation of an assessment commits to, before its time:
/// the XDR encoding of the assessment id, then the confidence as four
/// big-endian bytes.
pub open spec fn attestation_preimage(assessment_id_xdr: Seq<u8>, confidence_bps: u32) -> Seq<u8> {
    assessment_id_xdr + be_bytes(confidence_bps as nat, 4)
}

/// The on-chain attestation of an assessment verified at `timestamp`: the
/// SHA-256 digest of the preimage followed by the time as eight big-endian
/// bytes.
pub open spec fn attestation_of(assessment_id_xdr: Seq<u8>, confidence_bps: u32, timestamp: u64) -> Hash32 {
    words_of(sha256_of(attestation_preimage(assessment_id_xdr, confidence_bps) + be_bytes(timestamp as nat, 8)))
}

fn attestation_bytes(assessment_id_xdr: &Vec<u8>, confidence_bps: u32) -> (r: Vec<u8>)
    requires
        assessment_id_xdr@.len() <= MAX_ID_XDR_LEN,
    ensures
        r@ == attestation_preimage(assessment_id_xdr@, confidence_bps),
        r@.len() <= MAX_ID_XDR_LEN + 4,
{
    let mut bytes: Vec<u8> = Vec::new();
    append_all(&mut bytes, assessment_id_xdr);
    append_be(&mut bytes, confidence_bps as u64, 4);
    proof {
        lemma_be_bytes_len(confidence_bps as nat, 4);
        assert(bytes@ =~= attestation_preimage(assessment_id_xdr@, confidence_bps));
    }
    bytes
}

/// The attestation of an assessment (given by the XDR encoding of its id)
/// verified with `confidence_bps` at `timestamp`.
pub fn attestation_digest(assessment_id_xdr: &Vec<u8>, confidence_bps: u32, timestamp: u64) -> (r: Hash32)
    requires
        assessment_id_xdr@.len() <= MAX_ID_XDR_LEN,
    ensures
        r == attestation_of(assessment_id_xdr@, confidence_bps, timestamp),
{
    let mut bytes = attestation_bytes(assessment_id_xdr, confidence_bps);
    append_be(&mut bytes, timestamp, 8);
    proof {
        lemma_be_bytes_len(timestamp as nat, 8);
    }
    let digest = sha256(&bytes);
    digest_words(&digest)
}

/// Whether `attestation` is the digest of the assessment id (its XDR
/// encoding) and the expected confidence; the time of the attestation does
/// not enter this check.
pub fn verify_blockchain_attestation(assessment_id_xdr: &Vec<u8>, attestation: Hash32, expected_confidence: u32) -> (r: bool)
    requires
        assessment_id_xdr@.len() <= MAX_ID_XDR_LEN,
    ensures
        r == (attestation == words_of(sha256_of(attestation_preimage(assessment_id_xdr@, expected_confidence)))),
{
    let bytes = attestation_bytes(assessment_id_xdr, expected_confidence);
    let digest = sha256(&bytes);
    let computed = digest_words(&digest);
    computed == attestation
}

/// Verdict of the validator whose address encodes to `validator_xdr`: true
/// when the first byte of the SHA-256 digest of that encoding is even.
pub open spec fn validator_verdict(validator_xdr: Seq<u8>) -> bool {
    sha256_of(validator_xdr)[0] % 2 == 0
}

/// The verdict of the validator whose address has the XDR encoding
/// `validator_xdr`.
pub fn validator_outcome(validator_xdr: &Vec<u8>) -> (r: bool)
    requires
        validator_xdr@.len() <= MAX_ID_XDR_LEN,
    ensures
        r == validator_verdict(validator_xdr@),
{
    let digest = sha256(validator_xdr);
    digest[0] % 2 == 0
}

#[derive(Clone, Debug)]
pub struct AuthenticityVerification {
    pub assessment_id: SymbolId,
    pub validation_results: Vec<ValidationResult>,
    pub consensus_achieved: bool,
    pub consensus_confidence_bps: u32,
    pub verified_at: u64,
    /// Present when consensus is achieved.
    pub blockchain_attestation: Option<Hash32>,
    pub required_sources: u32,
    pub actual_sources: u32,
}

#[derive(Clone, Debug)]
pub struct ConsensusRecord {
    pub assessment_id: SymbolId,
    pub participating_validators: Vec<AccountId>,
    pub validation_outcomes: Vec<bool>,
    pub consensus_reached: bool,
    pub final_verdict: bool,
    pub consensus_timestamp: u64,
    pub dissenting_opinions: u32,
}

/// Record a validation result; the confidence is capped at 10_000 bps.
pub fn submit_validation(
    assessment_id: SymbolId,
    source: ValidationSource,
    validator: AccountId,
    is_valid: bool,
    confidence_bps: u32,
    evidence_hash: Hash32,
    details: SymbolId,
    now: u64,
) -> (r: ValidationResult)
    ensures
        r == (ValidationResult {
            source,
            validator,
            assessment_id,
            is_valid,
            confidence_bps: if confidence_bps < 10_000 { confidence_bps } else { 10_000 },
            evidence_hash,
            validated_at: now,
            details,
        }),
{
    ValidationResult {
        source,
        validator,
        assessment_id,
        is_valid,
        confidence_bps: if confidence_bps < 10_000 { confidence_bps } else { 10_000 },
        evidence_hash,
        validated_at: now,
        details,
    }
}

/// The validations of assessment `id`.
pub open spec fn for_assessment(vs: Seq<ValidationResult>, id: SymbolId) -> Seq<ValidationResult> {
    vs.filter(|v: ValidationResult| v.assessment_id == id)
}

/// Distinct sources among `vs`.
pub open spec fn sources_of(vs: Seq<ValidationResult>) -> Set<ValidationSource> {
    vs.map_values(|v: ValidationResult| v.source).to_set()
}

/// Number of positive validations in `vs`.
pub open spec fn valid_count(vs: Seq<ValidationResult>) -> nat
    decreases vs.len(),
{
    if vs.len() == 0 {
        0
    } else {
        valid_count(vs.drop_last()) + if vs.last().is_valid { 1nat } else { 0nat }
    }
}

/// Total confidence of the positive validations in `vs`.
pub open spec fn valid_confidence(vs: Seq<ValidationResult>) -> nat
    decreases vs.len(),
{
    if vs.len() == 0 {
        0
    } else {
        valid_confidence(vs.drop_last()) + if vs.last().is_valid { vs.last().confidence_bps as nat } else { 0nat }
    }
}

proof fn lemma_counts_bounded(vs: Seq<ValidationResult>)
    ensures
        valid_count(vs) <= vs.len(),
        valid_confidence(vs) <= valid_count(vs) * (u32::MAX as nat),
    decreases vs.len(),
{
    if vs.len() > 0 {
        lemma_counts_bounded(vs.drop_last());
    }
}

/// Collect the distinct sources of `vs` (order of first appearance).
fn distinct_sources(vs: &Vec<ValidationResult>, only: Option<SymbolId>) -> (r: Vec<ValidationSource>)
    ensures
        r@.no_duplicates(),
        r@.to_set() == sources_of(match only {
            Some(id) => for_assessment(vs@, id),
            None => vs@,
        }),
{
    let ghost keep = |v: ValidationResult| v.assessment_id == only->0;
    let mut seen: Vec<ValidationSource> = Vec::new();
    let mut i: usize = 0;
    while i < vs.len()
        invariant
            i <= vs@.len(),
            keep == (|v: ValidationResult| v.assessment_id == only->0),
            seen@.no_duplicates(),
            seen@.to_set() == sources_of(match only {
                Some(id) => vs@.subrange(0, i as int).filter(keep),
                None => vs@.subrange(0, i as int),
            }),
        decreases vs@.len() - i,
    {
        let v = vs[i];
        let counted = match only {
            Some(id) => v.assessment_id == id,
            None => true,
        };
        let ghost pre = match only {
            Some(id) => vs@.subrange(0, i as int).filter(keep),
            None => vs@.subrange(0, i as int),
        };
        proof {
            assert(vs@.subrange(0, i + 1).drop_last() == vs@.subrange(0, i as int));
            assert(vs@.subrange(0, i + 1).last() == v);
            reveal(Seq::filter);
        }
        if counted {
            proof {
                let next = match only {
                    Some(id) => vs@.subrange(0, i + 1).filter(keep),
                    None => vs@.subrange(0, i + 1),
                };
                assert(next == pre.push(v));
                assert(next.map_values(|w: ValidationResult| w.source) == pre.map_values(|w: ValidationResult| w.source).push(v.source));
                pre.map_values(|w: ValidationResult| w.source).lemma_push_to_set_commute(v.source);
            }
            let mut found = false;
            let mut j: usize = 0;
            while j < seen.len()
                invariant
                    j <= seen@.len(),
                    found == (exists|k: int| 0 <= k < j && seen@[k] == v.source),
                decreases seen@.len() - j,
            {
                if seen[j] == v.source {
                    found = true;
                }
                j = j + 1;
            }
            if !found {
                proof {
                    seen@.lemma_push_to_set_commute(v.source);
                    assert(!seen@.contains(v.source));
                }
                seen.push(v.source);
            } else {
                proof {
                    assert(seen@.contains(v.source));
                    assert(seen@.to_set().insert(v.source) =~= seen@.to_set());
                }
            }
        } else {
            proof {
                let next = match only {
                    Some(id) => vs@.subrange(0, i + 1).filter(keep),
                    None => vs@.subrange(0, i + 1),
                };
                assert(next == pre);
            }
        }
        i = i + 1;
    }
    assert(vs@.subrange(0, vs@.len() as int) == vs@);
    seen
}

fn copy_validations(vs: &Vec<ValidationResult>) -> (r: Vec<ValidationResult>)
    ensures
        r@ == vs@,
{
    let mut out: Vec<ValidationResult> = Vec::new();
    let mut i: usize = 0;
    while i < vs.len()
        invariant
            i <= vs@.len(),
            out@ == vs@.subrange(0, i as int),
        decreases vs@.len() - i,
    {
        out.push(vs[i]);
        i = i + 1;
        assert(out@ == vs@.subrange(0, i as int));
    }
    assert(vs@.subrange(0, vs@.len() as int) == vs@);
    out
}

/// Verify an assessment from its validations: consensus needs at least
/// `required_sources` distinct sources and as many positive validations;
/// the consensus confidence is the mean confidence of the positive ones.
/// On consensus the result carries the attestation of the assessment
/// (whose id has the XDR encoding `assessment_id_xdr`) at `now`.
pub fn verify_assessment_authenticity(
    assessment_id: SymbolId,
    assessment_id_xdr: &Vec<u8>,
    validations: &Vec<ValidationResult>,
    required_sources: u32,
    now: u64,
) -> (r: AuthenticityVerification)
    requires
        validations@.len() <= u32::MAX,
        assessment_id_xdr@.len() <= MAX_ID_XDR_LEN,
    ensures
        ({
            let mine = for_assessment(validations@, assessment_id);
            let unique = sources_of(mine).len();
            let valid = valid_count(mine);
            let consensus = unique >= required_sources && valid >= required_sources;
            let conf: u32 = if valid > 0 { (valid_confidence(mine) / valid) as u32 } else { 0 };
            &&& r.assessment_id == assessment_id
            &&& r.validation_results@ == validations@
            &&& r.actual_sources == unique
            &&& r.consensus_achieved == consensus
            &&& r.consensus_confidence_bps == conf
            &&& r.verified_at == now
            &&& r.required_sources == required_sources
            &&& r.blockchain_attestation == (if consensus {
                Some(attestation_of(assessment_id_xdr@, conf, now))
            } else {
                None
            })
        }),
{
    let ghost keep = |v: ValidationResult| v.assessment_id == assessment_id;
    let mut valid: u32 = 0;
    let mut total_confidence: u64 = 0;
    let mut i: usize = 0;
    while i < validations.len()
        invariant
            i <= validations@.len() <= u32::MAX,
            keep == (|v: ValidationResult| v.assessment_id == assessment_id),
            valid == valid_count(validations@.subrange(0, i as int).filter(keep)),
            total_confidence == valid_confidence(validations@.subrange(0, i as int).filter(keep)),
            validations@.subrange(0, i as int).filter(keep).len() <= i,
        decreases validations@.len() - i,
    {
        let v = validations[i];
        let ghost pre = validations@.subrange(0, i as int).filter(keep);
        proof {
            assert(validations@.subrange(0, i + 1).drop_last() == validations@.subrange(0, i as int));
            assert(validations@.subrange(0, i + 1).last() == v);
            reveal(Seq::filter);
            lemma_counts_bounded(pre);
            assert(valid_confidence(pre) <= i * (u32::MAX as nat)) by (nonlinear_arith)
                requires
                    valid_confidence(pre) <= valid_count(pre) * (u32::MAX as nat),
                    valid_count(pre) <= pre.len(),
                    pre.len() <= i,
            ;
            assert(i * (u32::MAX as nat) + u32::MAX <= u64::MAX) by (nonlinear_arith)
                requires
                    i < u32::MAX,
            ;
        }
        if v.assessment_id == assessment_id {
            proof {
                assert(validations@.subrange(0, i + 1).filter(keep) == pre.push(v));
                assert(pre.push(v).drop_last() == pre);
                assert(pre.push(v).last() == v);
            }
            if v.is_valid {
                valid = valid + 1;
                total_confidence = total_confidence + v.confidence_bps as u64;
            }
        } else {
            proof {
                assert(validations@.subrange(0, i + 1).filter(keep) == pre);
            }
        }
        i = i + 1;
    }
    assert(validations@.subrange(0, validations@.len() as int) == validations@);
    let sources = distinct_sources(validations, Some(assessment_id));
    proof {
        sources@.unique_seq_to_set();
    }
    proof {
        let mine = for_assessment(validations@, assessment_id);
        mine.map_values(|w: ValidationResult| w.source).lemma_cardinality_of_set();
        validations@.lemma_filter_len(|w: ValidationResult| w.assessment_id == assessment_id);
        lemma_counts_bounded(mine);
    }
    let unique = sources.len() as u32;
    let consensus_achieved = unique >= required_sources && valid >= required_sources;
    let confidence: u32 = if valid > 0 {
        #[verifier::truncate]
        ((total_confidence / (valid as u64)) as u32)
    } else {
        0
    };
    let blockchain_attestation = if consensus_achieved {
        Some(attestation_digest(assessment_id_xdr, confidence, now))
    } else {
        None
    };
    AuthenticityVerification {
        assessment_id,
        validation_results: copy_validations(validations),
        consensus_achieved,
        consensus_confidence_bps: confidence,
        verified_at: now,
        blockchain_attestation,
        required_sources,
        actual_sources: unique,
    }
}

/// Number of `true` entries.
pub open spec fn true_count(s: Seq<bool>) -> nat
    decreases s.len(),
{
    if s.len() == 0 { 0 } else { true_count(s.drop_last()) + if s.last() { 1nat } else { 0nat } }
}

proof fn lemma_true_count_bounded(s: Seq<bool>)
    ensures
        true_count(s) <= s.len(),
    decreases s.len(),
{
    if s.len() > 0 {
        lemma_true_count_bounded(s.drop_last());
    }
}

/// Combine the verdicts `outcomes[i]` of `validators[i]`: consensus when at
/// least 80% agree the assessment is valid, verdict valid on a strict
/// majority, and the dissent counted against the verdict.
pub fn consensus_from_outcomes(
    assessment_id: SymbolId,
    validators: &Vec<AccountId>,
    outcomes: &Vec<bool>,
    now: u64,
) -> (r: ConsensusRecord)
    requires
        outcomes@.len() == validators@.len(),
        true_count(outcomes@) * 10_000 <= u32::MAX,
        validators@.len() * VALIDATION_CONSENSUS_BPS <= u32::MAX,
    ensures
        ({
            let valid = true_count(outcomes@);
            let total = validators@.len();
            let verdict = valid > total / 2;
            &&& r.assessment_id == assessment_id
            &&& r.participating_validators@ == validators@
            &&& r.validation_outcomes@ == outcomes@
            &&& r.consensus_reached == (valid * 10_000 >= total * VALIDATION_CONSENSUS_BPS)
            &&& r.final_verdict == verdict
            &&& r.consensus_timestamp == now
            &&& r.dissenting_opinions == (if verdict { total - valid } else { valid as int })
        }),
{
    let mut participating: Vec<AccountId> = Vec::new();
    let mut recorded: Vec<bool> = Vec::new();
    let mut valid: u32 = 0;
    let mut i: usize = 0;
    proof {
        lemma_true_count_bounded(outcomes@);
    }
    while i < validators.len()
        invariant
            i <= validators@.len() == outcomes@.len(),
            validators@.len() * VALIDATION_CONSENSUS_BPS <= u32::MAX,
            participating@ == validators@.subrange(0, i as int),
            recorded@ == outcomes@.subrange(0, i as int),
            valid == true_count(outcomes@.subrange(0, i as int)),
            valid <= i,
        decreases validators@.len() - i,
    {
        proof {
            assert(outcomes@.subrange(0, i + 1).drop_last() == outcomes@.subrange(0, i as int));
        }
        participating.push(validators[i]);
        recorded.push(outcomes[i]);
        if outcomes[i] {
            valid = valid + 1;
        }
        i = i + 1;
        assert(participating@ == validators@.subrange(0, i as int));
        assert(recorded@ == outcomes@.subrange(0, i as int));
    }
    assert(validators@.subrange(0, validators@.len() as int) == validators@);
    assert(outcomes@.subrange(0, outcomes@.len() as int) == outcomes@);
    let total = validators.len() as u32;
    let consensus_reached = valid * 10_000 >= total * VALIDATION_CONSENSUS_BPS;
    let final_verdict = valid > total / 2;
    let dissenting = if final_verdict { total - valid } else { valid };
    ConsensusRecord {
        assessment_id,
        participating_validators: participating,
        validation_outcomes: recorded,
        consensus_reached,
        final_verdict,
        consensus_timestamp: now,
        dissenting_opinions: dissenting,
    }
}

/// The verdicts of validators whose addresses have the XDR encodings `xdrs`.
pub open spec fn verdicts_of(xdrs: Seq<Vec<u8>>) -> Seq<bool> {
    Seq::new(xdrs.len(), |i: int| validator_verdict(xdrs[i]@))
}

/// Consensus among `validators`, where `validator_xdrs[i]` is the XDR
/// encoding of `validators[i]`: each validator's verdict is taken from the
/// digest of its encoding, then combined as `consensus_from_outcomes` does.
pub fn perform_consensus_validation(
    assessment_id: SymbolId,
    validators: &Vec<AccountId>,
    validator_xdrs: &Vec<Vec<u8>>,
    now: u64,
) -> (r: ConsensusRecord)
    requires
        validator_xdrs@.len() == validators@.len(),
        forall|i: int| 0 <= i < validator_xdrs@.len() ==> (#[trigger] validator_xdrs@[i])@.len() <= MAX_ID_XDR_LEN,
        validators@.len() * 10_000 <= u32::MAX,
    ensures
        ({
            let outcomes = verdicts_of(validator_xdrs@);
            let valid = true_count(outcomes);
            let total = validators@.len();
            let verdict = valid > total / 2;
            &&& r.assessment_id == assessment_id
            &&& r.participating_validators@ == validators@
            &&& r.validation_outcomes@ == outcomes
            &&& r.consensus_reached == (valid * 10_000 >= total * VALIDATION_CONSENSUS_BPS)
            &&& r.final_verdict == verdict
            &&& r.consensus_timestamp == now
            &&& r.dissenting_opinions == (if verdict { total - valid } else { valid as int })
        }),
{
    let mut outcomes: Vec<bool> = Vec::new();
    let mut i: usize = 0;
    while i < validator_xdrs.len()
        invariant
            i <= validator_xdrs@.len(),
            forall|j: int| 0 <= j < validator_xdrs@.len() ==> (#[trigger] validator_xdrs@[j])@.len() <= MAX_ID_XDR_LEN,
            outcomes@ == verdicts_of(validator_xdrs@).subrange(0, i as int),
        decreases validator_xdrs@.len() - i,
    {
        let v = validator_outcome(&validator_xdrs[i]);
        outcomes.push(v);
        i = i + 1;
        assert(outcomes@ =~= verdicts_of(validator_xdrs@).subrange(0, i as int));
    }
    assert(outcomes@ =~= verdicts_of(validator_xdrs@));
    proof {
        lemma_true_count_bounded(outcomes@);
        assert(true_count(outcomes@) * 10_000 <= validators@.len() * 10_000) by (nonlinear_arith)
            requires
                true_count(outcomes@) <= validators@.len(),
        ;
    }
    consensus_from_outcomes(assessment_id, validators, &outcomes, now)
}

/// Whether the validations come from at least `MIN_VALIDATION_SOURCES`
/// distinct sources.
pub fn check_source_diversity(validations: &Vec<ValidationResult>) -> (r: bool)
    ensures
        r == (sources_of(validations@).len() >= MIN_VALIDATION_SOURCES),
{
    let sources = distinct_sources(validations, None);
    proof {
        sources@.unique_seq_to_set();
    }
    sources.len() >= MIN_VALIDATION_SOURCES as usize
}

} // verus!
