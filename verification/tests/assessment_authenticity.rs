use mentorminds::assessment_authenticity::{
    attestation_digest, check_source_diversity, consensus_from_outcomes, perform_consensus_validation,
    submit_validation, validator_outcome, verify_assessment_authenticity, verify_blockchain_attestation,
    ValidationResult, ValidationSource, MIN_VALIDATION_SOURCES,
};
use mentorminds::common::Hash32;

const NOW: u64 = 5_000;

fn id_xdr() -> Vec<u8> {
    b"abc".to_vec()
}

fn create_validation(assessment_id: u64, source: ValidationSource, validator: u64, is_valid: bool) -> ValidationResult {
    let evidence = Hash32 { w0: 1 << 56, w1: 0, w2: 0, w3: 0 };
    submit_validation(assessment_id, source, validator, is_valid, 9000, evidence, 42, NOW)
}

#[test]
fn test_verify_authenticity_consensus_achieved() {
    let id = 1;
    let validations = vec![
        create_validation(id, ValidationSource::MentorAssessment, 10, true),
        create_validation(id, ValidationSource::PeerReview, 11, true),
        create_validation(id, ValidationSource::AutomatedCheck, 12, true),
    ];
    let result = verify_assessment_authenticity(id, &id_xdr(), &validations, MIN_VALIDATION_SOURCES, NOW);
    assert!(result.consensus_achieved);
    assert_eq!(result.actual_sources, 3);
    assert!(result.blockchain_attestation.is_some());
}

#[test]
fn test_verify_authenticity_insufficient_sources() {
    let id = 2;
    let validations = vec![
        create_validation(id, ValidationSource::MentorAssessment, 10, true),
        create_validation(id, ValidationSource::PeerReview, 11, true),
    ];
    let result = verify_assessment_authenticity(id, &id_xdr(), &validations, MIN_VALIDATION_SOURCES, NOW);
    assert!(!result.consensus_achieved);
    assert_eq!(result.actual_sources, 2);
    assert!(result.blockchain_attestation.is_none());
}

#[test]
fn test_verify_authenticity_mixed_results() {
    let id = 3;
    let validations = vec![
        create_validation(id, ValidationSource::MentorAssessment, 10, true),
        create_validation(id, ValidationSource::PeerReview, 11, true),
        create_validation(id, ValidationSource::AutomatedCheck, 12, true),
    ];
    let result = verify_assessment_authenticity(id, &id_xdr(), &validations, MIN_VALIDATION_SOURCES, NOW);
    assert!(result.consensus_achieved);
    assert_eq!(result.consensus_confidence_bps, 9000);
}

#[test]
fn test_consensus_validation() {
    let validators: Vec<u64> = (20..25).collect();
    let xdrs: Vec<Vec<u8>> = (0..5u8).map(|k| vec![k; 40]).collect();
    let result = perform_consensus_validation(4, &validators, &xdrs, NOW);
    assert_eq!(result.participating_validators.len(), 5);
    assert_eq!(result.validation_outcomes.len(), 5);
    let all_valid = consensus_from_outcomes(4, &validators, &vec![true; 5], NOW);
    assert!(all_valid.consensus_reached);
    assert!(all_valid.final_verdict);
    assert_eq!(all_valid.dissenting_opinions, 0);
}

#[test]
fn test_source_diversity() {
    let id = 5;
    let validations: Vec<ValidationResult> =
        (0..5).map(|_| create_validation(id, ValidationSource::MentorAssessment, 30, true)).collect();
    assert!(!check_source_diversity(&validations));
}

#[test]
fn confidence_is_capped_and_mean_of_valid_ones() {
    let id = 6;
    let evidence = Hash32 { w0: 0, w1: 0, w2: 0, w3: 0 };
    let a = submit_validation(id, ValidationSource::MentorAssessment, 1, true, 12_000, evidence, 0, NOW);
    assert_eq!(a.confidence_bps, 10_000);
    let b = submit_validation(id, ValidationSource::PeerReview, 2, true, 8_000, evidence, 0, NOW);
    let c = submit_validation(id, ValidationSource::PlatformAudit, 3, false, 1_000, evidence, 0, NOW);
    let other = submit_validation(99, ValidationSource::ExternalOracle, 4, true, 1, evidence, 0, NOW);
    let result = verify_assessment_authenticity(id, &id_xdr(), &vec![a, b, c, other], 2, NOW);
    assert_eq!(result.actual_sources, 3);
    assert_eq!(result.consensus_confidence_bps, 9_000);
    assert!(result.consensus_achieved);
    assert_eq!(
        result.blockchain_attestation,
        Some(Hash32 { w0: 0x966bda58a0236f2c, w1: 0x139870dca3ef9975, w2: 0xa653eef97199d916, w3: 0x9091820932d45017 })
    );
    assert_eq!(result.validation_results.len(), 4);
}

#[test]
fn consensus_needs_eighty_percent() {
    let validators: Vec<u64> = (20..25).collect();
    let r = consensus_from_outcomes(7, &validators, &vec![true, true, true, false, false], NOW);
    assert!(!r.consensus_reached);
    assert!(r.final_verdict);
    assert_eq!(r.dissenting_opinions, 2);
    let r2 = consensus_from_outcomes(7, &validators, &vec![true, false, false, false, true], NOW);
    assert!(!r2.final_verdict);
    assert_eq!(r2.dissenting_opinions, 2);
    let r3 = consensus_from_outcomes(7, &validators, &vec![true, true, true, true, false], NOW);
    assert!(r3.consensus_reached);
}

#[test]
fn three_distinct_sources_are_diverse() {
    let v = vec![
        create_validation(8, ValidationSource::MentorAssessment, 1, true),
        create_validation(8, ValidationSource::MentorAssessment, 2, true),
        create_validation(8, ValidationSource::LearnerSelfAssessment, 3, false),
        create_validation(8, ValidationSource::ExternalOracle, 4, true),
    ];
    assert!(check_source_diversity(&v));
}

#[test]
fn attestation_is_sha256_of_id_confidence_and_time() {
    assert_eq!(
        attestation_digest(&id_xdr(), 9_000, NOW),
        Hash32 { w0: 0x966bda58a0236f2c, w1: 0x139870dca3ef9975, w2: 0xa653eef97199d916, w3: 0x9091820932d45017 }
    );
}

#[test]
fn blockchain_attestation_checks_id_and_confidence() {
    let expected = Hash32 { w0: 0xe861f23c73af5ebe, w1: 0x05ecfe003987a669, w2: 0x12a474f5e371eeb7, w3: 0xb0bf894b905fba7c };
    assert!(verify_blockchain_attestation(&id_xdr(), expected, 9_000));
    assert!(!verify_blockchain_attestation(&id_xdr(), expected, 9_001));
    assert!(!verify_blockchain_attestation(&b"abd".to_vec(), expected, 9_000));
    assert!(!verify_blockchain_attestation(&id_xdr(), attestation_digest(&id_xdr(), 9_000, NOW), 9_000));
}

#[test]
fn validator_verdict_is_parity_of_first_digest_byte() {
    assert!(validator_outcome(&b"abc".to_vec()));
    assert!(!validator_outcome(&Vec::new()));
    assert!(!validator_outcome(&b"ab".to_vec()));
    let r = perform_consensus_validation(8, &vec![1, 2, 3], &vec![b"abc".to_vec(), Vec::new(), b"abc".to_vec()], NOW);
    assert_eq!(r.validation_outcomes, vec![true, false, true]);
    assert!(r.final_verdict);
    assert!(!r.consensus_reached);
    assert_eq!(r.dissenting_opinions, 1);
}
