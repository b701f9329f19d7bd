use mentorminds::availability_pricing::{create_availability_commitment, verify_availability_commitment};
use mentorminds::common::Hash32;
use mentorminds::content_authentication::{
    create_watermark, register_ownership, verify_ownership, verify_watermark, DigitalWatermark,
};

fn h(x: u64) -> Hash32 {
    Hash32 { w0: x, w1: x + 1, w2: x + 2, w3: x + 3 }
}

fn ox() -> Vec<u8> {
    b"own".to_vec()
}

fn cx() -> Vec<u8> {
    b"cnt".to_vec()
}

#[test]
fn watermark_authentic_when_matching_and_fresh() {
    let w = create_watermark(1, &ox(), 50, &cx(), 9, 1_000);
    assert_eq!(w.timestamp, 1_000);
    assert_eq!(
        w.signature,
        Hash32 { w0: 0x667c1b2997d118ec, w1: 0xbde17f65f9239714, w2: 0xf9430c81caac074b, w3: 0x3afdba4f0dd8a154 }
    );
    let r = verify_watermark(&w, &ox(), &cx(), 50, 2_000);
    assert!(r.is_authentic);
    assert!(!r.tamper_detected);
    assert_eq!(r.integrity_score, 10_000);
    assert_eq!(r.owner, 1);
}

#[test]
fn watermark_tampering_and_age() {
    let w = create_watermark(1, &ox(), 50, &cx(), 9, 1_000);
    let wrong_owner = verify_watermark(&w, &b"own2".to_vec(), &cx(), 50, 2_000);
    assert!(!wrong_owner.is_authentic);
    assert!(wrong_owner.tamper_detected);
    let forged = DigitalWatermark { signature: h(7), ..w };
    assert!(verify_watermark(&forged, &ox(), &cx(), 50, 2_000).tamper_detected);
    let other_nonce = DigitalWatermark { nonce: 10, ..w };
    assert!(verify_watermark(&other_nonce, &ox(), &cx(), 50, 2_000).tamper_detected);
    let wrong_content = verify_watermark(&w, &ox(), &cx(), 51, 2_000);
    assert!(wrong_content.tamper_detected);
    let old = verify_watermark(&w, &ox(), &cx(), 50, 1_000 + 31_536_000);
    assert!(!old.is_authentic);
    assert!(!old.tamper_detected);
    assert_eq!(old.integrity_score, 0);
    // A timestamp in the future counts as age zero.
    assert!(verify_watermark(&w, &ox(), &cx(), 50, 10).is_authentic);
}

#[test]
fn ownership_round_trip() {
    let rec = register_ownership(3, &ox(), 60, &cx(), 500);
    assert_eq!(rec.verification_count, 1);
    assert_eq!(rec.last_verified, 500);
    assert_eq!(
        rec.ownership_proof,
        Hash32 { w0: 0x1abb897a8273d584, w1: 0x80dcabb5fe6837e5, w2: 0x1559b2c026f1d411, w3: 0xcf966bdf6ae290a9 }
    );
    assert!(verify_ownership(&rec, 3, &ox(), 60, &cx()));
    assert!(!verify_ownership(&rec, 4, &ox(), 60, &cx()));
    assert!(!verify_ownership(&rec, 3, &ox(), 61, &cx()));
    assert!(!verify_ownership(&rec, 3, &b"other".to_vec(), 60, &cx()));
}

#[test]
fn availability_commitment_lifecycle() {
    let mx = b"mnt".to_vec();
    let c = create_availability_commitment(2, &mx, 10, 3600, 604_800, 1_000);
    assert_eq!(c.expires_at, 605_800);
    assert!(c.is_binding);
    assert_eq!(
        c.commitment_hash,
        Hash32 { w0: 0x114d23ed8862ce7f, w1: 0x1536f144f505ef76, w2: 0xe91097e5733e52c3, w3: 0x771bb975d842d948 }
    );
    assert!(verify_availability_commitment(&c, &mx, 605_800));
    assert!(!verify_availability_commitment(&c, &mx, 605_801));
    assert!(!verify_availability_commitment(&c, &b"other".to_vec(), 2_000));
    let raised = mentorminds::availability_pricing::AvailabilityCommitment { min_hours_per_week: 11, ..c };
    assert!(!verify_availability_commitment(&raised, &mx, 2_000));
}
