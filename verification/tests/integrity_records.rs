use mentorminds::benchmark_integrity::{BenchmarkIntegrity, EvaluationFairness, PerformanceValidation};
use mentorminds::certification_integrity::{CertificationValidation, CredentialAuthenticity, QualityAssurance};
use mentorminds::competency_validation::{CompetencyValidation, SkillIntegrity, TransferAssessment};

#[test]
fn test_benchmark_integrity() {
    let mut b = BenchmarkIntegrity::new(1_000, 1, 42, 90, 10);
    assert!(b.is_standard_protected);
    assert_eq!(b.manipulation_attempts, 0);
    for _ in 0..3 {
        b.record_manipulation_attempt();
    }
    assert!(b.is_standard_protected);
    assert_eq!(b.standard_protection_score, 90);
    b.record_manipulation_attempt();
    assert_eq!(b.manipulation_attempts, 4);
    assert!(!b.is_standard_protected);
    assert_eq!(b.standard_protection_score, 80);
    b.update_protection_metrics(2_000, 76, 24);
    assert!(b.is_standard_protected);
    assert_eq!(b.last_check_timestamp, 2_000);
}

#[test]
fn test_performance_validation() {
    let mut p = PerformanceValidation::new(1_000, 2, 7, 80, 20);
    assert!(p.is_assessment_authentic);
    assert_eq!(p.gaming_confidence, 50);
    p.record_validated_result();
    assert_eq!(p.validated_results_count, 1);
    p.record_suspicious_anomaly();
    p.record_suspicious_anomaly();
    assert!(p.is_assessment_authentic);
    p.record_suspicious_anomaly();
    assert!(!p.is_assessment_authentic);
    assert_eq!(p.gaming_confidence, 70);
    p.update_gaming_risk(10);
    assert!(p.is_assessment_authentic);
    p.update_gaming_risk(25);
    assert!(!p.is_assessment_authentic);
}

#[test]
fn test_evaluation_fairness() {
    let mut f = EvaluationFairness::new(1_000, 3, 9, 85, 20);
    assert!(f.criteria_maintained);
    f.add_evaluator();
    assert_eq!(f.evaluator_count, 1);
    f.record_coordination_indicator();
    f.record_coordination_indicator();
    assert!(f.criteria_maintained);
    assert_eq!(f.coordination_risk, 20);
    f.record_coordination_indicator();
    assert!(!f.criteria_maintained);
    assert_eq!(f.coordination_risk, 35);
    f.update_criteria_compliance(95);
    assert!(!f.criteria_maintained);
}

#[test]
fn test_certification_validation() {
    let mut c = CertificationValidation::new(1_000, 4, 11, 12, 80, 60);
    assert!(c.is_certification_rigorous);
    // 95 of 100 pass: 35 points above the 60% standard.
    c.update_pass_rate(100, 95);
    assert_eq!(c.pass_rate, 95);
    assert_eq!(c.mill_risk_score, 90);
    assert_eq!(c.mill_risk_level, 3);
    c.update_rigor(40);
    assert!(!c.is_certification_rigorous);
    assert_eq!(c.mill_risk_score, 100);
    let mut d = CertificationValidation::new(1_000, 5, 11, 12, 80, 60);
    d.update_pass_rate(10, 5);
    assert_eq!(d.pass_rate, 50);
    assert_eq!(d.mill_risk_score, 0);
    assert_eq!(d.mill_risk_level, 0);
}

#[test]
fn test_credential_authenticity() {
    let mut a = CredentialAuthenticity::new(1_000, 6, 13, 14);
    assert!(!a.is_credential_authentic);
    for _ in 0..3 {
        a.add_verified_evidence();
    }
    assert_eq!(a.source_validation_score, 80);
    for _ in 0..3 {
        a.add_legitimate_issuer();
    }
    assert_eq!(a.inflation_risk_score, 20);
    a.finalize_authentication();
    assert!(a.is_credential_authentic);
    a.flag_suspicious_issuer();
    assert!(a.is_credential_inflated);
    assert_eq!(a.inflation_risk_score, 40);
    a.finalize_authentication();
    assert!(!a.is_credential_authentic);
}

#[test]
fn test_quality_assurance() {
    let mut q = QualityAssurance::new(1_000, 7, 15);
    assert!(!q.standards_maintained);
    for _ in 0..9 {
        q.review_assessment(true);
    }
    q.review_assessment(false);
    assert_eq!(q.assessments_reviewed, 10);
    assert_eq!(q.non_compliant_count, 1);
    assert_eq!(q.standards_compliance, 90);
    q.update_standardization(90);
    q.update_consistency(90);
    q.check_standards_maintenance();
    assert!(q.standards_maintained);
    q.update_consistency(70);
    q.check_standards_maintenance();
    assert!(!q.standards_maintained);
}

#[test]
fn test_competency_validation() {
    let mut c = CompetencyValidation::new(1_000, 8, 16, 80, 20);
    assert!(c.is_competency_authentic);
    c.add_verified_skill();
    assert_eq!(c.verified_skills_count, 1);
    c.update_fraud_score(30);
    assert!(!c.is_competency_authentic);
    c.update_fraud_score(10);
    assert!(c.is_competency_authentic);
    c.add_suspicious_claim();
    assert!(!c.is_competency_authentic);
    assert_eq!(c.suspicious_claims_count, 1);
}

#[test]
fn test_transfer_assessment() {
    let mut t = TransferAssessment::new(1_000, 9, 17, 18, 19);
    assert_eq!(t.total_criteria, 5);
    for _ in 0..5 {
        t.mark_criterion_met();
    }
    assert_eq!(t.criteria_met, 5);
    assert_eq!(t.correlation_legitimacy, 100);
    // Manipulation risk still 50: not legitimate.
    assert!(!t.is_transfer_legitimate);
    t.update_manipulation_risk(10);
    assert!(t.is_transfer_legitimate);
    t.mark_criterion_met();
    assert_eq!(t.criteria_met, 5);
    t.reject_transfer();
    assert_eq!(t.approval_status, 2);
    assert!(!t.is_transfer_legitimate);
    t.approve_transfer();
    assert_eq!(t.approval_status, 1);
}

#[test]
fn test_skill_integrity() {
    let mut s = SkillIntegrity::new(1_000, 10, 20, 21, 1);
    assert!(s.integrity_maintained);
    assert_eq!(s.gaming_resistance_level, 100);
    s.record_verification_attempt(true);
    assert_eq!(s.verification_attempt_count, 1);
    for _ in 0..3 {
        s.record_verification_attempt(false);
    }
    assert!(s.integrity_maintained);
    assert_eq!(s.gaming_resistance_level, 70);
    s.record_verification_attempt(false);
    assert!(!s.integrity_maintained);
    assert_eq!(s.failed_verification_count, 4);
    s.update_gaming_resistance(250);
    assert_eq!(s.gaming_resistance_level, 100);
}
