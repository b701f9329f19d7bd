//! Certification integrity: rigor of certification programs, credential
//! authenticity, quality assurance, certification-mill network analysis,
//! audits and program protection.
use vstd::prelude::*;
use crate::common::{AccountId, SymbolId, min_int};

verus! {

#[derive(Clone, Copy, Debug, PartialEq, Eq, Structural)]
pub struct CertificationValidation {
    pub record_id: u64,
    pub mentor_address: AccountId,
    pub certification_id: SymbolId,
    pub rigor_score: u32,
    pub mill_risk_score: u32,
    pub certified_count: u32,
    /// Pass rate in percent.
    pub pass_rate: u32,
    pub industry_standard_rate: u32,
    pub validation_timestamp: u64,
    pub is_certification_rigorous: bool,
    /// 0 = low, 1 = medium, 2 = high, 3 = critical.
    pub mill_risk_level: u32,
}

#[derive(Clone, Copy, Debug, PartialEq, Eq, Structural)]
pub struct CredentialAuthenticity {
    pub record_id: u64,
    pub credential_holder: AccountId,
    pub credential_id: SymbolId,
    pub source_validation_score: u32,
    pub inflation_risk_score: u32,
    pub evidence_count: u32,
    pub legitimate_issuer_count: u32,
    pub suspicious_issuers: u32,
    pub verification_timestamp: u64,
    pub is_credential_authentic: bool,
    pub is_credential_inflated: bool,
}

#[derive(Clone, Copy, Debug, PartialEq, Eq, Structural)]
pub struct QualityAssurance {
    pub record_id: u64,
    pub program_id: SymbolId,
    pub standardization_score: u32,
    pub manipulation_resistance: u32,
    pub evaluator_consistency: u32,
    /// Share of compliant reviewed assessments, in percent.
    pub standards_compliance: u32,
    pub assessments_reviewed: u32,
    pub non_compliant_count: u32,
    pub qa_timestamp: u64,
    pub standards_maintained: bool,
}

#[derive(Clone, Copy, Debug, PartialEq, Eq, Structural)]
pub struct MentorNetworkAnalysis {
    pub record_id: u64,
    pub network_segment: SymbolId,
    pub mentor_group_size: u32,
    pub mill_indicators: u32,
    pub coordination_score: u32,
    pub suspicious_patterns: u32,
    pub credential_sharing_count: u32,
    pub analysis_timestamp: u64,
    pub mill_operation_suspected: bool,
    pub coordination_detected: bool,
}

#[derive(Clone, Copy, Debug, PartialEq, Eq, Structural)]
pub struct CertificationAudit {
    pub record_id: u64,
    pub program_id: SymbolId,
    pub authenticity_score: u32,
    pub quality_issues: u32,
    pub fraud_indicators: u32,
    pub certifications_under_review: u32,
    pub initiated_timestamp: u64,
    pub completed_timestamp: u64,
    pub severity_level: u32,
    pub recommended_action: u32,
}

#[derive(Clone, Copy, Debug, PartialEq, Eq, Structural)]
pub struct CertificationProtection {
    pub record_id: u64,
    pub program_id: SymbolId,
    /// 0 = monitoring, 1 = investigation, 2 = suspended, 3 = shutdown,
    /// 4 = restored.
    pub status: u32,
    pub initiated_timestamp: u64,
    pub resolved_timestamp: u64,
    pub credentials_under_review: u32,
    pub credentials_revoked: u32,
    pub legitimate_credentials_preserved: u32,
    pub integrity_maintained: bool,
    pub reason: SymbolId,
}

/// Pass rate in percent of `passed` over `certified` (0 when nothing was
/// certified).
pub open spec fn pass_rate_of(certified: u32, passed: u32) -> int {
    if certified > 0 {
        (passed * 100) / (certified as int)
    } else {
        0
    }
}

/// Mill risk level for a pass rate that exceeds the industry standard by
/// `deviation` points.
pub open spec fn mill_level_of(deviation: int) -> u32 {
    if deviation > 30 {
        3
    } else if deviation > 20 {
        2
    } else if deviation > 10 {
        1
    } else {
        0
    }
}

impl CertificationValidation {
    pub fn new(
        now: u64,
        record_id: u64,
        mentor_address: AccountId,
        certification_id: SymbolId,
        rigor_score: u32,
        industry_standard_rate: u32,
    ) -> (r: Self)
        ensures
            r == (CertificationValidation {
                record_id,
                mentor_address,
                certification_id,
                rigor_score,
                mill_risk_score: 0,
                certified_count: 0,
                pass_rate: 0,
                industry_standard_rate,
                validation_timestamp: now,
                is_certification_rigorous: rigor_score > 75,
                mill_risk_level: 0,
            }),
    {
        CertificationValidation {
            record_id,
            mentor_address,
            certification_id,
            rigor_score,
            mill_risk_score: 0,
            certified_count: 0,
            pass_rate: 0,
            industry_standard_rate,
            validation_timestamp: now,
            is_certification_rigorous: rigor_score > 75,
            mill_risk_level: 0,
        }
    }

    /// Records the pass rate; a rate above the industry standard sets the
    /// mill risk to twice the deviation plus 20 (capped at 100) and grades
    /// the deviation.
    pub fn update_pass_rate(&mut self, certified: u32, passed: u32)
        requires
            certified > 0 ==> passed * 100 <= u32::MAX,
            pass_rate_of(certified, passed) > old(self).industry_standard_rate ==> (pass_rate_of(
                certified,
                passed,
            ) - old(self).industry_standard_rate) * 2 <= u32::MAX,
        ensures
            ({
                let rate = pass_rate_of(certified, passed);
                let dev = rate - old(self).industry_standard_rate;
                if rate > old(self).industry_standard_rate {
                    *final(self) == (CertificationValidation {
                        certified_count: certified,
                        pass_rate: rate as u32,
                        mill_risk_score: min_int(100, dev * 2 + 20) as u32,
                        mill_risk_level: mill_level_of(dev),
                        ..*old(self)
                    })
                } else {
                    *final(self) == (CertificationValidation {
                        certified_count: certified,
                        pass_rate: rate as u32,
                        ..*old(self)
                    })
                }
            }),
    {
        self.certified_count = certified;
        self.pass_rate = if certified > 0 {
            (passed * 100) / certified
        } else {
            0
        };
        if self.pass_rate > self.industry_standard_rate {
            let deviation = self.pass_rate - self.industry_standard_rate;
            let risk = (deviation * 2).saturating_add(20);
            self.mill_risk_score = if risk < 100 { risk } else { 100 };
            self.mill_risk_level = if deviation > 30 {
                3
            } else if deviation > 20 {
                2
            } else if deviation > 10 {
                1
            } else {
                0
            };
        }
    }

    /// A rigor score below 50 raises the mill risk by 30, capped at 100.
    pub fn update_rigor(&mut self, score: u32)
        requires
            score < 50 ==> old(self).mill_risk_score + 30 <= u32::MAX,
        ensures
            score < 50 ==> *final(self) == (CertificationValidation {
                rigor_score: score,
                is_certification_rigorous: false,
                mill_risk_score: min_int(100, old(self).mill_risk_score + 30) as u32,
                ..*old(self)
            }),
            score >= 50 ==> *final(self) == (CertificationValidation {
                rigor_score: score,
                is_certification_rigorous: score > 75,
                ..*old(self)
            }),
    {
        self.rigor_score = score;
        self.is_certification_rigorous = score > 75;
        if score < 50 {
            let raised = self.mill_risk_score + 30;
            self.mill_risk_score = if raised < 100 { raised } else { 100 };
        }
    }
}

impl CredentialAuthenticity {
    pub fn new(
        now: u64,
        record_id: u64,
        credential_holder: AccountId,
        credential_id: SymbolId,
    ) -> (r: Self)
        ensures
            r == (CredentialAuthenticity {
                record_id,
                credential_holder,
                credential_id,
                source_validation_score: 50,
                inflation_risk_score: 50,
                evidence_count: 0,
                legitimate_issuer_count: 0,
                suspicious_issuers: 0,
                verification_timestamp: now,
                is_credential_authentic: false,
                is_credential_inflated: false,
            }),
    {
        CredentialAuthenticity {
            record_id,
            credential_holder,
            credential_id,
            source_validation_score: 50,
            inflation_risk_score: 50,
            evidence_count: 0,
            legitimate_issuer_count: 0,
            suspicious_issuers: 0,
            verification_timestamp: now,
            is_credential_authentic: false,
            is_credential_inflated: false,
        }
    }

    pub fn add_verified_evidence(&mut self)
        requires
            old(self).source_validation_score + 10 <= u32::MAX,
        ensures
            *final(self) == (CredentialAuthenticity {
                evidence_count: old(self).evidence_count.saturating_add(1),
                source_validation_score: min_int(100, old(self).source_validation_score + 10) as u32,
                ..*old(self)
            }),
    {
        self.evidence_count = self.evidence_count.saturating_add(1);
        let raised = self.source_validation_score + 10;
        self.source_validation_score = if raised < 100 { raised } else { 100 };
    }

    pub fn add_legitimate_issuer(&mut self)
        ensures
            *final(self) == (CredentialAuthenticity {
                legitimate_issuer_count: old(self).legitimate_issuer_count.saturating_add(1),
                inflation_risk_score: old(self).inflation_risk_score.saturating_sub(10),
                ..*old(self)
            }),
    {
        self.legitimate_issuer_count = self.legitimate_issuer_count.saturating_add(1);
        self.inflation_risk_score = self.inflation_risk_score.saturating_sub(10);
    }

    pub fn flag_suspicious_issuer(&mut self)
        requires
            old(self).inflation_risk_score + 20 <= u32::MAX,
        ensures
            *final(self) == (CredentialAuthenticity {
                suspicious_issuers: old(self).suspicious_issuers.saturating_add(1),
                inflation_risk_score: min_int(100, old(self).inflation_risk_score + 20) as u32,
                is_credential_inflated: true,
                ..*old(self)
            }),
    {
        self.suspicious_issuers = self.suspicious_issuers.saturating_add(1);
        let raised = self.inflation_risk_score + 20;
        self.inflation_risk_score = if raised < 100 { raised } else { 100 };
        self.is_credential_inflated = true;
    }

    pub fn finalize_authentication(&mut self)
        ensures
            *final(self) == (CredentialAuthenticity {
                is_credential_authentic: old(self).source_validation_score > 75
                    && old(self).inflation_risk_score < 30 && !old(self).is_credential_inflated,
                ..*old(self)
            }),
    {
        self.is_credential_authentic = self.source_validation_score > 75
            && self.inflation_risk_score < 30 && !self.is_credential_inflated;
    }
}

impl QualityAssurance {
    pub fn new(now: u64, record_id: u64, program_id: SymbolId) -> (r: Self)
        ensures
            r == (QualityAssurance {
                record_id,
                program_id,
                standardization_score: 50,
                manipulation_resistance: 50,
                evaluator_consistency: 50,
                standards_compliance: 50,
                assessments_reviewed: 0,
                non_compliant_count: 0,
                qa_timestamp: now,
                standards_maintained: false,
            }),
    {
        QualityAssurance {
            record_id,
            program_id,
            standardization_score: 50,
            manipulation_resistance: 50,
            evaluator_consistency: 50,
            standards_compliance: 50,
            assessments_reviewed: 0,
            non_compliant_count: 0,
            qa_timestamp: now,
            standards_maintained: false,
        }
    }

    /// Counts a reviewed assessment and recomputes the compliance percentage.
    pub fn review_assessment(&mut self, is_compliant: bool)
        requires
            ({
                let reviewed = old(self).assessments_reviewed.saturating_add(1);
                let bad = if is_compliant {
                    old(self).non_compliant_count
                } else {
                    old(self).non_compliant_count.saturating_add(1)
                };
                bad <= reviewed && (reviewed - bad) * 100 <= u32::MAX
            }),
        ensures
            ({
                let reviewed = old(self).assessments_reviewed.saturating_add(1);
                let bad = if is_compliant {
                    old(self).non_compliant_count
                } else {
                    old(self).non_compliant_count.saturating_add(1)
                };
                *final(self) == (QualityAssurance {
                    assessments_reviewed: reviewed,
                    non_compliant_count: bad,
                    standards_compliance: (((reviewed - bad) * 100) / (reviewed as int)) as u32,
                    ..*old(self)
                })
            }),
    {
        self.assessments_reviewed = self.assessments_reviewed.saturating_add(1);
        if !is_compliant {
            self.non_compliant_count = self.non_compliant_count.saturating_add(1);
        }
        let compliance_pct = if self.assessments_reviewed > 0 {
            ((self.assessments_reviewed - self.non_compliant_count) * 100)
                / self.assessments_reviewed
        } else {
            100
        };
        self.standards_compliance = compliance_pct;
    }

    pub fn update_standardization(&mut self, score: u32)
        ensures
            *final(self) == (QualityAssurance { standardization_score: score, ..*old(self) }),
    {
        self.standardization_score = score;
    }

    pub fn update_consistency(&mut self, score: u32)
        ensures
            *final(self) == (QualityAssurance { evaluator_consistency: score, ..*old(self) }),
    {
        self.evaluator_consistency = score;
    }

    pub fn check_standards_maintenance(&mut self)
        ensures
            *final(self) == (QualityAssurance {
                standards_maintained: old(self).standardization_score > 75
                    && old(self).evaluator_consistency > 75 && old(self).standards_compliance > 80,
                ..*old(self)
            }),
    {
        self.standards_maintained = self.standardization_score > 75
            && self.evaluator_consistency > 75 && self.standards_compliance > 80;
    }
}

impl MentorNetworkAnalysis {
    pub fn new(now: u64, record_id: u64, network_segment: SymbolId) -> (r: Self)
        ensures
            r == (MentorNetworkAnalysis {
                record_id,
                network_segment,
                mentor_group_size: 0,
                mill_indicators: 0,
                coordination_score: 0,
                suspicious_patterns: 0,
                credential_sharing_count: 0,
                analysis_timestamp: now,
                mill_operation_suspected: false,
                coordination_detected: false,
            }),
    {
        MentorNetworkAnalysis {
            record_id,
            network_segment,
            mentor_group_size: 0,
            mill_indicators: 0,
            coordination_score: 0,
            suspicious_patterns: 0,
            credential_sharing_count: 0,
            analysis_timestamp: now,
            mill_operation_suspected: false,
            coordination_detected: false,
        }
    }

    /// Past two mill indicators a mill operation is suspected and the
    /// coordination score rises by 25, capped at 100.
    pub fn record_mill_indicator(&mut self)
        requires
            old(self).mill_indicators.saturating_add(1) > 2 ==> old(self).coordination_score + 25
                <= u32::MAX,
        ensures
            old(self).mill_indicators.saturating_add(1) > 2 ==> *final(self)
                == (MentorNetworkAnalysis {
                mill_indicators: old(self).mill_indicators.saturating_add(1),
                mill_operation_suspected: true,
                coordination_score: min_int(100, old(self).coordination_score + 25) as u32,
                ..*old(self)
            }),
            old(self).mill_indicators.saturating_add(1) <= 2 ==> *final(self)
                == (MentorNetworkAnalysis {
                mill_indicators: old(self).mill_indicators.saturating_add(1),
                ..*old(self)
            }),
    {
        self.mill_indicators = self.mill_indicators.saturating_add(1);
        if self.mill_indicators > 2 {
            self.mill_operation_suspected = true;
            let raised = self.coordination_score + 25;
            self.coordination_score = if raised < 100 { raised } else { 100 };
        }
    }

    pub fn record_suspicious_pattern(&mut self)
        ensures
            *final(self) == (MentorNetworkAnalysis {
                suspicious_patterns: old(self).suspicious_patterns.saturating_add(1),
                mill_operation_suspected: old(self).mill_operation_suspected
                    || old(self).suspicious_patterns.saturating_add(1) > 1,
                ..*old(self)
            }),
    {
        self.suspicious_patterns = self.suspicious_patterns.saturating_add(1);
        if self.suspicious_patterns > 1 {
            self.mill_operation_suspected = true;
        }
    }

    pub fn record_credential_sharing(&mut self)
        requires
            old(self).coordination_score + 30 <= u32::MAX,
        ensures
            *final(self) == (MentorNetworkAnalysis {
                credential_sharing_count: old(self).credential_sharing_count.saturating_add(1),
                coordination_detected: true,
                coordination_score: min_int(100, old(self).coordination_score + 30) as u32,
                ..*old(self)
            }),
    {
        self.credential_sharing_count = self.credential_sharing_count.saturating_add(1);
        self.coordination_detected = true;
        let raised = self.coordination_score + 30;
        self.coordination_score = if raised < 100 { raised } else { 100 };
    }

    pub fn update_group_size(&mut self, size: u32)
        ensures
            *final(self) == (MentorNetworkAnalysis { mentor_group_size: size, ..*old(self) }),
    {
        self.mentor_group_size = size;
    }
}

impl CertificationAudit {
    pub fn new(now: u64, record_id: u64, program_id: SymbolId) -> (r: Self)
        ensures
            r == (CertificationAudit {
                record_id,
                program_id,
                authenticity_score: 50,
                quality_issues: 0,
                fraud_indicators: 0,
                certifications_under_review: 0,
                initiated_timestamp: now,
                completed_timestamp: 0,
                severity_level: 0,
                recommended_action: 0,
            }),
    {
        CertificationAudit {
            record_id,
            program_id,
            authenticity_score: 50,
            quality_issues: 0,
            fraud_indicators: 0,
            certifications_under_review: 0,
            initiated_timestamp: now,
            completed_timestamp: 0,
            severity_level: 0,
            recommended_action: 0,
        }
    }

    pub fn record_quality_issue(&mut self)
        ensures
            *final(self) == (CertificationAudit {
                quality_issues: old(self).quality_issues.saturating_add(1),
                authenticity_score: old(self).authenticity_score.saturating_sub(5),
                ..*old(self)
            }),
    {
        self.quality_issues = self.quality_issues.saturating_add(1);
        self.authenticity_score = self.authenticity_score.saturating_sub(5);
    }

    pub fn record_fraud_indicator(&mut self)
        ensures
            *final(self) == (CertificationAudit {
                fraud_indicators: old(self).fraud_indicators.saturating_add(1),
                authenticity_score: old(self).authenticity_score.saturating_sub(10),
                ..*old(self)
            }),
    {
        self.fraud_indicators = self.fraud_indicators.saturating_add(1);
        self.authenticity_score = self.authenticity_score.saturating_sub(10);
    }

    pub fn add_certification_under_review(&mut self)
        ensures
            *final(self) == (CertificationAudit {
                certifications_under_review: old(self).certifications_under_review.saturating_add(1),
                ..*old(self)
            }),
    {
        self.certifications_under_review = self.certifications_under_review.saturating_add(1);
    }

    pub fn complete_audit(&mut self, now: u64, severity: u32, action: u32)
        ensures
            *final(self) == (CertificationAudit {
                completed_timestamp: now,
                severity_level: severity,
                recommended_action: action,
                ..*old(self)
            }),
    {
        self.completed_timestamp = now;
        self.severity_level = severity;
        self.recommended_action = action;
    }
}

impl CertificationProtection {
    pub fn new(now: u64, record_id: u64, program_id: SymbolId, reason: SymbolId) -> (r: Self)
        ensures
            r == (CertificationProtection {
                record_id,
                program_id,
                status: 0,
                initiated_timestamp: now,
                resolved_timestamp: 0,
                credentials_under_review: 0,
                credentials_revoked: 0,
                legitimate_credentials_preserved: 0,
                integrity_maintained: true,
                reason,
            }),
    {
        CertificationProtection {
            record_id,
            program_id,
            status: 0,
            initiated_timestamp: now,
            resolved_timestamp: 0,
            credentials_under_review: 0,
            credentials_revoked: 0,
            legitimate_credentials_preserved: 0,
            integrity_maintained: true,
            reason,
        }
    }

    pub fn start_investigation(&mut self)
        ensures
            *final(self) == (CertificationProtection { status: 1, ..*old(self) }),
    {
        self.status = 1;
    }

    pub fn suspend_program(&mut self)
        ensures
            *final(self) == (CertificationProtection { status: 2, ..*old(self) }),
    {
        self.status = 2;
    }

    pub fn shutdown_program(&mut self)
        ensures
            *final(self) == (CertificationProtection { status: 3, ..*old(self) }),
    {
        self.status = 3;
    }

    pub fn add_credential_under_review(&mut self)
        ensures
            *final(self) == (CertificationProtection {
                credentials_under_review: old(self).credentials_under_review.saturating_add(1),
                ..*old(self)
            }),
    {
        self.credentials_under_review = self.credentials_under_review.saturating_add(1);
    }

    pub fn revoke_credential(&mut self)
        ensures
            *final(self) == (CertificationProtection {
                credentials_revoked: old(self).credentials_revoked.saturating_add(1),
                ..*old(self)
            }),
    {
        self.credentials_revoked = self.credentials_revoked.saturating_add(1);
    }

    pub fn preserve_legitimate_credential(&mut self)
        ensures
            *final(self) == (CertificationProtection {
                legitimate_credentials_preserved:
                    old(self).legitimate_credentials_preserved.saturating_add(1),
                ..*old(self)
            }),
    {
        self.legitimate_credentials_preserved = self.legitimate_credentials_preserved.saturating_add(
            1,
        );
    }

    pub fn restore_program(&mut self, now: u64)
        ensures
            *final(self) == (CertificationProtection {
                status: 4,
                resolved_timestamp: now,
                ..*old(self)
            }),
    {
        self.status = 4;
        self.resolved_timestamp = now;
    }
}

} // verus!
