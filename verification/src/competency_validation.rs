//! Competency validation: authenticity of skill mappings, cross-domain
//! transfer assessment, skill integrity, domain monitoring, audits and skill
//! protection.
use vstd::prelude::*;
use crate::common::{AccountId, SymbolId, min_int};

verus! {

#[derive(Clone, Copy, Debug, PartialEq, Eq, Structural)]
pub struct CompetencyValidation {
    pub record_id: u64,
    pub user_address: AccountId,
    pub authentic_mapping_score: u32,
    pub fraud_score: u32,
    pub verified_skills_count: u32,
    pub suspicious_claims_count: u32,
    pub validation_timestamp: u64,
    pub is_competency_authentic: bool,
    pub audit_trail_id: u64,
}

#[derive(Clone, Copy, Debug, PartialEq, Eq, Structural)]
pub struct TransferAssessment {
    pub record_id: u64,
    pub source_domain: SymbolId,
    pub target_domain: SymbolId,
    pub user_address: AccountId,
    /// Share of criteria met, in percent.
    pub correlation_legitimacy: u32,
    pub manipulation_risk: u32,
    pub criteria_met: u32,
    pub total_criteria: u32,
    pub assessment_timestamp: u64,
    pub is_transfer_legitimate: bool,
    /// 0 = pending, 1 = approved, 2 = rejected.
    pub approval_status: u32,
}

#[derive(Clone, Copy, Debug, PartialEq, Eq, Structural)]
pub struct SkillIntegrity {
    pub record_id: u64,
    pub user_address: AccountId,
    pub skill_id: SymbolId,
    pub gaming_resistance_level: u32,
    pub last_verification_timestamp: u64,
    pub proof_method: u32,
    pub verification_attempt_count: u32,
    pub failed_verification_count: u32,
    pub integrity_maintained: bool,
}

#[derive(Clone, Copy, Debug, PartialEq, Eq, Structural)]
pub struct DomainMonitoring {
    pub record_id: u64,
    pub domain: SymbolId,
    pub transfer_activity_count: u32,
    pub fraud_indicators: u32,
    pub suspicious_pattern_type: u32,
    pub period_start_timestamp: u64,
    pub period_end_timestamp: u64,
    pub fraud_confidence: u32,
    pub fraud_suspected: bool,
}

#[derive(Clone, Copy, Debug, PartialEq, Eq, Structural)]
pub struct CompetencyAudit {
    pub record_id: u64,
    pub user_address: AccountId,
    pub authenticity_score: u32,
    pub fraud_indicators: u32,
    pub authentic_skills_count: u32,
    pub questionable_skills_count: u32,
    pub initiated_timestamp: u64,
    pub completed_timestamp: u64,
    pub severity_level: u32,
    pub recommended_action: u32,
}

#[derive(Clone, Copy, Debug, PartialEq, Eq, Structural)]
pub struct SkillProtection {
    pub record_id: u64,
    pub user_address: AccountId,
    pub skill_id: SymbolId,
    /// 0 = monitoring, 3 = restored; other codes are set by the caller.
    pub status: u32,
    pub initiated_timestamp: u64,
    pub resolved_timestamp: u64,
    pub restoration_progress: u32,
    pub integrity_restored: bool,
    pub justification: SymbolId,
}

impl CompetencyValidation {
    pub fn new(
        now: u64,
        record_id: u64,
        user_address: AccountId,
        authentic_mapping_score: u32,
        fraud_score: u32,
    ) -> (r: Self)
        ensures
            r == (CompetencyValidation {
                record_id,
                user_address,
                authentic_mapping_score,
                fraud_score,
                verified_skills_count: 0,
                suspicious_claims_count: 0,
                validation_timestamp: now,
                is_competency_authentic: authentic_mapping_score > 70 && fraud_score < 30,
                audit_trail_id: 0,
            }),
    {
        CompetencyValidation {
            record_id,
            user_address,
            authentic_mapping_score,
            fraud_score,
            verified_skills_count: 0,
            suspicious_claims_count: 0,
            validation_timestamp: now,
            is_competency_authentic: authentic_mapping_score > 70 && fraud_score < 30,
            audit_trail_id: 0,
        }
    }

    pub fn add_verified_skill(&mut self)
        ensures
            *final(self) == (CompetencyValidation {
                verified_skills_count: old(self).verified_skills_count.saturating_add(1),
                ..*old(self)
            }),
    {
        self.verified_skills_count = self.verified_skills_count.saturating_add(1);
    }

    /// Any suspicious claim makes the competency inauthentic.
    pub fn add_suspicious_claim(&mut self)
        ensures
            *final(self) == (CompetencyValidation {
                suspicious_claims_count: old(self).suspicious_claims_count.saturating_add(1),
                is_competency_authentic: false,
                ..*old(self)
            }),
    {
        self.suspicious_claims_count = self.suspicious_claims_count.saturating_add(1);
        self.is_competency_authentic = false;
    }

    pub fn update_fraud_score(&mut self, new_score: u32)
        ensures
            *final(self) == (CompetencyValidation {
                fraud_score: new_score,
                is_competency_authentic: old(self).authentic_mapping_score > 70 && new_score < 30,
                ..*old(self)
            }),
    {
        self.fraud_score = new_score;
        self.is_competency_authentic = self.authentic_mapping_score > 70 && new_score < 30;
    }
}

/// Percentage of criteria met.
pub open spec fn met_percentage(met: u32, total: u32) -> int {
    (met * 100) / (total as int)
}

impl TransferAssessment {
    pub fn new(
        now: u64,
        record_id: u64,
        source_domain: SymbolId,
        target_domain: SymbolId,
        user_address: AccountId,
    ) -> (r: Self)
        ensures
            r == (TransferAssessment {
                record_id,
                source_domain,
                target_domain,
                user_address,
                correlation_legitimacy: 50,
                manipulation_risk: 50,
                criteria_met: 0,
                total_criteria: 5,
                assessment_timestamp: now,
                is_transfer_legitimate: false,
                approval_status: 0,
            }),
    {
        TransferAssessment {
            record_id,
            source_domain,
            target_domain,
            user_address,
            correlation_legitimacy: 50,
            manipulation_risk: 50,
            criteria_met: 0,
            total_criteria: 5,
            assessment_timestamp: now,
            is_transfer_legitimate: false,
            approval_status: 0,
        }
    }

    /// Counts one more criterion as met (never past the total) and
    /// recomputes the legitimacy.
    pub fn mark_criterion_met(&mut self)
        requires
            old(self).total_criteria > 0,
            ({
                let met = if old(self).criteria_met < old(self).total_criteria {
                    old(self).criteria_met.saturating_add(1)
                } else {
                    old(self).criteria_met
                };
                met * 100 <= u32::MAX
            }),
        ensures
            ({
                let met = if old(self).criteria_met < old(self).total_criteria {
                    old(self).criteria_met.saturating_add(1)
                } else {
                    old(self).criteria_met
                };
                let pct = met_percentage(met, old(self).total_criteria);
                *final(self) == (TransferAssessment {
                    criteria_met: met,
                    correlation_legitimacy: pct as u32,
                    is_transfer_legitimate: pct > 80 && old(self).manipulation_risk < 30,
                    ..*old(self)
                })
            }),
    {
        if self.criteria_met < self.total_criteria {
            self.criteria_met = self.criteria_met.saturating_add(1);
        }
        self.update_legitimacy();
    }

    fn update_legitimacy(&mut self)
        requires
            old(self).total_criteria > 0,
            old(self).criteria_met * 100 <= u32::MAX,
        ensures
            ({
                let pct = met_percentage(old(self).criteria_met, old(self).total_criteria);
                *final(self) == (TransferAssessment {
                    correlation_legitimacy: pct as u32,
                    is_transfer_legitimate: pct > 80 && old(self).manipulation_risk < 30,
                    ..*old(self)
                })
            }),
    {
        let met_percentage = (self.criteria_met * 100) / self.total_criteria;
        self.correlation_legitimacy = met_percentage;
        self.is_transfer_legitimate = met_percentage > 80 && self.manipulation_risk < 30;
    }

    pub fn update_manipulation_risk(&mut self, risk: u32)
        requires
            old(self).total_criteria > 0,
            old(self).criteria_met * 100 <= u32::MAX,
        ensures
            ({
                let pct = met_percentage(old(self).criteria_met, old(self).total_criteria);
                *final(self) == (TransferAssessment {
                    manipulation_risk: risk,
                    correlation_legitimacy: pct as u32,
                    is_transfer_legitimate: pct > 80 && risk < 30,
                    ..*old(self)
                })
            }),
    {
        self.manipulation_risk = risk;
        self.update_legitimacy();
    }

    pub fn approve_transfer(&mut self)
        ensures
            *final(self) == (TransferAssessment {
                approval_status: 1,
                is_transfer_legitimate: true,
                ..*old(self)
            }),
    {
        self.approval_status = 1;
        self.is_transfer_legitimate = true;
    }

    pub fn reject_transfer(&mut self)
        ensures
            *final(self) == (TransferAssessment {
                approval_status: 2,
                is_transfer_legitimate: false,
                ..*old(self)
            }),
    {
        self.approval_status = 2;
        self.is_transfer_legitimate = false;
    }
}

impl SkillIntegrity {
    pub fn new(
        now: u64,
        record_id: u64,
        user_address: AccountId,
        skill_id: SymbolId,
        proof_method: u32,
    ) -> (r: Self)
        ensures
            r == (SkillIntegrity {
                record_id,
                user_address,
                skill_id,
                gaming_resistance_level: 100,
                last_verification_timestamp: now,
                proof_method,
                verification_attempt_count: 0,
                failed_verification_count: 0,
                integrity_maintained: true,
            }),
    {
        SkillIntegrity {
            record_id,
            user_address,
            skill_id,
            gaming_resistance_level: 100,
            last_verification_timestamp: now,
            proof_method,
            verification_attempt_count: 0,
            failed_verification_count: 0,
            integrity_maintained: true,
        }
    }

    /// A failed attempt lowers the gaming resistance by 10; more than three
    /// failures break the skill's integrity.
    pub fn record_verification_attempt(&mut self, success: bool)
        ensures
            success ==> *final(self) == (SkillIntegrity {
                verification_attempt_count: old(self).verification_attempt_count.saturating_add(1),
                ..*old(self)
            }),
            !success ==> *final(self) == (SkillIntegrity {
                verification_attempt_count: old(self).verification_attempt_count.saturating_add(1),
                failed_verification_count: old(self).failed_verification_count.saturating_add(1),
                gaming_resistance_level: old(self).gaming_resistance_level.saturating_sub(10),
                integrity_maintained: old(self).integrity_maintained
                    && old(self).failed_verification_count.saturating_add(1) <= 3,
                ..*old(self)
            }),
    {
        self.verification_attempt_count = self.verification_attempt_count.saturating_add(1);
        if !success {
            self.failed_verification_count = self.failed_verification_count.saturating_add(1);
            self.gaming_resistance_level = self.gaming_resistance_level.saturating_sub(10);
            if self.failed_verification_count > 3 {
                self.integrity_maintained = false;
            }
        }
    }

    pub fn update_gaming_resistance(&mut self, level: u32)
        ensures
            *final(self) == (SkillIntegrity {
                gaming_resistance_level: min_int(100, level as int) as u32,
                ..*old(self)
            }),
    {
        self.gaming_resistance_level = if level < 100 { level } else { 100 };
    }
}

impl DomainMonitoring {
    pub fn new(now: u64, record_id: u64, domain: SymbolId) -> (r: Self)
        ensures
            r == (DomainMonitoring {
                record_id,
                domain,
                transfer_activity_count: 0,
                fraud_indicators: 0,
                suspicious_pattern_type: 0,
                period_start_timestamp: now,
                period_end_timestamp: 0,
                fraud_confidence: 0,
                fraud_suspected: false,
            }),
    {
        DomainMonitoring {
            record_id,
            domain,
            transfer_activity_count: 0,
            fraud_indicators: 0,
            suspicious_pattern_type: 0,
            period_start_timestamp: now,
            period_end_timestamp: 0,
            fraud_confidence: 0,
            fraud_suspected: false,
        }
    }

    pub fn record_transfer_activity(&mut self)
        ensures
            *final(self) == (DomainMonitoring {
                transfer_activity_count: old(self).transfer_activity_count.saturating_add(1),
                ..*old(self)
            }),
    {
        self.transfer_activity_count = self.transfer_activity_count.saturating_add(1);
    }

    /// Each indicator raises the confidence by 10 (capped at 100); more than
    /// three indicators or a confidence above 75 raise the suspicion.
    pub fn detect_fraud_indicator(&mut self)
        requires
            old(self).fraud_confidence + 10 <= u32::MAX,
        ensures
            ({
                let ind = old(self).fraud_indicators.saturating_add(1);
                let conf = min_int(100, old(self).fraud_confidence + 10);
                *final(self) == (DomainMonitoring {
                    fraud_indicators: ind,
                    fraud_confidence: conf as u32,
                    fraud_suspected: old(self).fraud_suspected || ind > 3 || conf > 75,
                    ..*old(self)
                })
            }),
    {
        self.fraud_indicators = self.fraud_indicators.saturating_add(1);
        let raised = self.fraud_confidence + 10;
        self.fraud_confidence = if raised < 100 { raised } else { 100 };
        if self.fraud_indicators > 3 || self.fraud_confidence > 75 {
            self.fraud_suspected = true;
        }
    }

    pub fn update_pattern_type(&mut self, pattern_type: u32)
        requires
            pattern_type > 0 ==> old(self).fraud_confidence + 20 <= u32::MAX,
        ensures
            pattern_type > 0 ==> *final(self) == (DomainMonitoring {
                suspicious_pattern_type: pattern_type,
                fraud_suspected: true,
                fraud_confidence: min_int(100, old(self).fraud_confidence + 20) as u32,
                ..*old(self)
            }),
            pattern_type == 0 ==> *final(self) == (DomainMonitoring {
                suspicious_pattern_type: pattern_type,
                ..*old(self)
            }),
    {
        self.suspicious_pattern_type = pattern_type;
        if pattern_type > 0 {
            self.fraud_suspected = true;
            let raised = self.fraud_confidence + 20;
            self.fraud_confidence = if raised < 100 { raised } else { 100 };
        }
    }
}

impl CompetencyAudit {
    pub fn new(now: u64, record_id: u64, user_address: AccountId) -> (r: Self)
        ensures
            r == (CompetencyAudit {
                record_id,
                user_address,
                authenticity_score: 50,
                fraud_indicators: 0,
                authentic_skills_count: 0,
                questionable_skills_count: 0,
                initiated_timestamp: now,
                completed_timestamp: 0,
                severity_level: 0,
                recommended_action: 0,
            }),
    {
        CompetencyAudit {
            record_id,
            user_address,
            authenticity_score: 50,
            fraud_indicators: 0,
            authentic_skills_count: 0,
            questionable_skills_count: 0,
            initiated_timestamp: now,
            completed_timestamp: 0,
            severity_level: 0,
            recommended_action: 0,
        }
    }

    pub fn mark_skill_authentic(&mut self)
        requires
            old(self).authenticity_score + 5 <= u32::MAX,
        ensures
            *final(self) == (CompetencyAudit {
                authentic_skills_count: old(self).authentic_skills_count.saturating_add(1),
                authenticity_score: min_int(100, old(self).authenticity_score + 5) as u32,
                ..*old(self)
            }),
    {
        self.authentic_skills_count = self.authentic_skills_count.saturating_add(1);
        let raised = self.authenticity_score + 5;
        self.authenticity_score = if raised < 100 { raised } else { 100 };
    }

    pub fn mark_skill_questionable(&mut self)
        ensures
            *final(self) == (CompetencyAudit {
                questionable_skills_count: old(self).questionable_skills_count.saturating_add(1),
                authenticity_score: old(self).authenticity_score.saturating_sub(10),
                fraud_indicators: old(self).fraud_indicators.saturating_add(1),
                ..*old(self)
            }),
    {
        self.questionable_skills_count = self.questionable_skills_count.saturating_add(1);
        self.authenticity_score = self.authenticity_score.saturating_sub(10);
        self.fraud_indicators = self.fraud_indicators.saturating_add(1);
    }

    pub fn complete_audit(&mut self, now: u64, severity: u32, action: u32)
        ensures
            *final(self) == (CompetencyAudit {
                completed_timestamp: now,
                severity_level: severity,
                recommended_action: action,
                ..*old(self)
            }),
    {
        self.completed_timestamp = now;
        self.severity_level = severity;
        self.recommended_action = action;
    }
}

impl SkillProtection {
    pub fn new(
        now: u64,
        record_id: u64,
        user_address: AccountId,
        skill_id: SymbolId,
        justification: SymbolId,
    ) -> (r: Self)
        ensures
            r == (SkillProtection {
                record_id,
                user_address,
                skill_id,
                status: 0,
                initiated_timestamp: now,
                resolved_timestamp: 0,
                restoration_progress: 0,
                integrity_restored: false,
                justification,
            }),
    {
        SkillProtection {
            record_id,
            user_address,
            skill_id,
            status: 0,
            initiated_timestamp: now,
            resolved_timestamp: 0,
            restoration_progress: 0,
            integrity_restored: false,
            justification,
        }
    }

    pub fn update_restoration_progress(&mut self, progress: u32)
        ensures
            progress >= 100 ==> *final(self) == (SkillProtection {
                restoration_progress: 100,
                integrity_restored: true,
                status: 3,
                ..*old(self)
            }),
            progress < 100 ==> *final(self) == (SkillProtection {
                restoration_progress: progress,
                ..*old(self)
            }),
    {
        self.restoration_progress = if progress < 100 { progress } else { 100 };
        if progress >= 100 {
            self.integrity_restored = true;
            self.status = 3;
        }
    }

    pub fn update_status(&mut self, status: u32)
        ensures
            *final(self) == (SkillProtection { status, ..*old(self) }),
    {
        self.status = status;
    }

    pub fn resolve_protection(&mut self, now: u64)
        ensures
            *final(self) == (SkillProtection { resolved_timestamp: now, status: 3, ..*old(self) }),
    {
        self.resolved_timestamp = now;
        self.status = 3;
    }
}

} // verus!
