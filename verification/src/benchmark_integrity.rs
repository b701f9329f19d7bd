//! Integrity records for evaluation benchmarks: manipulation tracking,
//! gaming detection, fairness of evaluation criteria, monitoring, audits and
//! protection workflows.
use vstd::prelude::*;
use crate::common::{AccountId, SymbolId, min_int, max_int};

verus! {

/// Integrity of a benchmark standard and the manipulation attempts seen on it.
#[derive(Clone, Copy, Debug, PartialEq, Eq, Structural)]
pub struct BenchmarkIntegrity {
    pub record_id: u64,
    pub benchmark_id: SymbolId,
    /// Standard protection score (0-100).
    pub standard_protection_score: u32,
    /// Manipulation risk level (0-100).
    pub manipulation_risk: u32,
    pub manipulation_attempts: u32,
    pub verification_timestamp: u64,
    pub is_standard_protected: bool,
    pub last_check_timestamp: u64,
}

/// Authenticity of an entity's assessed performance.
#[derive(Clone, Copy, Debug, PartialEq, Eq, Structural)]
pub struct PerformanceValidation {
    pub record_id: u64,
    pub entity_address: AccountId,
    pub authenticity_score: u32,
    pub gaming_risk_score: u32,
    pub suspicious_anomalies: u32,
    pub validated_results_count: u32,
    pub assessment_timestamp: u64,
    pub is_assessment_authentic: bool,
    /// Gaming detection confidence (0-100).
    pub gaming_confidence: u32,
}

/// Objectivity of evaluation criteria and resistance to evaluator coordination.
#[derive(Clone, Copy, Debug, PartialEq, Eq, Structural)]
pub struct EvaluationFairness {
    pub record_id: u64,
    pub benchmark_context: SymbolId,
    pub criteria_compliance_score: u32,
    pub coordination_risk: u32,
    pub evaluator_count: u32,
    pub coordination_indicators: u32,
    pub assessment_timestamp: u64,
    pub criteria_maintained: bool,
}

/// Monitoring window over one benchmark.
#[derive(Clone, Copy, Debug, PartialEq, Eq, Structural)]
pub struct StandardMonitoring {
    pub record_id: u64,
    pub benchmark_id: SymbolId,
    pub manipulation_incidents: u32,
    pub protection_incidents: u32,
    pub period_start_timestamp: u64,
    pub period_end_timestamp: u64,
    /// 0 = low, 1 = medium, 2 = high, 3 = critical.
    pub alert_severity: u32,
    pub manipulation_identified: bool,
}

/// Audit of an entity's performance record.
#[derive(Clone, Copy, Debug, PartialEq, Eq, Structural)]
pub struct PerformanceAudit {
    pub record_id: u64,
    pub entity_address: AccountId,
    pub integrity_score: u32,
    pub gaming_indicators: u32,
    pub manipulation_tactics: u32,
    pub initiated_timestamp: u64,
    pub completed_timestamp: u64,
    /// 0 = low, 1 = medium, 2 = high, 3 = critical.
    pub severity_level: u32,
    /// 0 = none, 1 = monitor, 2 = restrict, 3 = penalize.
    pub recommended_action: u32,
}

/// Protection workflow restoring a benchmark's standards.
#[derive(Clone, Copy, Debug, PartialEq, Eq, Structural)]
pub struct BenchmarkProtection {
    pub record_id: u64,
    pub benchmark_id: SymbolId,
    /// 0 = monitoring, 1 = active, 2 = adjustment, 3 = restored.
    pub status: u32,
    pub initiated_timestamp: u64,
    pub resolved_timestamp: u64,
    pub restoration_progress: u32,
    pub standards_restored: bool,
    pub protection_reason: SymbolId,
}

/// A benchmark's standard counts as protected when its protection score is
/// above 75 and its risk below 25.
pub open spec fn benchmark_protected(protection_score: u32, risk: u32) -> bool {
    protection_score > 75 && risk < 25
}

impl BenchmarkIntegrity {
    pub fn new(
        now: u64,
        record_id: u64,
        benchmark_id: SymbolId,
        standard_protection_score: u32,
        manipulation_risk: u32,
    ) -> (r: Self)
        ensures
            r == (BenchmarkIntegrity {
                record_id,
                benchmark_id,
                standard_protection_score,
                manipulation_risk,
                manipulation_attempts: 0,
                verification_timestamp: now,
                is_standard_protected: benchmark_protected(standard_protection_score, manipulation_risk),
                last_check_timestamp: 0,
            }),
    {
        BenchmarkIntegrity {
            record_id,
            benchmark_id,
            standard_protection_score,
            manipulation_risk,
            manipulation_attempts: 0,
            verification_timestamp: now,
            is_standard_protected: standard_protection_score > 75 && manipulation_risk < 25,
            last_check_timestamp: 0,
        }
    }

    /// Counts an attempt; past three attempts the standard loses protection
    /// and its protection score drops by 10 (not below 0).
    pub fn record_manipulation_attempt(&mut self)
        ensures
            final(self).manipulation_attempts == old(self).manipulation_attempts.saturating_add(1),
            final(self).manipulation_attempts > 3 ==> !final(self).is_standard_protected
                && final(self).standard_protection_score
                == old(self).standard_protection_score.saturating_sub(10),
            final(self).manipulation_attempts <= 3 ==> final(self).is_standard_protected
                == old(self).is_standard_protected && final(self).standard_protection_score
                == old(self).standard_protection_score,
            final(self).record_id == old(self).record_id,
            final(self).benchmark_id == old(self).benchmark_id,
            final(self).manipulation_risk == old(self).manipulation_risk,
            final(self).verification_timestamp == old(self).verification_timestamp,
            final(self).last_check_timestamp == old(self).last_check_timestamp,
    {
        self.manipulation_attempts = self.manipulation_attempts.saturating_add(1);
        if self.manipulation_attempts > 3 {
            self.is_standard_protected = false;
            self.standard_protection_score = self.standard_protection_score.saturating_sub(10);
        }
    }

    pub fn update_protection_metrics(&mut self, now: u64, protection_score: u32, risk: u32)
        ensures
            *final(self) == (BenchmarkIntegrity {
                standard_protection_score: protection_score,
                manipulation_risk: risk,
                last_check_timestamp: now,
                is_standard_protected: benchmark_protected(protection_score, risk),
                ..*old(self)
            }),
    {
        self.standard_protection_score = protection_score;
        self.manipulation_risk = risk;
        self.last_check_timestamp = now;
        self.is_standard_protected = protection_score > 75 && risk < 25;
    }
}

impl PerformanceValidation {
    pub fn new(
        now: u64,
        record_id: u64,
        entity_address: AccountId,
        authenticity_score: u32,
        gaming_risk_score: u32,
    ) -> (r: Self)
        ensures
            r == (PerformanceValidation {
                record_id,
                entity_address,
                authenticity_score,
                gaming_risk_score,
                suspicious_anomalies: 0,
                validated_results_count: 0,
                assessment_timestamp: now,
                is_assessment_authentic: authenticity_score > 75 && gaming_risk_score < 25,
                gaming_confidence: 50,
            }),
    {
        PerformanceValidation {
            record_id,
            entity_address,
            authenticity_score,
            gaming_risk_score,
            suspicious_anomalies: 0,
            validated_results_count: 0,
            assessment_timestamp: now,
            is_assessment_authentic: authenticity_score > 75 && gaming_risk_score < 25,
            gaming_confidence: 50,
        }
    }

    pub fn record_validated_result(&mut self)
        ensures
            *final(self) == (PerformanceValidation {
                validated_results_count: old(self).validated_results_count.saturating_add(1),
                ..*old(self)
            }),
    {
        self.validated_results_count = self.validated_results_count.saturating_add(1);
    }

    /// Past two anomalies the assessment is no longer authentic and the
    /// gaming confidence rises by 20, capped at 100.
    pub fn record_suspicious_anomaly(&mut self)
        requires
            old(self).suspicious_anomalies.saturating_add(1) > 2 ==> old(self).gaming_confidence
                + 20 <= u32::MAX,
        ensures
            old(self).suspicious_anomalies.saturating_add(1) > 2 ==> *final(self)
                == (PerformanceValidation {
                suspicious_anomalies: old(self).suspicious_anomalies.saturating_add(1),
                is_assessment_authentic: false,
                gaming_confidence: min_int(100, old(self).gaming_confidence + 20) as u32,
                ..*old(self)
            }),
            old(self).suspicious_anomalies.saturating_add(1) <= 2 ==> *final(self)
                == (PerformanceValidation {
                suspicious_anomalies: old(self).suspicious_anomalies.saturating_add(1),
                ..*old(self)
            }),
    {
        self.suspicious_anomalies = self.suspicious_anomalies.saturating_add(1);
        if self.suspicious_anomalies > 2 {
            self.is_assessment_authentic = false;
            let raised = self.gaming_confidence + 20;
            self.gaming_confidence = if raised < 100 { raised } else { 100 };
        }
    }

    pub fn update_gaming_risk(&mut self, risk: u32)
        ensures
            *final(self) == (PerformanceValidation {
                gaming_risk_score: risk,
                is_assessment_authentic: old(self).authenticity_score > 75 && risk < 25,
                ..*old(self)
            }),
    {
        self.gaming_risk_score = risk;
        self.is_assessment_authentic = self.authenticity_score > 75 && risk < 25;
    }
}

impl EvaluationFairness {
    pub fn new(
        now: u64,
        record_id: u64,
        benchmark_context: SymbolId,
        criteria_compliance_score: u32,
        coordination_risk: u32,
    ) -> (r: Self)
        ensures
            r == (EvaluationFairness {
                record_id,
                benchmark_context,
                criteria_compliance_score,
                coordination_risk,
                evaluator_count: 0,
                coordination_indicators: 0,
                assessment_timestamp: now,
                criteria_maintained: criteria_compliance_score > 80 && coordination_risk < 30,
            }),
    {
        EvaluationFairness {
            record_id,
            benchmark_context,
            criteria_compliance_score,
            coordination_risk,
            evaluator_count: 0,
            coordination_indicators: 0,
            assessment_timestamp: now,
            criteria_maintained: criteria_compliance_score > 80 && coordination_risk < 30,
        }
    }

    pub fn add_evaluator(&mut self)
        ensures
            *final(self) == (EvaluationFairness {
                evaluator_count: old(self).evaluator_count.saturating_add(1),
                ..*old(self)
            }),
    {
        self.evaluator_count = self.evaluator_count.saturating_add(1);
    }

    /// Past two indicators the criteria are no longer maintained and the
    /// coordination risk rises by 15, capped at 100.
    pub fn record_coordination_indicator(&mut self)
        requires
            old(self).coordination_indicators.saturating_add(1) > 2 ==> old(self).coordination_risk
                + 15 <= u32::MAX,
        ensures
            old(self).coordination_indicators.saturating_add(1) > 2 ==> *final(self)
                == (EvaluationFairness {
                coordination_indicators: old(self).coordination_indicators.saturating_add(1),
                criteria_maintained: false,
                coordination_risk: min_int(100, old(self).coordination_risk + 15) as u32,
                ..*old(self)
            }),
            old(self).coordination_indicators.saturating_add(1) <= 2 ==> *final(self)
                == (EvaluationFairness {
                coordination_indicators: old(self).coordination_indicators.saturating_add(1),
                ..*old(self)
            }),
    {
        self.coordination_indicators = self.coordination_indicators.saturating_add(1);
        if self.coordination_indicators > 2 {
            self.criteria_maintained = false;
            let raised = self.coordination_risk + 15;
            self.coordination_risk = if raised < 100 { raised } else { 100 };
        }
    }

    pub fn update_criteria_compliance(&mut self, score: u32)
        ensures
            *final(self) == (EvaluationFairness {
                criteria_compliance_score: score,
                criteria_maintained: score > 80 && old(self).coordination_risk < 30,
                ..*old(self)
            }),
    {
        self.criteria_compliance_score = score;
        self.criteria_maintained = score > 80 && self.coordination_risk < 30;
    }
}

impl StandardMonitoring {
    pub fn new(now: u64, record_id: u64, benchmark_id: SymbolId) -> (r: Self)
        ensures
            r == (StandardMonitoring {
                record_id,
                benchmark_id,
                manipulation_incidents: 0,
                protection_incidents: 0,
                period_start_timestamp: now,
                period_end_timestamp: 0,
                alert_severity: 0,
                manipulation_identified: false,
            }),
    {
        StandardMonitoring {
            record_id,
            benchmark_id,
            manipulation_incidents: 0,
            protection_incidents: 0,
            period_start_timestamp: now,
            period_end_timestamp: 0,
            alert_severity: 0,
            manipulation_identified: false,
        }
    }

    /// From the second incident on, manipulation counts as identified and the
    /// alert severity rises by one level, capped at critical (3).
    pub fn record_manipulation_incident(&mut self)
        requires
            old(self).manipulation_incidents.saturating_add(1) > 1 ==> old(self).alert_severity + 1
                <= u32::MAX,
        ensures
            old(self).manipulation_incidents.saturating_add(1) > 1 ==> *final(self)
                == (StandardMonitoring {
                manipulation_incidents: old(self).manipulation_incidents.saturating_add(1),
                manipulation_identified: true,
                alert_severity: min_int(3, old(self).alert_severity + 1) as u32,
                ..*old(self)
            }),
            old(self).manipulation_incidents.saturating_add(1) <= 1 ==> *final(self)
                == (StandardMonitoring {
                manipulation_incidents: old(self).manipulation_incidents.saturating_add(1),
                ..*old(self)
            }),
    {
        self.manipulation_incidents = self.manipulation_incidents.saturating_add(1);
        if self.manipulation_incidents > 1 {
            self.manipulation_identified = true;
            let raised = self.alert_severity + 1;
            self.alert_severity = if raised < 3 { raised } else { 3 };
        }
    }

    pub fn record_protection_incident(&mut self)
        ensures
            *final(self) == (StandardMonitoring {
                protection_incidents: old(self).protection_incidents.saturating_add(1),
                ..*old(self)
            }),
    {
        self.protection_incidents = self.protection_incidents.saturating_add(1);
    }

    /// More than five manipulation incidents or more than three protection
    /// incidents escalate the alert to critical.
    pub fn check_alert_threshold(&mut self)
        ensures
            (old(self).manipulation_incidents > 5 || old(self).protection_incidents > 3)
                ==> *final(self) == (StandardMonitoring {
                alert_severity: 3,
                manipulation_identified: true,
                ..*old(self)
            }),
            !(old(self).manipulation_incidents > 5 || old(self).protection_incidents > 3)
                ==> *final(self) == *old(self),
    {
        if self.manipulation_incidents > 5 || self.protection_incidents > 3 {
            self.alert_severity = 3;
            self.manipulation_identified = true;
        }
    }
}

impl PerformanceAudit {
    pub fn new(now: u64, record_id: u64, entity_address: AccountId) -> (r: Self)
        ensures
            r == (PerformanceAudit {
                record_id,
                entity_address,
                integrity_score: 50,
                gaming_indicators: 0,
                manipulation_tactics: 0,
                initiated_timestamp: now,
                completed_timestamp: 0,
                severity_level: 0,
                recommended_action: 0,
            }),
    {
        PerformanceAudit {
            record_id,
            entity_address,
            integrity_score: 50,
            gaming_indicators: 0,
            manipulation_tactics: 0,
            initiated_timestamp: now,
            completed_timestamp: 0,
            severity_level: 0,
            recommended_action: 0,
        }
    }

    pub fn record_gaming_indicator(&mut self)
        ensures
            *final(self) == (PerformanceAudit {
                gaming_indicators: old(self).gaming_indicators.saturating_add(1),
                integrity_score: old(self).integrity_score.saturating_sub(5),
                ..*old(self)
            }),
    {
        self.gaming_indicators = self.gaming_indicators.saturating_add(1);
        self.integrity_score = self.integrity_score.saturating_sub(5);
    }

    pub fn record_manipulation_tactic(&mut self)
        ensures
            *final(self) == (PerformanceAudit {
                manipulation_tactics: old(self).manipulation_tactics.saturating_add(1),
                integrity_score: old(self).integrity_score.saturating_sub(10),
                ..*old(self)
            }),
    {
        self.manipulation_tactics = self.manipulation_tactics.saturating_add(1);
        self.integrity_score = self.integrity_score.saturating_sub(10);
    }

    pub fn complete_audit(&mut self, now: u64, severity: u32, action: u32)
        ensures
            *final(self) == (PerformanceAudit {
                completed_timestamp: now,
                severity_level: severity,
                recommended_action: action,
                ..*old(self)
            }),
    {
        self.completed_timestamp = now;
        self.severity_level = severity;
        self.recommended_action = action;
    }

    /// Final score: 100 minus 3 per gaming indicator and 5 per manipulation
    /// tactic, never below 0.
    pub fn calculate_final_integrity(&mut self)
        requires
            old(self).gaming_indicators * 3 <= u32::MAX,
            old(self).manipulation_tactics * 5 <= u32::MAX,
        ensures
            *final(self) == (PerformanceAudit {
                integrity_score: max_int(
                    0,
                    100 - min_int(
                        old(self).gaming_indicators * 3 + old(self).manipulation_tactics * 5,
                        u32::MAX as int,
                    ),
                ) as u32,
                ..*old(self)
            }),
    {
        let penalty = (self.gaming_indicators * 3).saturating_add(self.manipulation_tactics * 5);
        self.integrity_score = 100u32.saturating_sub(penalty);
    }
}

impl BenchmarkProtection {
    pub fn new(
        now: u64,
        record_id: u64,
        benchmark_id: SymbolId,
        protection_reason: SymbolId,
    ) -> (r: Self)
        ensures
            r == (BenchmarkProtection {
                record_id,
                benchmark_id,
                status: 1,
                initiated_timestamp: now,
                resolved_timestamp: 0,
                restoration_progress: 0,
                standards_restored: false,
                protection_reason,
            }),
    {
        BenchmarkProtection {
            record_id,
            benchmark_id,
            status: 1,
            initiated_timestamp: now,
            resolved_timestamp: 0,
            restoration_progress: 0,
            standards_restored: false,
            protection_reason,
        }
    }

    /// Progress is capped at 100; reaching 100 restores the standards.
    pub fn update_restoration_progress(&mut self, progress: u32)
        ensures
            progress >= 100 ==> *final(self) == (BenchmarkProtection {
                restoration_progress: 100,
                standards_restored: true,
                status: 3,
                ..*old(self)
            }),
            progress < 100 ==> *final(self) == (BenchmarkProtection {
                restoration_progress: progress,
                ..*old(self)
            }),
    {
        self.restoration_progress = if progress < 100 { progress } else { 100 };
        if progress >= 100 {
            self.standards_restored = true;
            self.status = 3;
        }
    }

    pub fn start_adjustment(&mut self)
        ensures
            *final(self) == (BenchmarkProtection { status: 2, ..*old(self) }),
    {
        self.status = 2;
    }

    pub fn complete_protection(&mut self, now: u64)
        ensures
            *final(self) == (BenchmarkProtection {
                resolved_timestamp: now,
                status: 3,
                standards_restored: true,
                ..*old(self)
            }),
    {
        self.resolved_timestamp = now;
        self.status = 3;
        self.standards_restored = true;
    }
}

} // verus!
