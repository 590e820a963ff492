//! The protection dispatcher: maps each confirmed detection to exactly one
//! protection measure through a total category table, and classifies the
//! overall safety level of one analysis call.

use vstd::prelude::*;

use crate::detection::DarkPatternDetection;
use crate::policy::AT_RISK_MAX_MILLI;
use crate::policy::CAUTION_MAX_MILLI;
use crate::policy::PROCESSING_TIMEOUT_SECS;
use crate::rules::DarkPatternType;

verus! {

/// The concrete intervention dispatched for one confirmed detection.
#[derive(Clone, Debug, PartialEq)]
pub enum ProtectionMeasure {
    RealityAnchor { message: String, evidence_provided: bool, support_offered: bool },
    ProcessingSupport {
        slowdown_applied: bool,
        information_chunked: bool,
        timeout_provided_secs: u64,
    },
    InclusionSupport {
        alternative_participation_offered: bool,
        accommodation_provided: bool,
        advocacy_activated: bool,
    },
    TimelineEnforcement {
        legal_timeline_referenced: bool,
        escalation_path_provided: bool,
        documentation_started: bool,
    },
    EvidenceSupport {
        documentation_assistance: bool,
        witness_protection: bool,
        legal_framework_cited: bool,
    },
    GeneralSupport,
}

/// The aggregate risk classification of one analysis call.
#[derive(Clone, Copy, Debug, PartialEq, Eq, Structural)]
pub enum SafetyLevel {
    Safe,
    Caution,
    AtRisk,
    ImmediateDanger,
}

/// The affirming message attached to a reality anchor.
pub open spec fn reality_anchor_text() -> Seq<char> {
    "This appears to be gaslighting. Your perception is valid."@
}

/// The fixed, total category-to-measure table: whether `m` is the measure
/// the dispatcher owes a detection of category `c`. Categories without a
/// dedicated measure fall back to general support.
pub open spec fn measure_matches(c: DarkPatternType, m: ProtectionMeasure) -> bool {
    match c {
        DarkPatternType::Gaslighting => m matches ProtectionMeasure::RealityAnchor {
            message,
            evidence_provided,
            support_offered,
        } && message@ == reality_anchor_text() && evidence_provided && support_offered,
        DarkPatternType::CognitiveOverload => m matches ProtectionMeasure::ProcessingSupport {
            slowdown_applied,
            information_chunked,
            timeout_provided_secs,
        } && slowdown_applied && information_chunked && timeout_provided_secs
            == PROCESSING_TIMEOUT_SECS,
        DarkPatternType::SocialExclusion => m matches ProtectionMeasure::InclusionSupport {
            alternative_participation_offered,
            accommodation_provided,
            advocacy_activated,
        } && alternative_participation_offered && accommodation_provided && advocacy_activated,
        DarkPatternType::DelayTactic => m matches ProtectionMeasure::TimelineEnforcement {
            legal_timeline_referenced,
            escalation_path_provided,
            documentation_started,
        } && legal_timeline_referenced && escalation_path_provided && documentation_started,
        DarkPatternType::DenialPattern => m matches ProtectionMeasure::EvidenceSupport {
            documentation_assistance,
            witness_protection,
            legal_framework_cited,
        } && documentation_assistance && witness_protection && legal_framework_cited,
        _ => m is GeneralSupport,
    }
}

/// Builds the protection measure the dispatch table prescribes for a
/// detection of category `c`.
pub fn measure_for(c: DarkPatternType) -> (m: ProtectionMeasure)
    ensures
        measure_matches(c, m),
{
    match c {
        DarkPatternType::Gaslighting => ProtectionMeasure::RealityAnchor {
            message: "This appears to be gaslighting. Your perception is valid.".to_owned(),
            evidence_provided: true,
            support_offered: true,
        },
        DarkPatternType::CognitiveOverload => ProtectionMeasure::ProcessingSupport {
            slowdown_applied: true,
            information_chunked: true,
            timeout_provided_secs: PROCESSING_TIMEOUT_SECS,
        },
        DarkPatternType::SocialExclusion => ProtectionMeasure::InclusionSupport {
            alternative_participation_offered: true,
            accommodation_provided: true,
            advocacy_activated: true,
        },
        DarkPatternType::DelayTactic => ProtectionMeasure::TimelineEnforcement {
            legal_timeline_referenced: true,
            escalation_path_provided: true,
            documentation_started: true,
        },
        DarkPatternType::DenialPattern => ProtectionMeasure::EvidenceSupport {
            documentation_assistance: true,
            witness_protection: true,
            legal_framework_cited: true,
        },
        _ => ProtectionMeasure::GeneralSupport,
    }
}

/// Whether every detection in `ds` carries the same category as the first.
pub open spec fn all_same_category(ds: Seq<DarkPatternDetection>) -> bool {
    forall|i: int| 0 <= i < ds.len() ==> (#[trigger] ds[i]).pattern_type == ds[0].pattern_type
}

/// The safety-level policy. No detections: Safe. Any adjusted confidence
/// above `2.5`, or detections of two or more different categories:
/// ImmediateDanger. Otherwise any adjusted confidence above `1.5`: AtRisk.
/// Otherwise: Caution.
pub open spec fn spec_safety_level(ds: Seq<DarkPatternDetection>) -> SafetyLevel {
    if ds.len() == 0 {
        SafetyLevel::Safe
    } else if (exists|i: int|
        0 <= i < ds.len() && (#[trigger] ds[i]).confidence > AT_RISK_MAX_MILLI)
        || !all_same_category(ds) {
        SafetyLevel::ImmediateDanger
    } else if exists|i: int|
        0 <= i < ds.len() && (#[trigger] ds[i]).confidence > CAUTION_MAX_MILLI {
        SafetyLevel::AtRisk
    } else {
        SafetyLevel::Caution
    }
}

/// The safety level is Safe exactly when no detection was confirmed.
pub proof fn lemma_safe_iff_no_detections(ds: Seq<DarkPatternDetection>)
    ensures
        spec_safety_level(ds) is Safe <==> ds.len() == 0,
{
}

} // verus!
