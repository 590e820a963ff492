use nexus_protection::CommunicationContext;
use nexus_protection::DarkPatternType;
use nexus_protection::NexusSearchCore;
use nexus_protection::NexusSearchProtectionEngine;
use nexus_protection::PatternSearchResult;
use nexus_protection::ProtectionMeasure;
use nexus_protection::SafetyLevel;
use nexus_protection::SearchError;

fn context() -> CommunicationContext {
    CommunicationContext {
        platform: String::from("chat"),
        participants: vec![String::from("u1"), String::from("responder")],
        is_public: false,
        has_authority_figures: true,
    }
}

fn candidate(category: DarkPatternType, confidence: u32) -> PatternSearchResult {
    PatternSearchResult {
        pattern_type: category,
        confidence,
        exploited_vulnerabilities: vec![String::from("processing_speed")],
    }
}

#[test]
fn confidence_above_threshold_confirms_a_detection() {
    let mut engine = NexusSearchProtectionEngine::new();
    // An unlisted category leaves the default profile's factor at 1.0.
    let outcome = Ok(vec![candidate(DarkPatternType::PersonalityMasking, 800)]);
    let result = engine
        .analyze_with_results("u1", outcome, &context())
        .unwrap();
    assert_eq!(result.patterns_detected.len(), 1);
    assert_eq!(result.patterns_detected[0].confidence, 800);
    assert_eq!(
        result.patterns_detected[0].pattern_type,
        DarkPatternType::PersonalityMasking
    );
}

#[test]
fn confidence_at_or_below_threshold_is_discarded() {
    let mut engine = NexusSearchProtectionEngine::new();
    let outcome = Ok(vec![
        candidate(DarkPatternType::PersonalityMasking, 500),
        candidate(DarkPatternType::PersonalityMasking, 700),
    ]);
    let result = engine
        .analyze_with_results("u1", outcome, &context())
        .unwrap();
    assert_eq!(result.patterns_detected.len(), 0);
    assert_eq!(result.user_safety_level, SafetyLevel::Safe);
}

#[test]
fn gaslighting_scenario_for_a_new_user() {
    // New user, message matching only the Gaslighting triggers with raw
    // confidence 0.9: the default profile's variable processing speed gives
    // factor 1.5, adjusted confidence 1.35, one confirmed detection with a
    // reality anchor, and (1.35 <= 1.5) an overall classification of Caution.
    let mut engine = NexusSearchProtectionEngine::new();
    let outcome = Ok(vec![candidate(DarkPatternType::Gaslighting, 900)]);
    let result = engine
        .analyze_with_results("u1", outcome, &context())
        .unwrap();
    assert_eq!(result.user_id, "u1");
    assert_eq!(result.patterns_detected.len(), 1);
    assert_eq!(result.patterns_detected[0].confidence, 1350);
    assert!(result.patterns_detected[0].mitigation_applied);
    assert_eq!(result.protections_applied.len(), 1);
    match &result.protections_applied[0] {
        ProtectionMeasure::RealityAnchor {
            message,
            evidence_provided,
            support_offered,
        } => {
            assert_eq!(
                message,
                "This appears to be gaslighting. Your perception is valid."
            );
            assert!(*evidence_provided);
            assert!(*support_offered);
        }
        other => panic!("expected a reality anchor, got {:?}", other),
    }
    assert_eq!(result.user_safety_level, SafetyLevel::Caution);
    assert!(engine.has_profile("u1"));
}

#[test]
fn search_failure_aborts_but_keeps_the_profile() {
    let mut engine = NexusSearchProtectionEngine::new();
    let result = engine.analyze_with_results("u1", Err(SearchError::SearchUnavailable), &context());
    assert_eq!(result.unwrap_err(), SearchError::SearchUnavailable);
    assert!(engine.has_profile("u1"));
    assert_eq!(engine.user_profiles.len(), 1);
}

#[test]
fn configuration_error_propagates_unchanged() {
    let mut engine = NexusSearchProtectionEngine::new();
    let result = engine.analyze_with_results("u1", Err(SearchError::ConfigurationError), &context());
    assert_eq!(result.unwrap_err(), SearchError::ConfigurationError);
}

#[test]
fn analyze_communication_with_stub_search_is_safe() {
    let mut engine = NexusSearchProtectionEngine::new();
    let result = engine
        .analyze_communication(
            "starter_user_123",
            "You're being too sensitive about this housing issue.",
            context(),
        )
        .unwrap();
    assert_eq!(result.user_id, "starter_user_123");
    assert!(result.patterns_detected.is_empty());
    assert!(result.protections_applied.is_empty());
    assert_eq!(result.user_safety_level, SafetyLevel::Safe);
    assert!(engine.has_profile("starter_user_123"));
}

#[test]
fn stub_search_returns_no_candidates() {
    let core = NexusSearchCore::new();
    let engine = NexusSearchProtectionEngine::new();
    let found = core
        .search_patterns("that didn't happen", engine.protection_rules.as_slice())
        .unwrap();
    assert!(found.is_empty());
}

#[test]
fn default_rule_table_is_complete() {
    let rules = NexusSearchProtectionEngine::initialize_protection_rules();
    assert_eq!(rules.len(), 4);
    assert_eq!(rules[0].pattern, DarkPatternType::Gaslighting);
    assert_eq!(rules[0].vulnerability_multiplier, 2000);
    assert_eq!(
        rules[0].triggers,
        vec![
            "you're being too sensitive",
            "that didn't happen",
            "you're overreacting",
            "calm down"
        ]
    );
    assert_eq!(rules[1].pattern, DarkPatternType::CognitiveOverload);
    assert_eq!(rules[1].vulnerability_multiplier, 1500);
    assert_eq!(rules[2].pattern, DarkPatternType::DelayTactic);
    assert_eq!(rules[2].vulnerability_multiplier, 1300);
    assert_eq!(rules[3].pattern, DarkPatternType::SocialExclusion);
    assert_eq!(rules[3].vulnerability_multiplier, 2500);
}
