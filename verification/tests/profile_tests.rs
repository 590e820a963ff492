use nexus_protection::CognitiveStyle;
use nexus_protection::NexusSearchProtectionEngine;
use nexus_protection::ProcessingSpeed;
use nexus_protection::ProtectionLevel;
use nexus_protection::SensoryTrigger;
use nexus_protection::SocialStyle;
use nexus_protection::TriggerSensitivity;

#[test]
fn fresh_user_gets_documented_default_profile() {
    let mut engine = NexusSearchProtectionEngine::new();
    let p = engine.get_or_create_starter_profile("newcomer");
    assert_eq!(p.user_id, "newcomer");
    assert_eq!(p.vulnerability_score, 1000);
    assert_eq!(p.protection_level, ProtectionLevel::Maximum);
    assert_eq!(
        p.communication_patterns.processing_speed,
        ProcessingSpeed::Variable
    );
    assert_eq!(
        p.communication_patterns.sensory_sensitivity,
        vec![
            SensoryTrigger::InformationFlood,
            SensoryTrigger::RapidContextSwitch
        ]
    );
    assert_eq!(
        p.communication_patterns.social_interaction_style,
        SocialStyle::CautionRequired
    );
    assert_eq!(
        p.communication_patterns.information_processing,
        CognitiveStyle::AccommodationNeeded
    );
    assert_eq!(p.trigger_sensitivity, TriggerSensitivity::High);
}

#[test]
fn second_fetch_returns_identical_profile() {
    let mut engine = NexusSearchProtectionEngine::new();
    let first = engine.get_or_create_starter_profile("returning");
    let second = engine.get_or_create_starter_profile("returning");
    assert_eq!(first, second);
    assert_eq!(engine.user_profiles.len(), 1);
}

#[test]
fn distinct_users_get_distinct_entries() {
    let mut engine = NexusSearchProtectionEngine::new();
    engine.get_or_create_starter_profile("a");
    engine.get_or_create_starter_profile("b");
    engine.get_or_create_starter_profile("a");
    assert_eq!(engine.user_profiles.len(), 2);
    assert!(engine.has_profile("a"));
    assert!(engine.has_profile("b"));
    assert!(!engine.has_profile("c"));
}
