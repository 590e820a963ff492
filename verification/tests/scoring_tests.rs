use nexus_protection::CognitiveStyle;
use nexus_protection::CommunicationProfile;
use nexus_protection::DarkPatternType;
use nexus_protection::NexusSearchProtectionEngine;
use nexus_protection::ProcessingSpeed;
use nexus_protection::ProtectionLevel;
use nexus_protection::SensoryTrigger;
use nexus_protection::SocialStyle;
use nexus_protection::StarterUserProfile;
use nexus_protection::TriggerSensitivity;

fn profile_with(
    score: u32,
    speed: ProcessingSpeed,
    sensory: Vec<SensoryTrigger>,
    social: SocialStyle,
) -> StarterUserProfile {
    StarterUserProfile {
        user_id: String::from("subject"),
        vulnerability_score: score,
        protection_level: ProtectionLevel::Standard,
        communication_patterns: CommunicationProfile {
            processing_speed: speed,
            sensory_sensitivity: sensory,
            social_interaction_style: social,
            information_processing: CognitiveStyle::StandardProcessing,
        },
        trigger_sensitivity: TriggerSensitivity::Medium,
    }
}

#[test]
fn gaslighting_variable_speed_scores_one_and_a_half() {
    let engine = NexusSearchProtectionEngine::new();
    let p = profile_with(1000, ProcessingSpeed::Variable, vec![], SocialStyle::Standard);
    let factor = engine.calculate_vulnerability_factor(&p, &DarkPatternType::Gaslighting);
    assert_eq!(factor, 1500);
}

#[test]
fn gaslighting_standard_speed_scores_one() {
    let engine = NexusSearchProtectionEngine::new();
    let p = profile_with(1000, ProcessingSpeed::Standard, vec![], SocialStyle::Standard);
    let factor = engine.calculate_vulnerability_factor(&p, &DarkPatternType::Gaslighting);
    assert_eq!(factor, 1000);
}

#[test]
fn cognitive_overload_doubles_for_information_flood() {
    let engine = NexusSearchProtectionEngine::new();
    let p = profile_with(
        1000,
        ProcessingSpeed::Standard,
        vec![SensoryTrigger::InformationFlood],
        SocialStyle::Standard,
    );
    let factor = engine.calculate_vulnerability_factor(&p, &DarkPatternType::CognitiveOverload);
    assert_eq!(factor, 2000);
    let q = profile_with(
        1000,
        ProcessingSpeed::Standard,
        vec![SensoryTrigger::VisualOverload],
        SocialStyle::Standard,
    );
    let factor_q = engine.calculate_vulnerability_factor(&q, &DarkPatternType::CognitiveOverload);
    assert_eq!(factor_q, 1000);
}

#[test]
fn social_exclusion_weighs_caution_required() {
    let engine = NexusSearchProtectionEngine::new();
    let p = profile_with(
        1000,
        ProcessingSpeed::Standard,
        vec![],
        SocialStyle::CautionRequired,
    );
    let factor = engine.calculate_vulnerability_factor(&p, &DarkPatternType::SocialExclusion);
    assert_eq!(factor, 1800);
}

#[test]
fn bureaucratic_patterns_compound_the_base_score() {
    let engine = NexusSearchProtectionEngine::new();
    let p = profile_with(1000, ProcessingSpeed::Standard, vec![], SocialStyle::Standard);
    assert_eq!(
        engine.calculate_vulnerability_factor(&p, &DarkPatternType::DelayTactic),
        1300
    );
    assert_eq!(
        engine.calculate_vulnerability_factor(&p, &DarkPatternType::DenialPattern),
        1300
    );
    let half = profile_with(500, ProcessingSpeed::Standard, vec![], SocialStyle::Standard);
    assert_eq!(
        engine.calculate_vulnerability_factor(&half, &DarkPatternType::DelayTactic),
        650
    );
}

#[test]
fn unlisted_categories_score_the_base_alone() {
    let engine = NexusSearchProtectionEngine::new();
    let p = profile_with(1000, ProcessingSpeed::Variable, vec![], SocialStyle::Standard);
    assert_eq!(
        engine.calculate_vulnerability_factor(&p, &DarkPatternType::PersonalityMasking),
        1000
    );
    assert_eq!(
        engine.calculate_vulnerability_factor(&p, &DarkPatternType::DeferralRedirect),
        1000
    );
}

#[test]
fn factor_never_exceeds_the_cap() {
    let engine = NexusSearchProtectionEngine::new();
    let categories = [
        DarkPatternType::Gaslighting,
        DarkPatternType::CognitiveOverload,
        DarkPatternType::SocialExclusion,
        DarkPatternType::PersonalityMasking,
        DarkPatternType::WeaponizedIncompetence,
        DarkPatternType::SensoryTargeting,
        DarkPatternType::DelayTactic,
        DarkPatternType::DenialPattern,
        DarkPatternType::DefenseDeflection,
        DarkPatternType::DeferralRedirect,
    ];
    let p = profile_with(
        1000,
        ProcessingSpeed::Variable,
        vec![
            SensoryTrigger::InformationFlood,
            SensoryTrigger::RapidContextSwitch,
        ],
        SocialStyle::CautionRequired,
    );
    for c in categories.iter() {
        let factor = engine.calculate_vulnerability_factor(&p, c);
        assert!(factor <= 3000);
    }
}
