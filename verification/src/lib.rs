//! Detection-and-protection engine for manipulative ("dark") communication
//! patterns, weighted by a per-user vulnerability profile.
//!
//! All confidence values, vulnerability scores and multipliers are carried as
//! fixed-point integers in thousandths (milli-units), so that the scoring and
//! decision arithmetic is exact and verified: `1000` stands for `1.0`.

pub mod clock;
pub mod detection;
pub mod dispatch;
pub mod engine;
pub mod policy;
pub mod profile;
pub mod rules;
pub mod scoring;

pub use detection::DarkPatternDetection;
pub use detection::PatternSearchResult;
pub use dispatch::ProtectionMeasure;
pub use dispatch::SafetyLevel;
pub use engine::CommunicationContext;
pub use engine::NexusSearchCore;
pub use engine::NexusSearchProtectionEngine;
pub use engine::ProtectionResult;
pub use engine::SearchError;
pub use policy::AT_RISK_MAX_MILLI;
pub use policy::BUREAUCRATIC_COMPOUND_MULTIPLIER_MILLI;
pub use policy::CAUTION_MAX_MILLI;
pub use policy::CONFIRMATION_THRESHOLD_MILLI;
pub use policy::EXCLUSION_CAUTION_MULTIPLIER_MILLI;
pub use policy::FACTOR_CAP_MILLI;
pub use policy::GASLIGHTING_SPEED_MULTIPLIER_MILLI;
pub use policy::MILLI_ONE;
pub use policy::OVERLOAD_FLOOD_MULTIPLIER_MILLI;
pub use policy::PROCESSING_TIMEOUT_SECS;
pub use profile::CognitiveStyle;
pub use rules::DarkPatternType;
pub use rules::ProtectionResponse;
pub use rules::ProtectionRule;
pub use profile::CommunicationProfile;
pub use profile::ProcessingSpeed;
pub use profile::ProtectionLevel;
pub use profile::SensoryTrigger;
pub use profile::SocialStyle;
pub use profile::StarterUserProfile;
pub use profile::TriggerSensitivity;
