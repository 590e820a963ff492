//! The rule set: one immutable entry per supported pattern category, mapping
//! the category to its trigger phrases, its default response class and an
//! a-priori severity weight.

use vstd::prelude::*;

use crate::policy::MILLI_ONE;

verus! {

/// The taxonomy of manipulative communication patterns.
#[derive(Clone, Copy, Debug, PartialEq, Eq, Structural)]
pub enum DarkPatternType {
    Gaslighting,
    CognitiveOverload,
    SocialExclusion,
    PersonalityMasking,
    WeaponizedIncompetence,
    SensoryTargeting,
    DelayTactic,
    DenialPattern,
    DefenseDeflection,
    DeferralRedirect,
}

/// The response class a rule prescribes for its category.
#[derive(Clone, Copy, Debug, PartialEq, Eq, Structural)]
pub enum ProtectionResponse {
    ImmediateIntervention,
    SlowDown,
    TimelineEnforcement,
    InclusionEnforcement,
    EvidenceSupport,
}

/// One configured protection rule. `vulnerability_multiplier` is a
/// fixed-point severity weight in thousandths, at least `1000` (`1.0`).
#[derive(Clone, Debug, PartialEq)]
pub struct ProtectionRule {
    pub pattern: DarkPatternType,
    pub triggers: Vec<&'static str>,
    pub response: ProtectionResponse,
    pub vulnerability_multiplier: u32,
}

impl ProtectionRule {
    /// A rule is well formed when it has at least one trigger phrase and a
    /// severity weight of at least `1.0`.
    pub open spec fn wf(&self) -> bool {
        &&& self.triggers@.len() > 0
        &&& self.vulnerability_multiplier >= MILLI_ONE
    }
}

/// A rule set is well formed when every rule is well formed and no two rules
/// cover the same category.
pub open spec fn rules_wf(rules: Seq<ProtectionRule>) -> bool {
    &&& forall|i: int| 0 <= i < rules.len() ==> (#[trigger] rules[i]).wf()
    &&& forall|i: int, j: int|
        0 <= i < j < rules.len() ==> rules[i].pattern != rules[j].pattern
}

/// The rule table the engine starts from: gaslighting, cognitive overload,
/// bureaucratic delay and social exclusion, each with its trigger phrases,
/// response class and severity weight.
pub open spec fn is_default_rule_table(rules: Seq<ProtectionRule>) -> bool {
    &&& rules.len() == 4
    &&& rules[0].pattern == DarkPatternType::Gaslighting
    &&& rules[0].response == ProtectionResponse::ImmediateIntervention
    &&& rules[0].vulnerability_multiplier == 2000
    &&& rules[0].triggers@.len() == 4
    &&& rules[0].triggers@[0]@ == "you're being too sensitive"@
    &&& rules[0].triggers@[1]@ == "that didn't happen"@
    &&& rules[0].triggers@[2]@ == "you're overreacting"@
    &&& rules[0].triggers@[3]@ == "calm down"@
    &&& rules[1].pattern == DarkPatternType::CognitiveOverload
    &&& rules[1].response == ProtectionResponse::SlowDown
    &&& rules[1].vulnerability_multiplier == 1500
    &&& rules[1].triggers@.len() == 3
    &&& rules[1].triggers@[0]@ == "rapid_context_switch"@
    &&& rules[1].triggers@[1]@ == "information_flood"@
    &&& rules[1].triggers@[2]@ == "simultaneous_demands"@
    &&& rules[2].pattern == DarkPatternType::DelayTactic
    &&& rules[2].response == ProtectionResponse::TimelineEnforcement
    &&& rules[2].vulnerability_multiplier == 1300
    &&& rules[2].triggers@.len() == 4
    &&& rules[2].triggers@[0]@ == "need more information"@
    &&& rules[2].triggers@[1]@ == "additional review required"@
    &&& rules[2].triggers@[2]@ == "please wait"@
    &&& rules[2].triggers@[3]@ == "processing time"@
    &&& rules[3].pattern == DarkPatternType::SocialExclusion
    &&& rules[3].response == ProtectionResponse::InclusionEnforcement
    &&& rules[3].vulnerability_multiplier == 2500
    &&& rules[3].triggers@.len() == 3
    &&& rules[3].triggers@[0]@ == "neurotypical_only"@
    &&& rules[3].triggers@[1]@ == "social_complexity_barrier"@
    &&& rules[3].triggers@[2]@ == "indirect_exclusion"@
}

} // verus!
