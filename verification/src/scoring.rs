//! The vulnerability scorer: combines a user's profile with a pattern
//! category into a fixed-point vulnerability factor, hard-capped at `3.0`.

use vstd::prelude::*;

use crate::policy::BUREAUCRATIC_COMPOUND_MULTIPLIER_MILLI;
use crate::policy::EXCLUSION_CAUTION_MULTIPLIER_MILLI;
use crate::policy::FACTOR_CAP_MILLI;
use crate::policy::GASLIGHTING_SPEED_MULTIPLIER_MILLI;
use crate::policy::MILLI_ONE;
use crate::policy::OVERLOAD_FLOOD_MULTIPLIER_MILLI;
use crate::profile::ProcessingSpeed;
use crate::profile::SensoryTrigger;
use crate::profile::SocialStyle;
use crate::profile::StarterUserProfile;
use crate::profile::profile_equiv;
use crate::rules::DarkPatternType;

verus! {

/// The category-specific multiplier, in thousandths, read off the profile
/// fields that the category's policy names. The bureaucratic categories
/// (delay and denial) differ in form from the flat-multiplier branches:
/// their multiplier is the base score already compounded by the weight
/// (base times `1.3`), and the scorer takes that compounded value as the
/// factor directly. Every category without an explicit policy falls back to
/// `1.0`.
pub open spec fn category_multiplier_milli(p: StarterUserProfile, c: DarkPatternType) -> int {
    match c {
        DarkPatternType::Gaslighting => if p.communication_patterns.processing_speed
            == ProcessingSpeed::Variable {
            GASLIGHTING_SPEED_MULTIPLIER_MILLI as int
        } else {
            MILLI_ONE as int
        },
        DarkPatternType::CognitiveOverload => if p.communication_patterns.sensory_sensitivity@
            .contains(SensoryTrigger::InformationFlood) {
            OVERLOAD_FLOOD_MULTIPLIER_MILLI as int
        } else {
            MILLI_ONE as int
        },
        DarkPatternType::SocialExclusion => if p.communication_patterns.social_interaction_style
            == SocialStyle::CautionRequired {
            EXCLUSION_CAUTION_MULTIPLIER_MILLI as int
        } else {
            MILLI_ONE as int
        },
        DarkPatternType::DelayTactic | DarkPatternType::DenialPattern => (
        p.vulnerability_score as int) * (BUREAUCRATIC_COMPOUND_MULTIPLIER_MILLI as int) / (
        MILLI_ONE as int),
        _ => MILLI_ONE as int,
    }
}

/// The vulnerability factor, in thousandths, hard-capped at `3.0`: the base
/// score times the category multiplier — except for the bureaucratic
/// categories, whose multiplier is already the compounded value and stands
/// as the factor on its own.
pub open spec fn vulnerability_factor_milli(p: StarterUserProfile, c: DarkPatternType) -> int {
    let m = category_multiplier_milli(p, c);
    let raw = match c {
        DarkPatternType::DelayTactic | DarkPatternType::DenialPattern => m,
        _ => (p.vulnerability_score as int) * m / (MILLI_ONE as int),
    };
    if raw > FACTOR_CAP_MILLI as int {
        FACTOR_CAP_MILLI as int
    } else {
        raw
    }
}

/// The vulnerability factor of a well-formed profile lies in `[0, 3.0]`,
/// for every pattern category.
pub proof fn lemma_factor_in_range(p: StarterUserProfile, c: DarkPatternType)
    requires
        p.wf(),
    ensures
        0 <= vulnerability_factor_milli(p, c) <= FACTOR_CAP_MILLI as int,
{
    let base = p.vulnerability_score as int;
    let m = category_multiplier_milli(p, c);
    assert(base * (BUREAUCRATIC_COMPOUND_MULTIPLIER_MILLI as int) >= 0) by (nonlinear_arith)
        requires
            base >= 0,
    ;
    assert(base * (BUREAUCRATIC_COMPOUND_MULTIPLIER_MILLI as int) <= 1000 * 1300)
        by (nonlinear_arith)
        requires
            0 <= base <= 1000,
    ;
    assert(base * m >= 0) by (nonlinear_arith)
        requires
            base >= 0,
            m >= 0,
    ;
}

/// The scorer reads only observable profile fields, so equivalent profiles
/// score alike in every category.
pub proof fn lemma_factor_respects_equiv(
    a: StarterUserProfile,
    b: StarterUserProfile,
    c: DarkPatternType,
)
    requires
        profile_equiv(a, b),
    ensures
        vulnerability_factor_milli(a, c) == vulnerability_factor_milli(b, c),
{
}

/// Whether a sensory-trigger list mentions `t`.
pub fn has_sensory_trigger(v: &Vec<SensoryTrigger>, t: SensoryTrigger) -> (b: bool)
    ensures
        b == v@.contains(t),
{
    let mut i: usize = 0;
    while i < v.len()
        invariant
            i <= v@.len(),
            forall|j: int| 0 <= j < i ==> v@[j] != t,
        decreases v@.len() - i,
    {
        if v[i] == t {
            return true;
        }
        i = i + 1;
    }
    false
}

} // verus!
