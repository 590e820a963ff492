//! Per-user vulnerability profiles and the lookup model of the profile store.
//!
//! A user never seen before receives the maximally protective default
//! profile; profiles are keyed by user id and the store never holds two
//! profiles for the same id.

use vstd::prelude::*;

use crate::policy::MILLI_ONE;

verus! {

/// How strongly the engine shields a user.
#[derive(Clone, Copy, Debug, PartialEq, Eq, Structural)]
pub enum ProtectionLevel {
    Maximum,
    High,
    Standard,
    Minimal,
}

/// How quickly a user processes incoming information.
#[derive(Clone, Copy, Debug, PartialEq, Eq, Structural)]
pub enum ProcessingSpeed {
    Slow,
    Variable,
    Standard,
}

/// Sensory conditions that a manipulative message may exploit.
#[derive(Clone, Copy, Debug, PartialEq, Eq, Structural)]
pub enum SensoryTrigger {
    VisualOverload,
    AudioSensitivity,
    InformationFlood,
    RapidContextSwitch,
}

/// How a user prefers to handle social interaction.
#[derive(Clone, Copy, Debug, PartialEq, Eq, Structural)]
pub enum SocialStyle {
    CautionRequired,
    Standard,
    Independent,
}

/// How a user takes in and organises information.
#[derive(Clone, Copy, Debug, PartialEq, Eq, Structural)]
pub enum CognitiveStyle {
    AccommodationNeeded,
    StandardProcessing,
    HighCapacity,
}

/// How readily a user is set off by trigger phrases.
#[derive(Clone, Copy, Debug, PartialEq, Eq, Structural)]
pub enum TriggerSensitivity {
    High,
    Medium,
    Low,
}

/// The communication-related traits of one user.
#[derive(Clone, Debug, PartialEq)]
pub struct CommunicationProfile {
    pub processing_speed: ProcessingSpeed,
    pub sensory_sensitivity: Vec<SensoryTrigger>,
    pub social_interaction_style: SocialStyle,
    pub information_processing: CognitiveStyle,
}

/// One user's vulnerability profile. `vulnerability_score` is a fixed-point
/// value in thousandths; `1000` (that is, `1.0`) is maximal protection.
#[derive(Clone, Debug, PartialEq)]
pub struct StarterUserProfile {
    pub user_id: String,
    pub vulnerability_score: u32,
    pub protection_level: ProtectionLevel,
    pub communication_patterns: CommunicationProfile,
    pub trigger_sensitivity: TriggerSensitivity,
}

impl StarterUserProfile {
    /// A profile is well formed when its vulnerability score lies in `[0, 1]`.
    pub open spec fn wf(&self) -> bool {
        self.vulnerability_score <= MILLI_ONE
    }
}

/// Two profiles agree on everything the engine can observe: same user id,
/// same score, and the same traits (sensory sensitivities compared as
/// sequences).
pub open spec fn profile_equiv(a: StarterUserProfile, b: StarterUserProfile) -> bool {
    &&& a.user_id@ == b.user_id@
    &&& a.vulnerability_score == b.vulnerability_score
    &&& a.protection_level == b.protection_level
    &&& a.communication_patterns.processing_speed == b.communication_patterns.processing_speed
    &&& a.communication_patterns.sensory_sensitivity@ == b.communication_patterns.sensory_sensitivity@
    &&& a.communication_patterns.social_interaction_style
        == b.communication_patterns.social_interaction_style
    &&& a.communication_patterns.information_processing
        == b.communication_patterns.information_processing
    &&& a.trigger_sensitivity == b.trigger_sensitivity
}

/// The documented default profile for a user never seen before: maximal
/// protection until evidence suggests otherwise.
pub open spec fn is_default_profile(p: StarterUserProfile, uid: Seq<char>) -> bool {
    &&& p.user_id@ == uid
    &&& p.vulnerability_score == MILLI_ONE
    &&& p.protection_level == ProtectionLevel::Maximum
    &&& p.communication_patterns.processing_speed == ProcessingSpeed::Variable
    &&& p.communication_patterns.sensory_sensitivity@ == seq![
        SensoryTrigger::InformationFlood,
        SensoryTrigger::RapidContextSwitch,
    ]
    &&& p.communication_patterns.social_interaction_style == SocialStyle::CautionRequired
    &&& p.communication_patterns.information_processing == CognitiveStyle::AccommodationNeeded
    &&& p.trigger_sensitivity == TriggerSensitivity::High
}

/// The profile stored for `uid`, if any: the first entry whose user id is
/// `uid`.
pub open spec fn spec_lookup(profiles: Seq<StarterUserProfile>, uid: Seq<char>) -> Option<
    StarterUserProfile,
>
    decreases profiles.len(),
{
    if profiles.len() == 0 {
        None
    } else if profiles[0].user_id@ == uid {
        Some(profiles[0])
    } else {
        spec_lookup(profiles.skip(1), uid)
    }
}

/// The profile store is well formed: no two profiles share a user id, and
/// every profile is well formed.
pub open spec fn store_wf(profiles: Seq<StarterUserProfile>) -> bool {
    &&& forall|i: int, j: int|
        0 <= i < j < profiles.len() ==> profiles[i].user_id@ != profiles[j].user_id@
    &&& forall|i: int| 0 <= i < profiles.len() ==> #[trigger] profiles[i].wf()
}

/// A lookup that finds nothing means that no stored profile carries that id.
pub proof fn lemma_lookup_none_means_absent(profiles: Seq<StarterUserProfile>, uid: Seq<char>)
    requires
        spec_lookup(profiles, uid) is None,
    ensures
        forall|i: int| 0 <= i < profiles.len() ==> #[trigger] profiles[i].user_id@ != uid,
    decreases profiles.len(),
{
    if profiles.len() > 0 {
        lemma_lookup_none_means_absent(profiles.skip(1), uid);
        assert forall|i: int| 0 <= i < profiles.len() implies #[trigger] profiles[i].user_id@
            != uid by {
            if i > 0 {
                assert(profiles.skip(1)[i - 1] == profiles[i]);
            }
        }
    }
}

/// Fetching is idempotent: once a profile for a fresh user id has been
/// appended to a store that did not know the id, every later lookup for that
/// id returns exactly that profile.
pub proof fn lemma_get_or_create_idempotent(
    profiles: Seq<StarterUserProfile>,
    p: StarterUserProfile,
    uid: Seq<char>,
)
    requires
        spec_lookup(profiles, uid) is None,
        p.user_id@ == uid,
    ensures
        spec_lookup(profiles.push(p), uid) == Some(p),
    decreases profiles.len(),
{
    if profiles.len() == 0 {
        assert(profiles.push(p)[0] == p);
    } else {
        lemma_get_or_create_idempotent(profiles.skip(1), p, uid);
        assert(profiles.push(p)[0] == profiles[0]);
        assert(profiles.push(p).skip(1) =~= profiles.skip(1).push(p));
    }
}

/// Builds the documented default profile for a user never seen before.
pub fn starter_profile(user_id: &str) -> (p: StarterUserProfile)
    ensures
        is_default_profile(p, user_id@),
        p.wf(),
{
    let mut sensory: Vec<SensoryTrigger> = Vec::new();
    sensory.push(SensoryTrigger::InformationFlood);
    sensory.push(SensoryTrigger::RapidContextSwitch);
    proof {
        assert(sensory@ =~= seq![
            SensoryTrigger::InformationFlood,
            SensoryTrigger::RapidContextSwitch,
        ]);
    }
    StarterUserProfile {
        user_id: user_id.to_owned(),
        vulnerability_score: MILLI_ONE,
        protection_level: ProtectionLevel::Maximum,
        communication_patterns: CommunicationProfile {
            processing_speed: ProcessingSpeed::Variable,
            sensory_sensitivity: sensory,
            social_interaction_style: SocialStyle::CautionRequired,
            information_processing: CognitiveStyle::AccommodationNeeded,
        },
        trigger_sensitivity: TriggerSensitivity::High,
    }
}

/// Copies a sequence of sensory triggers element by element.
fn copy_triggers(v: &Vec<SensoryTrigger>) -> (r: Vec<SensoryTrigger>)
    ensures
        r@ == v@,
{
    let mut r: Vec<SensoryTrigger> = Vec::new();
    let mut i: usize = 0;
    while i < v.len()
        invariant
            i <= v.len(),
            r@ == v@.take(i as int),
        decreases v.len() - i,
    {
        r.push(v[i]);
        proof {
            assert(v@.take(i + 1 as int) =~= v@.take(i as int).push(v@[i as int]));
        }
        i = i + 1;
    }
    proof {
        assert(v@.take(v@.len() as int) =~= v@);
    }
    r
}

/// Makes an observably identical copy of a profile.
pub fn copy_profile(p: &StarterUserProfile) -> (r: StarterUserProfile)
    ensures
        profile_equiv(r, *p),
{
    StarterUserProfile {
        user_id: p.user_id.clone(),
        vulnerability_score: p.vulnerability_score,
        protection_level: p.protection_level,
        communication_patterns: CommunicationProfile {
            processing_speed: p.communication_patterns.processing_speed,
            sensory_sensitivity: copy_triggers(&p.communication_patterns.sensory_sensitivity),
            social_interaction_style: p.communication_patterns.social_interaction_style,
            information_processing: p.communication_patterns.information_processing,
        },
        trigger_sensitivity: p.trigger_sensitivity,
    }
}

/// Finds the index of the stored profile for `user_id`, if any.
pub fn lookup_profile(profiles: &Vec<StarterUserProfile>, user_id: &str) -> (r: Option<usize>)
    ensures
        match r {
            Some(i) => i < profiles@.len() && profiles@[i as int].user_id@ == user_id@
                && spec_lookup(profiles@, user_id@) == Some(profiles@[i as int]),
            None => spec_lookup(profiles@, user_id@) is None,
        },
{
    let uid: String = user_id.to_owned();
    let mut i: usize = 0;
    proof {
        assert(profiles@.skip(0) =~= profiles@);
    }
    while i < profiles.len()
        invariant
            i <= profiles@.len(),
            uid@ == user_id@,
            spec_lookup(profiles@, user_id@) == spec_lookup(profiles@.skip(i as int), user_id@),
        decreases profiles@.len() - i,
    {
        proof {
            assert(profiles@.skip(i as int)[0] == profiles@[i as int]);
            assert(profiles@.skip(i as int).skip(1) =~= profiles@.skip(i + 1 as int));
        }
        if profiles[i].user_id == uid {
            return Some(i);
        }
        i = i + 1;
    }
    proof {
        assert(profiles@.skip(profiles@.len() as int).len() == 0);
    }
    None
}

} // verus!
