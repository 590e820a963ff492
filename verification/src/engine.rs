//! The analysis orchestrator: fetch-or-create the profile, run the pattern
//! search, weigh each candidate against the profile, dispatch protections
//! for confirmed detections, and classify the overall safety level.

use vstd::prelude::*;

use crate::detection::DarkPatternDetection;
use crate::detection::PatternSearchResult;
use crate::detection::detection_matches;
use crate::detection::detections_correspond;
use crate::detection::lemma_correspond_mitigated;
use crate::detection::lemma_correspond_push_confirmed;
use crate::detection::lemma_correspond_push_discarded;
use crate::detection::lemma_correspond_respects_equiv;
use crate::detection::mitigated_version;
use crate::dispatch::ProtectionMeasure;
use crate::dispatch::SafetyLevel;
use crate::dispatch::all_same_category;
use crate::dispatch::measure_for;
use crate::dispatch::measure_matches;
use crate::dispatch::spec_safety_level;
use crate::policy::AT_RISK_MAX_MILLI;
use crate::policy::BUREAUCRATIC_COMPOUND_MULTIPLIER_MILLI;
use crate::policy::CAUTION_MAX_MILLI;
use crate::policy::CONFIRMATION_THRESHOLD_MILLI;
use crate::policy::EXCLUSION_CAUTION_MULTIPLIER_MILLI;
use crate::policy::FACTOR_CAP_MILLI;
use crate::policy::GASLIGHTING_SPEED_MULTIPLIER_MILLI;
use crate::policy::MILLI_ONE;
use crate::policy::OVERLOAD_FLOOD_MULTIPLIER_MILLI;
use crate::profile::ProcessingSpeed;
use crate::profile::SensoryTrigger;
use crate::profile::SocialStyle;
use crate::profile::StarterUserProfile;
use crate::profile::copy_profile;
use crate::profile::is_default_profile;
use crate::profile::lemma_get_or_create_idempotent;
use crate::profile::lemma_lookup_none_means_absent;
use crate::profile::lookup_profile;
use crate::profile::profile_equiv;
use crate::profile::spec_lookup;
use crate::profile::starter_profile;
use crate::profile::store_wf;
use crate::rules::DarkPatternType;
use crate::rules::ProtectionResponse;
use crate::rules::ProtectionRule;
use crate::rules::is_default_rule_table;
use crate::rules::rules_wf;
use crate::scoring::has_sensory_trigger;
use crate::scoring::vulnerability_factor_milli;

verus! {

/// Why an analysis call was aborted: the pattern search could not be
/// reached (retryable), or the rule set it was given is malformed (not
/// retryable).
#[derive(Clone, Copy, Debug, PartialEq, Eq, Structural)]
pub enum SearchError {
    SearchUnavailable,
    ConfigurationError,
}

/// The situational framing of one communication, threaded through unchanged
/// for measures that need it.
#[derive(Clone, Debug, PartialEq)]
pub struct CommunicationContext {
    pub platform: String,
    pub participants: Vec<String>,
    pub is_public: bool,
    pub has_authority_figures: bool,
}

/// The outcome of one analysis call: the confirmed detections, one
/// protection measure per detection (positionally paired), and the overall
/// safety level.
#[derive(Debug)]
pub struct ProtectionResult {
    pub user_id: String,
    pub patterns_detected: Vec<DarkPatternDetection>,
    pub protections_applied: Vec<ProtectionMeasure>,
    pub user_safety_level: SafetyLevel,
}

/// The external pattern-search capability. This stand-in reports no
/// candidate matches; a real search engine is an external collaborator that
/// hands the orchestrator its candidates through `analyze_with_results`.
pub struct NexusSearchCore {}

impl NexusSearchCore {
    pub fn new() -> (core: Self)
        ensures
            core == (NexusSearchCore {  }),
    {
        NexusSearchCore {  }
    }

    /// Searches `content` for the trigger phrases of `rules`. The stand-in
    /// finds nothing and never fails.
    #[allow(unused_variables)]
    pub fn search_patterns(&self, content: &str, rules: &[ProtectionRule]) -> (r: Result<
        Vec<PatternSearchResult>,
        SearchError,
    >)
        ensures
            r matches Ok(v) && v@.len() == 0,
    {
        Ok(Vec::new())
    }
}

/// The protection engine: the search collaborator, the per-user profile
/// store, and the immutable rule set.
pub struct NexusSearchProtectionEngine {
    pub search_engine: NexusSearchCore,
    pub user_profiles: Vec<StarterUserProfile>,
    pub protection_rules: Vec<ProtectionRule>,
}

impl NexusSearchProtectionEngine {
    /// The engine is well formed when its profile store is: one profile per
    /// user id, each well formed.
    pub open spec fn wf(&self) -> bool {
        store_wf(self.user_profiles@)
    }

    /// A fresh engine: no profiles yet, and the default rule table.
    pub fn new() -> (engine: Self)
        ensures
            engine.wf(),
            engine.user_profiles@.len() == 0,
            is_default_rule_table(engine.protection_rules@),
            rules_wf(engine.protection_rules@),
    {
        NexusSearchProtectionEngine {
            search_engine: NexusSearchCore::new(),
            user_profiles: Vec::new(),
            protection_rules: Self::initialize_protection_rules(),
        }
    }

    /// Builds the startup rule table: one rule per supported category, with
    /// its trigger phrases, response class and severity weight.
    pub fn initialize_protection_rules() -> (rules: Vec<ProtectionRule>)
        ensures
            is_default_rule_table(rules@),
            rules_wf(rules@),
    {
        let mut rules: Vec<ProtectionRule> = Vec::new();

        let mut gaslighting_triggers: Vec<&'static str> = Vec::new();
        gaslighting_triggers.push("you're being too sensitive");
        gaslighting_triggers.push("that didn't happen");
        gaslighting_triggers.push("you're overreacting");
        gaslighting_triggers.push("calm down");
        rules.push(ProtectionRule {
            pattern: DarkPatternType::Gaslighting,
            triggers: gaslighting_triggers,
            response: ProtectionResponse::ImmediateIntervention,
            vulnerability_multiplier: 2000,
        });

        let mut overload_triggers: Vec<&'static str> = Vec::new();
        overload_triggers.push("rapid_context_switch");
        overload_triggers.push("information_flood");
        overload_triggers.push("simultaneous_demands");
        rules.push(ProtectionRule {
            pattern: DarkPatternType::CognitiveOverload,
            triggers: overload_triggers,
            response: ProtectionResponse::SlowDown,
            vulnerability_multiplier: 1500,
        });

        let mut delay_triggers: Vec<&'static str> = Vec::new();
        delay_triggers.push("need more information");
        delay_triggers.push("additional review required");
        delay_triggers.push("please wait");
        delay_triggers.push("processing time");
        rules.push(ProtectionRule {
            pattern: DarkPatternType::DelayTactic,
            triggers: delay_triggers,
            response: ProtectionResponse::TimelineEnforcement,
            vulnerability_multiplier: 1300,
        });

        let mut exclusion_triggers: Vec<&'static str> = Vec::new();
        exclusion_triggers.push("neurotypical_only");
        exclusion_triggers.push("social_complexity_barrier");
        exclusion_triggers.push("indirect_exclusion");
        rules.push(ProtectionRule {
            pattern: DarkPatternType::SocialExclusion,
            triggers: exclusion_triggers,
            response: ProtectionResponse::InclusionEnforcement,
            vulnerability_multiplier: 2500,
        });

        rules
    }

    /// Returns the stored profile for `user_id`, creating and storing the
    /// maximally protective default profile first when the id has never been
    /// seen. Never fails: absence is resolved by creation.
    pub fn get_or_create_starter_profile(&mut self, user_id: &str) -> (p: StarterUserProfile)
        requires
            old(self).wf(),
        ensures
            final(self).wf(),
            p.wf(),
            p.user_id@ == user_id@,
            final(self).protection_rules@ == old(self).protection_rules@,
            spec_lookup(final(self).user_profiles@, user_id@) matches Some(q) && profile_equiv(
                p,
                q,
            ),
            match spec_lookup(old(self).user_profiles@, user_id@) {
                Some(q0) => final(self).user_profiles@ == old(self).user_profiles@
                    && profile_equiv(p, q0),
                None => {
                    &&& is_default_profile(p, user_id@)
                    &&& final(self).user_profiles@ == old(self).user_profiles@.push(
                        final(self).user_profiles@.last(),
                    )
                    &&& is_default_profile(final(self).user_profiles@.last(), user_id@)
                },
            },
    {
        match lookup_profile(&self.user_profiles, user_id) {
            Some(i) => {
                proof {
                    assert(self.user_profiles@[i as int].wf());
                }
                copy_profile(&self.user_profiles[i])
            },
            None => {
                let p = starter_profile(user_id);
                let stored = copy_profile(&p);
                let ghost gstored = stored;
                proof {
                    lemma_lookup_none_means_absent(self.user_profiles@, user_id@);
                }
                self.user_profiles.push(stored);
                proof {
                    lemma_get_or_create_idempotent(
                        old(self).user_profiles@,
                        gstored,
                        user_id@,
                    );
                }
                p
            },
        }
    }

    /// Whether the store already holds a profile for `user_id`.
    pub fn has_profile(&self, user_id: &str) -> (b: bool)
        ensures
            b == (spec_lookup(self.user_profiles@, user_id@) is Some),
    {
        match lookup_profile(&self.user_profiles, user_id) {
            Some(_) => true,
            None => false,
        }
    }

    /// The vulnerability scorer: combines the profile's base score with the
    /// category-specific policy and caps the factor at `3.0`. A pure
    /// function of the profile snapshot and the category.
    pub fn calculate_vulnerability_factor(
        &self,
        user_profile: &StarterUserProfile,
        pattern_type: &DarkPatternType,
    ) -> (factor: u32)
        requires
            user_profile.wf(),
        ensures
            factor as int == vulnerability_factor_milli(*user_profile, *pattern_type),
            factor <= FACTOR_CAP_MILLI,
    {
        let base: u32 = user_profile.vulnerability_score;
        let multiplier: u32 = match *pattern_type {
            DarkPatternType::Gaslighting => {
                if user_profile.communication_patterns.processing_speed
                    == ProcessingSpeed::Variable {
                    GASLIGHTING_SPEED_MULTIPLIER_MILLI
                } else {
                    MILLI_ONE
                }
            },
            DarkPatternType::CognitiveOverload => {
                if has_sensory_trigger(
                    &user_profile.communication_patterns.sensory_sensitivity,
                    SensoryTrigger::InformationFlood,
                ) {
                    OVERLOAD_FLOOD_MULTIPLIER_MILLI
                } else {
                    MILLI_ONE
                }
            },
            DarkPatternType::SocialExclusion => {
                if user_profile.communication_patterns.social_interaction_style
                    == SocialStyle::CautionRequired {
                    EXCLUSION_CAUTION_MULTIPLIER_MILLI
                } else {
                    MILLI_ONE
                }
            },
            DarkPatternType::DelayTactic | DarkPatternType::DenialPattern => {
                // The compounded value base x 1.3 is itself the factor for
                // these categories, subject only to the cap below.
                proof {
                    assert(base * BUREAUCRATIC_COMPOUND_MULTIPLIER_MILLI <= 1000 * 1300)
                        by (nonlinear_arith)
                        requires
                            base <= 1000,
                    ;
                }
                let compounded: u32 = base * BUREAUCRATIC_COMPOUND_MULTIPLIER_MILLI / MILLI_ONE;
                let factor: u32 = if compounded > FACTOR_CAP_MILLI {
                    FACTOR_CAP_MILLI
                } else {
                    compounded
                };
                return factor;
            },
            _ => MILLI_ONE,
        };
        proof {
            assert(base * multiplier <= 1000 * 2000) by (nonlinear_arith)
                requires
                    base <= 1000,
                    multiplier <= 2000,
            ;
        }
        let raw: u32 = base * multiplier / MILLI_ONE;
        if raw > FACTOR_CAP_MILLI {
            FACTOR_CAP_MILLI
        } else {
            raw
        }
    }

    /// The detection decider: weighs each candidate's confidence by the
    /// profile's vulnerability factor and keeps exactly those that clear the
    /// acceptance threshold, in order, with mitigation still pending.
    pub fn confirm_detections(
        &self,
        user_profile: &StarterUserProfile,
        results: Vec<PatternSearchResult>,
    ) -> (detections: Vec<DarkPatternDetection>)
        requires
            user_profile.wf(),
            forall|i: int| 0 <= i < results@.len() ==> (#[trigger] results@[i]).wf(),
        ensures
            detections_correspond(*user_profile, results@, detections@, false),
    {
        let mut detections: Vec<DarkPatternDetection> = Vec::new();
        let mut i: usize = 0;
        proof {
            assert(results@.take(0) =~= Seq::<PatternSearchResult>::empty());
        }
        while i < results.len()
            invariant
                i <= results@.len(),
                user_profile.wf(),
                forall|k: int| 0 <= k < results@.len() ==> (#[trigger] results@[k]).wf(),
                detections_correspond(*user_profile, results@.take(i as int), detections@, false),
            decreases results@.len() - i,
        {
            let r = &results[i];
            let factor = self.calculate_vulnerability_factor(user_profile, &r.pattern_type);
            proof {
                assert(r.confidence * factor <= 1000 * 3000) by (nonlinear_arith)
                    requires
                        r.confidence <= 1000,
                        factor <= 3000,
                ;
            }
            let adjusted: u32 = r.confidence * factor / MILLI_ONE;
            let ghost pre = detections@;
            if adjusted > CONFIRMATION_THRESHOLD_MILLI {
                detections.push(
                    DarkPatternDetection {
                        pattern_type: r.pattern_type,
                        confidence: adjusted,
                        target_vulnerability: copy_strings(&r.exploited_vulnerabilities),
                        detected_at: tokio::time::Instant::now(),
                        mitigation_applied: false,
                    },
                );
                proof {
                    assert(detection_matches(
                        *user_profile,
                        results@[i as int],
                        detections@.last(),
                        false,
                    ));
                    lemma_correspond_push_confirmed(
                        *user_profile,
                        results@.take(i as int),
                        pre,
                        results@[i as int],
                        detections@.last(),
                        false,
                    );
                }
            } else {
                proof {
                    lemma_correspond_push_discarded(
                        *user_profile,
                        results@.take(i as int),
                        pre,
                        results@[i as int],
                        false,
                    );
                }
            }
            proof {
                assert(results@.take(i + 1 as int) =~= results@.take(i as int).push(
                    results@[i as int],
                ));
            }
            i = i + 1;
        }
        proof {
            assert(results@.take(results@.len() as int) =~= results@);
        }
        detections
    }

    /// The protection dispatcher: attaches the prescribed measure to each
    /// detection, raising its mitigation flag; the returned measures pair
    /// with the detections positionally.
    #[allow(unused_variables)]
    pub fn apply_protections(
        &self,
        user_profile: &StarterUserProfile,
        detections: &mut Vec<DarkPatternDetection>,
        context: &CommunicationContext,
    ) -> (protections: Vec<ProtectionMeasure>)
        ensures
            final(detections)@.len() == old(detections)@.len(),
            protections@.len() == old(detections)@.len(),
            forall|i: int|
                0 <= i < old(detections)@.len() ==> mitigated_version(
                    #[trigger] old(detections)@[i],
                    final(detections)@[i],
                ),
            forall|i: int|
                0 <= i < old(detections)@.len() ==> measure_matches(
                    (#[trigger] old(detections)@[i]).pattern_type,
                    protections@[i],
                ),
    {
        let mut protections: Vec<ProtectionMeasure> = Vec::new();
        let mut i: usize = 0;
        while i < detections.len()
            invariant
                i <= detections@.len(),
                detections@.len() == old(detections)@.len(),
                protections@.len() == i,
                forall|j: int|
                    0 <= j < i ==> mitigated_version(
                        #[trigger] old(detections)@[j],
                        detections@[j],
                    ),
                forall|j: int|
                    i <= j < detections@.len() ==> detections@[j] == old(detections)@[j],
                forall|j: int|
                    0 <= j < i ==> measure_matches(
                        (#[trigger] old(detections)@[j]).pattern_type,
                        protections@[j],
                    ),
            decreases detections@.len() - i,
        {
            let measure = measure_for(detections[i].pattern_type);
            protections.push(measure);
            detections[i].mitigation_applied = true;
            i = i + 1;
        }
        protections
    }

    /// The safety-level classifier, exactly the documented policy over the
    /// detections' adjusted confidences and categories.
    #[allow(unused_variables)]
    pub fn calculate_safety_level(
        &self,
        user_profile: &StarterUserProfile,
        detections: &Vec<DarkPatternDetection>,
    ) -> (level: SafetyLevel)
        ensures
            level == spec_safety_level(detections@),
    {
        if detections.len() == 0 {
            return SafetyLevel::Safe;
        }
        let first_category = detections[0].pattern_type;
        let mut over_risk = false;
        let mut over_caution = false;
        let mut mixed = false;
        let mut i: usize = 0;
        while i < detections.len()
            invariant
                detections@.len() > 0,
                i <= detections@.len(),
                first_category == detections@[0].pattern_type,
                over_risk == (exists|j: int|
                    0 <= j < i && (#[trigger] detections@[j]).confidence > AT_RISK_MAX_MILLI),
                over_caution == (exists|j: int|
                    0 <= j < i && (#[trigger] detections@[j]).confidence > CAUTION_MAX_MILLI),
                mixed == !(forall|j: int|
                    0 <= j < i ==> (#[trigger] detections@[j]).pattern_type
                        == detections@[0].pattern_type),
            decreases detections@.len() - i,
        {
            if detections[i].confidence > AT_RISK_MAX_MILLI {
                over_risk = true;
            }
            if detections[i].confidence > CAUTION_MAX_MILLI {
                over_caution = true;
            }
            if !(detections[i].pattern_type == first_category) {
                mixed = true;
            }
            i = i + 1;
        }
        if over_risk || mixed {
            SafetyLevel::ImmediateDanger
        } else if over_caution {
            SafetyLevel::AtRisk
        } else {
            SafetyLevel::Caution
        }
    }

    /// The orchestrator's decision core: takes the pattern search's outcome
    /// as an argument, so that any search collaborator (or a scripted
    /// stand-in) can drive it. A search failure aborts the call and is
    /// surfaced as-is, with no partial detections; the profile fetched or
    /// created beforehand stands either way.
    pub fn analyze_with_results(
        &mut self,
        user_id: &str,
        search_outcome: Result<Vec<PatternSearchResult>, SearchError>,
        context: &CommunicationContext,
    ) -> (r: Result<ProtectionResult, SearchError>)
        requires
            old(self).wf(),
            search_outcome matches Ok(results) ==> forall|i: int|
                0 <= i < results@.len() ==> (#[trigger] results@[i]).wf(),
        ensures
            final(self).wf(),
            final(self).protection_rules@ == old(self).protection_rules@,
            spec_lookup(final(self).user_profiles@, user_id@) is Some,
            match spec_lookup(old(self).user_profiles@, user_id@) {
                Some(q0) => final(self).user_profiles@ == old(self).user_profiles@,
                None => final(self).user_profiles@ == old(self).user_profiles@.push(
                    final(self).user_profiles@.last(),
                ) && is_default_profile(final(self).user_profiles@.last(), user_id@),
            },
            search_outcome matches Err(e) ==> r == Err::<ProtectionResult, SearchError>(e),
            search_outcome matches Ok(results) ==> r matches Ok(out) && spec_lookup(
                final(self).user_profiles@,
                user_id@,
            ) matches Some(prof) && {
                &&& out.user_id@ == user_id@
                &&& detections_correspond(prof, results@, out.patterns_detected@, true)
                &&& out.protections_applied@.len() == out.patterns_detected@.len()
                &&& forall|i: int|
                    0 <= i < out.patterns_detected@.len() ==> measure_matches(
                        (#[trigger] out.patterns_detected@[i]).pattern_type,
                        out.protections_applied@[i],
                    )
                &&& out.user_safety_level == spec_safety_level(out.patterns_detected@)
            },
    {
        let profile = self.get_or_create_starter_profile(user_id);
        match search_outcome {
            Err(e) => Err(e),
            Ok(results) => {
                let ghost gresults = results@;
                let mut detections = self.confirm_detections(&profile, results);
                let ghost pre_dispatch = detections@;
                let protections = self.apply_protections(&profile, &mut detections, context);
                let level = self.calculate_safety_level(&profile, &detections);
                proof {
                    lemma_correspond_mitigated(profile, gresults, pre_dispatch, detections@);
                    let stored = spec_lookup(self.user_profiles@, user_id@)->Some_0;
                    lemma_correspond_respects_equiv(profile, stored, gresults, detections@, true);
                    assert forall|i: int| 0 <= i < detections@.len() implies measure_matches(
                        (#[trigger] detections@[i]).pattern_type,
                        protections@[i],
                    ) by {
                        assert(mitigated_version(pre_dispatch[i], detections@[i]));
                    }
                }
                Ok(
                    ProtectionResult {
                        user_id: user_id.to_owned(),
                        patterns_detected: detections,
                        protections_applied: protections,
                        user_safety_level: level,
                    },
                )
            },
        }
    }

    /// The caller-facing entry point: fetch or create the profile, run the
    /// pattern search over the rule set, and hand its outcome to the
    /// decision core. With the stand-in search engine the search always
    /// succeeds with no candidates, so the result is a clean bill.
    pub fn analyze_communication(
        &mut self,
        user_id: &str,
        message_content: &str,
        context: CommunicationContext,
    ) -> (r: Result<ProtectionResult, SearchError>)
        requires
            old(self).wf(),
        ensures
            final(self).wf(),
            final(self).protection_rules@ == old(self).protection_rules@,
            spec_lookup(final(self).user_profiles@, user_id@) is Some,
            match spec_lookup(old(self).user_profiles@, user_id@) {
                Some(q0) => final(self).user_profiles@ == old(self).user_profiles@,
                None => final(self).user_profiles@ == old(self).user_profiles@.push(
                    final(self).user_profiles@.last(),
                ) && is_default_profile(final(self).user_profiles@.last(), user_id@),
            },
            r matches Ok(out) && {
                &&& out.user_id@ == user_id@
                &&& out.patterns_detected@.len() == 0
                &&& out.protections_applied@.len() == 0
                &&& out.user_safety_level == SafetyLevel::Safe
            },
    {
        let search_outcome = self.search_engine.search_patterns(
            message_content,
            self.protection_rules.as_slice(),
        );
        let ghost goutcome = search_outcome;
        let r = self.analyze_with_results(user_id, search_outcome, &context);
        proof {
            let results = goutcome->Ok_0;
            let out = r->Ok_0;
            let prof = spec_lookup(self.user_profiles@, user_id@)->Some_0;
            assert(detections_correspond(prof, results@, out.patterns_detected@, true));
            assert(out.patterns_detected@.len() == 0);
        }
        r
    }
}

/// Copies a list of trait tags element by element.
fn copy_strings(v: &Vec<String>) -> (r: Vec<String>)
    ensures
        r@ == v@,
{
    let mut r: Vec<String> = Vec::new();
    let mut i: usize = 0;
    while i < v.len()
        invariant
            i <= v@.len(),
            r@ == v@.take(i as int),
        decreases v@.len() - i,
    {
        r.push(v[i].clone());
        proof {
            assert(v@.take(i + 1 as int) =~= v@.take(i as int).push(v@[i as int]));
        }
        i = i + 1;
    }
    proof {
        assert(v@.take(v@.len() as int) =~= v@);
    }
    r
}

} // verus!
