//! The detection decider: raw candidate matches from the pattern search are
//! weighted by the user's vulnerability factor and confirmed when the
//! adjusted confidence clears the acceptance threshold.

use vstd::prelude::*;

use crate::policy::CONFIRMATION_THRESHOLD_MILLI;
use crate::policy::FACTOR_CAP_MILLI;
use crate::policy::MILLI_ONE;
use crate::profile::StarterUserProfile;
use crate::profile::profile_equiv;
use crate::rules::DarkPatternType;
use crate::scoring::lemma_factor_respects_equiv;
use crate::scoring::vulnerability_factor_milli;

verus! {

/// One raw candidate match reported by the pattern search: its category, its
/// base confidence in thousandths (at most `1000`, that is `1.0`), and the
/// vulnerability traits it appears to exploit.
#[derive(Clone, Debug, PartialEq)]
pub struct PatternSearchResult {
    pub pattern_type: DarkPatternType,
    pub confidence: u32,
    pub exploited_vulnerabilities: Vec<String>,
}

impl PatternSearchResult {
    /// A candidate is well formed when its base confidence lies in `[0, 1]`.
    pub open spec fn wf(&self) -> bool {
        self.confidence <= MILLI_ONE
    }
}

/// One confirmed detection. `confidence` is the adjusted confidence in
/// thousandths; `mitigation_applied` turns true once a protection measure
/// has been dispatched for it.
#[derive(Debug)]
pub struct DarkPatternDetection {
    pub pattern_type: DarkPatternType,
    pub confidence: u32,
    pub target_vulnerability: Vec<String>,
    pub detected_at: tokio::time::Instant,
    pub mitigation_applied: bool,
}

/// The adjusted confidence of a candidate against a profile, in thousandths:
/// raw confidence times the vulnerability factor.
pub open spec fn adjusted_confidence_milli(p: StarterUserProfile, r: PatternSearchResult) -> int {
    (r.confidence as int) * vulnerability_factor_milli(p, r.pattern_type) / (MILLI_ONE as int)
}

/// Whether a candidate clears the acceptance threshold for this profile.
pub open spec fn confirmed(p: StarterUserProfile, r: PatternSearchResult) -> bool {
    adjusted_confidence_milli(p, r) > CONFIRMATION_THRESHOLD_MILLI as int
}

/// Whether detection `d` is exactly what the decider derives from candidate
/// `r` under profile `p`, with mitigation flag `mitigated`.
pub open spec fn detection_matches(
    p: StarterUserProfile,
    r: PatternSearchResult,
    d: DarkPatternDetection,
    mitigated: bool,
) -> bool {
    &&& d.pattern_type == r.pattern_type
    &&& d.confidence as int == adjusted_confidence_milli(p, r)
    &&& d.target_vulnerability@ == r.exploited_vulnerabilities@
    &&& d.mitigation_applied == mitigated
}

/// Whether `ds` is exactly the sequence of detections the decider derives
/// from the candidates `rs` under profile `p`: one detection per confirmed
/// candidate, in order, each carrying mitigation flag `mitigated`.
pub open spec fn detections_correspond(
    p: StarterUserProfile,
    rs: Seq<PatternSearchResult>,
    ds: Seq<DarkPatternDetection>,
    mitigated: bool,
) -> bool
    decreases rs.len(),
{
    if rs.len() == 0 {
        ds.len() == 0
    } else if confirmed(p, rs[0]) {
        &&& ds.len() > 0
        &&& detection_matches(p, rs[0], ds[0], mitigated)
        &&& detections_correspond(p, rs.skip(1), ds.skip(1), mitigated)
    } else {
        detections_correspond(p, rs.skip(1), ds, mitigated)
    }
}

/// Appending a confirmed candidate and its detection preserves the decider
/// correspondence.
pub proof fn lemma_correspond_push_confirmed(
    p: StarterUserProfile,
    rs: Seq<PatternSearchResult>,
    ds: Seq<DarkPatternDetection>,
    r: PatternSearchResult,
    d: DarkPatternDetection,
    mitigated: bool,
)
    requires
        detections_correspond(p, rs, ds, mitigated),
        confirmed(p, r),
        detection_matches(p, r, d, mitigated),
    ensures
        detections_correspond(p, rs.push(r), ds.push(d), mitigated),
    decreases rs.len(),
{
    if rs.len() == 0 {
        assert(rs.push(r)[0] == r);
        assert(ds.push(d)[0] == d);
        assert(rs.push(r).skip(1) =~= Seq::<PatternSearchResult>::empty());
        assert(ds.push(d).skip(1) =~= Seq::<DarkPatternDetection>::empty());
        assert(detections_correspond(p, rs.push(r).skip(1), ds.push(d).skip(1), mitigated));
        assert(detections_correspond(p, rs.push(r), ds.push(d), mitigated));
    } else {
        assert(rs.push(r)[0] == rs[0]);
        assert(rs.push(r).skip(1) =~= rs.skip(1).push(r));
        if confirmed(p, rs[0]) {
            assert(ds.push(d)[0] == ds[0]);
            assert(ds.push(d).skip(1) =~= ds.skip(1).push(d));
            lemma_correspond_push_confirmed(p, rs.skip(1), ds.skip(1), r, d, mitigated);
        } else {
            lemma_correspond_push_confirmed(p, rs.skip(1), ds, r, d, mitigated);
        }
    }
}

/// Appending a candidate below the threshold leaves the detections as they
/// are.
pub proof fn lemma_correspond_push_discarded(
    p: StarterUserProfile,
    rs: Seq<PatternSearchResult>,
    ds: Seq<DarkPatternDetection>,
    r: PatternSearchResult,
    mitigated: bool,
)
    requires
        detections_correspond(p, rs, ds, mitigated),
        !confirmed(p, r),
    ensures
        detections_correspond(p, rs.push(r), ds, mitigated),
    decreases rs.len(),
{
    if rs.len() == 0 {
        assert(rs.push(r)[0] == r);
        assert(rs.push(r).skip(1) =~= Seq::<PatternSearchResult>::empty());
        assert(detections_correspond(p, rs.push(r).skip(1), ds, mitigated));
        assert(detections_correspond(p, rs.push(r), ds, mitigated));
    } else {
        assert(rs.push(r)[0] == rs[0]);
        assert(rs.push(r).skip(1) =~= rs.skip(1).push(r));
        if confirmed(p, rs[0]) {
            lemma_correspond_push_discarded(p, rs.skip(1), ds.skip(1), r, mitigated);
        } else {
            lemma_correspond_push_discarded(p, rs.skip(1), ds, r, mitigated);
        }
        assert(detections_correspond(p, rs.push(r), ds, mitigated));
    }
}

/// Whether `d1` is `d0` with its mitigation flag raised and everything else
/// untouched.
pub open spec fn mitigated_version(d0: DarkPatternDetection, d1: DarkPatternDetection) -> bool {
    &&& d1.pattern_type == d0.pattern_type
    &&& d1.confidence == d0.confidence
    &&& d1.target_vulnerability@ == d0.target_vulnerability@
    &&& d1.detected_at == d0.detected_at
    &&& d1.mitigation_applied == true
}

/// Raising every mitigation flag turns a correspondence with unmitigated
/// detections into one with mitigated detections.
pub proof fn lemma_correspond_mitigated(
    p: StarterUserProfile,
    rs: Seq<PatternSearchResult>,
    ds: Seq<DarkPatternDetection>,
    ds2: Seq<DarkPatternDetection>,
)
    requires
        detections_correspond(p, rs, ds, false),
        ds2.len() == ds.len(),
        forall|i: int| 0 <= i < ds.len() ==> mitigated_version(#[trigger] ds[i], ds2[i]),
    ensures
        detections_correspond(p, rs, ds2, true),
    decreases rs.len(),
{
    if rs.len() == 0 {
    } else if confirmed(p, rs[0]) {
        assert(mitigated_version(ds[0], ds2[0]));
        assert forall|i: int| 0 <= i < ds.skip(1).len() implies mitigated_version(
            #[trigger] ds.skip(1)[i],
            ds2.skip(1)[i],
        ) by {
            assert(ds.skip(1)[i] == ds[i + 1]);
            assert(ds2.skip(1)[i] == ds2[i + 1]);
            assert(mitigated_version(ds[i + 1], ds2[i + 1]));
        }
        lemma_correspond_mitigated(p, rs.skip(1), ds.skip(1), ds2.skip(1));
    } else {
        lemma_correspond_mitigated(p, rs.skip(1), ds, ds2);
    }
}

/// The decider observes profiles only through their observable fields, so
/// equivalent profiles confirm the same detections.
pub proof fn lemma_correspond_respects_equiv(
    a: StarterUserProfile,
    b: StarterUserProfile,
    rs: Seq<PatternSearchResult>,
    ds: Seq<DarkPatternDetection>,
    mitigated: bool,
)
    requires
        profile_equiv(a, b),
        detections_correspond(a, rs, ds, mitigated),
    ensures
        detections_correspond(b, rs, ds, mitigated),
    decreases rs.len(),
{
    if rs.len() > 0 {
        lemma_factor_respects_equiv(a, b, rs[0].pattern_type);
        if confirmed(a, rs[0]) {
            lemma_correspond_respects_equiv(a, b, rs.skip(1), ds.skip(1), mitigated);
        } else {
            lemma_correspond_respects_equiv(a, b, rs.skip(1), ds, mitigated);
        }
    }
}

/// The adjusted confidence of a well-formed candidate against a well-formed
/// profile lies in `[0, 3.0]`.
pub proof fn lemma_adjusted_confidence_in_range(p: StarterUserProfile, r: PatternSearchResult)
    requires
        p.wf(),
        r.wf(),
    ensures
        0 <= adjusted_confidence_milli(p, r) <= FACTOR_CAP_MILLI as int,
{
    let f = vulnerability_factor_milli(p, r.pattern_type);
    crate::scoring::lemma_factor_in_range(p, r.pattern_type);
    assert((r.confidence as int) * f >= 0) by (nonlinear_arith)
        requires
            r.confidence >= 0,
            f >= 0,
    ;
    assert((r.confidence as int) * f <= (MILLI_ONE as int) * (FACTOR_CAP_MILLI as int))
        by (nonlinear_arith)
        requires
            0 <= r.confidence <= MILLI_ONE as int,
            0 <= f <= FACTOR_CAP_MILLI as int,
    ;
}

} // verus!
