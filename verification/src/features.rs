//! Feature construction: turns two teams' statistics and form sequences
//! into the fixed-order numeric vector the classifier was trained on.

use vstd::prelude::*;
use vstd::arithmetic::div_mod::lemma_div_nonincreasing;
use crate::outcome::FormOutcome;
use crate::team::TeamSnapshot;

verus! {

/// Number of entries in a feature vector; the classifier's input width.
pub const FEATURE_COUNT: usize = 16;

/// Default expected-goals average, in milliunits, for teams without data.
pub const DEFAULT_XG_MILLI: u32 = 1000;

/// Default possession share, in milliunits of a percentage point, for
/// teams without data (50%).
pub const DEFAULT_POSSESSION_MILLI: u32 = 50000;

/// Default shots-on-target average, in milliunits, for teams without data.
pub const DEFAULT_SHOTS_ON_TARGET_MILLI: u32 = 4000;

/// Head-to-head ratio placeholder, in milliunits, pending historical data.
pub const HEAD_TO_HEAD_MILLI: i64 = 500;

/// Points awarded for one form entry: a win is worth 3, a draw 1, a loss 0.
pub open spec fn spec_form_outcome_points(o: FormOutcome) -> int {
    match o {
        FormOutcome::Win => 3,
        FormOutcome::Draw => 1,
        FormOutcome::Loss => 0,
    }
}

/// Total points over a form sequence.
pub open spec fn spec_form_points(s: Seq<FormOutcome>) -> int
    decreases s.len(),
{
    if s.len() == 0 {
        0
    } else {
        spec_form_points(s.drop_last()) + spec_form_outcome_points(s.last())
    }
}

/// An expected-goals average with the fallback applied.
pub open spec fn spec_xg_or_default(v: Option<u32>) -> int {
    match v {
        Some(x) => x as int,
        None => DEFAULT_XG_MILLI as int,
    }
}

/// A possession average with the fallback applied.
pub open spec fn spec_possession_or_default(v: Option<u32>) -> int {
    match v {
        Some(x) => x as int,
        None => DEFAULT_POSSESSION_MILLI as int,
    }
}

/// A shots-on-target average with the fallback applied.
pub open spec fn spec_shots_on_target_or_default(v: Option<u32>) -> int {
    match v {
        Some(x) => x as int,
        None => DEFAULT_SHOTS_ON_TARGET_MILLI as int,
    }
}

/// Per-match rate in milliunits: `total` spread over `matches` matches,
/// dividing by 1 instead of 0 when no match has been recorded.
pub open spec fn spec_rate_milli(total: u32, matches: u32) -> int {
    (total as int * 1000) / (if matches == 0 { 1int } else { matches as int })
}

/// The fixed-order, fixed-length vector of match features.
///
/// Entry order is a contract with the inference side, which reads the
/// vector positionally; `feature_names` lists the same order by name.
/// All entries are milliunit fixed-point values.
#[derive(Clone, Debug)]
pub struct FeatureVector {
    pub values: Vec<i64>,
}

impl FeatureVector {
    /// A feature vector is well formed when it has exactly the width the
    /// classifier expects.
    pub open spec fn wf(&self) -> bool {
        self.values@.len() == FEATURE_COUNT
    }
}

/// Total form points of a recent-form sequence: 3 per win, 1 per draw.
///
/// An empty sequence yields 0; that is the defined value, not an error.
pub fn calculate_form_points(form: &Vec<FormOutcome>) -> (points: u32)
    requires
        form@.len() <= 5,
    ensures
        points == spec_form_points(form@),
        points <= 15,
{
    let mut points: u32 = 0;
    let mut i: usize = 0;
    while i < form.len()
        invariant
            i <= form@.len() <= 5,
            points == spec_form_points(form@.take(i as int)),
            points <= 3 * i,
        decreases form@.len() - i,
    {
        let p: u32 = match form[i] {
            FormOutcome::Win => 3,
            FormOutcome::Draw => 1,
            FormOutcome::Loss => 0,
        };
        proof {
            assert(form@.take(i + 1int).drop_last() =~= form@.take(i as int));
            assert(form@.take(i + 1int).last() == form@[i as int]);
        }
        points = points + p;
        i = i + 1;
    }
    proof {
        assert(form@.take(form@.len() as int) =~= form@);
    }
    points
}

/// Per-match rate in milliunits, guarding against a zero match count.
fn rate_milli(total: u32, matches: u32) -> (r: i64)
    ensures
        r == spec_rate_milli(total, matches),
        0 <= r <= total as int * 1000,
{
    let m: u64 = if matches == 0 { 1 } else { matches as u64 };
    let scaled: u64 = (total as u64) * 1000;
    let v: u64 = scaled / m;
    proof {
        lemma_div_nonincreasing(scaled as int, m as int);
    }
    v as i64
}

/// Builds the feature vector for a fixture from the home and away teams'
/// statistics and recent form.
///
/// Pure: the result is determined entirely by the arguments, each entry
/// pinned by the postcondition. Per-match rates divide by
/// `max(matches_played, 1)`, so a team with no recorded matches produces
/// well-defined rates rather than a division failure. The resulting
/// vector always has exactly `FEATURE_COUNT` entries, whichever optional
/// statistics are present.
pub fn calculate_match_features(
    home_team: &TeamSnapshot,
    away_team: &TeamSnapshot,
    home_form: &Vec<FormOutcome>,
    away_form: &Vec<FormOutcome>,
) -> (features: FeatureVector)
    requires
        home_form@.len() <= 5,
        away_form@.len() <= 5,
    ensures
        features.wf(),
        features.values@[0] == spec_xg_or_default(home_team.avg_xg_milli),
        features.values@[1] == spec_xg_or_default(away_team.avg_xg_milli),
        features.values@[2] == spec_xg_or_default(home_team.avg_xg_milli)
            - spec_xg_or_default(away_team.avg_xg_milli),
        features.values@[3] == spec_possession_or_default(home_team.avg_possession_milli),
        features.values@[4] == spec_possession_or_default(away_team.avg_possession_milli),
        features.values@[5] == spec_possession_or_default(home_team.avg_possession_milli)
            - spec_possession_or_default(away_team.avg_possession_milli),
        features.values@[6] == spec_shots_on_target_or_default(home_team.avg_shots_on_target_milli),
        features.values@[7] == spec_shots_on_target_or_default(away_team.avg_shots_on_target_milli),
        features.values@[8] == spec_rate_milli(home_team.goals_for, home_team.matches_played),
        features.values@[9] == spec_rate_milli(away_team.goals_for, away_team.matches_played),
        features.values@[10] == spec_rate_milli(home_team.goals_against, home_team.matches_played),
        features.values@[11] == spec_rate_milli(away_team.goals_against, away_team.matches_played),
        features.values@[12] == 1000 * spec_form_points(home_form@),
        features.values@[13] == 1000 * spec_form_points(away_form@),
        features.values@[14] == 1000 * spec_form_points(home_form@)
            - 1000 * spec_form_points(away_form@),
        features.values@[15] == HEAD_TO_HEAD_MILLI,
{
    let mut values: Vec<i64> = Vec::new();

    let home_xg: i64 = match home_team.avg_xg_milli {
        Some(v) => v as i64,
        None => DEFAULT_XG_MILLI as i64,
    };
    let away_xg: i64 = match away_team.avg_xg_milli {
        Some(v) => v as i64,
        None => DEFAULT_XG_MILLI as i64,
    };
    values.push(home_xg);
    values.push(away_xg);
    values.push(home_xg - away_xg);

    let home_possession: i64 = match home_team.avg_possession_milli {
        Some(v) => v as i64,
        None => DEFAULT_POSSESSION_MILLI as i64,
    };
    let away_possession: i64 = match away_team.avg_possession_milli {
        Some(v) => v as i64,
        None => DEFAULT_POSSESSION_MILLI as i64,
    };
    values.push(home_possession);
    values.push(away_possession);
    values.push(home_possession - away_possession);

    let home_shots_on_target: i64 = match home_team.avg_shots_on_target_milli {
        Some(v) => v as i64,
        None => DEFAULT_SHOTS_ON_TARGET_MILLI as i64,
    };
    let away_shots_on_target: i64 = match away_team.avg_shots_on_target_milli {
        Some(v) => v as i64,
        None => DEFAULT_SHOTS_ON_TARGET_MILLI as i64,
    };
    values.push(home_shots_on_target);
    values.push(away_shots_on_target);

    values.push(rate_milli(home_team.goals_for, home_team.matches_played));
    values.push(rate_milli(away_team.goals_for, away_team.matches_played));
    values.push(rate_milli(home_team.goals_against, home_team.matches_played));
    values.push(rate_milli(away_team.goals_against, away_team.matches_played));

    let home_form_points: i64 = calculate_form_points(home_form) as i64;
    let away_form_points: i64 = calculate_form_points(away_form) as i64;
    values.push(1000 * home_form_points);
    values.push(1000 * away_form_points);
    values.push(1000 * home_form_points - 1000 * away_form_points);

    values.push(HEAD_TO_HEAD_MILLI);

    FeatureVector { values }
}

/// A feature value scaled down by 100, truncating toward zero.
pub open spec fn spec_scale_down(x: int) -> int {
    if x >= 0 {
        x / 100
    } else {
        -((-x) / 100)
    }
}

/// Scales every feature down by 100, a stand-in normalization until saved
/// scaler parameters from training are available.
pub fn normalize_features(features: &FeatureVector) -> (normalized: FeatureVector)
    requires
        forall|i: int| 0 <= i < features.values@.len() ==> features.values@[i] != i64::MIN,
    ensures
        normalized.values@.len() == features.values@.len(),
        forall|i: int| 0 <= i < features.values@.len()
            ==> normalized.values@[i] == spec_scale_down(features.values@[i] as int),
{
    let mut values: Vec<i64> = Vec::new();
    let mut i: usize = 0;
    while i < features.values.len()
        invariant
            i <= features.values@.len(),
            values@.len() == i,
            forall|j: int| 0 <= j < features.values@.len() ==> features.values@[j] != i64::MIN,
            forall|j: int| 0 <= j < i
                ==> values@[j] == spec_scale_down(features.values@[j] as int),
        decreases features.values@.len() - i,
    {
        let x: i64 = features.values[i];
        let scaled: i64 = if x >= 0 {
            ((x as u64) / 100) as i64
        } else {
            proof {
                lemma_div_nonincreasing(-x, 100);
            }
            -((((-x) as u64) / 100) as i64)
        };
        values.push(scaled);
        i = i + 1;
    }
    FeatureVector { values }
}

/// The ordered names of the features the classifier was trained against,
/// for diagnostics and feature-importance reporting. The order matches
/// `calculate_match_features` entry for entry.
pub fn feature_names() -> (names: Vec<&'static str>)
    ensures
        names@.len() == FEATURE_COUNT,
        names@[0]@ == "home_avg_xg"@,
        names@[1]@ == "away_avg_xg"@,
        names@[2]@ == "xg_differential"@,
        names@[3]@ == "home_possession"@,
        names@[4]@ == "away_possession"@,
        names@[5]@ == "possession_differential"@,
        names@[6]@ == "home_shots_on_target"@,
        names@[7]@ == "away_shots_on_target"@,
        names@[8]@ == "home_goals_for"@,
        names@[9]@ == "away_goals_for"@,
        names@[10]@ == "home_goals_against"@,
        names@[11]@ == "away_goals_against"@,
        names@[12]@ == "home_form_points"@,
        names@[13]@ == "away_form_points"@,
        names@[14]@ == "form_differential"@,
        names@[15]@ == "head_to_head_ratio"@,
{
    let mut names: Vec<&'static str> = Vec::new();
    names.push("home_avg_xg");
    names.push("away_avg_xg");
    names.push("xg_differential");
    names.push("home_possession");
    names.push("away_possession");
    names.push("possession_differential");
    names.push("home_shots_on_target");
    names.push("away_shots_on_target");
    names.push("home_goals_for");
    names.push("away_goals_for");
    names.push("home_goals_against");
    names.push("away_goals_against");
    names.push("home_form_points");
    names.push("away_form_points");
    names.push("form_differential");
    names.push("head_to_head_ratio");
    names
}

/// With no recorded matches (and so no recorded goals), the per-match
/// goal rates are exactly zero rather than a division failure: the rate
/// computation divides by `max(matches_played, 1)`.
pub proof fn lemma_zero_matches_zero_rates(t: TeamSnapshot)
    requires
        t.matches_played == 0,
        t.goals_for == 0,
        t.goals_against == 0,
    ensures
        spec_rate_milli(t.goals_for, t.matches_played) == 0,
        spec_rate_milli(t.goals_against, t.matches_played) == 0,
{
}

} // verus!
