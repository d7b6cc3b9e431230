//! Team-side input data for one prediction: aggregate season statistics and
//! the recent-form sequence.

use vstd::prelude::*;
use crate::outcome::FormOutcome;

verus! {

/// Aggregate statistics for one team, frozen at prediction time.
///
/// Fractional averages are carried as fixed-point milliunits: an expected
/// goals average of 1.7 is stored as `Some(1700)`, a possession share of
/// 58% as `Some(58000)`. Absent averages fall back to fixed domain
/// defaults during feature construction; absence is not an error.
#[derive(Clone, Copy, Debug)]
pub struct TeamSnapshot {
    pub matches_played: u32,
    pub wins: u32,
    pub draws: u32,
    pub losses: u32,
    pub goals_for: u32,
    pub goals_against: u32,
    pub points: u32,
    pub avg_xg_milli: Option<u32>,
    pub avg_xg_against_milli: Option<u32>,
    pub avg_possession_milli: Option<u32>,
    pub avg_shots_milli: Option<u32>,
    pub avg_shots_on_target_milli: Option<u32>,
}

/// A team's won/drawn/lost record over some set of matches.
#[derive(Clone, Copy, Debug, PartialEq, Eq, Structural)]
pub struct Record {
    pub played: u32,
    pub won: u32,
    pub drawn: u32,
    pub lost: u32,
}

/// Request payload for registering a new team.
#[derive(Clone, Debug)]
pub struct CreateTeamRequest {
    pub name: String,
    pub short_name: Option<String>,
    pub logo_url: Option<String>,
}

/// Derived statistics reported for one team: recent form, split records,
/// and recent per-match averages in milliunits.
#[derive(Clone, Debug)]
pub struct TeamStats {
    pub team_id: u128,
    pub team_name: String,
    pub form: Vec<FormOutcome>,
    pub home_record: Record,
    pub away_record: Record,
    pub recent_xg_avg_milli: u32,
    pub recent_goals_avg_milli: u32,
}

} // verus!
