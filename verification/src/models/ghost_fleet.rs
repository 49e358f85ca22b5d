//! Runs, leaderboards and regattas.

use vstd::prelude::*;

verus! {

/// The category asked for where a leaderboard query names none.
pub const DEFAULT_CATEGORY: &'static str = "global";

/// The limit asked for where a leaderboard query names none.
pub const DEFAULT_LIMIT: i64 = 20;

/// One completed game attempt, as a player submits it. The two measures that
/// are not whole numbers, time played and peak heat, pass through the library
/// untouched, in the store's own value type.
#[derive(Debug)]
pub struct RunSubmission {
    pub seed: i64,
    pub ship_class: String,
    pub doctrine_id: String,
    pub score: i64,
    pub waves: i64,
    pub victory: bool,
    pub ships_destroyed: i64,
    pub damage_dealt: i64,
    pub max_combo: i64,
    pub time_played: rusqlite::types::Value,
    pub max_heat: rusqlite::types::Value,
    /// The replay payload, base64 encoded.
    pub ghost_tape: Option<String>,
    pub player_name: String,
}

/// What a submission answers: the run's identifier and its rank at that moment.
#[derive(Debug)]
pub struct RunSubmissionResult {
    pub id: String,
    pub rank: i64,
}

/// One line of a leaderboard.
#[derive(Debug)]
pub struct LeaderboardEntry {
    pub id: String,
    pub player_name: String,
    pub score: i64,
    pub waves: i64,
    pub victory: bool,
    pub ship_class: String,
    pub doctrine_id: String,
    pub ships_destroyed: i64,
    pub time_played: rusqlite::types::Value,
    pub max_heat: rusqlite::types::Value,
    pub created_at: String,
}

/// A leaderboard query as the transport layer receives it.
#[derive(Debug)]
pub struct LeaderboardQuery {
    pub category: Option<String>,
    pub seed: Option<i64>,
    pub limit: Option<i64>,
}

impl LeaderboardQuery {
    /// The category of the query, `global` where it names none.
    pub open spec fn spec_category(&self) -> Seq<char> {
        match self.category {
            Some(c) => c@,
            None => DEFAULT_CATEGORY@,
        }
    }

    /// The limit of the query, 20 where it names none.
    pub open spec fn spec_limit(&self) -> i64 {
        match self.limit {
            Some(l) => l,
            None => DEFAULT_LIMIT,
        }
    }

    /// The category of the query, `global` where it names none.
    pub fn category_or_default(&self) -> (c: &str)
        ensures
            c@ == self.spec_category(),
    {
        match &self.category {
            Some(c) => c.as_str(),
            None => DEFAULT_CATEGORY,
        }
    }

    /// The limit of the query, 20 where it names none.
    pub fn limit_or_default(&self) -> (l: i64)
        ensures
            l == self.spec_limit(),
    {
        match self.limit {
            Some(l) => l,
            None => DEFAULT_LIMIT,
        }
    }
}

/// The regatta of the current week.
#[derive(Debug)]
pub struct RegattaInfo {
    pub week_key: String,
    pub seed: i64,
    pub ends_at: String,
    pub top_runs: Vec<LeaderboardEntry>,
}

} // verus!
