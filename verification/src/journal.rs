//! What passes between the library and the store, as mathematics.
//!
//! What the store answers depends on what the store holds, and the library
//! proves nothing of it. It proves the rest: which statements it sends, in
//! which order, with which values, and what it makes of each answer. For
//! that, the store handle keeps a journal that only proofs see: every
//! statement sent through it, first to last, each with its answer.

use vstd::prelude::*;
use crate::store::{FireRow, NewRun, OmenRow, RunRow};

verus! {

/// A run as the store is asked to keep it.
pub struct RunRecord {
    pub id: Seq<char>,
    pub seed: i64,
    pub ship_class: Seq<char>,
    pub doctrine_id: Seq<char>,
    pub score: i64,
    pub waves: i64,
    pub victory: bool,
    pub ships_destroyed: i64,
    pub damage_dealt: i64,
    pub max_combo: i64,
    pub time_played: rusqlite::types::Value,
    pub max_heat: rusqlite::types::Value,
    pub ghost_tape: Option<Seq<u8>>,
    pub player_name: Seq<char>,
    pub week_key: Seq<char>,
}

/// A signal fire as the store is asked to keep it.
pub struct FireRecord {
    pub code: Seq<char>,
    pub creator_run: Seq<char>,
    pub aid_type: Seq<char>,
    pub aid_amount: i64,
    pub heat_cost: i64,
    pub expires_at: Seq<char>,
}

/// A tide omen as the store is asked to keep it.
pub struct OmenRecord {
    pub week_key: Seq<char>,
    pub omen_id: Seq<char>,
    pub omen_name: Seq<char>,
    pub modifiers: Seq<char>,
}

/// A tide contribution as the store is asked to keep it.
pub struct SampleRecord {
    pub id: Seq<char>,
    pub week_key: Seq<char>,
    pub metric: Seq<char>,
    pub value: rusqlite::types::Value,
}

/// One statement sent to the store, with what the store answered. A write
/// is answered with the number of rows that it changed.
#[allow(inconsistent_fields)]
pub enum Exchange {
    /// Statements without parameters, run as they stand.
    Batch { sql: Seq<char>, answer: Result<(), rusqlite::Error> },
    /// Write: keep this run.
    RunInsert { run: RunRecord, answer: Result<usize, rusqlite::Error> },
    /// Read: how many runs score strictly more than this score?
    RunCount { score: i64, answer: Result<i64, rusqlite::Error> },
    /// Read: the runs of this week, where one is given, and of this seed,
    /// where one is given, by falling score, no more than the limit.
    RunList {
        week_key: Option<Seq<char>>,
        seed: Option<i64>,
        limit: i64,
        answer: Result<Vec<RunRow>, rusqlite::Error>,
    },
    /// Read: the ghost tape of this run. `None` answers that there is no such
    /// run, `Some(None)` that the run has no tape.
    TapeRead { run_id: Seq<char>, answer: Result<Option<Option<Vec<u8>>>, rusqlite::Error> },
    /// Read: the regatta seed kept for this week.
    SeedRead { week_key: Seq<char>, answer: Result<Option<i64>, rusqlite::Error> },
    /// Write: keep this seed for the week unless the week has one.
    SeedOffer { week_key: Seq<char>, seed: i64, answer: Result<usize, rusqlite::Error> },
    /// Write: keep this signal fire, active.
    FireInsert { fire: FireRecord, answer: Result<usize, rusqlite::Error> },
    /// Read: the signal fire of this code.
    FireRead { code: Seq<char>, answer: Result<Option<FireRow>, rusqlite::Error> },
    /// Write: mark the signal fire of this code as redeemed if it is still
    /// active and still carries this expiry.
    FireRedeem {
        code: Seq<char>,
        expires_at: Seq<char>,
        answer: Result<usize, rusqlite::Error>,
    },
    /// Read: the omen kept for this week.
    OmenRead { week_key: Seq<char>, answer: Result<Option<OmenRow>, rusqlite::Error> },
    /// Write: keep this omen for its week unless the week has one.
    OmenOffer { omen: OmenRecord, answer: Result<usize, rusqlite::Error> },
    /// Write: append this sample.
    SampleInsert { sample: SampleRecord, answer: Result<usize, rusqlite::Error> },
}

impl Exchange {
    /// Whether the statement asks the store to change what it holds.
    pub open spec fn is_write(self) -> bool {
        match self {
            Exchange::Batch { .. } => true,
            Exchange::RunInsert { .. } => true,
            Exchange::RunCount { .. } => false,
            Exchange::RunList { .. } => false,
            Exchange::TapeRead { .. } => false,
            Exchange::SeedRead { .. } => false,
            Exchange::SeedOffer { .. } => true,
            Exchange::FireInsert { .. } => true,
            Exchange::FireRead { .. } => false,
            Exchange::FireRedeem { .. } => true,
            Exchange::OmenRead { .. } => false,
            Exchange::OmenOffer { .. } => true,
            Exchange::SampleInsert { .. } => true,
        }
    }
}

impl Exchange {
    /// Whether the store answered the statement with a failure.
    pub open spec fn failed(self) -> bool {
        match self {
            Exchange::Batch { answer, .. } => answer is Err,
            Exchange::RunInsert { answer, .. } => answer is Err,
            Exchange::RunCount { answer, .. } => answer is Err,
            Exchange::RunList { answer, .. } => answer is Err,
            Exchange::TapeRead { answer, .. } => answer is Err,
            Exchange::SeedRead { answer, .. } => answer is Err,
            Exchange::SeedOffer { answer, .. } => answer is Err,
            Exchange::FireInsert { answer, .. } => answer is Err,
            Exchange::FireRead { answer, .. } => answer is Err,
            Exchange::FireRedeem { answer, .. } => answer is Err,
            Exchange::OmenRead { answer, .. } => answer is Err,
            Exchange::OmenOffer { answer, .. } => answer is Err,
            Exchange::SampleInsert { answer, .. } => answer is Err,
        }
    }
}

/// Whether none of some exchanges is a write.
pub open spec fn reads_only(exchanges: Seq<Exchange>) -> bool {
    forall|i: int| 0 <= i < exchanges.len() ==> !(#[trigger] exchanges[i]).is_write()
}

/// The characters of an optional text.
pub open spec fn text_view(text: Option<&str>) -> Option<Seq<char>> {
    match text {
        Some(t) => Some(t@),
        None => None,
    }
}

impl NewRun {
    /// The run as the store is asked to keep it.
    pub open spec fn record(&self) -> RunRecord {
        RunRecord {
            id: self.id@,
            seed: self.seed,
            ship_class: self.ship_class@,
            doctrine_id: self.doctrine_id@,
            score: self.score,
            waves: self.waves,
            victory: self.victory,
            ships_destroyed: self.ships_destroyed,
            damage_dealt: self.damage_dealt,
            max_combo: self.max_combo,
            time_played: self.time_played,
            max_heat: self.max_heat,
            ghost_tape: match self.ghost_tape {
                Some(tape) => Some(tape@),
                None => None,
            },
            player_name: self.player_name@,
            week_key: self.week_key@,
        }
    }
}

} // verus!
