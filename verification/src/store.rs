//! The persistent store: one SQLite connection, reached through `rusqlite`.
//!
//! Every statement that the library sends stands here, each behind one
//! function that sends it and hands back the answer. What the store answers
//! depends on what it holds, so none of them promises anything of the
//! answer: what the library makes of the answers is proved for every answer.
//! Only the store handle calls these functions, and it writes each call down
//! in its journal.

use vstd::prelude::*;
use rusqlite::OptionalExtension;

verus! {

#[verifier::external_type_specification]
#[verifier::external_body]
pub struct ExStoreError(rusqlite::Error);

#[verifier::external_type_specification]
#[verifier::external_body]
pub struct ExConnection(rusqlite::Connection);

#[verifier::external_type_specification]
#[verifier::external_body]
pub struct ExStoreValue(rusqlite::types::Value);

/// A run as it is written to the store.
#[derive(Debug)]
pub struct NewRun {
    pub id: String,
    pub seed: i64,
    pub ship_class: String,
    pub doctrine_id: String,
    pub score: i64,
    pub waves: i64,
    pub victory: bool,
    pub ships_destroyed: i64,
    pub damage_dealt: i64,
    pub max_combo: i64,
    pub time_played: rusqlite::types::Value,
    pub max_heat: rusqlite::types::Value,
    pub ghost_tape: Option<Vec<u8>>,
    pub player_name: String,
    pub week_key: String,
}

/// A run as the store lists it.
#[derive(Debug)]
pub struct RunRow {
    pub id: String,
    pub player_name: String,
    pub score: i64,
    pub waves: i64,
    pub victory: i64,
    pub ship_class: String,
    pub doctrine_id: String,
    pub ships_destroyed: i64,
    pub time_played: rusqlite::types::Value,
    pub max_heat: rusqlite::types::Value,
    pub created_at: String,
}

/// A signal fire as the store holds it.
#[derive(Debug)]
pub struct FireRow {
    pub aid_type: String,
    pub aid_amount: i64,
    pub heat_cost: rusqlite::types::Value,
    pub redeemed: i64,
    pub expires_at: String,
}

/// A tide omen as the store holds it.
#[derive(Debug)]
pub struct OmenRow {
    pub omen_id: String,
    pub omen_name: String,
    pub modifiers: String,
}

const INSERT_RUN: &'static str = "INSERT INTO runs (id, seed, ship_class, doctrine_id, score, \
    waves, victory, ships_destroyed, damage_dealt, max_combo, time_played, max_heat, \
    ghost_tape, player_name, week_key) \
    VALUES (?1, ?2, ?3, ?4, ?5, ?6, ?7, ?8, ?9, ?10, ?11, ?12, ?13, ?14, ?15)";

const COUNT_RUNS_ABOVE: &'static str = "SELECT COUNT(*) FROM runs WHERE score > ?1";

const SELECT_TOP_RUNS: &'static str = "SELECT id, player_name, score, waves, victory, \
    ship_class, doctrine_id, ships_destroyed, time_played, max_heat, created_at \
    FROM runs WHERE (?1 IS NULL OR week_key = ?1) AND (?2 IS NULL OR seed = ?2) \
    ORDER BY score DESC LIMIT ?3";

const SELECT_GHOST_TAPE: &'static str = "SELECT ghost_tape FROM runs WHERE id = ?1";

const SELECT_REGATTA_SEED: &'static str = "SELECT seed FROM regattas WHERE week_key = ?1";

const INSERT_REGATTA: &'static str =
    "INSERT OR IGNORE INTO regattas (week_key, seed) VALUES (?1, ?2)";

const INSERT_SIGNAL_FIRE: &'static str = "INSERT INTO signal_fires \
    (code, creator_run, aid_type, aid_amount, heat_cost, expires_at) \
    VALUES (?1, ?2, ?3, ?4, CAST(?5 AS REAL), ?6)";

const SELECT_SIGNAL_FIRE: &'static str = "SELECT aid_type, aid_amount, heat_cost, redeemed, \
    expires_at FROM signal_fires WHERE code = ?1";

const REDEEM_SIGNAL_FIRE: &'static str = "UPDATE signal_fires \
    SET redeemed = 1, redeemed_at = datetime('now') \
    WHERE code = ?1 AND redeemed = 0 AND expires_at = ?2";

const SELECT_TIDE_OMEN: &'static str =
    "SELECT omen_id, omen_name, modifiers FROM tide_omens WHERE week_key = ?1";

const INSERT_TIDE_OMEN: &'static str = "INSERT OR IGNORE INTO tide_omens \
    (week_key, omen_id, omen_name, modifiers) VALUES (?1, ?2, ?3, ?4)";

const INSERT_TIDE_CONTRIBUTION: &'static str =
    "INSERT INTO tide_contributions (id, week_key, metric, value) VALUES (?1, ?2, ?3, ?4)";

/// Opens the database file at a path with `rusqlite::Connection::open`.
#[verifier::external_body]
pub(crate) fn open_connection(path: &str) -> Result<rusqlite::Connection, rusqlite::Error> {
    rusqlite::Connection::open(path)
}

/// Opens a database in memory with `rusqlite::Connection::open_in_memory`.
#[verifier::external_body]
pub(crate) fn open_connection_in_memory() -> Result<rusqlite::Connection, rusqlite::Error> {
    rusqlite::Connection::open_in_memory()
}

/// Runs statements without parameters with `rusqlite::Connection::execute_batch`.
#[verifier::external_body]
pub(crate) fn run_batch(conn: &mut rusqlite::Connection, sql: &str) -> Result<
    (),
    rusqlite::Error,
> {
    conn.execute_batch(sql)
}

/// What a failure of the store says of itself, as `rusqlite::Error`
/// displays it.
pub uninterp spec fn store_said(error: rusqlite::Error) -> Seq<char>;

/// Writes what `rusqlite::Error` displays. The text is named, not described.
#[verifier::external_body]
pub(crate) fn store_error_text(error: &rusqlite::Error) -> (text: String)
    ensures
        text@ == store_said(*error),
{
    error.to_string()
}

/// Sends the statement that inserts one run, with
/// `rusqlite::Connection::execute`, and hands back the answer.
#[verifier::external_body]
pub(crate) fn insert_run(conn: &mut rusqlite::Connection, run: &NewRun) -> Result<
    usize,
    rusqlite::Error,
> {
    conn.execute(INSERT_RUN, (
        &run.id, run.seed, &run.ship_class, &run.doctrine_id, run.score, run.waves,
        run.victory, run.ships_destroyed, run.damage_dealt, run.max_combo,
        &run.time_played, &run.max_heat, &run.ghost_tape, &run.player_name, &run.week_key,
    ))
}

/// Sends the statement that counts the runs that score strictly more than a
/// score, with `rusqlite::Connection::query_row`, and hands back the answer.
#[verifier::external_body]
pub(crate) fn count_runs_above(conn: &rusqlite::Connection, score: i64) -> Result<
    i64,
    rusqlite::Error,
> {
    conn.query_row(COUNT_RUNS_ABOVE, (score,), |row| row.get(0))
}

/// Sends the statement that lists runs by falling score, those of one week
/// where a week key is given, those of one seed where a seed is given, and no
/// more than the limit, with `rusqlite::Connection::prepare` and
/// `rusqlite::Statement::query_map`, and hands back the rows that come.
#[verifier::external_body]
pub(crate) fn select_top_runs(
    conn: &rusqlite::Connection,
    week_key: Option<&str>,
    seed: Option<i64>,
    limit: i64,
) -> Result<Vec<RunRow>, rusqlite::Error> {
    let mut stmt = conn.prepare(SELECT_TOP_RUNS)?;
    let rows = stmt.query_map((week_key, seed, limit), |row| {
        Ok(RunRow {
            id: row.get(0)?, player_name: row.get(1)?, score: row.get(2)?,
            waves: row.get(3)?, victory: row.get(4)?, ship_class: row.get(5)?,
            doctrine_id: row.get(6)?, ships_destroyed: row.get(7)?,
            time_played: row.get(8)?, max_heat: row.get(9)?, created_at: row.get(10)?,
        })
    })?;
    rows.collect()
}

/// Sends the statement that reads the ghost tape of a run, with
/// `rusqlite::Connection::query_row`, and hands back the answer: `None` for
/// no row, which `rusqlite::OptionalExtension::optional` makes of it, and
/// `Some(None)` for a row without a tape.
#[verifier::external_body]
pub(crate) fn select_ghost_tape(conn: &rusqlite::Connection, run_id: &str) -> Result<
    Option<Option<Vec<u8>>>,
    rusqlite::Error,
> {
    conn.query_row(SELECT_GHOST_TAPE, (run_id,), |row| row.get(0)).optional()
}

/// Sends the statement that reads the regatta seed of a week, with
/// `rusqlite::Connection::query_row`, and hands back the answer, `None` for
/// no row.
#[verifier::external_body]
pub(crate) fn select_regatta_seed(conn: &rusqlite::Connection, week_key: &str) -> Result<
    Option<i64>,
    rusqlite::Error,
> {
    conn.query_row(SELECT_REGATTA_SEED, (week_key,), |row| row.get(0)).optional()
}

/// Sends the statement that inserts a regatta seed for a week unless the week
/// has one, with `rusqlite::Connection::execute`, and hands back the answer.
#[verifier::external_body]
pub(crate) fn insert_regatta_if_absent(
    conn: &mut rusqlite::Connection,
    week_key: &str,
    seed: i64,
) -> Result<usize, rusqlite::Error> {
    conn.execute(INSERT_REGATTA, (week_key, seed))
}

/// Sends the statement that inserts one signal fire, with
/// `rusqlite::Connection::execute`, and hands back the answer.
#[verifier::external_body]
pub(crate) fn insert_signal_fire(
    conn: &mut rusqlite::Connection,
    code: &str,
    creator_run: &str,
    aid_type: &str,
    aid_amount: i64,
    heat_cost: i64,
    expires_at: &str,
) -> Result<usize, rusqlite::Error> {
    conn.execute(
        INSERT_SIGNAL_FIRE,
        (code, creator_run, aid_type, aid_amount, heat_cost, expires_at),
    )
}

/// Sends the statement that reads the signal fire of a code, with
/// `rusqlite::Connection::query_row`, and hands back the answer, `None` for
/// no row.
#[verifier::external_body]
pub(crate) fn select_signal_fire(conn: &rusqlite::Connection, code: &str) -> Result<
    Option<FireRow>,
    rusqlite::Error,
> {
    conn.query_row(SELECT_SIGNAL_FIRE, (code,), |row| {
        Ok(FireRow {
            aid_type: row.get(0)?,
            aid_amount: row.get(1)?,
            heat_cost: row.get(2)?,
            redeemed: row.get(3)?,
            expires_at: row.get(4)?,
        })
    }).optional()
}

/// Sends the statement that marks the signal fire of a code as redeemed where
/// it is not redeemed yet and still carries the expiry given, with
/// `rusqlite::Connection::execute`, and hands back the answer.
#[verifier::external_body]
pub(crate) fn mark_signal_fire_redeemed(
    conn: &mut rusqlite::Connection,
    code: &str,
    expires_at: &str,
) -> Result<usize, rusqlite::Error> {
    conn.execute(REDEEM_SIGNAL_FIRE, (code, expires_at))
}

/// Sends the statement that reads the tide omen of a week, with
/// `rusqlite::Connection::query_row`, and hands back the answer, `None` for
/// no row.
#[verifier::external_body]
pub(crate) fn select_tide_omen(conn: &rusqlite::Connection, week_key: &str) -> Result<
    Option<OmenRow>,
    rusqlite::Error,
> {
    conn.query_row(SELECT_TIDE_OMEN, (week_key,), |row| {
        Ok(OmenRow { omen_id: row.get(0)?, omen_name: row.get(1)?, modifiers: row.get(2)? })
    }).optional()
}

/// Sends the statement that inserts a tide omen for a week unless the week
/// has one, with `rusqlite::Connection::execute`, and hands back the answer.
#[verifier::external_body]
pub(crate) fn insert_tide_omen_if_absent(
    conn: &mut rusqlite::Connection,
    week_key: &str,
    omen_id: &str,
    omen_name: &str,
    modifiers: &str,
) -> Result<usize, rusqlite::Error> {
    conn.execute(INSERT_TIDE_OMEN, (week_key, omen_id, omen_name, modifiers))
}

/// Sends the statement that inserts one tide contribution, with
/// `rusqlite::Connection::execute`, and hands back the answer.
#[verifier::external_body]
pub(crate) fn insert_tide_contribution(
    conn: &mut rusqlite::Connection,
    id: &str,
    week_key: &str,
    metric: &str,
    value: &rusqlite::types::Value,
) -> Result<usize, rusqlite::Error> {
    conn.execute(INSERT_TIDE_CONTRIBUTION, (id, week_key, metric, value))
}

} // verus!
