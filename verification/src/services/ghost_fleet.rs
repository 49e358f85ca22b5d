//! The run ledger: submissions, ranks, leaderboards, ghost tapes and the
//! weekly regatta.

use vstd::prelude::*;
use base64::Engine;
use crate::clock::{
    in_calendar, next_week_start, next_week_start_at, now, utc_text, utc_text_at, week_index,
    week_key_at, week_key_of, week_start, Instant,
};
use crate::db::Db;
use crate::error::AppError;
use crate::ids::new_id;
use crate::journal::{reads_only, text_view, Exchange, RunRecord};
use crate::models::ghost_fleet::{
    LeaderboardEntry, RegattaInfo, RunSubmission, RunSubmissionResult,
};
use crate::ranking::rank_from_count;
use crate::selector::{derive_regatta_seed, regatta_seed};
use crate::store::{NewRun, RunRow};
use crate::text::str_equals;
use crate::validation::{
    normalized_player_name, ship_class_known, validate_ghost_tape, validate_player_name,
    validate_score, validate_ship_class, MAX_GHOST_TAPE_SIZE,
};

verus! {

#[verifier::external_type_specification]
#[verifier::external_body]
pub struct ExDecodeError(base64::DecodeError);

/// The bytes that the `base64` crate decodes out of a text in the standard
/// alphabet with padding; `None` where it refuses the text.
pub uninterp spec fn base64_decoded(text: Seq<char>) -> Option<Seq<u8>>;

/// The bytes of a decoding that succeeded.
pub open spec fn decoded_bytes(r: Result<Vec<u8>, base64::DecodeError>) -> Option<Seq<u8>> {
    match r {
        Ok(bytes) => Some(bytes@),
        Err(_) => None,
    }
}

/// Decodes with `base64::engine::general_purpose::STANDARD` and
/// `Engine::decode`. The bytes are named, not described.
#[verifier::external_body]
fn decode_base64(text: &str) -> (r: Result<Vec<u8>, base64::DecodeError>)
    ensures
        decoded_bytes(r) == base64_decoded(text@),
{
    base64::engine::general_purpose::STANDARD.decode(text)
}

/// Holds a decoded ghost tape to the size limit; a tape that did not decode
/// is refused.
pub fn checked_ghost_tape(decoded: Result<Vec<u8>, base64::DecodeError>) -> (r: Result<
    Vec<u8>,
    AppError,
>)
    ensures
        match decoded {
            Ok(bytes) => if bytes@.len() <= MAX_GHOST_TAPE_SIZE {
                r == Ok::<Vec<u8>, AppError>(bytes)
            } else {
                r is Err && r->Err_0.is_bad_request("Ghost tape too large"@)
            },
            Err(_) => r is Err && r->Err_0.is_bad_request("Invalid ghost tape encoding"@),
        },
{
    match decoded {
        Ok(bytes) => {
            let tape = Some(bytes);
            match validate_ghost_tape(&tape) {
                Ok(()) => Ok(tape.unwrap()),
                Err(e) => Err(e),
            }
        },
        Err(_) => Err(AppError::bad_request("Invalid ghost tape encoding")),
    }
}

/// What is wrong with an encoded ghost tape, if anything.
pub open spec fn ghost_tape_fault(encoded: Option<String>) -> Option<Seq<char>> {
    match encoded {
        None => None,
        Some(text) => match base64_decoded(text@) {
            None => Some("Invalid ghost tape encoding"@),
            Some(bytes) => if bytes.len() > MAX_GHOST_TAPE_SIZE {
                Some("Ghost tape too large"@)
            } else {
                None
            },
        },
    }
}

/// The bytes of an encoded ghost tape.
pub open spec fn ghost_tape_bytes(encoded: Option<String>) -> Option<Seq<u8>> {
    match encoded {
        None => None,
        Some(text) => base64_decoded(text@),
    }
}

/// The bytes of an optional tape.
pub open spec fn tape_view(tape: Option<Vec<u8>>) -> Option<Seq<u8>> {
    match tape {
        Some(bytes) => Some(bytes@),
        None => None,
    }
}

/// Decodes the ghost tape of a submission, where there is one, and holds it
/// to the size limit.
pub fn decode_ghost_tape(encoded: &Option<String>) -> (r: Result<Option<Vec<u8>>, AppError>)
    ensures
        match ghost_tape_fault(*encoded) {
            Some(msg) => r is Err && r->Err_0.is_bad_request(msg),
            None => r is Ok && tape_view(r->Ok_0) == ghost_tape_bytes(*encoded),
        },
{
    match encoded {
        None => Ok(None),
        Some(text) => {
            match checked_ghost_tape(decode_base64(text.as_str())) {
                Ok(bytes) => Ok(Some(bytes)),
                Err(e) => Err(e),
            }
        },
    }
}

/// The message of the first rule that a submission breaks, if it breaks one:
/// the ship class, then the score, then the ghost tape.
pub open spec fn submission_fault(req: RunSubmission) -> Option<Seq<char>> {
    if !ship_class_known(req.ship_class@) {
        Some("Invalid ship class: "@ + req.ship_class@)
    } else if req.score < 0 {
        Some("Score cannot be negative"@)
    } else {
        ghost_tape_fault(req.ghost_tape)
    }
}

/// What validation makes of a submission that breaks no rule.
#[derive(Debug)]
pub struct CheckedRun {
    /// The name under which the run is listed.
    pub player_name: String,
    /// The decoded ghost tape.
    pub ghost_tape: Option<Vec<u8>>,
}

/// Holds a submission to every rule, before the store is touched.
pub fn check_submission(req: &RunSubmission) -> (r: Result<CheckedRun, AppError>)
    ensures
        match submission_fault(*req) {
            Some(msg) => r is Err && r->Err_0.is_bad_request(msg),
            None => r is Ok && r->Ok_0.player_name@ == normalized_player_name(req.player_name@)
                && tape_view(r->Ok_0.ghost_tape) == ghost_tape_bytes(req.ghost_tape),
        },
{
    match validate_ship_class(req.ship_class.as_str()) {
        Ok(()) => {},
        Err(e) => {
            return Err(e);
        },
    }
    match validate_score(req.score) {
        Ok(()) => {},
        Err(e) => {
            return Err(e);
        },
    }
    let player_name = validate_player_name(req.player_name.as_str());
    match decode_ghost_tape(&req.ghost_tape) {
        Ok(ghost_tape) => Ok(CheckedRun { player_name, ghost_tape }),
        Err(e) => Err(e),
    }
}

/// The run that the store is asked to keep for a submission, given the name
/// and the tape that validation made of it.
pub open spec fn run_record(
    req: RunSubmission,
    player_name: Seq<char>,
    ghost_tape: Option<Seq<u8>>,
    id: Seq<char>,
    week_key: Seq<char>,
) -> RunRecord {
    RunRecord {
        id,
        seed: req.seed,
        ship_class: req.ship_class@,
        doctrine_id: req.doctrine_id@,
        score: req.score,
        waves: req.waves,
        victory: req.victory,
        ships_destroyed: req.ships_destroyed,
        damage_dealt: req.damage_dealt,
        max_combo: req.max_combo,
        time_played: req.time_played,
        max_heat: req.max_heat,
        ghost_tape,
        player_name,
        week_key,
    }
}

/// The run that the store is asked to keep for a submission that breaks no
/// rule: the submission as it came, with the name normalized, the ghost tape
/// decoded, and the identifier and week key given to it.
pub open spec fn submitted_run(req: RunSubmission, id: Seq<char>, week_key: Seq<char>) -> RunRecord {
    run_record(
        req,
        normalized_player_name(req.player_name@),
        ghost_tape_bytes(req.ghost_tape),
        id,
        week_key,
    )
}

/// Puts a checked submission into the form in which the store keeps it.
pub fn new_run(req: RunSubmission, checked: CheckedRun, id: String, week_key: String) -> (run:
    NewRun)
    ensures
        run.id == id,
        run.score == req.score,
        run.record() == run_record(
            req,
            checked.player_name@,
            tape_view(checked.ghost_tape),
            id@,
            week_key@,
        ),
{
    NewRun {
        id,
        seed: req.seed,
        ship_class: req.ship_class,
        doctrine_id: req.doctrine_id,
        score: req.score,
        waves: req.waves,
        victory: req.victory,
        ships_destroyed: req.ships_destroyed,
        damage_dealt: req.damage_dealt,
        max_combo: req.max_combo,
        time_played: req.time_played,
        max_heat: req.max_heat,
        ghost_tape: checked.ghost_tape,
        player_name: checked.player_name,
        week_key,
    }
}

/// What a submission answers once the store has counted the runs that score
/// strictly more: the identifier and a rank one more than the count, the
/// store's failure, or an internal error for a count that no store can hold.
pub open spec fn ranked(
    id: Seq<char>,
    counted: Result<i64, rusqlite::Error>,
    r: Result<RunSubmissionResult, AppError>,
) -> bool {
    match counted {
        Err(e) => r == Err::<RunSubmissionResult, AppError>(AppError::Db(e)),
        Ok(count) => if 0 <= count < i64::MAX {
            r matches Ok(res) && res.id@ == id && res.rank == count + 1
        } else {
            r is Err && r->Err_0.is_internal("Store counted runs out of range"@)
        },
    }
}

/// What passes between library and store when a run is persisted, and what
/// comes of it. The store is asked to keep the run. Where it fails, that is
/// the answer. Where it does not, it is asked how many runs score strictly
/// more, and the run is ranked by its count.
pub open spec fn run_persisted(
    run: RunRecord,
    exchanges: Seq<Exchange>,
    r: Result<RunSubmissionResult, AppError>,
) -> bool {
    &&& exchanges.len() >= 1
    &&& exchanges[0] matches Exchange::RunInsert { run: sent, answer: inserted }
    &&& sent == run
    &&& match inserted {
        Err(e) => exchanges.len() == 1 && r == Err::<RunSubmissionResult, AppError>(
            AppError::Db(e),
        ),
        Ok(_) => {
            &&& exchanges.len() == 2
            &&& exchanges[1] matches Exchange::RunCount { score, answer: counted }
            &&& score == run.score
            &&& ranked(run.id, counted, r)
        },
    }
}

/// Writes a run to the store and ranks it among the runs that the store
/// then holds. The rank is a snapshot: it is not stored, and later runs do
/// not change it.
pub fn persist_run(db: &mut Db, run: NewRun) -> (r: Result<RunSubmissionResult, AppError>)
    ensures
        final(db).extends(*old(db)),
        run_persisted(run.record(), final(db).since(*old(db)), r),
        r matches Ok(res) ==> res.id == run.id && res.rank >= 1,
{
    let inserted = db.insert_run(&run);
    let ghost first = Exchange::RunInsert { run: run.record(), answer: inserted };
    proof {
        assert(db.journal().take(old(db).journal().len() as int) =~= old(db).journal());
        assert(db.since(*old(db)) =~= seq![first]);
    }
    match inserted {
        Ok(_) => {},
        Err(e) => {
            return Err(AppError::Db(e));
        },
    }
    let counted = db.count_runs_above(run.score);
    let ghost second = Exchange::RunCount { score: run.score, answer: counted };
    proof {
        assert(db.journal().take(old(db).journal().len() as int) =~= old(db).journal());
        assert(db.since(*old(db)) =~= seq![first, second]);
    }
    let count = match counted {
        Ok(count) => count,
        Err(e) => {
            return Err(AppError::Db(e));
        },
    };
    match rank_from_count(count) {
        Ok(rank) => Ok(RunSubmissionResult { id: run.id, rank }),
        Err(e) => Err(e),
    }
}

/// What submitting a run under an identifier and a week key comes to. A
/// submission that breaks a rule is refused with the rule's message, and
/// nothing is sent to the store. Any other is persisted as `submitted_run`
/// says.
pub open spec fn run_submitted(
    req: RunSubmission,
    id: Seq<char>,
    week_key: Seq<char>,
    exchanges: Seq<Exchange>,
    r: Result<RunSubmissionResult, AppError>,
) -> bool {
    match submission_fault(req) {
        Some(msg) => exchanges.len() == 0 && r is Err && r->Err_0.is_bad_request(msg),
        None => run_persisted(submitted_run(req, id, week_key), exchanges, r),
    }
}

/// Submits a run under a given identifier and week key.
pub fn submit_run_at(db: &mut Db, req: RunSubmission, id: String, week_key: String) -> (r: Result<
    RunSubmissionResult,
    AppError,
>)
    ensures
        final(db).extends(*old(db)),
        run_submitted(req, id@, week_key@, final(db).since(*old(db)), r),
        submission_fault(req) is Some ==> *final(db) == *old(db),
        r matches Ok(res) ==> res.id == id && res.rank >= 1,
{
    let checked = match check_submission(&req) {
        Ok(checked) => checked,
        Err(e) => {
            proof {
                assert(db.journal().take(db.journal().len() as int) =~= db.journal());
            }
            return Err(e);
        },
    };
    persist_run(db, new_run(req, checked, id, week_key))
}

/// What submitting a run at an instant comes to. A submission that breaks a
/// rule is refused with the rule's message; of any other, an instant outside
/// the calendar is an internal error; in both cases nothing is sent to the
/// store. Otherwise the run is submitted under the identifier, which has 36
/// characters, and the week key of the instant.
pub open spec fn run_submitted_now(
    req: RunSubmission,
    id: Seq<char>,
    secs: int,
    exchanges: Seq<Exchange>,
    r: Result<RunSubmissionResult, AppError>,
) -> bool {
    match submission_fault(req) {
        Some(msg) => exchanges.len() == 0 && r is Err && r->Err_0.is_bad_request(msg),
        None => if in_calendar(secs) && week_key_of(secs) is Some {
            id.len() == 36 && run_persisted(
                submitted_run(req, id, week_key_of(secs)->Some_0),
                exchanges,
                r,
            )
        } else {
            exchanges.len() == 0 && r is Err && r->Err_0.is_internal("Clock out of range"@)
        },
    }
}

/// Submits a run: validates it, gives it a fresh identifier and the current
/// week key, hands it to the store and ranks it.
pub fn submit_run(db: &mut Db, req: RunSubmission) -> (r: Result<RunSubmissionResult, AppError>)
    ensures
        final(db).extends(*old(db)),
        exists|id: Seq<char>, secs: int| #[trigger]
            run_submitted_now(req, id, secs, final(db).since(*old(db)), r),
        submission_fault(req) is Some ==> *final(db) == *old(db),
        r matches Ok(res) ==> res.rank >= 1,
{
    let checked = match check_submission(&req) {
        Ok(checked) => checked,
        Err(e) => {
            proof {
                assert(db.journal().take(db.journal().len() as int) =~= db.journal());
                assert(run_submitted_now(req, Seq::empty(), 0, db.since(*old(db)), Err(e)));
            }
            return Err(e);
        },
    };
    let t = now();
    let week_key = match week_key_at(t.secs) {
        Ok(key) => key,
        Err(e) => {
            proof {
                assert(db.journal().take(db.journal().len() as int) =~= db.journal());
                assert(run_submitted_now(
                    req,
                    Seq::empty(),
                    t.secs as int,
                    db.since(*old(db)),
                    Err(e),
                ));
            }
            return Err(e);
        },
    };
    let id = new_id();
    let ghost id_text = id@;
    let ghost week_text = week_key@;
    let r = persist_run(db, new_run(req, checked, id, week_key));
    proof {
        assert(week_key_of(t.secs as int) == Some(week_text));
        assert(run_submitted_now(req, id_text, t.secs as int, db.since(*old(db)), r));
    }
    r
}

/// Most entries a leaderboard lists.
pub const MAX_LEADERBOARD_LIMIT: i64 = 100;

/// Entries that the regatta lists.
pub const REGATTA_TOP_RUNS: i64 = 10;

/// The runs that a leaderboard is taken from.
#[derive(Clone, Copy, Debug, PartialEq, Eq, Structural)]
pub enum Scope {
    /// All runs.
    Global,
    /// The runs of the current week.
    Weekly,
    /// The runs of one seed.
    Seed(i64),
}

/// A limit held to the range from 1 to 100.
pub open spec fn clamped_limit(limit: int) -> int {
    if limit > MAX_LEADERBOARD_LIMIT {
        MAX_LEADERBOARD_LIMIT as int
    } else if limit < 1 {
        1
    } else {
        limit
    }
}

/// Holds a limit to the range from 1 to 100.
pub fn clamp_limit(limit: i64) -> (l: i64)
    ensures
        l == clamped_limit(limit as int),
{
    if limit > MAX_LEADERBOARD_LIMIT {
        MAX_LEADERBOARD_LIMIT
    } else if limit < 1 {
        1
    } else {
        limit
    }
}

/// The scope that a category selects: `weekly` the current week, `seed` the
/// seed given with it, anything else all runs. `seed` without a seed selects
/// nothing.
pub open spec fn scope_of(category: Seq<char>, seed: Option<i64>) -> Option<Scope> {
    if category == "weekly"@ {
        Some(Scope::Weekly)
    } else if category == "seed"@ {
        match seed {
            Some(s) => Some(Scope::Seed(s)),
            None => None,
        }
    } else {
        Some(Scope::Global)
    }
}

/// Reads the scope out of a category, and refuses `seed` without a seed.
pub fn leaderboard_scope(category: &str, seed: Option<i64>) -> (r: Result<Scope, AppError>)
    ensures
        match scope_of(category@, seed) {
            Some(scope) => r == Ok::<Scope, AppError>(scope),
            None => r is Err && r->Err_0.is_bad_request("Seed required for seed category"@),
        },
{
    if str_equals(category, "weekly") {
        Ok(Scope::Weekly)
    } else if str_equals(category, "seed") {
        match seed {
            Some(s) => Ok(Scope::Seed(s)),
            None => Err(AppError::bad_request("Seed required for seed category")),
        }
    } else {
        Ok(Scope::Global)
    }
}

/// The leaderboard entry that stands for a run of the store.
pub open spec fn entry_of(row: RunRow) -> LeaderboardEntry {
    LeaderboardEntry {
        id: row.id,
        player_name: row.player_name,
        score: row.score,
        waves: row.waves,
        victory: row.victory != 0,
        ship_class: row.ship_class,
        doctrine_id: row.doctrine_id,
        ships_destroyed: row.ships_destroyed,
        time_played: row.time_played,
        max_heat: row.max_heat,
        created_at: row.created_at,
    }
}

/// Turns a run of the store into a leaderboard entry.
pub fn entry_from_row(row: RunRow) -> (entry: LeaderboardEntry)
    ensures
        entry == entry_of(row),
{
    LeaderboardEntry {
        id: row.id,
        player_name: row.player_name,
        score: row.score,
        waves: row.waves,
        victory: row.victory != 0,
        ship_class: row.ship_class,
        doctrine_id: row.doctrine_id,
        ships_destroyed: row.ships_destroyed,
        time_played: row.time_played,
        max_heat: row.max_heat,
        created_at: row.created_at,
    }
}

/// The rows that a leaderboard keeps of those listed: the first `limit`.
pub open spec fn kept_rows(rows: Seq<RunRow>, limit: int) -> Seq<RunRow> {
    if limit <= 0 {
        Seq::empty()
    } else if rows.len() <= limit {
        rows
    } else {
        rows.take(limit)
    }
}

/// Rows in falling order of score.
pub open spec fn rows_fall(rows: Seq<RunRow>) -> bool {
    forall|i: int, j: int| 0 <= i <= j < rows.len() ==> rows[i].score >= rows[j].score
}

/// The leaderboard entries that stand for some rows, in their order.
pub open spec fn entries_of(rows: Seq<RunRow>) -> Seq<LeaderboardEntry> {
    Seq::new(rows.len(), |i: int| entry_of(rows[i]))
}

/// Entries in falling order of score.
pub open spec fn by_falling_score(entries: Seq<LeaderboardEntry>) -> bool {
    forall|i: int, j: int| 0 <= i <= j < entries.len() ==> entries[i].score >= entries[j].score
}

/// What is made of the rows that the store listed: a leaderboard of the first
/// `limit` of them, in their order, or an internal error where those do not
/// come in falling order of score.
pub open spec fn board_made(
    rows: Seq<RunRow>,
    limit: i64,
    r: Result<Vec<LeaderboardEntry>, AppError>,
) -> bool {
    if rows_fall(kept_rows(rows, limit as int)) {
        r matches Ok(entries) && entries@ == entries_of(kept_rows(rows, limit as int))
    } else {
        r is Err && r->Err_0.is_internal("Store listed runs out of order"@)
    }
}

/// Makes a leaderboard of the rows that the store listed.
pub fn entries_from_rows(rows: Vec<RunRow>, limit: i64) -> (r: Result<
    Vec<LeaderboardEntry>,
    AppError,
>)
    ensures
        board_made(rows@, limit, r),
        r matches Ok(entries) ==> (entries@.len() <= limit || entries@.len() == 0)
            && by_falling_score(entries@),
{
    let ghost kept = kept_rows(rows@, limit as int);
    let mut rest = rows;
    if limit <= 0 {
        rest.truncate(0);
    } else if rest.len() as u64 > limit as u64 {
        rest.truncate(limit as usize);
    }
    assert(rest@ =~= kept);
    let ghost total = kept.len() as int;
    let mut reversed: Vec<LeaderboardEntry> = Vec::new();
    let mut floor: i64 = i64::MIN;
    while rest.len() > 0
        invariant
            kept == kept_rows(rows@, limit as int),
            total == kept.len(),
            rest@.len() + reversed@.len() == total,
            rest@ == kept.take(rest@.len() as int),
            rows_fall(kept.skip(rest@.len() as int)),
            reversed@.len() > 0 ==> floor == kept[rest@.len() as int].score,
            reversed@.len() == 0 ==> floor == i64::MIN,
            forall|t: int|
                0 <= t < reversed@.len() ==> #[trigger] reversed@[t] == entry_of(kept[total - 1 - t]),
        decreases rest.len(),
    {
        let ghost before = rest@.len() as int;
        let row = rest.pop().unwrap();
        assert(row == kept[before - 1]);
        assert(rest@ =~= kept.take(before - 1));
        if row.score < floor {
            proof {
                assert(kept[before - 1].score < kept[before].score);
                if rows_fall(kept) {
                    assert(kept[before - 1].score >= kept[before].score);
                }
            }
            return Err(AppError::internal("Store listed runs out of order"));
        }
        proof {
            let tail = kept.skip(before);
            let wider = kept.skip(before - 1);
            assert forall|i: int, j: int| 0 <= i <= j < wider.len() implies wider[i].score
                >= wider[j].score by {
                if i > 0 {
                    assert(tail[i - 1].score >= tail[j - 1].score);
                } else if j > 0 {
                    assert(tail[0].score >= tail[j - 1].score);
                }
            }
        }
        floor = row.score;
        reversed.push(entry_from_row(row));
    }
    assert(kept.skip(0) =~= kept);
    let mut entries: Vec<LeaderboardEntry> = Vec::new();
    while reversed.len() > 0
        invariant
            total == kept.len(),
            entries@.len() + reversed@.len() == total,
            forall|t: int|
                0 <= t < reversed@.len() ==> #[trigger] reversed@[t] == entry_of(kept[total - 1 - t]),
            forall|i: int| 0 <= i < entries@.len() ==> #[trigger] entries@[i] == entry_of(kept[i]),
        decreases reversed.len(),
    {
        let entry = reversed.pop().unwrap();
        entries.push(entry);
    }
    proof {
        assert forall|i: int, j: int| 0 <= i <= j < entries@.len() implies entries@[i].score
            >= entries@[j].score by {
            assert(kept[i].score >= kept[j].score);
        }
        assert(entries@ =~= entries_of(kept));
    }
    Ok(entries)
}

/// What passes between library and store when runs are listed, and what
/// comes of it: the store is asked once, for the runs of the week and the
/// seed given, by falling score and no more than the limit, and its rows are
/// made a leaderboard, or its failure is the answer.
pub open spec fn runs_listed(
    week_key: Option<Seq<char>>,
    seed: Option<i64>,
    limit: i64,
    exchanges: Seq<Exchange>,
    r: Result<Vec<LeaderboardEntry>, AppError>,
) -> bool {
    &&& exchanges.len() == 1
    &&& exchanges[0] matches Exchange::RunList { week_key: w, seed: s, limit: l, answer }
    &&& w == week_key
    &&& s == seed
    &&& l == limit
    &&& match answer {
        Err(e) => r == Err::<Vec<LeaderboardEntry>, AppError>(AppError::Db(e)),
        Ok(rows) => board_made(rows@, limit, r),
    }
}

/// Lists the runs of a week, of a seed, of both or of neither, best score
/// first and no more than the limit.
pub fn list_runs(db: &mut Db, week_key: Option<&str>, seed: Option<i64>, limit: i64) -> (r: Result<
    Vec<LeaderboardEntry>,
    AppError,
>)
    ensures
        final(db).extends(*old(db)),
        runs_listed(text_view(week_key), seed, limit, final(db).since(*old(db)), r),
        reads_only(final(db).since(*old(db))),
        r matches Ok(entries) ==> (entries@.len() <= limit || entries@.len() == 0)
            && by_falling_score(entries@),
{
    let answer = db.select_top_runs(week_key, seed, limit);
    proof {
        let asked = Exchange::RunList { week_key: text_view(week_key), seed, limit, answer };
        assert(db.journal().take(old(db).journal().len() as int) =~= old(db).journal());
        assert(db.since(*old(db)) =~= seq![asked]);
    }
    match answer {
        Ok(rows) => entries_from_rows(rows, limit),
        Err(e) => Err(AppError::Db(e)),
    }
}

/// What fetching the leaderboard of a category comes to, with the week key
/// that `weekly` stands for. `seed` without a seed is refused, and nothing is
/// sent to the store. Otherwise the store is asked once, for the runs of the
/// scope, with the limit held to the range from 1 to 100.
pub open spec fn leaderboard_fetched(
    category: Seq<char>,
    seed: Option<i64>,
    limit: i64,
    week_key: Seq<char>,
    exchanges: Seq<Exchange>,
    r: Result<Vec<LeaderboardEntry>, AppError>,
) -> bool {
    match scope_of(category, seed) {
        None => exchanges.len() == 0 && r is Err && r->Err_0.is_bad_request(
            "Seed required for seed category"@,
        ),
        Some(Scope::Global) => runs_listed(
            None,
            None,
            clamped_limit(limit as int) as i64,
            exchanges,
            r,
        ),
        Some(Scope::Weekly) => runs_listed(
            Some(week_key),
            None,
            clamped_limit(limit as int) as i64,
            exchanges,
            r,
        ),
        Some(Scope::Seed(s)) => runs_listed(
            None,
            Some(s),
            clamped_limit(limit as int) as i64,
            exchanges,
            r,
        ),
    }
}

/// The leaderboard of a category, with the week key that `weekly` stands
/// for. Nothing is written.
pub fn get_leaderboard_at(
    db: &mut Db,
    category: &str,
    seed: Option<i64>,
    limit: i64,
    week_key: &str,
) -> (r: Result<Vec<LeaderboardEntry>, AppError>)
    ensures
        final(db).extends(*old(db)),
        leaderboard_fetched(category@, seed, limit, week_key@, final(db).since(*old(db)), r),
        reads_only(final(db).since(*old(db))),
        r matches Ok(entries) ==> entries@.len() <= clamped_limit(limit as int) && by_falling_score(
            entries@,
        ),
{
    let limit = clamp_limit(limit);
    match leaderboard_scope(category, seed) {
        Err(e) => {
            proof {
                assert(db.journal().take(db.journal().len() as int) =~= db.journal());
            }
            Err(e)
        },
        Ok(Scope::Global) => list_runs(db, None, None, limit),
        Ok(Scope::Weekly) => list_runs(db, Some(week_key), None, limit),
        Ok(Scope::Seed(s)) => list_runs(db, None, Some(s), limit),
    }
}

/// What fetching the leaderboard of a category at an instant comes to. The
/// instant matters to `weekly` alone, which stands for the week key of the
/// instant; there, an instant outside the calendar is an internal error, and
/// nothing is sent to the store.
pub open spec fn leaderboard_fetched_now(
    category: Seq<char>,
    seed: Option<i64>,
    limit: i64,
    secs: int,
    exchanges: Seq<Exchange>,
    r: Result<Vec<LeaderboardEntry>, AppError>,
) -> bool {
    if scope_of(category, seed) == Some(Scope::Weekly) {
        if in_calendar(secs) && week_key_of(secs) is Some {
            leaderboard_fetched(category, seed, limit, week_key_of(secs)->Some_0, exchanges, r)
        } else {
            exchanges.len() == 0 && r is Err && r->Err_0.is_internal("Clock out of range"@)
        }
    } else {
        leaderboard_fetched(category, seed, limit, Seq::empty(), exchanges, r)
    }
}

/// The leaderboard of a category: `weekly` lists the runs of the current
/// week, `seed` those of the seed given, anything else all runs. The limit is
/// held to the range from 1 to 100. Nothing is written.
pub fn get_leaderboard(db: &mut Db, category: &str, seed: Option<i64>, limit: i64) -> (r: Result<
    Vec<LeaderboardEntry>,
    AppError,
>)
    ensures
        final(db).extends(*old(db)),
        exists|secs: int| #[trigger]
            leaderboard_fetched_now(category@, seed, limit, secs, final(db).since(*old(db)), r),
        reads_only(final(db).since(*old(db))),
        r matches Ok(entries) ==> entries@.len() <= clamped_limit(limit as int) && by_falling_score(
            entries@,
        ),
{
    match leaderboard_scope(category, seed) {
        Ok(Scope::Weekly) => {
            let t = now();
            match week_key_at(t.secs) {
                Ok(week_key) => {
                    let r = get_leaderboard_at(db, category, seed, limit, week_key.as_str());
                    proof {
                        assert(leaderboard_fetched_now(
                            category@,
                            seed,
                            limit,
                            t.secs as int,
                            db.since(*old(db)),
                            r,
                        ));
                    }
                    r
                },
                Err(e) => {
                    proof {
                        assert(db.journal().take(db.journal().len() as int) =~= db.journal());
                        assert(leaderboard_fetched_now(
                            category@,
                            seed,
                            limit,
                            t.secs as int,
                            db.since(*old(db)),
                            Err(e),
                        ));
                    }
                    Err(e)
                },
            }
        },
        _ => {
            let r = get_leaderboard_at(db, category, seed, limit, "");
            proof {
                reveal_strlit("");
                assert(""@ =~= Seq::<char>::empty());
                assert(leaderboard_fetched_now(category@, seed, limit, 0, db.since(*old(db)), r));
            }
            r
        },
    }
}

/// What the lookup of a ghost tape answers: the tape where the run has one,
/// and one of two not-found errors where the run has none or is not there.
pub open spec fn tape_found(found: Option<Option<Vec<u8>>>, r: Result<Vec<u8>, AppError>) -> bool {
    match found {
        Some(Some(tape)) => r == Ok::<Vec<u8>, AppError>(tape),
        Some(None) => r is Err && r->Err_0.is_not_found("Ghost tape not found for this run"@),
        None => r is Err && r->Err_0.is_not_found("Run not found"@),
    }
}

/// Answers the lookup of a ghost tape.
pub fn tape_outcome(found: Option<Option<Vec<u8>>>) -> (r: Result<Vec<u8>, AppError>)
    ensures
        tape_found(found, r),
{
    match found {
        Some(Some(tape)) => Ok(tape),
        Some(None) => Err(AppError::not_found("Ghost tape not found for this run")),
        None => Err(AppError::not_found("Run not found")),
    }
}

/// What fetching the ghost tape of a run comes to: the store is asked once,
/// for the tape of the run, and its answer is passed on, or its failure.
pub open spec fn tape_fetched(
    run_id: Seq<char>,
    exchanges: Seq<Exchange>,
    r: Result<Vec<u8>, AppError>,
) -> bool {
    &&& exchanges.len() == 1
    &&& exchanges[0] matches Exchange::TapeRead { run_id: asked, answer }
    &&& asked == run_id
    &&& match answer {
        Err(e) => r == Err::<Vec<u8>, AppError>(AppError::Db(e)),
        Ok(found) => tape_found(found, r),
    }
}

/// The ghost tape of a run. Nothing is written.
pub fn get_ghost_tape(db: &mut Db, run_id: &str) -> (r: Result<Vec<u8>, AppError>)
    ensures
        final(db).extends(*old(db)),
        tape_fetched(run_id@, final(db).since(*old(db)), r),
        reads_only(final(db).since(*old(db))),
{
    let answer = db.select_ghost_tape(run_id);
    proof {
        let asked = Exchange::TapeRead { run_id: run_id@, answer };
        assert(db.journal().take(old(db).journal().len() as int) =~= old(db).journal());
        assert(db.since(*old(db)) =~= seq![asked]);
    }
    match answer {
        Ok(found) => tape_outcome(found),
        Err(e) => Err(AppError::Db(e)),
    }
}

/// The seed that a regatta runs on once the store was asked again after the
/// offer: the seed read again. A week without a seed after its offer is an
/// internal error.
pub open spec fn seed_read_again(read_again: Option<i64>, r: Result<i64, AppError>) -> bool {
    match read_again {
        Some(seed) => r == Ok::<i64, AppError>(seed),
        None => r is Err && r->Err_0.is_internal("Regatta seed missing after insert"@),
    }
}

/// Answers the second reading of a regatta seed.
pub fn settled_seed(read_again: Option<i64>) -> (r: Result<i64, AppError>)
    ensures
        seed_read_again(read_again, r),
{
    match read_again {
        Some(seed) => Ok(seed),
        None => Err(AppError::internal("Regatta seed missing after insert")),
    }
}

/// What passes between library and store when the regatta seed of a week is
/// settled, and what comes of it. The store is asked for the seed of the
/// week. Where it has one, that is the seed. Where it has none, it is
/// offered the seed derived from the week key, to keep unless another writer
/// came first, and asked again: whoever wrote first, every caller sees that
/// seed. A failure of the store at any step is the answer.
pub open spec fn seed_settled(
    week_key: Seq<char>,
    exchanges: Seq<Exchange>,
    r: Result<i64, AppError>,
) -> bool {
    &&& exchanges.len() >= 1
    &&& exchanges[0] matches Exchange::SeedRead { week_key: asked, answer: found }
    &&& asked == week_key
    &&& match found {
        Err(e) => exchanges.len() == 1 && r == Err::<i64, AppError>(AppError::Db(e)),
        Ok(Some(seed)) => exchanges.len() == 1 && r == Ok::<i64, AppError>(seed),
        Ok(None) => {
            &&& exchanges.len() >= 2
            &&& exchanges[1] matches Exchange::SeedOffer { week_key: for_week, seed, answer: offered }
            &&& for_week == week_key
            &&& seed == regatta_seed(week_key)
            &&& match offered {
                Err(e) => exchanges.len() == 2 && r == Err::<i64, AppError>(AppError::Db(e)),
                Ok(_) => {
                    &&& exchanges.len() == 3
                    &&& exchanges[2] matches Exchange::SeedRead { week_key: again, answer: second }
                    &&& again == week_key
                    &&& match second {
                        Err(e) => r == Err::<i64, AppError>(AppError::Db(e)),
                        Ok(read_again) => seed_read_again(read_again, r),
                    }
                },
            }
        },
    }
}

/// Settles the seed of a week's regatta.
pub fn regatta_seed_for(db: &mut Db, week_key: &str) -> (r: Result<i64, AppError>)
    ensures
        final(db).extends(*old(db)),
        seed_settled(week_key@, final(db).since(*old(db)), r),
{
    let found = db.select_regatta_seed(week_key);
    let ghost first = Exchange::SeedRead { week_key: week_key@, answer: found };
    proof {
        assert(db.journal().take(old(db).journal().len() as int) =~= old(db).journal());
        assert(db.since(*old(db)) =~= seq![first]);
    }
    match found {
        Err(e) => {
            return Err(AppError::Db(e));
        },
        Ok(Some(seed)) => {
            return Ok(seed);
        },
        Ok(None) => {},
    }
    let derived = derive_regatta_seed(week_key);
    let offered = db.insert_regatta_if_absent(week_key, derived);
    let ghost second = Exchange::SeedOffer { week_key: week_key@, seed: derived, answer: offered };
    proof {
        assert(db.journal().take(old(db).journal().len() as int) =~= old(db).journal());
        assert(db.since(*old(db)) =~= seq![first, second]);
    }
    match offered {
        Ok(_) => {},
        Err(e) => {
            return Err(AppError::Db(e));
        },
    }
    let again = db.select_regatta_seed(week_key);
    proof {
        let third = Exchange::SeedRead { week_key: week_key@, answer: again };
        assert(db.journal().take(old(db).journal().len() as int) =~= old(db).journal());
        assert(db.since(*old(db)) =~= seq![first, second, third]);
    }
    match again {
        Ok(read_again) => settled_seed(read_again),
        Err(e) => Err(AppError::Db(e)),
    }
}

/// The end of the regatta that runs at an instant, as the store writes times:
/// the Monday 00:00 UTC strictly after the instant. `None` where the instant
/// lies outside the calendar or that Monday cannot be dated.
pub open spec fn ends_at_of(secs: int) -> Option<Seq<char>> {
    if in_calendar(secs) {
        utc_text(next_week_start(secs))
    } else {
        None
    }
}

/// The end of the regatta that runs at an instant, as the store writes times:
/// the Monday 00:00 UTC strictly after the instant. At a Monday 00:00 UTC
/// that is the next Monday, a whole week away.
pub fn regatta_ends_at(now_secs: i64) -> (r: Result<String, AppError>)
    ensures
        match ends_at_of(now_secs as int) {
            Some(text) => r is Ok && r->Ok_0@ == text,
            None => r is Err && r->Err_0.is_internal("Clock out of range"@),
        },
        in_calendar(now_secs as int) && in_calendar(next_week_start(now_secs as int)) ==> r is Ok,
{
    let monday = match next_week_start_at(now_secs) {
        Some(monday) => monday,
        None => {
            return Err(AppError::internal("Clock out of range"));
        },
    };
    match utc_text_at(monday) {
        Some(text) => Ok(text),
        None => Err(AppError::internal("Clock out of range")),
    }
}

/// What is made of a settled seed and the runs listed for it: the regatta of
/// the week, or the failure of either step.
pub open spec fn regatta_made(
    week_key: Seq<char>,
    ends_at: Seq<char>,
    seed: Result<i64, AppError>,
    top: Result<Vec<LeaderboardEntry>, AppError>,
    r: Result<RegattaInfo, AppError>,
) -> bool {
    match seed {
        Err(e) => r == Err::<RegattaInfo, AppError>(e),
        Ok(s) => match top {
            Err(e) => r == Err::<RegattaInfo, AppError>(e),
            Ok(entries) => r matches Ok(info) && info.week_key@ == week_key && info.seed == s
                && info.ends_at@ == ends_at && info.top_runs == entries,
        },
    }
}

/// The two steps of a regatta fetch for a week. The first `settled` of the
/// exchanges settle the seed of the week. Where they do, the rest list the
/// ten best runs of that seed and week; where they do not, there is no rest.
pub open spec fn regatta_steps(
    week_key: Seq<char>,
    ends_at: Seq<char>,
    exchanges: Seq<Exchange>,
    settled: int,
    seed: Result<i64, AppError>,
    top: Result<Vec<LeaderboardEntry>, AppError>,
    r: Result<RegattaInfo, AppError>,
) -> bool {
    &&& 0 <= settled <= exchanges.len()
    &&& seed_settled(week_key, exchanges.take(settled), seed)
    &&& match seed {
        Err(_) => exchanges.len() == settled,
        Ok(s) => runs_listed(
            Some(week_key),
            Some(s),
            REGATTA_TOP_RUNS,
            exchanges.skip(settled),
            top,
        ),
    }
    &&& regatta_made(week_key, ends_at, seed, top, r)
}

/// What fetching the regatta at an instant comes to. An instant that cannot
/// be dated, or whose week does not end within the calendar, is an internal
/// error, and nothing is sent to the store. Otherwise the seed of the week
/// of the instant is settled and its ten best runs are listed; the regatta
/// carries the week key of the instant, that seed, the Monday 00:00 UTC
/// strictly after the instant, and those runs.
pub open spec fn regatta_fetched(
    secs: int,
    exchanges: Seq<Exchange>,
    r: Result<RegattaInfo, AppError>,
) -> bool {
    if in_calendar(secs) && week_key_of(secs) is Some && ends_at_of(secs) is Some {
        exists|settled: int, seed: Result<i64, AppError>, top: Result<Vec<LeaderboardEntry>, AppError>|
         #[trigger] regatta_steps(
                week_key_of(secs)->Some_0,
                ends_at_of(secs)->Some_0,
                exchanges,
                settled,
                seed,
                top,
                r,
            )
    } else {
        exchanges.len() == 0 && r is Err && r->Err_0.is_internal("Clock out of range"@)
    }
}

/// What a regatta that was fetched at an instant holds: the week key of the
/// instant, the Monday 00:00 UTC strictly after it, and at most ten runs,
/// best first.
pub open spec fn regatta_answer(info: RegattaInfo, secs: int) -> bool {
    &&& in_calendar(secs)
    &&& Some(info.week_key@) == week_key_of(secs)
    &&& Some(info.ends_at@) == utc_text(next_week_start(secs))
    &&& info.top_runs@.len() <= REGATTA_TOP_RUNS
    &&& by_falling_score(info.top_runs@)
}

/// The regatta of the week that holds an instant: the week key, the week's
/// seed, the end of the week and the ten best runs of that seed and week.
/// The seed is the one that the store holds for the week; a week without one
/// is offered the derived seed first.
pub fn get_or_create_regatta_at(db: &mut Db, now: Instant) -> (r: Result<RegattaInfo, AppError>)
    ensures
        final(db).extends(*old(db)),
        regatta_fetched(now.secs as int, final(db).since(*old(db)), r),
        !in_calendar(now.secs as int) ==> *final(db) == *old(db),
        r matches Ok(info) ==> regatta_answer(info, now.secs as int),
{
    let week_key = match week_key_at(now.secs) {
        Ok(key) => key,
        Err(e) => {
            proof {
                assert(db.journal().take(db.journal().len() as int) =~= db.journal());
            }
            return Err(e);
        },
    };
    let ends_at = match regatta_ends_at(now.secs) {
        Ok(text) => text,
        Err(e) => {
            proof {
                assert(db.journal().take(db.journal().len() as int) =~= db.journal());
            }
            return Err(e);
        },
    };
    let settled = regatta_seed_for(db, week_key.as_str());
    let ghost mid = *db;
    let ghost seed_result = settled;
    let seed = match settled {
        Ok(seed) => seed,
        Err(e) => {
            proof {
                let x = db.since(*old(db));
                assert(x.take(x.len() as int) =~= x);
                assert(regatta_steps(
                    week_key_of(now.secs as int)->Some_0,
                    ends_at_of(now.secs as int)->Some_0,
                    x,
                    x.len() as int,
                    seed_result,
                    Err(e),
                    Err(e),
                ));
            }
            return Err(e);
        },
    };
    let listed = list_runs(db, Some(week_key.as_str()), Some(seed), REGATTA_TOP_RUNS);
    let ghost top = listed;
    proof {
        let x = db.since(*old(db));
        let n = mid.since(*old(db)).len() as int;
        assert(db.journal().take(old(db).journal().len() as int) =~= mid.journal().take(
            old(db).journal().len() as int,
        ));
        assert(x.take(n) =~= mid.since(*old(db)));
        assert(x.skip(n) =~= db.since(mid));
    }
    let r = match listed {
        Ok(top_runs) => Ok(RegattaInfo { week_key, seed, ends_at, top_runs }),
        Err(e) => Err(e),
    };
    proof {
        let x = db.since(*old(db));
        let n = mid.since(*old(db)).len() as int;
        assert(regatta_steps(
            week_key_of(now.secs as int)->Some_0,
            ends_at_of(now.secs as int)->Some_0,
            x,
            n,
            seed_result,
            top,
            r,
        ));
    }
    r
}

/// The regatta of the current week.
pub fn get_or_create_regatta(db: &mut Db) -> (r: Result<RegattaInfo, AppError>)
    ensures
        final(db).extends(*old(db)),
        exists|secs: int| #[trigger] regatta_fetched(secs, final(db).since(*old(db)), r),
        r matches Ok(info) ==> exists|secs: int| #[trigger] regatta_answer(info, secs),
{
    let t = now();
    let r = get_or_create_regatta_at(db, t);
    proof {
        assert(regatta_fetched(t.secs as int, db.since(*old(db)), r));
        if r is Ok {
            assert(regatta_answer(r->Ok_0, t.secs as int));
        }
    }
    r
}

/// The regatta seed derived at an instant: the seed of the week key of that
/// instant.
pub open spec fn regatta_seed_at(secs: int) -> Option<int> {
    match week_key_of(secs) {
        Some(week_key) => Some(regatta_seed(week_key)),
        None => None,
    }
}

/// The regatta seed is a function of the week alone: two instants of one
/// week derive one seed.
pub proof fn lemma_regatta_seed_stable(a: int, b: int)
    requires
        week_start(week_index(a)) <= b < next_week_start(a),
    ensures
        regatta_seed_at(a) == regatta_seed_at(b),
{
}

} // verus!
