use base64::Engine;
use booty_hunt::clock::Instant;
use booty_hunt::db::Db;
use booty_hunt::error::{AppError, ErrorKind};
use booty_hunt::models::ghost_fleet::{LeaderboardQuery, RunSubmission};
use booty_hunt::ranking::rank_from_count;
use booty_hunt::selector::derive_regatta_seed;
use booty_hunt::services::ghost_fleet::{
    check_submission, checked_ghost_tape, clamp_limit, decode_ghost_tape, entries_from_rows,
    entry_from_row, get_ghost_tape, get_leaderboard, get_leaderboard_at,
    get_or_create_regatta_at, leaderboard_scope, list_runs, new_run, persist_run,
    regatta_ends_at, regatta_seed_for, settled_seed, submit_run, submit_run_at, tape_outcome,
    Scope,
};
use booty_hunt::store::RunRow;
use rusqlite::types::Value;

fn run(score: i64, name: &str) -> RunSubmission {
    RunSubmission {
        seed: 12345,
        ship_class: "sloop".into(),
        doctrine_id: "plunder".into(),
        score,
        waves: 10,
        victory: false,
        ships_destroyed: 15,
        damage_dealt: 3000,
        max_combo: 5,
        time_played: Value::Real(600.0),
        max_heat: Value::Real(45.0),
        ghost_tape: None,
        player_name: name.into(),
    }
}

fn row(id: &str, score: i64, victory: i64) -> RunRow {
    RunRow {
        id: id.into(),
        player_name: "p".into(),
        score,
        waves: 3,
        victory,
        ship_class: "galleon".into(),
        doctrine_id: "d".into(),
        ships_destroyed: 2,
        time_played: Value::Real(1.5),
        max_heat: Value::Real(2.5),
        created_at: "2024-01-01 00:00:00".into(),
    }
}

fn bad_request<T: std::fmt::Debug>(r: Result<T, AppError>) -> String {
    match r {
        Err(AppError::BadRequest(msg)) => msg,
        other => panic!("expected a validation error, got {:?}", other),
    }
}

fn internal<T: std::fmt::Debug>(r: Result<T, AppError>) -> String {
    match r {
        Err(AppError::Internal(msg)) => msg,
        other => panic!("expected an internal error, got {:?}", other),
    }
}

fn not_found<T: std::fmt::Debug>(r: Result<T, AppError>) -> String {
    match r {
        Err(AppError::NotFound(msg)) => msg,
        other => panic!("expected a not-found error, got {:?}", other),
    }
}

fn submit(db: &mut Db, id: &str, week: &str, seed: i64, score: i64) -> i64 {
    let mut r = run(score, id);
    r.seed = seed;
    let res = submit_run_at(db, r, id.into(), week.into()).unwrap();
    assert_eq!(res.id, id);
    res.rank
}

#[test]
fn rank_is_one_more_than_the_count() {
    assert_eq!(rank_from_count(0).unwrap(), 1);
    assert_eq!(rank_from_count(5).unwrap(), 6);
    assert_eq!(rank_from_count(i64::MAX - 1).unwrap(), i64::MAX);
    assert_eq!(internal(rank_from_count(-1)), "Store counted runs out of range");
    assert_eq!(internal(rank_from_count(i64::MAX)), "Store counted runs out of range");
}

#[test]
fn rising_scores_each_rank_first() {
    let mut db = Db::open_in_memory().unwrap();
    for (i, score) in [10, 20, 30, 1000, 1001].into_iter().enumerate() {
        let rank = submit(&mut db, &format!("run-{}", i), "2024-W01", 1, score);
        assert_eq!(rank, 1);
        // The run heads the falling order of all runs persisted by now.
        let board = get_leaderboard(&mut db, "global", None, 100).unwrap();
        assert_eq!(board.len(), i + 1);
        assert_eq!(board[0].score, score);
        assert_eq!(board[0].id, format!("run-{}", i));
    }
}

#[test]
fn rank_is_the_place_in_falling_order() {
    let mut db = Db::open_in_memory().unwrap();
    assert_eq!(submit(&mut db, "a", "2024-W01", 1, 500), 1);
    assert_eq!(submit(&mut db, "b", "2024-W01", 1, 300), 2);
    assert_eq!(submit(&mut db, "c", "2024-W01", 2, 400), 2);
    assert_eq!(submit(&mut db, "d", "2024-W02", 3, 100), 4);
    assert_eq!(submit(&mut db, "e", "2024-W02", 3, 600), 1);
    assert_eq!(submit(&mut db, "f", "2024-W02", 3, 0), 6);
    let board = get_leaderboard(&mut db, "global", None, 100).unwrap();
    let scores: Vec<i64> = board.iter().map(|e| e.score).collect();
    assert_eq!(scores, vec![600, 500, 400, 300, 100, 0]);
}

#[test]
fn ties_share_the_rank_of_their_first_member() {
    let mut db = Db::open_in_memory().unwrap();
    assert_eq!(submit(&mut db, "a", "2024-W01", 1, 500), 1);
    assert_eq!(submit(&mut db, "b", "2024-W01", 1, 500), 1);
    assert_eq!(submit(&mut db, "c", "2024-W01", 1, 400), 3);
    assert_eq!(submit(&mut db, "d", "2024-W01", 1, 400), 3);
    assert_eq!(submit(&mut db, "e", "2024-W01", 1, 500), 1);
    assert_eq!(submit(&mut db, "f", "2024-W01", 1, 100), 6);
}

#[test]
fn submission_gets_a_fresh_identifier() {
    let mut db = Db::open_in_memory().unwrap();
    let a = submit_run(&mut db, run(1, "a")).unwrap();
    let b = submit_run(&mut db, run(2, "b")).unwrap();
    assert_eq!(a.id.len(), 36);
    assert_eq!(b.id.len(), 36);
    assert_ne!(a.id, b.id);
    assert_eq!(a.id.matches('-').count(), 4);
}

#[test]
fn invalid_submission_writes_nothing() {
    let mut db = Db::open_in_memory().unwrap();
    let mut r = run(100, "Test");
    r.ship_class = "submarine".into();
    let result = submit_run(&mut db, r);
    assert_eq!(bad_request(result), "Invalid ship class: submarine");
    let result = submit_run(&mut db, run(-1, "Test"));
    assert_eq!(bad_request(result), "Score cannot be negative");
    let mut r = run(100, "Test");
    r.ghost_tape = Some("not base64!".into());
    assert_eq!(bad_request(submit_run(&mut db, r)), "Invalid ghost tape encoding");
    assert!(get_leaderboard(&mut db, "global", None, 100).unwrap().is_empty());
    let count: i64 = db
        .with_conn(|conn| conn.query_row("SELECT COUNT(*) FROM runs", [], |row| row.get(0)))
        .unwrap();
    assert_eq!(count, 0);
}

#[test]
fn faults_come_in_order() {
    let mut r = run(-1, "x");
    r.ship_class = "raft".into();
    r.ghost_tape = Some("???".into());
    assert_eq!(bad_request(check_submission(&r)), "Invalid ship class: raft");
    r.ship_class = "galleon".into();
    assert_eq!(bad_request(check_submission(&r)), "Score cannot be negative");
    r.score = 0;
    assert_eq!(bad_request(check_submission(&r)), "Invalid ghost tape encoding");
    r.ghost_tape = Some("AAEC".into());
    r.player_name = "  Calico Jack  ".into();
    let checked = check_submission(&r).unwrap();
    assert_eq!(checked.player_name, "Calico Jack");
    assert_eq!(checked.ghost_tape, Some(vec![0, 1, 2]));
}

#[test]
fn stored_run_carries_the_normalized_fields() {
    let mut db = Db::open_in_memory().unwrap();
    let mut r = run(77, "   ");
    r.victory = true;
    r.ship_class = "brigantine".into();
    submit_run_at(&mut db, r, "id-1".into(), "2024-W01".into()).unwrap();
    let board = get_leaderboard(&mut db, "global", None, 5).unwrap();
    assert_eq!(board.len(), 1);
    let e = &board[0];
    assert_eq!(e.id, "id-1");
    assert_eq!(e.player_name, "Anonymous");
    assert_eq!(e.score, 77);
    assert_eq!(e.waves, 10);
    assert!(e.victory);
    assert_eq!(e.ship_class, "brigantine");
    assert_eq!(e.doctrine_id, "plunder");
    assert_eq!(e.ships_destroyed, 15);
    assert_eq!(e.time_played, Value::Real(600.0));
    assert_eq!(e.max_heat, Value::Real(45.0));
    assert!(!e.created_at.is_empty());
}

#[test]
fn ghost_tape_is_decoded_and_held_to_the_limit() {
    assert_eq!(decode_ghost_tape(&None).unwrap(), None);
    assert_eq!(
        decode_ghost_tape(&Some("Z2hvc3QgdGFwZSBieXRlcw==".into())).unwrap(),
        Some(b"ghost tape bytes".to_vec())
    );
    assert_eq!(decode_ghost_tape(&Some("".into())).unwrap(), Some(vec![]));
    assert_eq!(
        bad_request(decode_ghost_tape(&Some("Z2hvc3Q".into()))),
        "Invalid ghost tape encoding"
    );
    assert_eq!(
        bad_request(decode_ghost_tape(&Some("@@@@".into()))),
        "Invalid ghost tape encoding"
    );
}

#[test]
fn encoded_ghost_tape_of_exactly_512_kib_is_accepted() {
    let engine = base64::engine::general_purpose::STANDARD;
    let exact = engine.encode(vec![9u8; 512 * 1024]);
    assert_eq!(decode_ghost_tape(&Some(exact)).unwrap().unwrap().len(), 512 * 1024);
    let over = engine.encode(vec![9u8; 512 * 1024 + 1]);
    assert_eq!(bad_request(decode_ghost_tape(&Some(over))), "Ghost tape too large");
}

#[test]
fn checked_ghost_tape_answers_for_every_decoding() {
    let engine = base64::engine::general_purpose::STANDARD;
    assert_eq!(checked_ghost_tape(Ok(vec![1, 2, 3])).unwrap(), vec![1, 2, 3]);
    assert_eq!(checked_ghost_tape(Ok(vec![0; 512 * 1024])).unwrap().len(), 512 * 1024);
    assert_eq!(
        bad_request(checked_ghost_tape(Ok(vec![0; 512 * 1024 + 1]))),
        "Ghost tape too large"
    );
    let failure = engine.decode("!").unwrap_err();
    assert_eq!(bad_request(checked_ghost_tape(Err(failure))), "Invalid ghost tape encoding");
}

#[test]
fn ghost_tape_fetch_has_three_outcomes() {
    let mut db = Db::open_in_memory().unwrap();
    let mut with_tape = run(10, "a");
    with_tape.ghost_tape = Some("Z2hvc3QgdGFwZSBieXRlcw==".into());
    submit_run_at(&mut db, with_tape, "taped".into(), "2024-W01".into()).unwrap();
    submit_run_at(&mut db, run(20, "b"), "bare".into(), "2024-W01".into()).unwrap();
    assert_eq!(get_ghost_tape(&mut db, "taped").unwrap(), b"ghost tape bytes".to_vec());
    assert_eq!(not_found(get_ghost_tape(&mut db, "bare")), "Ghost tape not found for this run");
    assert_eq!(not_found(get_ghost_tape(&mut db, "missing")), "Run not found");
    assert_eq!(get_ghost_tape(&mut db, "missing").unwrap_err().kind(), ErrorKind::NotFound);
}

#[test]
fn tape_outcome_answers_for_every_lookup() {
    assert_eq!(tape_outcome(Some(Some(vec![4, 5]))).unwrap(), vec![4, 5]);
    assert_eq!(tape_outcome(Some(Some(vec![]))).unwrap(), Vec::<u8>::new());
    assert_eq!(not_found(tape_outcome(Some(None))), "Ghost tape not found for this run");
    assert_eq!(not_found(tape_outcome(None)), "Run not found");
}

#[test]
fn limit_is_clamped() {
    assert_eq!(clamp_limit(20), 20);
    assert_eq!(clamp_limit(1), 1);
    assert_eq!(clamp_limit(100), 100);
    assert_eq!(clamp_limit(101), 100);
    assert_eq!(clamp_limit(0), 1);
    assert_eq!(clamp_limit(-7), 1);
    assert_eq!(clamp_limit(i64::MAX), 100);
    assert_eq!(clamp_limit(i64::MIN), 1);
}

#[test]
fn category_selects_the_scope() {
    assert_eq!(leaderboard_scope("global", None).unwrap(), Scope::Global);
    assert_eq!(leaderboard_scope("global", Some(3)).unwrap(), Scope::Global);
    assert_eq!(leaderboard_scope("anything", None).unwrap(), Scope::Global);
    assert_eq!(leaderboard_scope("", None).unwrap(), Scope::Global);
    assert_eq!(leaderboard_scope("Weekly", None).unwrap(), Scope::Global);
    assert_eq!(leaderboard_scope("weekly", None).unwrap(), Scope::Weekly);
    assert_eq!(leaderboard_scope("weekly", Some(3)).unwrap(), Scope::Weekly);
    assert_eq!(leaderboard_scope("seed", Some(3)).unwrap(), Scope::Seed(3));
    assert_eq!(leaderboard_scope("seed", Some(-3)).unwrap(), Scope::Seed(-3));
    assert_eq!(bad_request(leaderboard_scope("seed", None)), "Seed required for seed category");
}

#[test]
fn leaderboard_filters_by_category() {
    let mut db = Db::open_in_memory().unwrap();
    submit(&mut db, "a", "2024-W01", 1, 500);
    submit(&mut db, "b", "2024-W01", 2, 300);
    submit(&mut db, "c", "2024-W02", 1, 400);
    submit(&mut db, "d", "2024-W02", 2, 100);
    let ids = |board: Vec<booty_hunt::models::ghost_fleet::LeaderboardEntry>| -> Vec<String> {
        board.into_iter().map(|e| e.id).collect()
    };
    assert_eq!(
        ids(get_leaderboard_at(&mut db, "global", None, 20, "2024-W01").unwrap()),
        vec!["a", "c", "b", "d"]
    );
    assert_eq!(
        ids(get_leaderboard_at(&mut db, "weekly", None, 20, "2024-W01").unwrap()),
        vec!["a", "b"]
    );
    assert_eq!(
        ids(get_leaderboard_at(&mut db, "weekly", Some(1), 20, "2024-W02").unwrap()),
        vec!["c", "d"]
    );
    assert!(get_leaderboard_at(&mut db, "weekly", None, 20, "2024-W03").unwrap().is_empty());
    assert_eq!(
        ids(get_leaderboard_at(&mut db, "seed", Some(1), 20, "2024-W01").unwrap()),
        vec!["a", "c"]
    );
    assert_eq!(
        ids(get_leaderboard_at(&mut db, "seed", Some(2), 20, "2024-W01").unwrap()),
        vec!["b", "d"]
    );
    assert!(get_leaderboard_at(&mut db, "seed", Some(9), 20, "2024-W01").unwrap().is_empty());
    assert_eq!(
        bad_request(get_leaderboard_at(&mut db, "seed", None, 20, "2024-W01")),
        "Seed required for seed category"
    );
    assert_eq!(
        bad_request(get_leaderboard(&mut db, "seed", None, 20)),
        "Seed required for seed category"
    );
    assert_eq!(ids(get_leaderboard(&mut db, "seed", Some(2), 20).unwrap()), vec!["b", "d"]);
    // No run above carries the current week key.
    assert!(get_leaderboard(&mut db, "weekly", None, 20).unwrap().is_empty());
}

#[test]
fn weekly_leaderboard_lists_the_runs_of_the_current_week() {
    let mut db = Db::open_in_memory().unwrap();
    submit(&mut db, "old", "1999-W01", 1, 900);
    submit_run(&mut db, run(5, "now")).unwrap();
    let board = get_leaderboard(&mut db, "weekly", None, 20).unwrap();
    assert_eq!(board.len(), 1);
    assert_eq!(board[0].player_name, "now");
}

#[test]
fn leaderboard_is_capped_at_the_clamped_limit() {
    let mut db = Db::open_in_memory().unwrap();
    for i in 0..120 {
        submit(&mut db, &format!("r{}", i), "2024-W01", 1, i);
    }
    assert_eq!(get_leaderboard(&mut db, "global", None, 20).unwrap().len(), 20);
    assert_eq!(get_leaderboard(&mut db, "global", None, 100).unwrap().len(), 100);
    assert_eq!(get_leaderboard(&mut db, "global", None, 500).unwrap().len(), 100);
    assert_eq!(get_leaderboard(&mut db, "global", None, 0).unwrap().len(), 1);
    assert_eq!(get_leaderboard(&mut db, "global", None, -3).unwrap().len(), 1);
    let top = get_leaderboard(&mut db, "global", None, 3).unwrap();
    let scores: Vec<i64> = top.iter().map(|e| e.score).collect();
    assert_eq!(scores, vec![119, 118, 117]);
}

#[test]
fn entries_keep_the_order_of_the_rows() {
    let rows = vec![row("a", 9, 1), row("b", 9, 0), row("c", 4, 7), row("d", -2, 0)];
    let entries = entries_from_rows(rows, 10).unwrap();
    let ids: Vec<&str> = entries.iter().map(|e| e.id.as_str()).collect();
    assert_eq!(ids, vec!["a", "b", "c", "d"]);
    let wins: Vec<bool> = entries.iter().map(|e| e.victory).collect();
    assert_eq!(wins, vec![true, false, true, false]);
    assert_eq!(entries[2].score, 4);
    assert_eq!(entries[2].waves, 3);
    assert_eq!(entries[2].ship_class, "galleon");
    assert_eq!(entries[2].doctrine_id, "d");
    assert_eq!(entries[2].ships_destroyed, 2);
    assert_eq!(entries[2].time_played, Value::Real(1.5));
    assert_eq!(entries[2].max_heat, Value::Real(2.5));
    assert_eq!(entries[2].created_at, "2024-01-01 00:00:00");
    assert_eq!(entries[2].player_name, "p");
}

#[test]
fn entries_are_cut_at_the_limit() {
    let rows = || vec![row("a", 9, 1), row("b", 8, 0), row("c", 7, 0)];
    assert_eq!(entries_from_rows(rows(), 2).unwrap().len(), 2);
    assert_eq!(entries_from_rows(rows(), 3).unwrap().len(), 3);
    assert_eq!(entries_from_rows(rows(), 1).unwrap()[0].id, "a");
    assert!(entries_from_rows(rows(), 0).unwrap().is_empty());
    assert!(entries_from_rows(rows(), -1).unwrap().is_empty());
    assert!(entries_from_rows(vec![], 5).unwrap().is_empty());
    // What lies beyond the limit is not looked at.
    let tail_out_of_order = vec![row("a", 9, 1), row("b", 8, 0), row("c", 100, 0)];
    assert_eq!(entries_from_rows(tail_out_of_order, 2).unwrap().len(), 2);
}

#[test]
fn rows_out_of_order_are_an_internal_error() {
    let rows = vec![row("a", 1, 0), row("b", 2, 0)];
    assert_eq!(internal(entries_from_rows(rows, 10)), "Store listed runs out of order");
    let rows = vec![row("a", 5, 0), row("b", 5, 0), row("c", 4, 0), row("d", 5, 0)];
    assert_eq!(internal(entries_from_rows(rows, 10)), "Store listed runs out of order");
}

#[test]
fn query_defaults_are_global_and_20() {
    let q = LeaderboardQuery { category: None, seed: None, limit: None };
    assert_eq!(q.category_or_default(), "global");
    assert_eq!(q.limit_or_default(), 20);
    let q = LeaderboardQuery { category: Some("seed".into()), seed: Some(4), limit: Some(7) };
    assert_eq!(q.category_or_default(), "seed");
    assert_eq!(q.limit_or_default(), 7);
}

#[test]
fn regatta_of_a_known_week() {
    let mut db = Db::open_in_memory().unwrap();
    // Wednesday 3 January 2024, 12:00:00 UTC.
    let now = Instant { secs: 1704283200, nanos: 17 };
    let info = get_or_create_regatta_at(&mut db, now).unwrap();
    assert_eq!(info.week_key, "2024-W01");
    assert_eq!(info.seed, 5033761089200572389);
    assert_eq!(info.seed, derive_regatta_seed("2024-W01"));
    assert_eq!(info.ends_at, "2024-01-08T00:00:00Z");
    assert!(info.top_runs.is_empty());
}

#[test]
fn regatta_seed_is_the_same_all_week() {
    let mut db = Db::open_in_memory().unwrap();
    let monday = 1704067200;
    let first = get_or_create_regatta_at(&mut db, Instant { secs: monday, nanos: 0 }).unwrap();
    let mut t = monday;
    while t < monday + 604800 {
        let again = get_or_create_regatta_at(&mut db, Instant { secs: t, nanos: 5 }).unwrap();
        assert_eq!(again.seed, first.seed);
        assert_eq!(again.week_key, first.week_key);
        assert_eq!(again.ends_at, "2024-01-08T00:00:00Z");
        t += 86399;
    }
    let next = get_or_create_regatta_at(&mut db, Instant { secs: monday + 604800, nanos: 0 })
        .unwrap();
    assert_eq!(next.week_key, "2024-W02");
    assert_ne!(next.seed, first.seed);
    assert_eq!(next.ends_at, "2024-01-15T00:00:00Z");
}

#[test]
fn stored_regatta_seed_wins_over_the_derived_one() {
    let mut db = Db::open_in_memory().unwrap();
    db.with_conn(|conn| {
        conn.execute("INSERT INTO regattas (week_key, seed) VALUES ('2024-W01', 42)", ())
    })
    .unwrap();
    let info = get_or_create_regatta_at(&mut db, Instant { secs: 1704283200, nanos: 0 }).unwrap();
    assert_eq!(info.seed, 42);
    let stored: i64 = db
        .with_conn(|conn| {
            conn.query_row("SELECT COUNT(*) FROM regattas", [], |row| row.get(0))
        })
        .unwrap();
    assert_eq!(stored, 1);
}

#[test]
fn regatta_lists_the_ten_best_runs_of_seed_and_week() {
    let mut db = Db::open_in_memory().unwrap();
    let seed = derive_regatta_seed("2024-W01");
    for i in 0..15 {
        submit(&mut db, &format!("in-{}", i), "2024-W01", seed, 100 + i);
    }
    submit(&mut db, "other-seed", "2024-W01", seed - 1, 9000);
    submit(&mut db, "other-week", "2024-W02", seed, 9001);
    let info = get_or_create_regatta_at(&mut db, Instant { secs: 1704283200, nanos: 0 }).unwrap();
    let scores: Vec<i64> = info.top_runs.iter().map(|e| e.score).collect();
    assert_eq!(scores, vec![114, 113, 112, 111, 110, 109, 108, 107, 106, 105]);
}

#[test]
fn regatta_ends_at_the_monday_strictly_after_now() {
    // Sunday 23:59:59: the week ends a second later.
    assert_eq!(regatta_ends_at(1704067199).unwrap(), "2024-01-01T00:00:00Z");
    // Monday 00:00:00 exactly: a whole week is left.
    assert_eq!(regatta_ends_at(1704067200).unwrap(), "2024-01-08T00:00:00Z");
    assert_eq!(regatta_ends_at(1704067201).unwrap(), "2024-01-08T00:00:00Z");
    assert_eq!(regatta_ends_at(0).unwrap(), "1970-01-05T00:00:00Z");
    assert_eq!(internal(regatta_ends_at(-1)), "Clock out of range");
    assert_eq!(internal(regatta_ends_at(i64::MAX)), "Clock out of range");
}

#[test]
fn regatta_outside_the_calendar_is_an_internal_error() {
    let mut db = Db::open_in_memory().unwrap();
    let r = get_or_create_regatta_at(&mut db, Instant { secs: -5, nanos: 0 });
    assert_eq!(internal(r), "Clock out of range");
    let stored: i64 = db
        .with_conn(|conn| {
            conn.query_row("SELECT COUNT(*) FROM regattas", [], |row| row.get(0))
        })
        .unwrap();
    assert_eq!(stored, 0);
}

#[test]
fn settled_seed_answers_for_every_reading() {
    assert_eq!(settled_seed(Some(7)).unwrap(), 7);
    assert_eq!(settled_seed(Some(i64::MIN)).unwrap(), i64::MIN);
    assert_eq!(internal(settled_seed(None)), "Regatta seed missing after insert");
}

#[test]
fn store_failure_is_a_storage_error() {
    let mut db = Db::open_in_memory().unwrap();
    db.with_conn(|conn| conn.execute_batch("DROP TABLE runs; DROP TABLE regattas;")).unwrap();
    let e = submit_run(&mut db, run(1, "a")).unwrap_err();
    assert_eq!(e.kind(), ErrorKind::Storage);
    assert!(matches!(get_leaderboard(&mut db, "global", None, 5), Err(AppError::Db(_))));
    assert!(matches!(get_ghost_tape(&mut db, "x"), Err(AppError::Db(_))));
    let r = get_or_create_regatta_at(&mut db, Instant { secs: 1704283200, nanos: 0 });
    assert!(matches!(r, Err(AppError::Db(_))));
}

#[test]
fn duplicate_identifier_is_a_storage_error() {
    let mut db = Db::open_in_memory().unwrap();
    submit_run_at(&mut db, run(1, "a"), "same".into(), "2024-W01".into()).unwrap();
    let again = submit_run_at(&mut db, run(2, "b"), "same".into(), "2024-W01".into());
    assert!(matches!(again, Err(AppError::Db(_))));
    assert_eq!(get_leaderboard(&mut db, "global", None, 5).unwrap().len(), 1);
}

#[test]
fn new_run_takes_the_checked_fields() {
    let mut r = run(9, "  raw name ");
    r.victory = true;
    r.ghost_tape = Some("AAEC".into());
    let checked = check_submission(&r).unwrap();
    let stored = new_run(r, checked, "id-7".into(), "2024-W09".into());
    assert_eq!(stored.id, "id-7");
    assert_eq!(stored.week_key, "2024-W09");
    assert_eq!(stored.player_name, "raw name");
    assert_eq!(stored.ghost_tape, Some(vec![0, 1, 2]));
    assert_eq!(stored.seed, 12345);
    assert_eq!(stored.ship_class, "sloop");
    assert_eq!(stored.doctrine_id, "plunder");
    assert_eq!(stored.score, 9);
    assert_eq!(stored.waves, 10);
    assert!(stored.victory);
    assert_eq!(stored.ships_destroyed, 15);
    assert_eq!(stored.damage_dealt, 3000);
    assert_eq!(stored.max_combo, 5);
    assert_eq!(stored.time_played, Value::Real(600.0));
    assert_eq!(stored.max_heat, Value::Real(45.0));
}

#[test]
fn persisted_run_is_stored_as_it_is() {
    let mut db = Db::open_in_memory().unwrap();
    let mut r = run(9, "n");
    r.victory = true;
    let checked = check_submission(&r).unwrap();
    let res = persist_run(&mut db, new_run(r, checked, "id-7".into(), "2024-W09".into())).unwrap();
    assert_eq!(res.id, "id-7");
    assert_eq!(res.rank, 1);
    let stored: (i64, i64, i64, String, Option<Vec<u8>>, f64) = db
        .with_conn(|conn| {
            conn.query_row(
                "SELECT seed, victory, damage_dealt, week_key, ghost_tape, max_heat FROM runs",
                [],
                |row| {
                    Ok((
                        row.get(0)?,
                        row.get(1)?,
                        row.get(2)?,
                        row.get(3)?,
                        row.get(4)?,
                        row.get(5)?,
                    ))
                },
            )
        })
        .unwrap();
    assert_eq!(stored, (12345, 1, 3000, "2024-W09".to_string(), None, 45.0));
}

#[test]
fn regatta_seed_is_derived_once_and_then_read() {
    let mut db = Db::open_in_memory().unwrap();
    let first = regatta_seed_for(&mut db, "2023-W52").unwrap();
    assert_eq!(first, 8969746372783947000);
    db.with_conn(|conn| conn.execute("UPDATE regattas SET seed = 7", ())).unwrap();
    assert_eq!(regatta_seed_for(&mut db, "2023-W52").unwrap(), 7);
    assert_eq!(regatta_seed_for(&mut db, "2020-W53").unwrap(), 4093436314960702155);
}

#[test]
fn list_runs_filters_by_week_and_seed() {
    let mut db = Db::open_in_memory().unwrap();
    submit(&mut db, "a", "2024-W01", 1, 500);
    submit(&mut db, "b", "2024-W01", 2, 300);
    submit(&mut db, "c", "2024-W02", 1, 400);
    let ids = |board: Vec<booty_hunt::models::ghost_fleet::LeaderboardEntry>| -> Vec<String> {
        board.into_iter().map(|e| e.id).collect()
    };
    assert_eq!(ids(list_runs(&mut db, None, None, 10).unwrap()), vec!["a", "c", "b"]);
    assert_eq!(ids(list_runs(&mut db, Some("2024-W01"), None, 10).unwrap()), vec!["a", "b"]);
    assert_eq!(ids(list_runs(&mut db, None, Some(1), 10).unwrap()), vec!["a", "c"]);
    assert_eq!(ids(list_runs(&mut db, Some("2024-W01"), Some(1), 10).unwrap()), vec!["a"]);
    assert_eq!(ids(list_runs(&mut db, Some("2024-W02"), Some(2), 10).unwrap()).len(), 0);
    assert_eq!(ids(list_runs(&mut db, None, None, 2).unwrap()), vec!["a", "c"]);
    assert!(list_runs(&mut db, None, None, 0).unwrap().is_empty());
}

#[test]
fn entry_reads_victory_from_the_stored_number() {
    assert!(entry_from_row(row("a", 1, 1)).victory);
    assert!(entry_from_row(row("a", 1, -4)).victory);
    assert!(!entry_from_row(row("a", 1, 0)).victory);
}
