//! The handle to the store.

use vstd::prelude::*;
use crate::journal::{text_view, Exchange, FireRecord, OmenRecord, SampleRecord};
use crate::store;
use crate::store::{FireRow, NewRun, OmenRow, RunRow};

verus! {

/// Settings sent to the store when a database file is opened.
pub const PRAGMAS: &'static str = "PRAGMA journal_mode=WAL; PRAGMA busy_timeout=5000;";

/// The tables that the library keeps.
pub const SCHEMA: &'static str = "\
    CREATE TABLE IF NOT EXISTS runs (\
        id TEXT PRIMARY KEY, \
        seed INTEGER NOT NULL, \
        ship_class TEXT NOT NULL, \
        doctrine_id TEXT NOT NULL, \
        score INTEGER NOT NULL, \
        waves INTEGER NOT NULL, \
        victory INTEGER NOT NULL, \
        ships_destroyed INTEGER NOT NULL, \
        damage_dealt INTEGER NOT NULL, \
        max_combo INTEGER NOT NULL, \
        time_played REAL NOT NULL, \
        max_heat REAL NOT NULL, \
        ghost_tape BLOB, \
        player_name TEXT NOT NULL, \
        week_key TEXT NOT NULL, \
        created_at TEXT NOT NULL DEFAULT (datetime('now'))); \
    CREATE INDEX IF NOT EXISTS idx_runs_score ON runs (score DESC); \
    CREATE INDEX IF NOT EXISTS idx_runs_week ON runs (week_key, score DESC); \
    CREATE INDEX IF NOT EXISTS idx_runs_seed ON runs (seed, score DESC); \
    CREATE TABLE IF NOT EXISTS regattas (\
        week_key TEXT PRIMARY KEY, \
        seed INTEGER NOT NULL, \
        created_at TEXT NOT NULL DEFAULT (datetime('now'))); \
    CREATE TABLE IF NOT EXISTS signal_fires (\
        code TEXT PRIMARY KEY, \
        creator_run TEXT NOT NULL, \
        aid_type TEXT NOT NULL, \
        aid_amount INTEGER NOT NULL, \
        heat_cost REAL NOT NULL, \
        expires_at TEXT NOT NULL, \
        redeemed INTEGER NOT NULL DEFAULT 0, \
        redeemed_at TEXT, \
        created_at TEXT NOT NULL DEFAULT (datetime('now'))); \
    CREATE TABLE IF NOT EXISTS tide_omens (\
        week_key TEXT PRIMARY KEY, \
        omen_id TEXT NOT NULL, \
        omen_name TEXT NOT NULL, \
        modifiers TEXT NOT NULL, \
        created_at TEXT NOT NULL DEFAULT (datetime('now'))); \
    CREATE TABLE IF NOT EXISTS tide_contributions (\
        id TEXT PRIMARY KEY, \
        week_key TEXT NOT NULL, \
        metric TEXT NOT NULL, \
        value REAL NOT NULL, \
        created_at TEXT NOT NULL DEFAULT (datetime('now'))); \
    CREATE INDEX IF NOT EXISTS idx_tide_week ON tide_contributions (week_key);";

/// The single handle to the store. Whoever holds it mutably has the store to
/// itself for as long as it does: an operation that reads and then writes
/// takes it so, once, for all of its steps. The handle keeps the journal of
/// what passed through it, and knows where its store was opened.
pub struct Db {
    conn: rusqlite::Connection,
    journal: Ghost<Seq<Exchange>>,
    origin: Ghost<Option<Seq<char>>>,
}

impl Db {
    /// The connection behind the handle.
    pub closed spec fn connection(&self) -> rusqlite::Connection {
        self.conn
    }

    /// The statements sent to the store through this handle, first to last,
    /// each with its answer.
    pub closed spec fn journal(&self) -> Seq<Exchange> {
        self.journal@
    }

    /// Whether this handle is a later state of an earlier one: its journal
    /// opens with the journal of the earlier.
    pub open spec fn extends(&self, earlier: Db) -> bool {
        earlier.journal().len() <= self.journal().len()
            && self.journal().take(earlier.journal().len() as int) == earlier.journal()
    }

    /// The exchanges that this handle has had since an earlier state of it.
    pub open spec fn since(&self, earlier: Db) -> Seq<Exchange> {
        self.journal().skip(earlier.journal().len() as int)
    }

    /// Opens the database file at a path and makes sure that the tables exist.
    pub fn open(path: &str) -> (r: Result<Db, rusqlite::Error>)
        ensures
            r matches Ok(db) ==> db.journal() == seq![
                Exchange::Batch { sql: PRAGMAS@, answer: Ok(()) },
                Exchange::Batch { sql: SCHEMA@, answer: Ok(()) },
            ],
            r matches Ok(db) ==> db.origin() == Some(path@),
    {
        // The store decides at every step: whether the file opens, and whether
        // each batch runs. The first failure is the answer. What is sent to
        // the store, and what is made of each of its answers, is stated by
        // `from_opened` and `set_up`.
        let opened = store::open_connection(path);
        let mut db = match Db::from_opened(opened, Some(path)) {
            Ok(db) => db,
            Err(e) => {
                return Err(e);
            },
        };
        let ghost fresh = db;
        let done = db.set_up(true);
        proof {
            let sent = db.since(fresh);
            assert(db.journal() =~= sent);
            if done is Ok {
                Db::lemma_batch_ran(sent[0], PRAGMAS@);
                Db::lemma_batch_ran(sent[1], SCHEMA@);
                assert(sent =~= seq![sent[0], sent[1]]);
            }
        }
        match done {
            Ok(()) => Ok(db),
            Err(e) => {
                return Err(e);
            },
        }
    }

    /// Opens a database in memory with the tables in place.
    pub fn open_in_memory() -> (r: Result<Db, rusqlite::Error>)
        ensures
            r matches Ok(db) ==> db.journal() == seq![
                Exchange::Batch { sql: SCHEMA@, answer: Ok(()) },
            ],
            r matches Ok(db) ==> db.origin() is None,
    {
        let opened = store::open_connection_in_memory();
        let mut db = match Db::from_opened(opened, None) {
            Ok(db) => db,
            Err(e) => {
                return Err(e);
            },
        };
        let ghost fresh = db;
        let done = db.set_up(false);
        proof {
            assert(db.journal() =~= db.since(fresh));
            if done is Ok {
                Db::lemma_batch_ran(db.journal()[0], SCHEMA@);
                assert(db.journal() =~= seq![db.journal()[0]]);
            }
        }
        match done { Ok(()) => Ok(db), Err(e) => Err(e) }
    }

    /// A batch that the store ran without failure is that batch, answered
    /// with nothing.
    pub proof fn lemma_batch_ran(exchange: Exchange, sql: Seq<char>)
        requires
            exchange matches Exchange::Batch { sql: sent, answer } && sent == sql && answer is Ok,
        ensures
            exchange == (Exchange::Batch { sql, answer: Ok(()) }),
    {
        let nothing = exchange->Batch_answer->Ok_0;
        assert(nothing == ());
    }

    /// Where the store behind the handle was opened: at the path of a
    /// database file, or in memory.
    pub closed spec fn origin(&self) -> Option<Seq<char>> {
        self.origin@
    }

    /// What is made of the answer to the opening of a store: a handle on the
    /// connection that has sent nothing yet, or the failure.
    pub fn from_opened(
        opened: Result<rusqlite::Connection, rusqlite::Error>,
        path: Option<&str>,
    ) -> (r: Result<Db, rusqlite::Error>)
        ensures
            match opened {
                Ok(conn) => r is Ok && r->Ok_0.connection() == conn && r->Ok_0.journal()
                    == Seq::<Exchange>::empty() && r->Ok_0.origin() == text_view(path),
                Err(e) => r == Err::<Db, rusqlite::Error>(e),
            },
    {
        match opened {
            Ok(conn) => {
                let journal = Ghost(Seq::empty());
                let origin = Ghost(text_view(path));
                Ok(Db { conn, journal, origin })
            },
            Err(e) => Err(e),
        }
    }

    /// Sends statements without parameters to the store.
    pub(crate) fn run_batch(&mut self, sql: &str) -> (answer: Result<(), rusqlite::Error>)
        ensures
            final(self).journal() == old(self).journal().push(
                Exchange::Batch { sql: sql@, answer },
            ),
            final(self).origin() == old(self).origin(),
    {
        let answer = store::run_batch(&mut self.conn, sql);
        self.journal = Ghost(self.journal@.push(Exchange::Batch { sql: sql@, answer }));
        answer
    }

    /// What passes between library and store when a store is set up, and
    /// what comes of it. A database file is sent the settings first; where
    /// the store fails on them, that is the answer, and no more is sent.
    /// Then the store is sent the tables, and its answer is the answer.
    pub open spec fn set_up_done(
        with_settings: bool,
        exchanges: Seq<Exchange>,
        r: Result<(), rusqlite::Error>,
    ) -> bool {
        if with_settings {
            &&& exchanges.len() >= 1
            &&& exchanges[0] matches Exchange::Batch { sql, answer: settings }
            &&& sql == PRAGMAS@
            &&& match settings {
                Err(e) => exchanges.len() == 1 && r == Err::<(), rusqlite::Error>(e),
                Ok(()) => {
                    &&& exchanges.len() == 2
                    &&& exchanges[1] matches Exchange::Batch { sql: second, answer: tables }
                    &&& second == SCHEMA@
                    &&& r == tables
                },
            }
        } else {
            &&& exchanges.len() == 1
            &&& exchanges[0] matches Exchange::Batch { sql, answer: tables }
            &&& sql == SCHEMA@
            &&& r == tables
        }
    }

    /// Sets the store up: sends the settings of a database file, where they
    /// are asked for, and the tables that the library keeps.
    pub fn set_up(&mut self, with_settings: bool) -> (r: Result<(), rusqlite::Error>)
        ensures
            final(self).extends(*old(self)),
            Db::set_up_done(with_settings, final(self).since(*old(self)), r),
            final(self).origin() == old(self).origin(),
    {
        if with_settings {
            let settings = self.run_batch(PRAGMAS);
            let ghost first = Exchange::Batch { sql: PRAGMAS@, answer: settings };
            proof {
                assert(self.journal().take(old(self).journal().len() as int) =~= old(
                    self,
                ).journal());
                assert(self.since(*old(self)) =~= seq![first]);
            }
            match settings {
                Ok(()) => {},
                Err(e) => {
                    return Err(e);
                },
            }
            let tables = self.run_batch(SCHEMA);
            proof {
                let second = Exchange::Batch { sql: SCHEMA@, answer: tables };
                assert(self.journal().take(old(self).journal().len() as int) =~= old(
                    self,
                ).journal());
                assert(self.since(*old(self)) =~= seq![first, second]);
            }
            tables
        } else {
            let tables = self.run_batch(SCHEMA);
            proof {
                let only = Exchange::Batch { sql: SCHEMA@, answer: tables };
                assert(self.journal().take(old(self).journal().len() as int) =~= old(
                    self,
                ).journal());
                assert(self.since(*old(self)) =~= seq![only]);
            }
            tables
        }
    }

    /// Runs a function on the connection and hands back what it returns.
    /// What such a function sends to the store is its own affair and not in
    /// the journal.
    pub fn with_conn<F, T>(&self, f: F) -> (r: Result<T, rusqlite::Error>) where
        F: FnOnce(&rusqlite::Connection) -> Result<T, rusqlite::Error>,

        requires
            f.requires((&self.connection(),)),
        ensures
            f.ensures((&self.connection(),), r),
    {
        f(&self.conn)
    }

    /// Asks the store to keep a run.
    pub(crate) fn insert_run(&mut self, run: &NewRun) -> (answer: Result<usize, rusqlite::Error>)
        ensures
            final(self).journal() == old(self).journal().push(
                Exchange::RunInsert { run: run.record(), answer },
            ),
    {
        let answer = store::insert_run(&mut self.conn, run);
        self.journal = Ghost(
            self.journal@.push(Exchange::RunInsert { run: run.record(), answer }),
        );
        answer
    }

    /// Asks the store how many runs score strictly more than a score.
    pub(crate) fn count_runs_above(&mut self, score: i64) -> (answer: Result<i64, rusqlite::Error>)
        ensures
            final(self).journal() == old(self).journal().push(Exchange::RunCount { score, answer }),
    {
        let answer = store::count_runs_above(&self.conn, score);
        self.journal = Ghost(self.journal@.push(Exchange::RunCount { score, answer }));
        answer
    }

    /// Asks the store for the best runs of a week, of a seed, of both or of
    /// neither.
    pub(crate) fn select_top_runs(
        &mut self,
        week_key: Option<&str>,
        seed: Option<i64>,
        limit: i64,
    ) -> (answer: Result<Vec<RunRow>, rusqlite::Error>)
        ensures
            final(self).journal() == old(self).journal().push(
                Exchange::RunList { week_key: text_view(week_key), seed, limit, answer },
            ),
    {
        let answer = store::select_top_runs(&self.conn, week_key, seed, limit);
        self.journal = Ghost(
            self.journal@.push(
                Exchange::RunList { week_key: text_view(week_key), seed, limit, answer },
            ),
        );
        answer
    }

    /// Asks the store for the ghost tape of a run.
    pub(crate) fn select_ghost_tape(&mut self, run_id: &str) -> (answer: Result<
        Option<Option<Vec<u8>>>,
        rusqlite::Error,
    >)
        ensures
            final(self).journal() == old(self).journal().push(
                Exchange::TapeRead { run_id: run_id@, answer },
            ),
    {
        let answer = store::select_ghost_tape(&self.conn, run_id);
        self.journal = Ghost(self.journal@.push(Exchange::TapeRead { run_id: run_id@, answer }));
        answer
    }

    /// Asks the store for the regatta seed of a week.
    pub(crate) fn select_regatta_seed(&mut self, week_key: &str) -> (answer: Result<
        Option<i64>,
        rusqlite::Error,
    >)
        ensures
            final(self).journal() == old(self).journal().push(
                Exchange::SeedRead { week_key: week_key@, answer },
            ),
    {
        let answer = store::select_regatta_seed(&self.conn, week_key);
        self.journal = Ghost(
            self.journal@.push(Exchange::SeedRead { week_key: week_key@, answer }),
        );
        answer
    }

    /// Asks the store to keep a regatta seed for a week unless the week has
    /// one.
    pub(crate) fn insert_regatta_if_absent(&mut self, week_key: &str, seed: i64) -> (answer:
        Result<usize, rusqlite::Error>)
        ensures
            final(self).journal() == old(self).journal().push(
                Exchange::SeedOffer { week_key: week_key@, seed, answer },
            ),
    {
        let answer = store::insert_regatta_if_absent(&mut self.conn, week_key, seed);
        self.journal = Ghost(
            self.journal@.push(Exchange::SeedOffer { week_key: week_key@, seed, answer }),
        );
        answer
    }

    /// Asks the store to keep a signal fire.
    pub(crate) fn insert_signal_fire(
        &mut self,
        code: &str,
        creator_run: &str,
        aid_type: &str,
        aid_amount: i64,
        heat_cost: i64,
        expires_at: &str,
    ) -> (answer: Result<usize, rusqlite::Error>)
        ensures
            final(self).journal() == old(self).journal().push(
                Exchange::FireInsert {
                    fire: FireRecord {
                        code: code@,
                        creator_run: creator_run@,
                        aid_type: aid_type@,
                        aid_amount,
                        heat_cost,
                        expires_at: expires_at@,
                    },
                    answer,
                },
            ),
    {
        let answer = store::insert_signal_fire(
            &mut self.conn,
            code,
            creator_run,
            aid_type,
            aid_amount,
            heat_cost,
            expires_at,
        );
        self.journal = Ghost(
            self.journal@.push(
                Exchange::FireInsert {
                    fire: FireRecord {
                        code: code@,
                        creator_run: creator_run@,
                        aid_type: aid_type@,
                        aid_amount,
                        heat_cost,
                        expires_at: expires_at@,
                    },
                    answer,
                },
            ),
        );
        answer
    }

    /// Asks the store for the signal fire of a code.
    pub(crate) fn select_signal_fire(&mut self, code: &str) -> (answer: Result<
        Option<FireRow>,
        rusqlite::Error,
    >)
        ensures
            final(self).journal() == old(self).journal().push(
                Exchange::FireRead { code: code@, answer },
            ),
    {
        let answer = store::select_signal_fire(&self.conn, code);
        self.journal = Ghost(self.journal@.push(Exchange::FireRead { code: code@, answer }));
        answer
    }

    /// Asks the store to mark the signal fire of a code as redeemed if it is
    /// still active and still carries the expiry given.
    pub(crate) fn mark_signal_fire_redeemed(&mut self, code: &str, expires_at: &str) -> (answer:
        Result<usize, rusqlite::Error>)
        ensures
            final(self).journal() == old(self).journal().push(
                Exchange::FireRedeem { code: code@, expires_at: expires_at@, answer },
            ),
    {
        let answer = store::mark_signal_fire_redeemed(&mut self.conn, code, expires_at);
        self.journal = Ghost(
            self.journal@.push(
                Exchange::FireRedeem { code: code@, expires_at: expires_at@, answer },
            ),
        );
        answer
    }

    /// Asks the store for the tide omen of a week.
    pub(crate) fn select_tide_omen(&mut self, week_key: &str) -> (answer: Result<
        Option<OmenRow>,
        rusqlite::Error,
    >)
        ensures
            final(self).journal() == old(self).journal().push(
                Exchange::OmenRead { week_key: week_key@, answer },
            ),
    {
        let answer = store::select_tide_omen(&self.conn, week_key);
        self.journal = Ghost(
            self.journal@.push(Exchange::OmenRead { week_key: week_key@, answer }),
        );
        answer
    }

    /// Asks the store to keep a tide omen for a week unless the week has one.
    pub(crate) fn insert_tide_omen_if_absent(
        &mut self,
        week_key: &str,
        omen_id: &str,
        omen_name: &str,
        modifiers: &str,
    ) -> (answer: Result<usize, rusqlite::Error>)
        ensures
            final(self).journal() == old(self).journal().push(
                Exchange::OmenOffer {
                    omen: OmenRecord {
                        week_key: week_key@,
                        omen_id: omen_id@,
                        omen_name: omen_name@,
                        modifiers: modifiers@,
                    },
                    answer,
                },
            ),
    {
        let answer = store::insert_tide_omen_if_absent(
            &mut self.conn,
            week_key,
            omen_id,
            omen_name,
            modifiers,
        );
        self.journal = Ghost(
            self.journal@.push(
                Exchange::OmenOffer {
                    omen: OmenRecord {
                        week_key: week_key@,
                        omen_id: omen_id@,
                        omen_name: omen_name@,
                        modifiers: modifiers@,
                    },
                    answer,
                },
            ),
        );
        answer
    }

    /// Asks the store to append a tide contribution.
    pub(crate) fn insert_tide_contribution(
        &mut self,
        id: &str,
        week_key: &str,
        metric: &str,
        value: &rusqlite::types::Value,
    ) -> (answer: Result<usize, rusqlite::Error>)
        ensures
            final(self).journal() == old(self).journal().push(
                Exchange::SampleInsert {
                    sample: SampleRecord {
                        id: id@,
                        week_key: week_key@,
                        metric: metric@,
                        value: *value,
                    },
                    answer,
                },
            ),
    {
        let answer = store::insert_tide_contribution(&mut self.conn, id, week_key, metric, value);
        self.journal = Ghost(
            self.journal@.push(
                Exchange::SampleInsert {
                    sample: SampleRecord {
                        id: id@,
                        week_key: week_key@,
                        metric: metric@,
                        value: *value,
                    },
                    answer,
                },
            ),
        );
        answer
    }
}

} // verus!
