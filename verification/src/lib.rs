//! Weekly rotation engine of the Booty Hunt game: run ranking, signal-fire
//! redemption and tide omens over one shared store.
//!
//! The store is a SQLite database behind `rusqlite`. What it answers is not
//! in the library's hands, so the contracts are written the other way
//! round. Every operation takes the store handle, and the handle keeps a
//! journal of the statements sent and the answers given. The contract of an
//! operation says which statements it sends, with which values, and what it
//! returns for each answer that may come.
//!
//! - `validation`, `text`: the rules that input is held to.
//! - `clock`: instants, weeks and week keys.
//! - `selector`: the digest of week key and domain tag; seed and omen index.
//! - `ranking`: ranks as mathematics.
//! - `store`, `db`, `journal`: the statements, the handle, the journal.
//! - `services`: the operations on runs, signal fires and tide omens.
//! - `model`: a store that does as it is asked, and what holds across calls
//!   if the store is one.
//! - `models`, `error`, `ids`: values, errors, identifiers.

pub mod clock;
pub mod db;
pub mod error;
pub mod ids;
pub mod journal;
pub mod model;
pub mod models;
pub mod ranking;
pub mod selector;
pub mod services;
pub mod store;
pub mod text;
pub mod validation;
