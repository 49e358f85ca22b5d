//! The operations of the library, one module for each ledger.

pub mod ghost_fleet;
pub mod signal_fire;
pub mod tide_calendar;
