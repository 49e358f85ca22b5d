//! The values that cross the library's boundary.

pub mod ghost_fleet;
pub mod signal_fire;
pub mod tide_calendar;
