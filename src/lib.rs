//! Aggregation and classification of service-manager unit state.
//!
//! The library folds an enumeration of unit records into a statistics report:
//! counters per unit type, load state, active state and queued jobs, plus an
//! optional per-unit health classification filtered by allow and block lists.

pub mod name_map;
pub mod text;
pub mod units;
