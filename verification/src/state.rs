//! The persisted records: the global configuration and the per-round ledger.

pub mod config;
pub mod game_round;
