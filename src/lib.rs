//! Reachability monitoring: a per-endpoint status state machine, the monitors
//! that own one each together with the samples it has seen, and the parsing
//! of their settings.

pub mod clock;
pub mod config;
pub mod monitor;
pub mod state;
pub mod terminal;
