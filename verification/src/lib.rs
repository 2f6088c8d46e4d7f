//! Decision and sequencing engine for timed, interruptible input automation.
//!
//! The library turns periodic game-state snapshots into ordered lists of
//! simulated input steps. Every decision function is a total function of its
//! arguments: the caller supplies the snapshot, the configuration and the
//! current reading of a monotonic millisecond clock, and receives the steps
//! to perform together with the updated trigger state.

pub mod text;
pub mod clock;
pub mod input;
pub mod models;
pub mod config;
pub mod actions;
pub mod state;
pub mod update;
pub mod capture_coords;

