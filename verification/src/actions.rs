//! The automated behaviours: shared detectors, triggers and hero handlers.

pub mod auto_items;
pub mod bottle_optimization;
pub mod combo;
pub mod common;
pub mod danger_detector;
pub mod dispatcher;
pub mod dispel;
pub mod heroes;
pub mod power_treads;
pub mod soul_ring;
pub mod store;
