//! The game-state snapshot that every decision starts from, and the heroes
//! and items that the rules know by name.

pub mod gsi_event;
pub mod heroes;
pub mod items;
