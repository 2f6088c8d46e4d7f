//! The vocabulary of simulated input and of keys that can be listened for.

pub mod keyboard;
pub mod simulation;
