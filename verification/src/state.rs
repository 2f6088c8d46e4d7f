//! What the program shows and lets the player switch.

pub mod app_state;
