//! Configuration of the automated behaviours.

pub mod settings;
