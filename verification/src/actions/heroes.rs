//! One handler per supported hero.

pub mod broodmother;
pub mod huskar;
pub mod largo;
pub mod legion_commander;
pub mod shadow_fiend;
pub mod tinker;
pub mod tiny;
pub mod traits;
