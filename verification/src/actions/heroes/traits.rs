//! What every hero handler offers to the dispatcher.

use vstd::prelude::*;
use crate::actions::store::TriggerStore;
use crate::config::settings::Settings;
use crate::input::simulation::InputAction;
use crate::models::gsi_event::GsiWebhookEvent;

verus! {

/// A hero handler. The dispatcher hands it every snapshot of its hero, after
/// the shared detectors were brought up to date, and the manual trigger.
pub trait HeroScript {
    /// Reacts to a snapshot. Answers the input steps to perform.
    fn handle_gsi_event(
        &mut self,
        event: &GsiWebhookEvent,
        settings: &Settings,
        store: &mut TriggerStore,
        now_ms: u64,
    ) -> Vec<InputAction>;

    /// Reacts to the manual trigger. Answers the input steps to perform.
    fn handle_standalone_trigger(
        &mut self,
        settings: &Settings,
        store: &mut TriggerStore,
        now_ms: u64,
    ) -> Vec<InputAction>;

    /// The name under which the game reports the hero.
    fn hero_name(&self) -> &'static str;
}

} // verus!
