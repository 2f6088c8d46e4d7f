//! Shadow Fiend: razes that are cast in the direction of the cursor.

use vstd::prelude::*;
use crate::actions::common::{defensive_plan, healing_plan, SurvivabilityActions};
use crate::actions::heroes::traits::HeroScript;
use crate::actions::store::TriggerStore;
use crate::config::settings::Settings;
use crate::input::simulation::InputAction;
use crate::models::gsi_event::GsiWebhookEvent;
use crate::models::heroes::Hero;

verus! {

/// The raze sequence.
#[derive(Debug, Clone, Copy, PartialEq, Eq, Structural)]
pub struct ShadowFiendState;

/// The steps of a raze: with ALT held, a right click turns the hero towards
/// the cursor; after the configured delay the raze key is pressed.
pub open spec fn raze_plan(raze_key: char, settings: Settings) -> Seq<InputAction> {
    seq![
        InputAction::Wait(50),
        InputAction::AltDown,
        InputAction::RightClick,
        InputAction::Wait(50),
        InputAction::AltUp,
        InputAction::Wait(settings.heroes.shadow_fiend.raze_delay_ms),
        InputAction::PressKey(raze_key),
    ]
}

impl ShadowFiendState {
    /// Plans a raze in the direction of the cursor.
    pub fn execute_raze(raze_key: char, settings: &Settings) -> (steps: Vec<InputAction>)
        ensures
            steps@ == raze_plan(raze_key, *settings),
    {
        let mut plan: Vec<InputAction> = Vec::new();
        plan.push(InputAction::Wait(50));
        plan.push(InputAction::AltDown);
        plan.push(InputAction::RightClick);
        plan.push(InputAction::Wait(50));
        plan.push(InputAction::AltUp);
        plan.push(InputAction::Wait(settings.heroes.shadow_fiend.raze_delay_ms));
        plan.push(InputAction::PressKey(raze_key));
        plan
    }
}

/// The handler of Shadow Fiend.
#[derive(Debug)]
pub struct ShadowFiendScript {}

impl ShadowFiendScript {
    pub fn new() -> (r: Self) {
        ShadowFiendScript {  }
    }
}

impl HeroScript for ShadowFiendScript {
    /// Heals and defends.
    fn handle_gsi_event(
        &mut self,
        event: &GsiWebhookEvent,
        settings: &Settings,
        store: &mut TriggerStore,
        now_ms: u64,
    ) -> (steps: Vec<InputAction>)
        ensures
            steps@ == healing_plan(*event, *settings, old(store).in_danger()) + defensive_plan(
                *event,
                *settings,
                old(store).in_danger(),
            ),
            *final(store) == *old(store),
    {
        let in_danger = crate::actions::danger_detector::is_in_danger(&store.danger);
        let survivability = SurvivabilityActions::new(settings);
        let mut plan = survivability.check_and_use_healing_items(event, in_danger);
        let mut defence = survivability.use_defensive_items_if_danger(event, in_danger);
        plan.append(&mut defence);
        plan
    }

    /// The razes have their own keys: the manual trigger presses nothing.
    fn handle_standalone_trigger(
        &mut self,
        settings: &Settings,
        store: &mut TriggerStore,
        now_ms: u64,
    ) -> (steps: Vec<InputAction>)
        ensures
            steps@.len() == 0,
            *final(store) == *old(store),
    {
        Vec::new()
    }

    fn hero_name(&self) -> (r: &'static str)
        ensures
            r@ == Hero::Nevermore.game_name(),
    {
        Hero::Nevermore.to_game_name()
    }
}

} // verus!
