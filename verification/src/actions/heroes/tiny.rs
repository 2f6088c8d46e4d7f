//! Tiny: the blink and toss combo.

use vstd::prelude::*;
use crate::actions::combo::{
    combo_plan,
    push_steps,
    ring_after_steps,
    run_combo,
    ComboAction,
    ComboStep,
};
use crate::actions::common::{defensive_plan, healing_plan, SurvivabilityActions};
use crate::actions::heroes::legion_commander::repeated;
use crate::actions::heroes::traits::HeroScript;
use crate::actions::soul_ring::SoulRingState;
use crate::actions::store::TriggerStore;
use crate::config::settings::Settings;
use crate::input::simulation::InputAction;
use crate::models::gsi_event::GsiWebhookEvent;
use crate::models::heroes::Hero;
use crate::models::items::Item;

verus! {

/// The handler of Tiny.
#[derive(Debug)]
pub struct TinyScript {
    /// The latest snapshot of the hero.
    pub last_event: Option<GsiWebhookEvent>,
}

/// The combo of Tiny.
///
/// The blink, when carried off cooldown; the avalanche four times, the first time
/// through the ring; the toss four times, and time for the flight; the tree
/// grab three times.
pub open spec fn tiny_combo() -> Seq<ComboStep> {
    seq![
        ComboStep { action: ComboAction::UseItem(Item::Blink), wait_ms: 100 },
        ComboStep { action: ComboAction::PressKeyWithRing('w'), wait_ms: 30 },
        ComboStep { action: ComboAction::PressKey('w'), wait_ms: 30 },
        ComboStep { action: ComboAction::PressKey('w'), wait_ms: 30 },
        ComboStep { action: ComboAction::PressKey('w'), wait_ms: 50 },
    ] + repeated(ComboAction::PressKey('q'), 30, 3) + seq![
        ComboStep { action: ComboAction::PressKey('q'), wait_ms: 1430 },
    ] + repeated(ComboAction::PressKey('d'), 30, 3)
}

/// The steps of the combo.
pub fn tiny_combo_steps() -> (r: Vec<ComboStep>)
    ensures
        r@ == tiny_combo(),
{
    let mut steps: Vec<ComboStep> = Vec::new();
    steps.push(ComboStep { action: ComboAction::UseItem(Item::Blink), wait_ms: 100 });
    steps.push(ComboStep { action: ComboAction::PressKeyWithRing('w'), wait_ms: 30 });
    steps.push(ComboStep { action: ComboAction::PressKey('w'), wait_ms: 30 });
    steps.push(ComboStep { action: ComboAction::PressKey('w'), wait_ms: 30 });
    steps.push(ComboStep { action: ComboAction::PressKey('w'), wait_ms: 50 });
    push_steps(&mut steps, ComboAction::PressKey('q'), 30, 3);
    steps.push(ComboStep { action: ComboAction::PressKey('q'), wait_ms: 1430 });
    push_steps(&mut steps, ComboAction::PressKey('d'), 30, 3);
    steps
}

impl TinyScript {
    pub fn new() -> (r: Self)
        ensures
            r.last_event is None,
    {
        TinyScript { last_event: None }
    }

    /// Performs the combo against a snapshot.
    pub fn execute_combo(
        &self,
        event: &GsiWebhookEvent,
        ring: &mut SoulRingState,
        settings: &Settings,
        now_ms: u64,
    ) -> (steps: Vec<InputAction>)
        ensures
            steps@ == combo_plan(
                tiny_combo(),
                tiny_combo().len() as int,
                event.items,
                old(ring)@,
                *settings,
                now_ms,
            ),
            final(ring)@ == ring_after_steps(
                tiny_combo(),
                tiny_combo().len() as int,
                old(ring)@,
                *settings,
                now_ms,
            ),
    {
        let combo = tiny_combo_steps();
        run_combo(&combo, &event.items, ring, settings, now_ms)
    }
}

impl HeroScript for TinyScript {
    /// Remembers the snapshot for the combo, heals and defends.
    fn handle_gsi_event(
        &mut self,
        event: &GsiWebhookEvent,
        settings: &Settings,
        store: &mut TriggerStore,
        now_ms: u64,
    ) -> (steps: Vec<InputAction>)
        ensures
            final(self).last_event == Some(*event),
            steps@ == healing_plan(*event, *settings, old(store).in_danger()) + defensive_plan(
                *event,
                *settings,
                old(store).in_danger(),
            ),
            *final(store) == *old(store),
    {
        self.last_event = Some(event.duplicate());
        let in_danger = crate::actions::danger_detector::is_in_danger(&store.danger);
        let survivability = SurvivabilityActions::new(settings);
        let mut plan = survivability.check_and_use_healing_items(event, in_danger);
        let mut defence = survivability.use_defensive_items_if_danger(event, in_danger);
        plan.append(&mut defence);
        plan
    }

    /// Performs the combo against the latest snapshot. Without a snapshot
    /// nothing is pressed.
    fn handle_standalone_trigger(
        &mut self,
        settings: &Settings,
        store: &mut TriggerStore,
        now_ms: u64,
    ) -> (steps: Vec<InputAction>)
        ensures
            final(self).last_event == old(self).last_event,
            match old(self).last_event {
                Some(event) => {
                    &&& steps@ == combo_plan(
                        tiny_combo(),
                        tiny_combo().len() as int,
                        event.items,
                        old(store).soul_ring@,
                        *settings,
                        now_ms,
                    )
                    &&& final(store).soul_ring@ == ring_after_steps(
                        tiny_combo(),
                        tiny_combo().len() as int,
                        old(store).soul_ring@,
                        *settings,
                        now_ms,
                    )
                },
                None => steps@.len() == 0 && final(store).soul_ring@ == old(store).soul_ring@,
            },
            final(store).danger == old(store).danger,
            final(store).armlet == old(store).armlet,
            final(store).power_treads == old(store).power_treads,
            final(store).bottle == old(store).bottle,
            final(store).dispel_triggered == old(store).dispel_triggered,
            final(store).latest_event == old(store).latest_event,
    {
        match &self.last_event {
            Some(event) => self.execute_combo(event, &mut store.soul_ring, settings, now_ms),
            None => Vec::new(),
        }
    }

    fn hero_name(&self) -> (r: &'static str)
        ensures
            r@ == Hero::Tiny.game_name(),
    {
        Hero::Tiny.to_game_name()
    }
}

} // verus!
