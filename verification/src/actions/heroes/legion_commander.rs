//! Legion Commander: the duel combo.

use vstd::prelude::*;
use crate::actions::combo::{
    combo_plan,
    push_steps,
    ring_after_steps,
    run_combo,
    ComboAction,
    ComboStep,
};
use crate::actions::common::{defensive_plan, healing_plan, SurvivabilityActions};
use crate::actions::heroes::traits::HeroScript;
use crate::actions::soul_ring::SoulRingState;
use crate::actions::store::TriggerStore;
use crate::config::settings::Settings;
use crate::input::simulation::InputAction;
use crate::models::gsi_event::GsiWebhookEvent;
use crate::models::heroes::Hero;
use crate::models::items::Item;

verus! {

/// The handler of Legion Commander, with the latest snapshot of the hero.
#[derive(Debug)]
pub struct LegionCommanderScript {
    pub last_event: Option<GsiWebhookEvent>,
}

/// `n` equal steps.
pub open spec fn repeated(action: ComboAction, wait_ms: u64, n: nat) -> Seq<ComboStep> {
    Seq::new(n, |i: int| ComboStep { action, wait_ms })
}

/// The duel combo.
///
/// The attack buff twice, the first time through the ring; the damage-return
/// mail, the lightning hammer and the immunity bar, twice each; the blink;
/// the silence, ten times against a spell block; the duel, six times; the
/// odds, six times. Every item step is skipped when the item is not carried
/// off cooldown.
pub open spec fn legion_combo() -> Seq<ComboStep> {
    seq![
        ComboStep { action: ComboAction::PressKeyWithRing('w'), wait_ms: 30 },
        ComboStep { action: ComboAction::PressKey('w'), wait_ms: 220 },
        ComboStep { action: ComboAction::UseItem(Item::BladeMail), wait_ms: 30 },
        ComboStep { action: ComboAction::UseItem(Item::BladeMail), wait_ms: 50 },
        ComboStep { action: ComboAction::UseItem(Item::Mjollnir), wait_ms: 30 },
        ComboStep { action: ComboAction::UseItem(Item::Mjollnir), wait_ms: 50 },
        ComboStep { action: ComboAction::UseItem(Item::BlackKingBar), wait_ms: 30 },
        ComboStep { action: ComboAction::UseItem(Item::BlackKingBar), wait_ms: 50 },
        ComboStep { action: ComboAction::UseItem(Item::Blink), wait_ms: 100 },
    ] + repeated(ComboAction::UseEither(Item::Orchid, Item::Bloodthorn), 30, 9) + seq![
        ComboStep { action: ComboAction::UseEither(Item::Orchid, Item::Bloodthorn), wait_ms: 80 },
    ] + repeated(ComboAction::PressKey('r'), 50, 6) + repeated(ComboAction::PressKey('q'), 50, 6)
}

/// The steps of the duel combo.
pub fn legion_combo_steps() -> (r: Vec<ComboStep>)
    ensures
        r@ == legion_combo(),
{
    let mut steps: Vec<ComboStep> = Vec::new();
    steps.push(ComboStep { action: ComboAction::PressKeyWithRing('w'), wait_ms: 30 });
    steps.push(ComboStep { action: ComboAction::PressKey('w'), wait_ms: 220 });
    steps.push(ComboStep { action: ComboAction::UseItem(Item::BladeMail), wait_ms: 30 });
    steps.push(ComboStep { action: ComboAction::UseItem(Item::BladeMail), wait_ms: 50 });
    steps.push(ComboStep { action: ComboAction::UseItem(Item::Mjollnir), wait_ms: 30 });
    steps.push(ComboStep { action: ComboAction::UseItem(Item::Mjollnir), wait_ms: 50 });
    steps.push(ComboStep { action: ComboAction::UseItem(Item::BlackKingBar), wait_ms: 30 });
    steps.push(ComboStep { action: ComboAction::UseItem(Item::BlackKingBar), wait_ms: 50 });
    steps.push(ComboStep { action: ComboAction::UseItem(Item::Blink), wait_ms: 100 });
    push_steps(&mut steps, ComboAction::UseEither(Item::Orchid, Item::Bloodthorn), 30, 9);
    steps.push(
        ComboStep { action: ComboAction::UseEither(Item::Orchid, Item::Bloodthorn), wait_ms: 80 },
    );
    push_steps(&mut steps, ComboAction::PressKey('r'), 50, 6);
    push_steps(&mut steps, ComboAction::PressKey('q'), 50, 6);
    steps
}

impl LegionCommanderScript {
    pub fn new() -> (r: Self)
        ensures
            r.last_event is None,
    {
        LegionCommanderScript { last_event: None }
    }

    /// Performs the duel combo against the latest snapshot. Without a
    /// snapshot nothing is pressed.
    pub fn execute_combo(
        &self,
        ring: &mut SoulRingState,
        settings: &Settings,
        now_ms: u64,
    ) -> (steps: Vec<InputAction>)
        ensures
            match self.last_event {
                Some(event) => {
                    &&& steps@ == combo_plan(
                        legion_combo(),
                        legion_combo().len() as int,
                        event.items,
                        old(ring)@,
                        *settings,
                        now_ms,
                    )
                    &&& final(ring)@ == ring_after_steps(
                        legion_combo(),
                        legion_combo().len() as int,
                        old(ring)@,
                        *settings,
                        now_ms,
                    )
                },
                None => steps@.len() == 0 && final(ring)@ == old(ring)@,
            },
    {
        match &self.last_event {
            Some(event) => {
                let combo = legion_combo_steps();
                run_combo(&combo, &event.items, ring, settings, now_ms)
            },
            None => Vec::new(),
        }
    }
}

impl HeroScript for LegionCommanderScript {
    /// Remembers the snapshot for the combo, heals and defends.
    fn handle_gsi_event(
        &mut self,
        event: &GsiWebhookEvent,
        settings: &Settings,
        store: &mut TriggerStore,
        now_ms: u64,
    ) -> (steps: Vec<InputAction>)
        ensures
            final(self).last_event == Some(*event),
            steps@ == healing_plan(*event, *settings, old(store).in_danger()) + defensive_plan(
                *event,
                *settings,
                old(store).in_danger(),
            ),
            *final(store) == *old(store),
    {
        self.last_event = Some(event.duplicate());
        let in_danger = crate::actions::danger_detector::is_in_danger(&store.danger);
        let survivability = SurvivabilityActions::new(settings);
        let mut plan = survivability.check_and_use_healing_items(event, in_danger);
        let mut defence = survivability.use_defensive_items_if_danger(event, in_danger);
        plan.append(&mut defence);
        plan
    }

    /// Performs the duel combo.
    fn handle_standalone_trigger(
        &mut self,
        settings: &Settings,
        store: &mut TriggerStore,
        now_ms: u64,
    ) -> (steps: Vec<InputAction>)
        ensures
            final(self).last_event == old(self).last_event,
            match old(self).last_event {
                Some(event) => {
                    &&& steps@ == combo_plan(
                        legion_combo(),
                        legion_combo().len() as int,
                        event.items,
                        old(store).soul_ring@,
                        *settings,
                        now_ms,
                    )
                    &&& final(store).soul_ring@ == ring_after_steps(
                        legion_combo(),
                        legion_combo().len() as int,
                        old(store).soul_ring@,
                        *settings,
                        now_ms,
                    )
                },
                None => steps@.len() == 0 && final(store).soul_ring@ == old(store).soul_ring@,
            },
            final(store).danger == old(store).danger,
            final(store).armlet == old(store).armlet,
            final(store).power_treads == old(store).power_treads,
            final(store).bottle == old(store).bottle,
            final(store).dispel_triggered == old(store).dispel_triggered,
            final(store).latest_event == old(store).latest_event,
    {
        self.execute_combo(&mut store.soul_ring, settings, now_ms)
    }

    fn hero_name(&self) -> (r: &'static str)
        ensures
            r@ == Hero::LegionCommander.game_name(),
    {
        Hero::LegionCommander.to_game_name()
    }
}

} // verus!
