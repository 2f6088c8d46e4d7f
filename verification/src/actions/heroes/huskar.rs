//! Huskar: armlet toggling and cleansing of debuffs.

use vstd::prelude::*;
use crate::actions::common::{
    armlet_after,
    armlet_plan,
    armlet_toggle,
    defensive_plan,
    healing_plan,
    ArmletConfig,
    SurvivabilityActions,
};
use crate::actions::heroes::traits::HeroScript;
use crate::actions::store::TriggerStore;
use crate::clock::{cooldown_elapsed, cooldown_over};
use crate::config::settings::Settings;
use crate::input::simulation::InputAction;
use crate::models::gsi_event::GsiWebhookEvent;
use crate::models::heroes::Hero;

verus! {

/// The handler of Huskar.
#[derive(Debug)]
pub struct HuskarScript {
    /// Clock reading at the first snapshot that showed the current debuff.
    pub debuff_detected: Option<u64>,
}

/// The armlet settings of Huskar.
pub open spec fn huskar_armlet(settings: Settings) -> ArmletConfig {
    ArmletConfig {
        toggle_threshold: settings.heroes.huskar.armlet_toggle_threshold,
        predictive_offset: settings.heroes.huskar.armlet_predictive_offset,
        toggle_cooldown_ms: settings.heroes.huskar.armlet_toggle_cooldown_ms,
    }
}

/// The cleanse can be cast: the hero is alive and debuffed, and one of the
/// first four ability slots holds the cleansing ability castable, learned and
/// off cooldown.
pub open spec fn cleanse_ready(event: GsiWebhookEvent) -> bool {
    &&& event.hero.alive
    &&& event.hero.has_debuff
    &&& match event.abilities.first_named("huskar_berserkers_blood"@, 4) {
        Some(i) => event.abilities.slot(i).ready(),
        None => false,
    }
}

/// The cleanse is cast now: it can be cast, and the debuff was first seen at
/// least the configured delay ago. The delay leaves time for more debuffs to
/// land before the one cleanse.
pub open spec fn cleanse_due(
    tracker: Option<u64>,
    event: GsiWebhookEvent,
    settings: Settings,
    now: u64,
) -> bool {
    cleanse_ready(event) && tracker is Some && cooldown_over(
        tracker,
        now,
        settings.heroes.huskar.berserker_blood_delay_ms,
    )
}

/// The debuff timer after a snapshot: cleared when a living hero has no
/// debuff and when the cleanse is cast; started when the cleanse can be cast
/// and no timer runs; unchanged otherwise.
pub open spec fn cleanse_tracker_after(
    tracker: Option<u64>,
    event: GsiWebhookEvent,
    settings: Settings,
    now: u64,
) -> Option<u64> {
    if !event.hero.alive {
        tracker
    } else if !event.hero.has_debuff {
        None
    } else if !cleanse_ready(event) {
        tracker
    } else if tracker is None {
        Some(now)
    } else if cleanse_due(tracker, event, settings, now) {
        None
    } else {
        tracker
    }
}

/// The steps of the cleanse: one press of its key when it is due.
pub open spec fn cleanse_plan(
    tracker: Option<u64>,
    event: GsiWebhookEvent,
    settings: Settings,
    now: u64,
) -> Seq<InputAction> {
    if cleanse_due(tracker, event, settings, now) {
        seq![InputAction::PressKey(settings.heroes.huskar.berserker_blood_key)]
    } else {
        Seq::empty()
    }
}

impl HuskarScript {
    pub fn new() -> (r: Self)
        ensures
            r.debuff_detected is None,
    {
        HuskarScript { debuff_detected: None }
    }

    /// Casts the cleanse once the debuff has lasted the configured delay.
    pub fn berserker_blood_cleanse(
        &mut self,
        event: &GsiWebhookEvent,
        settings: &Settings,
        now_ms: u64,
    ) -> (steps: Vec<InputAction>)
        ensures
            steps@ == cleanse_plan(old(self).debuff_detected, *event, *settings, now_ms),
            final(self).debuff_detected == cleanse_tracker_after(
                old(self).debuff_detected,
                *event,
                *settings,
                now_ms,
            ),
    {
        let mut plan: Vec<InputAction> = Vec::new();
        if !event.hero.is_alive() {
            return plan;
        }
        if !event.hero.has_debuff {
            self.debuff_detected = None;
            return plan;
        }
        let ready = match event.abilities.find_named("huskar_berserkers_blood", 4) {
            Some(i) => event.abilities.ability(i).is_ready(),
            None => false,
        };
        if !ready {
            return plan;
        }
        match self.debuff_detected {
            Some(_) => {
                if cooldown_elapsed(
                    self.debuff_detected,
                    now_ms,
                    settings.heroes.huskar.berserker_blood_delay_ms,
                ) {
                    plan.push(InputAction::PressKey(settings.heroes.huskar.berserker_blood_key));
                    self.debuff_detected = None;
                }
            },
            None => {
                self.debuff_detected = Some(now_ms);
            },
        }
        plan
    }
}

impl HeroScript for HuskarScript {
    /// Toggles the armlet under Huskar's settings, heals, defends, and
    /// cleanses, in this order.
    fn handle_gsi_event(
        &mut self,
        event: &GsiWebhookEvent,
        settings: &Settings,
        store: &mut TriggerStore,
        now_ms: u64,
    ) -> (steps: Vec<InputAction>)
        ensures
            steps@ == armlet_plan(
                old(store).armlet,
                *event,
                *settings,
                huskar_armlet(*settings),
                now_ms,
            ) + healing_plan(*event, *settings, old(store).in_danger()) + defensive_plan(
                *event,
                *settings,
                old(store).in_danger(),
            ) + cleanse_plan(old(self).debuff_detected, *event, *settings, now_ms),
            final(self).debuff_detected == cleanse_tracker_after(
                old(self).debuff_detected,
                *event,
                *settings,
                now_ms,
            ),
            final(store).armlet == armlet_after(
                old(store).armlet,
                *event,
                huskar_armlet(*settings),
                now_ms,
            ),
            final(store).danger == old(store).danger,
            final(store).soul_ring == old(store).soul_ring,
            final(store).power_treads == old(store).power_treads,
            final(store).bottle == old(store).bottle,
            final(store).dispel_triggered == old(store).dispel_triggered,
            final(store).latest_event == old(store).latest_event,
    {
        let config = ArmletConfig {
            toggle_threshold: settings.heroes.huskar.armlet_toggle_threshold,
            predictive_offset: settings.heroes.huskar.armlet_predictive_offset,
            toggle_cooldown_ms: settings.heroes.huskar.armlet_toggle_cooldown_ms,
        };
        let mut plan = armlet_toggle(&mut store.armlet, event, settings, &config, now_ms);
        let in_danger = crate::actions::danger_detector::is_in_danger(&store.danger);
        let survivability = SurvivabilityActions::new(settings);
        let mut healing = survivability.check_and_use_healing_items(event, in_danger);
        let mut defence = survivability.use_defensive_items_if_danger(event, in_danger);
        let mut cleanse = self.berserker_blood_cleanse(event, settings, now_ms);
        plan.append(&mut healing);
        plan.append(&mut defence);
        plan.append(&mut cleanse);
        plan
    }

    /// Huskar has no combo: nothing is pressed.
    fn handle_standalone_trigger(
        &mut self,
        settings: &Settings,
        store: &mut TriggerStore,
        now_ms: u64,
    ) -> (steps: Vec<InputAction>)
        ensures
            steps@.len() == 0,
            *final(self) == *old(self),
            *final(store) == *old(store),
    {
        Vec::new()
    }

    fn hero_name(&self) -> (r: &'static str)
        ensures
            r@ == Hero::Huskar.game_name(),
    {
        Hero::Huskar.to_game_name()
    }
}

/// The cleanse waits out the delay: it is never cast on the snapshot that
/// first shows the debuff, and never before the delay has passed since then.
pub proof fn lemma_cleanse_waits(
    tracker: Option<u64>,
    event: GsiWebhookEvent,
    settings: Settings,
    now: u64,
)
    requires
        cleanse_due(tracker, event, settings, now),
    ensures
        tracker matches Some(seen) && crate::clock::elapsed_ms(now, seen)
            >= settings.heroes.huskar.berserker_blood_delay_ms,
{
}

} // verus!
