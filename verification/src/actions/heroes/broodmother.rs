//! Broodmother: sending the spiders to attack.

use vstd::prelude::*;
use crate::actions::common::{defensive_plan, healing_plan, SurvivabilityActions};
use crate::actions::heroes::traits::HeroScript;
use crate::actions::store::TriggerStore;
use crate::config::settings::Settings;
use crate::input::keyboard::{key_named, parse_key, KeyCode};
use crate::input::simulation::InputAction;
use crate::models::gsi_event::GsiWebhookEvent;
use crate::models::heroes::Hero;
use crate::text::unicode_lowercase;

verus! {

/// The handler of Broodmother.
#[derive(Debug)]
pub struct BroodmotherScript {}

/// The steps of the spider move, given the keys that select the spiders and
/// the hero: select the spiders, right click, select the hero again. A key
/// that could not be resolved is left out, with its pause.
pub open spec fn spider_move_plan(
    enabled: bool,
    spiders: Option<KeyCode>,
    hero: Option<KeyCode>,
) -> Seq<InputAction> {
    if !enabled {
        Seq::empty()
    } else {
        (match spiders {
            Some(key) => seq![InputAction::PressNamedKey(key), InputAction::Wait(30)],
            None => Seq::empty(),
        }) + seq![InputAction::RightClick, InputAction::Wait(30)] + (match hero {
            Some(key) => seq![InputAction::PressNamedKey(key)],
            None => Seq::empty(),
        })
    }
}

impl BroodmotherScript {
    pub fn new() -> (r: Self) {
        BroodmotherScript {  }
    }

    /// Plans the spider move with the two keys already resolved.
    pub fn spider_move(
        enabled: bool,
        spiders: Option<KeyCode>,
        hero: Option<KeyCode>,
    ) -> (steps: Vec<InputAction>)
        ensures
            steps@ == spider_move_plan(enabled, spiders, hero),
    {
        let mut plan: Vec<InputAction> = Vec::new();
        if !enabled {
            return plan;
        }
        match spiders {
            Some(key) => {
                plan.push(InputAction::PressNamedKey(key));
                plan.push(InputAction::Wait(30));
            },
            None => {},
        }
        plan.push(InputAction::RightClick);
        plan.push(InputAction::Wait(30));
        match hero {
            Some(key) => {
                plan.push(InputAction::PressNamedKey(key));
            },
            None => {},
        }
        plan
    }

    /// Plans the spider move: resolves the configured key names and plans
    /// with them.
    pub fn execute_spider_attack_move(settings: &Settings) -> (steps: Vec<InputAction>)
        ensures
            steps@ == spider_move_plan(
                settings.heroes.broodmother.spider_micro_enabled,
                key_named(unicode_lowercase(settings.heroes.broodmother.spider_control_group_key@)),
                key_named(unicode_lowercase(settings.heroes.broodmother.reselect_hero_key@)),
            ),
    {
        let config = &settings.heroes.broodmother;
        let spiders = parse_key(config.spider_control_group_key.as_str());
        let hero = parse_key(config.reselect_hero_key.as_str());
        BroodmotherScript::spider_move(config.spider_micro_enabled, spiders, hero)
    }
}

impl HeroScript for BroodmotherScript {
    /// Heals and defends.
    fn handle_gsi_event(
        &mut self,
        event: &GsiWebhookEvent,
        settings: &Settings,
        store: &mut TriggerStore,
        now_ms: u64,
    ) -> (steps: Vec<InputAction>)
        ensures
            steps@ == healing_plan(*event, *settings, old(store).in_danger()) + defensive_plan(
                *event,
                *settings,
                old(store).in_danger(),
            ),
            *final(store) == *old(store),
    {
        let in_danger = crate::actions::danger_detector::is_in_danger(&store.danger);
        let survivability = SurvivabilityActions::new(settings);
        let mut plan = survivability.check_and_use_healing_items(event, in_danger);
        let mut defence = survivability.use_defensive_items_if_danger(event, in_danger);
        plan.append(&mut defence);
        plan
    }

    /// Sends the spiders to attack.
    fn handle_standalone_trigger(
        &mut self,
        settings: &Settings,
        store: &mut TriggerStore,
        now_ms: u64,
    ) -> (steps: Vec<InputAction>)
        ensures
            steps@ == spider_move_plan(
                settings.heroes.broodmother.spider_micro_enabled,
                key_named(unicode_lowercase(settings.heroes.broodmother.spider_control_group_key@)),
                key_named(unicode_lowercase(settings.heroes.broodmother.reselect_hero_key@)),
            ),
            *final(store) == *old(store),
    {
        BroodmotherScript::execute_spider_attack_move(settings)
    }

    fn hero_name(&self) -> (r: &'static str)
        ensures
            r@ == Hero::Broodmother.game_name(),
    {
        Hero::Broodmother.to_game_name()
    }
}

} // verus!
