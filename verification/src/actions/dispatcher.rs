//! The dispatcher: one snapshot in, one handler called.
//!
//! On every snapshot the dispatcher first brings the shared detectors up to
//! date, so that the handler never acts on a detector older than the snapshot
//! it reacts to. Then it calls exactly one handler: that of the hero the
//! snapshot names, or the default strategy for any other hero.

use vstd::prelude::*;
use crate::actions::combo::{combo_plan, ring_after_steps};
use crate::actions::common::{
    armlet_after,
    armlet_plan,
    default_strategy_plan,
    defensive_plan,
    healing_plan,
    ArmletConfig,
    SurvivabilityActions,
};
use crate::actions::danger_detector::danger_step;
use crate::actions::dispel::{
    dispel_plan,
    dispel_triggered_after,
    dispel_with_jitter,
};
use crate::actions::heroes::broodmother::{spider_move_plan, BroodmotherScript};
use crate::actions::heroes::huskar::{
    cleanse_plan,
    cleanse_tracker_after,
    huskar_armlet,
    HuskarScript,
};
use crate::actions::heroes::largo::{LargoScript, Song};
use crate::actions::heroes::legion_commander::{legion_combo, LegionCommanderScript};
use crate::actions::heroes::shadow_fiend::{raze_plan, ShadowFiendScript, ShadowFiendState};
use crate::actions::heroes::tinker::{auto_matrix_plan, cache_view, summary_of, TinkerScript};
use crate::actions::heroes::tiny::{tiny_combo, TinyScript};
use crate::actions::heroes::traits::HeroScript;
use crate::actions::store::TriggerStore;
use crate::config::settings::Settings;
use crate::input::keyboard::{key_named, HotkeyEvent};
use crate::input::simulation::InputAction;
use crate::models::gsi_event::GsiWebhookEvent;
use crate::models::heroes::Hero;
use crate::state::app_state::HeroType;
use crate::text::unicode_lowercase;

verus! {

/// The store and the handler of every supported hero.
#[derive(Debug)]
pub struct ActionDispatcher {
    pub store: TriggerStore,
    pub broodmother: BroodmotherScript,
    pub huskar: HuskarScript,
    pub largo: LargoScript,
    pub legion_commander: LegionCommanderScript,
    pub shadow_fiend: ShadowFiendScript,
    pub tinker: TinkerScript,
    pub tiny: TinyScript,
}

/// The armlet settings under which a snapshot of `hero` toggles the armlet,
/// if it does.
pub open spec fn armlet_config_for(hero: Option<Hero>, settings: Settings) -> Option<ArmletConfig> {
    match hero {
        Some(Hero::Huskar) => Some(huskar_armlet(settings)),
        None => Some(
            ArmletConfig { toggle_threshold: 320, predictive_offset: 30, toggle_cooldown_ms: 250 },
        ),
        _ => None,
    }
}

impl ActionDispatcher {
    /// A dispatcher with every state in its initial value.
    pub fn new() -> (r: Self)
        ensures
            r.store.latest_event is None,
            r.store.danger == crate::actions::danger_detector::HpTracker::initial(),
            r.store.armlet == crate::actions::common::ArmletState::initial(),
            r.store.soul_ring@ == crate::actions::soul_ring::SoulRingView::initial(),
            r.store.power_treads == crate::actions::power_treads::PowerTreadsState::initial(),
            r.store.bottle@
                == crate::actions::bottle_optimization::BottleOptimizationView::initial(),
            !r.store.dispel_triggered,
            r.huskar.debuff_detected is None,
            r.largo.state == crate::actions::heroes::largo::UltimateState::initial(),
            r.legion_commander.last_event is None,
            r.tiny.last_event is None,
            r.tinker.cache is None,
            r.tinker.state == crate::actions::heroes::tinker::TinkerState::initial(),
    {
        ActionDispatcher {
            store: TriggerStore::new(),
            broodmother: BroodmotherScript::new(),
            huskar: HuskarScript::new(),
            largo: LargoScript::new(),
            legion_commander: LegionCommanderScript::new(),
            shadow_fiend: ShadowFiendScript::new(),
            tinker: TinkerScript::new(),
            tiny: TinyScript::new(),
        }
    }

    /// The steps that the handler of a snapshot answers, with the detectors
    /// already up to date: `in_danger` is the detector's flag after this
    /// snapshot.
    pub open spec fn handler_plan(
        self,
        event: GsiWebhookEvent,
        settings: Settings,
        in_danger: bool,
        now: u64,
    ) -> Seq<InputAction> {
        let survival = healing_plan(event, settings, in_danger) + defensive_plan(
            event,
            settings,
            in_danger,
        );
        match Hero::named(event.hero.name@) {
            Some(Hero::Huskar) => armlet_plan(
                self.store.armlet,
                event,
                settings,
                huskar_armlet(settings),
                now,
            ) + healing_plan(event, settings, in_danger) + defensive_plan(
                event,
                settings,
                in_danger,
            ) + cleanse_plan(self.huskar.debuff_detected, event, settings, now),
            Some(Hero::Tinker) => auto_matrix_plan(event, settings, in_danger),
            Some(_) => survival,
            None => default_strategy_plan(self.store.armlet, event, settings, in_danger, now),
        }
    }

    /// What the dispatch of a snapshot does, with `jitter_ms` as the pause
    /// before a dispel: the steps it answers and the state it leaves.
    ///
    /// The detectors are fed first, each by its own step. A silence is
    /// dispelled next. Then the handler of the snapshot's hero runs, on the
    /// detectors as they are after this snapshot, and only that handler: the
    /// state of every other handler is left alone.
    pub open spec fn dispatched(
        self,
        after: ActionDispatcher,
        steps: Seq<InputAction>,
        event: GsiWebhookEvent,
        settings: Settings,
        now: u64,
        jitter_ms: u64,
    ) -> bool {
        let hero = Hero::named(event.hero.name@);
        let danger = danger_step(self.store.danger, event.hero, settings.danger_detection, now);
        &&& steps == dispel_plan(self.store.dispel_triggered, event, settings, jitter_ms)
            + self.handler_plan(event, settings, danger.danger_detected, now)
        &&& after.store.danger == danger
        &&& after.store.soul_ring@ == self.store.soul_ring@.after_snapshot(
            event.items,
            event.hero,
            settings,
        )
        &&& after.store.power_treads == crate::actions::power_treads::treads_after_snapshot(
            self.store.power_treads,
            event.items,
            event.hero,
            settings,
        )
        &&& after.store.bottle@ == self.store.bottle@.after_snapshot(
            event.items,
            event.hero,
            event.map,
            settings,
        )
        &&& after.store.latest_event == Some(event)
        &&& after.store.dispel_triggered == dispel_triggered_after(
            self.store.dispel_triggered,
            event,
            settings,
        )
        &&& after.store.armlet == (match armlet_config_for(hero, settings) {
            Some(config) => armlet_after(self.store.armlet, event, config, now),
            None => self.store.armlet,
        })
        &&& after.huskar.debuff_detected == (if hero == Some(Hero::Huskar) {
            cleanse_tracker_after(self.huskar.debuff_detected, event, settings, now)
        } else {
            self.huskar.debuff_detected
        })
        &&& after.largo.state == (if hero == Some(Hero::Largo) {
            self.largo.state.after_snapshot(event)
        } else {
            self.largo.state
        })
        &&& after.legion_commander.last_event == (if hero == Some(Hero::LegionCommander) {
            Some(event)
        } else {
            self.legion_commander.last_event
        })
        &&& after.tiny.last_event == (if hero == Some(Hero::Tiny) {
            Some(event)
        } else {
            self.tiny.last_event
        })
        &&& after.tinker.state == self.tinker.state
        &&& cache_view(after.tinker.cache) == (if hero == Some(Hero::Tinker) {
            Some(summary_of(event, settings, now))
        } else {
            cache_view(self.tinker.cache)
        })
    }

    /// Handles a snapshot, with the pause before a dispel given.
    pub fn dispatch_gsi_event_with_jitter(
        &mut self,
        event: &GsiWebhookEvent,
        settings: &Settings,
        now_ms: u64,
        jitter_ms: u64,
    ) -> (steps: Vec<InputAction>)
        ensures
            old(self).dispatched(*final(self), steps@, *event, *settings, now_ms, jitter_ms),
    {
        self.store.update_detectors(event, settings, now_ms);
        let mut plan = dispel_with_jitter(
            &mut self.store.dispel_triggered,
            event,
            settings,
            jitter_ms,
        );
        let mut handled = match Hero::from_game_name(event.hero.name.as_str()) {
            Some(Hero::Broodmother) => self.broodmother.handle_gsi_event(
                event,
                settings,
                &mut self.store,
                now_ms,
            ),
            Some(Hero::Huskar) => self.huskar.handle_gsi_event(
                event,
                settings,
                &mut self.store,
                now_ms,
            ),
            Some(Hero::Largo) => self.largo.handle_gsi_event(
                event,
                settings,
                &mut self.store,
                now_ms,
            ),
            Some(Hero::LegionCommander) => self.legion_commander.handle_gsi_event(
                event,
                settings,
                &mut self.store,
                now_ms,
            ),
            Some(Hero::Nevermore) => self.shadow_fiend.handle_gsi_event(
                event,
                settings,
                &mut self.store,
                now_ms,
            ),
            Some(Hero::Tinker) => self.tinker.handle_gsi_event(
                event,
                settings,
                &mut self.store,
                now_ms,
            ),
            Some(Hero::Tiny) => self.tiny.handle_gsi_event(
                event,
                settings,
                &mut self.store,
                now_ms,
            ),
            None => {
                let in_danger = crate::actions::danger_detector::is_in_danger(&self.store.danger);
                let survivability = SurvivabilityActions::new(settings);
                survivability.execute_default_strategy(
                    event,
                    &mut self.store.armlet,
                    in_danger,
                    now_ms,
                )
            },
        };
        plan.append(&mut handled);
        plan
    }

    /// Handles a snapshot. The pause before a dispel is drawn at random from
    /// `30..100` milliseconds; whichever pause is drawn, steps and state are
    /// those of `dispatched` for it.
    pub fn dispatch_gsi_event(
        &mut self,
        event: &GsiWebhookEvent,
        settings: &Settings,
        now_ms: u64,
    ) -> (steps: Vec<InputAction>)
        ensures
            exists|jitter_ms: u64|
                30 <= jitter_ms < 100 && old(self).dispatched(
                    *final(self),
                    steps@,
                    *event,
                    *settings,
                    now_ms,
                    jitter_ms,
                ),
    {
        let jitter_ms = crate::actions::dispel::draw_jitter();
        self.dispatch_gsi_event_with_jitter(event, settings, now_ms, jitter_ms)
    }

    /// The steps of the manual trigger of `hero`.
    pub open spec fn trigger_plan(
        self,
        hero: Option<Hero>,
        settings: Settings,
        now: u64,
    ) -> Seq<InputAction> {
        match hero {
            Some(Hero::Broodmother) => spider_move_plan(
                settings.heroes.broodmother.spider_micro_enabled,
                key_named(unicode_lowercase(settings.heroes.broodmother.spider_control_group_key@)),
                key_named(unicode_lowercase(settings.heroes.broodmother.reselect_hero_key@)),
            ),
            Some(Hero::Largo) => seq![InputAction::PressKey(settings.heroes.largo.r_ability_key)],
            Some(Hero::LegionCommander) => match self.legion_commander.last_event {
                Some(event) => combo_plan(
                    legion_combo(),
                    legion_combo().len() as int,
                    event.items,
                    self.store.soul_ring@,
                    settings,
                    now,
                ),
                None => Seq::empty(),
            },
            Some(Hero::Tiny) => match self.tiny.last_event {
                Some(event) => combo_plan(
                    tiny_combo(),
                    tiny_combo().len() as int,
                    event.items,
                    self.store.soul_ring@,
                    settings,
                    now,
                ),
                None => Seq::empty(),
            },
            _ => Seq::empty(),
        }
    }

    /// The ring after the manual trigger of `hero`: the two combos cast their
    /// first ability through it.
    pub open spec fn ring_after_trigger(
        self,
        hero: Option<Hero>,
        settings: Settings,
        now: u64,
    ) -> crate::actions::soul_ring::SoulRingView {
        match hero {
            Some(Hero::LegionCommander) => match self.legion_commander.last_event {
                Some(event) => ring_after_steps(
                    legion_combo(),
                    legion_combo().len() as int,
                    self.store.soul_ring@,
                    settings,
                    now,
                ),
                None => self.store.soul_ring@,
            },
            Some(Hero::Tiny) => match self.tiny.last_event {
                Some(event) => ring_after_steps(
                    tiny_combo(),
                    tiny_combo().len() as int,
                    self.store.soul_ring@,
                    settings,
                    now,
                ),
                None => self.store.soul_ring@,
            },
            _ => self.store.soul_ring@,
        }
    }

    /// Hands the manual trigger to the handler of the hero of this name. A
    /// name without a handler presses nothing.
    pub fn dispatch_standalone_trigger(
        &mut self,
        hero_name: &str,
        settings: &Settings,
        now_ms: u64,
    ) -> (steps: Vec<InputAction>)
        ensures
            steps@ == old(self).trigger_plan(Hero::named(hero_name@), *settings, now_ms),
            final(self).store.soul_ring@ == old(self).ring_after_trigger(
                Hero::named(hero_name@),
                *settings,
                now_ms,
            ),
            final(self).store.danger == old(self).store.danger,
            final(self).store.armlet == old(self).store.armlet,
            final(self).store.power_treads == old(self).store.power_treads,
            final(self).store.dispel_triggered == old(self).store.dispel_triggered,
            final(self).store.latest_event == old(self).store.latest_event,
            final(self).huskar.debuff_detected == old(self).huskar.debuff_detected,
            final(self).legion_commander.last_event == old(self).legion_commander.last_event,
            final(self).tiny.last_event == old(self).tiny.last_event,
            final(self).tinker.cache == old(self).tinker.cache,
            final(self).largo.state == (if Hero::named(hero_name@) == Some(Hero::Largo) {
                old(self).largo.state.reset(!old(self).largo.state.active)
            } else {
                old(self).largo.state
            }),
            final(self).tinker.state == (if Hero::named(hero_name@) == Some(Hero::Tinker) {
                old(self).tinker.state.after_trigger(settings.heroes.tinker.enabled)
            } else {
                old(self).tinker.state
            }),
    {
        match Hero::from_game_name(hero_name) {
            Some(Hero::Broodmother) => self.broodmother.handle_standalone_trigger(
                settings,
                &mut self.store,
                now_ms,
            ),
            Some(Hero::Huskar) => self.huskar.handle_standalone_trigger(
                settings,
                &mut self.store,
                now_ms,
            ),
            Some(Hero::Largo) => self.largo.handle_standalone_trigger(
                settings,
                &mut self.store,
                now_ms,
            ),
            Some(Hero::LegionCommander) => self.legion_commander.handle_standalone_trigger(
                settings,
                &mut self.store,
                now_ms,
            ),
            Some(Hero::Nevermore) => self.shadow_fiend.handle_standalone_trigger(
                settings,
                &mut self.store,
                now_ms,
            ),
            Some(Hero::Tinker) => self.tinker.handle_standalone_trigger(
                settings,
                &mut self.store,
                now_ms,
            ),
            Some(Hero::Tiny) => self.tiny.handle_standalone_trigger(
                settings,
                &mut self.store,
                now_ms,
            ),
            None => Vec::new(),
        }
    }

    /// The steps that a hotkey sets off.
    ///
    /// Nothing happens while the hotkeys are switched off. The combo trigger
    /// goes to the handler of the selected hero. The raze keys cast a raze
    /// while Shadow Fiend is selected. The song keys pick a song, and the
    /// ultimate key stops the rhythm, while Largo is selected.
    pub open spec fn hotkey_plan(
        self,
        hotkey: HotkeyEvent,
        standalone_enabled: bool,
        selected: Option<HeroType>,
        settings: Settings,
        now: u64,
    ) -> Seq<InputAction> {
        if !standalone_enabled {
            Seq::empty()
        } else {
            match hotkey {
                HotkeyEvent::ComboTrigger => match selected {
                    Some(hero) => self.trigger_plan(Some(hero.hero()), settings, now),
                    None => Seq::empty(),
                },
                HotkeyEvent::ShadowFiendQ => if selected == Some(HeroType::ShadowFiend) {
                    raze_plan('q', settings)
                } else {
                    Seq::empty()
                },
                HotkeyEvent::ShadowFiendW => if selected == Some(HeroType::ShadowFiend) {
                    raze_plan('w', settings)
                } else {
                    Seq::empty()
                },
                HotkeyEvent::ShadowFiendE => if selected == Some(HeroType::ShadowFiend) {
                    raze_plan('e', settings)
                } else {
                    Seq::empty()
                },
                _ => Seq::empty(),
            }
        }
    }

    /// The rhythm after a hotkey.
    pub open spec fn rhythm_after_hotkey(
        self,
        hotkey: HotkeyEvent,
        standalone_enabled: bool,
        selected: Option<HeroType>,
    ) -> crate::actions::heroes::largo::UltimateState {
        let state = self.largo.state;
        if !standalone_enabled || selected != Some(HeroType::Largo) {
            state
        } else {
            match hotkey {
                HotkeyEvent::ComboTrigger => state.reset(!state.active),
                HotkeyEvent::LargoQ => state.after_selection(Song::Bullbelly),
                HotkeyEvent::LargoW => state.after_selection(Song::Hotfeet),
                HotkeyEvent::LargoE => state.after_selection(Song::IslandElixir),
                HotkeyEvent::LargoR => state.after_toggle(false),
                _ => state,
            }
        }
    }

    /// Reacts to a hotkey.
    pub fn dispatch_hotkey(
        &mut self,
        hotkey: HotkeyEvent,
        standalone_enabled: bool,
        selected: Option<HeroType>,
        settings: &Settings,
        now_ms: u64,
    ) -> (steps: Vec<InputAction>)
        ensures
            steps@ == old(self).hotkey_plan(
                hotkey,
                standalone_enabled,
                selected,
                *settings,
                now_ms,
            ),
            final(self).largo.state == old(self).rhythm_after_hotkey(
                hotkey,
                standalone_enabled,
                selected,
            ),
            final(self).tinker.state == (if standalone_enabled && hotkey
                == HotkeyEvent::ComboTrigger && selected == Some(HeroType::Tinker) {
                old(self).tinker.state.after_trigger(settings.heroes.tinker.enabled)
            } else {
                old(self).tinker.state
            }),
            final(self).store.soul_ring@ == (if standalone_enabled && hotkey
                == HotkeyEvent::ComboTrigger && selected is Some {
                old(self).ring_after_trigger(Some(selected->0.hero()), *settings, now_ms)
            } else {
                old(self).store.soul_ring@
            }),
            final(self).store.danger == old(self).store.danger,
            final(self).store.armlet == old(self).store.armlet,
            final(self).store.latest_event == old(self).store.latest_event,
            final(self).legion_commander.last_event == old(self).legion_commander.last_event,
            final(self).tiny.last_event == old(self).tiny.last_event,
    {
        if !standalone_enabled {
            return Vec::new();
        }
        match hotkey {
            HotkeyEvent::ComboTrigger => {
                match selected {
                    Some(hero) => {
                        proof {
                            crate::models::heroes::lemma_game_names_identify(hero.hero());
                        }
                        let name = hero.to_hero().to_game_name();
                        self.dispatch_standalone_trigger(name, settings, now_ms)
                    },
                    None => Vec::new(),
                }
            },
            HotkeyEvent::ShadowFiendQ => {
                if selected == Some(HeroType::ShadowFiend) {
                    ShadowFiendState::execute_raze('q', settings)
                } else {
                    Vec::new()
                }
            },
            HotkeyEvent::ShadowFiendW => {
                if selected == Some(HeroType::ShadowFiend) {
                    ShadowFiendState::execute_raze('w', settings)
                } else {
                    Vec::new()
                }
            },
            HotkeyEvent::ShadowFiendE => {
                if selected == Some(HeroType::ShadowFiend) {
                    ShadowFiendState::execute_raze('e', settings)
                } else {
                    Vec::new()
                }
            },
            HotkeyEvent::LargoQ => {
                if selected == Some(HeroType::Largo) {
                    self.largo.select_song_manually(Song::Bullbelly);
                }
                Vec::new()
            },
            HotkeyEvent::LargoW => {
                if selected == Some(HeroType::Largo) {
                    self.largo.select_song_manually(Song::Hotfeet);
                }
                Vec::new()
            },
            HotkeyEvent::LargoE => {
                if selected == Some(HeroType::Largo) {
                    self.largo.select_song_manually(Song::IslandElixir);
                }
                Vec::new()
            },
            HotkeyEvent::LargoR => {
                if selected == Some(HeroType::Largo) {
                    self.largo.deactivate_ultimate();
                }
                Vec::new()
            },
        }
    }
}

} // verus!
