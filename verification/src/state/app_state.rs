//! The state of the program as a whole: the selected hero, the switches, the
//! latest snapshot and the counters of the snapshot queue.

use vstd::prelude::*;
use crate::models::gsi_event::GsiWebhookEvent;
use crate::models::heroes::Hero;
use crate::text::str_eq;

verus! {

/// A hero that can be selected.
#[derive(Debug, Clone, Copy, PartialEq, Eq, Structural)]
pub enum HeroType {
    Huskar,
    Largo,
    LegionCommander,
    ShadowFiend,
    Tinker,
    Tiny,
}

impl HeroType {
    /// The hero as the handlers know it.
    pub open spec fn hero(self) -> Hero {
        match self {
            HeroType::Huskar => Hero::Huskar,
            HeroType::Largo => Hero::Largo,
            HeroType::LegionCommander => Hero::LegionCommander,
            HeroType::ShadowFiend => Hero::Nevermore,
            HeroType::Tinker => Hero::Tinker,
            HeroType::Tiny => Hero::Tiny,
        }
    }

    /// The hero as the handlers know it.
    pub fn to_hero(&self) -> (r: Hero)
        ensures
            r == self.hero(),
    {
        match self {
            HeroType::Huskar => Hero::Huskar,
            HeroType::Largo => Hero::Largo,
            HeroType::LegionCommander => Hero::LegionCommander,
            HeroType::ShadowFiend => Hero::Nevermore,
            HeroType::Tinker => Hero::Tinker,
            HeroType::Tiny => Hero::Tiny,
        }
    }

    /// The selectable hero that the game reports under this name.
    pub open spec fn named(name: Seq<char>) -> Option<HeroType> {
        if name == Hero::Huskar.game_name() {
            Some(HeroType::Huskar)
        } else if name == Hero::Largo.game_name() {
            Some(HeroType::Largo)
        } else if name == Hero::LegionCommander.game_name() {
            Some(HeroType::LegionCommander)
        } else if name == Hero::Nevermore.game_name() {
            Some(HeroType::ShadowFiend)
        } else if name == Hero::Tinker.game_name() {
            Some(HeroType::Tinker)
        } else if name == Hero::Tiny.game_name() {
            Some(HeroType::Tiny)
        } else {
            None
        }
    }

    /// The selectable hero that the game reports under this name.
    pub fn from_hero_name(name: &str) -> (r: Option<HeroType>)
        ensures
            r == HeroType::named(name@),
    {
        if str_eq(name, Hero::Huskar.to_game_name()) {
            Some(HeroType::Huskar)
        } else if str_eq(name, Hero::Largo.to_game_name()) {
            Some(HeroType::Largo)
        } else if str_eq(name, Hero::LegionCommander.to_game_name()) {
            Some(HeroType::LegionCommander)
        } else if str_eq(name, Hero::Nevermore.to_game_name()) {
            Some(HeroType::ShadowFiend)
        } else if str_eq(name, Hero::Tinker.to_game_name()) {
            Some(HeroType::Tinker)
        } else if str_eq(name, Hero::Tiny.to_game_name()) {
            Some(HeroType::Tiny)
        } else {
            None
        }
    }

    /// The name shown to the player.
    pub open spec fn display_name(self) -> Seq<char> {
        match self {
            HeroType::Huskar => "Huskar"@,
            HeroType::Largo => "Largo"@,
            HeroType::LegionCommander => "Legion Commander"@,
            HeroType::ShadowFiend => "Shadow Fiend"@,
            HeroType::Tinker => "Tinker"@,
            HeroType::Tiny => "Tiny"@,
        }
    }

    /// The name shown to the player.
    pub fn to_display_name(&self) -> (r: &'static str)
        ensures
            r@ == self.display_name(),
    {
        match self {
            HeroType::Huskar => "Huskar",
            HeroType::Largo => "Largo",
            HeroType::LegionCommander => "Legion Commander",
            HeroType::ShadowFiend => "Shadow Fiend",
            HeroType::Tinker => "Tinker",
            HeroType::Tiny => "Tiny",
        }
    }
}

/// Counters of the snapshot queue.
#[derive(Debug, Clone, Copy, PartialEq, Eq, Structural)]
pub struct QueueMetrics {
    pub events_processed: u64,
    pub events_dropped: u64,
    pub current_queue_depth: usize,
}

impl Default for QueueMetrics {
    fn default() -> (r: Self)
        ensures
            r == (QueueMetrics { events_processed: 0, events_dropped: 0, current_queue_depth: 0 }),
    {
        QueueMetrics { events_processed: 0, events_dropped: 0, current_queue_depth: 0 }
    }
}

/// One more, as long as the counter can hold it.
pub open spec fn counted(n: u64) -> u64 {
    if n < u64::MAX {
        (n + 1) as u64
    } else {
        n
    }
}

/// The state of the program.
#[derive(Debug)]
pub struct AppState {
    pub selected_hero: Option<HeroType>,
    /// Whether snapshots set automation off.
    pub gsi_enabled: bool,
    /// Whether the hotkeys set automation off.
    pub standalone_enabled: bool,
    pub last_event: Option<GsiWebhookEvent>,
    pub metrics: QueueMetrics,
    /// Name of the key that triggers the stand-alone combo.
    pub trigger_key: String,
    /// Whether the raze keys are intercepted.
    pub sf_enabled: bool,
}

impl AppState {
    /// The state at start: no hero, both kinds of automation on, the combo
    /// on the `Home` key.
    pub fn new() -> (r: Self)
        ensures
            r.selected_hero is None,
            r.gsi_enabled,
            r.standalone_enabled,
            r.last_event is None,
            r.metrics == (QueueMetrics {
                events_processed: 0,
                events_dropped: 0,
                current_queue_depth: 0,
            }),
            r.trigger_key@ == "Home"@,
            !r.sf_enabled,
    {
        AppState {
            selected_hero: None,
            gsi_enabled: true,
            standalone_enabled: true,
            last_event: None,
            metrics: QueueMetrics {
                events_processed: 0,
                events_dropped: 0,
                current_queue_depth: 0,
            },
            trigger_key: "Home".to_owned(),
            sf_enabled: false,
        }
    }

    /// Takes a snapshot in: a supported hero that differs from the selected
    /// one becomes the selected one, and raze interception follows it; the
    /// snapshot becomes the latest one and is counted.
    pub fn update_from_gsi(&mut self, event: GsiWebhookEvent)
        ensures
            final(self).selected_hero == (match HeroType::named(event.hero.name@) {
                Some(hero) => Some(hero),
                None => old(self).selected_hero,
            }),
            final(self).sf_enabled == (match HeroType::named(event.hero.name@) {
                Some(hero) => if old(self).selected_hero == Some(hero) {
                    old(self).sf_enabled
                } else {
                    hero == HeroType::ShadowFiend
                },
                None => old(self).sf_enabled,
            }),
            final(self).last_event == Some(event),
            final(self).metrics == (QueueMetrics {
                events_processed: counted(old(self).metrics.events_processed),
                ..old(self).metrics
            }),
            final(self).gsi_enabled == old(self).gsi_enabled,
            final(self).standalone_enabled == old(self).standalone_enabled,
            final(self).trigger_key == old(self).trigger_key,
    {
        match HeroType::from_hero_name(event.hero.name.as_str()) {
            Some(hero) => {
                if self.selected_hero != Some(hero) {
                    self.selected_hero = Some(hero);
                    self.sf_enabled = hero == HeroType::ShadowFiend;
                }
            },
            None => {},
        }
        self.last_event = Some(event);
        if self.metrics.events_processed < u64::MAX {
            self.metrics.events_processed = self.metrics.events_processed + 1;
        }
    }
}

impl Default for AppState {
    fn default() -> (r: Self)
        ensures
            r.selected_hero is None,
            r.gsi_enabled,
            r.standalone_enabled,
            r.last_event is None,
            r.metrics == (QueueMetrics {
                events_processed: 0,
                events_dropped: 0,
                current_queue_depth: 0,
            }),
            r.trigger_key@ == "Home"@,
            !r.sf_enabled,
    {
        AppState::new()
    }
}

} // verus!
