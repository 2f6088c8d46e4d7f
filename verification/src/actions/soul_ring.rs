//! The mana-restoring ring that is used right before a cast.
//!
//! Before a key bound to an ability or an item is pressed, the ring's key is
//! pressed first when that pays: the ring is ready, mana is low enough,
//! health is high enough, and the ring was not used a moment ago. A key
//! bound to an item that costs no mana never sets the ring off. When any
//! condition fails, the intended key is pressed alone: the ring never stands
//! in the way of the cast.

use vstd::prelude::*;
use crate::clock::{advance, cooldown_elapsed, cooldown_over, later_of};
use crate::config::settings::{
    main_slot_for_key,
    main_slot_of_key,
    Settings,
    SoulRingConfig,
};
use crate::input::simulation::InputAction;
use crate::models::gsi_event::{named, usable_slot_name, Hero, Items};
use crate::text::{
    key_is_listed,
    key_listed,
    key_or,
    keys_match,
    list_contains,
    listed,
    same_key,
};

verus! {

/// What the engine knows about the ring.
#[derive(Debug)]
pub struct SoulRingState {
    /// Whether the ring is in the inventory.
    pub available: bool,
    /// The key of the slot that holds it.
    pub slot_key: Option<char>,
    /// Whether the game reports it castable.
    pub can_cast: bool,
    /// The hero's mana, in percent.
    pub hero_mana_percent: u32,
    /// The hero's health, in percent.
    pub hero_health_percent: u32,
    /// Whether the hero is alive.
    pub hero_alive: bool,
    /// Clock reading at the last use.
    pub last_triggered: Option<u64>,
    /// Names of the items in the main slots at the last snapshot, by slot.
    pub slot_items: Vec<String>,
}

/// The ring state as a mathematical value.
pub struct SoulRingView {
    pub available: bool,
    pub slot_key: Option<char>,
    pub can_cast: bool,
    pub hero_mana_percent: u32,
    pub hero_health_percent: u32,
    pub hero_alive: bool,
    pub last_triggered: Option<u64>,
    pub slot_items: Seq<Seq<char>>,
}

impl View for SoulRingState {
    type V = SoulRingView;

    open spec fn view(&self) -> SoulRingView {
        SoulRingView {
            available: self.available,
            slot_key: self.slot_key,
            can_cast: self.can_cast,
            hero_mana_percent: self.hero_mana_percent,
            hero_health_percent: self.hero_health_percent,
            hero_alive: self.hero_alive,
            last_triggered: self.last_triggered,
            slot_items: Seq::new(self.slot_items@.len(), |i: int| self.slot_items@[i]@),
        }
    }
}

impl SoulRingView {
    /// The state before any snapshot.
    pub open spec fn initial() -> SoulRingView {
        SoulRingView {
            available: false,
            slot_key: None,
            can_cast: false,
            hero_mana_percent: 100,
            hero_health_percent: 100,
            hero_alive: false,
            last_triggered: None,
            slot_items: Seq::empty(),
        }
    }

    /// The states that snapshots lead to: the ring has a key exactly while it
    /// is in the inventory, and an absent ring is not castable.
    pub open spec fn wf(self) -> bool {
        &&& self.available <==> self.slot_key is Some
        &&& self.can_cast ==> self.available
    }

    /// Using the ring is due: the feature is on; the ring is present,
    /// castable and bound; the hero is alive; mana is below the ceiling, a
    /// ceiling of 100 or more standing for always; health is above the
    /// floor; and the lockout since the last use is over.
    pub open spec fn trigger_due(self, config: SoulRingConfig, now: u64) -> bool {
        &&& config.enabled
        &&& self.available
        &&& self.can_cast
        &&& self.slot_key is Some
        &&& self.hero_alive
        &&& (config.min_mana_percent >= 100 || self.hero_mana_percent < config.min_mana_percent)
        &&& self.hero_health_percent > config.min_health_percent
        &&& cooldown_over(self.last_triggered, now, config.trigger_cooldown_ms)
    }

    /// `key` is bound to a main slot that held an item of the skip list at
    /// the last snapshot.
    pub open spec fn key_is_skipped(self, key: char, settings: Settings) -> bool {
        match main_slot_for_key(key, settings) {
            Some(i) => i < self.slot_items.len() && listed(
                settings.soul_ring.skip_items@,
                self.slot_items[i],
            ),
            None => false,
        }
    }

    /// The ring is used before a press of `key` at `now`.
    pub open spec fn fires(self, key: char, settings: Settings, now: u64) -> bool {
        self.trigger_due(settings.soul_ring, now) && !self.key_is_skipped(key, settings)
    }

    /// `key` is one of the six main slot keys, and not the ring's own.
    pub open spec fn is_item_key(self, key: char, settings: Settings) -> bool {
        &&& settings.soul_ring.intercept_item_keys
        &&& !(self.slot_key matches Some(own) && same_key(key, own))
        &&& main_slot_for_key(key, settings) is Some
    }

    /// The steps for a press of `key`: the ring's key, the configured pause
    /// and the key when the ring is used; the key alone otherwise.
    pub open spec fn press_plan(self, key: char, settings: Settings, now: u64) -> Seq<InputAction> {
        if self.fires(key, settings, now) {
            seq![
                InputAction::PressKey(self.slot_key->0),
                InputAction::Wait(settings.soul_ring.delay_before_ability_ms),
                InputAction::PressKey(key),
            ]
        } else {
            seq![InputAction::PressKey(key)]
        }
    }

    /// The state after a press of `key`: a use of the ring is recorded at
    /// `now`, and nothing else changes.
    pub open spec fn after_press(self, key: char, settings: Settings, now: u64) -> SoulRingView {
        if self.fires(key, settings, now) {
            SoulRingView { last_triggered: Some(later_of(self.last_triggered, now)), ..self }
        } else {
            self
        }
    }

    /// The state after a snapshot.
    ///
    /// The hero's vitals and the names in the six main slots are recorded.
    /// The ring is looked for in the usable slots: when found, castability
    /// and the key of the first slot that holds it are recorded; when it has
    /// gone, they are cleared.
    pub open spec fn after_snapshot(
        self,
        items: Items,
        hero: Hero,
        settings: Settings,
    ) -> SoulRingView {
        let seen = SoulRingView {
            hero_mana_percent: hero.mana_percent,
            hero_health_percent: hero.health_percent,
            hero_alive: hero.alive,
            slot_items: Seq::new(6, |i: int| items.usable(i).name@),
            ..self
        };
        match items.first_usable(named("item_soul_ring"@), 7) {
            Some(i) => SoulRingView {
                available: true,
                can_cast: items.usable(i).castable(),
                slot_key: Some(settings.keybindings.slot_key(i)),
                ..seen
            },
            None => if self.available {
                SoulRingView { available: false, slot_key: None, can_cast: false, ..seen }
            } else {
                seen
            },
        }
    }
}

impl SoulRingState {
    pub fn new() -> (r: Self)
        ensures
            r@ == SoulRingView::initial(),
    {
        let r = SoulRingState {
            available: false,
            slot_key: None,
            can_cast: false,
            hero_mana_percent: 100,
            hero_health_percent: 100,
            hero_alive: false,
            last_triggered: None,
            slot_items: Vec::new(),
        };
        assert(r@.slot_items =~= Seq::empty());
        r
    }

    /// Whether using the ring is due at `now_ms`.
    pub fn should_trigger(&self, settings: &Settings, now_ms: u64) -> (r: bool)
        ensures
            r == self@.trigger_due(settings.soul_ring, now_ms),
    {
        if !settings.soul_ring.enabled {
            return false;
        }
        if !self.available || !self.can_cast || self.slot_key.is_none() {
            return false;
        }
        if !self.hero_alive {
            return false;
        }
        if settings.soul_ring.min_mana_percent < 100 && self.hero_mana_percent
            >= settings.soul_ring.min_mana_percent {
            return false;
        }
        if self.hero_health_percent <= settings.soul_ring.min_health_percent {
            return false;
        }
        cooldown_elapsed(self.last_triggered, now_ms, settings.soul_ring.trigger_cooldown_ms)
    }

    /// Records a use of the ring at `now_ms`.
    pub fn mark_triggered(&mut self, now_ms: u64)
        ensures
            final(self)@ == (SoulRingView {
                last_triggered: Some(later_of(old(self).last_triggered, now_ms)),
                ..old(self)@
            }),
    {
        self.last_triggered = Some(advance(self.last_triggered, now_ms));
    }

    /// Whether `key_char` is one of the configured ability keys.
    pub fn is_ability_key(&self, key_char: char, settings: &Settings) -> (r: bool)
        ensures
            r == key_is_listed(settings.soul_ring.ability_keys@, key_char),
    {
        key_listed(&settings.soul_ring.ability_keys, key_char)
    }

    /// Whether `key_char` is the key of a main slot other than the ring's
    /// own. Always `false` while item keys are not intercepted.
    pub fn is_item_key(&self, key_char: char, settings: &Settings) -> (r: bool)
        ensures
            r == self@.is_item_key(key_char, *settings),
    {
        if !settings.soul_ring.intercept_item_keys {
            return false;
        }
        match self.slot_key {
            Some(own) => {
                if keys_match(key_char, own) {
                    return false;
                }
            },
            None => {},
        }
        main_slot_of_key(key_char, settings).is_some()
    }

    /// Whether a press of `key_char` is one before which the ring may be
    /// used: an ability key or an item key.
    pub fn should_intercept_key(&self, key_char: char, settings: &Settings) -> (r: bool)
        ensures
            r == (key_is_listed(settings.soul_ring.ability_keys@, key_char) || self@.is_item_key(
                key_char,
                *settings,
            )),
    {
        self.is_ability_key(key_char, settings) || self.is_item_key(key_char, settings)
    }

    /// Whether `key_char` is bound to a main slot that held an item of the
    /// skip list at the last snapshot.
    pub fn is_skipped_key(&self, key_char: char, settings: &Settings) -> (r: bool)
        ensures
            r == self@.key_is_skipped(key_char, *settings),
    {
        match main_slot_of_key(key_char, settings) {
            Some(i) => {
                if i < self.slot_items.len() {
                    let found = list_contains(
                        &settings.soul_ring.skip_items,
                        self.slot_items[i].as_str(),
                    );
                    found
                } else {
                    false
                }
            },
            None => false,
        }
    }
}

impl Default for SoulRingState {
    fn default() -> (r: Self)
        ensures
            r@ == SoulRingView::initial(),
    {
        SoulRingState::new()
    }
}

/// Plans a press of `key`, with the ring before it when that is due, and
/// records the use of the ring.
pub fn press_ability_with_soul_ring(
    state: &mut SoulRingState,
    key: char,
    settings: &Settings,
    now_ms: u64,
) -> (steps: Vec<InputAction>)
    ensures
        steps@ == old(state)@.press_plan(key, *settings, now_ms),
        final(state)@ == old(state)@.after_press(key, *settings, now_ms),
        old(state)@.fires(key, *settings, now_ms) ==> !old(state)@.key_is_skipped(key, *settings),
{
    let mut plan: Vec<InputAction> = Vec::new();
    if state.should_trigger(settings, now_ms) && !state.is_skipped_key(key, settings) {
        let ring_key = key_or(state.slot_key, key);
        plan.push(InputAction::PressKey(ring_key));
        plan.push(InputAction::Wait(settings.soul_ring.delay_before_ability_ms));
        state.mark_triggered(now_ms);
    }
    plan.push(InputAction::PressKey(key));
    plan
}

/// Brings the state up to date with a snapshot.
pub fn update_from_gsi(state: &mut SoulRingState, items: &Items, hero: &Hero, settings: &Settings)
    ensures
        final(state)@ == old(state)@.after_snapshot(*items, *hero, *settings),
{
    state.hero_mana_percent = hero.mana_percent;
    state.hero_health_percent = hero.health_percent;
    state.hero_alive = hero.alive;

    let mut names: Vec<String> = Vec::new();
    let mut i: usize = 0;
    while i < 6
        invariant
            i <= 6,
            names@.len() == i,
            forall|j: int| 0 <= j < i ==> (#[trigger] names@[j])@ == items.usable(j).name@,
        decreases 6 - i,
    {
        names.push(items.usable_slot(i).name.clone());
        i += 1;
    }
    state.slot_items = names;
    assert(state@.slot_items =~= Seq::new(6, |i: int| items.usable(i).name@));

    match items.find_named("item_soul_ring", 7) {
        Some(slot) => {
            proof {
                settings.lemma_key_for_slot_name(slot as int);
            }
            state.available = true;
            state.can_cast = items.usable_slot(slot).is_castable();
            state.slot_key = settings.get_key_for_slot(usable_slot_name(slot));
        },
        None => {
            if state.available {
                state.available = false;
                state.slot_key = None;
                state.can_cast = false;
            }
        },
    }
}

/// Snapshots and presses keep the state within its reachable states.
pub proof fn lemma_ring_stays_well_formed(
    state: SoulRingView,
    items: Items,
    hero: Hero,
    settings: Settings,
    key: char,
    now: u64,
)
    requires
        state.wf(),
    ensures
        SoulRingView::initial().wf(),
        state.after_snapshot(items, hero, settings).wf(),
        state.after_press(key, settings, now).wf(),
{
    items.lemma_first_usable_is_first(named("item_soul_ring"@), 7);
}

/// The time of the last use never moves backwards.
pub proof fn lemma_last_use_is_monotonic(
    state: SoulRingView,
    key: char,
    settings: Settings,
    now: u64,
)
    ensures
        state.last_triggered matches Some(before) ==> (state.after_press(
            key,
            settings,
            now,
        ).last_triggered matches Some(after) && after >= before),
{
}

/// The ring is never used twice within its lockout.
///
/// If the ring is used at `first`, then it is not used at any later reading
/// that lies less than the lockout after `first`, whichever key is pressed
/// and whatever the snapshots in between have changed: they leave the time of
/// the last use alone.
pub proof fn lemma_no_second_use_within_cooldown(
    state: SoulRingView,
    later: SoulRingView,
    settings: Settings,
    first_key: char,
    first: u64,
    second_key: char,
    second: u64,
)
    requires
        state.fires(first_key, settings, first),
        later.last_triggered == state.after_press(first_key, settings, first).last_triggered,
        first <= second,
        second - first < settings.soul_ring.trigger_cooldown_ms,
    ensures
        !later.fires(second_key, settings, second),
{
}

/// A snapshot leaves the time of the last use alone.
pub proof fn lemma_snapshot_keeps_last_use(
    state: SoulRingView,
    items: Items,
    hero: Hero,
    settings: Settings,
)
    ensures
        state.after_snapshot(items, hero, settings).last_triggered == state.last_triggered,
{
}

/// The ring is never used for a key bound to an item of the skip list.
pub proof fn lemma_skip_list_is_honoured(
    state: SoulRingView,
    settings: Settings,
    key: char,
    now: u64,
)
    requires
        state.key_is_skipped(key, settings),
    ensures
        !state.fires(key, settings, now),
        state.press_plan(key, settings, now) == seq![InputAction::PressKey(key)],
        state.after_press(key, settings, now) == state,
{
}

} // verus!
