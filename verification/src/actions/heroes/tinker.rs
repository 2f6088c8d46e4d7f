//! Tinker: a fast cast loop with rearm verification.
//!
//! Two layers cooperate. Every snapshot refreshes a cache of what is ready.
//! A ticker that runs much faster than snapshots arrive reads only that
//! cache: it casts the first ready entry of the priority list, and when
//! nothing is ready and both tracked abilities are on cooldown, it issues
//! the rearm and waits. After the channel time it tells from the laser's
//! cooldown whether the rearm went through or was interrupted.

use vstd::prelude::*;
use crate::actions::common::{find_item_slot_by_name, key_of_item_holding};
use crate::actions::heroes::traits::HeroScript;
use crate::actions::soul_ring::{press_ability_with_soul_ring, SoulRingState, SoulRingView};
use crate::actions::store::TriggerStore;
use crate::clock::{elapsed_ms, elapsed_since};
use crate::config::settings::Settings;
use crate::input::simulation::InputAction;
use crate::models::gsi_event::{name_holds, GsiWebhookEvent};
use crate::text::{copy_names, names_of, str_eq, str_starts_with};

verus! {

/// Milliseconds between two ticks of the cast loop.
pub const COMBO_LOOP_INTERVAL_MS: u64 = 50;

/// Least time between two casts, in milliseconds.
pub const MIN_CAST_INTERVAL_MS: u64 = 80;

/// Channel time of the rearm plus a margin, in milliseconds: the least time
/// from issuing a rearm to judging it.
pub const REARM_VERIFY_MS: u64 = 1550;

/// Pause after a verified rearm, in milliseconds, for the cache to catch up
/// with the new cooldowns.
pub const REARM_SETTLE_MS: u64 = 500;

/// Age of the cache, in whole seconds, beyond which it is stale.
pub const CACHE_MAX_AGE_SECS: u64 = 2;

/// The settings as they were when the cache was refreshed.
#[derive(Debug, Clone)]
pub struct TinkerSettingsSnapshot {
    pub enabled: bool,
    pub combo_priority: Vec<String>,
    pub laser_key: char,
    pub matrix_key: char,
    pub warp_flare_key: char,
    pub rearm_key: char,
    pub auto_matrix_enabled: bool,
    pub auto_matrix_hp_threshold: u32,
    pub rearm_retry_on_interrupt: bool,
}

/// A carried item of the priority list.
#[derive(Debug, Clone)]
pub struct CachedItem {
    pub name: String,
    /// The key of the slot that holds the item.
    pub slot_key: char,
    /// Whether the item is castable and off cooldown.
    pub ready: bool,
    /// Whether the cast needs a click on the target.
    pub needs_click: bool,
}

/// The readiness summary that the cast loop reads.
#[derive(Debug, Clone)]
pub struct CachedGsiData {
    /// Clock reading at the refresh.
    pub last_update: u64,
    pub is_alive: bool,
    pub laser_ready: bool,
    pub laser_cooldown: u32,
    pub warp_flare_ready: bool,
    pub matrix_ready: bool,
    /// The carried items of the priority list.
    pub items: Vec<CachedItem>,
    pub health_percent: u32,
    pub settings_snapshot: TinkerSettingsSnapshot,
}

/// The state of the cast loop.
#[derive(Debug, Clone, Copy, PartialEq, Eq, Structural)]
pub struct TinkerState {
    /// Whether the loop is switched on.
    pub combo_active: bool,
    /// Clock reading at the last rearm.
    pub rearm_started: Option<u64>,
    /// The laser's cooldown when the rearm was issued.
    pub laser_cd_before_rearm: u32,
    /// Whether a rearm waits to be judged.
    pub awaiting_rearm_verify: bool,
    /// Clock reading at the last cast.
    pub last_cast: Option<u64>,
    /// Whether the ticker runs.
    pub loop_running: bool,
    /// Clock reading at the last verified rearm, until the pause after it
    /// is over.
    pub rearm_completed_at: Option<u64>,
}

/// A cached item as a mathematical value.
pub struct CachedItemView {
    pub name: Seq<char>,
    pub slot_key: char,
    pub ready: bool,
    pub needs_click: bool,
}

/// The readiness summary as a mathematical value.
pub struct CachedGsiView {
    pub last_update: u64,
    pub is_alive: bool,
    pub laser_ready: bool,
    pub laser_cooldown: u32,
    pub warp_flare_ready: bool,
    pub matrix_ready: bool,
    pub items: Seq<CachedItemView>,
    pub health_percent: u32,
    pub enabled: bool,
    pub combo_priority: Seq<Seq<char>>,
    pub laser_key: char,
    pub matrix_key: char,
    pub warp_flare_key: char,
    pub rearm_key: char,
    pub auto_matrix_enabled: bool,
    pub auto_matrix_hp_threshold: u32,
    pub rearm_retry_on_interrupt: bool,
}

impl View for CachedItem {
    type V = CachedItemView;

    open spec fn view(&self) -> CachedItemView {
        CachedItemView {
            name: self.name@,
            slot_key: self.slot_key,
            ready: self.ready,
            needs_click: self.needs_click,
        }
    }
}

/// The views of a list of cached items.
pub open spec fn item_views(items: Seq<CachedItem>) -> Seq<CachedItemView> {
    Seq::new(items.len(), |i: int| items[i]@)
}

impl View for CachedGsiData {
    type V = CachedGsiView;

    open spec fn view(&self) -> CachedGsiView {
        CachedGsiView {
            last_update: self.last_update,
            is_alive: self.is_alive,
            laser_ready: self.laser_ready,
            laser_cooldown: self.laser_cooldown,
            warp_flare_ready: self.warp_flare_ready,
            matrix_ready: self.matrix_ready,
            items: item_views(self.items@),
            health_percent: self.health_percent,
            enabled: self.settings_snapshot.enabled,
            combo_priority: names_of(self.settings_snapshot.combo_priority@),
            laser_key: self.settings_snapshot.laser_key,
            matrix_key: self.settings_snapshot.matrix_key,
            warp_flare_key: self.settings_snapshot.warp_flare_key,
            rearm_key: self.settings_snapshot.rearm_key,
            auto_matrix_enabled: self.settings_snapshot.auto_matrix_enabled,
            auto_matrix_hp_threshold: self.settings_snapshot.auto_matrix_hp_threshold,
            rearm_retry_on_interrupt: self.settings_snapshot.rearm_retry_on_interrupt,
        }
    }
}

/// The view of a cache that may be empty.
pub open spec fn cache_view(cache: Option<CachedGsiData>) -> Option<CachedGsiView> {
    match cache {
        Some(c) => Some(c@),
        None => None,
    }
}

/// What the loop casts.
#[derive(Debug, Clone, Copy, PartialEq, Eq, Structural)]
pub enum CastChoice {
    /// An ability, by its key.
    Ability(char),
    /// An item, by the key of its slot, with or without a click after it.
    Item(char, bool),
}

/// What one tick of the loop does.
#[derive(Debug, Clone, Copy, PartialEq, Eq, Structural)]
pub enum ComboDecision {
    /// Nothing is pressed.
    Nothing,
    /// The rearm was interrupted and is issued again.
    RetryRearm,
    /// The rearm went through.
    RearmVerified,
    /// An entry of the priority list is cast.
    Cast(CastChoice),
    /// Nothing is ready: the rearm is issued.
    Rearm,
}

/// The first ready cached item of this name, from position `from` on.
pub open spec fn first_ready_item(
    items: Seq<CachedItemView>,
    name: Seq<char>,
    from: int,
) -> Option<CastChoice>
    decreases items.len() - from,
{
    if from < 0 || from >= items.len() {
        None
    } else if items[from].name == name && items[from].ready {
        Some(CastChoice::Item(items[from].slot_key, items[from].needs_click))
    } else {
        first_ready_item(items, name, from + 1)
    }
}

/// What an entry of the priority list casts now: `laser` and `warp_flare`
/// cast the ability when it is ready, a name that starts with `item_` casts
/// the first ready cached item of that name, and any other entry casts
/// nothing.
pub open spec fn entry_cast(entry: Seq<char>, cached: CachedGsiView) -> Option<CastChoice> {
    if entry == "laser"@ {
        if cached.laser_ready {
            Some(CastChoice::Ability(cached.laser_key))
        } else {
            None
        }
    } else if entry == "warp_flare"@ {
        if cached.warp_flare_ready {
            Some(CastChoice::Ability(cached.warp_flare_key))
        } else {
            None
        }
    } else if "item_"@.is_prefix_of(entry) {
        first_ready_item(cached.items, entry, 0)
    } else {
        None
    }
}

/// The cast of the first entry of the priority list, from position `from`
/// on, that casts anything.
pub open spec fn first_cast(cached: CachedGsiView, from: int) -> Option<CastChoice>
    decreases cached.combo_priority.len() - from,
{
    if from < 0 || from >= cached.combo_priority.len() {
        None
    } else {
        match entry_cast(cached.combo_priority[from], cached) {
            Some(choice) => Some(choice),
            None => first_cast(cached, from + 1),
        }
    }
}

impl TinkerState {
    /// The state with the loop off and nothing pending.
    pub open spec fn initial() -> TinkerState {
        TinkerState {
            combo_active: false,
            rearm_started: None,
            laser_cd_before_rearm: 0,
            awaiting_rearm_verify: false,
            last_cast: None,
            loop_running: false,
            rearm_completed_at: None,
        }
    }

    /// The states that the loop can reach: a rearm waits to be judged
    /// exactly while the time of its issue is known.
    pub open spec fn wf(self) -> bool {
        self.awaiting_rearm_verify <==> self.rearm_started is Some
    }

    /// The tick does nothing at all: there is no cache, the cache is stale,
    /// the hero is dead, the feature is off, the last cast was less than the
    /// cast spacing ago, or the pause after a verified rearm is not over.
    pub open spec fn blocked(self, cache: Option<CachedGsiView>, now: u64) -> bool {
        match cache {
            None => true,
            Some(cached) => {
                ||| elapsed_ms(now, cached.last_update) / 1000 > CACHE_MAX_AGE_SECS
                ||| !cached.is_alive
                ||| !cached.enabled
                ||| (self.last_cast matches Some(t) && elapsed_ms(now, t) < MIN_CAST_INTERVAL_MS)
                ||| (self.rearm_completed_at matches Some(t) && elapsed_ms(now, t)
                    < REARM_SETTLE_MS)
            },
        }
    }

    /// A rearm waits to be judged, and it is known when it was issued.
    pub open spec fn verifying(self) -> bool {
        self.awaiting_rearm_verify && self.rearm_started is Some
    }

    /// What one tick does.
    ///
    /// A tick that is not blocked first judges a pending rearm, and only once
    /// more than the channel time has passed since it was issued: a laser
    /// that is still on cooldown, and was so before, means interruption, and
    /// the rearm is issued again if that is configured; anything else means
    /// success. Until then, and after an interruption that is not retried,
    /// nothing is cast. Without a pending rearm the first ready entry of the
    /// priority list is cast; if there is none and both tracked abilities are
    /// on cooldown, the rearm is issued.
    pub open spec fn decision(self, cache: Option<CachedGsiView>, now: u64) -> ComboDecision {
        if self.blocked(cache, now) {
            ComboDecision::Nothing
        } else {
            let cached = cache->0;
            if self.verifying() {
                if elapsed_ms(now, self.rearm_started->0) > REARM_VERIFY_MS {
                    if cached.laser_cooldown > 0 && self.laser_cd_before_rearm > 0 {
                        if cached.rearm_retry_on_interrupt {
                            ComboDecision::RetryRearm
                        } else {
                            ComboDecision::Nothing
                        }
                    } else {
                        ComboDecision::RearmVerified
                    }
                } else {
                    ComboDecision::Nothing
                }
            } else {
                match first_cast(cached, 0) {
                    Some(choice) => ComboDecision::Cast(choice),
                    None => if !cached.laser_ready && !cached.warp_flare_ready {
                        ComboDecision::Rearm
                    } else {
                        ComboDecision::Nothing
                    },
                }
            }
        }
    }

    /// The state after one tick.
    pub open spec fn after_tick(self, cache: Option<CachedGsiView>, now: u64) -> TinkerState {
        if self.blocked(cache, now) {
            self
        } else {
            let settled = TinkerState { rearm_completed_at: None, ..self };
            match self.decision(cache, now) {
                ComboDecision::Nothing => settled,
                ComboDecision::RetryRearm => TinkerState {
                    rearm_started: Some(now),
                    last_cast: Some(now),
                    ..settled
                },
                ComboDecision::RearmVerified => TinkerState {
                    awaiting_rearm_verify: false,
                    rearm_started: None,
                    rearm_completed_at: Some(now),
                    ..settled
                },
                ComboDecision::Cast(_) => TinkerState { last_cast: Some(now), ..settled },
                ComboDecision::Rearm => TinkerState {
                    laser_cd_before_rearm: (cache->0).laser_cooldown,
                    rearm_started: Some(now),
                    awaiting_rearm_verify: true,
                    last_cast: Some(now),
                    ..settled
                },
            }
        }
    }

    /// The state after the manual trigger: with the feature on, the loop is
    /// switched; switching it on clears what was pending and asks for the
    /// ticker.
    pub open spec fn after_trigger(self, enabled: bool) -> TinkerState {
        if !enabled {
            self
        } else if self.combo_active {
            TinkerState { combo_active: false, ..self }
        } else {
            TinkerState {
                combo_active: true,
                rearm_started: None,
                awaiting_rearm_verify: false,
                last_cast: None,
                loop_running: true,
                ..self
            }
        }
    }
}

/// The input steps of a decision. An ability is cast through the ring; an
/// item by its key, with a click 30 ms later where the cast needs one; both
/// rearms by the rearm key.
pub open spec fn decision_plan(
    decision: ComboDecision,
    cache: Option<CachedGsiView>,
    ring: SoulRingView,
    settings: Settings,
    now: u64,
) -> Seq<InputAction> {
    match decision {
        ComboDecision::Nothing => Seq::empty(),
        ComboDecision::RearmVerified => Seq::empty(),
        ComboDecision::RetryRearm => seq![InputAction::PressKey((cache->0).rearm_key)],
        ComboDecision::Rearm => seq![InputAction::PressKey((cache->0).rearm_key)],
        ComboDecision::Cast(CastChoice::Ability(key)) => ring.press_plan(key, settings, now),
        ComboDecision::Cast(CastChoice::Item(key, needs_click)) => if needs_click {
            seq![InputAction::PressKey(key), InputAction::Wait(30), InputAction::LeftClick]
        } else {
            seq![InputAction::PressKey(key)]
        },
    }
}

/// The ring after a decision: only the cast of an ability goes through it.
pub open spec fn ring_after_decision(
    decision: ComboDecision,
    ring: SoulRingView,
    settings: Settings,
    now: u64,
) -> SoulRingView {
    match decision {
        ComboDecision::Cast(CastChoice::Ability(key)) => ring.after_press(key, settings, now),
        _ => ring,
    }
}

/// Whether the item that the priority list names is ready: the first main
/// slot whose item name holds the entry decides.
pub open spec fn item_ready(event: GsiWebhookEvent, item_name: Seq<char>) -> bool {
    match event.items.first_usable(name_holds(item_name), 6) {
        Some(i) => event.items.usable(i).ready(),
        None => false,
    }
}

/// Whether the ability of this name is ready: the first ability slot of that
/// name decides.
pub open spec fn ability_ready(event: GsiWebhookEvent, ability_name: Seq<char>) -> bool {
    match event.abilities.first_named(ability_name, 6) {
        Some(i) => event.abilities.slot(i).ready(),
        None => false,
    }
}

/// The laser's cooldown, zero where the first four ability slots hold no
/// laser.
pub open spec fn laser_cooldown(event: GsiWebhookEvent) -> u32 {
    match event.abilities.first_named("tinker_laser"@, 4) {
        Some(i) => event.abilities.slot(i).cooldown,
        None => 0,
    }
}

/// The cached items for the first `n` entries of the priority list: one for
/// every entry that starts with `item_` and that the hero carries.
pub open spec fn cached_items_upto(
    event: GsiWebhookEvent,
    settings: Settings,
    priority: Seq<Seq<char>>,
    n: int,
) -> Seq<CachedItemView>
    decreases n,
{
    if n <= 0 {
        Seq::empty()
    } else {
        let before = cached_items_upto(event, settings, priority, n - 1);
        let entry = priority[n - 1];
        if "item_"@.is_prefix_of(entry) {
            match key_of_item_holding(event.items, settings, entry) {
                Some(key) => before.push(
                    CachedItemView {
                        name: entry,
                        slot_key: key,
                        ready: item_ready(event, entry),
                        needs_click: entry == "item_ethereal_blade"@,
                    },
                ),
                None => before,
            }
        } else {
            before
        }
    }
}

/// The readiness summary of a snapshot taken at `now`.
pub open spec fn summary_of(event: GsiWebhookEvent, settings: Settings, now: u64) -> CachedGsiView {
    let config = settings.heroes.tinker;
    let priority = names_of(config.combo_priority@);
    CachedGsiView {
        last_update: now,
        is_alive: event.hero.alive,
        laser_ready: ability_ready(event, "tinker_laser"@),
        laser_cooldown: laser_cooldown(event),
        warp_flare_ready: ability_ready(event, "tinker_warp_flare"@),
        matrix_ready: ability_ready(event, "tinker_defense_matrix"@),
        items: cached_items_upto(event, settings, priority, priority.len() as int),
        health_percent: event.hero.health_percent,
        enabled: config.enabled,
        combo_priority: priority,
        laser_key: config.laser_key,
        matrix_key: config.matrix_key,
        warp_flare_key: config.warp_flare_key,
        rearm_key: config.rearm_key,
        auto_matrix_enabled: config.auto_matrix_enabled,
        auto_matrix_hp_threshold: config.auto_matrix_hp_threshold,
        rearm_retry_on_interrupt: config.rearm_retry_on_interrupt,
    }
}

/// The defence matrix is cast on the hero: the feature and the automatic
/// matrix are on, the hero is alive, in danger and at or below the health
/// threshold, and the matrix is ready.
pub open spec fn auto_matrix_due(
    event: GsiWebhookEvent,
    settings: Settings,
    in_danger: bool,
) -> bool {
    let config = settings.heroes.tinker;
    &&& config.enabled
    &&& config.auto_matrix_enabled
    &&& event.hero.alive
    &&& in_danger
    &&& event.hero.health_percent <= config.auto_matrix_hp_threshold
    &&& ability_ready(event, "tinker_defense_matrix"@)
}

/// The steps of the automatic matrix: two presses of its key, which casts it
/// on the hero.
pub open spec fn auto_matrix_plan(
    event: GsiWebhookEvent,
    settings: Settings,
    in_danger: bool,
) -> Seq<InputAction> {
    if auto_matrix_due(event, settings, in_danger) {
        seq![
            InputAction::PressKey(settings.heroes.tinker.matrix_key),
            InputAction::PressKey(settings.heroes.tinker.matrix_key),
        ]
    } else {
        Seq::empty()
    }
}

/// The first ready cached item of this name.
fn find_ready_item(items: &Vec<CachedItem>, name: &str) -> (r: Option<CastChoice>)
    ensures
        r == first_ready_item(item_views(items@), name@, 0),
{
    let mut i: usize = 0;
    while i < items.len()
        invariant
            i <= items.len(),
            first_ready_item(item_views(items@), name@, 0) == first_ready_item(
                item_views(items@),
                name@,
                i as int,
            ),
        decreases items.len() - i,
    {
        let entry = &items[i];
        if str_eq(entry.name.as_str(), name) && entry.ready {
            return Some(CastChoice::Item(entry.slot_key, entry.needs_click));
        }
        i += 1;
    }
    None
}

/// What an entry of the priority list casts now.
fn cast_of_entry(entry: &str, cached: &CachedGsiData) -> (r: Option<CastChoice>)
    ensures
        r == entry_cast(entry@, cached@),
{
    if str_eq(entry, "laser") {
        if cached.laser_ready {
            Some(CastChoice::Ability(cached.settings_snapshot.laser_key))
        } else {
            None
        }
    } else if str_eq(entry, "warp_flare") {
        if cached.warp_flare_ready {
            Some(CastChoice::Ability(cached.settings_snapshot.warp_flare_key))
        } else {
            None
        }
    } else if str_starts_with(entry, "item_") {
        find_ready_item(&cached.items, entry)
    } else {
        None
    }
}

/// The cast of the first entry of the priority list that casts anything.
pub fn scan_priority(cached: &CachedGsiData) -> (r: Option<CastChoice>)
    ensures
        r == first_cast(cached@, 0),
{
    let priority = &cached.settings_snapshot.combo_priority;
    let mut i: usize = 0;
    while i < priority.len()
        invariant
            i <= priority.len(),
            priority == &cached.settings_snapshot.combo_priority,
            first_cast(cached@, 0) == first_cast(cached@, i as int),
        decreases priority.len() - i,
    {
        match cast_of_entry(priority[i].as_str(), cached) {
            Some(choice) => {
                return Some(choice);
            },
            None => {},
        }
        i += 1;
    }
    None
}

/// The handler of Tinker, with the state of the cast loop and the cache.
#[derive(Debug)]
pub struct TinkerScript {
    pub state: TinkerState,
    pub cache: Option<CachedGsiData>,
}

impl TinkerScript {
    pub fn new() -> (r: Self)
        ensures
            r.state == TinkerState::initial(),
            r.cache is None,
    {
        TinkerScript {
            state: TinkerState {
                combo_active: false,
                rearm_started: None,
                laser_cd_before_rearm: 0,
                awaiting_rearm_verify: false,
                last_cast: None,
                loop_running: false,
                rearm_completed_at: None,
            },
            cache: None,
        }
    }

    /// Refreshes the cache from a snapshot taken at `now_ms`.
    pub fn update_cache(&mut self, event: &GsiWebhookEvent, settings: &Settings, now_ms: u64)
        ensures
            cache_view(final(self).cache) == Some(summary_of(*event, *settings, now_ms)),
            final(self).state == old(self).state,
    {
        let config = &settings.heroes.tinker;
        let ghost priority = names_of(config.combo_priority@);
        let mut items: Vec<CachedItem> = Vec::new();
        let mut i: usize = 0;
        while i < config.combo_priority.len()
            invariant
                i <= config.combo_priority.len(),
                config == &settings.heroes.tinker,
                priority == names_of(config.combo_priority@),
                item_views(items@) == cached_items_upto(*event, *settings, priority, i as int),
            decreases config.combo_priority.len() - i,
        {
            let entry = &config.combo_priority[i];
            let ghost before = item_views(items@);
            if str_starts_with(entry.as_str(), "item_") {
                let found = find_item_slot_by_name(event, settings, entry.as_str());
                if found.is_some() {
                    let key = crate::text::key_or(found, ' ');
                    let ready = self.is_item_ready_static(event, entry.as_str());
                    let needs_click = str_eq(entry.as_str(), "item_ethereal_blade");
                    items.push(
                        CachedItem { name: entry.clone(), slot_key: key, ready, needs_click },
                    );
                    assert(item_views(items@) =~= before.push(
                        CachedItemView { name: entry@, slot_key: key, ready, needs_click },
                    ));
                }
            }
            i += 1;
        }
        let cached = CachedGsiData {
            last_update: now_ms,
            is_alive: event.hero.is_alive(),
            laser_ready: self.is_ability_ready_static(event, "tinker_laser"),
            laser_cooldown: self.get_laser_cooldown_static(event),
            warp_flare_ready: self.is_ability_ready_static(event, "tinker_warp_flare"),
            matrix_ready: self.is_ability_ready_static(event, "tinker_defense_matrix"),
            items,
            health_percent: event.hero.health_percent,
            settings_snapshot: TinkerSettingsSnapshot {
                enabled: config.enabled,
                combo_priority: copy_names(&config.combo_priority),
                laser_key: config.laser_key,
                matrix_key: config.matrix_key,
                warp_flare_key: config.warp_flare_key,
                rearm_key: config.rearm_key,
                auto_matrix_enabled: config.auto_matrix_enabled,
                auto_matrix_hp_threshold: config.auto_matrix_hp_threshold,
                rearm_retry_on_interrupt: config.rearm_retry_on_interrupt,
            },
        };
        self.cache = Some(cached);
    }

    /// The laser's cooldown as the snapshot reports it.
    pub fn get_laser_cooldown_static(&self, event: &GsiWebhookEvent) -> (r: u32)
        ensures
            r == laser_cooldown(*event),
    {
        match event.abilities.find_named("tinker_laser", 4) {
            Some(i) => event.abilities.ability(i).cooldown,
            None => 0,
        }
    }

    /// Whether the ability of this name is castable, off cooldown and
    /// learned.
    pub fn is_ability_ready_static(&self, event: &GsiWebhookEvent, ability_name: &str) -> (r: bool)
        ensures
            r == ability_ready(*event, ability_name@),
    {
        match event.abilities.find_named(ability_name, 6) {
            Some(i) => event.abilities.ability(i).is_ready(),
            None => false,
        }
    }

    /// Whether the item whose name holds `item_name` is castable and off
    /// cooldown.
    pub fn is_item_ready_static(&self, event: &GsiWebhookEvent, item_name: &str) -> (r: bool)
        ensures
            r == item_ready(*event, item_name@),
    {
        match event.items.find_holding(item_name, 6) {
            Some(i) => event.items.usable_slot(i).is_ready(),
            None => false,
        }
    }

    /// Casts the defence matrix on the hero when that is due.
    pub fn auto_matrix(
        &self,
        event: &GsiWebhookEvent,
        settings: &Settings,
        in_danger: bool,
    ) -> (steps: Vec<InputAction>)
        ensures
            steps@ == auto_matrix_plan(*event, *settings, in_danger),
    {
        let mut plan: Vec<InputAction> = Vec::new();
        let config = &settings.heroes.tinker;
        if !config.enabled || !config.auto_matrix_enabled {
            return plan;
        }
        if !event.hero.is_alive() {
            return plan;
        }
        if !in_danger {
            return plan;
        }
        if event.hero.health_percent > config.auto_matrix_hp_threshold {
            return plan;
        }
        if !self.is_ability_ready_static(event, "tinker_defense_matrix") {
            return plan;
        }
        plan.push(InputAction::PressKey(config.matrix_key));
        plan.push(InputAction::PressKey(config.matrix_key));
        plan
    }

    /// Whether this tick does nothing at all.
    pub fn is_blocked(&self, now_ms: u64) -> (r: bool)
        ensures
            r == self.state.blocked(cache_view(self.cache), now_ms),
    {
        match &self.cache {
            None => true,
            Some(cached) => {
                if elapsed_since(now_ms, cached.last_update) / 1000 > CACHE_MAX_AGE_SECS {
                    return true;
                }
                if !cached.is_alive {
                    return true;
                }
                if !cached.settings_snapshot.enabled {
                    return true;
                }
                match self.state.last_cast {
                    Some(t) => {
                        if elapsed_since(now_ms, t) < MIN_CAST_INTERVAL_MS {
                            return true;
                        }
                    },
                    None => {},
                }
                match self.state.rearm_completed_at {
                    Some(t) => {
                        if elapsed_since(now_ms, t) < REARM_SETTLE_MS {
                            return true;
                        }
                    },
                    None => {},
                }
                false
            },
        }
    }

    /// Decides what this tick does, without doing it.
    pub fn decide(&self, now_ms: u64) -> (r: ComboDecision)
        ensures
            r == self.state.decision(cache_view(self.cache), now_ms),
    {
        if self.is_blocked(now_ms) {
            return ComboDecision::Nothing;
        }
        let cached = match &self.cache {
            Some(c) => c,
            None => {
                return ComboDecision::Nothing;
            },
        };
        if self.state.awaiting_rearm_verify {
            match self.state.rearm_started {
                Some(started) => {
                    if elapsed_since(now_ms, started) > REARM_VERIFY_MS {
                        if cached.laser_cooldown > 0 && self.state.laser_cd_before_rearm > 0 {
                            if cached.settings_snapshot.rearm_retry_on_interrupt {
                                return ComboDecision::RetryRearm;
                            }
                            return ComboDecision::Nothing;
                        }
                        return ComboDecision::RearmVerified;
                    }
                    return ComboDecision::Nothing;
                },
                None => {},
            }
        }
        match scan_priority(cached) {
            Some(choice) => ComboDecision::Cast(choice),
            None => {
                if !cached.laser_ready && !cached.warp_flare_ready {
                    ComboDecision::Rearm
                } else {
                    ComboDecision::Nothing
                }
            },
        }
    }

    /// One tick of the cast loop: decides, records, and answers the input
    /// steps. Abilities are cast through the ring.
    pub fn combo_step(
        &mut self,
        ring: &mut SoulRingState,
        settings: &Settings,
        now_ms: u64,
    ) -> (steps: Vec<InputAction>)
        ensures
            final(self).state == old(self).state.after_tick(cache_view(old(self).cache), now_ms),
            final(self).cache == old(self).cache,
            steps@ == decision_plan(
                old(self).state.decision(cache_view(old(self).cache), now_ms),
                cache_view(old(self).cache),
                old(ring)@,
                *settings,
                now_ms,
            ),
            final(ring)@ == ring_after_decision(
                old(self).state.decision(cache_view(old(self).cache), now_ms),
                old(ring)@,
                *settings,
                now_ms,
            ),
    {
        let mut plan: Vec<InputAction> = Vec::new();
        if self.is_blocked(now_ms) {
            return plan;
        }
        let decision = self.decide(now_ms);
        let rearm_key = match &self.cache {
            Some(c) => crate::text::key_or(Some(c.settings_snapshot.rearm_key), ' '),
            None => ' ',
        };
        let laser_cooldown = match &self.cache {
            Some(c) => c.laser_cooldown,
            None => 0,
        };
        self.state.rearm_completed_at = None;
        match decision {
            ComboDecision::Nothing => {},
            ComboDecision::RetryRearm => {
                plan.push(InputAction::PressKey(rearm_key));
                self.state.rearm_started = Some(now_ms);
                self.state.last_cast = Some(now_ms);
            },
            ComboDecision::RearmVerified => {
                self.state.awaiting_rearm_verify = false;
                self.state.rearm_started = None;
                self.state.rearm_completed_at = Some(now_ms);
            },
            ComboDecision::Cast(CastChoice::Ability(key)) => {
                let key = crate::text::key_or(Some(key), ' ');
                plan = press_ability_with_soul_ring(ring, key, settings, now_ms);
                self.state.last_cast = Some(now_ms);
            },
            ComboDecision::Cast(CastChoice::Item(key, needs_click)) => {
                let key = crate::text::key_or(Some(key), ' ');
                plan.push(InputAction::PressKey(key));
                if needs_click {
                    plan.push(InputAction::Wait(30));
                    plan.push(InputAction::LeftClick);
                }
                self.state.last_cast = Some(now_ms);
            },
            ComboDecision::Rearm => {
                self.state.laser_cd_before_rearm = laser_cooldown;
                plan.push(InputAction::PressKey(rearm_key));
                self.state.rearm_started = Some(now_ms);
                self.state.awaiting_rearm_verify = true;
                self.state.last_cast = Some(now_ms);
            },
        }
        assert(plan@ =~= decision_plan(
            decision,
            cache_view(old(self).cache),
            old(ring)@,
            *settings,
            now_ms,
        ));
        plan
    }

    /// Records that the ticker has stopped.
    pub fn loop_stopped(&mut self)
        ensures
            final(self).state == (TinkerState { loop_running: false, ..old(self).state }),
            final(self).cache == old(self).cache,
    {
        self.state.loop_running = false;
    }
}

impl HeroScript for TinkerScript {
    /// Refreshes the cache and casts the defence matrix when that is due.
    fn handle_gsi_event(
        &mut self,
        event: &GsiWebhookEvent,
        settings: &Settings,
        store: &mut TriggerStore,
        now_ms: u64,
    ) -> (steps: Vec<InputAction>)
        ensures
            cache_view(final(self).cache) == Some(summary_of(*event, *settings, now_ms)),
            final(self).state == old(self).state,
            steps@ == auto_matrix_plan(*event, *settings, old(store).in_danger()),
            *final(store) == *old(store),
    {
        self.update_cache(event, settings, now_ms);
        let in_danger = crate::actions::danger_detector::is_in_danger(&store.danger);
        self.auto_matrix(event, settings, in_danger)
    }

    /// Switches the cast loop on or off, as far as the feature is on.
    fn handle_standalone_trigger(
        &mut self,
        settings: &Settings,
        store: &mut TriggerStore,
        now_ms: u64,
    ) -> (steps: Vec<InputAction>)
        ensures
            final(self).state == old(self).state.after_trigger(settings.heroes.tinker.enabled),
            final(self).cache == old(self).cache,
            steps@.len() == 0,
            *final(store) == *old(store),
    {
        if settings.heroes.tinker.enabled {
            self.state.combo_active = !self.state.combo_active;
            if self.state.combo_active {
                self.state.rearm_started = None;
                self.state.awaiting_rearm_verify = false;
                self.state.last_cast = None;
                self.state.loop_running = true;
            }
        }
        Vec::new()
    }

    fn hero_name(&self) -> (r: &'static str)
        ensures
            r@ == crate::models::heroes::Hero::Tinker.game_name(),
    {
        crate::models::heroes::Hero::Tinker.to_game_name()
    }
}

/// Whether the cast loop is switched on.
pub fn is_combo_active(state: &TinkerState) -> (r: bool)
    ensures
        r == state.combo_active,
{
    state.combo_active
}

/// Every transition keeps the loop within its reachable states.
pub proof fn lemma_loop_stays_well_formed(
    state: TinkerState,
    cache: Option<CachedGsiView>,
    enabled: bool,
    now: u64,
)
    requires
        state.wf(),
    ensures
        TinkerState::initial().wf(),
        state.after_tick(cache, now).wf(),
        state.after_trigger(enabled).wf(),
{
}

/// A rearm is never judged early.
///
/// While a rearm waits to be judged, a tick concludes neither success nor
/// interruption unless more than the channel time has passed since the rearm
/// was issued; until then the tick casts nothing and leaves the pending
/// rearm as it is.
pub proof fn lemma_rearm_is_never_judged_early(
    state: TinkerState,
    cache: Option<CachedGsiView>,
    issued: u64,
    now: u64,
)
    requires
        state.awaiting_rearm_verify,
        state.rearm_started == Some(issued),
        elapsed_ms(now, issued) <= REARM_VERIFY_MS,
    ensures
        state.decision(cache, now) == ComboDecision::Nothing,
        state.after_tick(cache, now).awaiting_rearm_verify,
        state.after_tick(cache, now).rearm_started == Some(issued),
{
}

/// Whoever concludes, concludes late enough: a tick that finds the rearm
/// verified or interrupted comes more than the channel time after the rearm
/// was issued.
pub proof fn lemma_conclusion_comes_after_channel(
    state: TinkerState,
    cache: Option<CachedGsiView>,
    now: u64,
)
    requires
        state.decision(cache, now) == ComboDecision::RearmVerified || state.decision(cache, now)
            == ComboDecision::RetryRearm,
    ensures
        state.awaiting_rearm_verify,
        state.rearm_started matches Some(issued) && elapsed_ms(now, issued) > REARM_VERIFY_MS,
{
}

/// A stale cache blocks the tick: state and ring are left alone and nothing
/// is pressed.
pub proof fn lemma_stale_cache_is_a_no_op(
    state: TinkerState,
    cached: CachedGsiView,
    ring: SoulRingView,
    settings: Settings,
    now: u64,
)
    requires
        elapsed_ms(now, cached.last_update) / 1000 > CACHE_MAX_AGE_SECS,
    ensures
        state.after_tick(Some(cached), now) == state,
        decision_plan(state.decision(Some(cached), now), Some(cached), ring, settings, now)
            == Seq::<InputAction>::empty(),
        ring_after_decision(state.decision(Some(cached), now), ring, settings, now) == ring,
{
}

/// Two casts are never closer than the cast spacing: right after a tick that
/// pressed anything, every tick within the spacing is blocked.
pub proof fn lemma_casts_are_spaced(
    state: TinkerState,
    cache: Option<CachedGsiView>,
    later_cache: Option<CachedGsiView>,
    now: u64,
    later: u64,
)
    requires
        state.decision(cache, now) != ComboDecision::Nothing,
        state.decision(cache, now) != ComboDecision::RearmVerified,
        now <= later,
        later - now < MIN_CAST_INTERVAL_MS,
    ensures
        state.after_tick(cache, now).blocked(later_cache, later),
{
}

} // verus!
