//! Behaviours that every hero shares: toggling the armlet, finding items,
//! healing and defending.

use vstd::prelude::*;
use crate::clock::{advance, cooldown_elapsed, cooldown_over, later_of};
use crate::config::settings::Settings;
use crate::input::simulation::InputAction;
use crate::models::gsi_event::{
    castable_and_named,
    name_holds,
    named,
    GsiWebhookEvent,
    Hero,
    Items,
};
use crate::models::items::Item;
use crate::text::str_eq;

verus! {

/// When the armlet is toggled.
#[derive(Debug, Clone, Copy, PartialEq, Eq, Structural)]
pub struct ArmletConfig {
    /// Health below which the armlet is toggled.
    pub toggle_threshold: u32,
    /// Added to the threshold, to toggle a little early.
    pub predictive_offset: u32,
    /// Least time between two toggles, in milliseconds.
    pub toggle_cooldown_ms: u64,
}

/// What the toggle remembers between snapshots.
#[derive(Debug, Clone, Copy, PartialEq, Eq, Structural)]
pub struct ArmletState {
    /// Clock reading at the last toggle.
    pub last_toggle: Option<u64>,
    /// Health at a toggle that was made at critical health, until health is
    /// safe again or the emergency toggle was made.
    pub critical_hp: Option<u32>,
}

/// What the toggle does on a snapshot.
#[derive(Debug, Clone, Copy, PartialEq, Eq, Structural)]
pub enum ArmletOutcome {
    /// Nothing is pressed.
    Idle,
    /// The armlet is toggled off and on.
    Toggle,
    /// The armlet is toggled off and on although the lockout is not over.
    Emergency,
}

impl ArmletConfig {
    /// The configuration used for heroes without settings of their own.
    pub fn standard() -> (r: Self)
        ensures
            r == (ArmletConfig {
                toggle_threshold: 320,
                predictive_offset: 30,
                toggle_cooldown_ms: 250,
            }),
    {
        ArmletConfig { toggle_threshold: 320, predictive_offset: 30, toggle_cooldown_ms: 250 }
    }

    /// Health below which the armlet is toggled: threshold plus offset.
    pub open spec fn trigger_point(self) -> int {
        self.toggle_threshold + self.predictive_offset
    }

    /// Health below which a toggle that did not help calls for the
    /// emergency toggle: half the threshold.
    pub open spec fn critical_point(self) -> int {
        self.toggle_threshold as int / 2
    }
}

impl ArmletState {
    /// The state before any snapshot.
    pub open spec fn initial() -> ArmletState {
        ArmletState { last_toggle: None, critical_hp: None }
    }

    pub fn new() -> (r: Self)
        ensures
            r == ArmletState::initial(),
    {
        ArmletState { last_toggle: None, critical_hp: None }
    }

    /// What the toggle does for a living hero who carries a bound armlet.
    ///
    /// The emergency comes first: a toggle was made at critical health, and
    /// health is still critical and no higher than then. It ignores the
    /// lockout and the stun. Otherwise health below the trigger point asks
    /// for a toggle, which a stun or a running lockout holds back.
    pub open spec fn outcome(self, hero: Hero, config: ArmletConfig, now: u64) -> ArmletOutcome {
        if self.critical_hp matches Some(seen) && hero.health < config.critical_point()
            && hero.health <= seen {
            ArmletOutcome::Emergency
        } else if hero.health < config.trigger_point() && !hero.stunned && cooldown_over(
            self.last_toggle,
            now,
            config.toggle_cooldown_ms,
        ) {
            ArmletOutcome::Toggle
        } else {
            ArmletOutcome::Idle
        }
    }

    /// The state after the snapshot.
    ///
    /// Both toggles record their time. The emergency clears the critical
    /// mark, so that it is not repeated on every snapshot. A toggle at
    /// critical health sets the mark. Health at or above the trigger point
    /// clears it.
    pub open spec fn after(self, hero: Hero, config: ArmletConfig, now: u64) -> ArmletState {
        match self.outcome(hero, config, now) {
            ArmletOutcome::Emergency => ArmletState {
                last_toggle: Some(later_of(self.last_toggle, now)),
                critical_hp: None,
            },
            ArmletOutcome::Toggle => ArmletState {
                last_toggle: Some(later_of(self.last_toggle, now)),
                critical_hp: if hero.health < config.critical_point() {
                    Some(hero.health)
                } else {
                    self.critical_hp
                },
            },
            ArmletOutcome::Idle => if hero.health >= config.trigger_point() {
                ArmletState { critical_hp: None, ..self }
            } else {
                self
            },
        }
    }
}

impl Default for ArmletState {
    fn default() -> (r: Self)
        ensures
            r == ArmletState::initial(),
    {
        ArmletState::new()
    }
}

/// The key of the first usable slot that holds an item of exactly this name.
pub open spec fn key_of_item(items: Items, settings: Settings, name: Seq<char>) -> Option<char> {
    match items.first_usable(named(name), 7) {
        Some(i) => Some(settings.keybindings.slot_key(i)),
        None => None,
    }
}

/// The key of the first usable slot whose item name holds `part`.
pub open spec fn key_of_item_holding(
    items: Items,
    settings: Settings,
    part: Seq<char>,
) -> Option<char> {
    match items.first_usable(name_holds(part), 7) {
        Some(i) => Some(settings.keybindings.slot_key(i)),
        None => None,
    }
}

/// The key of the first usable slot that holds a castable item of exactly
/// this name.
pub open spec fn key_of_castable_item(
    items: Items,
    settings: Settings,
    name: Seq<char>,
) -> Option<char> {
    match items.first_usable(castable_and_named(name), 7) {
        Some(i) => Some(settings.keybindings.slot_key(i)),
        None => None,
    }
}

/// The key bound to the `slot`-th usable slot.
pub fn key_of_usable_slot(settings: &Settings, slot: usize) -> (r: char)
    ensures
        r == settings.keybindings.slot_key(slot as int),
{
    settings.keybindings.key_of_slot(slot)
}

/// What the toggle does on a snapshot: nothing without an armlet in a usable
/// slot and nothing for a dead hero; otherwise what `ArmletState::outcome`
/// says.
pub open spec fn armlet_outcome(
    state: ArmletState,
    event: GsiWebhookEvent,
    config: ArmletConfig,
    now: u64,
) -> ArmletOutcome {
    if event.items.first_usable(named("item_armlet"@), 7) is None || !event.hero.alive {
        ArmletOutcome::Idle
    } else {
        state.outcome(event.hero, config, now)
    }
}

/// The toggle state after a snapshot.
pub open spec fn armlet_after(
    state: ArmletState,
    event: GsiWebhookEvent,
    config: ArmletConfig,
    now: u64,
) -> ArmletState {
    if event.items.first_usable(named("item_armlet"@), 7) is None || !event.hero.alive {
        state
    } else {
        state.after(event.hero, config, now)
    }
}

/// The steps of the toggle: two presses of the armlet's key, or nothing.
pub open spec fn armlet_plan(
    state: ArmletState,
    event: GsiWebhookEvent,
    settings: Settings,
    config: ArmletConfig,
    now: u64,
) -> Seq<InputAction> {
    match armlet_outcome(state, event, config, now) {
        ArmletOutcome::Idle => Seq::empty(),
        _ => {
            let key = key_of_item(event.items, settings, "item_armlet"@)->0;
            seq![InputAction::PressKey(key), InputAction::PressKey(key)]
        },
    }
}

/// Decides on a snapshot whether the armlet is toggled, and records it.
pub fn armlet_toggle(
    state: &mut ArmletState,
    event: &GsiWebhookEvent,
    settings: &Settings,
    config: &ArmletConfig,
    now_ms: u64,
) -> (steps: Vec<InputAction>)
    ensures
        steps@ == armlet_plan(*old(state), *event, *settings, *config, now_ms),
        *final(state) == armlet_after(*old(state), *event, *config, now_ms),
{
    let mut plan: Vec<InputAction> = Vec::new();
    let slot = match event.items.find_named("item_armlet", 7) {
        Some(i) => i,
        None => {
            return plan;
        },
    };
    let key = key_of_usable_slot(settings, slot);
    if !event.hero.is_alive() {
        return plan;
    }
    let health = event.hero.health;
    let trigger_point: u64 = config.toggle_threshold as u64 + config.predictive_offset as u64;
    let critical_point = config.toggle_threshold / 2;

    match state.critical_hp {
        Some(seen) => {
            if health < critical_point && health <= seen {
                plan.push(InputAction::PressKey(key));
                plan.push(InputAction::PressKey(key));
                state.critical_hp = None;
                state.last_toggle = Some(advance(state.last_toggle, now_ms));
                return plan;
            }
        },
        None => {},
    }
    if (health as u64) < trigger_point {
        if event.hero.is_stunned() {
            return plan;
        }
        if !cooldown_elapsed(state.last_toggle, now_ms, config.toggle_cooldown_ms) {
            return plan;
        }
        plan.push(InputAction::PressKey(key));
        plan.push(InputAction::PressKey(key));
        state.last_toggle = Some(advance(state.last_toggle, now_ms));
        if health < critical_point {
            state.critical_hp = Some(health);
        }
    } else {
        state.critical_hp = None;
    }
    plan
}

/// Two ordinary toggles are never closer than the lockout: within the
/// lockout after a toggle, the armlet is pressed again only by the emergency.
pub proof fn lemma_only_emergency_breaks_lockout(
    state: ArmletState,
    later: ArmletState,
    first_hero: Hero,
    second_hero: Hero,
    config: ArmletConfig,
    first: u64,
    second: u64,
)
    requires
        state.outcome(first_hero, config, first) != ArmletOutcome::Idle,
        later.last_toggle == state.after(first_hero, config, first).last_toggle,
        first <= second,
        second - first < config.toggle_cooldown_ms,
    ensures
        later.outcome(second_hero, config, second) != ArmletOutcome::Toggle,
{
}

/// The emergency toggle is made once: the state it leaves calls for no
/// second emergency, whatever the next snapshot says.
pub proof fn lemma_emergency_is_not_repeated(
    state: ArmletState,
    hero: Hero,
    next_hero: Hero,
    config: ArmletConfig,
    now: u64,
    next: u64,
)
    requires
        state.outcome(hero, config, now) == ArmletOutcome::Emergency,
    ensures
        state.after(hero, config, now).outcome(next_hero, config, next)
            != ArmletOutcome::Emergency,
{
}

/// The key of the first usable slot whose item name holds the game name of
/// `item`.
pub fn find_item_slot(event: &GsiWebhookEvent, settings: &Settings, item: Item) -> (r: Option<char>)
    ensures
        r == key_of_item_holding(event.items, *settings, item.game_name()),
{
    find_item_slot_by_name(event, settings, item.to_game_name())
}

/// The key of the first usable slot whose item name holds `item_name`: the
/// six main slots are looked at in order, then the neutral slot.
pub fn find_item_slot_by_name(
    event: &GsiWebhookEvent,
    settings: &Settings,
    item_name: &str,
) -> (r: Option<char>)
    ensures
        r == key_of_item_holding(event.items, *settings, item_name@),
{
    match event.items.find_holding(item_name, 7) {
        Some(i) => Some(key_of_usable_slot(settings, i)),
        None => None,
    }
}

/// The steps that use an item: a press of its key, and for the cape a second
/// press after 50 ms, which casts it on the hero.
pub open spec fn use_item_plan(key: char, item_name: Seq<char>) -> Seq<InputAction> {
    if item_name == "item_glimmer_cape"@ {
        seq![InputAction::PressKey(key), InputAction::Wait(50), InputAction::PressKey(key)]
    } else {
        seq![InputAction::PressKey(key)]
    }
}

/// The healing items in the order in which they are tried: the strongest
/// first while in danger, the cheapest first otherwise.
pub open spec fn healing_priority(in_danger: bool) -> Seq<Seq<char>> {
    if in_danger {
        seq![
            "item_cheese"@,
            "item_greater_faerie_fire"@,
            "item_enchanted_mango"@,
            "item_magic_wand"@,
            "item_faerie_fire"@,
        ]
    } else {
        seq![
            "item_cheese"@,
            "item_faerie_fire"@,
            "item_magic_wand"@,
            "item_enchanted_mango"@,
            "item_greater_faerie_fire"@,
        ]
    }
}

/// The health percentage below which healing items are used.
pub open spec fn healing_threshold(settings: Settings, in_danger: bool) -> u32 {
    if in_danger && settings.danger_detection.enabled {
        settings.danger_detection.healing_threshold_in_danger
    } else {
        settings.common.survivability_hp_threshold
    }
}

/// How many healing items may be used on one snapshot.
pub open spec fn healing_budget(settings: Settings, in_danger: bool) -> u32 {
    if in_danger && settings.danger_detection.enabled {
        settings.danger_detection.max_healing_items_per_danger
    } else {
        1
    }
}

/// The uses of the items `names`, in order, as long as `budget` lasts: of
/// each kind the first castable one in a usable slot.
pub open spec fn use_first_castable(
    items: Items,
    settings: Settings,
    names: Seq<Seq<char>>,
    budget: nat,
) -> Seq<InputAction>
    decreases names.len(),
{
    if names.len() == 0 || budget == 0 {
        Seq::empty()
    } else {
        match key_of_castable_item(items, settings, names[0]) {
            Some(key) => use_item_plan(key, names[0]) + use_first_castable(
                items,
                settings,
                names.drop_first(),
                (budget - 1) as nat,
            ),
            None => use_first_castable(items, settings, names.drop_first(), budget),
        }
    }
}

/// The healing that a snapshot calls for: none for a dead hero or at health
/// at or above the threshold; otherwise the healing items in order of
/// priority, within the budget.
pub open spec fn healing_plan(
    event: GsiWebhookEvent,
    settings: Settings,
    in_danger: bool,
) -> Seq<InputAction> {
    if !event.hero.alive || event.hero.health_percent >= healing_threshold(settings, in_danger) {
        Seq::empty()
    } else {
        use_first_castable(
            event.items,
            settings,
            healing_priority(in_danger),
            healing_budget(settings, in_danger) as nat,
        )
    }
}

/// Health in percent of the maximum, rounded down; `None` where the maximum
/// is reported as zero.
pub open spec fn health_share(hero: Hero) -> Option<int> {
    if hero.max_health == 0 {
        None
    } else {
        Some(hero.health as int * 100 / hero.max_health as int)
    }
}

/// Whether the lifesteal item may be used: health is at or below its
/// threshold. A snapshot without a maximum health says nothing, and the item
/// is kept.
pub open spec fn satanic_allowed(hero: Hero, settings: Settings) -> bool {
    match health_share(hero) {
        Some(share) => share <= settings.danger_detection.satanic_hp_threshold,
        None => false,
    }
}

/// The use of one defensive item, if it is switched on and carried castable.
pub open spec fn defensive_use(
    event: GsiWebhookEvent,
    settings: Settings,
    name: Seq<char>,
    enabled: bool,
) -> Seq<InputAction> {
    if !enabled {
        Seq::empty()
    } else {
        match key_of_castable_item(event.items, settings, name) {
            Some(key) => use_item_plan(key, name),
            None => Seq::empty(),
        }
    }
}

/// The defence that a snapshot calls for: nothing unless detection is on,
/// the hero is in danger and alive; otherwise every defensive item that is
/// switched on and ready, in a fixed order.
pub open spec fn defensive_plan(
    event: GsiWebhookEvent,
    settings: Settings,
    in_danger: bool,
) -> Seq<InputAction> {
    let config = settings.danger_detection;
    if !config.enabled || !in_danger || !event.hero.alive {
        Seq::empty()
    } else {
        defensive_use(event, settings, "item_black_king_bar"@, config.auto_bkb) + defensive_use(
            event,
            settings,
            "item_satanic"@,
            config.auto_satanic && satanic_allowed(event.hero, settings),
        ) + defensive_use(event, settings, "item_blade_mail"@, config.auto_blade_mail)
            + defensive_use(event, settings, "item_glimmer_cape"@, config.auto_glimmer_cape)
            + defensive_use(event, settings, "item_ghost"@, config.auto_ghost_scepter)
            + defensive_use(event, settings, "item_shivas_guard"@, config.auto_shivas_guard)
    }
}

/// What the default handler does on a snapshot: the armlet toggle with the
/// standard configuration, then healing, then defence.
pub open spec fn default_strategy_plan(
    armlet: ArmletState,
    event: GsiWebhookEvent,
    settings: Settings,
    in_danger: bool,
    now: u64,
) -> Seq<InputAction> {
    let standard = ArmletConfig {
        toggle_threshold: 320,
        predictive_offset: 30,
        toggle_cooldown_ms: 250,
    };
    armlet_plan(armlet, event, settings, standard, now) + healing_plan(event, settings, in_danger)
        + defensive_plan(event, settings, in_danger)
}

/// The healing items in the order in which they are tried.
fn healing_priority_list(in_danger: bool) -> (r: Vec<&'static str>)
    ensures
        r@.len() == 5,
        healing_priority(in_danger).len() == 5,
        forall|i: int| 0 <= i < 5 ==> (#[trigger] r@[i])@ == healing_priority(in_danger)[i],
{
    let mut names: Vec<&'static str> = Vec::new();
    if in_danger {
        names.push("item_cheese");
        names.push("item_greater_faerie_fire");
        names.push("item_enchanted_mango");
        names.push("item_magic_wand");
        names.push("item_faerie_fire");
    } else {
        names.push("item_cheese");
        names.push("item_faerie_fire");
        names.push("item_magic_wand");
        names.push("item_enchanted_mango");
        names.push("item_greater_faerie_fire");
    }
    names
}

/// Appends the steps that use the item in a usable slot.
fn push_use_item(plan: &mut Vec<InputAction>, key: char, item_name: &str)
    ensures
        final(plan)@ == old(plan)@ + use_item_plan(key, item_name@),
{
    plan.push(InputAction::PressKey(key));
    if str_eq(item_name, "item_glimmer_cape") {
        plan.push(InputAction::Wait(50));
        plan.push(InputAction::PressKey(key));
    }
}

/// Appends the use of one defensive item, if it is switched on and carried
/// castable.
fn push_defensive_use(
    plan: &mut Vec<InputAction>,
    event: &GsiWebhookEvent,
    settings: &Settings,
    name: &str,
    enabled: bool,
)
    ensures
        final(plan)@ == old(plan)@ + defensive_use(*event, *settings, name@, enabled),
{
    if enabled {
        match event.items.find_castable_named(name) {
            Some(slot) => {
                let key = key_of_usable_slot(settings, slot);
                push_use_item(plan, key, name);
            },
            None => {
            },
        }
    } else {
    }
}

/// The survival behaviours that every hero shares, under one configuration.
pub struct SurvivabilityActions<'a> {
    pub settings: &'a Settings,
}

impl<'a> SurvivabilityActions<'a> {
    pub fn new(settings: &'a Settings) -> (r: Self)
        ensures
            r.settings == settings,
    {
        SurvivabilityActions { settings }
    }

    /// The default handler: toggles the armlet under the standard
    /// configuration, heals, and defends. `in_danger` is the detector's
    /// answer for this snapshot.
    pub fn execute_default_strategy(
        &self,
        event: &GsiWebhookEvent,
        armlet: &mut ArmletState,
        in_danger: bool,
        now_ms: u64,
    ) -> (steps: Vec<InputAction>)
        ensures
            steps@ == default_strategy_plan(
                *old(armlet),
                *event,
                *self.settings,
                in_danger,
                now_ms,
            ),
            *final(armlet) == armlet_after(*old(armlet), *event, ArmletConfig {
                toggle_threshold: 320,
                predictive_offset: 30,
                toggle_cooldown_ms: 250,
            }, now_ms),
    {
        let mut plan = self.check_and_toggle_armlet(event, armlet, now_ms);
        let mut healing = self.check_and_use_healing_items(event, in_danger);
        let mut defence = self.use_defensive_items_if_danger(event, in_danger);
        plan.append(&mut healing);
        plan.append(&mut defence);
        plan
    }

    /// Uses healing items when health is below the threshold that holds for
    /// the hero's situation.
    pub fn check_and_use_healing_items(
        &self,
        event: &GsiWebhookEvent,
        in_danger: bool,
    ) -> (steps: Vec<InputAction>)
        ensures
            steps@ == healing_plan(*event, *self.settings, in_danger),
    {
        let mut plan: Vec<InputAction> = Vec::new();
        if !event.hero.is_alive() {
            return plan;
        }
        let heightened = in_danger && self.settings.danger_detection.enabled;
        let threshold = if heightened {
            self.settings.danger_detection.healing_threshold_in_danger
        } else {
            self.settings.common.survivability_hp_threshold
        };
        if event.hero.health_percent >= threshold {
            return plan;
        }
        let max_items: u32 = if heightened {
            self.settings.danger_detection.max_healing_items_per_danger
        } else {
            1
        };
        let names = healing_priority_list(in_danger);
        let ghost all = healing_priority(in_danger);
        let mut items_used: u32 = 0;
        let mut i: usize = 0;
        assert(all.skip(0) =~= all);
        while i < 5 && items_used < max_items
            invariant
                i <= 5,
                names@.len() == 5,
                all == healing_priority(in_danger),
                all.len() == 5,
                forall|k: int| 0 <= k < 5 ==> (#[trigger] names@[k])@ == all[k],
                items_used <= max_items,
                items_used <= i,
                plan@ + use_first_castable(
                    event.items,
                    *self.settings,
                    all.skip(i as int),
                    (max_items - items_used) as nat,
                ) == use_first_castable(event.items, *self.settings, all, max_items as nat),
            decreases 5 - i,
        {
            let ghost rest = all.skip(i as int);
            assert(rest.drop_first() =~= all.skip(i + 1));
            let ghost before = plan@;
            match event.items.find_castable_named(names[i]) {
                Some(slot) => {
                    let key = key_of_usable_slot(self.settings, slot);
                    push_use_item(&mut plan, key, names[i]);
                    items_used += 1;
                    assert(plan@ + use_first_castable(
                        event.items,
                        *self.settings,
                        all.skip(i + 1),
                        (max_items - items_used) as nat,
                    ) =~= before + use_first_castable(
                        event.items,
                        *self.settings,
                        rest,
                        (max_items - (items_used - 1)) as nat,
                    ));
                },
                None => {},
            }
            i += 1;
        }
        plan
    }

    /// The steps that use the item in the usable slot of this name: none for
    /// a name that is no usable slot.
    pub fn use_item(&self, slot: &str, item_name: &str) -> (steps: Vec<InputAction>)
        ensures
            steps@ == (match self.settings.key_for_slot(slot@) {
                Some(key) => use_item_plan(key, item_name@),
                None => Seq::empty(),
            }),
    {
        let mut plan: Vec<InputAction> = Vec::new();
        let bound = self.settings.get_key_for_slot(slot);
        if bound.is_some() {
            let key = crate::text::key_or(bound, ' ');
            push_use_item(&mut plan, key, item_name);
        }
        plan
    }

    /// Uses every defensive item that is switched on and ready, while the
    /// hero is in danger.
    pub fn use_defensive_items_if_danger(
        &self,
        event: &GsiWebhookEvent,
        in_danger: bool,
    ) -> (steps: Vec<InputAction>)
        ensures
            steps@ == defensive_plan(*event, *self.settings, in_danger),
    {
        let mut plan: Vec<InputAction> = Vec::new();
        let config = &self.settings.danger_detection;
        if !config.enabled || !in_danger || !event.hero.is_alive() {
            return plan;
        }
        let satanic_ok = if event.hero.max_health == 0 {
            false
        } else {
            let share: u64 = (event.hero.health as u64 * 100) / (event.hero.max_health as u64);
            share <= config.satanic_hp_threshold as u64
        };
        push_defensive_use(&mut plan, event, self.settings, "item_black_king_bar", config.auto_bkb);
        push_defensive_use(
            &mut plan,
            event,
            self.settings,
            "item_satanic",
            config.auto_satanic && satanic_ok,
        );
        push_defensive_use(
            &mut plan,
            event,
            self.settings,
            "item_blade_mail",
            config.auto_blade_mail,
        );
        push_defensive_use(
            &mut plan,
            event,
            self.settings,
            "item_glimmer_cape",
            config.auto_glimmer_cape,
        );
        push_defensive_use(
            &mut plan,
            event,
            self.settings,
            "item_ghost",
            config.auto_ghost_scepter,
        );
        push_defensive_use(
            &mut plan,
            event,
            self.settings,
            "item_shivas_guard",
            config.auto_shivas_guard,
        );
        plan
    }

    /// Toggles the armlet under the standard configuration.
    pub fn check_and_toggle_armlet(
        &self,
        event: &GsiWebhookEvent,
        armlet: &mut ArmletState,
        now_ms: u64,
    ) -> (steps: Vec<InputAction>)
        ensures
            steps@ == armlet_plan(*old(armlet), *event, *self.settings, ArmletConfig {
                toggle_threshold: 320,
                predictive_offset: 30,
                toggle_cooldown_ms: 250,
            }, now_ms),
            *final(armlet) == armlet_after(*old(armlet), *event, ArmletConfig {
                toggle_threshold: 320,
                predictive_offset: 30,
                toggle_cooldown_ms: 250,
            }, now_ms),
    {
        let config = ArmletConfig::standard();
        armlet_toggle(armlet, event, self.settings, &config, now_ms)
    }
}

} // verus!
