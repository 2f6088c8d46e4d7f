//! Stat switching of the treads.
//!
//! The treads cycle through three stats, one step per press and forwards
//! only. The engine cannot ask the game which stat is selected: it starts
//! from the hero's primary stat and counts every switch it performs or sees.

use vstd::prelude::*;
use crate::clock::{cooldown_elapsed, cooldown_over, later_of, advance};
use crate::config::settings::{
    main_slot_for_key,
    main_slot_of_key,
    PowerTreadsConfig,
    Settings,
};
use crate::input::simulation::{push_repeated_presses, repeated_presses, InputAction};
use crate::models::gsi_event::{as_index, named, slot_name, usable_slot_name, Hero, Items};
use crate::text::{
    key_is_listed,
    key_listed,
    keys_match,
    same_key,
    str_eq,
    str_to_lowercase,
    unicode_lowercase,
};

verus! {

/// The stat that the treads add to. One press moves to the next stat in the
/// cycle strength, intelligence, agility, strength.
#[derive(Debug, Clone, Copy, PartialEq, Eq, Structural)]
pub enum Stat {
    Str,
    Int,
    Agi,
}

/// The heroes whose primary stat is strength.
pub open spec fn is_strength_hero(name: Seq<char>) -> bool {
    ||| name == "npc_dota_hero_axe"@
    ||| name == "npc_dota_hero_earthshaker"@
    ||| name == "npc_dota_hero_pudge"@
    ||| name == "npc_dota_hero_sand_king"@
    ||| name == "npc_dota_hero_sven"@
    ||| name == "npc_dota_hero_tiny"@
    ||| name == "npc_dota_hero_kunkka"@
    ||| name == "npc_dota_hero_beastmaster"@
    ||| name == "npc_dota_hero_dragon_knight"@
    ||| name == "npc_dota_hero_clockwerk"@
    ||| name == "npc_dota_hero_omniknight"@
    ||| name == "npc_dota_hero_huskar"@
    ||| name == "npc_dota_hero_alchemist"@
    ||| name == "npc_dota_hero_brewmaster"@
    ||| name == "npc_dota_hero_treant"@
    ||| name == "npc_dota_hero_wisp"@
    ||| name == "npc_dota_hero_centaur"@
    ||| name == "npc_dota_hero_shredder"@
    ||| name == "npc_dota_hero_bristleback"@
    ||| name == "npc_dota_hero_tusk"@
    ||| name == "npc_dota_hero_elder_titan"@
    ||| name == "npc_dota_hero_legion_commander"@
    ||| name == "npc_dota_hero_earth_spirit"@
    ||| name == "npc_dota_hero_phoenix"@
    ||| name == "npc_dota_hero_abaddon"@
    ||| name == "npc_dota_hero_underlord"@
    ||| name == "npc_dota_hero_spirit_breaker"@
    ||| name == "npc_dota_hero_doom_bringer"@
    ||| name == "npc_dota_hero_lycan"@
    ||| name == "npc_dota_hero_chaos_knight"@
    ||| name == "npc_dota_hero_undying"@
    ||| name == "npc_dota_hero_magnataur"@
    ||| name == "npc_dota_hero_life_stealer"@
    ||| name == "npc_dota_hero_night_stalker"@
    ||| name == "npc_dota_hero_skeleton_king"@
    ||| name == "npc_dota_hero_mars"@
    ||| name == "npc_dota_hero_snapfire"@
    ||| name == "npc_dota_hero_dawnbreaker"@
    ||| name == "npc_dota_hero_primal_beast"@
    ||| name == "npc_dota_hero_marci"@
    ||| name == "npc_dota_hero_muerta"@
    ||| name == "npc_dota_hero_ringmaster"@
}

/// The heroes whose primary stat is agility.
pub open spec fn is_agility_hero(name: Seq<char>) -> bool {
    ||| name == "npc_dota_hero_antimage"@
    ||| name == "npc_dota_hero_bloodseeker"@
    ||| name == "npc_dota_hero_drow_ranger"@
    ||| name == "npc_dota_hero_juggernaut"@
    ||| name == "npc_dota_hero_mirana"@
    ||| name == "npc_dota_hero_morphling"@
    ||| name == "npc_dota_hero_phantom_lancer"@
    ||| name == "npc_dota_hero_vengefulspirit"@
    ||| name == "npc_dota_hero_riki"@
    ||| name == "npc_dota_hero_sniper"@
    ||| name == "npc_dota_hero_templar_assassin"@
    ||| name == "npc_dota_hero_luna"@
    ||| name == "npc_dota_hero_bounty_hunter"@
    ||| name == "npc_dota_hero_ursa"@
    ||| name == "npc_dota_hero_gyrocopter"@
    ||| name == "npc_dota_hero_lone_druid"@
    ||| name == "npc_dota_hero_naga_siren"@
    ||| name == "npc_dota_hero_troll_warlord"@
    ||| name == "npc_dota_hero_ember_spirit"@
    ||| name == "npc_dota_hero_monkey_king"@
    ||| name == "npc_dota_hero_pangolier"@
    ||| name == "npc_dota_hero_dark_willow"@
    ||| name == "npc_dota_hero_grimstroke"@
    ||| name == "npc_dota_hero_hoodwink"@
    ||| name == "npc_dota_hero_void_spirit"@
    ||| name == "npc_dota_hero_spectre"@
    ||| name == "npc_dota_hero_razor"@
    ||| name == "npc_dota_hero_viper"@
    ||| name == "npc_dota_hero_clinkz"@
    ||| name == "npc_dota_hero_broodmother"@
    ||| name == "npc_dota_hero_weaver"@
    ||| name == "npc_dota_hero_nyx_assassin"@
    ||| name == "npc_dota_hero_slark"@
    ||| name == "npc_dota_hero_medusa"@
    ||| name == "npc_dota_hero_terrorblade"@
    ||| name == "npc_dota_hero_arc_warden"@
    ||| name == "npc_dota_hero_phantom_assassin"@
    ||| name == "npc_dota_hero_faceless_void"@
}

/// The items that restore health.
pub open spec fn is_healing_item(name: Seq<char>) -> bool {
    ||| name == "item_flask"@
    ||| name == "item_tango"@
    ||| name == "item_faerie_fire"@
    ||| name == "item_magic_wand"@
    ||| name == "item_magic_stick"@
    ||| name == "item_cheese"@
    ||| name == "item_bottle"@
    ||| name == "item_mekansm"@
    ||| name == "item_guardian_greaves"@
    ||| name == "item_holy_locket"@
    ||| name == "item_urn_of_shadows"@
    ||| name == "item_spirit_vessel"@
}

/// The items that restore mana only.
pub open spec fn is_mana_item(name: Seq<char>) -> bool {
    ||| name == "item_clarity"@
    ||| name == "item_enchanted_mango"@
    ||| name == "item_arcane_boots"@
}

/// Whether the hero of this name has strength as primary stat.
pub fn strength_hero(name: &str) -> (r: bool)
    ensures
        r == is_strength_hero(name@),
{
    str_eq(name, "npc_dota_hero_axe")
        || str_eq(name, "npc_dota_hero_earthshaker")
        || str_eq(name, "npc_dota_hero_pudge")
        || str_eq(name, "npc_dota_hero_sand_king")
        || str_eq(name, "npc_dota_hero_sven")
        || str_eq(name, "npc_dota_hero_tiny")
        || str_eq(name, "npc_dota_hero_kunkka")
        || str_eq(name, "npc_dota_hero_beastmaster")
        || str_eq(name, "npc_dota_hero_dragon_knight")
        || str_eq(name, "npc_dota_hero_clockwerk")
        || str_eq(name, "npc_dota_hero_omniknight")
        || str_eq(name, "npc_dota_hero_huskar")
        || str_eq(name, "npc_dota_hero_alchemist")
        || str_eq(name, "npc_dota_hero_brewmaster")
        || str_eq(name, "npc_dota_hero_treant")
        || str_eq(name, "npc_dota_hero_wisp")
        || str_eq(name, "npc_dota_hero_centaur")
        || str_eq(name, "npc_dota_hero_shredder")
        || str_eq(name, "npc_dota_hero_bristleback")
        || str_eq(name, "npc_dota_hero_tusk")
        || str_eq(name, "npc_dota_hero_elder_titan")
        || str_eq(name, "npc_dota_hero_legion_commander")
        || str_eq(name, "npc_dota_hero_earth_spirit")
        || str_eq(name, "npc_dota_hero_phoenix")
        || str_eq(name, "npc_dota_hero_abaddon")
        || str_eq(name, "npc_dota_hero_underlord")
        || str_eq(name, "npc_dota_hero_spirit_breaker")
        || str_eq(name, "npc_dota_hero_doom_bringer")
        || str_eq(name, "npc_dota_hero_lycan")
        || str_eq(name, "npc_dota_hero_chaos_knight")
        || str_eq(name, "npc_dota_hero_undying")
        || str_eq(name, "npc_dota_hero_magnataur")
        || str_eq(name, "npc_dota_hero_life_stealer")
        || str_eq(name, "npc_dota_hero_night_stalker")
        || str_eq(name, "npc_dota_hero_skeleton_king")
        || str_eq(name, "npc_dota_hero_mars")
        || str_eq(name, "npc_dota_hero_snapfire")
        || str_eq(name, "npc_dota_hero_dawnbreaker")
        || str_eq(name, "npc_dota_hero_primal_beast")
        || str_eq(name, "npc_dota_hero_marci")
        || str_eq(name, "npc_dota_hero_muerta")
        || str_eq(name, "npc_dota_hero_ringmaster")
}

/// Whether the hero of this name has agility as primary stat.
pub fn agility_hero(name: &str) -> (r: bool)
    ensures
        r == is_agility_hero(name@),
{
    str_eq(name, "npc_dota_hero_antimage")
        || str_eq(name, "npc_dota_hero_bloodseeker")
        || str_eq(name, "npc_dota_hero_drow_ranger")
        || str_eq(name, "npc_dota_hero_juggernaut")
        || str_eq(name, "npc_dota_hero_mirana")
        || str_eq(name, "npc_dota_hero_morphling")
        || str_eq(name, "npc_dota_hero_phantom_lancer")
        || str_eq(name, "npc_dota_hero_vengefulspirit")
        || str_eq(name, "npc_dota_hero_riki")
        || str_eq(name, "npc_dota_hero_sniper")
        || str_eq(name, "npc_dota_hero_templar_assassin")
        || str_eq(name, "npc_dota_hero_luna")
        || str_eq(name, "npc_dota_hero_bounty_hunter")
        || str_eq(name, "npc_dota_hero_ursa")
        || str_eq(name, "npc_dota_hero_gyrocopter")
        || str_eq(name, "npc_dota_hero_lone_druid")
        || str_eq(name, "npc_dota_hero_naga_siren")
        || str_eq(name, "npc_dota_hero_troll_warlord")
        || str_eq(name, "npc_dota_hero_ember_spirit")
        || str_eq(name, "npc_dota_hero_monkey_king")
        || str_eq(name, "npc_dota_hero_pangolier")
        || str_eq(name, "npc_dota_hero_dark_willow")
        || str_eq(name, "npc_dota_hero_grimstroke")
        || str_eq(name, "npc_dota_hero_hoodwink")
        || str_eq(name, "npc_dota_hero_void_spirit")
        || str_eq(name, "npc_dota_hero_spectre")
        || str_eq(name, "npc_dota_hero_razor")
        || str_eq(name, "npc_dota_hero_viper")
        || str_eq(name, "npc_dota_hero_clinkz")
        || str_eq(name, "npc_dota_hero_broodmother")
        || str_eq(name, "npc_dota_hero_weaver")
        || str_eq(name, "npc_dota_hero_nyx_assassin")
        || str_eq(name, "npc_dota_hero_slark")
        || str_eq(name, "npc_dota_hero_medusa")
        || str_eq(name, "npc_dota_hero_terrorblade")
        || str_eq(name, "npc_dota_hero_arc_warden")
        || str_eq(name, "npc_dota_hero_phantom_assassin")
        || str_eq(name, "npc_dota_hero_faceless_void")
}

/// Whether the item of this name restores health.
pub fn healing_item(name: &str) -> (r: bool)
    ensures
        r == is_healing_item(name@),
{
    str_eq(name, "item_flask")
        || str_eq(name, "item_tango")
        || str_eq(name, "item_faerie_fire")
        || str_eq(name, "item_magic_wand")
        || str_eq(name, "item_magic_stick")
        || str_eq(name, "item_cheese")
        || str_eq(name, "item_bottle")
        || str_eq(name, "item_mekansm")
        || str_eq(name, "item_guardian_greaves")
        || str_eq(name, "item_holy_locket")
        || str_eq(name, "item_urn_of_shadows")
        || str_eq(name, "item_spirit_vessel")
}

/// Whether the item of this name restores mana only.
pub fn mana_item(name: &str) -> (r: bool)
    ensures
        r == is_mana_item(name@),
{
    str_eq(name, "item_clarity")
        || str_eq(name, "item_enchanted_mango")
        || str_eq(name, "item_arcane_boots")
}

/// The primary stat of a hero: strength or agility for the listed heroes,
/// intelligence for every other name.
pub open spec fn primary_stat_of(name: Seq<char>) -> Stat {
    if is_strength_hero(name) {
        Stat::Str
    } else if is_agility_hero(name) {
        Stat::Agi
    } else {
        Stat::Int
    }
}

/// The stat that a lower-case word names.
pub open spec fn stat_named(lower: Seq<char>) -> Option<Stat> {
    if lower == "str"@ || lower == "strength"@ {
        Some(Stat::Str)
    } else if lower == "int"@ || lower == "intelligence"@ {
        Some(Stat::Int)
    } else if lower == "agi"@ || lower == "agility"@ {
        Some(Stat::Agi)
    } else {
        None
    }
}

/// The stat that suits the use of an item: agility before healing, since a
/// smaller health pool makes the same heal a larger share; intelligence
/// before a mana item; none for any other item.
pub open spec fn target_stat_for_item(name: Seq<char>) -> Option<Stat> {
    if is_healing_item(name) {
        Some(Stat::Agi)
    } else if is_mana_item(name) {
        Some(Stat::Int)
    } else {
        None
    }
}

impl Stat {
    /// Position in the cycle: strength 0, intelligence 1, agility 2.
    pub open spec fn position(self) -> int {
        match self {
            Stat::Str => 0,
            Stat::Int => 1,
            Stat::Agi => 2,
        }
    }

    /// The stat one press further in the cycle.
    pub open spec fn successor(self) -> Stat {
        match self {
            Stat::Str => Stat::Int,
            Stat::Int => Stat::Agi,
            Stat::Agi => Stat::Str,
        }
    }

    /// The stat `n` presses further in the cycle.
    pub open spec fn after_presses(self, n: nat) -> Stat
        decreases n,
    {
        if n == 0 {
            self
        } else {
            self.successor().after_presses((n - 1) as nat)
        }
    }

    /// Number of forward steps from `from` to `to`.
    pub open spec fn distance(from: Stat, to: Stat) -> int {
        (to.position() - from.position() + 3) % 3
    }

    /// The stat one press further in the cycle.
    pub fn next(self) -> (r: Stat)
        ensures
            r == self.successor(),
            r.position() == (self.position() + 1) % 3,
    {
        match self {
            Stat::Str => Stat::Int,
            Stat::Int => Stat::Agi,
            Stat::Agi => Stat::Str,
        }
    }

    /// How many presses bring the treads from `from` to `to`. The cycle has
    /// no backward step, so the answer is 0, 1 or 2.
    pub fn presses_to_reach(from: Stat, to: Stat) -> (r: u8)
        ensures
            r == Stat::distance(from, to),
            r <= 2,
            from.after_presses(r as nat) == to,
    {
        proof {
            reveal_with_fuel(Stat::after_presses, 3);
        }
        if from == to {
            return 0;
        }
        match (from, to) {
            (Stat::Str, Stat::Int) => 1,
            (Stat::Str, Stat::Agi) => 2,
            (Stat::Int, Stat::Agi) => 1,
            (Stat::Int, Stat::Str) => 2,
            (Stat::Agi, Stat::Str) => 1,
            (Stat::Agi, Stat::Int) => 2,
            _ => 0,
        }
    }

    /// The primary stat of the hero of this name.
    pub fn from_hero_name(hero_name: &str) -> (r: Stat)
        ensures
            r == primary_stat_of(hero_name@),
    {
        if strength_hero(hero_name) {
            Stat::Str
        } else if agility_hero(hero_name) {
            Stat::Agi
        } else {
            Stat::Int
        }
    }

    /// The stat that a word already in lower case names.
    pub fn from_lowercase(lower: &str) -> (r: Option<Stat>)
        ensures
            r == stat_named(lower@),
    {
        if str_eq(lower, "str") || str_eq(lower, "strength") {
            Some(Stat::Str)
        } else if str_eq(lower, "int") || str_eq(lower, "intelligence") {
            Some(Stat::Int)
        } else if str_eq(lower, "agi") || str_eq(lower, "agility") {
            Some(Stat::Agi)
        } else {
            None
        }
    }

    /// The stat that a word names, whatever its case.
    pub fn from_str(s: &str) -> (r: Option<Stat>)
        ensures
            r == stat_named(unicode_lowercase(s@)),
    {
        let lower = str_to_lowercase(s);
        Stat::from_lowercase(lower.as_str())
    }
}

/// A stat is reached from itself with no press, and two different stats are
/// three presses apart there and back.
pub proof fn lemma_cycle_distances(a: Stat, b: Stat)
    ensures
        Stat::distance(a, a) == 0,
        a != b ==> Stat::distance(a, b) + Stat::distance(b, a) == 3,
        a != b ==> 1 <= Stat::distance(a, b) <= 2,
{
}

/// The distance is the least number of presses that leads from one stat to
/// the other.
pub proof fn lemma_distance_is_least(a: Stat, b: Stat, n: nat)
    requires
        a.after_presses(n) == b,
    ensures
        Stat::distance(a, b) <= n,
        a.after_presses(Stat::distance(a, b) as nat) == b,
{
    reveal_with_fuel(Stat::after_presses, 3);
}

/// What the engine knows about the treads.
#[derive(Debug, Clone, Copy, PartialEq, Eq, Structural)]
pub struct PowerTreadsState {
    /// Whether the treads are in the inventory.
    pub available: bool,
    /// The key of the slot that holds them.
    pub slot_key: Option<char>,
    /// The stat they are believed to be on.
    pub current_stat: Stat,
    /// The hero's primary stat.
    pub primary_stat: Stat,
    /// Whether the hero is alive.
    pub hero_alive: bool,
    /// Clock reading at the last switch.
    pub last_triggered: Option<u64>,
    /// Whether the stats were set from the hero yet.
    pub initialized: bool,
}

impl PowerTreadsState {
    /// The state before any snapshot.
    pub open spec fn initial() -> PowerTreadsState {
        PowerTreadsState {
            available: false,
            slot_key: None,
            current_stat: Stat::Agi,
            primary_stat: Stat::Agi,
            hero_alive: false,
            last_triggered: None,
            initialized: false,
        }
    }

    pub fn new() -> (r: Self)
        ensures
            r == PowerTreadsState::initial(),
    {
        PowerTreadsState {
            available: false,
            slot_key: None,
            current_stat: Stat::Agi,
            primary_stat: Stat::Agi,
            hero_alive: false,
            last_triggered: None,
            initialized: false,
        }
    }

    /// The states that snapshots lead to: the treads have a key exactly while
    /// they are in the inventory.
    pub open spec fn wf(self) -> bool {
        self.available <==> self.slot_key is Some
    }

    /// A switch to `target` is due: the feature is on, the treads are present
    /// and bound, the hero is alive, the treads are on another stat, and the
    /// lockout since the last switch is over.
    pub open spec fn toggle_due(self, target: Stat, config: PowerTreadsConfig, now: u64) -> bool {
        &&& config.enabled
        &&& self.available
        &&& self.slot_key is Some
        &&& self.hero_alive
        &&& self.current_stat != target
        &&& cooldown_over(self.last_triggered, now, config.toggle_cooldown_ms)
    }

    /// Whether a switch to `target_stat` is due at `now_ms`.
    pub fn should_toggle(&self, target_stat: Stat, settings: &Settings, now_ms: u64) -> (r: bool)
        ensures
            r == self.toggle_due(target_stat, settings.power_treads, now_ms),
    {
        if !settings.power_treads.enabled {
            return false;
        }
        if !self.available || self.slot_key.is_none() {
            return false;
        }
        if !self.hero_alive {
            return false;
        }
        if self.current_stat == target_stat {
            return false;
        }
        cooldown_elapsed(self.last_triggered, now_ms, settings.power_treads.toggle_cooldown_ms)
    }

    /// Records a switch to `new_stat` at `now_ms`.
    pub fn mark_toggled(&mut self, new_stat: Stat, now_ms: u64)
        ensures
            *final(self) == (PowerTreadsState {
                last_triggered: Some(later_of(old(self).last_triggered, now_ms)),
                current_stat: new_stat,
                ..*old(self)
            }),
    {
        self.last_triggered = Some(advance(self.last_triggered, now_ms));
        self.current_stat = new_stat;
    }

    /// Records one press that the player made on the treads.
    pub fn advance_stat(&mut self)
        ensures
            *final(self) == (PowerTreadsState {
                current_stat: old(self).current_stat.successor(),
                ..*old(self)
            }),
    {
        self.current_stat = self.current_stat.next();
    }

    /// Whether `key_char` is one of the configured ability keys, which ask
    /// for intelligence. Always `false` while switching for abilities is off.
    pub fn is_ability_key(&self, key_char: char, settings: &Settings) -> (r: bool)
        ensures
            r == (settings.power_treads.toggle_for_abilities && key_is_listed(
                settings.power_treads.ability_keys@,
                key_char,
            )),
    {
        if !settings.power_treads.toggle_for_abilities {
            return false;
        }
        key_listed(&settings.power_treads.ability_keys, key_char)
    }

    /// Whether `key_char` is the key of the slot that holds the treads.
    pub fn is_treads_key(&self, key_char: char) -> (r: bool)
        ensures
            r == (self.slot_key matches Some(k) && same_key(key_char, k)),
    {
        match self.slot_key {
            Some(treads_key) => keys_match(key_char, treads_key),
            None => false,
        }
    }

    /// The stat that suits the use of the item of this name.
    pub fn get_target_stat_for_item(item_name: &str) -> (r: Option<Stat>)
        ensures
            r == target_stat_for_item(item_name@),
    {
        if healing_item(item_name) {
            Some(Stat::Agi)
        } else if mana_item(item_name) {
            Some(Stat::Int)
        } else {
            None
        }
    }

    /// The stat that suits a press of `key_char`: that of the item in the
    /// first main slot bound to the key. None while switching for items is
    /// off, for an unbound key, and for the treads themselves.
    pub fn get_target_stat_for_key(
        &self,
        key_char: char,
        items: &Items,
        settings: &Settings,
    ) -> (r: Option<Stat>)
        ensures
            r == target_stat_for_key(key_char, *items, *settings),
    {
        if !settings.power_treads.toggle_for_items {
            return None;
        }
        let slot = match main_slot_of_key(key_char, settings) {
            Some(i) => i,
            None => {
                return None;
            },
        };
        let item = items.usable_slot(slot);
        if str_eq(item.name.as_str(), "item_power_treads") {
            return None;
        }
        PowerTreadsState::get_target_stat_for_item(item.name.as_str())
    }

    /// The stat that a press of `key_char` asks for: intelligence for an
    /// ability key, which makes the cast cheaper in share of the mana pool;
    /// otherwise what the item bound to the key asks for.
    pub fn target_stat_for_press(
        &self,
        key_char: char,
        items: &Items,
        settings: &Settings,
    ) -> (r: Option<Stat>)
        ensures
            r == (if settings.power_treads.toggle_for_abilities && key_is_listed(
                settings.power_treads.ability_keys@,
                key_char,
            ) {
                Some(Stat::Int)
            } else {
                target_stat_for_key(key_char, *items, *settings)
            }),
    {
        if self.is_ability_key(key_char, settings) {
            Some(Stat::Int)
        } else {
            self.get_target_stat_for_key(key_char, items, settings)
        }
    }

    /// The name of the first main slot bound to `key_char`.
    pub fn key_to_slot_name(&self, key_char: char, settings: &Settings) -> (r: Option<&'static str>)
        ensures
            match main_slot_for_key(key_char, *settings) {
                Some(i) => r matches Some(name) && name@ == slot_name(i),
                None => r is None,
            },
    {
        match main_slot_of_key(key_char, settings) {
            Some(i) => Some(usable_slot_name(i)),
            None => None,
        }
    }

    /// The presses that bring the treads to `target`, and the state after
    /// them. Nothing happens unless a switch is due.
    pub open spec fn switch_plan(
        self,
        target: Stat,
        config: PowerTreadsConfig,
        now: u64,
    ) -> Seq<InputAction> {
        if self.toggle_due(target, config, now) {
            repeated_presses(self.slot_key->0, Stat::distance(self.current_stat, target) as nat)
        } else {
            Seq::empty()
        }
    }

    /// Switches the treads to `target_stat` if that is due: answers the
    /// presses of the treads key and records the switch.
    pub fn switch_to(
        &mut self,
        target_stat: Stat,
        settings: &Settings,
        now_ms: u64,
    ) -> (steps: Vec<InputAction>)
        ensures
            steps@ == old(self).switch_plan(target_stat, settings.power_treads, now_ms),
            old(self).toggle_due(target_stat, settings.power_treads, now_ms) ==> *final(self) == (
            PowerTreadsState {
                last_triggered: Some(later_of(old(self).last_triggered, now_ms)),
                current_stat: target_stat,
                ..*old(self)
            }),
            !old(self).toggle_due(target_stat, settings.power_treads, now_ms) ==> *final(self)
                == *old(self),
    {
        let mut plan: Vec<InputAction> = Vec::new();
        if self.should_toggle(target_stat, settings, now_ms) {
            match self.slot_key {
                Some(key) => {
                    let presses = Stat::presses_to_reach(self.current_stat, target_stat);
                    push_repeated_presses(&mut plan, key, presses);
                    self.mark_toggled(target_stat, now_ms);
                },
                None => {},
            }
        }
        plan
    }
}

impl Default for PowerTreadsState {
    fn default() -> (r: Self)
        ensures
            r == PowerTreadsState::initial(),
    {
        PowerTreadsState::new()
    }
}

/// The stat that suits a press of `key`; see `get_target_stat_for_key`.
pub open spec fn target_stat_for_key(key: char, items: Items, settings: Settings) -> Option<Stat> {
    if !settings.power_treads.toggle_for_items {
        None
    } else {
        match main_slot_for_key(key, settings) {
            Some(i) => {
                let name = items.usable(i).name@;
                if name == "item_power_treads"@ {
                    None
                } else {
                    target_stat_for_item(name)
                }
            },
            None => None,
        }
    }
}

/// The state after a snapshot.
///
/// The hero's life is recorded. On the first snapshot both stats are set to
/// the hero's primary stat. The treads are looked for in the usable slots:
/// when found, the key of the first slot that holds them is recorded; when
/// they have gone, slot and availability are cleared.
pub open spec fn treads_after_snapshot(
    state: PowerTreadsState,
    items: Items,
    hero: Hero,
    settings: Settings,
) -> PowerTreadsState {
    let primary = if state.initialized {
        state.primary_stat
    } else {
        primary_stat_of(hero.name@)
    };
    let current = if state.initialized {
        state.current_stat
    } else {
        primary
    };
    let seen = PowerTreadsState {
        hero_alive: hero.alive,
        primary_stat: primary,
        current_stat: current,
        initialized: true,
        ..state
    };
    match items.first_usable(named("item_power_treads"@), 7) {
        Some(i) => PowerTreadsState {
            available: true,
            slot_key: Some(settings.keybindings.slot_key(i)),
            ..seen
        },
        None => if state.available {
            PowerTreadsState { available: false, slot_key: None, ..seen }
        } else {
            seen
        },
    }
}

/// Brings the state up to date with a snapshot.
pub fn update_from_gsi(
    state: &mut PowerTreadsState,
    items: &Items,
    hero: &Hero,
    settings: &Settings,
)
    ensures
        *final(state) == treads_after_snapshot(*old(state), *items, *hero, *settings),
{
    state.hero_alive = hero.alive;
    if !state.initialized {
        state.primary_stat = Stat::from_hero_name(hero.name.as_str());
        state.current_stat = state.primary_stat;
        state.initialized = true;
    }
    match items.find_named("item_power_treads", 7) {
        Some(i) => {
            proof {
                settings.lemma_key_for_slot_name(i as int);
            }
            state.available = true;
            state.slot_key = settings.get_key_for_slot(usable_slot_name(i));
        },
        None => {
            if state.available {
                state.available = false;
                state.slot_key = None;
            }
        },
    }
}

/// Puts the state back to what it was before any snapshot.
pub fn reset_state(state: &mut PowerTreadsState)
    ensures
        *final(state) == PowerTreadsState::initial(),
{
    *state = PowerTreadsState::new();
}

/// Snapshots and switches keep the state within its reachable states.
pub proof fn lemma_treads_stay_well_formed(
    state: PowerTreadsState,
    items: Items,
    hero: Hero,
    settings: Settings,
)
    requires
        state.wf(),
    ensures
        PowerTreadsState::initial().wf(),
        treads_after_snapshot(state, items, hero, settings).wf(),
{
}

/// No second switch within the lockout.
///
/// If a switch is due at `first` and is recorded, then no switch is due at
/// any later reading that lies less than the lockout after `first`,
/// whichever stat is asked for and whatever else of the state has changed
/// in between.
pub proof fn lemma_no_second_switch_within_cooldown(
    state: PowerTreadsState,
    later: PowerTreadsState,
    config: PowerTreadsConfig,
    first: u64,
    second: u64,
    target: Stat,
)
    requires
        later.last_triggered == Some(later_of(state.last_triggered, first)),
        first <= second,
        second - first < config.toggle_cooldown_ms,
    ensures
        !later.toggle_due(target, config, second),
{
}

} // verus!
