use dota2_scripts::actions::common::{
    armlet_toggle, find_item_slot, find_item_slot_by_name, ArmletConfig, ArmletState,
    SurvivabilityActions,
};
use dota2_scripts::config::settings::Settings;
use dota2_scripts::input::simulation::InputAction;
use dota2_scripts::models::gsi_event::{Abilities, Ability, GameMap, GsiWebhookEvent, Hero, Item, Items};
use dota2_scripts::models::items::Item as ItemKind;

fn item(name: &str) -> Item {
    Item {
        name: name.to_string(),
        can_cast: Some(true),
        cooldown: Some(0),
        item_level: None,
        passive: Some(false),
        purchaser: None,
        charges: None,
        item_charges: None,
    }
}

fn items() -> Items {
    Items {
        neutral0: Item::default(),
        slot0: Item::default(),
        slot1: Item::default(),
        slot2: Item::default(),
        slot3: Item::default(),
        slot4: Item::default(),
        slot5: Item::default(),
        slot6: Item::default(),
        slot7: Item::default(),
        slot8: Item::default(),
        stash0: Item::default(),
        stash1: Item::default(),
        stash2: Item::default(),
        stash3: Item::default(),
        stash4: Item::default(),
        stash5: Item::default(),
        teleport0: Item::default(),
    }
}

fn ability(name: &str) -> Ability {
    Ability {
        ability_active: true,
        can_cast: true,
        cooldown: 0,
        level: 1,
        name: name.to_string(),
        passive: false,
        ultimate: false,
    }
}

fn abilities() -> Abilities {
    Abilities {
        ability0: ability("ability_a"),
        ability1: ability("ability_b"),
        ability2: ability("ability_c"),
        ability3: ability("ability_d"),
        ability4: ability("ability_e"),
        ability5: ability("ability_f"),
    }
}

fn hero(name: &str, health: u32, max_health: u32) -> Hero {
    Hero {
        aghanims_scepter: false,
        aghanims_shard: false,
        alive: true,
        attributes_level: 0,
        is_break: false,
        buyback_cooldown: 0,
        buyback_cost: 0,
        disarmed: false,
        facet: 0,
        has_debuff: false,
        health,
        health_percent: if max_health == 0 { 0 } else { health * 100 / max_health },
        hexed: false,
        id: 1,
        level: 10,
        magicimmune: false,
        mana: 300,
        mana_percent: 50,
        max_health,
        max_mana: 600,
        muted: false,
        name: name.to_string(),
        respawn_seconds: 0,
        silenced: false,
        smoked: false,
        stunned: false,
        talent_1: false,
        talent_2: false,
        talent_3: false,
        talent_4: false,
        talent_5: false,
        talent_6: false,
        talent_7: false,
        talent_8: false,
        xp: 0,
        xpos: 0,
        ypos: 0,
    }
}

fn event(name: &str, health: u32, max_health: u32) -> GsiWebhookEvent {
    GsiWebhookEvent {
        hero: hero(name, health, max_health),
        abilities: abilities(),
        items: items(),
        map: GameMap { clock_time: 120 },
    }
}

fn huskar(health: u32) -> GsiWebhookEvent {
    let mut snapshot = event("npc_dota_hero_huskar", health, 2_000);
    snapshot.items.slot1 = item("item_armlet");
    snapshot
}

fn config() -> ArmletConfig {
    ArmletConfig { toggle_threshold: 320, predictive_offset: 30, toggle_cooldown_ms: 250 }
}

fn double(key: char) -> Vec<InputAction> {
    vec![InputAction::PressKey(key), InputAction::PressKey(key)]
}

#[test]
fn the_armlet_is_toggled_below_the_trigger_point() {
    let settings = Settings::default();
    let mut state = ArmletState::new();
    // the trigger point is 320 + 30
    assert_eq!(armlet_toggle(&mut state, &huskar(350), &settings, &config(), 1_000), vec![]);
    assert_eq!(state, ArmletState::default());
    assert_eq!(armlet_toggle(&mut state, &huskar(349), &settings, &config(), 1_000), double('x'));
    assert_eq!(state.last_toggle, Some(1_000));
    assert_eq!(state.critical_hp, None);
    assert_eq!(ArmletConfig::standard(), config());
}

#[test]
fn the_lockout_holds_an_ordinary_toggle_back() {
    let settings = Settings::default();
    let mut state = ArmletState::new();
    assert_eq!(armlet_toggle(&mut state, &huskar(300), &settings, &config(), 1_000), double('x'));
    assert_eq!(armlet_toggle(&mut state, &huskar(290), &settings, &config(), 1_249), vec![]);
    assert_eq!(state.last_toggle, Some(1_000));
    assert_eq!(armlet_toggle(&mut state, &huskar(290), &settings, &config(), 1_250), double('x'));
    assert_eq!(state.last_toggle, Some(1_250));
}

#[test]
fn the_emergency_ignores_the_lockout_once() {
    let settings = Settings::default();
    let mut state = ArmletState::new();
    // a toggle at critical health: below 320 / 2
    assert_eq!(armlet_toggle(&mut state, &huskar(159), &settings, &config(), 1_000), double('x'));
    assert_eq!(state.critical_hp, Some(159));
    // still critical and no higher on the next snapshot, inside the lockout
    assert_eq!(armlet_toggle(&mut state, &huskar(150), &settings, &config(), 1_050), double('x'));
    assert_eq!(state.critical_hp, None);
    assert_eq!(state.last_toggle, Some(1_050));
    // the emergency is not repeated on the snapshot after it
    assert_eq!(armlet_toggle(&mut state, &huskar(140), &settings, &config(), 1_100), vec![]);
}

#[test]
fn the_emergency_also_ignores_a_stun() {
    let settings = Settings::default();
    let mut state = ArmletState { last_toggle: Some(1_000), critical_hp: Some(100) };
    let mut snapshot = huskar(90);
    snapshot.hero.stunned = true;
    assert_eq!(armlet_toggle(&mut state, &snapshot, &settings, &config(), 1_010), double('x'));
}

#[test]
fn rising_health_calls_for_no_emergency_and_safe_health_clears_the_mark() {
    let settings = Settings::default();
    let mut state = ArmletState { last_toggle: Some(1_000), critical_hp: Some(100) };
    // critical but higher than at the toggle: inside the lockout nothing
    assert_eq!(armlet_toggle(&mut state, &huskar(120), &settings, &config(), 1_010), vec![]);
    assert_eq!(state.critical_hp, Some(100));
    // exactly at half the threshold: not critical
    assert_eq!(armlet_toggle(&mut state, &huskar(160), &settings, &config(), 1_020), vec![]);
    // safe again: the mark is cleared
    assert_eq!(armlet_toggle(&mut state, &huskar(350), &settings, &config(), 1_030), vec![]);
    assert_eq!(state.critical_hp, None);
    assert_eq!(state.last_toggle, Some(1_000));
}

#[test]
fn stun_death_and_absence_hold_the_toggle_back() {
    let settings = Settings::default();
    let mut state = ArmletState::new();
    let mut stunned = huskar(100);
    stunned.hero.stunned = true;
    assert_eq!(armlet_toggle(&mut state, &stunned, &settings, &config(), 0), vec![]);
    let mut dead = huskar(100);
    dead.hero.alive = false;
    assert_eq!(armlet_toggle(&mut state, &dead, &settings, &config(), 0), vec![]);
    let bare = event("npc_dota_hero_huskar", 100, 2_000);
    assert_eq!(armlet_toggle(&mut state, &bare, &settings, &config(), 0), vec![]);
    assert_eq!(state, ArmletState::default());
}

#[test]
fn threshold_and_offset_do_not_overflow() {
    let settings = Settings::default();
    let mut state = ArmletState::new();
    let wide = ArmletConfig { toggle_threshold: u32::MAX, predictive_offset: u32::MAX, toggle_cooldown_ms: 0 };
    assert_eq!(armlet_toggle(&mut state, &huskar(u32::MAX), &settings, &wide, 0), double('x'));
}

#[test]
fn items_are_found_by_part_of_their_name() {
    let settings = Settings::default();
    let mut snapshot = event("npc_dota_hero_tiny", 500, 500);
    snapshot.items.slot2 = item("item_blink");
    snapshot.items.slot4 = item("item_swift_blink");
    snapshot.items.neutral0 = item("item_orchid");
    assert_eq!(find_item_slot_by_name(&snapshot, &settings, "item_blink"), Some('c'));
    assert_eq!(find_item_slot_by_name(&snapshot, &settings, "blink"), Some('c'));
    assert_eq!(find_item_slot_by_name(&snapshot, &settings, "swift"), Some('b'));
    assert_eq!(find_item_slot_by_name(&snapshot, &settings, "item_orchid"), Some('0'));
    assert_eq!(find_item_slot_by_name(&snapshot, &settings, "item_bloodthorn"), None);
    assert_eq!(find_item_slot(&snapshot, &settings, ItemKind::Blink), Some('c'));
    assert_eq!(find_item_slot(&snapshot, &settings, ItemKind::Mjollnir), None);
    // an item in the backpack is not found
    snapshot.items.slot6 = item("item_mjollnir");
    assert_eq!(find_item_slot(&snapshot, &settings, ItemKind::Mjollnir), None);
}

#[test]
fn healing_uses_one_item_outside_danger() {
    let settings = Settings::default(); // threshold 30 percent
    let actions = SurvivabilityActions::new(&settings);
    let mut snapshot = event("npc_dota_hero_axe", 290, 1_000);
    snapshot.items.slot0 = item("item_magic_wand");
    snapshot.items.slot3 = item("item_faerie_fire");
    snapshot.items.slot5 = item("item_enchanted_mango");
    // the cheapest first outside danger, and one item only
    assert_eq!(actions.check_and_use_healing_items(&snapshot, false), vec![InputAction::PressKey('v')]);
    snapshot.hero.health_percent = 30;
    assert_eq!(actions.check_and_use_healing_items(&snapshot, false), vec![]);
    snapshot.hero.health_percent = 29;
    snapshot.hero.alive = false;
    assert_eq!(actions.check_and_use_healing_items(&snapshot, false), vec![]);
}

#[test]
fn healing_in_danger_uses_up_to_the_budget() {
    let mut settings = Settings::default(); // in danger: threshold 50, up to 3 items
    let mut snapshot = event("npc_dota_hero_axe", 490, 1_000);
    snapshot.items.slot0 = item("item_magic_wand");
    snapshot.items.slot1 = item("item_cheese");
    snapshot.items.slot1.can_cast = Some(false);
    snapshot.items.slot2 = item("item_cheese");
    snapshot.items.slot3 = item("item_faerie_fire");
    snapshot.items.slot5 = item("item_enchanted_mango");
    {
        let actions = SurvivabilityActions::new(&settings);
        // strongest first: the castable cheese, the mango, the wand; the fire is over budget
        assert_eq!(
            actions.check_and_use_healing_items(&snapshot, true),
            vec![InputAction::PressKey('c'), InputAction::PressKey('n'), InputAction::PressKey('z')]
        );
        // at 49 percent nothing is used outside danger
        assert_eq!(actions.check_and_use_healing_items(&snapshot, false), vec![]);
    }
    settings.danger_detection.max_healing_items_per_danger = 0;
    {
        let actions = SurvivabilityActions::new(&settings);
        assert_eq!(actions.check_and_use_healing_items(&snapshot, true), vec![]);
    }
    settings.danger_detection.enabled = false;
    snapshot.hero.health_percent = 29;
    let actions = SurvivabilityActions::new(&settings);
    // with detection off the ordinary threshold and budget hold, in the order for danger
    assert_eq!(actions.check_and_use_healing_items(&snapshot, true), vec![InputAction::PressKey('c')]);
}

#[test]
fn defensive_items_are_used_in_danger() {
    let mut settings = Settings::default();
    settings.danger_detection.auto_bkb = true;
    let mut snapshot = event("npc_dota_hero_axe", 400, 1_000);
    snapshot.items.slot0 = item("item_glimmer_cape");
    snapshot.items.slot1 = item("item_satanic");
    snapshot.items.slot2 = item("item_black_king_bar");
    snapshot.items.slot3 = item("item_blade_mail");
    snapshot.items.slot3.can_cast = None;
    snapshot.items.slot4 = item("item_ghost");
    let actions = SurvivabilityActions::new(&settings);
    assert_eq!(
        actions.use_defensive_items_if_danger(&snapshot, true),
        vec![
            InputAction::PressKey('c'),
            InputAction::PressKey('x'),
            InputAction::PressKey('z'),
            InputAction::Wait(50),
            InputAction::PressKey('z'),
            InputAction::PressKey('b'),
        ]
    );
    assert_eq!(actions.use_defensive_items_if_danger(&snapshot, false), vec![]);
    // the lifesteal item waits for 40 percent
    snapshot.hero.health = 410;
    assert_eq!(
        actions.use_defensive_items_if_danger(&snapshot, true),
        vec![
            InputAction::PressKey('c'),
            InputAction::PressKey('z'),
            InputAction::Wait(50),
            InputAction::PressKey('z'),
            InputAction::PressKey('b'),
        ]
    );
    // without a maximum health the lifesteal item is kept
    snapshot.hero.health = 0;
    snapshot.hero.max_health = 0;
    assert_eq!(actions.use_defensive_items_if_danger(&snapshot, true).len(), 5);
    snapshot.hero.alive = false;
    assert_eq!(actions.use_defensive_items_if_danger(&snapshot, true), vec![]);
}

#[test]
fn use_item_presses_the_key_of_the_slot() {
    let settings = Settings::default();
    let actions = SurvivabilityActions::new(&settings);
    assert_eq!(actions.use_item("slot3", "item_cheese"), vec![InputAction::PressKey('v')]);
    assert_eq!(
        actions.use_item("neutral0", "item_glimmer_cape"),
        vec![InputAction::PressKey('0'), InputAction::Wait(50), InputAction::PressKey('0')]
    );
    assert_eq!(actions.use_item("stash0", "item_cheese"), vec![]);
}

#[test]
fn the_default_strategy_toggles_heals_and_defends() {
    let settings = Settings::default();
    let actions = SurvivabilityActions::new(&settings);
    let mut snapshot = event("npc_dota_hero_axe", 200, 1_000);
    snapshot.items.slot0 = item("item_armlet");
    snapshot.items.slot1 = item("item_magic_wand");
    snapshot.items.slot2 = item("item_ghost");
    let mut armlet = ArmletState::new();
    assert_eq!(
        actions.execute_default_strategy(&snapshot, &mut armlet, true, 5_000),
        vec![
            InputAction::PressKey('z'),
            InputAction::PressKey('z'),
            InputAction::PressKey('x'),
            InputAction::PressKey('c'),
        ]
    );
    assert_eq!(armlet.last_toggle, Some(5_000));
    let mut armlet = ArmletState::new();
    assert_eq!(actions.check_and_toggle_armlet(&snapshot, &mut armlet, 0), double('z'));
}
