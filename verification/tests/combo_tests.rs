use dota2_scripts::actions::combo::{run_combo, ComboAction, ComboStep};
use dota2_scripts::actions::heroes::broodmother::BroodmotherScript;
use dota2_scripts::actions::heroes::huskar::HuskarScript;
use dota2_scripts::actions::heroes::legion_commander::{legion_combo_steps, LegionCommanderScript};
use dota2_scripts::actions::heroes::shadow_fiend::{ShadowFiendScript, ShadowFiendState};
use dota2_scripts::actions::heroes::tiny::{tiny_combo_steps, TinyScript};
use dota2_scripts::actions::heroes::traits::HeroScript;
use dota2_scripts::actions::soul_ring::SoulRingState;
use dota2_scripts::actions::store::TriggerStore;
use dota2_scripts::config::settings::Settings;
use dota2_scripts::input::keyboard::KeyCode;
use dota2_scripts::input::simulation::InputAction;
use dota2_scripts::models::gsi_event::{Abilities, Ability, GameMap, GsiWebhookEvent, Hero, Item, Items};
use dota2_scripts::models::items::Item as ItemKind;

fn item(name: &str) -> Item {
    Item {
        name: name.to_string(),
        can_cast: Some(true),
        cooldown: Some(0),
        item_level: None,
        passive: Some(false),
        purchaser: None,
        charges: None,
        item_charges: None,
    }
}

fn items() -> Items {
    Items {
        neutral0: Item::default(),
        slot0: Item::default(),
        slot1: Item::default(),
        slot2: Item::default(),
        slot3: Item::default(),
        slot4: Item::default(),
        slot5: Item::default(),
        slot6: Item::default(),
        slot7: Item::default(),
        slot8: Item::default(),
        stash0: Item::default(),
        stash1: Item::default(),
        stash2: Item::default(),
        stash3: Item::default(),
        stash4: Item::default(),
        stash5: Item::default(),
        teleport0: Item::default(),
    }
}

fn ability(name: &str) -> Ability {
    Ability {
        ability_active: true,
        can_cast: true,
        cooldown: 0,
        level: 1,
        name: name.to_string(),
        passive: false,
        ultimate: false,
    }
}

fn abilities() -> Abilities {
    Abilities {
        ability0: ability("ability_a"),
        ability1: ability("ability_b"),
        ability2: ability("ability_c"),
        ability3: ability("ability_d"),
        ability4: ability("ability_e"),
        ability5: ability("ability_f"),
    }
}

fn hero(name: &str, health: u32, max_health: u32) -> Hero {
    Hero {
        aghanims_scepter: false,
        aghanims_shard: false,
        alive: true,
        attributes_level: 0,
        is_break: false,
        buyback_cooldown: 0,
        buyback_cost: 0,
        disarmed: false,
        facet: 0,
        has_debuff: false,
        health,
        health_percent: if max_health == 0 { 0 } else { health * 100 / max_health },
        hexed: false,
        id: 1,
        level: 10,
        magicimmune: false,
        mana: 300,
        mana_percent: 50,
        max_health,
        max_mana: 600,
        muted: false,
        name: name.to_string(),
        respawn_seconds: 0,
        silenced: false,
        smoked: false,
        stunned: false,
        talent_1: false,
        talent_2: false,
        talent_3: false,
        talent_4: false,
        talent_5: false,
        talent_6: false,
        talent_7: false,
        talent_8: false,
        xp: 0,
        xpos: 0,
        ypos: 0,
    }
}

fn event(name: &str, health: u32, max_health: u32) -> GsiWebhookEvent {
    GsiWebhookEvent {
        hero: hero(name, health, max_health),
        abilities: abilities(),
        items: items(),
        map: GameMap { clock_time: 120 },
    }
}

fn press(key: char, wait: u64) -> Vec<InputAction> {
    vec![InputAction::PressKey(key), InputAction::Wait(wait)]
}

fn times(n: usize, steps: Vec<InputAction>) -> Vec<InputAction> {
    let mut all = Vec::new();
    for _ in 0..n {
        all.extend(steps.iter().copied());
    }
    all
}

#[test]
fn a_failed_step_is_skipped_and_the_combo_goes_on() {
    let settings = Settings::default();
    let mut ring = SoulRingState::new();
    let mut snapshot = event("npc_dota_hero_tiny", 500, 500);
    snapshot.items.slot1 = item("item_blink");
    snapshot.items.slot1.cooldown = Some(4);
    snapshot.items.slot2 = item("item_orchid");
    snapshot.items.slot3 = item("item_bloodthorn");
    let combo = vec![
        ComboStep { action: ComboAction::UseItem(ItemKind::Blink), wait_ms: 100 },
        ComboStep { action: ComboAction::PressKey('w'), wait_ms: 0 },
        ComboStep { action: ComboAction::UseItem(ItemKind::Mjollnir), wait_ms: 50 },
        ComboStep { action: ComboAction::UseEither(ItemKind::Mjollnir, ItemKind::Bloodthorn), wait_ms: 30 },
        ComboStep { action: ComboAction::UseEither(ItemKind::Orchid, ItemKind::Bloodthorn), wait_ms: 30 },
        ComboStep { action: ComboAction::RightClick, wait_ms: 10 },
    ];
    assert_eq!(
        run_combo(&combo, &snapshot.items, &mut ring, &settings, 0),
        vec![
            InputAction::PressKey('w'),
            InputAction::PressKey('v'),
            InputAction::Wait(30),
            InputAction::PressKey('c'),
            InputAction::Wait(30),
            InputAction::RightClick,
            InputAction::Wait(10),
        ]
    );
    assert_eq!(run_combo(&Vec::new(), &snapshot.items, &mut ring, &settings, 0), vec![]);
    // present and off cooldown is all that a step asks for; no cooldown report means not ready
    snapshot.items.slot1.cooldown = Some(0);
    snapshot.items.slot1.can_cast = None;
    assert_eq!(
        run_combo(&combo[..1].to_vec(), &snapshot.items, &mut ring, &settings, 0),
        vec![InputAction::PressKey('x'), InputAction::Wait(100)]
    );
    snapshot.items.slot1.cooldown = None;
    snapshot.items.slot1.can_cast = Some(true);
    assert_eq!(run_combo(&combo[..1].to_vec(), &snapshot.items, &mut ring, &settings, 0), vec![]);
}

#[test]
fn the_duel_combo_with_every_item() {
    let settings = Settings::default();
    let mut store = TriggerStore::new();
    let mut legion = LegionCommanderScript::new();
    // without a snapshot nothing is pressed
    assert_eq!(legion.handle_standalone_trigger(&settings, &mut store, 0), vec![]);
    let mut snapshot = event("npc_dota_hero_legion_commander", 900, 1_000);
    snapshot.items.slot0 = item("item_blade_mail");
    snapshot.items.slot1 = item("item_black_king_bar");
    snapshot.items.slot2 = item("item_blink");
    snapshot.items.slot3 = item("item_bloodthorn");
    assert_eq!(legion.handle_gsi_event(&snapshot, &settings, &mut store, 0), vec![]);
    let mut expected = Vec::new();
    expected.extend(press('w', 30));
    expected.extend(press('w', 220));
    expected.extend(press('z', 30));
    expected.extend(press('z', 50));
    expected.extend(press('x', 30));
    expected.extend(press('x', 50));
    expected.extend(press('c', 100));
    expected.extend(times(9, press('v', 30)));
    expected.extend(press('v', 80));
    expected.extend(times(6, press('r', 50)));
    expected.extend(times(6, press('q', 50)));
    assert_eq!(legion.handle_standalone_trigger(&settings, &mut store, 0), expected);
    assert_eq!(legion_combo_steps().len(), 31);
    assert_eq!(legion.hero_name(), "npc_dota_hero_legion_commander");
}

#[test]
fn the_duel_combo_uses_the_ring_once() {
    let settings = Settings::default();
    let mut ring = SoulRingState::new();
    ring.available = true;
    ring.can_cast = true;
    ring.slot_key = Some('n');
    ring.hero_alive = true;
    ring.hero_mana_percent = 30;
    ring.hero_health_percent = 90;
    let mut legion = LegionCommanderScript::new();
    legion.last_event = Some(event("npc_dota_hero_legion_commander", 900, 1_000));
    let steps = legion.execute_combo(&mut ring, &settings, 4_000);
    assert_eq!(
        steps[..6].to_vec(),
        vec![
            InputAction::PressKey('n'),
            InputAction::Wait(30),
            InputAction::PressKey('w'),
            InputAction::Wait(30),
            InputAction::PressKey('w'),
            InputAction::Wait(220),
        ]
    );
    assert_eq!(steps.len(), 6 + 24);
    assert_eq!(ring.last_triggered, Some(4_000));
}

#[test]
fn the_tiny_combo() {
    let settings = Settings::default();
    let mut store = TriggerStore::new();
    let mut tiny = TinyScript::new();
    assert_eq!(tiny.handle_standalone_trigger(&settings, &mut store, 0), vec![]);
    let mut snapshot = event("npc_dota_hero_tiny", 900, 1_000);
    snapshot.items.slot5 = item("item_blink");
    tiny.handle_gsi_event(&snapshot, &settings, &mut store, 0);
    let mut expected = Vec::new();
    expected.extend(press('n', 100));
    expected.extend(times(3, press('w', 30)));
    expected.extend(press('w', 50));
    expected.extend(times(3, press('q', 30)));
    expected.extend(press('q', 1_430));
    expected.extend(times(3, press('d', 30)));
    assert_eq!(tiny.handle_standalone_trigger(&settings, &mut store, 0), expected);
    // without the blink the combo starts with the avalanche
    let bare = event("npc_dota_hero_tiny", 900, 1_000);
    let mut ring = SoulRingState::new();
    assert_eq!(tiny.execute_combo(&bare, &mut ring, &settings, 0), expected[2..].to_vec());
    assert_eq!(tiny_combo_steps().len(), 12);
    assert_eq!(tiny.hero_name(), "npc_dota_hero_tiny");
}

#[test]
fn the_raze_faces_the_cursor_first() {
    let settings = Settings::default(); // raze delay 100 ms
    assert_eq!(
        ShadowFiendState::execute_raze('w', &settings),
        vec![
            InputAction::Wait(50),
            InputAction::AltDown,
            InputAction::RightClick,
            InputAction::Wait(50),
            InputAction::AltUp,
            InputAction::Wait(100),
            InputAction::PressKey('w'),
        ]
    );
    let mut store = TriggerStore::new();
    let mut script = ShadowFiendScript::new();
    assert_eq!(script.handle_standalone_trigger(&settings, &mut store, 0), vec![]);
    assert_eq!(script.hero_name(), "npc_dota_hero_nevermore");
}

#[test]
fn the_spider_move() {
    let mut settings = Settings::default(); // spiders on F2, hero on F1
    assert_eq!(
        BroodmotherScript::execute_spider_attack_move(&settings),
        vec![
            InputAction::PressNamedKey(KeyCode::Function(2)),
            InputAction::Wait(30),
            InputAction::RightClick,
            InputAction::Wait(30),
            InputAction::PressNamedKey(KeyCode::Function(1)),
        ]
    );
    settings.heroes.broodmother.spider_control_group_key = "tab".to_string();
    assert_eq!(
        BroodmotherScript::execute_spider_attack_move(&settings),
        vec![
            InputAction::RightClick,
            InputAction::Wait(30),
            InputAction::PressNamedKey(KeyCode::Function(1)),
        ]
    );
    settings.heroes.broodmother.spider_micro_enabled = false;
    assert_eq!(BroodmotherScript::execute_spider_attack_move(&settings), vec![]);
    assert_eq!(BroodmotherScript::spider_move(true, None, None), vec![InputAction::RightClick, InputAction::Wait(30)]);
    assert_eq!(BroodmotherScript::new().hero_name(), "npc_dota_hero_broodmother");
}

#[test]
fn the_cleanse_waits_for_the_delay() {
    let settings = Settings::default(); // key e, delay 300 ms
    let mut script = HuskarScript::new();
    let mut snapshot = event("npc_dota_hero_huskar", 900, 1_000);
    snapshot.abilities.ability2 = ability("huskar_berserkers_blood");
    // no debuff: nothing
    assert_eq!(script.berserker_blood_cleanse(&snapshot, &settings, 0), vec![]);
    snapshot.hero.has_debuff = true;
    // the first snapshot with the debuff starts the timer
    assert_eq!(script.berserker_blood_cleanse(&snapshot, &settings, 1_000), vec![]);
    assert_eq!(script.debuff_detected, Some(1_000));
    assert_eq!(script.berserker_blood_cleanse(&snapshot, &settings, 1_299), vec![]);
    assert_eq!(script.debuff_detected, Some(1_000));
    assert_eq!(
        script.berserker_blood_cleanse(&snapshot, &settings, 1_300),
        vec![InputAction::PressKey('e')]
    );
    assert_eq!(script.debuff_detected, None);
    // an ability on cooldown leaves the timer alone
    script.debuff_detected = Some(5);
    snapshot.abilities.ability2.cooldown = 3;
    assert_eq!(script.berserker_blood_cleanse(&snapshot, &settings, 9_000), vec![]);
    assert_eq!(script.debuff_detected, Some(5));
    // the fifth slot is not looked at
    snapshot.abilities.ability2 = ability("other");
    snapshot.abilities.ability4 = ability("huskar_berserkers_blood");
    assert_eq!(script.berserker_blood_cleanse(&snapshot, &settings, 9_000), vec![]);
    // the debuff has gone: the timer is cleared
    snapshot.hero.has_debuff = false;
    script.berserker_blood_cleanse(&snapshot, &settings, 9_000);
    assert_eq!(script.debuff_detected, None);
}

#[test]
fn huskar_toggles_under_its_own_settings() {
    let mut settings = Settings::default();
    settings.heroes.huskar.armlet_toggle_threshold = 500;
    settings.heroes.huskar.armlet_predictive_offset = 0;
    let mut store = TriggerStore::new();
    let mut script = HuskarScript::new();
    let mut snapshot = event("npc_dota_hero_huskar", 499, 2_000);
    snapshot.items.slot4 = item("item_armlet");
    snapshot.items.slot0 = item("item_cheese");
    assert_eq!(
        script.handle_gsi_event(&snapshot, &settings, &mut store, 100),
        vec![InputAction::PressKey('b'), InputAction::PressKey('b'), InputAction::PressKey('z')]
    );
    assert_eq!(store.armlet.last_toggle, Some(100));
    assert_eq!(script.handle_standalone_trigger(&settings, &mut store, 0), vec![]);
    assert_eq!(script.hero_name(), "npc_dota_hero_huskar");
}
