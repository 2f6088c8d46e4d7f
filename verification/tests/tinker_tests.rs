use dota2_scripts::actions::heroes::tinker::{
    is_combo_active, scan_priority, CachedGsiData, CachedItem, CastChoice, ComboDecision,
    TinkerScript, TinkerSettingsSnapshot, TinkerState, CACHE_MAX_AGE_SECS, MIN_CAST_INTERVAL_MS,
    REARM_SETTLE_MS, REARM_VERIFY_MS,
};
use dota2_scripts::actions::heroes::traits::HeroScript;
use dota2_scripts::actions::soul_ring::SoulRingState;
use dota2_scripts::actions::store::TriggerStore;
use dota2_scripts::config::settings::Settings;
use dota2_scripts::input::simulation::InputAction;
use dota2_scripts::models::gsi_event::{Abilities, Ability, GameMap, GsiWebhookEvent, Hero, Item, Items};

fn item(name: &str) -> Item {
    Item {
        name: name.to_string(),
        can_cast: Some(true),
        cooldown: Some(0),
        item_level: None,
        passive: Some(false),
        purchaser: None,
        charges: None,
        item_charges: None,
    }
}

fn items() -> Items {
    Items {
        neutral0: Item::default(),
        slot0: Item::default(),
        slot1: Item::default(),
        slot2: Item::default(),
        slot3: Item::default(),
        slot4: Item::default(),
        slot5: Item::default(),
        slot6: Item::default(),
        slot7: Item::default(),
        slot8: Item::default(),
        stash0: Item::default(),
        stash1: Item::default(),
        stash2: Item::default(),
        stash3: Item::default(),
        stash4: Item::default(),
        stash5: Item::default(),
        teleport0: Item::default(),
    }
}

fn ability(name: &str) -> Ability {
    Ability {
        ability_active: true,
        can_cast: true,
        cooldown: 0,
        level: 1,
        name: name.to_string(),
        passive: false,
        ultimate: false,
    }
}

fn abilities() -> Abilities {
    Abilities {
        ability0: ability("ability_a"),
        ability1: ability("ability_b"),
        ability2: ability("ability_c"),
        ability3: ability("ability_d"),
        ability4: ability("ability_e"),
        ability5: ability("ability_f"),
    }
}

fn hero(name: &str, health: u32, max_health: u32) -> Hero {
    Hero {
        aghanims_scepter: false,
        aghanims_shard: false,
        alive: true,
        attributes_level: 0,
        is_break: false,
        buyback_cooldown: 0,
        buyback_cost: 0,
        disarmed: false,
        facet: 0,
        has_debuff: false,
        health,
        health_percent: if max_health == 0 { 0 } else { health * 100 / max_health },
        hexed: false,
        id: 1,
        level: 10,
        magicimmune: false,
        mana: 300,
        mana_percent: 50,
        max_health,
        max_mana: 600,
        muted: false,
        name: name.to_string(),
        respawn_seconds: 0,
        silenced: false,
        smoked: false,
        stunned: false,
        talent_1: false,
        talent_2: false,
        talent_3: false,
        talent_4: false,
        talent_5: false,
        talent_6: false,
        talent_7: false,
        talent_8: false,
        xp: 0,
        xpos: 0,
        ypos: 0,
    }
}

fn event(name: &str, health: u32, max_health: u32) -> GsiWebhookEvent {
    GsiWebhookEvent {
        hero: hero(name, health, max_health),
        abilities: abilities(),
        items: items(),
        map: GameMap { clock_time: 120 },
    }
}

fn cache(at: u64) -> CachedGsiData {
    CachedGsiData {
        last_update: at,
        is_alive: true,
        laser_ready: false,
        laser_cooldown: 12,
        warp_flare_ready: false,
        matrix_ready: false,
        items: Vec::new(),
        health_percent: 80,
        settings_snapshot: TinkerSettingsSnapshot {
            enabled: true,
            combo_priority: vec![
                "item_sheepstick".to_string(),
                "laser".to_string(),
                "item_ethereal_blade".to_string(),
                "warp_flare".to_string(),
                "march".to_string(),
            ],
            laser_key: 'q',
            matrix_key: 'e',
            warp_flare_key: 'w',
            rearm_key: 'r',
            auto_matrix_enabled: true,
            auto_matrix_hp_threshold: 50,
            rearm_retry_on_interrupt: true,
        },
    }
}

fn script(at: u64) -> TinkerScript {
    let mut script = TinkerScript::new();
    script.cache = Some(cache(at));
    script.state.combo_active = true;
    script
}

#[test]
fn the_constants_of_the_loop() {
    assert_eq!(MIN_CAST_INTERVAL_MS, 80);
    assert_eq!(REARM_VERIFY_MS, 1_550);
    assert_eq!(REARM_SETTLE_MS, 500);
    assert_eq!(CACHE_MAX_AGE_SECS, 2);
}

#[test]
fn a_stale_cache_makes_the_tick_a_no_op() {
    let settings = Settings::default();
    let mut ring = SoulRingState::new();
    let mut tinker = script(0);
    let before = tinker.state;
    // three whole seconds old: stale
    assert!(tinker.is_blocked(3_000));
    assert_eq!(tinker.combo_step(&mut ring, &settings, 3_000), vec![]);
    assert_eq!(tinker.state, before);
    // 2999 ms old: two whole seconds, not stale; nothing ready, so rearm
    assert!(!tinker.is_blocked(2_999));
    assert_eq!(tinker.combo_step(&mut ring, &settings, 2_999), vec![InputAction::PressKey('r')]);
}

#[test]
fn no_cache_dead_or_disabled_blocks() {
    let settings = Settings::default();
    let mut ring = SoulRingState::new();
    let mut tinker = TinkerScript::new();
    assert_eq!(tinker.combo_step(&mut ring, &settings, 0), vec![]);
    let mut tinker = script(0);
    tinker.cache.as_mut().unwrap().is_alive = false;
    assert_eq!(tinker.decide(10), ComboDecision::Nothing);
    let mut tinker = script(0);
    tinker.cache.as_mut().unwrap().settings_snapshot.enabled = false;
    assert_eq!(tinker.decide(10), ComboDecision::Nothing);
}

#[test]
fn the_first_ready_entry_is_cast() {
    let settings = Settings::default();
    let mut ring = SoulRingState::new();
    let mut tinker = script(0);
    {
        let cached = tinker.cache.as_mut().unwrap();
        cached.laser_ready = true;
        cached.warp_flare_ready = true;
        cached.items.push(CachedItem { name: "item_sheepstick".to_string(), slot_key: 'z', ready: false, needs_click: false });
        cached.items.push(CachedItem { name: "item_ethereal_blade".to_string(), slot_key: 'x', ready: true, needs_click: true });
    }
    // the hex is not ready, the laser is next in the list
    assert_eq!(scan_priority(tinker.cache.as_ref().unwrap()), Some(CastChoice::Ability('q')));
    assert_eq!(tinker.combo_step(&mut ring, &settings, 100), vec![InputAction::PressKey('q')]);
    assert_eq!(tinker.state.last_cast, Some(100));
    // within the cast spacing nothing is cast
    assert_eq!(tinker.combo_step(&mut ring, &settings, 179), vec![]);
    tinker.cache.as_mut().unwrap().laser_ready = false;
    assert_eq!(
        tinker.combo_step(&mut ring, &settings, 180),
        vec![InputAction::PressKey('x'), InputAction::Wait(30), InputAction::LeftClick]
    );
    tinker.cache.as_mut().unwrap().items[1].ready = false;
    assert_eq!(tinker.combo_step(&mut ring, &settings, 260), vec![InputAction::PressKey('w')]);
    // the hex becomes ready and comes first again
    tinker.cache.as_mut().unwrap().items[0].ready = true;
    assert_eq!(tinker.combo_step(&mut ring, &settings, 340), vec![InputAction::PressKey('z')]);
}

#[test]
fn abilities_go_through_the_ring() {
    let settings = Settings::default();
    let mut ring = SoulRingState::new();
    ring.available = true;
    ring.can_cast = true;
    ring.slot_key = Some('c');
    ring.hero_alive = true;
    ring.hero_mana_percent = 10;
    ring.hero_health_percent = 80;
    let mut tinker = script(0);
    tinker.cache.as_mut().unwrap().laser_ready = true;
    assert_eq!(
        tinker.combo_step(&mut ring, &settings, 100),
        vec![InputAction::PressKey('c'), InputAction::Wait(30), InputAction::PressKey('q')]
    );
    assert_eq!(ring.last_triggered, Some(100));
}

#[test]
fn rearm_is_issued_when_nothing_is_ready() {
    let settings = Settings::default();
    let mut ring = SoulRingState::new();
    let mut tinker = script(0);
    assert_eq!(tinker.decide(100), ComboDecision::Rearm);
    assert_eq!(tinker.combo_step(&mut ring, &settings, 100), vec![InputAction::PressKey('r')]);
    assert!(tinker.state.awaiting_rearm_verify);
    assert_eq!(tinker.state.rearm_started, Some(100));
    assert_eq!(tinker.state.laser_cd_before_rearm, 12);
    assert_eq!(tinker.state.last_cast, Some(100));
    // one tracked ability ready and nothing to cast from the list: no rearm
    let mut tinker = script(0);
    {
        let cached = tinker.cache.as_mut().unwrap();
        cached.warp_flare_ready = true;
        cached.settings_snapshot.combo_priority = vec!["laser".to_string()];
    }
    assert_eq!(tinker.decide(100), ComboDecision::Nothing);
}

#[test]
fn a_rearm_is_never_judged_before_the_channel_time() {
    let settings = Settings::default();
    let mut ring = SoulRingState::new();
    let mut tinker = script(0);
    tinker.combo_step(&mut ring, &settings, 100);
    // the cache shows everything ready, but the rearm is pending
    tinker.cache.as_mut().unwrap().laser_ready = true;
    tinker.cache.as_mut().unwrap().laser_cooldown = 0;
    for now in [180u64, 500, 1_000, 1_649, 1_650] {
        assert_eq!(tinker.combo_step(&mut ring, &settings, now), vec![]);
        assert!(tinker.state.awaiting_rearm_verify);
        assert_eq!(tinker.state.rearm_started, Some(100));
    }
    // 1551 ms after the rearm it is judged: the laser is off cooldown
    assert_eq!(tinker.decide(1_651), ComboDecision::RearmVerified);
    assert_eq!(tinker.combo_step(&mut ring, &settings, 1_651), vec![]);
    assert!(!tinker.state.awaiting_rearm_verify);
    assert_eq!(tinker.state.rearm_started, None);
    assert_eq!(tinker.state.rearm_completed_at, Some(1_651));
    // the pause after the rearm
    assert_eq!(tinker.combo_step(&mut ring, &settings, 2_150), vec![]);
    assert_eq!(tinker.state.rearm_completed_at, Some(1_651));
    assert_eq!(tinker.combo_step(&mut ring, &settings, 2_151), vec![InputAction::PressKey('q')]);
    assert_eq!(tinker.state.rearm_completed_at, None);
}

#[test]
fn an_interrupted_rearm_is_retried_when_configured() {
    let settings = Settings::default();
    let mut ring = SoulRingState::new();
    let mut tinker = script(0);
    tinker.combo_step(&mut ring, &settings, 100);
    tinker.cache.as_mut().unwrap().laser_cooldown = 9; // still on cooldown
    assert_eq!(tinker.decide(1_651), ComboDecision::RetryRearm);
    assert_eq!(tinker.combo_step(&mut ring, &settings, 1_651), vec![InputAction::PressKey('r')]);
    assert!(tinker.state.awaiting_rearm_verify);
    assert_eq!(tinker.state.rearm_started, Some(1_651));
    // the retry is judged after its own channel time
    tinker.cache.as_mut().unwrap().last_update = 3_000;
    assert_eq!(tinker.combo_step(&mut ring, &settings, 3_201), vec![]);
    assert_eq!(tinker.state.rearm_started, Some(1_651));
    assert_eq!(tinker.decide(3_202), ComboDecision::RetryRearm);

    let mut tinker = script(0);
    tinker.cache.as_mut().unwrap().settings_snapshot.rearm_retry_on_interrupt = false;
    tinker.combo_step(&mut ring, &settings, 100);
    assert_eq!(tinker.combo_step(&mut ring, &settings, 1_651), vec![]);
    assert!(tinker.state.awaiting_rearm_verify);
}

#[test]
fn the_cache_summarises_the_snapshot() {
    let mut settings = Settings::default();
    settings.heroes.tinker.enabled = true;
    settings.heroes.tinker.combo_priority = vec![
        "item_ethereal_blade".to_string(),
        "laser".to_string(),
        "item_sheepstick".to_string(),
        "item_dagon".to_string(),
    ];
    let mut snapshot = event("npc_dota_hero_tinker", 400, 1_000);
    snapshot.abilities.ability0 = ability("tinker_laser");
    snapshot.abilities.ability0.cooldown = 7;
    snapshot.abilities.ability1 = ability("tinker_warp_flare");
    snapshot.abilities.ability2 = ability("tinker_defense_matrix");
    snapshot.abilities.ability2.level = 0;
    snapshot.items.slot1 = item("item_ethereal_blade");
    snapshot.items.slot3 = item("item_dagon_5");
    snapshot.items.slot3.cooldown = Some(3);
    let mut store = TriggerStore::new();
    let mut tinker = TinkerScript::new();
    let steps = tinker.handle_gsi_event(&snapshot, &settings, &mut store, 777);
    assert_eq!(steps, vec![]);
    let cached = tinker.cache.as_ref().unwrap();
    assert_eq!(cached.last_update, 777);
    assert!(cached.is_alive);
    assert!(!cached.laser_ready);
    assert_eq!(cached.laser_cooldown, 7);
    assert!(cached.warp_flare_ready);
    assert!(!cached.matrix_ready);
    assert_eq!(cached.health_percent, 40);
    assert_eq!(cached.settings_snapshot.combo_priority, settings.heroes.tinker.combo_priority);
    assert_eq!(cached.items.len(), 2);
    assert_eq!(cached.items[0].name, "item_ethereal_blade");
    assert_eq!(cached.items[0].slot_key, 'x');
    assert!(cached.items[0].ready);
    assert!(cached.items[0].needs_click);
    assert_eq!(cached.items[1].name, "item_dagon");
    assert_eq!(cached.items[1].slot_key, 'v');
    assert!(!cached.items[1].ready);
    assert!(!cached.items[1].needs_click);
    assert!(tinker.is_item_ready_static(&snapshot, "item_ethereal"));
    assert!(!tinker.is_item_ready_static(&snapshot, "item_blink"));
    assert!(tinker.is_ability_ready_static(&snapshot, "tinker_warp_flare"));
    assert!(!tinker.is_ability_ready_static(&snapshot, "tinker_rearm"));
    assert_eq!(tinker.get_laser_cooldown_static(&snapshot), 7);
    assert_eq!(tinker.hero_name(), "npc_dota_hero_tinker");
}

#[test]
fn the_matrix_is_cast_in_danger() {
    let mut settings = Settings::default();
    settings.heroes.tinker.enabled = true;
    let mut snapshot = event("npc_dota_hero_tinker", 500, 1_000);
    snapshot.abilities.ability2 = ability("tinker_defense_matrix");
    let tinker = TinkerScript::new();
    assert_eq!(
        tinker.auto_matrix(&snapshot, &settings, true),
        vec![InputAction::PressKey('e'), InputAction::PressKey('e')]
    );
    assert_eq!(tinker.auto_matrix(&snapshot, &settings, false), vec![]);
    snapshot.hero.health_percent = 51;
    assert_eq!(tinker.auto_matrix(&snapshot, &settings, true), vec![]);
    snapshot.hero.health_percent = 50;
    snapshot.abilities.ability2.cooldown = 1;
    assert_eq!(tinker.auto_matrix(&snapshot, &settings, true), vec![]);
    snapshot.abilities.ability2.cooldown = 0;
    settings.heroes.tinker.auto_matrix_enabled = false;
    assert_eq!(tinker.auto_matrix(&snapshot, &settings, true), vec![]);
}

#[test]
fn the_manual_trigger_switches_the_loop() {
    let mut settings = Settings::default();
    let mut store = TriggerStore::new();
    let mut tinker = TinkerScript::new();
    // the feature is off by default: nothing happens
    tinker.handle_standalone_trigger(&settings, &mut store, 0);
    assert!(!is_combo_active(&tinker.state));
    settings.heroes.tinker.enabled = true;
    tinker.state.awaiting_rearm_verify = true;
    tinker.state.rearm_started = Some(5);
    tinker.state.last_cast = Some(5);
    assert_eq!(tinker.handle_standalone_trigger(&settings, &mut store, 0), vec![]);
    assert!(is_combo_active(&tinker.state));
    assert!(tinker.state.loop_running);
    assert_eq!(
        tinker.state,
        TinkerState { combo_active: true, loop_running: true, ..TinkerScript::new().state }
    );
    tinker.handle_standalone_trigger(&settings, &mut store, 0);
    assert!(!is_combo_active(&tinker.state));
    assert!(tinker.state.loop_running);
    tinker.loop_stopped();
    assert!(!tinker.state.loop_running);
}
