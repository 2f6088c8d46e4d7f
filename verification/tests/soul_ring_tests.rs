use dota2_scripts::actions::soul_ring::{press_ability_with_soul_ring, update_from_gsi, SoulRingState};
use dota2_scripts::config::settings::Settings;
use dota2_scripts::input::simulation::InputAction;
use dota2_scripts::models::gsi_event::{Abilities, Ability, GameMap, GsiWebhookEvent, Hero, Item, Items};

fn item(name: &str) -> Item {
    Item {
        name: name.to_string(),
        can_cast: Some(true),
        cooldown: Some(0),
        item_level: None,
        passive: Some(false),
        purchaser: None,
        charges: None,
        item_charges: None,
    }
}

fn items() -> Items {
    Items {
        neutral0: Item::default(),
        slot0: Item::default(),
        slot1: Item::default(),
        slot2: Item::default(),
        slot3: Item::default(),
        slot4: Item::default(),
        slot5: Item::default(),
        slot6: Item::default(),
        slot7: Item::default(),
        slot8: Item::default(),
        stash0: Item::default(),
        stash1: Item::default(),
        stash2: Item::default(),
        stash3: Item::default(),
        stash4: Item::default(),
        stash5: Item::default(),
        teleport0: Item::default(),
    }
}

fn ability(name: &str) -> Ability {
    Ability {
        ability_active: true,
        can_cast: true,
        cooldown: 0,
        level: 1,
        name: name.to_string(),
        passive: false,
        ultimate: false,
    }
}

fn abilities() -> Abilities {
    Abilities {
        ability0: ability("ability_a"),
        ability1: ability("ability_b"),
        ability2: ability("ability_c"),
        ability3: ability("ability_d"),
        ability4: ability("ability_e"),
        ability5: ability("ability_f"),
    }
}

fn hero(name: &str, health: u32, max_health: u32) -> Hero {
    Hero {
        aghanims_scepter: false,
        aghanims_shard: false,
        alive: true,
        attributes_level: 0,
        is_break: false,
        buyback_cooldown: 0,
        buyback_cost: 0,
        disarmed: false,
        facet: 0,
        has_debuff: false,
        health,
        health_percent: if max_health == 0 { 0 } else { health * 100 / max_health },
        hexed: false,
        id: 1,
        level: 10,
        magicimmune: false,
        mana: 300,
        mana_percent: 50,
        max_health,
        max_mana: 600,
        muted: false,
        name: name.to_string(),
        respawn_seconds: 0,
        silenced: false,
        smoked: false,
        stunned: false,
        talent_1: false,
        talent_2: false,
        talent_3: false,
        talent_4: false,
        talent_5: false,
        talent_6: false,
        talent_7: false,
        talent_8: false,
        xp: 0,
        xpos: 0,
        ypos: 0,
    }
}

fn event(name: &str, health: u32, max_health: u32) -> GsiWebhookEvent {
    GsiWebhookEvent {
        hero: hero(name, health, max_health),
        abilities: abilities(),
        items: items(),
        map: GameMap { clock_time: 120 },
    }
}

fn ready_ring() -> SoulRingState {
    let mut state = SoulRingState::new();
    state.available = true;
    state.can_cast = true;
    state.slot_key = Some('x');
    state.hero_alive = true;
    state.hero_mana_percent = 0;
    state.hero_health_percent = 90;
    state
}

#[test]
fn soul_ring_test_default_state() {
    let state = SoulRingState::default();
    assert!(!state.available);
    assert!(!state.can_cast);
    assert!(state.slot_key.is_none());
    assert!(!state.hero_alive);
}

#[test]
fn ring_is_due_at_no_mana_and_high_health() {
    // mana at 0 percent, ring off cooldown, health at 90 percent
    let settings = Settings::default();
    let state = ready_ring();
    assert!(state.should_trigger(&settings, 10_000));
}

#[test]
fn every_precondition_is_needed() {
    let settings = Settings::default();
    let mut state = ready_ring();
    state.available = false;
    assert!(!state.should_trigger(&settings, 0));
    let mut state = ready_ring();
    state.can_cast = false;
    assert!(!state.should_trigger(&settings, 0));
    let mut state = ready_ring();
    state.slot_key = None;
    assert!(!state.should_trigger(&settings, 0));
    let mut state = ready_ring();
    state.hero_alive = false;
    assert!(!state.should_trigger(&settings, 0));
    let mut off = Settings::default();
    off.soul_ring.enabled = false;
    assert!(!ready_ring().should_trigger(&off, 0));
}

#[test]
fn mana_ceiling_and_health_floor() {
    let settings = Settings::default(); // ceiling 90, floor 20
    let mut state = ready_ring();
    state.hero_mana_percent = 89;
    assert!(state.should_trigger(&settings, 0));
    state.hero_mana_percent = 90;
    assert!(!state.should_trigger(&settings, 0));
    state.hero_mana_percent = 0;
    state.hero_health_percent = 21;
    assert!(state.should_trigger(&settings, 0));
    state.hero_health_percent = 20;
    assert!(!state.should_trigger(&settings, 0));
}

#[test]
fn a_ceiling_of_100_means_always() {
    let mut settings = Settings::default();
    settings.soul_ring.min_mana_percent = 100;
    let mut state = ready_ring();
    state.hero_mana_percent = 100;
    assert!(state.should_trigger(&settings, 0));
}

#[test]
fn never_twice_within_the_cooldown() {
    let settings = Settings::default(); // cooldown 500 ms, delay 30 ms
    let mut state = ready_ring();
    let first = press_ability_with_soul_ring(&mut state, 'q', &settings, 1_000);
    assert_eq!(
        first,
        vec![InputAction::PressKey('x'), InputAction::Wait(30), InputAction::PressKey('q')]
    );
    assert_eq!(state.last_triggered, Some(1_000));
    let second = press_ability_with_soul_ring(&mut state, 'w', &settings, 1_499);
    assert_eq!(second, vec![InputAction::PressKey('w')]);
    assert_eq!(state.last_triggered, Some(1_000));
    let third = press_ability_with_soul_ring(&mut state, 'w', &settings, 1_500);
    assert_eq!(
        third,
        vec![InputAction::PressKey('x'), InputAction::Wait(30), InputAction::PressKey('w')]
    );
    assert_eq!(state.last_triggered, Some(1_500));
}

#[test]
fn a_failed_precondition_presses_the_key_alone() {
    let settings = Settings::default();
    let mut state = ready_ring();
    state.can_cast = false;
    let steps = press_ability_with_soul_ring(&mut state, 'q', &settings, 0);
    assert_eq!(steps, vec![InputAction::PressKey('q')]);
    assert_eq!(state.last_triggered, None);
}

#[test]
fn a_key_of_the_skip_list_never_sets_the_ring_off() {
    let settings = Settings::default();
    let mut snapshot = event("npc_dota_hero_tiny", 900, 1_000);
    snapshot.hero.mana_percent = 0;
    snapshot.items.slot0 = item("item_blink"); // on the skip list, key z
    snapshot.items.slot1 = item("item_soul_ring"); // key x
    snapshot.items.slot2 = item("item_orchid"); // not on the list, key c
    let mut state = SoulRingState::new();
    update_from_gsi(&mut state, &snapshot.items, &snapshot.hero, &settings);
    assert!(state.available);
    assert_eq!(state.slot_key, Some('x'));
    assert!(state.should_trigger(&settings, 0));
    assert!(state.is_skipped_key('z', &settings));
    assert!(state.is_skipped_key('Z', &settings));
    assert!(!state.is_skipped_key('c', &settings));
    let skipped = press_ability_with_soul_ring(&mut state, 'z', &settings, 0);
    assert_eq!(skipped, vec![InputAction::PressKey('z')]);
    assert_eq!(state.last_triggered, None);
    let used = press_ability_with_soul_ring(&mut state, 'c', &settings, 0);
    assert_eq!(
        used,
        vec![InputAction::PressKey('x'), InputAction::Wait(30), InputAction::PressKey('c')]
    );
}

#[test]
fn snapshot_records_and_clears_the_ring() {
    let settings = Settings::default();
    let mut snapshot = event("npc_dota_hero_tiny", 500, 1_000);
    snapshot.hero.mana_percent = 40;
    snapshot.items.neutral0 = item("item_soul_ring");
    snapshot.items.neutral0.can_cast = None;
    let mut state = SoulRingState::new();
    update_from_gsi(&mut state, &snapshot.items, &snapshot.hero, &settings);
    assert!(state.available);
    assert!(!state.can_cast); // a missing report counts as not castable
    assert_eq!(state.slot_key, Some('0'));
    assert_eq!(state.hero_mana_percent, 40);
    assert_eq!(state.hero_health_percent, 50);
    assert!(state.hero_alive);
    assert_eq!(state.slot_items.len(), 6);
    assert_eq!(state.slot_items[0], "empty");

    snapshot.items.neutral0 = Item::default();
    update_from_gsi(&mut state, &snapshot.items, &snapshot.hero, &settings);
    assert!(!state.available);
    assert_eq!(state.slot_key, None);
    assert!(!state.can_cast);
}

#[test]
fn key_classes() {
    let settings = Settings::default();
    let mut state = SoulRingState::new();
    state.slot_key = Some('x');
    assert!(state.is_ability_key('q', &settings));
    assert!(state.is_ability_key('Q', &settings));
    assert!(!state.is_ability_key('z', &settings));
    assert!(state.is_item_key('z', &settings));
    assert!(state.is_item_key('N', &settings));
    assert!(!state.is_item_key('x', &settings)); // the ring's own key
    assert!(!state.is_item_key('0', &settings)); // the neutral slot is no item key
    assert!(state.should_intercept_key('q', &settings));
    assert!(state.should_intercept_key('z', &settings));
    assert!(!state.should_intercept_key('x', &settings));
    let mut settings = Settings::default();
    settings.soul_ring.intercept_item_keys = false;
    assert!(!state.is_item_key('z', &settings));
}

#[test]
fn the_time_of_the_last_use_never_steps_back() {
    let mut state = ready_ring();
    state.mark_triggered(2_000);
    assert_eq!(state.last_triggered, Some(2_000));
    state.mark_triggered(1_000);
    assert_eq!(state.last_triggered, Some(2_000));
    state.mark_triggered(3_000);
    assert_eq!(state.last_triggered, Some(3_000));
}
