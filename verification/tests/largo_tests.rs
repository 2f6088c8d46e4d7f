use dota2_scripts::actions::heroes::largo::{
    deadline_of_beat, offset_of_beat, LargoScript, Song, UltimateState, MAX_GROOVIN_STACKS,
};
use dota2_scripts::actions::heroes::traits::HeroScript;
use dota2_scripts::actions::store::TriggerStore;
use dota2_scripts::config::settings::{LargoConfig, Settings};
use dota2_scripts::input::simulation::InputAction;
use dota2_scripts::models::gsi_event::{Abilities, Ability, GameMap, GsiWebhookEvent, Hero, Item, Items};

fn item(name: &str) -> Item {
    Item {
        name: name.to_string(),
        can_cast: Some(true),
        cooldown: Some(0),
        item_level: None,
        passive: Some(false),
        purchaser: None,
        charges: None,
        item_charges: None,
    }
}

fn items() -> Items {
    Items {
        neutral0: Item::default(),
        slot0: Item::default(),
        slot1: Item::default(),
        slot2: Item::default(),
        slot3: Item::default(),
        slot4: Item::default(),
        slot5: Item::default(),
        slot6: Item::default(),
        slot7: Item::default(),
        slot8: Item::default(),
        stash0: Item::default(),
        stash1: Item::default(),
        stash2: Item::default(),
        stash3: Item::default(),
        stash4: Item::default(),
        stash5: Item::default(),
        teleport0: Item::default(),
    }
}

fn ability(name: &str) -> Ability {
    Ability {
        ability_active: true,
        can_cast: true,
        cooldown: 0,
        level: 1,
        name: name.to_string(),
        passive: false,
        ultimate: false,
    }
}

fn abilities() -> Abilities {
    Abilities {
        ability0: ability("ability_a"),
        ability1: ability("ability_b"),
        ability2: ability("ability_c"),
        ability3: ability("ability_d"),
        ability4: ability("ability_e"),
        ability5: ability("ability_f"),
    }
}

fn hero(name: &str, health: u32, max_health: u32) -> Hero {
    Hero {
        aghanims_scepter: false,
        aghanims_shard: false,
        alive: true,
        attributes_level: 0,
        is_break: false,
        buyback_cooldown: 0,
        buyback_cost: 0,
        disarmed: false,
        facet: 0,
        has_debuff: false,
        health,
        health_percent: if max_health == 0 { 0 } else { health * 100 / max_health },
        hexed: false,
        id: 1,
        level: 10,
        magicimmune: false,
        mana: 300,
        mana_percent: 50,
        max_health,
        max_mana: 600,
        muted: false,
        name: name.to_string(),
        respawn_seconds: 0,
        silenced: false,
        smoked: false,
        stunned: false,
        talent_1: false,
        talent_2: false,
        talent_3: false,
        talent_4: false,
        talent_5: false,
        talent_6: false,
        talent_7: false,
        talent_8: false,
        xp: 0,
        xpos: 0,
        ypos: 0,
    }
}

fn event(name: &str, health: u32, max_health: u32) -> GsiWebhookEvent {
    GsiWebhookEvent {
        hero: hero(name, health, max_health),
        abilities: abilities(),
        items: items(),
        map: GameMap { clock_time: 120 },
    }
}

fn schedule(interval: u32, correction: i32, every: u32) -> LargoConfig {
    let mut config = LargoConfig::default();
    config.beat_interval_ms = interval;
    config.beat_correction_ms = correction;
    config.beat_correction_every_n_beats = every;
    config
}

fn active_with(song: Song) -> LargoScript {
    let mut script = LargoScript::new();
    script.state.active = true;
    script.state.current_song = Some(song);
    script
}

#[test]
fn deadlines_follow_the_formula() {
    let config = LargoConfig::default(); // 995 ms, -10 ms every 5 beats
    assert_eq!(offset_of_beat(&config, 0), 0);
    assert_eq!(offset_of_beat(&config, 1), 995);
    assert_eq!(offset_of_beat(&config, 4), 3_980);
    assert_eq!(offset_of_beat(&config, 5), 4_965);
    assert_eq!(offset_of_beat(&config, 9), 8_945);
    assert_eq!(offset_of_beat(&config, 10), 9_930);
    assert_eq!(deadline_of_beat(1_000, &config, 5), 5_965);
    // corrections switched off
    assert_eq!(offset_of_beat(&schedule(1_000, -10, 0), 7), 7_000);
    // never below the anchor
    assert_eq!(offset_of_beat(&schedule(10, -100, 1), 3), 0);
    // the widest values still fit
    assert_eq!(
        offset_of_beat(&schedule(u32::MAX, i32::MAX, 1), u32::MAX),
        (u32::MAX as i128) * (u32::MAX as i128) + (i32::MAX as i128) * (u32::MAX as i128)
    );
}

#[test]
fn deadlines_never_step_back_on_an_ordered_schedule() {
    for config in [LargoConfig::default(), schedule(1_000, 50, 3), schedule(100, -100, 2), schedule(0, -5, 4), schedule(50, -80, 1)] {
        let mut last = deadline_of_beat(10_000, &config, 0);
        for beat in 1..200u32 {
            let next = deadline_of_beat(10_000, &config, beat);
            assert!(next >= last);
            last = next;
        }
    }
}

#[test]
fn a_correction_larger_than_the_interval_steps_back() {
    let config = schedule(100, -150, 2);
    assert_eq!(offset_of_beat(&config, 1), 100);
    assert_eq!(offset_of_beat(&config, 2), 50);
}

#[test]
fn the_schedule_ignores_late_ticks() {
    let config = schedule(1_000, 0, 0);
    let mut script = active_with(Song::Bullbelly);
    // first beat at once, sets the anchor
    assert_eq!(script.beat_tick(&config, 5_000), vec![InputAction::PressKey('q')]);
    assert_eq!(script.state.beat_start_time, Some(5_000));
    assert_eq!(script.state.beat_count, 1);
    assert_eq!(script.beat_tick(&config, 5_999), vec![]);
    assert_eq!(script.state.beat_count, 1);
    // the second beat is cast 400 ms late
    assert_eq!(script.beat_tick(&config, 6_400), vec![InputAction::PressKey('q')]);
    // the third beat is still due at the anchor plus two intervals
    assert!(!script.is_beat_due(&config, 6_999));
    assert!(script.is_beat_due(&config, 7_000));
    assert_eq!(script.state.beat_start_time, Some(5_000));
}

#[test]
fn a_song_switch_waits_for_the_beat() {
    let config = schedule(1_000, 0, 0);
    let mut script = active_with(Song::Bullbelly);
    script.beat_tick(&config, 0);
    script.select_song_manually(Song::Hotfeet);
    assert_eq!(script.state.current_song, Some(Song::Bullbelly));
    assert_eq!(script.state.pending_song, Some(Song::Hotfeet));
    assert_eq!(script.beat_tick(&config, 500), vec![]);
    assert_eq!(script.state.pending_song, Some(Song::Hotfeet));
    assert_eq!(script.beat_tick(&config, 1_000), vec![InputAction::PressKey('w')]);
    assert_eq!(script.state.current_song, Some(Song::Hotfeet));
    assert_eq!(script.state.previous_song, Some(Song::Bullbelly));
    assert_eq!(script.state.pending_song, None);
}

#[test]
fn the_augment_casts_the_previous_song_too() {
    let config = schedule(1_000, 0, 0);
    let mut script = active_with(Song::IslandElixir);
    script.state.has_aggs = true;
    assert_eq!(script.beat_tick(&config, 0), vec![InputAction::PressKey('e')]);
    script.select_song_manually(Song::Bullbelly);
    assert_eq!(
        script.beat_tick(&config, 1_000),
        vec![InputAction::PressKey('q'), InputAction::PressKey('e')]
    );
    script.state.has_aggs = false;
    assert_eq!(script.beat_tick(&config, 2_000), vec![InputAction::PressKey('q')]);
}

#[test]
fn stacks_are_capped() {
    let config = schedule(10, 0, 0);
    let mut script = active_with(Song::Bullbelly);
    for beat in 0..8u64 {
        script.beat_tick(&config, beat * 10);
    }
    assert_eq!(script.state.beat_count, 8);
    assert_eq!(script.state.groovin_stacks, MAX_GROOVIN_STACKS);
    assert_eq!(MAX_GROOVIN_STACKS, 5);
}

#[test]
fn inactive_and_songless_ticks_press_nothing() {
    let config = LargoConfig::default();
    let mut script = LargoScript::new();
    assert_eq!(script.beat_tick(&config, 0), vec![]);
    assert_eq!(script.state, LargoScript::new().state);
    script.state.active = true;
    assert_eq!(script.beat_tick(&config, 0), vec![]);
    assert_eq!(script.state.beat_count, 1);
    assert_eq!(script.state.groovin_stacks, 0);
    // the first song starts the rhythm anew
    script.select_song_manually(Song::Hotfeet);
    assert_eq!(script.state.beat_count, 0);
    assert_eq!(script.state.beat_start_time, None);
    assert_eq!(script.state.current_song, Some(Song::Hotfeet));
    // no song is taken while inactive
    let mut idle = LargoScript::new();
    idle.select_song_manually(Song::Hotfeet);
    assert_eq!(idle.state.current_song, None);
}

#[test]
fn deactivation_resets_everything() {
    let config = schedule(10, 0, 0);
    let settings = Settings::default();
    let mut script = active_with(Song::Bullbelly);
    script.state.has_aggs = true;
    script.beat_tick(&config, 0);
    script.select_song_manually(Song::Hotfeet);
    script.beat_tick(&config, 10);
    script.deactivate_ultimate();
    let mut expected = UltimateState { has_aggs: true, ..LargoScript::new().state };
    assert_eq!(script.state, expected);
    // toggling on presses the ultimate key once and starts without a song
    assert_eq!(script.toggle_ultimate(true, &settings), vec![InputAction::PressKey('r')]);
    expected.active = true;
    assert_eq!(script.state, expected);
    assert_eq!(script.toggle_ultimate(true, &settings), vec![]);
    script.state.groovin_stacks = 4;
    assert_eq!(script.toggle_ultimate(false, &settings), vec![InputAction::PressKey('r')]);
    assert_eq!(script.state.groovin_stacks, 0);
    assert!(!script.state.active);
}

#[test]
fn the_game_reports_the_ultimate() {
    let settings = Settings::default();
    let mut store = TriggerStore::new();
    let mut snapshot = event("npc_dota_hero_largo", 900, 1_000);
    snapshot.abilities.ability0.name = "largo_catchy_lick".to_string();
    assert!(!LargoScript::is_ultimate_active_from_gsi(&snapshot));
    assert_eq!(LargoScript::detect_current_song_from_gsi(&snapshot), None);
    snapshot.abilities.ability0.name = "largo_song_double_time".to_string();
    assert!(LargoScript::is_ultimate_active_from_gsi(&snapshot));
    assert_eq!(LargoScript::detect_current_song_from_gsi(&snapshot), Some(Song::Hotfeet));
    snapshot.abilities.ability0.name = "largo_song_fight_song".to_string();
    assert_eq!(LargoScript::detect_current_song_from_gsi(&snapshot), Some(Song::Bullbelly));
    snapshot.abilities.ability0.name = "largo_song_good_vibrations".to_string();
    assert_eq!(LargoScript::detect_current_song_from_gsi(&snapshot), Some(Song::IslandElixir));

    let mut script = LargoScript::new();
    snapshot.items.slot2 = item("item_ultimate_scepter");
    let steps = script.handle_gsi_event(&snapshot, &settings, &mut store, 0);
    assert_eq!(steps, vec![]);
    assert!(script.state.active);
    assert!(script.state.has_aggs);
    script.select_song_manually(Song::Bullbelly);
    // the game reports the end: the rhythm is reset
    snapshot.abilities.ability0.name = "largo_catchy_lick".to_string();
    snapshot.items.slot2 = Item::default();
    script.handle_gsi_event(&snapshot, &settings, &mut store, 10);
    assert_eq!(script.state, LargoScript::new().state);
    assert_eq!(script.hero_name(), "npc_dota_hero_largo");
}

#[test]
fn song_choice_and_toggle_rules() {
    let settings = Settings::default(); // heal below 50, mana threshold 20
    let script = LargoScript::new();
    let mut snapshot = event("npc_dota_hero_largo", 490, 1_000);
    assert_eq!(script.select_song(&snapshot, &settings, false), Song::IslandElixir);
    snapshot.hero.health_percent = 50;
    assert_eq!(script.select_song(&snapshot, &settings, true), Song::Hotfeet);
    assert_eq!(script.select_song(&snapshot, &settings, false), Song::Bullbelly);
    snapshot.hero.health_percent = 70;
    assert_eq!(script.select_song(&snapshot, &settings, true), Song::Bullbelly);

    snapshot.hero.mana_percent = 20;
    assert!(script.should_toggle_ultimate_on(&snapshot, &settings, true));
    assert!(!script.should_toggle_ultimate_on(&snapshot, &settings, false));
    assert!(script.should_toggle_ultimate_off(&snapshot, &settings));
    snapshot.hero.mana_percent = 19;
    assert!(!script.should_toggle_ultimate_on(&snapshot, &settings, true));
    snapshot.hero.mana_percent = 21;
    assert!(!script.should_toggle_ultimate_off(&snapshot, &settings));
    snapshot.hero.alive = false;
    assert!(!script.should_toggle_ultimate_on(&snapshot, &settings, true));
}

#[test]
fn the_manual_trigger_switches_the_ultimate() {
    let settings = Settings::default();
    let mut store = TriggerStore::new();
    let mut script = LargoScript::new();
    assert_eq!(
        script.handle_standalone_trigger(&settings, &mut store, 0),
        vec![InputAction::PressKey('r')]
    );
    assert!(script.state.active);
    assert_eq!(
        script.handle_standalone_trigger(&settings, &mut store, 0),
        vec![InputAction::PressKey('r')]
    );
    assert!(!script.state.active);
}
