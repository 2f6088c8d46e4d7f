use dota2_scripts::capture_coords::{find_monitor_for_point, MonitorInfo};
use dota2_scripts::config::settings::{
    default_beat_correction_ms, default_port, default_soul_ring_ability_keys, default_standalone_key,
    ScreenPosition, Settings,
};
use dota2_scripts::input::keyboard::{
    hotkeys_for_press, on_key_press, parse_key, parse_lowercase_key, HotkeyEvent, KeyCode,
    KeyboardListenerConfig,
};
use dota2_scripts::input::simulation::{push_repeated_presses, InputAction};
use dota2_scripts::models::gsi_event::{usable_slot_name, Abilities, Ability, Item, Items};
use dota2_scripts::models::heroes::Hero as HeroKind;
use dota2_scripts::models::items::Item as ItemKind;
use dota2_scripts::text::{is_single_char, key_or, keys_match, list_contains};
use dota2_scripts::update::{
    evaluate_releases, is_prerelease, is_prerelease_lowercase, outcome_of_comparison, ReleaseInfo,
    UpdateCheckResult,
};

fn release(version: &str) -> ReleaseInfo {
    ReleaseInfo { version: version.to_string(), body: Some(format!("notes of {}", version)) }
}

#[test]
fn the_defaults() {
    let settings = Settings::default();
    assert_eq!(settings.server.port, 3000);
    assert_eq!(default_port(), 3000);
    assert_eq!(settings.keybindings.slot0, 'z');
    assert_eq!(settings.keybindings.slot5, 'n');
    assert_eq!(settings.keybindings.neutral0, '0');
    assert_eq!(settings.keybindings.combo_trigger, "Home");
    assert_eq!(settings.logging.level, "info");
    assert_eq!(settings.common.survivability_hp_threshold, 30);
    assert_eq!(settings.heroes.huskar.armlet_toggle_threshold, 320);
    assert_eq!(settings.heroes.huskar.armlet_predictive_offset, 30);
    assert_eq!(settings.heroes.huskar.armlet_toggle_cooldown_ms, 250);
    assert_eq!(settings.heroes.huskar.berserker_blood_delay_ms, 300);
    assert_eq!(settings.heroes.shadow_fiend.raze_delay_ms, 100);
    assert_eq!(settings.heroes.largo.beat_interval_ms, 995);
    assert_eq!(settings.heroes.largo.beat_correction_ms, -10);
    assert_eq!(default_beat_correction_ms(), -10);
    assert_eq!(settings.heroes.largo.beat_correction_every_n_beats, 5);
    assert_eq!(settings.heroes.broodmother.spider_control_group_key, "F2");
    assert!(settings.heroes.broodmother.auto_items.is_empty());
    assert!(settings.danger_detection.enabled);
    assert_eq!(settings.danger_detection.hp_threshold_percent, 70);
    assert_eq!(settings.danger_detection.rapid_loss_hp, 100);
    assert_eq!(settings.danger_detection.time_window_ms, 500);
    assert_eq!(settings.danger_detection.clear_delay_seconds, 3);
    assert!(!settings.danger_detection.auto_bkb);
    assert_eq!(settings.danger_detection.satanic_hp_threshold, 40);
    assert_eq!(settings.neutral_items.self_cast_key, ' ');
    assert_eq!(settings.soul_ring.min_mana_percent, 90);
    assert_eq!(settings.soul_ring.min_health_percent, 20);
    assert_eq!(settings.soul_ring.delay_before_ability_ms, 30);
    assert_eq!(settings.soul_ring.trigger_cooldown_ms, 500);
    assert_eq!(settings.soul_ring.ability_keys, vec!["q", "w", "e", "r", "d", "f"]);
    assert_eq!(default_soul_ring_ability_keys().len(), 6);
    assert!(settings.soul_ring.skip_items.contains(&"item_blink".to_string()));
    assert!(!settings.power_treads.enabled);
    assert!(!settings.bottle_optimization.enabled);
    assert_eq!(settings.bottle_optimization.max_game_time_seconds, 600);
    assert_eq!(settings.gsi_logging.output_dir, "logs/gsi_events");
    assert!(settings.updates.check_on_startup);
    assert!(!settings.updates.include_prereleases);
    assert_eq!(default_standalone_key(), "Home");
}

#[test]
fn slots_and_their_keys() {
    let settings = Settings::default();
    assert_eq!(settings.get_key_for_slot("slot0"), Some('z'));
    assert_eq!(settings.get_key_for_slot("slot1"), Some('x'));
    assert_eq!(settings.get_key_for_slot("slot2"), Some('c'));
    assert_eq!(settings.get_key_for_slot("slot3"), Some('v'));
    assert_eq!(settings.get_key_for_slot("slot4"), Some('b'));
    assert_eq!(settings.get_key_for_slot("slot5"), Some('n'));
    assert_eq!(settings.get_key_for_slot("neutral0"), Some('0'));
    assert_eq!(settings.get_key_for_slot("slot6"), None);
    assert_eq!(settings.get_key_for_slot("Slot0"), None);
    for i in 0..7 {
        assert_eq!(
            settings.get_key_for_slot(usable_slot_name(i)),
            Some(settings.keybindings.key_of_slot(i))
        );
    }
    assert_eq!(settings.get_standalone_key("huskar"), "Home");
    assert_eq!(settings.get_standalone_key("shadow_fiend"), "q");
    assert_eq!(settings.get_standalone_key("anyone"), "Home");
    let mut changed = Settings::default();
    changed.heroes.tiny.standalone_key = "End".to_string();
    assert_eq!(changed.get_standalone_key("tiny"), "End");
    assert_eq!(changed.get_standalone_key("legion_commander"), "Home");
}

#[test]
fn key_conflicts_are_found() {
    let mut settings = Settings::default();
    assert!(settings.validate_keybindings());
    settings.keybindings.neutral0 = 'z';
    assert!(!settings.validate_keybindings());
    settings.keybindings.neutral0 = '0';
    settings.keybindings.slot4 = 'n';
    assert!(!settings.validate_keybindings());
}

#[test]
fn screen_positions_by_index() {
    let mut settings = Settings::default();
    assert_eq!(settings.screen_positions.inventory_positions.get_slot(0), None);
    settings.screen_positions.inventory_positions.slots.push(Some(ScreenPosition { x: 4, y: 5 }));
    settings.screen_positions.inventory_positions.slots.push(None);
    settings.screen_positions.inventory_positions.slots.push(Some(ScreenPosition { x: 6, y: 7 }));
    assert_eq!(settings.screen_positions.inventory_positions.get_slot(0), Some(ScreenPosition { x: 4, y: 5 }));
    assert_eq!(settings.screen_positions.inventory_positions.get_slot(1), None);
    assert_eq!(settings.screen_positions.inventory_positions.get_slot(2), Some(ScreenPosition { x: 6, y: 7 }));
    assert_eq!(settings.screen_positions.inventory_positions.get_slot(3), None);
}

#[test]
fn key_names_are_read_in_any_case() {
    assert_eq!(parse_key("Home"), Some(KeyCode::Home));
    assert_eq!(parse_key("END"), Some(KeyCode::End));
    assert_eq!(parse_key("insert"), Some(KeyCode::Insert));
    assert_eq!(parse_key("Delete"), Some(KeyCode::Delete));
    assert_eq!(parse_key("PageUp"), Some(KeyCode::PageUp));
    assert_eq!(parse_key("pagedown"), Some(KeyCode::PageDown));
    assert_eq!(parse_key("F1"), Some(KeyCode::Function(1)));
    assert_eq!(parse_key("f12"), Some(KeyCode::Function(12)));
    assert_eq!(parse_key("f13"), None);
    assert_eq!(parse_key("Q"), Some(KeyCode::Letter('q')));
    assert_eq!(parse_key("z"), Some(KeyCode::Letter('z')));
    assert_eq!(parse_key("1"), None);
    assert_eq!(parse_key(""), None);
    assert_eq!(parse_key("qq"), None);
    // the second step alone does not fold the case
    assert_eq!(parse_lowercase_key("Home"), None);
    assert_eq!(parse_lowercase_key("Q"), None);
}

#[test]
fn what_a_key_press_raises() {
    let q = KeyCode::Letter('q');
    assert_eq!(hotkeys_for_press(q, true, Some(q)), vec![HotkeyEvent::ShadowFiendQ]);
    assert_eq!(hotkeys_for_press(q, false, Some(q)), vec![HotkeyEvent::LargoQ, HotkeyEvent::ComboTrigger]);
    assert_eq!(hotkeys_for_press(KeyCode::Letter('r'), true, None), vec![HotkeyEvent::LargoR]);
    assert_eq!(hotkeys_for_press(KeyCode::Home, true, Some(KeyCode::Home)), vec![HotkeyEvent::ComboTrigger]);
    assert_eq!(hotkeys_for_press(KeyCode::End, false, Some(KeyCode::Home)), vec![]);
    let config = KeyboardListenerConfig { trigger_key: "HOME".to_string(), sf_enabled: false };
    assert_eq!(on_key_press(KeyCode::Home, &config), vec![HotkeyEvent::ComboTrigger]);
    assert_eq!(on_key_press(KeyCode::Letter('w'), &config), vec![HotkeyEvent::LargoW]);
    let config = KeyboardListenerConfig { trigger_key: "nothing".to_string(), sf_enabled: true };
    assert_eq!(on_key_press(KeyCode::Home, &config), vec![]);
    assert_eq!(on_key_press(KeyCode::Letter('e'), &config), vec![HotkeyEvent::ShadowFiendE]);
}

#[test]
fn keys_are_compared_up_to_ascii_case() {
    assert!(keys_match('q', 'Q'));
    assert!(keys_match('Z', 'z'));
    assert!(keys_match('0', '0'));
    assert!(!keys_match('q', 'w'));
    assert!(!keys_match('@', '`'));
    assert!(!keys_match('[', '{'));
    assert!(!keys_match('ä', 'Ä'));
    assert_eq!(key_or(Some('a'), 'b'), 'a');
    assert_eq!(key_or(None, 'b'), 'b');
    assert!(is_single_char("q", 'q'));
    assert!(!is_single_char("qq", 'q'));
    assert!(!is_single_char("", 'q'));
    assert!(is_single_char("é", 'é'));
    let list = vec!["item_blink".to_string(), "item_bottle".to_string()];
    assert!(list_contains(&list, "item_bottle"));
    assert!(!list_contains(&list, "item_bottl"));
}

#[test]
fn presses_are_appended() {
    let mut plan = vec![InputAction::RightClick];
    push_repeated_presses(&mut plan, 'v', 2);
    push_repeated_presses(&mut plan, 'x', 0);
    assert_eq!(
        plan,
        vec![
            InputAction::RightClick,
            InputAction::PressKey('v'),
            InputAction::PressKey('v'),
        ]
    );
}

#[test]
fn items_report_their_readiness() {
    let mut item = Item::default();
    assert_eq!(item.name, "empty");
    assert!(!item.is_castable());
    assert!(!item.is_ready());
    item.can_cast = Some(true);
    assert!(item.is_castable());
    assert!(!item.is_ready()); // no cooldown report: not ready
    item.cooldown = Some(0);
    assert!(item.is_ready());
    item.cooldown = Some(1);
    assert!(!item.is_ready());
    item.cooldown = Some(0);
    item.can_cast = None;
    assert!(!item.is_ready());
    item.cooldown = Some(1);
    let copy = item.duplicate();
    assert_eq!(copy.name, item.name);
    assert_eq!(copy.cooldown, Some(1));
}

#[test]
fn slots_in_order() {
    let mut items = Items {
        neutral0: Item::default(),
        slot0: Item::default(),
        slot1: Item::default(),
        slot2: Item::default(),
        slot3: Item::default(),
        slot4: Item::default(),
        slot5: Item::default(),
        slot6: Item::default(),
        slot7: Item::default(),
        slot8: Item::default(),
        stash0: Item::default(),
        stash1: Item::default(),
        stash2: Item::default(),
        stash3: Item::default(),
        stash4: Item::default(),
        stash5: Item::default(),
        teleport0: Item::default(),
    };
    items.slot3.name = "item_blink".to_string();
    items.neutral0.name = "item_blink".to_string();
    items.slot7.name = "item_tango".to_string();
    let all = items.all_slots();
    let names: Vec<&str> = all.iter().map(|(name, _)| *name).collect();
    assert_eq!(names, vec!["slot0", "slot1", "slot2", "slot3", "slot4", "slot5", "neutral0"]);
    assert_eq!(all[3].1.name, "item_blink");
    assert_eq!(all[6].1.name, "item_blink");
    assert_eq!(items.find_named("item_blink", 7), Some(3));
    assert_eq!(items.find_named("item_blink", 3), None);
    assert_eq!(items.find_named("blink", 7), None);
    assert_eq!(items.find_holding("blink", 7), Some(3));
    assert_eq!(items.find_ready_holding("blink", 7), None);
    assert_eq!(items.find_castable_named("item_blink"), None);
    items.neutral0.can_cast = Some(true);
    assert_eq!(items.find_ready_holding("blink", 7), None);
    items.neutral0.cooldown = Some(0);
    assert_eq!(items.find_ready_holding("blink", 7), Some(6));
    assert_eq!(items.find_ready_holding("blink", 6), None);
    assert_eq!(items.find_castable_named("item_blink"), Some(6));
    assert_eq!(items.find_off_cooldown_holding("blink", 7), Some(6));
    assert_eq!(items.find_off_cooldown_holding("blink", 6), None);
    items.slot3.cooldown = Some(0);
    assert_eq!(items.find_off_cooldown_holding("blink", 100), Some(3));
    assert_eq!(items.find_ready_holding("blink", 100), Some(6));
    assert!(items.slot3.is_off_cooldown());
    assert_eq!(items.backpack_slot(1).name, "item_tango");
    assert_eq!(items.usable_slot(6).name, "item_blink");
    assert_eq!(items.duplicate().slot7.name, "item_tango");
}

#[test]
fn abilities_by_index() {
    let make = |name: &str| Ability {
        ability_active: true,
        can_cast: true,
        cooldown: 0,
        level: 1,
        name: name.to_string(),
        passive: false,
        ultimate: false,
    };
    let abilities = Abilities {
        ability0: make("a"),
        ability1: make("b"),
        ability2: make("c"),
        ability3: make("d"),
        ability4: make("e"),
        ability5: make("f"),
    };
    assert_eq!(abilities.get_by_index(0).unwrap().name, "a");
    assert_eq!(abilities.get_by_index(5).unwrap().name, "f");
    assert!(abilities.get_by_index(6).is_none());
    assert_eq!(abilities.find_named("e", 6), Some(4));
    assert_eq!(abilities.find_named("e", 4), None);
    assert!(abilities.ability(2).is_ready());
    let mut unlearned = make("x");
    unlearned.level = 0;
    assert!(!unlearned.is_ready());
}

#[test]
fn game_names() {
    assert_eq!(HeroKind::Nevermore.to_game_name(), "npc_dota_hero_nevermore");
    assert_eq!(HeroKind::from_game_name("npc_dota_hero_tiny"), Some(HeroKind::Tiny));
    assert_eq!(HeroKind::from_game_name("npc_dota_hero_tinker"), Some(HeroKind::Tinker));
    assert_eq!(HeroKind::from_game_name("tiny"), None);
    for hero in [HeroKind::Broodmother, HeroKind::Huskar, HeroKind::Largo, HeroKind::LegionCommander, HeroKind::Nevermore, HeroKind::Tinker, HeroKind::Tiny] {
        assert_eq!(HeroKind::from_game_name(hero.to_game_name()), Some(hero));
    }
    assert_eq!(ItemKind::BlackKingBar.to_game_name(), "item_black_king_bar");
    assert_eq!(ItemKind::Blink.to_game_name(), "item_blink");
}

#[test]
fn prereleases_are_told_by_their_suffix() {
    assert!(is_prerelease("1.2.0-rc1"));
    assert!(is_prerelease("v2.0.0-ALPHA"));
    assert!(is_prerelease("1.0.0-Beta.2"));
    assert!(is_prerelease("0.9.0-dev"));
    assert!(!is_prerelease("1.2.0"));
    assert!(!is_prerelease("1.2.0+rc1"));
    assert!(!is_prerelease_lowercase("1.0.0-RC1"));
}

#[test]
fn a_newer_release_is_found() {
    let releases = vec![release("v1.4.0-rc1"), release("v1.3.0"), release("v1.2.0")];
    match evaluate_releases("1.2.5", &releases, false) {
        UpdateCheckResult::Available(info) => {
            assert_eq!(info.version, "1.3.0");
            assert_eq!(info.release_notes, Some("notes of v1.3.0".to_string()));
        }
        other => panic!("unexpected outcome: {:?}", other),
    }
    match evaluate_releases("1.2.5", &releases, true) {
        UpdateCheckResult::Available(info) => assert_eq!(info.version, "1.4.0-rc1"),
        other => panic!("unexpected outcome: {:?}", other),
    }
    assert!(matches!(evaluate_releases("1.3.0", &releases, false), UpdateCheckResult::UpToDate));
    assert!(matches!(evaluate_releases("2.0.0", &releases, true), UpdateCheckResult::UpToDate));
    assert!(matches!(evaluate_releases("0.1.0", &Vec::new(), true), UpdateCheckResult::UpToDate));
    let only_pre = vec![release("v9.0.0-beta")];
    assert!(matches!(evaluate_releases("0.1.0", &only_pre, false), UpdateCheckResult::UpToDate));
    // only the latest release is compared
    let older_first = vec![release("1.0.0"), release("3.0.0")];
    assert!(matches!(evaluate_releases("2.0.0", &older_first, false), UpdateCheckResult::UpToDate));
}

#[test]
fn a_version_that_does_not_parse_is_an_error() {
    let releases = vec![release("vvnext")];
    match evaluate_releases("1.0.0", &releases, false) {
        UpdateCheckResult::Error(message) => {
            assert!(message.starts_with("Failed to compare versions: "));
            assert!(message.len() > "Failed to compare versions: ".len());
        }
        other => panic!("unexpected outcome: {:?}", other),
    }
    assert!(matches!(
        evaluate_releases("not a version", &vec![release("1.0.0")], false),
        UpdateCheckResult::Error(_)
    ));
}

#[test]
fn the_outcome_of_a_comparison() {
    let notes = Some("notes".to_string());
    match outcome_of_comparison(Ok(true), "1.0.1", &notes) {
        UpdateCheckResult::Available(info) => {
            assert_eq!(info.version, "1.0.1");
            assert_eq!(info.release_notes, notes);
        }
        other => panic!("unexpected outcome: {:?}", other),
    }
    assert!(matches!(outcome_of_comparison(Ok(false), "1.0.1", &None), UpdateCheckResult::UpToDate));
    match outcome_of_comparison(Err("bad".to_string()), "1.0.1", &None) {
        UpdateCheckResult::Error(message) => assert_eq!(message, "bad"),
        other => panic!("unexpected outcome: {:?}", other),
    }
}

#[test]
fn the_screen_under_a_point() {
    let screen = |name: &str, x: i32, y: i32, width: i32, height: i32| MonitorInfo {
        name: name.to_string(),
        x,
        y,
        width,
        height,
        is_primary: x == 0,
    };
    let monitors = vec![
        screen("left", -1920, 0, 1920, 1080),
        screen("main", 0, 0, 1920, 1080),
        screen("overlap", 1000, 0, 1920, 1080),
        screen("far", i32::MAX - 10, 0, 100, 100),
    ];
    assert_eq!(find_monitor_for_point(&monitors, -1, 0).unwrap().name, "left");
    assert_eq!(find_monitor_for_point(&monitors, 0, 0).unwrap().name, "main");
    assert_eq!(find_monitor_for_point(&monitors, 1500, 500).unwrap().name, "main");
    assert_eq!(find_monitor_for_point(&monitors, 1920, 1079).unwrap().name, "overlap");
    assert!(find_monitor_for_point(&monitors, 1920, 1080).is_none());
    assert!(find_monitor_for_point(&monitors, 0, -1).is_none());
    assert_eq!(find_monitor_for_point(&monitors, i32::MAX, 50).unwrap().name, "far");
    assert!(find_monitor_for_point(&Vec::new(), 0, 0).is_none());
    assert!(monitors[1].holds(1919, 1079));
    assert!(!monitors[1].holds(1920, 0));
}
