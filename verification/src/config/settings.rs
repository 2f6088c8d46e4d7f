//! Configuration: every threshold, key binding and switch that the rules read.
//!
//! Each type has a default value, stated field by field in `is_default`.

use vstd::prelude::*;
use crate::models::gsi_event::slot_name;
use crate::text::str_eq;

verus! {

/// A position on screen, in pixels.
#[derive(Debug, Clone, Copy, PartialEq, Eq, Structural)]
pub struct ScreenPosition {
    pub x: i32,
    pub y: i32,
}

/// One ability that is cast automatically before an attack.
#[derive(Debug, Clone, Copy, PartialEq, Eq, Structural)]
pub struct AutoAbilityConfig {
    /// Ability slot, `0..=5`.
    pub index: u8,
    /// Key that casts the ability.
    pub key: char,
    /// When set, the ability is cast only while health is below this
    /// percentage.
    pub hp_threshold: Option<u32>,
}

/// Whether and how the program looks for a newer release.
#[derive(Debug, Clone)]
pub struct UpdateConfig {
    pub check_on_startup: bool,
    pub include_prereleases: bool,
}

impl UpdateConfig {
    /// Every field has its default value.
    pub open spec fn is_default(self) -> bool {
        &&& self.check_on_startup == true
        &&& self.include_prereleases == false
    }
}

impl Default for UpdateConfig {
    fn default() -> (r: Self)
        ensures
            r.is_default(),
    {
        UpdateConfig {
            check_on_startup: default_check_on_startup(),
            include_prereleases: default_include_prereleases(),
        }
    }
}

/// Where snapshots are received.
#[derive(Debug, Clone)]
pub struct ServerConfig {
    pub port: u16,
}

impl ServerConfig {
    /// Every field has its default value.
    pub open spec fn is_default(self) -> bool {
        &&& self.port == 3000
    }
}

impl Default for ServerConfig {
    fn default() -> (r: Self)
        ensures
            r.is_default(),
    {
        ServerConfig {
            port: default_port(),
        }
    }
}

/// The key bound to each usable inventory slot, and the combo hotkey.
#[derive(Debug, Clone)]
pub struct KeybindingsConfig {
    pub slot0: char,
    pub slot1: char,
    pub slot2: char,
    pub slot3: char,
    pub slot4: char,
    pub slot5: char,
    pub neutral0: char,
    pub combo_trigger: String,
}

impl KeybindingsConfig {
    /// Every field has its default value.
    pub open spec fn is_default(self) -> bool {
        &&& self.slot0 == 'z'
        &&& self.slot1 == 'x'
        &&& self.slot2 == 'c'
        &&& self.slot3 == 'v'
        &&& self.slot4 == 'b'
        &&& self.slot5 == 'n'
        &&& self.neutral0 == '0'
        &&& self.combo_trigger@ == "Home"@
    }
}

impl Default for KeybindingsConfig {
    fn default() -> (r: Self)
        ensures
            r.is_default(),
    {
        KeybindingsConfig {
            slot0: default_slot0(),
            slot1: default_slot1(),
            slot2: default_slot2(),
            slot3: default_slot3(),
            slot4: default_slot4(),
            slot5: default_slot5(),
            neutral0: default_neutral(),
            combo_trigger: default_hotkey(),
        }
    }
}

/// Verbosity of the log.
#[derive(Debug, Clone)]
pub struct LoggingConfig {
    pub level: String,
}

impl LoggingConfig {
    /// Every field has its default value.
    pub open spec fn is_default(self) -> bool {
        &&& self.level@ == "info"@
    }
}

impl Default for LoggingConfig {
    fn default() -> (r: Self)
        ensures
            r.is_default(),
    {
        LoggingConfig {
            level: default_log_level(),
        }
    }
}

/// Rules shared by every hero.
#[derive(Debug, Clone)]
pub struct CommonConfig {
    /// Health percentage below which a healing item is used.
    pub survivability_hp_threshold: u32,
}

impl CommonConfig {
    /// Every field has its default value.
    pub open spec fn is_default(self) -> bool {
        &&& self.survivability_hp_threshold == 30
    }
}

impl Default for CommonConfig {
    fn default() -> (r: Self)
        ensures
            r.is_default(),
    {
        CommonConfig {
            survivability_hp_threshold: default_survivability_threshold(),
        }
    }
}

/// Armlet toggling and debuff cleansing for Huskar.
#[derive(Debug, Clone)]
pub struct HuskarConfig {
    pub armlet_toggle_threshold: u32,
    pub armlet_predictive_offset: u32,
    pub armlet_toggle_cooldown_ms: u64,
    pub berserker_blood_key: char,
    pub berserker_blood_delay_ms: u64,
    pub standalone_key: String,
}

impl HuskarConfig {
    /// Every field has its default value.
    pub open spec fn is_default(self) -> bool {
        &&& self.armlet_toggle_threshold == 320
        &&& self.armlet_predictive_offset == 30
        &&& self.armlet_toggle_cooldown_ms == 250
        &&& self.berserker_blood_key == 'e'
        &&& self.berserker_blood_delay_ms == 300
        &&& self.standalone_key@ == "Home"@
    }
}

impl Default for HuskarConfig {
    fn default() -> (r: Self)
        ensures
            r.is_default(),
    {
        HuskarConfig {
            armlet_toggle_threshold: default_armlet_threshold(),
            armlet_predictive_offset: default_armlet_offset(),
            armlet_toggle_cooldown_ms: default_armlet_cooldown(),
            berserker_blood_key: default_berserker_blood_key(),
            berserker_blood_delay_ms: default_berserker_blood_delay(),
            standalone_key: default_standalone_key(),
        }
    }
}

/// Legion Commander's combo hotkey.
#[derive(Debug, Clone)]
pub struct LegionCommanderConfig {
    pub standalone_key: String,
}

impl LegionCommanderConfig {
    /// Every field has its default value.
    pub open spec fn is_default(self) -> bool {
        &&& self.standalone_key@ == "Home"@
    }
}

impl Default for LegionCommanderConfig {
    fn default() -> (r: Self)
        ensures
            r.is_default(),
    {
        LegionCommanderConfig {
            standalone_key: default_standalone_key(),
        }
    }
}

/// Raze interception for Shadow Fiend.
#[derive(Debug, Clone)]
pub struct ShadowFiendConfig {
    pub raze_intercept_enabled: bool,
    pub raze_delay_ms: u64,
    pub auto_bkb_on_ultimate: bool,
    pub auto_d_on_ultimate: bool,
    pub standalone_key: String,
}

impl ShadowFiendConfig {
    /// Every field has its default value.
    pub open spec fn is_default(self) -> bool {
        &&& self.raze_intercept_enabled == true
        &&& self.raze_delay_ms == 100
        &&& self.auto_bkb_on_ultimate == false
        &&& self.auto_d_on_ultimate == false
        &&& self.standalone_key@ == "Home"@
    }
}

impl Default for ShadowFiendConfig {
    fn default() -> (r: Self)
        ensures
            r.is_default(),
    {
        ShadowFiendConfig {
            raze_intercept_enabled: default_sf_raze_enabled(),
            raze_delay_ms: default_raze_delay(),
            auto_bkb_on_ultimate: default_sf_auto_bkb_on_ultimate(),
            auto_d_on_ultimate: default_sf_auto_d_on_ultimate(),
            standalone_key: default_standalone_key(),
        }
    }
}

/// Tiny's combo hotkey.
#[derive(Debug, Clone)]
pub struct TinyConfig {
    pub standalone_key: String,
}

impl TinyConfig {
    /// Every field has its default value.
    pub open spec fn is_default(self) -> bool {
        &&& self.standalone_key@ == "Home"@
    }
}

impl Default for TinyConfig {
    fn default() -> (r: Self)
        ensures
            r.is_default(),
    {
        TinyConfig {
            standalone_key: default_standalone_key(),
        }
    }
}

/// Spider micro and attack-time item use for Broodmother.
#[derive(Debug, Clone)]
pub struct BroodmotherConfig {
    pub spider_micro_enabled: bool,
    pub spider_control_group_key: String,
    pub reselect_hero_key: String,
    pub attack_key: char,
    pub auto_items_enabled: bool,
    pub auto_items_modifier: String,
    pub auto_items: Vec<String>,
    pub auto_abilities: Vec<AutoAbilityConfig>,
    pub auto_abilities_first: bool,
}

impl BroodmotherConfig {
    /// Every field has its default value.
    pub open spec fn is_default(self) -> bool {
        &&& self.spider_micro_enabled == true
        &&& self.spider_control_group_key@ == "F2"@
        &&& self.reselect_hero_key@ == "F1"@
        &&& self.attack_key == 'a'
        &&& self.auto_items_enabled == false
        &&& self.auto_items_modifier@ == "Space"@
        &&& self.auto_items@.len() == 0
        &&& self.auto_abilities@.len() == 0
        &&& self.auto_abilities_first == false
    }
}

impl Default for BroodmotherConfig {
    fn default() -> (r: Self)
        ensures
            r.is_default(),
    {
        BroodmotherConfig {
            spider_micro_enabled: default_broodmother_enabled(),
            spider_control_group_key: default_broodmother_spider_control_group(),
            reselect_hero_key: default_broodmother_reselect_hero_key(),
            attack_key: default_broodmother_attack_key(),
            auto_items_enabled: default_auto_items_enabled(),
            auto_items_modifier: default_auto_items_modifier(),
            auto_items: default_auto_items(),
            auto_abilities: default_auto_abilities(),
            auto_abilities_first: default_auto_abilities_first(),
        }
    }
}

/// The rhythm schedule and the song keys of Largo.
#[derive(Debug, Clone)]
pub struct LargoConfig {
    pub amphibian_rhapsody_enabled: bool,
    pub auto_toggle_on_danger: bool,
    pub mana_threshold_percent: u32,
    pub heal_hp_threshold: u32,
    /// Milliseconds from one beat to the next.
    pub beat_interval_ms: u32,
    /// Offset added to the schedule at every correction; may be negative.
    pub beat_correction_ms: i32,
    /// A correction is added every this many beats; zero switches corrections off.
    pub beat_correction_every_n_beats: u32,
    pub q_ability_key: char,
    pub w_ability_key: char,
    pub e_ability_key: char,
    pub r_ability_key: char,
    pub standalone_key: String,
}

impl LargoConfig {
    /// Every field has its default value.
    pub open spec fn is_default(self) -> bool {
        &&& self.amphibian_rhapsody_enabled == true
        &&& self.auto_toggle_on_danger == true
        &&& self.mana_threshold_percent == 20
        &&& self.heal_hp_threshold == 50
        &&& self.beat_interval_ms == 995
        &&& self.beat_correction_ms == -10
        &&& self.beat_correction_every_n_beats == 5
        &&& self.q_ability_key == 'q'
        &&& self.w_ability_key == 'w'
        &&& self.e_ability_key == 'e'
        &&& self.r_ability_key == 'r'
        &&& self.standalone_key@ == "Home"@
    }
}

impl Default for LargoConfig {
    fn default() -> (r: Self)
        ensures
            r.is_default(),
    {
        LargoConfig {
            amphibian_rhapsody_enabled: default_amphibian_enabled(),
            auto_toggle_on_danger: default_auto_toggle_on_danger(),
            mana_threshold_percent: default_largo_mana_threshold(),
            heal_hp_threshold: default_largo_heal_threshold(),
            beat_interval_ms: default_beat_interval_ms(),
            beat_correction_ms: default_beat_correction_ms(),
            beat_correction_every_n_beats: default_beat_correction_every_n_beats(),
            q_ability_key: default_largo_q_key(),
            w_ability_key: default_largo_w_key(),
            e_ability_key: default_largo_e_key(),
            r_ability_key: default_largo_r_key(),
            standalone_key: default_standalone_key(),
        }
    }
}

/// The fast cast loop of Tinker.
#[derive(Debug, Clone)]
pub struct TinkerConfig {
    pub enabled: bool,
    /// What to cast, most wanted first: `laser`, `warp_flare`, or the name of an item.
    pub combo_priority: Vec<String>,
    pub laser_key: char,
    pub matrix_key: char,
    pub warp_flare_key: char,
    pub rearm_key: char,
    pub auto_matrix_enabled: bool,
    pub auto_matrix_hp_threshold: u32,
    pub rearm_retry_on_interrupt: bool,
    pub standalone_key: String,
}

impl TinkerConfig {
    /// Every field has its default value.
    pub open spec fn is_default(self) -> bool {
        &&& self.enabled == false
        &&& self.combo_priority@.len() == 2
        &&& self.combo_priority@[0]@ == "laser"@
        &&& self.combo_priority@[1]@ == "warp_flare"@
        &&& self.laser_key == 'q'
        &&& self.matrix_key == 'e'
        &&& self.warp_flare_key == 'w'
        &&& self.rearm_key == 'r'
        &&& self.auto_matrix_enabled == true
        &&& self.auto_matrix_hp_threshold == 50
        &&& self.rearm_retry_on_interrupt == true
        &&& self.standalone_key@ == "Home"@
    }
}

impl Default for TinkerConfig {
    fn default() -> (r: Self)
        ensures
            r.is_default(),
    {
        TinkerConfig {
            enabled: default_tinker_enabled(),
            combo_priority: default_tinker_combo_priority(),
            laser_key: default_tinker_laser_key(),
            matrix_key: default_tinker_matrix_key(),
            warp_flare_key: default_tinker_warp_flare_key(),
            rearm_key: default_tinker_rearm_key(),
            auto_matrix_enabled: default_tinker_auto_matrix_enabled(),
            auto_matrix_hp_threshold: default_tinker_auto_matrix_hp_threshold(),
            rearm_retry_on_interrupt: default_tinker_rearm_retry(),
            standalone_key: default_standalone_key(),
        }
    }
}

/// The settings of every supported hero.
#[derive(Debug, Clone)]
pub struct HeroesConfig {
    pub huskar: HuskarConfig,
    pub legion_commander: LegionCommanderConfig,
    pub shadow_fiend: ShadowFiendConfig,
    pub tiny: TinyConfig,
    pub largo: LargoConfig,
    pub broodmother: BroodmotherConfig,
    pub tinker: TinkerConfig,
}

impl HeroesConfig {
    /// Every field has its default value.
    pub open spec fn is_default(self) -> bool {
        &&& self.huskar.is_default()
        &&& self.legion_commander.is_default()
        &&& self.shadow_fiend.is_default()
        &&& self.tiny.is_default()
        &&& self.largo.is_default()
        &&& self.broodmother.is_default()
        &&& self.tinker.is_default()
    }
}

impl Default for HeroesConfig {
    fn default() -> (r: Self)
        ensures
            r.is_default(),
    {
        HeroesConfig {
            huskar: HuskarConfig::default(),
            legion_commander: LegionCommanderConfig::default(),
            shadow_fiend: ShadowFiendConfig::default(),
            tiny: TinyConfig::default(),
            largo: LargoConfig::default(),
            broodmother: BroodmotherConfig::default(),
            tinker: TinkerConfig::default(),
        }
    }
}

/// When the hero counts as in danger, and what is used then.
#[derive(Debug, Clone)]
pub struct DangerDetectionConfig {
    pub enabled: bool,
    pub hp_threshold_percent: u32,
    pub rapid_loss_hp: u32,
    pub time_window_ms: u64,
    pub clear_delay_seconds: u64,
    pub healing_threshold_in_danger: u32,
    pub max_healing_items_per_danger: u32,
    pub auto_bkb: bool,
    pub auto_satanic: bool,
    pub satanic_hp_threshold: u32,
    pub auto_blade_mail: bool,
    pub auto_glimmer_cape: bool,
    pub auto_ghost_scepter: bool,
    pub auto_shivas_guard: bool,
    pub auto_manta_on_silence: bool,
    pub auto_lotus_on_silence: bool,
}

impl DangerDetectionConfig {
    /// Every field has its default value.
    pub open spec fn is_default(self) -> bool {
        &&& self.enabled == true
        &&& self.hp_threshold_percent == 70
        &&& self.rapid_loss_hp == 100
        &&& self.time_window_ms == 500
        &&& self.clear_delay_seconds == 3
        &&& self.healing_threshold_in_danger == 50
        &&& self.max_healing_items_per_danger == 3
        &&& self.auto_bkb == false
        &&& self.auto_satanic == true
        &&& self.satanic_hp_threshold == 40
        &&& self.auto_blade_mail == true
        &&& self.auto_glimmer_cape == true
        &&& self.auto_ghost_scepter == true
        &&& self.auto_shivas_guard == true
        &&& self.auto_manta_on_silence == true
        &&& self.auto_lotus_on_silence == true
    }
}

impl Default for DangerDetectionConfig {
    fn default() -> (r: Self)
        ensures
            r.is_default(),
    {
        DangerDetectionConfig {
            enabled: default_danger_enabled(),
            hp_threshold_percent: default_danger_hp_threshold(),
            rapid_loss_hp: default_rapid_loss_hp(),
            time_window_ms: default_time_window_ms(),
            clear_delay_seconds: default_clear_delay_seconds(),
            healing_threshold_in_danger: default_healing_threshold_in_danger(),
            max_healing_items_per_danger: default_max_healing_items(),
            auto_bkb: default_auto_bkb(),
            auto_satanic: default_auto_satanic(),
            satanic_hp_threshold: default_satanic_hp_threshold(),
            auto_blade_mail: default_auto_blade_mail(),
            auto_glimmer_cape: default_auto_glimmer_cape(),
            auto_ghost_scepter: default_auto_ghost_scepter(),
            auto_shivas_guard: default_auto_shivas_guard(),
            auto_manta_on_silence: default_auto_manta_on_silence(),
            auto_lotus_on_silence: default_auto_lotus_on_silence(),
        }
    }
}

/// Use of the neutral item.
#[derive(Debug, Clone)]
pub struct NeutralItemConfig {
    pub enabled: bool,
    pub self_cast_key: char,
    pub log_discoveries: bool,
    pub use_in_danger: bool,
    pub hp_threshold: u32,
    pub allowed_items: Vec<String>,
}

impl NeutralItemConfig {
    /// Every field has its default value.
    pub open spec fn is_default(self) -> bool {
        &&& self.enabled == false
        &&& self.self_cast_key == ' '
        &&& self.log_discoveries == true
        &&& self.use_in_danger == true
        &&& self.hp_threshold == 50
        &&& self.allowed_items@.len() == 0
    }
}

impl Default for NeutralItemConfig {
    fn default() -> (r: Self)
        ensures
            r.is_default(),
    {
        NeutralItemConfig {
            enabled: default_neutral_items_enabled(),
            self_cast_key: default_self_cast_key(),
            log_discoveries: default_log_discoveries(),
            use_in_danger: default_use_in_danger(),
            hp_threshold: default_neutral_hp_threshold(),
            allowed_items: default_allowed_items(),
        }
    }
}

/// The mana-restoring ring that is used before a cast.
#[derive(Debug, Clone)]
pub struct SoulRingConfig {
    pub enabled: bool,
    /// The ring is used only while mana is below this percentage; 100 stands for always.
    pub min_mana_percent: u32,
    /// The ring is used only while health is above this percentage.
    pub min_health_percent: u32,
    pub delay_before_ability_ms: u64,
    pub trigger_cooldown_ms: u64,
    pub ability_keys: Vec<String>,
    pub intercept_item_keys: bool,
    /// Items that cost no mana: a key bound to one of them never sets the ring off.
    pub skip_items: Vec<String>,
}

impl SoulRingConfig {
    /// Every field has its default value.
    pub open spec fn is_default(self) -> bool {
        &&& self.enabled == true
        &&& self.min_mana_percent == 90
        &&& self.min_health_percent == 20
        &&& self.delay_before_ability_ms == 30
        &&& self.trigger_cooldown_ms == 500
        &&& self.ability_keys@.len() == 6
        &&& self.ability_keys@[0]@ == "q"@
        &&& self.ability_keys@[1]@ == "w"@
        &&& self.ability_keys@[2]@ == "e"@
        &&& self.ability_keys@[3]@ == "r"@
        &&& self.ability_keys@[4]@ == "d"@
        &&& self.ability_keys@[5]@ == "f"@
        &&& self.intercept_item_keys == true
        &&& self.skip_items@.len() == 9
        &&& self.skip_items@[0]@ == "item_blink"@
        &&& self.skip_items@[1]@ == "item_bottle"@
        &&& self.skip_items@[2]@ == "item_magic_wand"@
        &&& self.skip_items@[3]@ == "item_magic_stick"@
        &&& self.skip_items@[4]@ == "item_faerie_fire"@
        &&& self.skip_items@[5]@ == "item_black_king_bar"@
        &&& self.skip_items@[6]@ == "item_phase_boots"@
        &&& self.skip_items@[7]@ == "item_power_treads"@
        &&& self.skip_items@[8]@ == "item_armlet"@
    }
}

impl Default for SoulRingConfig {
    fn default() -> (r: Self)
        ensures
            r.is_default(),
    {
        SoulRingConfig {
            enabled: default_soul_ring_enabled(),
            min_mana_percent: default_soul_ring_min_mana_percent(),
            min_health_percent: default_soul_ring_min_health_percent(),
            delay_before_ability_ms: default_soul_ring_delay_ms(),
            trigger_cooldown_ms: default_soul_ring_cooldown_ms(),
            ability_keys: default_soul_ring_ability_keys(),
            intercept_item_keys: default_soul_ring_intercept_items(),
            skip_items: default_soul_ring_skip_items(),
        }
    }
}

/// Stat switching of the treads before casts and item uses.
#[derive(Debug, Clone)]
pub struct PowerTreadsConfig {
    pub enabled: bool,
    pub toggle_cooldown_ms: u64,
    pub toggle_for_abilities: bool,
    pub toggle_for_items: bool,
    pub ability_keys: Vec<String>,
}

impl PowerTreadsConfig {
    /// Every field has its default value.
    pub open spec fn is_default(self) -> bool {
        &&& self.enabled == false
        &&& self.toggle_cooldown_ms == 150
        &&& self.toggle_for_abilities == true
        &&& self.toggle_for_items == true
        &&& self.ability_keys@.len() == 6
        &&& self.ability_keys@[0]@ == "q"@
        &&& self.ability_keys@[1]@ == "w"@
        &&& self.ability_keys@[2]@ == "e"@
        &&& self.ability_keys@[3]@ == "r"@
        &&& self.ability_keys@[4]@ == "d"@
        &&& self.ability_keys@[5]@ == "f"@
    }
}

impl Default for PowerTreadsConfig {
    fn default() -> (r: Self)
        ensures
            r.is_default(),
    {
        PowerTreadsConfig {
            enabled: default_power_treads_enabled(),
            toggle_cooldown_ms: default_power_treads_cooldown_ms(),
            toggle_for_abilities: default_power_treads_toggle_for_abilities(),
            toggle_for_items: default_power_treads_toggle_for_items(),
            ability_keys: default_power_treads_ability_keys(),
        }
    }
}

/// The batch reorganizer that runs before the bottle is used.
#[derive(Debug, Clone)]
pub struct BottleOptimizationConfig {
    pub enabled: bool,
    /// Game clock, in seconds, from which on the reorganizer stays idle.
    pub max_game_time_seconds: i32,
    pub trigger_cooldown_ms: u64,
    /// Names of the stat items that are moved out and back.
    pub target_items: Vec<String>,
    pub mouse_jitter_px: u32,
    pub delay_between_drags_ms: u64,
    pub restore_mouse_position: bool,
}

impl BottleOptimizationConfig {
    /// Every field has its default value.
    pub open spec fn is_default(self) -> bool {
        &&& self.enabled == false
        &&& self.max_game_time_seconds == 600
        &&& self.trigger_cooldown_ms == 5000
        &&& self.target_items@.len() == 1
        &&& self.target_items@[0]@ == "item_branches"@
        &&& self.mouse_jitter_px == 3
        &&& self.delay_between_drags_ms == 50
        &&& self.restore_mouse_position == true
    }
}

impl Default for BottleOptimizationConfig {
    fn default() -> (r: Self)
        ensures
            r.is_default(),
    {
        BottleOptimizationConfig {
            enabled: default_bottle_optimization_enabled(),
            max_game_time_seconds: default_bottle_max_game_time_seconds(),
            trigger_cooldown_ms: default_bottle_trigger_cooldown_ms(),
            target_items: default_bottle_target_items(),
            mouse_jitter_px: default_bottle_mouse_jitter_px(),
            delay_between_drags_ms: default_bottle_delay_between_drags_ms(),
            restore_mouse_position: default_bottle_restore_mouse_position(),
        }
    }
}

/// Screen positions of a row of slots, by slot index; `None` where a slot was not captured.
#[derive(Debug, Clone)]
pub struct SlotPositions {
    pub slots: Vec<Option<ScreenPosition>>,
}

impl SlotPositions {
    /// Every field has its default value.
    pub open spec fn is_default(self) -> bool {
        &&& self.slots@.len() == 0
    }
}

impl Default for SlotPositions {
    fn default() -> (r: Self)
        ensures
            r.is_default(),
    {
        SlotPositions {
            slots: default_slot_positions(),
        }
    }
}

/// Where the inventory and the backpack are on screen.
#[derive(Debug, Clone)]
pub struct ScreenPositionsConfig {
    pub inventory_positions: SlotPositions,
    pub stash_positions: SlotPositions,
}

impl ScreenPositionsConfig {
    /// Every field has its default value.
    pub open spec fn is_default(self) -> bool {
        &&& self.inventory_positions.is_default()
        &&& self.stash_positions.is_default()
    }
}

impl Default for ScreenPositionsConfig {
    fn default() -> (r: Self)
        ensures
            r.is_default(),
    {
        ScreenPositionsConfig {
            inventory_positions: SlotPositions::default(),
            stash_positions: SlotPositions::default(),
        }
    }
}

/// Recording of received snapshots.
#[derive(Debug, Clone)]
pub struct GsiLoggingConfig {
    pub enabled: bool,
    pub output_dir: String,
}

impl GsiLoggingConfig {
    /// Every field has its default value.
    pub open spec fn is_default(self) -> bool {
        &&& self.enabled == false
        &&& self.output_dir@ == "logs/gsi_events"@
    }
}

impl Default for GsiLoggingConfig {
    fn default() -> (r: Self)
        ensures
            r.is_default(),
    {
        GsiLoggingConfig {
            enabled: default_gsi_logging_enabled(),
            output_dir: default_gsi_logging_dir(),
        }
    }
}

/// The whole configuration.
#[derive(Debug, Clone)]
pub struct Settings {
    pub server: ServerConfig,
    pub keybindings: KeybindingsConfig,
    pub logging: LoggingConfig,
    pub common: CommonConfig,
    pub heroes: HeroesConfig,
    pub danger_detection: DangerDetectionConfig,
    pub neutral_items: NeutralItemConfig,
    pub soul_ring: SoulRingConfig,
    pub power_treads: PowerTreadsConfig,
    pub bottle_optimization: BottleOptimizationConfig,
    pub screen_positions: ScreenPositionsConfig,
    pub gsi_logging: GsiLoggingConfig,
    pub updates: UpdateConfig,
}

impl Settings {
    /// Every field has its default value.
    pub open spec fn is_default(self) -> bool {
        &&& self.server.is_default()
        &&& self.keybindings.is_default()
        &&& self.logging.is_default()
        &&& self.common.is_default()
        &&& self.heroes.is_default()
        &&& self.danger_detection.is_default()
        &&& self.neutral_items.is_default()
        &&& self.soul_ring.is_default()
        &&& self.power_treads.is_default()
        &&& self.bottle_optimization.is_default()
        &&& self.screen_positions.is_default()
        &&& self.gsi_logging.is_default()
        &&& self.updates.is_default()
    }
}

impl Default for Settings {
    fn default() -> (r: Self)
        ensures
            r.is_default(),
    {
        Settings {
            server: ServerConfig::default(),
            keybindings: KeybindingsConfig::default(),
            logging: LoggingConfig::default(),
            common: CommonConfig::default(),
            heroes: HeroesConfig::default(),
            danger_detection: DangerDetectionConfig::default(),
            neutral_items: NeutralItemConfig::default(),
            soul_ring: SoulRingConfig::default(),
            power_treads: PowerTreadsConfig::default(),
            bottle_optimization: BottleOptimizationConfig::default(),
            screen_positions: ScreenPositionsConfig::default(),
            gsi_logging: GsiLoggingConfig::default(),
            updates: UpdateConfig::default(),
        }
    }
}

pub fn default_check_on_startup() -> (r: bool)
    ensures
        r == true,
{
    true
}

pub fn default_include_prereleases() -> (r: bool)
    ensures
        r == false,
{
    false
}

pub fn default_port() -> (r: u16)
    ensures
        r == 3000,
{
    3000
}

pub fn default_slot0() -> (r: char)
    ensures
        r == 'z',
{
    'z'
}

pub fn default_slot1() -> (r: char)
    ensures
        r == 'x',
{
    'x'
}

pub fn default_slot2() -> (r: char)
    ensures
        r == 'c',
{
    'c'
}

pub fn default_slot3() -> (r: char)
    ensures
        r == 'v',
{
    'v'
}

pub fn default_slot4() -> (r: char)
    ensures
        r == 'b',
{
    'b'
}

pub fn default_slot5() -> (r: char)
    ensures
        r == 'n',
{
    'n'
}

pub fn default_neutral() -> (r: char)
    ensures
        r == '0',
{
    '0'
}

pub fn default_hotkey() -> (r: String)
    ensures
        r@ == "Home"@,
{
    "Home".to_owned()
}

pub fn default_log_level() -> (r: String)
    ensures
        r@ == "info"@,
{
    "info".to_owned()
}

pub fn default_survivability_threshold() -> (r: u32)
    ensures
        r == 30,
{
    30
}

pub fn default_armlet_threshold() -> (r: u32)
    ensures
        r == 320,
{
    320
}

pub fn default_armlet_offset() -> (r: u32)
    ensures
        r == 30,
{
    30
}

pub fn default_armlet_cooldown() -> (r: u64)
    ensures
        r == 250,
{
    250
}

pub fn default_berserker_blood_key() -> (r: char)
    ensures
        r == 'e',
{
    'e'
}

pub fn default_berserker_blood_delay() -> (r: u64)
    ensures
        r == 300,
{
    300
}

pub fn default_standalone_key() -> (r: String)
    ensures
        r@ == "Home"@,
{
    "Home".to_owned()
}

pub fn default_sf_raze_enabled() -> (r: bool)
    ensures
        r == true,
{
    true
}

pub fn default_raze_delay() -> (r: u64)
    ensures
        r == 100,
{
    100
}

pub fn default_sf_auto_bkb_on_ultimate() -> (r: bool)
    ensures
        r == false,
{
    false
}

pub fn default_sf_auto_d_on_ultimate() -> (r: bool)
    ensures
        r == false,
{
    false
}

pub fn default_broodmother_enabled() -> (r: bool)
    ensures
        r == true,
{
    true
}

pub fn default_broodmother_spider_control_group() -> (r: String)
    ensures
        r@ == "F2"@,
{
    "F2".to_owned()
}

pub fn default_broodmother_reselect_hero_key() -> (r: String)
    ensures
        r@ == "F1"@,
{
    "F1".to_owned()
}

pub fn default_broodmother_attack_key() -> (r: char)
    ensures
        r == 'a',
{
    'a'
}

pub fn default_auto_items_enabled() -> (r: bool)
    ensures
        r == false,
{
    false
}

pub fn default_auto_items_modifier() -> (r: String)
    ensures
        r@ == "Space"@,
{
    "Space".to_owned()
}

pub fn default_auto_items() -> (r: Vec<String>)
    ensures
        r@.len() == 0,
{
    Vec::new()
}

pub fn default_auto_abilities() -> (r: Vec<AutoAbilityConfig>)
    ensures
        r@.len() == 0,
{
    Vec::new()
}

pub fn default_auto_abilities_first() -> (r: bool)
    ensures
        r == false,
{
    false
}

pub fn default_amphibian_enabled() -> (r: bool)
    ensures
        r == true,
{
    true
}

pub fn default_auto_toggle_on_danger() -> (r: bool)
    ensures
        r == true,
{
    true
}

pub fn default_largo_mana_threshold() -> (r: u32)
    ensures
        r == 20,
{
    20
}

pub fn default_largo_heal_threshold() -> (r: u32)
    ensures
        r == 50,
{
    50
}

pub fn default_beat_interval_ms() -> (r: u32)
    ensures
        r == 995,
{
    995
}

pub fn default_beat_correction_ms() -> (r: i32)
    ensures
        r == -10,
{
    -10
}

pub fn default_beat_correction_every_n_beats() -> (r: u32)
    ensures
        r == 5,
{
    5
}

pub fn default_largo_q_key() -> (r: char)
    ensures
        r == 'q',
{
    'q'
}

pub fn default_largo_w_key() -> (r: char)
    ensures
        r == 'w',
{
    'w'
}

pub fn default_largo_e_key() -> (r: char)
    ensures
        r == 'e',
{
    'e'
}

pub fn default_largo_r_key() -> (r: char)
    ensures
        r == 'r',
{
    'r'
}

pub fn default_tinker_enabled() -> (r: bool)
    ensures
        r == false,
{
    false
}

pub fn default_tinker_combo_priority() -> (r: Vec<String>)
    ensures
        r@.len() == 2,
        r@[0]@ == "laser"@,
        r@[1]@ == "warp_flare"@,
{
    let mut v: Vec<String> = Vec::new();
    v.push("laser".to_owned());
    v.push("warp_flare".to_owned());
    v
}

pub fn default_tinker_laser_key() -> (r: char)
    ensures
        r == 'q',
{
    'q'
}

pub fn default_tinker_warp_flare_key() -> (r: char)
    ensures
        r == 'w',
{
    'w'
}

pub fn default_tinker_matrix_key() -> (r: char)
    ensures
        r == 'e',
{
    'e'
}

pub fn default_tinker_rearm_key() -> (r: char)
    ensures
        r == 'r',
{
    'r'
}

pub fn default_tinker_auto_matrix_enabled() -> (r: bool)
    ensures
        r == true,
{
    true
}

pub fn default_tinker_auto_matrix_hp_threshold() -> (r: u32)
    ensures
        r == 50,
{
    50
}

pub fn default_tinker_rearm_retry() -> (r: bool)
    ensures
        r == true,
{
    true
}

pub fn default_danger_enabled() -> (r: bool)
    ensures
        r == true,
{
    true
}

pub fn default_danger_hp_threshold() -> (r: u32)
    ensures
        r == 70,
{
    70
}

pub fn default_rapid_loss_hp() -> (r: u32)
    ensures
        r == 100,
{
    100
}

pub fn default_time_window_ms() -> (r: u64)
    ensures
        r == 500,
{
    500
}

pub fn default_clear_delay_seconds() -> (r: u64)
    ensures
        r == 3,
{
    3
}

pub fn default_healing_threshold_in_danger() -> (r: u32)
    ensures
        r == 50,
{
    50
}

pub fn default_max_healing_items() -> (r: u32)
    ensures
        r == 3,
{
    3
}

pub fn default_auto_bkb() -> (r: bool)
    ensures
        r == false,
{
    false
}

pub fn default_auto_satanic() -> (r: bool)
    ensures
        r == true,
{
    true
}

pub fn default_satanic_hp_threshold() -> (r: u32)
    ensures
        r == 40,
{
    40
}

pub fn default_auto_blade_mail() -> (r: bool)
    ensures
        r == true,
{
    true
}

pub fn default_auto_glimmer_cape() -> (r: bool)
    ensures
        r == true,
{
    true
}

pub fn default_auto_ghost_scepter() -> (r: bool)
    ensures
        r == true,
{
    true
}

pub fn default_auto_shivas_guard() -> (r: bool)
    ensures
        r == true,
{
    true
}

pub fn default_auto_manta_on_silence() -> (r: bool)
    ensures
        r == true,
{
    true
}

pub fn default_auto_lotus_on_silence() -> (r: bool)
    ensures
        r == true,
{
    true
}

pub fn default_neutral_items_enabled() -> (r: bool)
    ensures
        r == false,
{
    false
}

pub fn default_self_cast_key() -> (r: char)
    ensures
        r == ' ',
{
    ' '
}

pub fn default_log_discoveries() -> (r: bool)
    ensures
        r == true,
{
    true
}

pub fn default_use_in_danger() -> (r: bool)
    ensures
        r == true,
{
    true
}

pub fn default_neutral_hp_threshold() -> (r: u32)
    ensures
        r == 50,
{
    50
}

pub fn default_allowed_items() -> (r: Vec<String>)
    ensures
        r@.len() == 0,
{
    Vec::new()
}

pub fn default_gsi_logging_enabled() -> (r: bool)
    ensures
        r == false,
{
    false
}

pub fn default_gsi_logging_dir() -> (r: String)
    ensures
        r@ == "logs/gsi_events"@,
{
    "logs/gsi_events".to_owned()
}

pub fn default_soul_ring_enabled() -> (r: bool)
    ensures
        r == true,
{
    true
}

pub fn default_soul_ring_min_mana_percent() -> (r: u32)
    ensures
        r == 90,
{
    90
}

pub fn default_soul_ring_min_health_percent() -> (r: u32)
    ensures
        r == 20,
{
    20
}

pub fn default_soul_ring_delay_ms() -> (r: u64)
    ensures
        r == 30,
{
    30
}

pub fn default_soul_ring_cooldown_ms() -> (r: u64)
    ensures
        r == 500,
{
    500
}

pub fn default_soul_ring_ability_keys() -> (r: Vec<String>)
    ensures
        r@.len() == 6,
        r@[0]@ == "q"@,
        r@[1]@ == "w"@,
        r@[2]@ == "e"@,
        r@[3]@ == "r"@,
        r@[4]@ == "d"@,
        r@[5]@ == "f"@,
{
    let mut v: Vec<String> = Vec::new();
    v.push("q".to_owned());
    v.push("w".to_owned());
    v.push("e".to_owned());
    v.push("r".to_owned());
    v.push("d".to_owned());
    v.push("f".to_owned());
    v
}

pub fn default_soul_ring_intercept_items() -> (r: bool)
    ensures
        r == true,
{
    true
}

pub fn default_soul_ring_skip_items() -> (r: Vec<String>)
    ensures
        r@.len() == 9,
        r@[0]@ == "item_blink"@,
        r@[1]@ == "item_bottle"@,
        r@[2]@ == "item_magic_wand"@,
        r@[3]@ == "item_magic_stick"@,
        r@[4]@ == "item_faerie_fire"@,
        r@[5]@ == "item_black_king_bar"@,
        r@[6]@ == "item_phase_boots"@,
        r@[7]@ == "item_power_treads"@,
        r@[8]@ == "item_armlet"@,
{
    let mut v: Vec<String> = Vec::new();
    v.push("item_blink".to_owned());
    v.push("item_bottle".to_owned());
    v.push("item_magic_wand".to_owned());
    v.push("item_magic_stick".to_owned());
    v.push("item_faerie_fire".to_owned());
    v.push("item_black_king_bar".to_owned());
    v.push("item_phase_boots".to_owned());
    v.push("item_power_treads".to_owned());
    v.push("item_armlet".to_owned());
    v
}

pub fn default_power_treads_enabled() -> (r: bool)
    ensures
        r == false,
{
    false
}

pub fn default_power_treads_cooldown_ms() -> (r: u64)
    ensures
        r == 150,
{
    150
}

pub fn default_power_treads_toggle_for_abilities() -> (r: bool)
    ensures
        r == true,
{
    true
}

pub fn default_power_treads_toggle_for_items() -> (r: bool)
    ensures
        r == true,
{
    true
}

pub fn default_power_treads_ability_keys() -> (r: Vec<String>)
    ensures
        r@.len() == 6,
        r@[0]@ == "q"@,
        r@[1]@ == "w"@,
        r@[2]@ == "e"@,
        r@[3]@ == "r"@,
        r@[4]@ == "d"@,
        r@[5]@ == "f"@,
{
    let mut v: Vec<String> = Vec::new();
    v.push("q".to_owned());
    v.push("w".to_owned());
    v.push("e".to_owned());
    v.push("r".to_owned());
    v.push("d".to_owned());
    v.push("f".to_owned());
    v
}

pub fn default_bottle_optimization_enabled() -> (r: bool)
    ensures
        r == false,
{
    false
}

pub fn default_bottle_max_game_time_seconds() -> (r: i32)
    ensures
        r == 600,
{
    600
}

pub fn default_bottle_trigger_cooldown_ms() -> (r: u64)
    ensures
        r == 5000,
{
    5000
}

pub fn default_bottle_target_items() -> (r: Vec<String>)
    ensures
        r@.len() == 1,
        r@[0]@ == "item_branches"@,
{
    let mut v: Vec<String> = Vec::new();
    v.push("item_branches".to_owned());
    v
}

pub fn default_bottle_mouse_jitter_px() -> (r: u32)
    ensures
        r == 3,
{
    3
}

pub fn default_bottle_delay_between_drags_ms() -> (r: u64)
    ensures
        r == 50,
{
    50
}

pub fn default_bottle_restore_mouse_position() -> (r: bool)
    ensures
        r == true,
{
    true
}

pub fn default_slot_positions() -> (r: Vec<Option<ScreenPosition>>)
    ensures
        r@.len() == 0,
{
    Vec::new()
}

impl KeybindingsConfig {
    /// The key bound to the `i`-th usable slot: main slots `0..6` in order,
    /// the neutral slot for every other index.
    pub open spec fn slot_key(self, i: int) -> char {
        if i == 0 {
            self.slot0
        } else if i == 1 {
            self.slot1
        } else if i == 2 {
            self.slot2
        } else if i == 3 {
            self.slot3
        } else if i == 4 {
            self.slot4
        } else if i == 5 {
            self.slot5
        } else {
            self.neutral0
        }
    }

    /// The key bound to the `i`-th usable slot.
    pub fn key_of_slot(&self, i: usize) -> (r: char)
        ensures
            r == self.slot_key(i as int),
    {
        if i == 0 {
            self.slot0
        } else if i == 1 {
            self.slot1
        } else if i == 2 {
            self.slot2
        } else if i == 3 {
            self.slot3
        } else if i == 4 {
            self.slot4
        } else if i == 5 {
            self.slot5
        } else {
            self.neutral0
        }
    }

    /// No key is bound to two of the seven usable slots.
    pub open spec fn conflict_free(self) -> bool {
        forall|i: int, j: int|
            0 <= i < j < 7 ==> #[trigger] self.slot_key(i) != #[trigger] self.slot_key(j)
    }
}

impl SlotPositions {
    /// The position of slot `index`, where one is configured.
    pub open spec fn slot(self, index: int) -> Option<ScreenPosition> {
        if 0 <= index < self.slots.len() {
            self.slots[index]
        } else {
            None
        }
    }

    /// The position of slot `index`, where one is configured.
    pub fn get_slot(&self, index: usize) -> (r: Option<ScreenPosition>)
        ensures
            r == self.slot(index as int),
    {
        if index < self.slots.len() {
            self.slots[index]
        } else {
            None
        }
    }
}

impl Settings {
    /// The key bound to the slot of this name, for the seven usable slots.
    pub open spec fn key_for_slot(self, slot: Seq<char>) -> Option<char> {
        if slot == "slot0"@ {
            Some(self.keybindings.slot0)
        } else if slot == "slot1"@ {
            Some(self.keybindings.slot1)
        } else if slot == "slot2"@ {
            Some(self.keybindings.slot2)
        } else if slot == "slot3"@ {
            Some(self.keybindings.slot3)
        } else if slot == "slot4"@ {
            Some(self.keybindings.slot4)
        } else if slot == "slot5"@ {
            Some(self.keybindings.slot5)
        } else if slot == "neutral0"@ {
            Some(self.keybindings.neutral0)
        } else {
            None
        }
    }

    /// Looking a usable slot up by its name gives the key bound to it.
    pub proof fn lemma_key_for_slot_name(self, i: int)
        requires
            0 <= i < 7,
        ensures
            self.key_for_slot(slot_name(i)) == Some(self.keybindings.slot_key(i)),
    {
        crate::models::gsi_event::lemma_slot_names_distinct();
        assert(slot_name(0) == "slot0"@);
        assert(slot_name(1) == "slot1"@);
        assert(slot_name(2) == "slot2"@);
        assert(slot_name(3) == "slot3"@);
        assert(slot_name(4) == "slot4"@);
        assert(slot_name(5) == "slot5"@);
        assert(slot_name(6) == "neutral0"@);
    }

    /// The key bound to the slot of this name; `None` for any other name.
    pub fn get_key_for_slot(&self, slot: &str) -> (r: Option<char>)
        ensures
            r == self.key_for_slot(slot@),
    {
        if str_eq(slot, "slot0") {
            Some(self.keybindings.slot0)
        } else if str_eq(slot, "slot1") {
            Some(self.keybindings.slot1)
        } else if str_eq(slot, "slot2") {
            Some(self.keybindings.slot2)
        } else if str_eq(slot, "slot3") {
            Some(self.keybindings.slot3)
        } else if str_eq(slot, "slot4") {
            Some(self.keybindings.slot4)
        } else if str_eq(slot, "slot5") {
            Some(self.keybindings.slot5)
        } else if str_eq(slot, "neutral0") {
            Some(self.keybindings.neutral0)
        } else {
            None
        }
    }

    /// The combo hotkey of a hero, by the hero's short name.
    pub open spec fn standalone_key(self, hero: Seq<char>) -> Seq<char> {
        if hero == "huskar"@ {
            self.heroes.huskar.standalone_key@
        } else if hero == "legion_commander"@ {
            self.heroes.legion_commander.standalone_key@
        } else if hero == "shadow_fiend"@ {
            "q"@
        } else if hero == "tiny"@ {
            self.heroes.tiny.standalone_key@
        } else {
            "Home"@
        }
    }

    /// The combo hotkey of a hero, by the hero's short name. Shadow Fiend
    /// has none and answers `q`; an unknown hero answers the default key.
    pub fn get_standalone_key(&self, hero: &str) -> (r: String)
        ensures
            r@ == self.standalone_key(hero@),
    {
        if str_eq(hero, "huskar") {
            self.heroes.huskar.standalone_key.clone()
        } else if str_eq(hero, "legion_commander") {
            self.heroes.legion_commander.standalone_key.clone()
        } else if str_eq(hero, "shadow_fiend") {
            "q".to_owned()
        } else if str_eq(hero, "tiny") {
            self.heroes.tiny.standalone_key.clone()
        } else {
            default_standalone_key()
        }
    }

    /// Whether the key bindings are free of conflicts: no key is bound to
    /// two of the seven usable slots.
    pub fn validate_keybindings(&self) -> (r: bool)
        ensures
            r == self.keybindings.conflict_free(),
    {
        let mut i: usize = 0;
        while i < 7
            invariant
                i <= 7,
                forall|a: int, b: int|
                    0 <= a < b < 7 && a < i ==> #[trigger] self.keybindings.slot_key(a)
                        != #[trigger] self.keybindings.slot_key(b),
            decreases 7 - i,
        {
            let mut j: usize = i + 1;
            while j < 7
                invariant
                    i < j <= 7,
                    forall|a: int, b: int|
                        0 <= a < b < 7 && a < i ==> #[trigger] self.keybindings.slot_key(a)
                            != #[trigger] self.keybindings.slot_key(b),
                    forall|b: int|
                        i < b < j ==> self.keybindings.slot_key(i as int)
                            != #[trigger] self.keybindings.slot_key(b),
                decreases 7 - j,
            {
                if self.keybindings.key_of_slot(i) == self.keybindings.key_of_slot(j) {
                    return false;
                }
                j += 1;
            }
            i += 1;
        }
        true
    }
}

/// The first main slot whose key matches `key`, up to ASCII case.
pub open spec fn main_slot_for_key(key: char, settings: Settings) -> Option<int> {
    if crate::text::same_key(key, settings.keybindings.slot0) {
        Some(0)
    } else if crate::text::same_key(key, settings.keybindings.slot1) {
        Some(1)
    } else if crate::text::same_key(key, settings.keybindings.slot2) {
        Some(2)
    } else if crate::text::same_key(key, settings.keybindings.slot3) {
        Some(3)
    } else if crate::text::same_key(key, settings.keybindings.slot4) {
        Some(4)
    } else if crate::text::same_key(key, settings.keybindings.slot5) {
        Some(5)
    } else {
        None
    }
}

/// The first main slot whose key matches `key`, up to ASCII case.
pub fn main_slot_of_key(key: char, settings: &Settings) -> (r: Option<usize>)
    ensures
        crate::models::gsi_event::as_index(r) == main_slot_for_key(key, *settings),
        r matches Some(i) ==> i < 6,
{
    if crate::text::keys_match(key, settings.keybindings.slot0) {
        Some(0)
    } else if crate::text::keys_match(key, settings.keybindings.slot1) {
        Some(1)
    } else if crate::text::keys_match(key, settings.keybindings.slot2) {
        Some(2)
    } else if crate::text::keys_match(key, settings.keybindings.slot3) {
        Some(3)
    } else if crate::text::keys_match(key, settings.keybindings.slot4) {
        Some(4)
    } else if crate::text::keys_match(key, settings.keybindings.slot5) {
        Some(5)
    } else {
        None
    }
}

} // verus!
