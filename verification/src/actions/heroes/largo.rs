//! Largo: songs cast on a fixed beat while the ultimate is active.
//!
//! Beats are scheduled from an anchor: beat `n` is due at the anchor plus `n`
//! intervals plus the corrections accumulated up to `n`. The schedule never
//! looks at when a beat was actually cast, so a late wake-up does not shift
//! the beats after it.

use vstd::prelude::*;
use crate::actions::common::{defensive_plan, healing_plan, SurvivabilityActions};
use crate::actions::heroes::traits::HeroScript;
use crate::actions::store::TriggerStore;
use crate::config::settings::{LargoConfig, Settings};
use crate::input::simulation::InputAction;
use crate::models::gsi_event::{named, GsiWebhookEvent};
use crate::models::heroes::Hero;
use crate::text::{str_eq, str_starts_with};

verus! {

/// The most groove stacks that are counted.
pub const MAX_GROOVIN_STACKS: u8 = 5;

/// A song of the ultimate.
#[derive(Debug, Clone, Copy, PartialEq, Eq, Structural)]
pub enum Song {
    /// Damage; cast with the first ability key.
    Bullbelly,
    /// Movement; cast with the second ability key.
    Hotfeet,
    /// Healing; cast with the third ability key.
    IslandElixir,
}

/// The state of the rhythm.
#[derive(Debug, Clone, Copy, PartialEq, Eq, Structural)]
pub struct UltimateState {
    /// Whether the ultimate is active.
    pub active: bool,
    /// The anchor: clock reading at beat zero.
    pub beat_start_time: Option<u64>,
    /// Beats cast since the anchor.
    pub beat_count: u32,
    /// The song that is cast on every beat.
    pub current_song: Option<Song>,
    /// The song before the current one.
    pub previous_song: Option<Song>,
    /// The song to switch to on the next beat.
    pub pending_song: Option<Song>,
    /// Groove stacks, up to `MAX_GROOVIN_STACKS`.
    pub groovin_stacks: u8,
    /// Whether the hero can cast two songs per beat.
    pub has_aggs: bool,
}

/// The key that casts a song.
pub open spec fn song_key(config: LargoConfig, song: Song) -> char {
    match song {
        Song::Bullbelly => config.q_ability_key,
        Song::Hotfeet => config.w_ability_key,
        Song::IslandElixir => config.e_ability_key,
    }
}

/// The key that casts a song.
pub fn key_for_song(config: &LargoConfig, song: Song) -> (r: char)
    ensures
        r == song_key(*config, song),
{
    match song {
        Song::Bullbelly => config.q_ability_key,
        Song::Hotfeet => config.w_ability_key,
        Song::IslandElixir => config.e_ability_key,
    }
}

/// Milliseconds from the anchor to beat `beat`: `beat` intervals plus one
/// correction for every completed group of `beat_correction_every_n_beats`
/// beats, and never less than zero.
pub open spec fn scheduled_offset(config: LargoConfig, beat: u32) -> int {
    let base = config.beat_interval_ms as int * beat as int;
    let corrected = if config.beat_correction_every_n_beats > 0 {
        base + config.beat_correction_ms as int * (beat as int
            / config.beat_correction_every_n_beats as int)
    } else {
        base
    };
    if corrected < 0 {
        0
    } else {
        corrected
    }
}

/// The clock reading at which beat `beat` is due.
pub open spec fn beat_deadline(anchor: u64, config: LargoConfig, beat: u32) -> int {
    anchor + scheduled_offset(config, beat)
}

/// Milliseconds from the anchor to beat `beat`.
pub fn offset_of_beat(config: &LargoConfig, beat: u32) -> (r: i128)
    ensures
        r == scheduled_offset(*config, beat),
        0 <= r <= 0x2_0000_0000_0000_0000,
{
    let interval = config.beat_interval_ms as i128;
    let count = beat as i128;
    assert(0 <= interval * count <= 0xffff_ffff * 0xffff_ffff) by (nonlinear_arith)
        requires
            0 <= interval <= 0xffff_ffff,
            0 <= count <= 0xffff_ffff,
    ;
    let mut total: i128 = interval * count;
    if config.beat_correction_every_n_beats > 0 {
        let groups = (beat / config.beat_correction_every_n_beats) as i128;
        let correction = config.beat_correction_ms as i128;
        assert(-0x8000_0000 * 0xffff_ffff <= correction * groups <= 0x8000_0000 * 0xffff_ffff)
            by (nonlinear_arith)
            requires
                -0x8000_0000 <= correction <= 0x8000_0000,
                0 <= groups <= 0xffff_ffff,
        ;
        total = total + correction * groups;
    }
    if total < 0 {
        0
    } else {
        total
    }
}

/// The clock reading at which beat `beat` is due.
pub fn deadline_of_beat(anchor: u64, config: &LargoConfig, beat: u32) -> (r: i128)
    ensures
        r == beat_deadline(anchor, *config, beat),
{
    anchor as i128 + offset_of_beat(config, beat)
}

impl UltimateState {
    /// The inactive state.
    pub open spec fn initial() -> UltimateState {
        UltimateState {
            active: false,
            beat_start_time: None,
            beat_count: 0,
            current_song: None,
            previous_song: None,
            pending_song: None,
            groovin_stacks: 0,
            has_aggs: false,
        }
    }

    /// The state with the rhythm reset: no anchor, no beat, no song, no
    /// stack.
    pub open spec fn reset(self, active: bool) -> UltimateState {
        UltimateState {
            active,
            beat_start_time: None,
            beat_count: 0,
            current_song: None,
            previous_song: None,
            pending_song: None,
            groovin_stacks: 0,
            has_aggs: self.has_aggs,
        }
    }

    /// The states that the rhythm can reach: an inactive rhythm has no
    /// anchor, no beat, no song and no stack; a song waits only behind a
    /// current one; and the stacks keep to their cap.
    pub open spec fn wf(self) -> bool {
        &&& !self.active ==> self == self.reset(false)
        &&& self.pending_song is Some ==> self.current_song is Some
        &&& self.previous_song is Some ==> self.current_song is Some
        &&& self.groovin_stacks <= MAX_GROOVIN_STACKS
    }

    /// The next beat is due at `now`. Without an anchor the first beat is due
    /// at once.
    pub open spec fn beat_due(self, config: LargoConfig, now: u64) -> bool {
        match self.beat_start_time {
            Some(anchor) => now >= beat_deadline(anchor, config, self.beat_count),
            None => true,
        }
    }

    /// The state after one tick of the scheduler.
    ///
    /// Nothing changes while inactive or before the beat is due. On a beat
    /// the anchor is set if there was none, the beat is counted, and a pending
    /// song takes over, the song before it becoming the previous one. With a
    /// song to cast a stack is added, up to the cap.
    pub open spec fn after_tick(self, config: LargoConfig, now: u64) -> UltimateState {
        if !self.active || !self.beat_due(config, now) {
            self
        } else {
            let switched = self.pending_song is Some && self.pending_song != self.current_song;
            let current = if switched {
                self.pending_song
            } else {
                self.current_song
            };
            UltimateState {
                active: true,
                beat_start_time: match self.beat_start_time {
                    Some(anchor) => Some(anchor),
                    None => Some(now),
                },
                beat_count: if self.beat_count < u32::MAX {
                    (self.beat_count + 1) as u32
                } else {
                    self.beat_count
                },
                current_song: current,
                previous_song: if switched {
                    self.current_song
                } else {
                    self.previous_song
                },
                pending_song: None,
                groovin_stacks: if current is Some && self.groovin_stacks < MAX_GROOVIN_STACKS {
                    (self.groovin_stacks + 1) as u8
                } else {
                    self.groovin_stacks
                },
                has_aggs: self.has_aggs,
            }
        }
    }

    /// The keys pressed on one tick of the scheduler: on a beat the key of the
    /// current song and, with the augment, the key of the previous song.
    pub open spec fn tick_plan(self, config: LargoConfig, now: u64) -> Seq<InputAction> {
        let next = self.after_tick(config, now);
        if !self.active || !self.beat_due(config, now) || next.current_song is None {
            Seq::empty()
        } else if self.has_aggs && next.previous_song is Some {
            seq![
                InputAction::PressKey(song_key(config, next.current_song->0)),
                InputAction::PressKey(song_key(config, next.previous_song->0)),
            ]
        } else {
            seq![InputAction::PressKey(song_key(config, next.current_song->0))]
        }
    }

    /// The state after the player picked a song. The first song starts the
    /// rhythm anew; a later one waits for the next beat. Nothing happens
    /// while the ultimate is inactive.
    pub open spec fn after_selection(self, song: Song) -> UltimateState {
        if !self.active {
            self
        } else if self.current_song is None {
            UltimateState {
                current_song: Some(song),
                beat_start_time: None,
                beat_count: 0,
                ..self
            }
        } else if self.current_song != Some(song) {
            UltimateState { pending_song: Some(song), ..self }
        } else {
            self
        }
    }

    /// The state after a snapshot: when the game reports the ultimate other
    /// than the state has it, the state follows and the rhythm is reset. The
    /// augment is taken from the snapshot.
    pub open spec fn after_snapshot(self, event: GsiWebhookEvent) -> UltimateState {
        let reported = ultimate_reported(event);
        let followed = if reported != self.active {
            self.reset(reported)
        } else {
            self
        };
        UltimateState { has_aggs: augment_reported(event), ..followed }
    }

    /// The state after the ultimate was asked on or off: a change resets the
    /// rhythm.
    pub open spec fn after_toggle(self, enable: bool) -> UltimateState {
        if enable != self.active {
            self.reset(enable)
        } else {
            self
        }
    }
}

/// The game reports the ultimate as active: the first ability slot holds a
/// song.
pub open spec fn ultimate_reported(event: GsiWebhookEvent) -> bool {
    "largo_song_"@.is_prefix_of(event.abilities.ability0.name@)
}

/// The song that the game reports in the first ability slot.
pub open spec fn song_reported(event: GsiWebhookEvent) -> Option<Song> {
    let name = event.abilities.ability0.name@;
    if name == "largo_song_fight_song"@ {
        Some(Song::Bullbelly)
    } else if name == "largo_song_double_time"@ {
        Some(Song::Hotfeet)
    } else if name == "largo_song_good_vibrations"@ {
        Some(Song::IslandElixir)
    } else {
        None
    }
}

/// The hero can cast two songs per beat: the scepter or the shard is
/// consumed, or one of them lies in a usable slot.
pub open spec fn augment_reported(event: GsiWebhookEvent) -> bool {
    ||| event.hero.aghanims_scepter
    ||| event.hero.aghanims_shard
    ||| event.items.any_usable(named("item_ultimate_scepter"@))
    ||| event.items.any_usable(named("item_aghanims_shard"@))
}

/// The song that suits the snapshot: healing at low health, movement in
/// danger below 70 percent health, damage otherwise.
pub open spec fn song_for(event: GsiWebhookEvent, config: LargoConfig, in_danger: bool) -> Song {
    if event.hero.health_percent < config.heal_hp_threshold {
        Song::IslandElixir
    } else if in_danger && event.hero.health_percent < 70 {
        Song::Hotfeet
    } else {
        Song::Bullbelly
    }
}

/// The handler of Largo, with the state of the rhythm.
#[derive(Debug)]
pub struct LargoScript {
    pub state: UltimateState,
}

impl LargoScript {
    pub fn new() -> (r: Self)
        ensures
            r.state == UltimateState::initial(),
    {
        LargoScript {
            state: UltimateState {
                active: false,
                beat_start_time: None,
                beat_count: 0,
                current_song: None,
                previous_song: None,
                pending_song: None,
                groovin_stacks: 0,
                has_aggs: false,
            },
        }
    }

    /// Whether the next beat is due at `now_ms`.
    pub fn is_beat_due(&self, config: &LargoConfig, now_ms: u64) -> (r: bool)
        ensures
            r == self.state.beat_due(*config, now_ms),
    {
        match self.state.beat_start_time {
            Some(anchor) => {
                now_ms as i128 >= deadline_of_beat(anchor, config, self.state.beat_count)
            },
            None => true,
        }
    }

    /// One tick of the scheduler: casts the beat if it is due.
    pub fn beat_tick(&mut self, config: &LargoConfig, now_ms: u64) -> (steps: Vec<InputAction>)
        ensures
            final(self).state == old(self).state.after_tick(*config, now_ms),
            steps@ == old(self).state.tick_plan(*config, now_ms),
    {
        let mut plan: Vec<InputAction> = Vec::new();
        if !self.state.active {
            return plan;
        }
        if !self.is_beat_due(config, now_ms) {
            return plan;
        }
        if self.state.beat_start_time.is_none() {
            self.state.beat_start_time = Some(now_ms);
        }
        if self.state.beat_count < u32::MAX {
            self.state.beat_count = self.state.beat_count + 1;
        }
        let pending = self.state.pending_song;
        self.state.pending_song = None;
        match pending {
            Some(song) => {
                if self.state.current_song != Some(song) {
                    self.state.previous_song = self.state.current_song;
                    self.state.current_song = Some(song);
                }
            },
            None => {},
        }
        let current = match self.state.current_song {
            Some(song) => song,
            None => {
                return plan;
            },
        };
        plan.push(InputAction::PressKey(key_for_song(config, current)));
        if self.state.has_aggs {
            match self.state.previous_song {
                Some(song) => {
                    plan.push(InputAction::PressKey(key_for_song(config, song)));
                },
                None => {},
            }
        }
        if self.state.groovin_stacks < MAX_GROOVIN_STACKS {
            self.state.groovin_stacks = self.state.groovin_stacks + 1;
        }
        plan
    }

    /// Whether the ultimate should be switched on: the hero is alive, the
    /// feature and the switch on danger are on, mana is at or above the
    /// threshold, and the hero is in danger.
    pub fn should_toggle_ultimate_on(
        &self,
        event: &GsiWebhookEvent,
        settings: &Settings,
        in_danger: bool,
    ) -> (r: bool)
        ensures
            r == (event.hero.alive && settings.heroes.largo.amphibian_rhapsody_enabled
                && event.hero.mana_percent >= settings.heroes.largo.mana_threshold_percent
                && settings.heroes.largo.auto_toggle_on_danger && in_danger),
    {
        if !event.hero.is_alive() {
            return false;
        }
        let config = &settings.heroes.largo;
        if !config.amphibian_rhapsody_enabled {
            return false;
        }
        if event.hero.mana_percent < config.mana_threshold_percent {
            return false;
        }
        config.auto_toggle_on_danger && in_danger
    }

    /// Whether the ultimate should be switched off: mana is at or below the
    /// threshold.
    pub fn should_toggle_ultimate_off(
        &self,
        event: &GsiWebhookEvent,
        settings: &Settings,
    ) -> (r: bool)
        ensures
            r == (event.hero.mana_percent <= settings.heroes.largo.mana_threshold_percent),
    {
        event.hero.mana_percent <= settings.heroes.largo.mana_threshold_percent
    }

    /// Stops the rhythm at once, as when the player ends the ultimate: the
    /// state is reset as far as it was active.
    pub fn deactivate_ultimate(&mut self)
        ensures
            final(self).state == old(self).state.after_toggle(false),
    {
        if self.state.active {
            self.reset_rhythm(false);
        }
    }

    /// Takes a song that the player picked.
    pub fn select_song_manually(&mut self, song: Song)
        ensures
            final(self).state == old(self).state.after_selection(song),
    {
        if !self.state.active {
            return ;
        }
        if self.state.current_song.is_none() {
            self.state.current_song = Some(song);
            self.state.beat_start_time = None;
            self.state.beat_count = 0;
            return ;
        }
        if self.state.current_song != Some(song) {
            self.state.pending_song = Some(song);
        }
    }

    /// Whether the game reports the ultimate as active.
    pub fn is_ultimate_active_from_gsi(event: &GsiWebhookEvent) -> (r: bool)
        ensures
            r == ultimate_reported(*event),
    {
        str_starts_with(event.abilities.ability0.name.as_str(), "largo_song_")
    }

    /// The song that the game reports in the first ability slot.
    pub fn detect_current_song_from_gsi(event: &GsiWebhookEvent) -> (r: Option<Song>)
        ensures
            r == song_reported(*event),
    {
        let name = event.abilities.ability0.name.as_str();
        if str_eq(name, "largo_song_fight_song") {
            Some(Song::Bullbelly)
        } else if str_eq(name, "largo_song_double_time") {
            Some(Song::Hotfeet)
        } else if str_eq(name, "largo_song_good_vibrations") {
            Some(Song::IslandElixir)
        } else {
            None
        }
    }

    /// The song that suits the snapshot.
    pub fn select_song(
        &self,
        event: &GsiWebhookEvent,
        settings: &Settings,
        in_danger: bool,
    ) -> (r: Song)
        ensures
            r == song_for(*event, settings.heroes.largo, in_danger),
    {
        if event.hero.health_percent < settings.heroes.largo.heal_hp_threshold {
            return Song::IslandElixir;
        }
        if in_danger && event.hero.health_percent < 70 {
            return Song::Hotfeet;
        }
        Song::Bullbelly
    }

    /// Switches the ultimate on or off: where that is a change, the
    /// ultimate's key is pressed and the rhythm is reset.
    pub fn toggle_ultimate(
        &mut self,
        enable: bool,
        settings: &Settings,
    ) -> (steps: Vec<InputAction>)
        ensures
            final(self).state == old(self).state.after_toggle(enable),
            steps@ == (if enable != old(self).state.active {
                seq![InputAction::PressKey(settings.heroes.largo.r_ability_key)]
            } else {
                Seq::empty()
            }),
    {
        let mut plan: Vec<InputAction> = Vec::new();
        if enable != self.state.active {
            plan.push(InputAction::PressKey(settings.heroes.largo.r_ability_key));
            self.reset_rhythm(enable);
        }
        plan
    }

    /// Resets the rhythm and sets whether the ultimate is active.
    fn reset_rhythm(&mut self, active: bool)
        ensures
            final(self).state == old(self).state.reset(active),
    {
        self.state.active = active;
        self.state.beat_start_time = None;
        self.state.beat_count = 0;
        self.state.current_song = None;
        self.state.previous_song = None;
        self.state.pending_song = None;
        self.state.groovin_stacks = 0;
    }

    /// Whether the hero can cast two songs per beat.
    pub fn detect_augment(event: &GsiWebhookEvent) -> (r: bool)
        ensures
            r == augment_reported(*event),
    {
        event.hero.aghanims_scepter || event.hero.aghanims_shard || event.items.find_named(
            "item_ultimate_scepter",
            7,
        ).is_some() || event.items.find_named("item_aghanims_shard", 7).is_some()
    }
}

impl HeroScript for LargoScript {
    /// Follows the ultimate and the augment as the game reports them, then
    /// heals and defends.
    fn handle_gsi_event(
        &mut self,
        event: &GsiWebhookEvent,
        settings: &Settings,
        store: &mut TriggerStore,
        now_ms: u64,
    ) -> (steps: Vec<InputAction>)
        ensures
            final(self).state == old(self).state.after_snapshot(*event),
            steps@ == healing_plan(*event, *settings, old(store).in_danger()) + defensive_plan(
                *event,
                *settings,
                old(store).in_danger(),
            ),
            *final(store) == *old(store),
    {
        let reported = LargoScript::is_ultimate_active_from_gsi(event);
        if reported != self.state.active {
            self.reset_rhythm(reported);
        }
        self.state.has_aggs = LargoScript::detect_augment(event);

        let in_danger = crate::actions::danger_detector::is_in_danger(&store.danger);
        let survivability = SurvivabilityActions::new(settings);
        let mut plan = survivability.check_and_use_healing_items(event, in_danger);
        let mut defence = survivability.use_defensive_items_if_danger(event, in_danger);
        plan.append(&mut defence);
        plan
    }

    /// Switches the ultimate: on when it is off, off when it is on.
    fn handle_standalone_trigger(
        &mut self,
        settings: &Settings,
        store: &mut TriggerStore,
        now_ms: u64,
    ) -> (steps: Vec<InputAction>)
        ensures
            final(self).state == old(self).state.reset(!old(self).state.active),
            steps@ == seq![InputAction::PressKey(settings.heroes.largo.r_ability_key)],
            *final(store) == *old(store),
    {
        let enable = !self.state.active;
        self.toggle_ultimate(enable, settings)
    }

    fn hero_name(&self) -> (r: &'static str)
        ensures
            r@ == Hero::Largo.game_name(),
    {
        Hero::Largo.to_game_name()
    }
}

/// Every transition keeps the rhythm within its reachable states, and every
/// deactivation, by the player or as the game reports it, leaves it fully
/// reset.
pub proof fn lemma_rhythm_stays_well_formed(
    state: UltimateState,
    config: LargoConfig,
    event: GsiWebhookEvent,
    song: Song,
    enable: bool,
    now: u64,
)
    requires
        state.wf(),
    ensures
        UltimateState::initial().wf(),
        state.after_tick(config, now).wf(),
        state.after_selection(song).wf(),
        state.after_snapshot(event).wf(),
        state.after_toggle(enable).wf(),
        !state.after_toggle(false).active,
        state.after_toggle(false) == state.reset(false),
        !ultimate_reported(event) ==> state.after_snapshot(event) == (UltimateState {
            has_aggs: augment_reported(event),
            ..state.reset(false)
        }),
{
}

/// The schedule is a function of the anchor, the configuration and the beat
/// number alone, and beats are not due before their deadline: a tick before
/// the deadline of the next beat changes nothing and presses nothing.
pub proof fn lemma_no_beat_before_deadline(
    state: UltimateState,
    config: LargoConfig,
    anchor: u64,
    now: u64,
)
    requires
        state.beat_start_time == Some(anchor),
        now < beat_deadline(anchor, config, state.beat_count),
    ensures
        state.after_tick(config, now) == state,
        state.tick_plan(config, now) == Seq::<InputAction>::empty(),
{
}

/// A late tick does not shift the schedule: once the anchor is set, the state
/// after a beat, and with it the deadline of every later beat, is the same
/// however late the tick came that cast the beat.
pub proof fn lemma_late_tick_does_not_shift_the_schedule(
    state: UltimateState,
    config: LargoConfig,
    anchor: u64,
    on_time: u64,
    late: u64,
)
    requires
        state.beat_start_time == Some(anchor),
        state.beat_due(config, on_time),
        on_time <= late,
    ensures
        state.beat_due(config, late),
        state.after_tick(config, late) == state.after_tick(config, on_time),
        state.tick_plan(config, late) == state.tick_plan(config, on_time),
        state.after_tick(config, late).beat_start_time == Some(anchor),
{
}

/// The schedules on which the deadlines never step back: corrections are
/// off, or one interval makes up for one correction, or every beat is
/// corrected, or the interval is zero.
pub open spec fn schedule_is_ordered(config: LargoConfig) -> bool {
    ||| config.beat_correction_every_n_beats == 0
    ||| config.beat_correction_every_n_beats == 1
    ||| config.beat_interval_ms == 0
    ||| config.beat_interval_ms + config.beat_correction_ms >= 0
}

/// From one beat to the next the deadline does not step back.
pub proof fn lemma_next_deadline_is_no_earlier(config: LargoConfig, anchor: u64, beat: u32)
    requires
        schedule_is_ordered(config),
        beat < u32::MAX,
    ensures
        beat_deadline(anchor, config, beat) <= beat_deadline(anchor, config, (beat + 1) as u32),
{
    let n = config.beat_correction_every_n_beats as int;
    let interval = config.beat_interval_ms as int;
    let correction = config.beat_correction_ms as int;
    let b = beat as int;
    assert(interval * (b + 1) == interval * b + interval) by (nonlinear_arith);
    if n > 0 {
        let g0 = b / n;
        let g1 = (b + 1) / n;
        assert(0 <= g0 <= g1 <= g0 + 1) by (nonlinear_arith)
            requires
                n > 0,
                b >= 0,
                g0 == b / n,
                g1 == (b + 1) / n,
        ;
        if g1 == g0 {
        } else {
            assert(correction * g1 == correction * g0 + correction) by (nonlinear_arith)
                requires
                    g1 == g0 + 1,
            ;
        }
        if n == 1 && interval + correction < 0 {
            assert(g0 == b && g1 == b + 1) by (nonlinear_arith)
                requires
                    n == 1,
                    g0 == b / n,
                    g1 == (b + 1) / n,
            ;
            assert(interval * b + correction * b == (interval + correction) * b)
                by (nonlinear_arith);
            assert((interval + correction) * b <= 0) by (nonlinear_arith)
                requires
                    interval + correction < 0,
                    b >= 0,
            ;
            assert(interval * (b + 1) + correction * (b + 1) == (interval + correction) * (b + 1))
                by (nonlinear_arith);
            assert((interval + correction) * (b + 1) <= 0) by (nonlinear_arith)
                requires
                    interval + correction < 0,
                    b >= 0,
            ;
        }
        if interval == 0 && correction < 0 {
            assert(correction * g0 <= 0) by (nonlinear_arith)
                requires
                    correction < 0,
                    g0 >= 0,
            ;
            assert(correction * g1 <= 0) by (nonlinear_arith)
                requires
                    correction < 0,
                    g1 >= 0,
            ;
            assert(interval * b == 0) by (nonlinear_arith)
                requires
                    interval == 0,
            ;
            assert(interval * (b + 1) == 0) by (nonlinear_arith)
                requires
                    interval == 0,
            ;
        }
    }
}

/// Beat deadlines are non-decreasing in the beat number: under an ordered
/// schedule, a later beat is never due before an earlier one.
pub proof fn lemma_deadlines_are_ordered(config: LargoConfig, anchor: u64, earlier: u32, later: u32)
    requires
        schedule_is_ordered(config),
        earlier <= later,
    ensures
        beat_deadline(anchor, config, earlier) <= beat_deadline(anchor, config, later),
    decreases later - earlier,
{
    if earlier < later {
        lemma_deadlines_are_ordered(config, anchor, earlier, (later - 1) as u32);
        lemma_next_deadline_is_no_earlier(config, anchor, (later - 1) as u32);
    }
}

/// A schedule that is not ordered has a beat that is due before the beat in
/// front of it: the last beat of the first group and the beat after it.
pub proof fn lemma_unordered_schedule_steps_back(config: LargoConfig, anchor: u64)
    requires
        !schedule_is_ordered(config),
    ensures
        beat_deadline(anchor, config, config.beat_correction_every_n_beats) < beat_deadline(
            anchor,
            config,
            (config.beat_correction_every_n_beats - 1) as u32,
        ),
{
    let n = config.beat_correction_every_n_beats as int;
    let interval = config.beat_interval_ms as int;
    let correction = config.beat_correction_ms as int;
    assert(n / n == 1) by (nonlinear_arith)
        requires
            n >= 2,
    ;
    assert((n - 1) / n == 0) by (nonlinear_arith)
        requires
            n >= 2,
    ;
    assert(interval * n == interval * (n - 1) + interval) by (nonlinear_arith);
    assert(interval * (n - 1) >= interval) by (nonlinear_arith)
        requires
            n >= 2,
            interval >= 1,
    ;
    assert(correction * 0 == 0);
}

} // verus!
