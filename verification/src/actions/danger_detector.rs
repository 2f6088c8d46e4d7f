//! Danger detection with hysteresis.
//!
//! The detector watches the hero's health from snapshot to snapshot. Danger is
//! raised at once when health drops fast or is low and dropping. It is lowered
//! only when neither holds any more and the clear delay has passed since the
//! detection that started the episode.

use vstd::prelude::*;
use crate::clock::{elapsed_ms, elapsed_since};
use crate::config::settings::DangerDetectionConfig;
use crate::models::gsi_event::{GsiWebhookEvent, Hero};

verus! {

/// What the detector remembers between snapshots.
#[derive(Debug, Clone, Copy, PartialEq, Eq, Structural)]
pub struct HpTracker {
    /// Health at the previous snapshot.
    pub last_hp: Option<u32>,
    /// Health percentage at the previous snapshot.
    pub last_hp_percent: Option<u32>,
    /// Clock reading at the previous snapshot.
    pub last_update: Option<u64>,
    /// Whether the hero counts as in danger.
    pub danger_detected: bool,
    /// Clock reading at the detection that started the current episode.
    pub danger_start_time: Option<u64>,
}

impl HpTracker {
    /// The state before any snapshot, and after the hero's death.
    pub open spec fn initial() -> HpTracker {
        HpTracker {
            last_hp: None,
            last_hp_percent: None,
            last_update: None,
            danger_detected: false,
            danger_start_time: None,
        }
    }

    /// The states that the detector can reach: health and clock are
    /// remembered together, and danger always has a start.
    pub open spec fn wf(self) -> bool {
        &&& self.last_hp is Some <==> self.last_update is Some
        &&& self.danger_detected ==> self.last_hp is Some
        &&& self.danger_detected <==> self.danger_start_time is Some
    }

    /// The initial state.
    pub fn new() -> (r: Self)
        ensures
            r == HpTracker::initial(),
            r.wf(),
    {
        HpTracker {
            last_hp: None,
            last_hp_percent: None,
            last_update: None,
            danger_detected: false,
            danger_start_time: None,
        }
    }
}

impl Default for HpTracker {
    fn default() -> (r: Self)
        ensures
            r == HpTracker::initial(),
    {
        HpTracker::new()
    }
}

/// Health lost since the previous snapshot; negative when health was gained.
pub open spec fn hp_delta(last_hp: u32, hero: Hero) -> int {
    last_hp - hero.health
}

/// The detection condition: more than `rapid_loss_hp` lost in less than the
/// time window, or health below the threshold while dropping.
pub open spec fn danger_condition(
    last_hp: u32,
    last_update: u64,
    hero: Hero,
    config: DangerDetectionConfig,
    now: u64,
) -> bool {
    let delta = hp_delta(last_hp, hero);
    ||| (delta > config.rapid_loss_hp && elapsed_ms(now, last_update) < config.time_window_ms)
    ||| (hero.health_percent < config.hp_threshold_percent && delta > 0)
}

/// The clear delay has fully passed since `start`.
pub open spec fn clear_delay_passed(start: u64, config: DangerDetectionConfig, now: u64) -> bool {
    elapsed_ms(now, start) >= config.clear_delay_seconds * 1000
}

/// The tracker after one snapshot.
///
/// A disabled detector keeps its state. A dead hero resets it. The first
/// snapshot only records health and time. After that, danger is raised on
/// detection and its start is latched; it is lowered when the condition no
/// longer holds and the clear delay has passed since that start. Health and
/// time are recorded whatever the outcome.
pub open spec fn danger_step(
    tracker: HpTracker,
    hero: Hero,
    config: DangerDetectionConfig,
    now: u64,
) -> HpTracker {
    if !config.enabled {
        tracker
    } else if !hero.alive {
        HpTracker::initial()
    } else if tracker.last_hp is None || tracker.last_update is None {
        HpTracker {
            last_hp: Some(hero.health),
            last_hp_percent: Some(hero.health_percent),
            last_update: Some(now),
            ..tracker
        }
    } else {
        let danger = danger_condition(
            tracker.last_hp->0,
            tracker.last_update->0,
            hero,
            config,
            now,
        );
        let raise = danger && !tracker.danger_detected;
        let lower = !danger && tracker.danger_detected && tracker.danger_start_time is Some
            && clear_delay_passed(tracker.danger_start_time->0, config, now);
        HpTracker {
            last_hp: Some(hero.health),
            last_hp_percent: Some(hero.health_percent),
            last_update: Some(now),
            danger_detected: if raise {
                true
            } else if lower {
                false
            } else {
                tracker.danger_detected
            },
            danger_start_time: if raise {
                Some(now)
            } else if lower {
                None
            } else {
                tracker.danger_start_time
            },
        }
    }
}

/// What `update` answers: the danger flag after the step, and `false` for a
/// disabled detector, a dead hero and the first snapshot.
pub open spec fn danger_answer(
    tracker: HpTracker,
    hero: Hero,
    config: DangerDetectionConfig,
    now: u64,
) -> bool {
    if !config.enabled || !hero.alive || tracker.last_hp is None || tracker.last_update is None {
        false
    } else {
        danger_step(tracker, hero, config, now).danger_detected
    }
}

/// Feeds one snapshot to the detector and answers whether the hero is in
/// danger now.
pub fn update(
    tracker: &mut HpTracker,
    event: &GsiWebhookEvent,
    config: &DangerDetectionConfig,
    now_ms: u64,
) -> (in_danger: bool)
    ensures
        *final(tracker) == danger_step(*old(tracker), event.hero, *config, now_ms),
        in_danger == danger_answer(*old(tracker), event.hero, *config, now_ms),
        old(tracker).wf() ==> final(tracker).wf(),
{
    if !config.enabled {
        return false;
    }
    if !event.hero.is_alive() {
        *tracker = HpTracker::new();
        return false;
    }
    let current_hp = event.hero.health;
    let current_hp_percent = event.hero.health_percent;
    let (last_hp, last_update) = match (tracker.last_hp, tracker.last_update) {
        (Some(hp), Some(at)) => (hp, at),
        _ => {
            tracker.last_hp = Some(current_hp);
            tracker.last_hp_percent = Some(current_hp_percent);
            tracker.last_update = Some(now_ms);
            return false;
        },
    };
    let time_delta_ms = elapsed_since(now_ms, last_update);
    let lost: i64 = last_hp as i64 - current_hp as i64;
    let is_rapid_loss = lost > config.rapid_loss_hp as i64 && time_delta_ms < config.time_window_ms;
    let is_low_hp = current_hp_percent < config.hp_threshold_percent && lost > 0;
    let in_danger = is_rapid_loss || is_low_hp;

    if in_danger && !tracker.danger_detected {
        tracker.danger_detected = true;
        tracker.danger_start_time = Some(now_ms);
    } else if !in_danger && tracker.danger_detected {
        match tracker.danger_start_time {
            Some(start) => {
                if elapsed_since(now_ms, start) / 1000 >= config.clear_delay_seconds {
                    tracker.danger_detected = false;
                    tracker.danger_start_time = None;
                }
            },
            None => {},
        }
    }
    tracker.last_hp = Some(current_hp);
    tracker.last_hp_percent = Some(current_hp_percent);
    tracker.last_update = Some(now_ms);
    tracker.danger_detected
}

/// Whether the hero counts as in danger, without feeding a snapshot.
pub fn is_in_danger(tracker: &HpTracker) -> (r: bool)
    ensures
        r == tracker.danger_detected,
{
    tracker.danger_detected
}

/// One delivered snapshot as the detector sees it: the hero and the clock
/// reading at arrival.
pub struct Arrival {
    pub hero: Hero,
    pub at: u64,
}

/// The tracker after a run of snapshots, fed in order.
pub open spec fn danger_run(
    tracker: HpTracker,
    config: DangerDetectionConfig,
    arrivals: Seq<Arrival>,
) -> HpTracker
    decreases arrivals.len(),
{
    if arrivals.len() == 0 {
        tracker
    } else {
        danger_step(
            danger_run(tracker, config, arrivals.drop_last()),
            arrivals.last().hero,
            config,
            arrivals.last().at,
        )
    }
}

/// Every step keeps the tracker within the reachable states.
pub proof fn lemma_step_keeps_wf(
    tracker: HpTracker,
    hero: Hero,
    config: DangerDetectionConfig,
    now: u64,
)
    requires
        tracker.wf(),
    ensures
        danger_step(tracker, hero, config, now).wf(),
{
}

/// Every run keeps the tracker within the reachable states.
pub proof fn lemma_run_keeps_wf(
    tracker: HpTracker,
    config: DangerDetectionConfig,
    arrivals: Seq<Arrival>,
)
    requires
        tracker.wf(),
    ensures
        danger_run(tracker, config, arrivals).wf(),
    decreases arrivals.len(),
{
    if arrivals.len() > 0 {
        lemma_run_keeps_wf(tracker, config, arrivals.drop_last());
        lemma_step_keeps_wf(
            danger_run(tracker, config, arrivals.drop_last()),
            arrivals.last().hero,
            config,
            arrivals.last().at,
        );
    }
}

/// While danger lasts, the recorded start does not move: a step that begins
/// and ends in danger keeps the start of the episode, whatever the snapshot
/// says.
pub proof fn lemma_start_is_latched(
    tracker: HpTracker,
    hero: Hero,
    config: DangerDetectionConfig,
    now: u64,
)
    requires
        tracker.danger_detected,
        danger_step(tracker, hero, config, now).danger_detected,
    ensures
        danger_step(tracker, hero, config, now).danger_start_time == tracker.danger_start_time,
{
}

/// Danger is lowered only after the clear delay.
///
/// Take any run of snapshots of a living hero with the detector enabled.
/// If danger is raised by the snapshot at `first`, lasts through every
/// snapshot up to `last`, and is lowered by the snapshot at `last`, then at
/// least the clear delay lies between the two arrivals, and the detection
/// condition does not hold at `last`. Snapshots in between on which the
/// condition did not hold make no difference.
pub proof fn lemma_danger_lowered_only_after_delay(
    tracker: HpTracker,
    config: DangerDetectionConfig,
    arrivals: Seq<Arrival>,
    first: int,
    last: int,
)
    requires
        tracker.wf(),
        config.enabled,
        0 <= first < last < arrivals.len(),
        forall|k: int| first <= k <= last ==> (#[trigger] arrivals[k]).hero.alive,
        !danger_run(tracker, config, arrivals.take(first)).danger_detected,
        forall|k: int|
            first < k <= last ==> (#[trigger] danger_run(
                tracker,
                config,
                arrivals.take(k),
            )).danger_detected,
        !danger_run(tracker, config, arrivals.take(last + 1)).danger_detected,
    ensures
        elapsed_ms(arrivals[last].at, arrivals[first].at) >= config.clear_delay_seconds * 1000,
        ({
            let before = danger_run(tracker, config, arrivals.take(last));
            !danger_condition(
                before.last_hp->0,
                before.last_update->0,
                arrivals[last].hero,
                config,
                arrivals[last].at,
            )
        }),
{
    lemma_start_of_episode(tracker, config, arrivals, first, last);
    let before = danger_run(tracker, config, arrivals.take(last));
    lemma_run_keeps_wf(tracker, config, arrivals.take(last));
    assert(arrivals.take(last + 1).drop_last() =~= arrivals.take(last));
}

/// Within an episode the recorded start is the arrival time of the snapshot
/// that raised danger.
proof fn lemma_start_of_episode(
    tracker: HpTracker,
    config: DangerDetectionConfig,
    arrivals: Seq<Arrival>,
    first: int,
    upto: int,
)
    requires
        tracker.wf(),
        config.enabled,
        0 <= first < upto <= arrivals.len(),
        forall|k: int| first <= k < upto ==> (#[trigger] arrivals[k]).hero.alive,
        !danger_run(tracker, config, arrivals.take(first)).danger_detected,
        forall|k: int|
            first < k <= upto ==> (#[trigger] danger_run(
                tracker,
                config,
                arrivals.take(k),
            )).danger_detected,
    ensures
        danger_run(tracker, config, arrivals.take(upto)).danger_start_time == Some(
            arrivals[first].at,
        ),
    decreases upto - first,
{
    assert(arrivals.take(upto).drop_last() =~= arrivals.take(upto - 1));
    let before = danger_run(tracker, config, arrivals.take(upto - 1));
    lemma_run_keeps_wf(tracker, config, arrivals.take(upto - 1));
    if upto - 1 == first {
    } else {
        lemma_start_of_episode(tracker, config, arrivals, first, upto - 1);
        lemma_start_is_latched(before, arrivals[upto - 1].hero, config, arrivals[upto - 1].at);
    }
}

} // verus!
