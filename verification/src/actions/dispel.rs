//! Dispelling a silence.
//!
//! When the hero is silenced, the first ready dispel item is used once,
//! after a short pause of random length. Nothing more is used against the
//! same silence.

use vstd::prelude::*;
use rand::Rng;
use crate::config::settings::Settings;
use crate::input::simulation::InputAction;
use crate::models::gsi_event::{GsiWebhookEvent, Item};

verus! {

/// Least pause before the dispel, in milliseconds.
pub const JITTER_MIN_MS: u64 = 30;

/// The pause before the dispel is shorter than this, in milliseconds.
pub const JITTER_MAX_MS: u64 = 100;

/// Trusted: `Rng::random_range` of the rand crate, called on the thread's
/// generator with the range `30..100`, returns a number of that range. Which
/// one is not said.
#[verifier::external_body]
fn reaction_jitter_ms() -> (r: u64)
    ensures
        30 <= r < 100,
{
    rand::rng().random_range(30..100)
}

/// Draws the pause before a dispel: some number of `30..100` milliseconds.
pub fn draw_jitter() -> (r: u64)
    ensures
        30 <= r < 100,
{
    reaction_jitter_ms()
}

/// The items that dispel: the manta and the orb, each as far as it is
/// switched on, and only when castable and off cooldown.
pub open spec fn dispels(settings: Settings) -> spec_fn(Item) -> bool {
    |item: Item|
        item.ready() && ((settings.danger_detection.auto_manta_on_silence && item.name@
            == "item_manta"@) || (settings.danger_detection.auto_lotus_on_silence && item.name@
            == "item_lotus_orb"@))
}

/// The usable slot whose item is used against the silence: the first that
/// holds a dispel item. None unless the hero is silenced and alive and no
/// dispel was used against this silence yet.
pub open spec fn dispel_slot(
    triggered: bool,
    event: GsiWebhookEvent,
    settings: Settings,
) -> Option<int> {
    if !event.hero.silenced || triggered || !event.hero.alive {
        None
    } else {
        event.items.first_usable(dispels(settings), 7)
    }
}

/// The steps of the dispel, with a pause of `jitter_ms` before it: one press
/// for the manta, two presses 30 ms apart for the orb, which casts it on the
/// hero.
pub open spec fn dispel_plan(
    triggered: bool,
    event: GsiWebhookEvent,
    settings: Settings,
    jitter_ms: u64,
) -> Seq<InputAction> {
    match dispel_slot(triggered, event, settings) {
        None => Seq::empty(),
        Some(i) => {
            let key = settings.keybindings.slot_key(i);
            if event.items.usable(i).name@ == "item_manta"@ {
                seq![InputAction::Wait(jitter_ms), InputAction::PressKey(key)]
            } else {
                seq![
                    InputAction::Wait(jitter_ms),
                    InputAction::PressKey(key),
                    InputAction::Wait(30),
                    InputAction::PressKey(key),
                ]
            }
        },
    }
}

/// Whether a dispel counts as used after the snapshot: never while the hero
/// is not silenced; otherwise once one was used.
pub open spec fn dispel_triggered_after(
    triggered: bool,
    event: GsiWebhookEvent,
    settings: Settings,
) -> bool {
    if !event.hero.silenced {
        false
    } else {
        triggered || dispel_slot(triggered, event, settings) is Some
    }
}

/// Decides on the dispel, with the pause before it given.
pub fn dispel_with_jitter(
    triggered: &mut bool,
    event: &GsiWebhookEvent,
    settings: &Settings,
    jitter_ms: u64,
) -> (steps: Vec<InputAction>)
    ensures
        steps@ == dispel_plan(*old(triggered), *event, *settings, jitter_ms),
        *final(triggered) == dispel_triggered_after(*old(triggered), *event, *settings),
{
    let mut plan: Vec<InputAction> = Vec::new();
    if !event.hero.silenced {
        *triggered = false;
        return plan;
    }
    if *triggered {
        return plan;
    }
    if !event.hero.alive {
        return plan;
    }
    let manta_enabled = settings.danger_detection.auto_manta_on_silence;
    let lotus_enabled = settings.danger_detection.auto_lotus_on_silence;
    let mut i: usize = 0;
    while i < 7
        invariant
            i <= 7,
            plan@.len() == 0,
            !*old(triggered),
            *triggered == *old(triggered),
            event.hero.silenced,
            event.hero.alive,
            manta_enabled == settings.danger_detection.auto_manta_on_silence,
            lotus_enabled == settings.danger_detection.auto_lotus_on_silence,
            forall|j: int| 0 <= j < i ==> !dispels(*settings)(#[trigger] event.items.usable(j)),
        decreases 7 - i,
    {
        let item = event.items.usable_slot(i);
        let is_manta = crate::text::str_eq(item.name.as_str(), "item_manta");
        let is_lotus = crate::text::str_eq(item.name.as_str(), "item_lotus_orb");
        if item.is_ready() && ((manta_enabled && is_manta) || (lotus_enabled && is_lotus)) {
            proof {
                event.items.lemma_first_usable(dispels(*settings), 7, Some(i as int));
            }
            *triggered = true;
            let key = settings.keybindings.key_of_slot(i);
            plan.push(InputAction::Wait(jitter_ms));
            plan.push(InputAction::PressKey(key));
            if !is_manta {
                plan.push(InputAction::Wait(30));
                plan.push(InputAction::PressKey(key));
            }
            return plan;
        }
        i += 1;
    }
    proof {
        event.items.lemma_first_usable(dispels(*settings), 7, None);
    }
    plan
}

/// Decides on the dispel: draws the pause and plans with it. Whatever pause
/// was drawn, the steps are those of `dispel_plan` for some pause in
/// `30..100`.
pub fn check_and_dispel_silence(
    triggered: &mut bool,
    event: &GsiWebhookEvent,
    settings: &Settings,
) -> (steps: Vec<InputAction>)
    ensures
        exists|jitter_ms: u64|
            30 <= jitter_ms < 100 && steps@ == dispel_plan(
                *old(triggered),
                *event,
                *settings,
                jitter_ms,
            ),
        *final(triggered) == dispel_triggered_after(*old(triggered), *event, *settings),
{
    let jitter_ms = draw_jitter();
    dispel_with_jitter(triggered, event, settings, jitter_ms)
}

/// One silence, one dispel: once a dispel was used, nothing is used on the
/// snapshots that follow while the silence lasts.
pub proof fn lemma_one_dispel_per_silence(
    event: GsiWebhookEvent,
    next: GsiWebhookEvent,
    settings: Settings,
    jitter_ms: u64,
    next_jitter_ms: u64,
)
    requires
        dispel_slot(false, event, settings) is Some,
        next.hero.silenced,
    ensures
        dispel_triggered_after(false, event, settings),
        dispel_plan(true, next, settings, next_jitter_ms) == Seq::<InputAction>::empty(),
        dispel_triggered_after(true, next, settings),
{
}

} // verus!
