//! The combo executor: a fixed list of steps, some of them conditional.
//!
//! A combo is an ordered list of steps. Each step is an action and the pause
//! that follows it. An unconditional step is always performed. A step that
//! uses an item is performed only when the hero carries the item off cooldown:
//! when it does not, that step is skipped with its pause, and the combo goes on.

use vstd::prelude::*;
use crate::actions::soul_ring::{press_ability_with_soul_ring, SoulRingState, SoulRingView};
use crate::config::settings::Settings;
use crate::input::simulation::InputAction;
use crate::models::gsi_event::{off_cooldown_and_holds, Items};
use crate::models::items::Item;

verus! {

/// What a step does.
#[derive(Debug, Clone, Copy, PartialEq, Eq, Structural)]
pub enum ComboAction {
    /// Press a key.
    PressKey(char),
    /// Press a key, with the mana-restoring ring before it when that is due.
    PressKeyWithRing(char),
    /// Click the right mouse button.
    RightClick,
    /// Press the key of the slot that holds the item; skipped unless the
    /// item is carried and off cooldown.
    UseItem(Item),
    /// As `UseItem` for the first item, and for the second item when the
    /// first is not carried off cooldown.
    UseEither(Item, Item),
}

/// One step of a combo: an action and the pause after it, in milliseconds.
#[derive(Debug, Clone, Copy, PartialEq, Eq, Structural)]
pub struct ComboStep {
    pub action: ComboAction,
    pub wait_ms: u64,
}

/// The key of the first main slot that holds `item` off cooldown.
pub open spec fn ready_key(items: Items, settings: Settings, item: Item) -> Option<char> {
    match items.first_usable(off_cooldown_and_holds(item.game_name()), 6) {
        Some(i) => Some(settings.keybindings.slot_key(i)),
        None => None,
    }
}

/// The key that a step presses, if it presses one; `None` for a click and
/// for a conditional step whose item is not carried off cooldown.
pub open spec fn step_key(action: ComboAction, items: Items, settings: Settings) -> Option<char> {
    match action {
        ComboAction::PressKey(key) => Some(key),
        ComboAction::PressKeyWithRing(key) => Some(key),
        ComboAction::RightClick => None,
        ComboAction::UseItem(item) => ready_key(items, settings, item),
        ComboAction::UseEither(first, second) => match ready_key(items, settings, first) {
            Some(key) => Some(key),
            None => ready_key(items, settings, second),
        },
    }
}

/// The pause after a step; nothing for a pause of zero.
pub open spec fn pause(wait_ms: u64) -> Seq<InputAction> {
    if wait_ms == 0 {
        Seq::empty()
    } else {
        seq![InputAction::Wait(wait_ms)]
    }
}

/// The input of one step, with the ring as it is before the step.
pub open spec fn step_plan(
    step: ComboStep,
    items: Items,
    ring: SoulRingView,
    settings: Settings,
    now: u64,
) -> Seq<InputAction> {
    match step.action {
        ComboAction::RightClick => seq![InputAction::RightClick] + pause(step.wait_ms),
        ComboAction::PressKeyWithRing(key) => ring.press_plan(key, settings, now) + pause(
            step.wait_ms,
        ),
        _ => match step_key(step.action, items, settings) {
            Some(key) => seq![InputAction::PressKey(key)] + pause(step.wait_ms),
            None => Seq::empty(),
        },
    }
}

/// The ring after one step: only a press through the ring touches it.
pub open spec fn ring_after_step(
    step: ComboStep,
    ring: SoulRingView,
    settings: Settings,
    now: u64,
) -> SoulRingView {
    match step.action {
        ComboAction::PressKeyWithRing(key) => ring.after_press(key, settings, now),
        _ => ring,
    }
}

/// The ring after the first `n` steps.
pub open spec fn ring_after_steps(
    steps: Seq<ComboStep>,
    n: int,
    ring: SoulRingView,
    settings: Settings,
    now: u64,
) -> SoulRingView
    decreases n,
{
    if n <= 0 {
        ring
    } else {
        ring_after_step(
            steps[n - 1],
            ring_after_steps(steps, n - 1, ring, settings, now),
            settings,
            now,
        )
    }
}

/// The input of the first `n` steps, in order.
pub open spec fn combo_plan(
    steps: Seq<ComboStep>,
    n: int,
    items: Items,
    ring: SoulRingView,
    settings: Settings,
    now: u64,
) -> Seq<InputAction>
    decreases n,
{
    if n <= 0 {
        Seq::empty()
    } else {
        combo_plan(steps, n - 1, items, ring, settings, now) + step_plan(
            steps[n - 1],
            items,
            ring_after_steps(steps, n - 1, ring, settings, now),
            settings,
            now,
        )
    }
}

/// The key of the first main slot that holds `item` off cooldown.
pub fn find_ready_key(items: &Items, settings: &Settings, item: Item) -> (r: Option<char>)
    ensures
        r == ready_key(*items, *settings, item),
{
    match items.find_off_cooldown_holding(item.to_game_name(), 6) {
        Some(i) => Some(settings.keybindings.key_of_slot(i)),
        None => None,
    }
}

/// Appends the pause after a step.
fn push_pause(plan: &mut Vec<InputAction>, wait_ms: u64)
    ensures
        final(plan)@ == old(plan)@ + pause(wait_ms),
{
    if wait_ms > 0 {
        plan.push(InputAction::Wait(wait_ms));
    }
}

/// Performs one step: appends its input and records a use of the ring.
pub fn run_step(
    plan: &mut Vec<InputAction>,
    step: &ComboStep,
    items: &Items,
    ring: &mut SoulRingState,
    settings: &Settings,
    now_ms: u64,
)
    ensures
        final(plan)@ == old(plan)@ + step_plan(*step, *items, old(ring)@, *settings, now_ms),
        final(ring)@ == ring_after_step(*step, old(ring)@, *settings, now_ms),
{
    match step.action {
        ComboAction::RightClick => {
            plan.push(InputAction::RightClick);
            push_pause(plan, step.wait_ms);
        },
        ComboAction::PressKeyWithRing(key) => {
            let key = crate::text::key_or(Some(key), ' ');
            let mut presses = press_ability_with_soul_ring(ring, key, settings, now_ms);
            plan.append(&mut presses);
            push_pause(plan, step.wait_ms);
        },
        ComboAction::PressKey(key) => {
            let key = crate::text::key_or(Some(key), ' ');
            plan.push(InputAction::PressKey(key));
            push_pause(plan, step.wait_ms);
        },
        ComboAction::UseItem(item) => {
            let found = find_ready_key(items, settings, item);
            if found.is_some() {
                let key = crate::text::key_or(found, ' ');
                plan.push(InputAction::PressKey(key));
                push_pause(plan, step.wait_ms);
            }
        },
        ComboAction::UseEither(first, second) => {
            let mut found = find_ready_key(items, settings, first);
            if found.is_none() {
                found = find_ready_key(items, settings, second);
            }
            if found.is_some() {
                let key = crate::text::key_or(found, ' ');
                plan.push(InputAction::PressKey(key));
                push_pause(plan, step.wait_ms);
            }
        },
    }
}

/// Performs a combo: every step in order, conditional steps only where their
/// item is carried off cooldown.
pub fn run_combo(
    steps: &Vec<ComboStep>,
    items: &Items,
    ring: &mut SoulRingState,
    settings: &Settings,
    now_ms: u64,
) -> (plan: Vec<InputAction>)
    ensures
        plan@ == combo_plan(steps@, steps@.len() as int, *items, old(ring)@, *settings, now_ms),
        final(ring)@ == ring_after_steps(
            steps@,
            steps@.len() as int,
            old(ring)@,
            *settings,
            now_ms,
        ),
{
    let mut out: Vec<InputAction> = Vec::new();
    let mut i: usize = 0;
    while i < steps.len()
        invariant
            i <= steps.len(),
            out@ == combo_plan(steps@, i as int, *items, old(ring)@, *settings, now_ms),
            ring@ == ring_after_steps(steps@, i as int, old(ring)@, *settings, now_ms),
        decreases steps.len() - i,
    {
        run_step(&mut out, &steps[i], items, ring, settings, now_ms);
        i += 1;
    }
    out
}

/// Appends `n` equal steps to a combo.
pub fn push_steps(steps: &mut Vec<ComboStep>, action: ComboAction, wait_ms: u64, n: u8)
    ensures
        final(steps)@ == old(steps)@ + Seq::new(n as nat, |i: int| ComboStep { action, wait_ms }),
{
    let mut i: u8 = 0;
    while i < n
        invariant
            i <= n,
            steps@ == old(steps)@ + Seq::new(i as nat, |k: int| ComboStep { action, wait_ms }),
        decreases n - i,
    {
        steps.push(ComboStep { action, wait_ms });
        i += 1;
        assert(steps@ =~= old(steps)@ + Seq::new(
            i as nat,
            |k: int| ComboStep { action, wait_ms },
        ));
    }
}

/// A conditional step whose item is not carried off cooldown is skipped,
/// pause and all, and changes nothing for the steps after it.
pub proof fn lemma_failed_step_is_skipped(
    item: Item,
    wait_ms: u64,
    items: Items,
    ring: SoulRingView,
    settings: Settings,
    now: u64,
)
    requires
        ready_key(items, settings, item) is None,
    ensures
        step_plan(
            ComboStep { action: ComboAction::UseItem(item), wait_ms },
            items,
            ring,
            settings,
            now,
        ) == Seq::<InputAction>::empty(),
        ring_after_step(
            ComboStep { action: ComboAction::UseItem(item), wait_ms },
            ring,
            settings,
            now,
        ) == ring,
{
}

} // verus!
