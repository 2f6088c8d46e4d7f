//! The batch reorganizer that runs before the bottle is used.
//!
//! Moving a stat item into the backpack and back puts it on cooldown, which
//! lowers the hero's maximum health and mana and so raises the share that one
//! bottle charge restores. The reorganizer drags the configured stat items
//! out and back in batches, as many at a time as there are empty backpack
//! slots, and then presses the bottle's key. A guard is set for the whole
//! run, so that no second run starts before the first was finished.

use vstd::prelude::*;
use crate::clock::{advance, cooldown_elapsed, cooldown_over, later_of};
use crate::config::settings::{BottleOptimizationConfig, ScreenPosition, Settings};
use crate::input::simulation::InputAction;
use crate::models::gsi_event::{GameMap, Hero, Items};
use crate::text::{keys_match, list_contains, listed, same_key, str_eq};

verus! {

/// An inventory or backpack slot with its place on screen.
#[derive(Debug, Clone)]
pub struct ItemSlot {
    pub slot_index: usize,
    pub item_name: String,
    pub screen_pos: ScreenPosition,
}

/// An item slot as a mathematical value.
pub struct ItemSlotView {
    pub slot_index: usize,
    pub item_name: Seq<char>,
    pub screen_pos: ScreenPosition,
}

impl View for ItemSlot {
    type V = ItemSlotView;

    open spec fn view(&self) -> ItemSlotView {
        ItemSlotView {
            slot_index: self.slot_index,
            item_name: self.item_name@,
            screen_pos: self.screen_pos,
        }
    }
}

/// The views of a list of slots.
pub open spec fn slot_views(slots: Seq<ItemSlot>) -> Seq<ItemSlotView> {
    Seq::new(slots.len(), |i: int| slots[i]@)
}

/// What the reorganizer knows.
#[derive(Debug)]
pub struct BottleOptimizationState {
    /// Whether a bottle is in a main slot.
    pub bottle_available: bool,
    /// The main slot that holds it.
    pub bottle_slot_index: Option<usize>,
    /// The key of that slot.
    pub bottle_slot_key: Option<char>,
    /// Whether the game reports the bottle castable.
    pub bottle_can_cast: bool,
    /// Charges left in the bottle.
    pub bottle_charges: u32,
    /// Game clock in seconds.
    pub game_time: i32,
    /// Whether the hero is alive.
    pub hero_alive: bool,
    /// The stat items in the main slots, in slot order.
    pub stat_items: Vec<ItemSlot>,
    /// The empty backpack slots, in slot order.
    pub empty_stash_slots: Vec<ItemSlot>,
    /// Clock reading at the start of the last run.
    pub last_triggered: Option<u64>,
    /// The guard: set from the start of a run until it was finished.
    pub in_progress: bool,
}

/// The reorganizer state as a mathematical value.
pub struct BottleOptimizationView {
    pub bottle_available: bool,
    pub bottle_slot_index: Option<usize>,
    pub bottle_slot_key: Option<char>,
    pub bottle_can_cast: bool,
    pub bottle_charges: u32,
    pub game_time: i32,
    pub hero_alive: bool,
    pub stat_items: Seq<ItemSlotView>,
    pub empty_stash_slots: Seq<ItemSlotView>,
    pub last_triggered: Option<u64>,
    pub in_progress: bool,
}

impl View for BottleOptimizationState {
    type V = BottleOptimizationView;

    open spec fn view(&self) -> BottleOptimizationView {
        BottleOptimizationView {
            bottle_available: self.bottle_available,
            bottle_slot_index: self.bottle_slot_index,
            bottle_slot_key: self.bottle_slot_key,
            bottle_can_cast: self.bottle_can_cast,
            bottle_charges: self.bottle_charges,
            game_time: self.game_time,
            hero_alive: self.hero_alive,
            stat_items: slot_views(self.stat_items@),
            empty_stash_slots: slot_views(self.empty_stash_slots@),
            last_triggered: self.last_triggered,
            in_progress: self.in_progress,
        }
    }
}

/// Size of the next batch: as many items as remain, but no more than there
/// are empty slots.
pub open spec fn batch_size(remaining: nat, empty_slots: nat) -> nat {
    if remaining <= empty_slots {
        remaining
    } else {
        empty_slots
    }
}

/// Size of the next batch: the smaller of the number of stat items that
/// remain and the number of empty slots.
pub fn next_batch_size(remaining: usize, empty_slots: usize) -> (r: usize)
    ensures
        r == batch_size(remaining as nat, empty_slots as nat),
        r <= remaining,
        r <= empty_slots,
        r == remaining || r == empty_slots,
{
    if remaining <= empty_slots {
        remaining
    } else {
        empty_slots
    }
}

/// One drag between an item's slot and a backpack slot: outward from the
/// item to the backpack, or back.
pub open spec fn drag_step(
    item: ItemSlotView,
    stash: ItemSlotView,
    config: BottleOptimizationConfig,
    outward: bool,
) -> InputAction {
    if outward {
        InputAction::Drag {
            from_x: item.screen_pos.x,
            from_y: item.screen_pos.y,
            to_x: stash.screen_pos.x,
            to_y: stash.screen_pos.y,
            jitter_px: config.mouse_jitter_px,
            delay_ms: config.delay_between_drags_ms,
        }
    } else {
        InputAction::Drag {
            from_x: stash.screen_pos.x,
            from_y: stash.screen_pos.y,
            to_x: item.screen_pos.x,
            to_y: item.screen_pos.y,
            jitter_px: config.mouse_jitter_px,
            delay_ms: config.delay_between_drags_ms,
        }
    }
}

/// The drags of one direction for the batch `items[offset..offset + count]`:
/// the `k`-th item of the batch goes with the `k`-th empty slot, and every
/// drag is followed by a pause of half the configured delay.
pub open spec fn batch_drags(
    items: Seq<ItemSlotView>,
    slots: Seq<ItemSlotView>,
    offset: int,
    count: nat,
    config: BottleOptimizationConfig,
    outward: bool,
) -> Seq<InputAction>
    decreases count,
{
    if count == 0 {
        Seq::empty()
    } else {
        batch_drags(items, slots, offset, (count - 1) as nat, config, outward) + seq![
            drag_step(items[offset + count - 1], slots[count - 1], config, outward),
            InputAction::Wait(config.delay_between_drags_ms / 2),
        ]
    }
}

/// The steps for the stat items from `offset` on: batch after batch, each
/// dragged out, a pause, dragged back, a pause. Without empty slots nothing
/// is dragged.
pub open spec fn batches_plan(
    items: Seq<ItemSlotView>,
    slots: Seq<ItemSlotView>,
    offset: int,
    config: BottleOptimizationConfig,
) -> Seq<InputAction>
    decreases items.len() - offset,
{
    if offset < 0 || offset >= items.len() || slots.len() == 0 {
        Seq::empty()
    } else {
        let size = batch_size((items.len() - offset) as nat, slots.len());
        batch_drags(items, slots, offset, size, config, true) + seq![
            InputAction::Wait(config.delay_between_drags_ms),
        ] + batch_drags(items, slots, offset, size, config, false) + seq![
            InputAction::Wait(config.delay_between_drags_ms),
        ] + batches_plan(items, slots, offset + size, config)
    }
}

/// The cursor is remembered first, if it is to be restored.
pub open spec fn run_prologue(config: BottleOptimizationConfig) -> Seq<InputAction> {
    if config.restore_mouse_position {
        seq![InputAction::SaveCursor]
    } else {
        Seq::empty()
    }
}

/// The bottle's key is pressed last; after a pause the cursor is put back,
/// if it is to be restored.
pub open spec fn run_epilogue(
    bottle_key: char,
    config: BottleOptimizationConfig,
) -> Seq<InputAction> {
    if config.restore_mouse_position {
        seq![
            InputAction::PressKey(bottle_key),
            InputAction::Wait(config.delay_between_drags_ms),
            InputAction::RestoreCursor,
        ]
    } else {
        seq![InputAction::PressKey(bottle_key)]
    }
}

/// All steps of one run.
pub open spec fn run_plan(
    items: Seq<ItemSlotView>,
    slots: Seq<ItemSlotView>,
    bottle_key: char,
    config: BottleOptimizationConfig,
) -> Seq<InputAction> {
    run_prologue(config) + batches_plan(items, slots, 0, config) + run_epilogue(bottle_key, config)
}

/// The last of the first `n` main slots that holds the bottle.
pub open spec fn bottle_slot_upto(items: Items, n: int) -> Option<int>
    decreases n,
{
    if n <= 0 {
        None
    } else if items.usable(n - 1).name@ == "item_bottle"@ {
        Some(n - 1)
    } else {
        bottle_slot_upto(items, n - 1)
    }
}

/// The main slot that holds the bottle: the last one, if there are several.
pub open spec fn bottle_slot(items: Items) -> Option<int> {
    bottle_slot_upto(items, 6)
}

/// The stat items among the first `n` main slots, in slot order: the slots
/// whose item is a configured target and whose place on screen is known.
pub open spec fn stat_items_upto(items: Items, settings: Settings, n: int) -> Seq<ItemSlotView>
    decreases n,
{
    if n <= 0 {
        Seq::empty()
    } else {
        let before = stat_items_upto(items, settings, n - 1);
        let name = items.usable(n - 1).name@;
        match settings.screen_positions.inventory_positions.slot(n - 1) {
            Some(pos) => if listed(settings.bottle_optimization.target_items@, name) {
                before.push(
                    ItemSlotView { slot_index: (n - 1) as usize, item_name: name, screen_pos: pos },
                )
            } else {
                before
            },
            None => before,
        }
    }
}

/// The empty slots among the first `n` backpack slots, in slot order, as far
/// as their place on screen is known.
pub open spec fn empty_slots_upto(items: Items, settings: Settings, n: int) -> Seq<ItemSlotView>
    decreases n,
{
    if n <= 0 {
        Seq::empty()
    } else {
        let before = empty_slots_upto(items, settings, n - 1);
        match settings.screen_positions.stash_positions.slot(n - 1) {
            Some(pos) => if items.backpack(n - 1).name@ == "empty"@ {
                before.push(
                    ItemSlotView {
                        slot_index: (n - 1) as usize,
                        item_name: "empty"@,
                        screen_pos: pos,
                    },
                )
            } else {
                before
            },
            None => before,
        }
    }
}

impl BottleOptimizationView {
    /// The state before any snapshot.
    pub open spec fn initial() -> BottleOptimizationView {
        BottleOptimizationView {
            bottle_available: false,
            bottle_slot_index: None,
            bottle_slot_key: None,
            bottle_can_cast: false,
            bottle_charges: 0,
            game_time: 0,
            hero_alive: false,
            stat_items: Seq::empty(),
            empty_stash_slots: Seq::empty(),
            last_triggered: None,
            in_progress: false,
        }
    }

    /// A run is due: the feature is on; no run is in progress; the hero is
    /// alive; the bottle is present, castable and charged; the game clock is
    /// before the cutoff; there is a stat item and an empty slot; and the
    /// lockout since the last run is over.
    pub open spec fn trigger_due(self, config: BottleOptimizationConfig, now: u64) -> bool {
        &&& config.enabled
        &&& !self.in_progress
        &&& self.hero_alive
        &&& self.bottle_available
        &&& self.bottle_can_cast
        &&& self.bottle_charges > 0
        &&& self.game_time < config.max_game_time_seconds
        &&& self.stat_items.len() > 0
        &&& self.empty_stash_slots.len() > 0
        &&& cooldown_over(self.last_triggered, now, config.trigger_cooldown_ms)
    }

    /// The state after a snapshot: hero, clock, bottle and the two lists are
    /// taken from the snapshot; guard and lockout are left alone.
    pub open spec fn after_snapshot(
        self,
        items: Items,
        hero: Hero,
        map: GameMap,
        settings: Settings,
    ) -> BottleOptimizationView {
        let slot = bottle_slot(items);
        BottleOptimizationView {
            hero_alive: hero.alive,
            game_time: map.clock_time,
            bottle_available: slot is Some,
            bottle_slot_index: match slot {
                Some(i) => Some(i as usize),
                None => None,
            },
            bottle_slot_key: match slot {
                Some(i) => Some(settings.keybindings.slot_key(i)),
                None => None,
            },
            bottle_can_cast: match slot {
                Some(i) => items.usable(i).castable(),
                None => false,
            },
            bottle_charges: match slot {
                Some(i) => match items.usable(i).charges {
                    Some(c) => c,
                    None => 0,
                },
                None => 0,
            },
            stat_items: stat_items_upto(items, settings, 6),
            empty_stash_slots: empty_slots_upto(items, settings, 3),
            last_triggered: self.last_triggered,
            in_progress: self.in_progress,
        }
    }

    /// The state once a run was started at `now`.
    pub open spec fn started(self, now: u64) -> BottleOptimizationView {
        BottleOptimizationView {
            in_progress: true,
            last_triggered: Some(later_of(self.last_triggered, now)),
            ..self
        }
    }

    /// The state once the run was finished.
    pub open spec fn finished(self) -> BottleOptimizationView {
        BottleOptimizationView { in_progress: false, ..self }
    }
}

impl BottleOptimizationState {
    pub fn new() -> (r: Self)
        ensures
            r@ == BottleOptimizationView::initial(),
    {
        let r = BottleOptimizationState {
            bottle_available: false,
            bottle_slot_index: None,
            bottle_slot_key: None,
            bottle_can_cast: false,
            bottle_charges: 0,
            game_time: 0,
            hero_alive: false,
            stat_items: Vec::new(),
            empty_stash_slots: Vec::new(),
            last_triggered: None,
            in_progress: false,
        };
        assert(r@.stat_items =~= Seq::empty());
        r
    }

    /// Whether a run is due at `now_ms`.
    pub fn should_trigger(&self, settings: &Settings, now_ms: u64) -> (r: bool)
        ensures
            r == self@.trigger_due(settings.bottle_optimization, now_ms),
    {
        let config = &settings.bottle_optimization;
        if !config.enabled {
            return false;
        }
        if self.in_progress {
            return false;
        }
        if !self.hero_alive {
            return false;
        }
        if !self.bottle_available || !self.bottle_can_cast || self.bottle_charges == 0 {
            return false;
        }
        if self.game_time >= config.max_game_time_seconds {
            return false;
        }
        if self.stat_items.len() == 0 {
            return false;
        }
        if self.empty_stash_slots.len() == 0 {
            return false;
        }
        cooldown_elapsed(self.last_triggered, now_ms, config.trigger_cooldown_ms)
    }

    /// Whether `key_char` is the key of the slot that holds the bottle.
    pub fn should_intercept_key(&self, key_char: char, _settings: &Settings) -> (r: bool)
        ensures
            r == (self.bottle_slot_key matches Some(k) && same_key(key_char, k)),
    {
        match self.bottle_slot_key {
            Some(bottle_key) => keys_match(key_char, bottle_key),
            None => false,
        }
    }

    /// Records the start of a run at `now_ms`.
    pub fn mark_triggered(&mut self, now_ms: u64)
        ensures
            final(self)@ == (BottleOptimizationView {
                last_triggered: Some(later_of(old(self).last_triggered, now_ms)),
                ..old(self)@
            }),
    {
        self.last_triggered = Some(advance(self.last_triggered, now_ms));
    }
}

impl Default for BottleOptimizationState {
    fn default() -> (r: Self)
        ensures
            r@ == BottleOptimizationView::initial(),
    {
        BottleOptimizationState::new()
    }
}

/// Brings the state up to date with a snapshot.
pub fn update_from_gsi(
    state: &mut BottleOptimizationState,
    items: &Items,
    hero: &Hero,
    map: &GameMap,
    settings: &Settings,
)
    ensures
        final(state)@ == old(state)@.after_snapshot(*items, *hero, *map, *settings),
{
    state.hero_alive = hero.alive;
    state.game_time = map.clock_time;
    state.bottle_available = false;
    state.bottle_slot_index = None;
    state.bottle_slot_key = None;
    state.bottle_can_cast = false;
    state.bottle_charges = 0;

    let mut stat_items: Vec<ItemSlot> = Vec::new();
    let mut index: usize = 0;
    while index < 6
        invariant
            index <= 6,
            slot_views(stat_items@) == stat_items_upto(*items, *settings, index as int),
            state.hero_alive == hero.alive,
            state.game_time == map.clock_time,
            state.last_triggered == old(state).last_triggered,
            state.in_progress == old(state).in_progress,
            match bottle_slot_upto(*items, index as int) {
                Some(i) => {
                    &&& state.bottle_available
                    &&& state.bottle_slot_index == Some(i as usize)
                    &&& state.bottle_slot_key == Some(settings.keybindings.slot_key(i))
                    &&& state.bottle_can_cast == items.usable(i).castable()
                    &&& state.bottle_charges == (match items.usable(i).charges {
                        Some(c) => c,
                        None => 0,
                    })
                },
                None => {
                    &&& !state.bottle_available
                    &&& state.bottle_slot_index is None
                    &&& state.bottle_slot_key is None
                    &&& !state.bottle_can_cast
                    &&& state.bottle_charges == 0
                },
            },
        decreases 6 - index,
    {
        let item = items.usable_slot(index);
        if str_eq(item.name.as_str(), "item_bottle") {
            state.bottle_available = true;
            state.bottle_slot_index = Some(index);
            state.bottle_slot_key = Some(settings.keybindings.key_of_slot(index));
            state.bottle_can_cast = item.is_castable();
            state.bottle_charges = match item.charges {
                Some(c) => c,
                None => 0,
            };
        }
        let ghost before = slot_views(stat_items@);
        if list_contains(&settings.bottle_optimization.target_items, item.name.as_str()) {
            match settings.screen_positions.inventory_positions.get_slot(index) {
                Some(pos) => {
                    stat_items.push(
                        ItemSlot {
                            slot_index: index,
                            item_name: item.name.clone(),
                            screen_pos: pos,
                        },
                    );
                    assert(slot_views(stat_items@) =~= before.push(
                        ItemSlotView {
                            slot_index: index,
                            item_name: item.name@,
                            screen_pos: pos,
                        },
                    ));
                },
                None => {},
            }
        }
        index += 1;
    }

    let mut empty_slots: Vec<ItemSlot> = Vec::new();
    let mut k: usize = 0;
    while k < 3
        invariant
            k <= 3,
            slot_views(empty_slots@) == empty_slots_upto(*items, *settings, k as int),
        decreases 3 - k,
    {
        let ghost before = slot_views(empty_slots@);
        if str_eq(items.backpack_slot(k).name.as_str(), "empty") {
            match settings.screen_positions.stash_positions.get_slot(k) {
                Some(pos) => {
                    empty_slots.push(
                        ItemSlot { slot_index: k, item_name: "empty".to_owned(), screen_pos: pos },
                    );
                    assert(slot_views(empty_slots@) =~= before.push(
                        ItemSlotView { slot_index: k, item_name: "empty"@, screen_pos: pos },
                    ));
                },
                None => {},
            }
        }
        k += 1;
    }
    state.stat_items = stat_items;
    state.empty_stash_slots = empty_slots;
}

/// Appends the drags of one direction for one batch.
fn push_batch_drags(
    plan: &mut Vec<InputAction>,
    items: &Vec<ItemSlot>,
    slots: &Vec<ItemSlot>,
    offset: usize,
    count: usize,
    config: &BottleOptimizationConfig,
    outward: bool,
)
    requires
        offset + count <= items.len(),
        count <= slots.len(),
    ensures
        final(plan)@ == old(plan)@ + batch_drags(
            slot_views(items@),
            slot_views(slots@),
            offset as int,
            count as nat,
            *config,
            outward,
        ),
{
    let mut i: usize = 0;
    while i < count
        invariant
            i <= count,
            offset + count <= items.len(),
            count <= slots.len(),
            plan@ == old(plan)@ + batch_drags(
                slot_views(items@),
                slot_views(slots@),
                offset as int,
                i as nat,
                *config,
                outward,
            ),
        decreases count - i,
    {
        let item = &items[offset + i];
        let stash = &slots[i];
        let step = if outward {
            InputAction::Drag {
                from_x: item.screen_pos.x,
                from_y: item.screen_pos.y,
                to_x: stash.screen_pos.x,
                to_y: stash.screen_pos.y,
                jitter_px: config.mouse_jitter_px,
                delay_ms: config.delay_between_drags_ms,
            }
        } else {
            InputAction::Drag {
                from_x: stash.screen_pos.x,
                from_y: stash.screen_pos.y,
                to_x: item.screen_pos.x,
                to_y: item.screen_pos.y,
                jitter_px: config.mouse_jitter_px,
                delay_ms: config.delay_between_drags_ms,
            }
        };
        assert(step == drag_step(
            slot_views(items@)[offset + i],
            slot_views(slots@)[i as int],
            *config,
            outward,
        ));
        plan.push(step);
        plan.push(InputAction::Wait(config.delay_between_drags_ms / 2));
        i += 1;
        assert(plan@ =~= old(plan)@ + batch_drags(
            slot_views(items@),
            slot_views(slots@),
            offset as int,
            i as nat,
            *config,
            outward,
        ));
    }
}

/// Starts a run: sets the guard, records the time, and answers all steps of
/// the run. The caller performs the steps and then calls
/// `finish_bottle_optimization`.
///
/// Every batch takes as many of the remaining stat items as there are empty
/// slots, or all that remain. Without an empty slot nothing is dragged, and
/// the bottle is used all the same.
pub fn execute_bottle_optimization(
    state: &mut BottleOptimizationState,
    bottle_key: char,
    settings: &Settings,
    now_ms: u64,
) -> (steps: Vec<InputAction>)
    ensures
        steps@ == run_plan(
            old(state)@.stat_items,
            old(state)@.empty_stash_slots,
            bottle_key,
            settings.bottle_optimization,
        ),
        final(state)@ == old(state)@.started(now_ms),
{
    state.in_progress = true;
    state.mark_triggered(now_ms);

    let config = &settings.bottle_optimization;
    let ghost items = slot_views(state.stat_items@);
    let ghost slots = slot_views(state.empty_stash_slots@);
    let mut plan: Vec<InputAction> = Vec::new();
    if config.restore_mouse_position {
        plan.push(InputAction::SaveCursor);
    }

    let total = state.stat_items.len();
    let width = state.empty_stash_slots.len();
    let mut offset: usize = 0;
    if width > 0 {
        while offset < total
            invariant
                offset <= total,
                total == state.stat_items.len(),
                width == state.empty_stash_slots.len(),
                width > 0,
                items == slot_views(state.stat_items@),
                slots == slot_views(state.empty_stash_slots@),
                plan@ + batches_plan(items, slots, offset as int, *config) == run_prologue(*config)
                    + batches_plan(items, slots, 0, *config),
            decreases total - offset,
        {
            let size = next_batch_size(total - offset, width);
            let ghost before = plan@;
            push_batch_drags(
                &mut plan,
                &state.stat_items,
                &state.empty_stash_slots,
                offset,
                size,
                config,
                true,
            );
            plan.push(InputAction::Wait(config.delay_between_drags_ms));
            push_batch_drags(
                &mut plan,
                &state.stat_items,
                &state.empty_stash_slots,
                offset,
                size,
                config,
                false,
            );
            plan.push(InputAction::Wait(config.delay_between_drags_ms));
            assert(plan@ + batches_plan(items, slots, offset + size, *config) =~= before
                + batches_plan(items, slots, offset as int, *config));
            offset += size;
        }
    }

    plan.push(InputAction::PressKey(bottle_key));
    if config.restore_mouse_position {
        plan.push(InputAction::Wait(config.delay_between_drags_ms));
        plan.push(InputAction::RestoreCursor);
    }
    plan
}

/// Ends a run: releases the guard.
pub fn finish_bottle_optimization(state: &mut BottleOptimizationState)
    ensures
        final(state)@ == old(state)@.finished(),
{
    state.in_progress = false;
}

/// No second run within the lockout: after a run was started at `first`, no
/// run is due at any later reading that lies less than the lockout after
/// `first`, whatever the snapshots in between have changed and whether or not
/// the first run was finished.
pub proof fn lemma_no_second_run_within_cooldown(
    state: BottleOptimizationView,
    later: BottleOptimizationView,
    config: BottleOptimizationConfig,
    first: u64,
    second: u64,
)
    requires
        later.last_triggered == state.started(first).last_triggered,
        first <= second,
        second - first < config.trigger_cooldown_ms,
    ensures
        !later.trigger_due(config, second),
{
}

/// No run is due while the guard is set.
pub proof fn lemma_single_flight(
    state: BottleOptimizationView,
    config: BottleOptimizationConfig,
    now: u64,
)
    requires
        state.in_progress,
    ensures
        !state.trigger_due(config, now),
{
}

/// The guard spans the run: it is unset when a run is due, set once the run
/// was started and through every snapshot that arrives meanwhile, and unset
/// again once the run was finished.
pub proof fn lemma_guard_spans_the_run(
    state: BottleOptimizationView,
    settings: Settings,
    now: u64,
    items: Items,
    hero: Hero,
    map: GameMap,
)
    requires
        state.trigger_due(settings.bottle_optimization, now),
    ensures
        !state.in_progress,
        state.started(now).in_progress,
        state.started(now).after_snapshot(items, hero, map, settings).in_progress,
        !state.started(now).finished().in_progress,
        !state.started(now).after_snapshot(items, hero, map, settings).finished().in_progress,
{
}

/// Every batch is as large as it can be: as long as stat items remain and
/// there is an empty slot, the next batch takes the smaller of the number of
/// items that remain and the number of empty slots, drags that many out,
/// pauses, drags them back, pauses, and leaves the rest to the batches after
/// it.
pub proof fn lemma_every_batch_takes_the_smaller_count(
    items: Seq<ItemSlotView>,
    slots: Seq<ItemSlotView>,
    offset: int,
    config: BottleOptimizationConfig,
)
    requires
        0 <= offset < items.len(),
        slots.len() > 0,
    ensures
        ({
            let remaining = (items.len() - offset) as nat;
            let size = batch_size(remaining, slots.len());
            &&& size == vstd::math::min(remaining as int, slots.len() as int)
            &&& 1 <= size <= remaining
            &&& batches_plan(items, slots, offset, config) == batch_drags(
                items,
                slots,
                offset,
                size,
                config,
                true,
            ) + seq![InputAction::Wait(config.delay_between_drags_ms)] + batch_drags(
                items,
                slots,
                offset,
                size,
                config,
                false,
            ) + seq![InputAction::Wait(config.delay_between_drags_ms)] + batches_plan(
                items,
                slots,
                offset + size,
                config,
            )
        }),
{
}

/// Without an empty slot nothing is dragged: the run is the bottle's key, and
/// the cursor steps around it where they are configured.
pub proof fn lemma_no_slot_no_drag(
    items: Seq<ItemSlotView>,
    bottle_key: char,
    config: BottleOptimizationConfig,
)
    ensures
        run_plan(items, Seq::empty(), bottle_key, config) == run_prologue(config) + run_epilogue(
            bottle_key,
            config,
        ),
{
    assert(run_plan(items, Seq::empty(), bottle_key, config) =~= run_prologue(config)
        + run_epilogue(bottle_key, config));
}

/// Every stat item is dragged out once and back once: with at least one
/// empty slot, the batches hold two drags and two short pauses for each item
/// that remains, and two long pauses for each batch.
pub proof fn lemma_every_item_goes_out_and_back(
    items: Seq<ItemSlotView>,
    slots: Seq<ItemSlotView>,
    offset: int,
    config: BottleOptimizationConfig,
)
    requires
        slots.len() > 0,
        0 <= offset <= items.len(),
    ensures
        batches_plan(items, slots, offset, config).len() >= 4 * (items.len() - offset),
        batches_plan(items, slots, offset, config).len() <= 6 * (items.len() - offset),
    decreases items.len() - offset,
{
    if offset < items.len() {
        let size = batch_size((items.len() - offset) as nat, slots.len());
        lemma_batch_drags_len(items, slots, offset, size, config, true);
        lemma_batch_drags_len(items, slots, offset, size, config, false);
        lemma_every_item_goes_out_and_back(items, slots, offset + size, config);
    }
}

/// A batch of `count` items is `count` drags, each with its pause.
pub proof fn lemma_batch_drags_len(
    items: Seq<ItemSlotView>,
    slots: Seq<ItemSlotView>,
    offset: int,
    count: nat,
    config: BottleOptimizationConfig,
    outward: bool,
)
    ensures
        batch_drags(items, slots, offset, count, config, outward).len() == 2 * count,
    decreases count,
{
    if count > 0 {
        lemma_batch_drags_len(items, slots, offset, (count - 1) as nat, config, outward);
    }
}

} // verus!
