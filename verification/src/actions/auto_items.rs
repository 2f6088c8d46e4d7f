//! Items and abilities that are used right before an attack.
//!
//! While the modifier key is held, a right click first uses every configured
//! item that is ready and casts every configured ability that is ready, and
//! then attacks. The attack is made in any case, also when no snapshot has
//! arrived yet.

use vstd::prelude::*;
use crate::config::settings::{AutoAbilityConfig, Settings};
use crate::input::simulation::InputAction;
use crate::models::gsi_event::{ready_and_holds, GsiWebhookEvent, Items};

verus! {

/// Pause after every use, in milliseconds.
pub const AUTO_USE_GAP_MS: u64 = 30;

/// Remembers the latest snapshot.
pub fn update_gsi_state(latest: &mut Option<GsiWebhookEvent>, event: &GsiWebhookEvent)
    ensures
        *final(latest) == Some(*event),
{
    *latest = Some(event.duplicate());
}

/// The key of the first main slot whose item name holds `item_name` and
/// whose item is castable and off cooldown.
pub open spec fn castable_item_key(
    items: Items,
    settings: Settings,
    item_name: Seq<char>,
) -> Option<char> {
    match items.first_usable(ready_and_holds(item_name), 6) {
        Some(i) => Some(settings.keybindings.slot_key(i)),
        None => None,
    }
}

/// The key of the first main slot whose item name holds `item_name` and
/// whose item is castable and off cooldown.
pub fn find_item_key(
    event: &GsiWebhookEvent,
    settings: &Settings,
    item_name: &str,
) -> (r: Option<char>)
    ensures
        r == castable_item_key(event.items, *settings, item_name@),
{
    match event.items.find_ready_holding(item_name, 6) {
        Some(i) => Some(settings.keybindings.key_of_slot(i)),
        None => None,
    }
}

/// The uses of the first `n` configured items: a press and a pause for each
/// that is carried ready.
pub open spec fn item_uses(
    event: GsiWebhookEvent,
    settings: Settings,
    item_names: Seq<String>,
    n: int,
) -> Seq<InputAction>
    decreases n,
{
    if n <= 0 {
        Seq::empty()
    } else {
        let before = item_uses(event, settings, item_names, n - 1);
        match castable_item_key(event.items, settings, item_names[n - 1]@) {
            Some(key) => before + seq![
                InputAction::PressKey(key),
                InputAction::Wait(AUTO_USE_GAP_MS),
            ],
            None => before,
        }
    }
}

/// Whether a configured ability is cast: health is below its threshold, if
/// it has one, its slot exists, and the ability is castable, off cooldown and
/// learned.
pub open spec fn ability_is_cast(event: GsiWebhookEvent, config: AutoAbilityConfig) -> bool {
    &&& match config.hp_threshold {
        Some(threshold) => event.hero.health_percent < threshold,
        None => true,
    }
    &&& config.index <= 5
    &&& event.abilities.slot(config.index as int).ready()
}

/// The casts of the first `n` configured abilities: a press and a pause for
/// each that is cast.
pub open spec fn ability_casts(
    event: GsiWebhookEvent,
    abilities: Seq<AutoAbilityConfig>,
    n: int,
) -> Seq<InputAction>
    decreases n,
{
    if n <= 0 {
        Seq::empty()
    } else {
        let before = ability_casts(event, abilities, n - 1);
        if ability_is_cast(event, abilities[n - 1]) {
            before + seq![
                InputAction::PressKey(abilities[n - 1].key),
                InputAction::Wait(AUTO_USE_GAP_MS),
            ]
        } else {
            before
        }
    }
}

/// Everything that is done on the attack: items and abilities in the
/// configured order, then the right click. Without a snapshot, the right
/// click alone.
pub open spec fn auto_items_plan(
    latest: Option<GsiWebhookEvent>,
    settings: Settings,
    item_names: Seq<String>,
    auto_abilities: Seq<AutoAbilityConfig>,
    abilities_first: bool,
) -> Seq<InputAction> {
    match latest {
        None => seq![InputAction::RightClick],
        Some(event) => {
            let items = item_uses(event, settings, item_names, item_names.len() as int);
            let abilities = ability_casts(event, auto_abilities, auto_abilities.len() as int);
            if abilities_first {
                abilities + items + seq![InputAction::RightClick]
            } else {
                items + abilities + seq![InputAction::RightClick]
            }
        },
    }
}

/// Appends the uses of the configured items.
fn push_item_uses(
    plan: &mut Vec<InputAction>,
    event: &GsiWebhookEvent,
    settings: &Settings,
    item_names: &Vec<String>,
)
    ensures
        final(plan)@ == old(plan)@ + item_uses(
            *event,
            *settings,
            item_names@,
            item_names@.len() as int,
        ),
{
    let mut i: usize = 0;
    while i < item_names.len()
        invariant
            i <= item_names.len(),
            plan@ == old(plan)@ + item_uses(*event, *settings, item_names@, i as int),
        decreases item_names.len() - i,
    {
        let found = find_item_key(event, settings, item_names[i].as_str());
        if found.is_some() {
            let key = crate::text::key_or(found, ' ');
            plan.push(InputAction::PressKey(key));
            plan.push(InputAction::Wait(AUTO_USE_GAP_MS));
        }
        i += 1;
    }
}

/// Appends the casts of the configured abilities.
fn push_ability_casts(
    plan: &mut Vec<InputAction>,
    event: &GsiWebhookEvent,
    auto_abilities: &Vec<AutoAbilityConfig>,
)
    ensures
        final(plan)@ == old(plan)@ + ability_casts(
            *event,
            auto_abilities@,
            auto_abilities@.len() as int,
        ),
{
    let mut i: usize = 0;
    while i < auto_abilities.len()
        invariant
            i <= auto_abilities.len(),
            plan@ == old(plan)@ + ability_casts(*event, auto_abilities@, i as int),
        decreases auto_abilities.len() - i,
    {
        let config = &auto_abilities[i];
        let below = match config.hp_threshold {
            Some(threshold) => event.hero.health_percent < threshold,
            None => true,
        };
        if below {
            match event.abilities.get_by_index(config.index) {
                Some(ability) => {
                    if ability.is_ready() {
                        let key = crate::text::key_or(Some(config.key), ' ');
                        plan.push(InputAction::PressKey(key));
                        plan.push(InputAction::Wait(AUTO_USE_GAP_MS));
                    }
                },
                None => {},
            }
        }
        i += 1;
    }
}

/// Plans the attack with everything that is used before it.
pub fn execute_auto_items(
    latest: &Option<GsiWebhookEvent>,
    settings: &Settings,
    item_names: &Vec<String>,
    auto_abilities: &Vec<AutoAbilityConfig>,
    abilities_first: bool,
) -> (steps: Vec<InputAction>)
    ensures
        steps@ == auto_items_plan(
            *latest,
            *settings,
            item_names@,
            auto_abilities@,
            abilities_first,
        ),
        steps@.len() > 0,
        steps@.last() == InputAction::RightClick,
{
    let mut plan: Vec<InputAction> = Vec::new();
    match latest {
        None => {},
        Some(event) => {
            if abilities_first {
                push_ability_casts(&mut plan, event, auto_abilities);
                push_item_uses(&mut plan, event, settings, item_names);
            } else {
                push_item_uses(&mut plan, event, settings, item_names);
                push_ability_casts(&mut plan, event, auto_abilities);
            }
        },
    }
    plan.push(InputAction::RightClick);
    assert(plan@ =~= auto_items_plan(
        *latest,
        *settings,
        item_names@,
        auto_abilities@,
        abilities_first,
    ));
    plan
}

} // verus!
