//! One delivered record of the current game state.
//!
//! A snapshot is immutable once it has arrived. Optional item fields that the
//! game left out are `None`, and every rule reads a missing field as "not
//! ready".

use vstd::prelude::*;

verus! {

/// What one inventory slot holds. An empty slot carries the name `empty`.
#[derive(Debug, Clone)]
pub struct Item {
    pub name: String,
    pub can_cast: Option<bool>,
    pub cooldown: Option<u32>,
    pub item_level: Option<u32>,
    pub passive: Option<bool>,
    pub purchaser: Option<u32>,
    pub charges: Option<u32>,
    pub item_charges: Option<u32>,
}

impl Item {
    /// Whether the game reports the item as castable. A missing report counts
    /// as not castable.
    pub open spec fn castable(self) -> bool {
        self.can_cast == Some(true)
    }

    /// Off cooldown. An item without a cooldown report is not: nothing is
    /// used on incomplete data.
    pub open spec fn off_cooldown(self) -> bool {
        self.cooldown == Some(0u32)
    }

    /// Whether the item is off cooldown.
    pub fn is_off_cooldown(&self) -> (r: bool)
        ensures
            r == self.off_cooldown(),
    {
        match self.cooldown {
            Some(cd) => cd == 0,
            None => false,
        }
    }

    /// Castable and off cooldown. An item without a cooldown report is not
    /// ready: nothing is used on incomplete data.
    pub open spec fn ready(self) -> bool {
        self.castable() && self.cooldown == Some(0u32)
    }

    /// Whether the item is castable and off cooldown.
    pub fn is_ready(&self) -> (r: bool)
        ensures
            r == self.ready(),
    {
        let can_cast = match self.can_cast {
            Some(c) => c,
            None => false,
        };
        let off_cooldown = match self.cooldown {
            Some(cd) => cd == 0,
            None => false,
        };
        can_cast && off_cooldown
    }

    /// Whether the game reports the item as castable.
    pub fn is_castable(&self) -> (r: bool)
        ensures
            r == self.castable(),
    {
        match self.can_cast {
            Some(c) => c,
            None => false,
        }
    }
}

impl Default for Item {
    fn default() -> (r: Self)
        ensures
            r.name@ == "empty"@,
            r.can_cast is None,
            r.cooldown is None,
            r.item_level is None,
            r.passive is None,
            r.purchaser is None,
            r.charges is None,
            r.item_charges is None,
    {
        Item {
            name: "empty".to_owned(),
            can_cast: None,
            cooldown: None,
            item_level: None,
            passive: None,
            purchaser: None,
            charges: None,
            item_charges: None,
        }
    }
}

impl Item {
    /// An equal copy.
    pub fn duplicate(&self) -> (r: Self)
        ensures
            r == *self,
    {
        Item {
            name: self.name.clone(),
            can_cast: self.can_cast,
            cooldown: self.cooldown,
            item_level: self.item_level,
            passive: self.passive,
            purchaser: self.purchaser,
            charges: self.charges,
            item_charges: self.item_charges,
        }
    }
}

/// Every slot of the hero's inventory: the six main slots, three backpack
/// slots (`slot6`..`slot8`), the stash, the neutral slot and the teleport slot.
#[derive(Debug, Clone)]
pub struct Items {
    pub neutral0: Item,
    pub slot0: Item,
    pub slot1: Item,
    pub slot2: Item,
    pub slot3: Item,
    pub slot4: Item,
    pub slot5: Item,
    pub slot6: Item,
    pub slot7: Item,
    pub slot8: Item,
    pub stash0: Item,
    pub stash1: Item,
    pub stash2: Item,
    pub stash3: Item,
    pub stash4: Item,
    pub stash5: Item,
    pub teleport0: Item,
}

/// Number of usable slots: the six main slots and the neutral slot.
pub const USABLE_SLOTS: usize = 7;

/// Number of main slots.
pub const MAIN_SLOTS: usize = 6;

/// Number of backpack slots.
pub const BACKPACK_SLOTS: usize = 3;

/// Name of the `i`-th usable slot: `slot0`..`slot5`, then `neutral0`.
pub open spec fn slot_name(i: int) -> Seq<char> {
    if i == 0 {
        "slot0"@
    } else if i == 1 {
        "slot1"@
    } else if i == 2 {
        "slot2"@
    } else if i == 3 {
        "slot3"@
    } else if i == 4 {
        "slot4"@
    } else if i == 5 {
        "slot5"@
    } else {
        "neutral0"@
    }
}

/// The names of the usable slots are pairwise different.
pub proof fn lemma_slot_names_distinct()
    ensures
        forall|i: int, j: int|
            0 <= i < 7 && 0 <= j < 7 && i != j ==> #[trigger] slot_name(i) != #[trigger] slot_name(
                j,
            ),
{
    reveal_strlit("slot0");
    reveal_strlit("slot1");
    reveal_strlit("slot2");
    reveal_strlit("slot3");
    reveal_strlit("slot4");
    reveal_strlit("slot5");
    reveal_strlit("neutral0");
    assert("slot0"@[4] == '0');
    assert("slot1"@[4] == '1');
    assert("slot2"@[4] == '2');
    assert("slot3"@[4] == '3');
    assert("slot4"@[4] == '4');
    assert("slot5"@[4] == '5');
}

/// The static name of the `i`-th usable slot.
pub fn usable_slot_name(i: usize) -> (r: &'static str)
    ensures
        r@ == slot_name(i as int),
{
    if i == 0 {
        "slot0"
    } else if i == 1 {
        "slot1"
    } else if i == 2 {
        "slot2"
    } else if i == 3 {
        "slot3"
    } else if i == 4 {
        "slot4"
    } else if i == 5 {
        "slot5"
    } else {
        "neutral0"
    }
}

impl Items {
    /// The item in the `i`-th usable slot: main slots `0..6` in order, the
    /// neutral slot for every other index.
    pub open spec fn usable(self, i: int) -> Item {
        if i == 0 {
            self.slot0
        } else if i == 1 {
            self.slot1
        } else if i == 2 {
            self.slot2
        } else if i == 3 {
            self.slot3
        } else if i == 4 {
            self.slot4
        } else if i == 5 {
            self.slot5
        } else {
            self.neutral0
        }
    }

    /// The item in the `i`-th backpack slot.
    pub open spec fn backpack(self, i: int) -> Item {
        if i == 0 {
            self.slot6
        } else if i == 1 {
            self.slot7
        } else {
            self.slot8
        }
    }

    /// The item in the `i`-th usable slot.
    pub fn usable_slot(&self, i: usize) -> (r: &Item)
        ensures
            *r == self.usable(i as int),
    {
        if i == 0 {
            &self.slot0
        } else if i == 1 {
            &self.slot1
        } else if i == 2 {
            &self.slot2
        } else if i == 3 {
            &self.slot3
        } else if i == 4 {
            &self.slot4
        } else if i == 5 {
            &self.slot5
        } else {
            &self.neutral0
        }
    }

    /// The item in the `i`-th backpack slot.
    pub fn backpack_slot(&self, i: usize) -> (r: &Item)
        ensures
            *r == self.backpack(i as int),
    {
        if i == 0 {
            &self.slot6
        } else if i == 1 {
            &self.slot7
        } else {
            &self.slot8
        }
    }

    /// The usable slots as pairs of slot name and item: the six main slots in
    /// order, then the neutral slot.
    pub fn all_slots(&self) -> (r: Vec<(&'static str, &Item)>)
        ensures
            r@.len() == 7,
            forall|i: int|
                0 <= i < 7 ==> (#[trigger] r@[i]).0@ == slot_name(i) && *r@[i].1 == self.usable(i),
    {
        let mut slots: Vec<(&'static str, &Item)> = Vec::new();
        slots.push(("slot0", &self.slot0));
        slots.push(("slot1", &self.slot1));
        slots.push(("slot2", &self.slot2));
        slots.push(("slot3", &self.slot3));
        slots.push(("slot4", &self.slot4));
        slots.push(("slot5", &self.slot5));
        slots.push(("neutral0", &self.neutral0));
        slots
    }
}

impl Items {
    /// An equal copy.
    pub fn duplicate(&self) -> (r: Self)
        ensures
            r == *self,
    {
        Items {
            neutral0: self.neutral0.duplicate(),
            slot0: self.slot0.duplicate(),
            slot1: self.slot1.duplicate(),
            slot2: self.slot2.duplicate(),
            slot3: self.slot3.duplicate(),
            slot4: self.slot4.duplicate(),
            slot5: self.slot5.duplicate(),
            slot6: self.slot6.duplicate(),
            slot7: self.slot7.duplicate(),
            slot8: self.slot8.duplicate(),
            stash0: self.stash0.duplicate(),
            stash1: self.stash1.duplicate(),
            stash2: self.stash2.duplicate(),
            stash3: self.stash3.duplicate(),
            stash4: self.stash4.duplicate(),
            stash5: self.stash5.duplicate(),
            teleport0: self.teleport0.duplicate(),
        }
    }
}

/// An optional slot index as a mathematical integer.
pub open spec fn as_index(slot: Option<usize>) -> Option<int> {
    match slot {
        Some(i) => Some(i as int),
        None => None,
    }
}

/// The items that carry exactly this name.
pub open spec fn named(name: Seq<char>) -> spec_fn(Item) -> bool {
    |item: Item| item.name@ == name
}

/// The items whose name holds `part` as a contiguous run.
pub open spec fn name_holds(part: Seq<char>) -> spec_fn(Item) -> bool {
    |item: Item| crate::text::has_substring(item.name@, part)
}

/// The items whose name holds `part` and that are castable and off cooldown.
pub open spec fn ready_and_holds(part: Seq<char>) -> spec_fn(Item) -> bool {
    |item: Item| crate::text::has_substring(item.name@, part) && item.ready()
}

/// The items whose name holds `part` and that are off cooldown.
pub open spec fn off_cooldown_and_holds(part: Seq<char>) -> spec_fn(Item) -> bool {
    |item: Item| crate::text::has_substring(item.name@, part) && item.off_cooldown()
}

/// The items that carry exactly this name and are reported castable.
pub open spec fn castable_and_named(name: Seq<char>) -> spec_fn(Item) -> bool {
    |item: Item| item.name@ == name && item.castable()
}

impl Items {
    /// Index of the first of the usable slots `0..n` whose item satisfies
    /// `wanted`. There are seven usable slots, whatever `n` is.
    pub open spec fn first_usable(self, wanted: spec_fn(Item) -> bool, n: int) -> Option<int> {
        if n > 0 && wanted(self.slot0) {
            Some(0)
        } else if n > 1 && wanted(self.slot1) {
            Some(1)
        } else if n > 2 && wanted(self.slot2) {
            Some(2)
        } else if n > 3 && wanted(self.slot3) {
            Some(3)
        } else if n > 4 && wanted(self.slot4) {
            Some(4)
        } else if n > 5 && wanted(self.slot5) {
            Some(5)
        } else if n > 6 && wanted(self.neutral0) {
            Some(6)
        } else {
            None
        }
    }

    /// A slot index found by scanning the usable slots in order is the one
    /// that `first_usable` names.
    pub proof fn lemma_first_usable(self, wanted: spec_fn(Item) -> bool, n: int, found: Option<int>)
        requires
            0 <= n <= 7,
            found matches Some(i) ==> 0 <= i < n && wanted(self.usable(i)) && forall|j: int|
                0 <= j < i ==> !wanted(#[trigger] self.usable(j)),
            found is None ==> forall|j: int| 0 <= j < n ==> !wanted(#[trigger] self.usable(j)),
        ensures
            self.first_usable(wanted, n) == found,
    {
        assert(self.usable(0) == self.slot0);
        assert(self.usable(1) == self.slot1);
        assert(self.usable(2) == self.slot2);
        assert(self.usable(3) == self.slot3);
        assert(self.usable(4) == self.slot4);
        assert(self.usable(5) == self.slot5);
        assert(self.usable(6) == self.neutral0);
    }

    /// What `first_usable` names is a slot in range whose item is wanted,
    /// and no earlier slot holds a wanted item.
    pub proof fn lemma_first_usable_is_first(self, wanted: spec_fn(Item) -> bool, n: int)
        requires
            0 <= n <= 7,
        ensures
            self.first_usable(wanted, n) matches Some(i) ==> 0 <= i < n && wanted(self.usable(i))
                && forall|j: int| 0 <= j < i ==> !wanted(#[trigger] self.usable(j)),
            self.first_usable(wanted, n) is None ==> forall|j: int|
                0 <= j < n ==> !wanted(#[trigger] self.usable(j)),
    {
    }

    /// Some usable slot holds an item that satisfies `wanted`.
    pub open spec fn any_usable(self, wanted: spec_fn(Item) -> bool) -> bool {
        self.first_usable(wanted, 7) is Some
    }

    /// The first of the usable slots `0..n` that holds an item of this name.
    pub fn find_named(&self, name: &str, n: usize) -> (r: Option<usize>)
        ensures
            r matches Some(i) ==> i < n,
            as_index(r) == self.first_usable(named(name@), n as int),
    {
        let limit: usize = if n < USABLE_SLOTS {
            n
        } else {
            USABLE_SLOTS
        };
        let mut i: usize = 0;
        while i < limit
            invariant
                i <= limit <= 7,
                limit == (if n < 7 {
                    n
                } else {
                    7
                }),
                forall|j: int| 0 <= j < i ==> !named(name@)(#[trigger] self.usable(j)),
            decreases limit - i,
        {
            if crate::text::str_eq(self.usable_slot(i).name.as_str(), name) {
                proof {
                    self.lemma_first_usable(named(name@), limit as int, Some(i as int));
                }
                return Some(i);
            }
            i += 1;
        }
        proof {
            self.lemma_first_usable(named(name@), limit as int, None);
        }
        None
    }

    /// The first of the usable slots `0..n` whose item name holds `part`.
    pub fn find_holding(&self, part: &str, n: usize) -> (r: Option<usize>)
        ensures
            r matches Some(i) ==> i < n,
            as_index(r) == self.first_usable(name_holds(part@), n as int),
    {
        let limit: usize = if n < USABLE_SLOTS {
            n
        } else {
            USABLE_SLOTS
        };
        let mut i: usize = 0;
        while i < limit
            invariant
                i <= limit <= 7,
                limit == (if n < 7 {
                    n
                } else {
                    7
                }),
                forall|j: int| 0 <= j < i ==> !name_holds(part@)(#[trigger] self.usable(j)),
            decreases limit - i,
        {
            if crate::text::str_contains(self.usable_slot(i).name.as_str(), part) {
                proof {
                    self.lemma_first_usable(name_holds(part@), limit as int, Some(i as int));
                }
                return Some(i);
            }
            i += 1;
        }
        proof {
            self.lemma_first_usable(name_holds(part@), limit as int, None);
        }
        None
    }

    /// The first of the usable slots `0..n` whose item name holds `part` and
    /// whose item is castable and off cooldown.
    pub fn find_ready_holding(&self, part: &str, n: usize) -> (r: Option<usize>)
        ensures
            r matches Some(i) ==> i < n,
            as_index(r) == self.first_usable(ready_and_holds(part@), n as int),
    {
        let limit: usize = if n < USABLE_SLOTS {
            n
        } else {
            USABLE_SLOTS
        };
        let mut i: usize = 0;
        while i < limit
            invariant
                i <= limit <= 7,
                limit == (if n < 7 {
                    n
                } else {
                    7
                }),
                forall|j: int| 0 <= j < i ==> !ready_and_holds(part@)(#[trigger] self.usable(j)),
            decreases limit - i,
        {
            let item = self.usable_slot(i);
            if crate::text::str_contains(item.name.as_str(), part) && item.is_ready() {
                proof {
                    self.lemma_first_usable(ready_and_holds(part@), limit as int, Some(i as int));
                }
                return Some(i);
            }
            i += 1;
        }
        proof {
            self.lemma_first_usable(ready_and_holds(part@), limit as int, None);
        }
        None
    }

    /// The first of the usable slots `0..n` whose item name holds `part` and
    /// whose item is off cooldown.
    pub fn find_off_cooldown_holding(&self, part: &str, n: usize) -> (r: Option<usize>)
        ensures
            r matches Some(i) ==> i < n,
            as_index(r) == self.first_usable(off_cooldown_and_holds(part@), n as int),
    {
        let limit: usize = if n < USABLE_SLOTS {
            n
        } else {
            USABLE_SLOTS
        };
        let mut i: usize = 0;
        while i < limit
            invariant
                i <= limit <= 7,
                limit == (if n < 7 {
                    n
                } else {
                    7
                }),
                forall|j: int| 0 <= j < i ==> !off_cooldown_and_holds(part@)(#[trigger] self.usable(j)),
            decreases limit - i,
        {
            let item = self.usable_slot(i);
            if crate::text::str_contains(item.name.as_str(), part) && item.is_off_cooldown() {
                proof {
                    self.lemma_first_usable(off_cooldown_and_holds(part@), limit as int, Some(i as int));
                }
                return Some(i);
            }
            i += 1;
        }
        proof {
            self.lemma_first_usable(off_cooldown_and_holds(part@), limit as int, None);
        }
        None
    }

    /// The first usable slot that holds a castable item of this name.
    pub fn find_castable_named(&self, name: &str) -> (r: Option<usize>)
        ensures
            r matches Some(i) ==> i < 7,
            as_index(r) == self.first_usable(castable_and_named(name@), 7),
    {
        let mut i: usize = 0;
        while i < 7
            invariant
                i <= 7,
                forall|j: int|
                    0 <= j < i ==> !castable_and_named(name@)(#[trigger] self.usable(j)),
            decreases 7 - i,
        {
            let item = self.usable_slot(i);
            if crate::text::str_eq(item.name.as_str(), name) && item.is_castable() {
                proof {
                    self.lemma_first_usable(castable_and_named(name@), 7, Some(i as int));
                }
                return Some(i);
            }
            i += 1;
        }
        proof {
            self.lemma_first_usable(castable_and_named(name@), 7, None);
        }
        None
    }
}

/// One ability slot.
#[derive(Debug, Clone)]
pub struct Ability {
    pub ability_active: bool,
    pub can_cast: bool,
    pub cooldown: u32,
    pub level: u32,
    pub name: String,
    pub passive: bool,
    pub ultimate: bool,
}

impl Ability {
    /// Castable, off cooldown and learned.
    pub open spec fn ready(self) -> bool {
        self.can_cast && self.cooldown == 0 && self.level > 0
    }

    /// Whether the ability is castable, off cooldown and learned.
    pub fn is_ready(&self) -> (r: bool)
        ensures
            r == self.ready(),
    {
        self.can_cast && self.cooldown == 0 && self.level > 0
    }
}

impl Ability {
    /// An equal copy.
    pub fn duplicate(&self) -> (r: Self)
        ensures
            r == *self,
    {
        Ability {
            ability_active: self.ability_active,
            can_cast: self.can_cast,
            cooldown: self.cooldown,
            level: self.level,
            name: self.name.clone(),
            passive: self.passive,
            ultimate: self.ultimate,
        }
    }
}

/// The six ability slots, in order.
#[derive(Debug, Clone)]
pub struct Abilities {
    pub ability0: Ability,
    pub ability1: Ability,
    pub ability2: Ability,
    pub ability3: Ability,
    pub ability4: Ability,
    pub ability5: Ability,
}

/// Number of ability slots.
pub const ABILITY_SLOTS: usize = 6;

impl Abilities {
    /// The ability in slot `i`; slot 5 for every index past the fifth.
    pub open spec fn slot(self, i: int) -> Ability {
        if i == 0 {
            self.ability0
        } else if i == 1 {
            self.ability1
        } else if i == 2 {
            self.ability2
        } else if i == 3 {
            self.ability3
        } else if i == 4 {
            self.ability4
        } else {
            self.ability5
        }
    }

    /// Index of the first of the ability slots `0..n` that holds the ability
    /// of this name.
    pub open spec fn first_named(self, name: Seq<char>, n: int) -> Option<int> {
        if n > 0 && self.ability0.name@ == name {
            Some(0)
        } else if n > 1 && self.ability1.name@ == name {
            Some(1)
        } else if n > 2 && self.ability2.name@ == name {
            Some(2)
        } else if n > 3 && self.ability3.name@ == name {
            Some(3)
        } else if n > 4 && self.ability4.name@ == name {
            Some(4)
        } else if n > 5 && self.ability5.name@ == name {
            Some(5)
        } else {
            None
        }
    }

    /// The ability in slot `i`.
    pub fn ability(&self, i: usize) -> (r: &Ability)
        ensures
            *r == self.slot(i as int),
    {
        if i == 0 {
            &self.ability0
        } else if i == 1 {
            &self.ability1
        } else if i == 2 {
            &self.ability2
        } else if i == 3 {
            &self.ability3
        } else if i == 4 {
            &self.ability4
        } else {
            &self.ability5
        }
    }

    /// The first of the ability slots `0..n` that holds the ability of this
    /// name.
    pub fn find_named(&self, name: &str, n: usize) -> (r: Option<usize>)
        ensures
            r matches Some(i) ==> i < n,
            as_index(r) == self.first_named(name@, n as int),
    {
        let limit: usize = if n < ABILITY_SLOTS {
            n
        } else {
            ABILITY_SLOTS
        };
        let mut i: usize = 0;
        while i < limit
            invariant
                i <= limit <= 6,
                limit == (if n < 6 {
                    n
                } else {
                    6
                }),
                forall|j: int| 0 <= j < i ==> (#[trigger] self.slot(j)).name@ != name@,
            decreases limit - i,
        {
            if crate::text::str_eq(self.ability(i).name.as_str(), name) {
                proof {
                    self.lemma_slots(name@);
                }
                return Some(i);
            }
            i += 1;
        }
        proof {
            self.lemma_slots(name@);
        }
        None
    }

    /// The numbered slots are the named fields.
    proof fn lemma_slots(self, name: Seq<char>)
        ensures
            self.slot(0) == self.ability0,
            self.slot(1) == self.ability1,
            self.slot(2) == self.ability2,
            self.slot(3) == self.ability3,
            self.slot(4) == self.ability4,
            self.slot(5) == self.ability5,
    {
    }

    /// The ability in slot `index`, for `index` in `0..=5`.
    pub fn get_by_index(&self, index: u8) -> (r: Option<&Ability>)
        ensures
            index <= 5 ==> (r matches Some(a) && *a == self.slot(index as int)),
            index > 5 ==> r is None,
    {
        match index {
            0 => Some(&self.ability0),
            1 => Some(&self.ability1),
            2 => Some(&self.ability2),
            3 => Some(&self.ability3),
            4 => Some(&self.ability4),
            5 => Some(&self.ability5),
            _ => None,
        }
    }
}

impl Abilities {
    /// An equal copy.
    pub fn duplicate(&self) -> (r: Self)
        ensures
            r == *self,
    {
        Abilities {
            ability0: self.ability0.duplicate(),
            ability1: self.ability1.duplicate(),
            ability2: self.ability2.duplicate(),
            ability3: self.ability3.duplicate(),
            ability4: self.ability4.duplicate(),
            ability5: self.ability5.duplicate(),
        }
    }
}

/// The hero's vitals and status flags.
#[derive(Debug, Clone)]
pub struct Hero {
    pub aghanims_scepter: bool,
    pub aghanims_shard: bool,
    pub alive: bool,
    pub attributes_level: u32,
    pub is_break: bool,
    pub buyback_cooldown: u32,
    pub buyback_cost: u32,
    pub disarmed: bool,
    pub facet: u32,
    pub has_debuff: bool,
    pub health: u32,
    pub health_percent: u32,
    pub hexed: bool,
    pub id: u32,
    pub level: u32,
    pub magicimmune: bool,
    pub mana: u32,
    pub mana_percent: u32,
    pub max_health: u32,
    pub max_mana: u32,
    pub muted: bool,
    pub name: String,
    pub respawn_seconds: u32,
    pub silenced: bool,
    pub smoked: bool,
    pub stunned: bool,
    pub talent_1: bool,
    pub talent_2: bool,
    pub talent_3: bool,
    pub talent_4: bool,
    pub talent_5: bool,
    pub talent_6: bool,
    pub talent_7: bool,
    pub talent_8: bool,
    pub xp: u32,
    pub xpos: i32,
    pub ypos: i32,
}

impl Hero {
    pub fn is_alive(&self) -> (r: bool)
        ensures
            r == self.alive,
    {
        self.alive
    }

    pub fn is_stunned(&self) -> (r: bool)
        ensures
            r == self.stunned,
    {
        self.stunned
    }
}

impl Hero {
    /// An equal copy of the hero record.
    pub fn duplicate(&self) -> (r: Self)
        ensures
            r == *self,
    {
        let name = self.name.clone();
        let r = Hero { name, ..*self };
        r
    }
}

/// State of the match: the elapsed game clock in seconds.
#[derive(Debug, Clone, Copy, PartialEq, Eq, Structural)]
pub struct GameMap {
    pub clock_time: i32,
}

/// One snapshot: hero, abilities, inventory and match clock.
#[derive(Debug, Clone)]
pub struct GsiWebhookEvent {
    pub hero: Hero,
    pub abilities: Abilities,
    pub items: Items,
    pub map: GameMap,
}

impl GsiWebhookEvent {
    /// An equal copy.
    pub fn duplicate(&self) -> (r: Self)
        ensures
            r == *self,
    {
        GsiWebhookEvent {
            hero: self.hero.duplicate(),
            abilities: self.abilities.duplicate(),
            items: self.items.duplicate(),
            map: self.map,
        }
    }
}

} // verus!
