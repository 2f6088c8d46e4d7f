//! The items that the combos ask for by kind.

use vstd::prelude::*;

verus! {

/// An item that a combo uses when the hero carries it.
#[derive(Debug, Clone, Copy, PartialEq, Eq, Structural)]
pub enum Item {
    BlackKingBar,
    BladeMail,
    Blink,
    Bloodthorn,
    Mjollnir,
    Orchid,
}

impl Item {
    /// The name under which the game reports the item.
    pub open spec fn game_name(self) -> Seq<char> {
        match self {
            Item::BlackKingBar => "item_black_king_bar"@,
            Item::BladeMail => "item_blade_mail"@,
            Item::Blink => "item_blink"@,
            Item::Bloodthorn => "item_bloodthorn"@,
            Item::Mjollnir => "item_mjollnir"@,
            Item::Orchid => "item_orchid"@,
        }
    }

    /// The name under which the game reports the item.
    pub fn to_game_name(&self) -> (r: &'static str)
        ensures
            r@ == self.game_name(),
    {
        match self {
            Item::BlackKingBar => "item_black_king_bar",
            Item::BladeMail => "item_blade_mail",
            Item::Blink => "item_blink",
            Item::Bloodthorn => "item_bloodthorn",
            Item::Mjollnir => "item_mjollnir",
            Item::Orchid => "item_orchid",
        }
    }
}

} // verus!
