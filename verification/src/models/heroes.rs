//! The heroes that have a handler of their own.

use vstd::prelude::*;

verus! {

/// A supported hero.
#[derive(Debug, Clone, Copy, PartialEq, Eq, Structural)]
pub enum Hero {
    Broodmother,
    Huskar,
    Largo,
    LegionCommander,
    Nevermore,
    Tinker,
    Tiny,
}

impl Hero {
    /// The name under which the game reports the hero.
    pub open spec fn game_name(self) -> Seq<char> {
        match self {
            Hero::Broodmother => "npc_dota_hero_broodmother"@,
            Hero::Huskar => "npc_dota_hero_huskar"@,
            Hero::Largo => "npc_dota_hero_largo"@,
            Hero::LegionCommander => "npc_dota_hero_legion_commander"@,
            Hero::Nevermore => "npc_dota_hero_nevermore"@,
            Hero::Tinker => "npc_dota_hero_tinker"@,
            Hero::Tiny => "npc_dota_hero_tiny"@,
        }
    }

    /// The name under which the game reports the hero.
    pub fn to_game_name(&self) -> (r: &'static str)
        ensures
            r@ == self.game_name(),
    {
        match self {
            Hero::Broodmother => "npc_dota_hero_broodmother",
            Hero::Huskar => "npc_dota_hero_huskar",
            Hero::Largo => "npc_dota_hero_largo",
            Hero::LegionCommander => "npc_dota_hero_legion_commander",
            Hero::Nevermore => "npc_dota_hero_nevermore",
            Hero::Tinker => "npc_dota_hero_tinker",
            Hero::Tiny => "npc_dota_hero_tiny",
        }
    }

    /// The hero that the game reports under this name.
    pub open spec fn named(name: Seq<char>) -> Option<Hero> {
        if name == "npc_dota_hero_broodmother"@ {
            Some(Hero::Broodmother)
        } else if name == "npc_dota_hero_huskar"@ {
            Some(Hero::Huskar)
        } else if name == "npc_dota_hero_largo"@ {
            Some(Hero::Largo)
        } else if name == "npc_dota_hero_legion_commander"@ {
            Some(Hero::LegionCommander)
        } else if name == "npc_dota_hero_nevermore"@ {
            Some(Hero::Nevermore)
        } else if name == "npc_dota_hero_tinker"@ {
            Some(Hero::Tinker)
        } else if name == "npc_dota_hero_tiny"@ {
            Some(Hero::Tiny)
        } else {
            None
        }
    }

    /// The hero that the game reports under this name.
    pub fn from_game_name(name: &str) -> (r: Option<Hero>)
        ensures
            r == Hero::named(name@),
    {
        if crate::text::str_eq(name, "npc_dota_hero_broodmother") {
            Some(Hero::Broodmother)
        } else if crate::text::str_eq(name, "npc_dota_hero_huskar") {
            Some(Hero::Huskar)
        } else if crate::text::str_eq(name, "npc_dota_hero_largo") {
            Some(Hero::Largo)
        } else if crate::text::str_eq(name, "npc_dota_hero_legion_commander") {
            Some(Hero::LegionCommander)
        } else if crate::text::str_eq(name, "npc_dota_hero_nevermore") {
            Some(Hero::Nevermore)
        } else if crate::text::str_eq(name, "npc_dota_hero_tinker") {
            Some(Hero::Tinker)
        } else if crate::text::str_eq(name, "npc_dota_hero_tiny") {
            Some(Hero::Tiny)
        } else {
            None
        }
    }
}

/// Every supported hero is found again by its game name.
pub proof fn lemma_game_names_identify(hero: Hero)
    ensures
        Hero::named(hero.game_name()) == Some(hero),
{
    reveal_strlit("npc_dota_hero_broodmother");
    reveal_strlit("npc_dota_hero_huskar");
    reveal_strlit("npc_dota_hero_largo");
    reveal_strlit("npc_dota_hero_legion_commander");
    reveal_strlit("npc_dota_hero_nevermore");
    reveal_strlit("npc_dota_hero_tinker");
    reveal_strlit("npc_dota_hero_tiny");
    assert("npc_dota_hero_broodmother"@[14] == 'b');
    assert("npc_dota_hero_huskar"@[14] == 'h');
    assert("npc_dota_hero_largo"@[15] == 'a');
    assert("npc_dota_hero_legion_commander"@[15] == 'e');
    assert("npc_dota_hero_nevermore"@[14] == 'n');
    assert("npc_dota_hero_tiny"@.len() == 18);
}

} // verus!
