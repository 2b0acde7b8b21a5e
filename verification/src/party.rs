//! Party membership as a state per character, with the inventory and gold.
pub mod party;

use crate::character::{
    equip, equipped, new_character, Character, CharacterId, CharacterStats, EquipmentSlot,
    StatusEffect,
};
use crate::items::ItemId;
use std::collections::HashMap;
use vstd::prelude::*;

verus! {

broadcast use vstd::std_specs::hash::group_hash_axioms;

/// Where a character stands with respect to the party.
#[derive(Clone, Copy, PartialEq, Eq, Structural, Debug)]
pub enum CharacterPartyState {
    Active,
    InReserve,
    Unavailable,
}

/// The characters, the inventory and the gold.
pub struct Party {
    /// All known characters and their state.
    pub characters: HashMap<CharacterId, Character>,
    /// Items and their amounts held in the party inventory.
    pub inventory: HashMap<ItemId, u32>,
    /// Amount of gold.
    pub gold: u32,
}

/// The starting statistics of the character with identifier `id`, in the order power, speed,
/// hit chance, evade, magic, stamina, magic defense, then hit points and magic points.
pub open spec fn starting_values(id: int) -> (CharacterStats, u32, u32) {
    if id == 0 {
        (CharacterStats { power: 5, speed: 12, hit_chance: 8, evade: 1, magic: 5, stamina: 8, magic_defense: 2 }, 70, 8)
    } else if id == 1 {
        (CharacterStats { power: 5, speed: 8, hit_chance: 8, evade: 6, magic: 8, stamina: 6, magic_defense: 8 }, 65, 12)
    } else if id == 2 {
        (CharacterStats { power: 2, speed: 6, hit_chance: 8, evade: 7, magic: 8, stamina: 6, magic_defense: 7 }, 62, 12)
    } else if id == 3 {
        (CharacterStats { power: 4, speed: 11, hit_chance: 8, evade: 8, magic: 6, stamina: 8, magic_defense: 3 }, 80, 9)
    } else if id == 4 {
        (CharacterStats { power: 7, speed: 6, hit_chance: 7, evade: 7, magic: 3, stamina: 10, magic_defense: 1 }, 130, 6)
    } else if id == 5 {
        (CharacterStats { power: 10, speed: 13, hit_chance: 10, evade: 12, magic: 3, stamina: 9, magic_defense: 1 }, 80, 4)
    } else {
        (CharacterStats { power: 8, speed: 12, hit_chance: 12, evade: 10, magic: 10, stamina: 7, magic_defense: 9 }, 110, 13)
    }
}

/// The name and text key of the character with identifier `id`.
pub open spec fn starting_names(id: int) -> (Seq<char>, Seq<char>) {
    if id == 0 {
        ("Crono"@, "NAME_CRO"@)
    } else if id == 1 {
        ("Marle"@, "NAME_MAR"@)
    } else if id == 2 {
        ("Lucca"@, "NAME_LUC"@)
    } else if id == 3 {
        ("Frog"@, "NAME_FRO"@)
    } else if id == 4 {
        ("Robo"@, "NAME_ROB"@)
    } else if id == 5 {
        ("Ayla"@, "NAME_AYL"@)
    } else {
        ("Magus"@, "NAME_MAG"@)
    }
}

/// Whether `c` is character `id` as a new game starts: the first three are in the party, the
/// others not yet available.
pub open spec fn is_starting_character(c: Character, id: int) -> bool {
    &&& c.id == id
    &&& c.name@ == starting_names(id).0
    &&& c.text_key@ == starting_names(id).1
    &&& c.party_state == (if id < 3 { CharacterPartyState::Active } else { CharacterPartyState::Unavailable })
    &&& c.stats == starting_values(id).0
    &&& c.hp == starting_values(id).1
    &&& c.mp == starting_values(id).2
    &&& c.xp == 0
    &&& c.level == 1
    &&& c.equipment == crate::character::no_equipment()
    &&& c.status == StatusEffect::NoEffect
}

/// `c` with another party state.
pub open spec fn with_party_state(c: Character, state: CharacterPartyState) -> Character {
    Character { party_state: state, ..c }
}

impl Party {
    /// The party of a new game: seven characters, the first three of them in the party, an empty
    /// inventory and no gold.
    pub fn new() -> (party: Party)
        ensures
            party.characters@.dom() == Set::new(|id: usize| id < 7),
            forall|id: usize| id < 7 ==> is_starting_character(#[trigger] party.characters@[id], id as int),
            party.inventory@ == Map::<ItemId, u32>::empty(),
            party.gold == 0,
    {
        let mut characters: HashMap<CharacterId, Character> = HashMap::new();
        characters.insert(0, new_character(0, "Crono", "NAME_CRO", CharacterPartyState::Active, 70, 8,
            CharacterStats { evade: 1, hit_chance: 8, magic: 5, magic_defense: 2, power: 5, stamina: 8, speed: 12 }));
        characters.insert(1, new_character(1, "Marle", "NAME_MAR", CharacterPartyState::Active, 65, 12,
            CharacterStats { evade: 6, hit_chance: 8, magic: 8, magic_defense: 8, power: 5, stamina: 6, speed: 8 }));
        characters.insert(2, new_character(2, "Lucca", "NAME_LUC", CharacterPartyState::Active, 62, 12,
            CharacterStats { evade: 7, hit_chance: 8, magic: 8, magic_defense: 7, power: 2, stamina: 6, speed: 6 }));
        characters.insert(3, new_character(3, "Frog", "NAME_FRO", CharacterPartyState::Unavailable, 80, 9,
            CharacterStats { evade: 8, hit_chance: 8, magic: 6, magic_defense: 3, power: 4, stamina: 8, speed: 11 }));
        characters.insert(4, new_character(4, "Robo", "NAME_ROB", CharacterPartyState::Unavailable, 130, 6,
            CharacterStats { evade: 7, hit_chance: 7, magic: 3, magic_defense: 1, power: 7, stamina: 10, speed: 6 }));
        characters.insert(5, new_character(5, "Ayla", "NAME_AYL", CharacterPartyState::Unavailable, 80, 4,
            CharacterStats { evade: 12, hit_chance: 10, magic: 3, magic_defense: 1, power: 10, stamina: 9, speed: 13 }));
        characters.insert(6, new_character(6, "Magus", "NAME_MAG", CharacterPartyState::Unavailable, 110, 13,
            CharacterStats { evade: 10, hit_chance: 12, magic: 10, magic_defense: 9, power: 8, stamina: 7, speed: 12 }));
        assert(characters@.dom() =~= Set::new(|id: usize| id < 7));
        Party { characters, inventory: HashMap::new(), gold: 0 }
    }

    /// Sets the party state of a known character.
    fn set_party_state(&mut self, character_id: CharacterId, state: CharacterPartyState)
        requires
            old(self).characters@.contains_key(character_id),
        ensures
            final(self).characters@ == old(self).characters@.insert(
                character_id,
                with_party_state(old(self).characters@[character_id], state),
            ),
            final(self).inventory@ == old(self).inventory@,
            final(self).gold == old(self).gold,
    {
        let mut character = self.characters.remove(&character_id).unwrap();
        character.party_state = state;
        self.characters.insert(character_id, character);
        assert(self.characters@ =~= old(self).characters@.insert(
            character_id,
            with_party_state(old(self).characters@[character_id], state),
        ));
    }

    /// Moves a known character that is not in the party into the reserve.
    pub fn character_add_to_reserve(&mut self, character_id: CharacterId)
        requires
            old(self).characters@.contains_key(character_id),
        ensures
            final(self).characters@ == (if old(self).characters@[character_id].party_state
                == CharacterPartyState::Active {
                old(self).characters@
            } else {
                old(self).characters@.insert(
                    character_id,
                    with_party_state(old(self).characters@[character_id], CharacterPartyState::InReserve),
                )
            }),
            final(self).inventory@ == old(self).inventory@,
            final(self).gold == old(self).gold,
    {
        let active = match self.characters.get(&character_id) {
            Some(c) => c.party_state == CharacterPartyState::Active,
            None => false,
        };
        if active {
            return;
        }
        self.set_party_state(character_id, CharacterPartyState::InReserve);
    }

    /// Takes a known character out of the party, into the reserve.
    pub fn character_remove_from_active(&mut self, character_id: CharacterId)
        requires
            old(self).characters@.contains_key(character_id),
        ensures
            final(self).characters@ == old(self).characters@.insert(
                character_id,
                with_party_state(old(self).characters@[character_id], CharacterPartyState::InReserve),
            ),
            final(self).inventory@ == old(self).inventory@,
            final(self).gold == old(self).gold,
    {
        self.set_party_state(character_id, CharacterPartyState::InReserve);
    }

    /// Puts a known character into the party.
    pub fn character_add_to_active(&mut self, character_id: CharacterId)
        requires
            old(self).characters@.contains_key(character_id),
        ensures
            final(self).characters@ == old(self).characters@.insert(
                character_id,
                with_party_state(old(self).characters@[character_id], CharacterPartyState::Active),
            ),
            final(self).inventory@ == old(self).inventory@,
            final(self).gold == old(self).gold,
    {
        self.set_party_state(character_id, CharacterPartyState::Active);
    }

    /// Moves a known character into the reserve.
    pub fn character_move_to_reserve(&mut self, character_id: CharacterId)
        requires
            old(self).characters@.contains_key(character_id),
        ensures
            final(self).characters@ == old(self).characters@.insert(
                character_id,
                with_party_state(old(self).characters@[character_id], CharacterPartyState::InReserve),
            ),
            final(self).inventory@ == old(self).inventory@,
            final(self).gold == old(self).gold,
    {
        self.set_party_state(character_id, CharacterPartyState::InReserve);
    }

    /// Equips a known character with an item, or empties the slot.
    pub fn character_equip(&mut self, character_id: CharacterId, slot: EquipmentSlot, item_id: Option<ItemId>)
        requires
            old(self).characters@.contains_key(character_id),
        ensures
            final(self).characters@ == old(self).characters@.insert(
                character_id,
                Character {
                    equipment: equipped(old(self).characters@[character_id].equipment, slot, item_id),
                    ..old(self).characters@[character_id]
                },
            ),
            final(self).inventory@ == old(self).inventory@,
            final(self).gold == old(self).gold,
    {
        let mut character = self.characters.remove(&character_id).unwrap();
        equip(&mut character.equipment, slot, item_id);
        self.characters.insert(character_id, character);
    }

    /// Whether a character is known and available.
    pub fn is_character_recruited(&self, character_id: CharacterId) -> (b: bool)
        ensures
            b == (self.characters@.contains_key(character_id)
                && self.characters@[character_id].party_state != CharacterPartyState::Unavailable),
    {
        match self.characters.get(&character_id) {
            Some(c) => c.party_state != CharacterPartyState::Unavailable,
            None => false,
        }
    }

    /// Whether a character is known and in the party.
    pub fn is_character_active(&self, character_id: CharacterId) -> (b: bool)
        ensures
            b == (self.characters@.contains_key(character_id)
                && self.characters@[character_id].party_state == CharacterPartyState::Active),
    {
        match self.characters.get(&character_id) {
            Some(c) => c.party_state == CharacterPartyState::Active,
            None => false,
        }
    }

    /// Adds gold.
    pub fn gold_give(&mut self, amount: u32)
        requires
            old(self).gold + amount <= u32::MAX,
        ensures
            final(self).gold == old(self).gold + amount,
            final(self).characters@ == old(self).characters@,
            final(self).inventory@ == old(self).inventory@,
    {
        self.gold = self.gold + amount;
    }

    /// Takes gold away.
    pub fn gold_take(&mut self, amount: u32)
        requires
            old(self).gold >= amount,
        ensures
            final(self).gold == old(self).gold - amount,
            final(self).characters@ == old(self).characters@,
            final(self).inventory@ == old(self).inventory@,
    {
        self.gold = self.gold - amount;
    }
}

} // verus!
