//! Party membership as an ordered list of slots: the first three are the active party, the
//! ones after them the reserve.
use crate::character::{
    equip, equipped, new_character, Character, CharacterId, CharacterStats, EquipmentSlot,
    StatusEffect,
};
use crate::items::ItemId;
use crate::party::CharacterPartyState;
use std::collections::HashMap;
use vstd::prelude::*;

verus! {

broadcast use vstd::std_specs::hash::group_hash_axioms;

/// A place in the party order, holding a character or left empty.
#[derive(Clone, Copy, PartialEq, Eq, Structural, Debug)]
pub struct PartySlot {
    pub character_id: CharacterId,
    pub disabled: bool,
}

impl PartySlot {
    fn new(character_id: CharacterId, disabled: bool) -> (slot: Self)
        ensures
            slot == (PartySlot { character_id, disabled }),
    {
        Self { character_id, disabled }
    }
}

/// The number of slots of the active party.
pub const PARTY_LEN: usize = 3;

/// The number of slots that the reserve is searched through, counted from the first slot.
pub const SLOT_SEARCH_END: usize = 9;

/// The number of slots of a party.
pub const SLOT_COUNT: usize = 7;

/// Whether a slot holds the character, not disabled.
pub open spec fn holds(slot: PartySlot, character_id: CharacterId) -> bool {
    !slot.disabled && slot.character_id == character_id
}

/// The first slot from `i` on, before `end`, that holds the character.
pub open spec fn first_holder(slots: Seq<PartySlot>, character_id: CharacterId, i: int, end: int) -> Option<int>
    decreases end - i,
{
    if i >= end || i >= slots.len() || i < 0 {
        None
    } else if holds(slots[i], character_id) {
        Some(i)
    } else {
        first_holder(slots, character_id, i + 1, end)
    }
}

/// The first disabled slot from `i` on, before `end`.
pub open spec fn first_disabled(slots: Seq<PartySlot>, i: int, end: int) -> Option<int>
    decreases end - i,
{
    if i >= end || i >= slots.len() || i < 0 {
        None
    } else if slots[i].disabled {
        Some(i)
    } else {
        first_disabled(slots, i + 1, end)
    }
}

/// The first slot from `i` on, before `end`, that is disabled and names the character.
pub open spec fn first_vacated(slots: Seq<PartySlot>, character_id: CharacterId, i: int, end: int) -> Option<int>
    decreases end - i,
{
    if i >= end || i >= slots.len() || i < 0 {
        None
    } else if slots[i].disabled && slots[i].character_id == character_id {
        Some(i)
    } else {
        first_vacated(slots, character_id, i + 1, end)
    }
}

/// The reserve slot where an insertion at the top of the reserve stops: the first disabled one.
pub open spec fn reserve_gap(slots: Seq<PartySlot>) -> Option<int> {
    first_disabled(slots, PARTY_LEN as int, SLOT_SEARCH_END as int)
}

/// Whether inserting at the top of the reserve stays within the slots: a disabled reserve slot
/// comes before the end of the slots, or the slots reach past the searched range.
pub open spec fn can_insert_in_reserve(slots: Seq<PartySlot>) -> bool {
    reserve_gap(slots) is Some || slots.len() >= SLOT_SEARCH_END
}

/// The slots after inserting `slot` at the top of the reserve: the reserve slots move one place
/// down up to the first disabled one, which is overwritten.
pub open spec fn inserted_in_reserve(slots: Seq<PartySlot>, slot: PartySlot) -> Seq<PartySlot> {
    let end = match reserve_gap(slots) {
        Some(j) => j,
        None => SLOT_SEARCH_END - 1,
    };
    Seq::new(
        slots.len(),
        |k: int|
            if k < PARTY_LEN || k > end {
                slots[k]
            } else if k == PARTY_LEN {
                slot
            } else {
                slots[k - 1]
            },
    )
}

/// The slots after disabling the first one that holds the character.
pub open spec fn deactivated(slots: Seq<PartySlot>, character_id: CharacterId) -> Seq<PartySlot> {
    match first_holder(slots, character_id, 0, slots.len() as int) {
        Some(i) => slots.update(i, PartySlot { disabled: true, ..slots[i] }),
        None => slots,
    }
}

/// `first_holder` finds the first holding slot in its range.
pub proof fn lemma_first_holder(slots: Seq<PartySlot>, character_id: CharacterId, i: int, end: int)
    requires
        0 <= i,
    ensures
        match first_holder(slots, character_id, i, end) {
            Some(j) => i <= j < end && j < slots.len() && holds(slots[j], character_id) && forall|k: int|
                i <= k < j ==> !holds(#[trigger] slots[k], character_id),
            None => forall|k: int| i <= k < end && k < slots.len() ==> !holds(#[trigger] slots[k], character_id),
        },
    decreases end - i,
{
    if i < end && i < slots.len() && !holds(slots[i], character_id) {
        lemma_first_holder(slots, character_id, i + 1, end);
    }
}

/// `first_disabled` finds the first disabled slot in its range.
pub proof fn lemma_first_disabled(slots: Seq<PartySlot>, i: int, end: int)
    requires
        0 <= i,
    ensures
        match first_disabled(slots, i, end) {
            Some(j) => i <= j < end && j < slots.len() && slots[j].disabled && forall|k: int|
                i <= k < j ==> !(#[trigger] slots[k]).disabled,
            None => forall|k: int| i <= k < end && k < slots.len() ==> !(#[trigger] slots[k]).disabled,
        },
    decreases end - i,
{
    if i < end && i < slots.len() && !slots[i].disabled {
        lemma_first_disabled(slots, i + 1, end);
    }
}

/// `first_vacated` finds the first disabled slot naming the character in its range.
pub proof fn lemma_first_vacated(slots: Seq<PartySlot>, character_id: CharacterId, i: int, end: int)
    requires
        0 <= i,
    ensures
        match first_vacated(slots, character_id, i, end) {
            Some(j) => i <= j < end && j < slots.len() && slots[j].disabled && slots[j].character_id
                == character_id && forall|k: int|
                i <= k < j ==> !((#[trigger] slots[k]).disabled && slots[k].character_id == character_id),
            None => forall|k: int|
                i <= k < end && k < slots.len() ==> !((#[trigger] slots[k]).disabled && slots[k].character_id
                    == character_id),
        },
    decreases end - i,
{
    if i < end && i < slots.len() && !(slots[i].disabled && slots[i].character_id == character_id) {
        lemma_first_vacated(slots, character_id, i + 1, end);
    }
}


/// `first_disabled` reads only the slots in its range.
pub proof fn lemma_first_disabled_local(s: Seq<PartySlot>, t: Seq<PartySlot>, i: int, end: int)
    requires
        0 <= i,
        s.len() == t.len(),
        forall|k: int| i <= k < end && k < s.len() ==> s[k] == t[k],
    ensures
        first_disabled(s, i, end) == first_disabled(t, i, end),
    decreases end - i,
{
    if i < end && i < s.len() {
        lemma_first_disabled_local(s, t, i + 1, end);
    }
}

/// Where the character of `id` stands in the list of starting characters of the other party
/// model, which orders two of them the other way round.
pub open spec fn roster_index(id: int) -> int {
    if id == 3 {
        4
    } else if id == 4 {
        3
    } else {
        id
    }
}

/// Whether `c` is character `id` as a new game starts: every character is recruited.
pub open spec fn is_roster_character(c: Character, id: int) -> bool {
    &&& c.id == id
    &&& c.name@ == crate::party::starting_names(roster_index(id)).0
    &&& c.text_key@ == crate::party::starting_names(roster_index(id)).1
    &&& c.party_state == CharacterPartyState::Active
    &&& c.stats == crate::party::starting_values(roster_index(id)).0
    &&& c.hp == crate::party::starting_values(roster_index(id)).1
    &&& c.mp == crate::party::starting_values(roster_index(id)).2
    &&& c.xp == 0
    &&& c.level == 1
    &&& c.equipment == crate::character::no_equipment()
    &&& c.status == StatusEffect::NoEffect
}

/// The slot order of a new game.
pub open spec fn starting_slots() -> Seq<PartySlot> {
    seq![
        PartySlot { character_id: 3, disabled: false },
        PartySlot { character_id: 1, disabled: false },
        PartySlot { character_id: 2, disabled: false },
        PartySlot { character_id: 6, disabled: false },
        PartySlot { character_id: 4, disabled: false },
        PartySlot { character_id: 5, disabled: true },
        PartySlot { character_id: 0, disabled: true },
    ]
}

/// The slots after moving the character in party slot `i` out: the party members after it
/// move up, the last party slot is disabled and the character goes to the top of the reserve.
pub open spec fn moved_into_reserve(slots: Seq<PartySlot>, i: int, character_id: CharacterId) -> Seq<PartySlot> {
    let shifted = Seq::new(
        slots.len(),
        |k: int|
            if i <= k < PARTY_LEN - 1 {
                slots[k + 1]
            } else {
                slots[k]
            },
    );
    let closed = shifted.update(PARTY_LEN - 1, PartySlot { disabled: true, ..shifted[PARTY_LEN - 1] });
    inserted_in_reserve(closed, PartySlot { character_id, disabled: false })
}

/// The slots after bringing a character into the party: a disabled party slot that names it is
/// enabled again; failing that, the character takes the last party slot and the character that
/// was there goes to the top of the reserve.
pub open spec fn added_to_party(slots: Seq<PartySlot>, character_id: CharacterId) -> Seq<PartySlot> {
    let d = deactivated(slots, character_id);
    match first_vacated(d, character_id, 0, PARTY_LEN as int) {
        Some(i) => d.update(i, PartySlot { disabled: false, ..d[i] }),
        None => inserted_in_reserve(
            d.update(PARTY_LEN - 1, PartySlot { character_id, disabled: false }),
            d[PARTY_LEN - 1],
        ),
    }
}

/// `c` recruited.
pub open spec fn recruited(c: Character) -> Character {
    Character { party_state: CharacterPartyState::Active, ..c }
}

/// The characters, their order in the party and reserve, the inventory and the gold.
pub struct Party {
    /// All known characters and their state.
    characters: HashMap<CharacterId, Character>,
    /// List and order of characters in the current party.
    party_slots: Vec<PartySlot>,
    /// Items and their amounts held in the party inventory.
    inventory: HashMap<ItemId, u32>,
    /// Amount of gold.
    gold: u32,
}

impl Party {
    /// The known characters by identifier.
    pub closed spec fn roster(&self) -> Map<CharacterId, Character> {
        self.characters@
    }

    /// The slots in order.
    pub closed spec fn slots(&self) -> Seq<PartySlot> {
        self.party_slots@
    }

    /// The inventory: item amounts by item.
    pub closed spec fn items_held(&self) -> Map<ItemId, u32> {
        self.inventory@
    }

    /// The amount of gold.
    pub closed spec fn gold_amount(&self) -> u32 {
        self.gold
    }

    /// The party always has its fixed number of slots.
    pub closed spec fn wf(&self) -> bool {
        self.party_slots@.len() == SLOT_COUNT
    }

    /// The party of a new game: seven recruited characters, four of them in slots, an empty
    /// inventory and no gold.
    pub fn new() -> (party: Party)
        ensures
            party.wf(),
            party.roster().dom() == Set::new(|id: usize| id < 7),
            forall|id: usize| id < 7 ==> is_roster_character(#[trigger] party.roster()[id], id as int),
            party.slots() == starting_slots(),
            party.items_held() == Map::<ItemId, u32>::empty(),
            party.gold_amount() == 0,
    {
        let mut characters: HashMap<CharacterId, Character> = HashMap::new();
        characters.insert(0, new_character(0, "Crono", "NAME_CRO", CharacterPartyState::Active, 70, 8,
            CharacterStats { evade: 1, hit_chance: 8, magic: 5, magic_defense: 2, power: 5, stamina: 8, speed: 12 }));
        characters.insert(1, new_character(1, "Marle", "NAME_MAR", CharacterPartyState::Active, 65, 12,
            CharacterStats { evade: 6, hit_chance: 8, magic: 8, magic_defense: 8, power: 5, stamina: 6, speed: 8 }));
        characters.insert(2, new_character(2, "Lucca", "NAME_LUC", CharacterPartyState::Active, 62, 12,
            CharacterStats { evade: 7, hit_chance: 8, magic: 8, magic_defense: 7, power: 2, stamina: 6, speed: 6 }));
        characters.insert(3, new_character(3, "Robo", "NAME_ROB", CharacterPartyState::Active, 130, 6,
            CharacterStats { evade: 7, hit_chance: 7, magic: 3, magic_defense: 1, power: 7, stamina: 10, speed: 6 }));
        characters.insert(4, new_character(4, "Frog", "NAME_FRO", CharacterPartyState::Active, 80, 9,
            CharacterStats { evade: 8, hit_chance: 8, magic: 6, magic_defense: 3, power: 4, stamina: 8, speed: 11 }));
        characters.insert(5, new_character(5, "Ayla", "NAME_AYL", CharacterPartyState::Active, 80, 4,
            CharacterStats { evade: 12, hit_chance: 10, magic: 3, magic_defense: 1, power: 10, stamina: 9, speed: 13 }));
        characters.insert(6, new_character(6, "Magus", "NAME_MAG", CharacterPartyState::Active, 110, 13,
            CharacterStats { evade: 10, hit_chance: 12, magic: 10, magic_defense: 9, power: 8, stamina: 7, speed: 12 }));
        assert(characters@.dom() =~= Set::new(|id: usize| id < 7));
        let party_slots = vec![
            PartySlot::new(3, false),
            PartySlot::new(1, false),
            PartySlot::new(2, false),
            PartySlot::new(6, false),
            PartySlot::new(4, false),
            PartySlot::new(5, true),
            PartySlot::new(0, true),
        ];
        assert(party_slots@ =~= starting_slots());
        Party { characters, party_slots, inventory: HashMap::new(), gold: 0 }
    }

    /// Equips a known character with an item, or empties the slot.
    pub fn character_equip(&mut self, character_id: CharacterId, slot: EquipmentSlot, item_id: Option<ItemId>)
        requires
            old(self).roster().contains_key(character_id),
        ensures
            final(self).roster() == old(self).roster().insert(
                character_id,
                Character {
                    equipment: equipped(old(self).roster()[character_id].equipment, slot, item_id),
                    ..old(self).roster()[character_id]
                },
            ),
            final(self).slots() == old(self).slots(),
            final(self).wf() == old(self).wf(),
            final(self).items_held() == old(self).items_held(),
            final(self).gold_amount() == old(self).gold_amount(),
    {
        let mut character = self.characters.remove(&character_id).unwrap();
        equip(&mut character.equipment, slot, item_id);
        self.characters.insert(character_id, character);
    }

    /// The first slot that holds the character.
    pub fn find_character_index(&self, character_id: CharacterId) -> (index: Option<usize>)
        ensures
            match index {
                Some(i) => first_holder(self.slots(), character_id, 0, self.slots().len() as int) == Some(i as int),
                None => first_holder(self.slots(), character_id, 0, self.slots().len() as int) is None,
            },
    {
        let ghost s = self.party_slots@;
        let n = self.party_slots.len();
        let mut i: usize = 0;
        while i < n
            invariant
                s == self.party_slots@,
                n == s.len(),
                i <= n,
                first_holder(s, character_id, 0, n as int) == first_holder(s, character_id, i as int, n as int),
            decreases n - i,
        {
            let slot = self.party_slots[i];
            if !slot.disabled && slot.character_id == character_id {
                return Some(i);
            }
            i = i + 1;
        }
        None
    }

    /// The first slot of the active party that holds the character.
    pub fn find_active_character_index(&self, character_id: CharacterId) -> (index: Option<usize>)
        requires
            self.wf(),
        ensures
            match index {
                Some(i) => first_holder(self.slots(), character_id, 0, PARTY_LEN as int) == Some(i as int),
                None => first_holder(self.slots(), character_id, 0, PARTY_LEN as int) is None,
            },
    {
        let ghost s = self.party_slots@;
        let mut i: usize = 0;
        while i < PARTY_LEN
            invariant
                s == self.party_slots@,
                s.len() == SLOT_COUNT,
                i <= PARTY_LEN,
                first_holder(s, character_id, 0, PARTY_LEN as int) == first_holder(s, character_id, i as int, PARTY_LEN as int),
            decreases PARTY_LEN - i,
        {
            let slot = self.party_slots[i];
            if !slot.disabled && slot.character_id == character_id {
                return Some(i);
            }
            i = i + 1;
        }
        None
    }

    /// Disables the first slot that holds the character.
    pub fn deactivate_character(&mut self, character_id: CharacterId)
        ensures
            final(self).slots() == deactivated(old(self).slots(), character_id),
            final(self).wf() == old(self).wf(),
            final(self).roster() == old(self).roster(),
            final(self).items_held() == old(self).items_held(),
            final(self).gold_amount() == old(self).gold_amount(),
    {
        proof {
            lemma_first_holder(self.party_slots@, character_id, 0, self.party_slots@.len() as int);
        }
        if let Some(index) = self.find_character_index(character_id) {
            let mut slot = self.party_slots[index];
            slot.disabled = true;
            self.party_slots.set(index, slot);
        }
    }

    /// Marks a known character recruited and enables slot `index`.
    pub fn recruit_character_at_index(&mut self, index: usize, character_id: CharacterId)
        requires
            old(self).roster().contains_key(character_id),
            index < old(self).slots().len(),
        ensures
            final(self).roster() == old(self).roster().insert(character_id, recruited(old(self).roster()[character_id])),
            final(self).slots() == old(self).slots().update(
                index as int,
                PartySlot { disabled: false, ..old(self).slots()[index as int] },
            ),
            final(self).wf() == old(self).wf(),
            final(self).items_held() == old(self).items_held(),
            final(self).gold_amount() == old(self).gold_amount(),
    {
        let mut character = self.characters.remove(&character_id).unwrap();
        character.party_state = CharacterPartyState::Active;
        self.characters.insert(character_id, character);
        assert(self.characters@ =~= old(self).characters@.insert(
            character_id,
            recruited(old(self).characters@[character_id]),
        ));
        let mut slot = self.party_slots[index];
        slot.disabled = false;
        self.party_slots.set(index, slot);
    }

    /// Puts `slot` at the top of the reserve; the reserve moves down by one up to its first
    /// disabled slot, which it fills.
    fn insert_slot_at_top_of_reserve(&mut self, slot: PartySlot)
        requires
            old(self).wf(),
            can_insert_in_reserve(old(self).slots()),
        ensures
            final(self).slots() == inserted_in_reserve(old(self).slots(), slot),
            final(self).wf(),
            final(self).roster() == old(self).roster(),
            final(self).items_held() == old(self).items_held(),
            final(self).gold_amount() == old(self).gold_amount(),
    {
        let ghost s = self.party_slots@;
        proof {
            lemma_first_disabled(s, PARTY_LEN as int, SLOT_SEARCH_END as int);
        }
        let ghost target = inserted_in_reserve(s, slot);
        let mut current_slot = slot;
        let mut i: usize = PARTY_LEN;
        while i < SLOT_SEARCH_END
            invariant_except_break
                PARTY_LEN <= i <= SLOT_SEARCH_END,
                target == inserted_in_reserve(s, slot),
                self.party_slots@.len() == s.len(),
                s.len() == SLOT_COUNT,
                self.characters@ == old(self).characters@,
                self.inventory@ == old(self).inventory@,
                self.gold == old(self).gold,
                reserve_gap(s) is Some,
                PARTY_LEN <= reserve_gap(s).unwrap() < s.len(),
                s[reserve_gap(s).unwrap()].disabled,
                forall|k: int| PARTY_LEN <= k < reserve_gap(s).unwrap() ==> !(#[trigger] s[k]).disabled,
                i <= reserve_gap(s).unwrap(),
                forall|k: int| PARTY_LEN <= k < i ==> !(#[trigger] s[k]).disabled,
                current_slot == (if i == PARTY_LEN { slot } else { s[i - 1] }),
                forall|k: int| 0 <= k < s.len() ==> #[trigger] self.party_slots@[k] == (if PARTY_LEN <= k < i {
                    target[k]
                } else {
                    s[k]
                }),
            ensures
                self.party_slots@ == target,
                self.characters@ == old(self).characters@,
                self.inventory@ == old(self).inventory@,
                self.gold == old(self).gold,
            decreases SLOT_SEARCH_END - i,
        {
            let next_slot = self.party_slots[i];
            let ghost gap = reserve_gap(s).unwrap();
            assert(target[i as int] == (if i == PARTY_LEN { slot } else { s[i - 1] }));
            self.party_slots.set(i, current_slot);
            if next_slot.disabled {
                assert(i == gap);
                assert forall|k: int| 0 <= k < s.len() implies #[trigger] self.party_slots@[k] == target[k] by {
                    if k > gap {
                        assert(target[k] == s[k]);
                    }
                }
                assert(self.party_slots@ =~= target);
                break;
            }
            current_slot = next_slot;
            i = i + 1;
        }
    }

    /// Brings a character into the active party. The character's slot is first disabled; a
    /// disabled party slot naming the character is then enabled again, or else the character
    /// takes the last party slot and the character there goes to the top of the reserve.
    pub fn add_character_to_party(&mut self, character_id: CharacterId)
        requires
            old(self).wf(),
            first_vacated(deactivated(old(self).slots(), character_id), character_id, 0, PARTY_LEN as int) is Some
                ==> old(self).roster().contains_key(character_id),
            first_vacated(deactivated(old(self).slots(), character_id), character_id, 0, PARTY_LEN as int) is None
                ==> can_insert_in_reserve(deactivated(old(self).slots(), character_id)),
        ensures
            final(self).wf(),
            final(self).slots() == added_to_party(old(self).slots(), character_id),
            final(self).roster() == (if first_vacated(
                deactivated(old(self).slots(), character_id),
                character_id,
                0,
                PARTY_LEN as int,
            ) is Some {
                old(self).roster().insert(character_id, recruited(old(self).roster()[character_id]))
            } else {
                old(self).roster()
            }),
            final(self).items_held() == old(self).items_held(),
            final(self).gold_amount() == old(self).gold_amount(),
    {
        self.deactivate_character(character_id);
        let ghost d = self.party_slots@;
        proof {
            lemma_first_vacated(d, character_id, 0, PARTY_LEN as int);
        }
        let mut i: usize = 0;
        while i < PARTY_LEN
            invariant
                i <= PARTY_LEN,
                self.party_slots@ == d,
                d == deactivated(old(self).party_slots@, character_id),
                d.len() == SLOT_COUNT,
                self.characters@ == old(self).characters@,
                self.inventory@ == old(self).inventory@,
                self.gold == old(self).gold,
                first_vacated(d, character_id, 0, PARTY_LEN as int) == first_vacated(d, character_id, i as int, PARTY_LEN as int),
                first_vacated(d, character_id, 0, PARTY_LEN as int) is Some ==> old(self).characters@.contains_key(character_id),
            decreases PARTY_LEN - i,
        {
            let slot = self.party_slots[i];
            if slot.disabled && slot.character_id == character_id {
                self.recruit_character_at_index(i, character_id);
                return;
            }
            i = i + 1;
        }
        let old_slot_state_end = self.party_slots[PARTY_LEN - 1];
        self.party_slots.set(PARTY_LEN - 1, PartySlot::new(character_id, false));
        proof {
            lemma_first_disabled_local(self.party_slots@, d, PARTY_LEN as int, SLOT_SEARCH_END as int);
        }
        self.insert_slot_at_top_of_reserve(old_slot_state_end);
    }

    /// Takes a character out of the active party into the top of the reserve; the party members
    /// after it move up and the last party slot is disabled. Nothing happens where the character
    /// is not in the active party.
    pub fn move_character_from_party_into_reserve(&mut self, character_id: CharacterId)
        requires
            old(self).wf(),
            first_holder(old(self).slots(), character_id, 0, PARTY_LEN as int) is Some ==> can_insert_in_reserve(old(self).slots()),
        ensures
            final(self).wf(),
            final(self).slots() == match first_holder(old(self).slots(), character_id, 0, PARTY_LEN as int) {
                Some(i) => moved_into_reserve(old(self).slots(), i, character_id),
                None => old(self).slots(),
            },
            final(self).roster() == old(self).roster(),
            final(self).items_held() == old(self).items_held(),
            final(self).gold_amount() == old(self).gold_amount(),
    {
        let index = match self.find_active_character_index(character_id) {
            Some(i) => i,
            None => return,
        };
        let ghost s = self.party_slots@;
        proof {
            lemma_first_holder(s, character_id, 0, PARTY_LEN as int);
        }
        let ghost shifted = Seq::new(
            s.len(),
            |k: int|
                if index <= k < PARTY_LEN - 1 {
                    s[k + 1]
                } else {
                    s[k]
                },
        );
        let mut j: usize = index;
        while j < PARTY_LEN - 1
            invariant
                index <= j <= PARTY_LEN - 1,
                s.len() == SLOT_COUNT,
                self.party_slots@.len() == s.len(),
                self.characters@ == old(self).characters@,
                self.inventory@ == old(self).inventory@,
                self.gold == old(self).gold,
                forall|k: int|
                    0 <= k < s.len() ==> #[trigger] self.party_slots@[k] == (if index <= k < j {
                        s[k + 1]
                    } else {
                        s[k]
                    }),
            decreases PARTY_LEN - 1 - j,
        {
            let next = self.party_slots[j + 1];
            self.party_slots.set(j, next);
            j = j + 1;
        }
        assert(self.party_slots@ =~= shifted);
        let mut last = self.party_slots[PARTY_LEN - 1];
        last.disabled = true;
        self.party_slots.set(PARTY_LEN - 1, last);
        proof {
            lemma_first_disabled_local(self.party_slots@, s, PARTY_LEN as int, SLOT_SEARCH_END as int);
        }
        self.insert_slot_at_top_of_reserve(PartySlot::new(character_id, false));
    }

    /// Puts a character that holds no slot into the first disabled reserve slot, which is
    /// enabled, and marks it recruited. Nothing happens where the character holds a slot.
    pub fn add_character_to_reserve(&mut self, character_id: CharacterId)
        requires
            old(self).wf(),
            first_holder(old(self).slots(), character_id, 0, SLOT_COUNT as int) is None ==> reserve_gap(
                old(self).slots(),
            ) is Some && old(self).roster().contains_key(character_id),
        ensures
            final(self).wf(),
            first_holder(old(self).slots(), character_id, 0, SLOT_COUNT as int) is Some ==> final(self).slots()
                == old(self).slots() && final(self).roster() == old(self).roster(),
            first_holder(old(self).slots(), character_id, 0, SLOT_COUNT as int) is None ==> final(self).slots()
                == old(self).slots().update(
                reserve_gap(old(self).slots()).unwrap(),
                PartySlot { disabled: false, ..old(self).slots()[reserve_gap(old(self).slots()).unwrap()] },
            ) && final(self).roster() == old(self).roster().insert(
                character_id,
                recruited(old(self).roster()[character_id]),
            ),
            final(self).items_held() == old(self).items_held(),
            final(self).gold_amount() == old(self).gold_amount(),
    {
        if self.find_character_index(character_id).is_some() {
            return;
        }
        let ghost s = self.party_slots@;
        proof {
            lemma_first_disabled(s, PARTY_LEN as int, SLOT_SEARCH_END as int);
        }
        let mut i: usize = PARTY_LEN;
        while i < SLOT_SEARCH_END
            invariant
                PARTY_LEN <= i <= SLOT_SEARCH_END,
                self.party_slots@ == s,
                s.len() == SLOT_COUNT,
                self.characters@ == old(self).characters@,
                self.inventory@ == old(self).inventory@,
                self.gold == old(self).gold,
                s == old(self).party_slots@,
                first_holder(s, character_id, 0, SLOT_COUNT as int) is None,
                old(self).characters@.contains_key(character_id),
                reserve_gap(s) is Some,
                PARTY_LEN <= reserve_gap(s).unwrap() < s.len(),
                s[reserve_gap(s).unwrap()].disabled,
                forall|k: int| PARTY_LEN <= k < reserve_gap(s).unwrap() ==> !(#[trigger] s[k]).disabled,
                i <= reserve_gap(s).unwrap(),
            decreases SLOT_SEARCH_END - i,
        {
            let slot = self.party_slots[i];
            if slot.disabled {
                self.recruit_character_at_index(i, character_id);
                return;
            }
            i = i + 1;
        }
    }

    /// Whether a character is known and recruited.
    pub fn is_character_recruited(&self, character_id: CharacterId) -> (b: bool)
        ensures
            b == (self.roster().contains_key(character_id)
                && self.roster()[character_id].party_state != CharacterPartyState::Unavailable),
    {
        match self.characters.get(&character_id) {
            Some(c) => c.party_state != CharacterPartyState::Unavailable,
            None => false,
        }
    }

    /// Adds gold.
    pub fn gold_give(&mut self, amount: u32)
        requires
            old(self).gold_amount() + amount <= u32::MAX,
        ensures
            final(self).gold_amount() == old(self).gold_amount() + amount,
            final(self).roster() == old(self).roster(),
            final(self).slots() == old(self).slots(),
            final(self).wf() == old(self).wf(),
            final(self).items_held() == old(self).items_held(),
    {
        self.gold = self.gold + amount;
    }

    /// Takes gold away.
    pub fn gold_take(&mut self, amount: u32)
        requires
            old(self).gold_amount() >= amount,
        ensures
            final(self).gold_amount() == old(self).gold_amount() - amount,
            final(self).roster() == old(self).roster(),
            final(self).slots() == old(self).slots(),
            final(self).wf() == old(self).wf(),
            final(self).items_held() == old(self).items_held(),
    {
        self.gold = self.gold - amount;
    }

    /// A known character.
    pub fn get_character(&self, character_id: CharacterId) -> (c: Option<&Character>)
        ensures
            match c {
                Some(c) => self.roster().contains_key(character_id) && *c == self.roster()[character_id],
                None => !self.roster().contains_key(character_id),
            },
    {
        self.characters.get(&character_id)
    }

    /// All slots, in order.
    pub fn get_party_slots(&self) -> (slots: &[PartySlot])
        ensures
            slots@ == self.slots(),
    {
        self.party_slots.as_slice()
    }

    /// The slots of the active party, in order.
    pub fn get_active_party_slots(&self) -> (slots: Vec<PartySlot>)
        requires
            self.wf(),
        ensures
            slots@ == self.slots().subrange(0, PARTY_LEN as int),
    {
        let mut slots: Vec<PartySlot> = Vec::with_capacity(PARTY_LEN);
        let mut i: usize = 0;
        while i < PARTY_LEN
            invariant
                i <= PARTY_LEN,
                self.party_slots@.len() == SLOT_COUNT,
                slots@ == self.party_slots@.subrange(0, i as int),
            decreases PARTY_LEN - i,
        {
            slots.push(self.party_slots[i]);
            i = i + 1;
        }
        slots
    }
}

} // verus!

verus! {

/// A character brought into the party holds a slot of the active party afterwards.
pub proof fn law_added_character_is_active(slots: Seq<PartySlot>, character_id: CharacterId)
    requires
        slots.len() == SLOT_COUNT,
    ensures
        added_to_party(slots, character_id).len() == SLOT_COUNT,
        first_holder(added_to_party(slots, character_id), character_id, 0, PARTY_LEN as int) is Some,
{
    let d = deactivated(slots, character_id);
    let r = added_to_party(slots, character_id);
    lemma_first_holder(slots, character_id, 0, slots.len() as int);
    assert(d.len() == slots.len());
    lemma_first_vacated(d, character_id, 0, PARTY_LEN as int);
    lemma_first_holder(r, character_id, 0, PARTY_LEN as int);
    match first_vacated(d, character_id, 0, PARTY_LEN as int) {
        Some(i) => {
            assert(holds(r[i], character_id));
        },
        None => {
            let d2 = d.update(PARTY_LEN - 1, PartySlot { character_id, disabled: false });
            assert(r == inserted_in_reserve(d2, d[PARTY_LEN - 1]));
            assert(r.len() == d2.len());
            assert(r[PARTY_LEN - 1] == d2[PARTY_LEN - 1]);
            assert(holds(r[PARTY_LEN - 1], character_id));
        },
    }
}

/// A character moved out of the active party tops the reserve afterwards, and the last party
/// slot is disabled.
pub proof fn law_moved_character_tops_reserve(slots: Seq<PartySlot>, character_id: CharacterId)
    requires
        slots.len() == SLOT_COUNT,
        first_holder(slots, character_id, 0, PARTY_LEN as int) is Some,
    ensures
        ({
            let r = moved_into_reserve(slots, first_holder(slots, character_id, 0, PARTY_LEN as int).unwrap(), character_id);
            &&& r.len() == SLOT_COUNT
            &&& r[PARTY_LEN as int] == PartySlot { character_id, disabled: false }
            &&& r[PARTY_LEN - 1].disabled
        }),
{
    lemma_first_holder(slots, character_id, 0, PARTY_LEN as int);
    let i = first_holder(slots, character_id, 0, PARTY_LEN as int).unwrap();
    let shifted = Seq::new(
        slots.len(),
        |k: int|
            if i <= k < PARTY_LEN - 1 {
                slots[k + 1]
            } else {
                slots[k]
            },
    );
    let closed = shifted.update(PARTY_LEN - 1, PartySlot { disabled: true, ..shifted[PARTY_LEN - 1] });
    let r = moved_into_reserve(slots, i, character_id);
    assert(r == inserted_in_reserve(closed, PartySlot { character_id, disabled: false }));
    lemma_first_disabled(closed, PARTY_LEN as int, SLOT_SEARCH_END as int);
    assert(closed[PARTY_LEN - 1].disabled);
    assert(r[PARTY_LEN - 1] == closed[PARTY_LEN - 1]);
}

} // verus!
