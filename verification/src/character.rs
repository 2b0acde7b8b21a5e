//! Playable characters: their statistics, equipment and status.
use crate::items::ItemId;
use crate::party::CharacterPartyState;
use vstd::prelude::*;

verus! {

/// Identifies a playable character.
pub type CharacterId = usize;

/// Identifies a set of statistic modifiers.
pub type StatsModifierId = usize;

/// A status effect on a character.
#[derive(Clone, Copy, PartialEq, Eq, Structural, Debug, Hash)]
pub enum StatusEffect {
    NoEffect,
    Berserk,
    Haste,
    Lifeline,
    Safe,
    Shield,
    AttackUp,
    MaxAttackUp,
    Seraph,
    Chaos,
    Darkness,
    Lock,
    Poison,
    Sleep,
    Slow,
    Stop,
}

/// A character statistic.
#[derive(Clone, Copy, PartialEq, Eq, Structural, Debug)]
pub enum Stat {
    Power,
    Speed,
    HitChance,
    Evade,
    Magic,
    Stamina,
    MagicDefense,
}

/// A change to one statistic.
pub struct StatsModifierStat {
    stat: Stat,
    modifier: i32,
}

/// A set of statistic changes.
pub struct StatsModifier {
    id: StatsModifierId,
    modifiers: Vec<StatsModifierStat>,
}

/// Where an item is equipped.
#[derive(Clone, Copy, PartialEq, Eq, Structural, Debug)]
pub enum EquipmentSlot {
    Weapon,
    Armor,
    Helmet,
    Accessory,
}

/// The items a character has equipped.
#[derive(Clone, Copy, PartialEq, Eq, Structural, Debug)]
pub struct CharacterEquipment {
    pub weapon: Option<ItemId>,
    pub armor: Option<ItemId>,
    pub helmet: Option<ItemId>,
    pub accessory: Option<ItemId>,
}

/// A character's base statistics.
#[derive(Clone, Copy, PartialEq, Eq, Structural, Debug)]
pub struct CharacterStats {
    pub power: u32,
    pub speed: u32,
    pub hit_chance: u32,
    pub evade: u32,
    pub magic: u32,
    pub stamina: u32,
    pub magic_defense: u32,
}

/// A playable character.
pub struct Character {
    pub id: CharacterId,
    pub name: String,
    pub text_key: String,
    pub party_state: CharacterPartyState,
    pub hp: u32,
    pub mp: u32,
    pub xp: u32,
    pub level: u32,
    pub stats: CharacterStats,
    pub equipment: CharacterEquipment,
    pub status: StatusEffect,
}

/// No items equipped.
pub open spec fn no_equipment() -> CharacterEquipment {
    CharacterEquipment { weapon: None, armor: None, helmet: None, accessory: None }
}

/// The equipment after putting `item_id` into `slot`.
pub open spec fn equipped(e: CharacterEquipment, slot: EquipmentSlot, item_id: Option<ItemId>) -> CharacterEquipment {
    match slot {
        EquipmentSlot::Weapon => CharacterEquipment { weapon: item_id, ..e },
        EquipmentSlot::Helmet => CharacterEquipment { helmet: item_id, ..e },
        EquipmentSlot::Armor => CharacterEquipment { armor: item_id, ..e },
        EquipmentSlot::Accessory => CharacterEquipment { accessory: item_id, ..e },
    }
}

/// Puts `item_id` into `slot` of a character's equipment.
pub fn equip(e: &mut CharacterEquipment, slot: EquipmentSlot, item_id: Option<ItemId>)
    ensures
        *final(e) == equipped(*old(e), slot, item_id),
{
    match slot {
        EquipmentSlot::Weapon => e.weapon = item_id,
        EquipmentSlot::Helmet => e.helmet = item_id,
        EquipmentSlot::Armor => e.armor = item_id,
        EquipmentSlot::Accessory => e.accessory = item_id,
    }
}

/// A character at level 1 with no experience, no equipment and no status effect, with the
/// given name, text key, party state, hit points, magic points and statistics.
pub fn new_character(
    id: CharacterId,
    name: &str,
    text_key: &str,
    party_state: CharacterPartyState,
    hp: u32,
    mp: u32,
    stats: CharacterStats,
) -> (c: Character)
    ensures
        c.id == id,
        c.name@ == name@,
        c.text_key@ == text_key@,
        c.party_state == party_state,
        c.hp == hp,
        c.mp == mp,
        c.xp == 0,
        c.level == 1,
        c.stats == stats,
        c.equipment == no_equipment(),
        c.status == StatusEffect::NoEffect,
{
    Character {
        id,
        name: name.to_owned(),
        text_key: text_key.to_owned(),
        party_state,
        level: 1,
        xp: 0,
        status: StatusEffect::NoEffect,
        hp,
        mp,
        stats,
        equipment: CharacterEquipment { armor: None, helmet: None, weapon: None, accessory: None },
    }
}

} // verus!
