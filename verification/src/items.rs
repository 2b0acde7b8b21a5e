//! Item identifiers, item flag bits, and the parts of item definitions that modifiers use.
use vstd::prelude::*;

verus! {

/// Identifies an item.
pub type ItemId = usize;

/// Identifies an item modifier.
pub type ItemModifierId = usize;

/// Item flag bits.
pub const ITEM_UNKNOWN_01: u32 = 0x0001;
pub const ITEM_USABLE_IN_MENU: u32 = 0x0002;
pub const ITEM_CANNOT_SELL: u32 = 0x0004;
pub const ITEM_QUEST: u32 = 0x0008;
pub const ITEM_NO_NEW_GAME_PLUS: u32 = 0x0010;
pub const ITEM_UNKNOWN_20: u32 = 0x0020;
pub const ITEM_UNKNOWN_40: u32 = 0x0040;
pub const ITEM_USABLE_IN_BATTLE: u32 = 0x0040;

/// Accessory flag bits.
pub const ACCESSORY_AFFECTS_GOLD: u32 = 0x0001;
pub const ACCESSORY_AFFECTS_MP: u32 = 0x0020;
pub const ACCESSORY_AFFECTS_COUNTER: u32 = 0x0040;
pub const ACCESSORY_AFFECTS_HP: u32 = 0x1000;
pub const ACCESSORY_AFFECTS_STATS: u32 = 0x4000;
pub const ACCESSORY_AFFECTS_STATUS: u32 = 0x8000;

/// Consumable flag bits.
pub const CONSUMABLE_TARGET_ALL: u32 = 0x01;
pub const CONSUMABLE_REMOVE_ALL_STATUSES: u32 = 0x02;
pub const CONSUMABLE_UNKNOWN: u32 = 0x04;
pub const CONSUMABLE_REVIVES: u32 = 0x08;
pub const CONSUMABLE_REQUIRE_SAVE_POINT: u32 = 0x10;

/// When an item modifier applies.
pub enum ModifierCondition {
    EnemyType { is_type: usize },
    SightScopeRelicFail,
    BossDeath,
}

/// Elements that armor protects against.
#[derive(Clone, Copy, PartialEq, Eq, Structural, Debug, Hash)]
pub enum Element {
    Lightning,
    Ice,
    Fire,
    Water,
    Shadow,
}

} // verus!
