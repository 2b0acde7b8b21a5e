//! World map actors: their class, debug marker and state flags.
use vstd::prelude::*;

verus! {

/// The marker drawn over an actor in debug views.
#[derive(Clone, Copy, PartialEq, Eq, Structural, Debug)]
pub enum DebugSprite {
    Hidden,
    Moving,
    Waiting,
    Animating,
}

/// The kind of actor.
#[derive(Clone, Copy, PartialEq, Eq, Structural, Debug)]
pub enum ActorClass {
    Unclassified,
    PC1,
    PC2,
    PC3,
    PCOutOfParty,
    NPC,
    Monster,
    MonsterPeaceful,
}

/// Actor flag bits.
pub const ACTOR_SCRIPT_DISABLED: u32 = 0x0001;
pub const ACTOR_VISIBLE: u32 = 0x0002;
pub const ACTOR_RENDERED: u32 = 0x0004;
pub const ACTOR_SOLID: u32 = 0x0008;
pub const ACTOR_CALLS_ENABLED: u32 = 0x0010;
pub const ACTOR_COLLISION_WITH_TILES: u32 = 0x0020;
pub const ACTOR_COLLISION_AVOID_PC: u32 = 0x0040;
pub const ACTOR_MOVE_ONTO_TILE: u32 = 0x0080;
pub const ACTOR_MOVE_AROUND_SOLID_ACTORS: u32 = 0x0100;
pub const ACTOR_IN_BATTLE: u32 = 0x0200;
pub const ACTOR_PUSHABLE: u32 = 0x0400;
pub const ACTOR_BATTLE_STATIC: u32 = 0x0800;
pub const ACTOR_DEAD: u32 = 0x1000;

} // verus!
