//! Sprite drawing order relative to the map layers.
use vstd::prelude::*;

verus! {

/// Where sprites are drawn among the map layers.
#[derive(Clone, Copy, PartialEq, Eq, Structural, Debug)]
pub enum SpritePriority {
    BelowAll,
    BelowL1L2,
    BelowL2AboveL1,
    AboveAll,
}

} // verus!

verus! {

/// The number of directions a sprite animation has frames for.
pub const FACING_COUNT: usize = 4;

/// Sprite assembly chip bits.
pub const CHIP_FLIP_X: u32 = 0x01;
pub const CHIP_FLIP_Y: u32 = 0x02;
pub const CHIP_UNUSED: u32 = 0x04;
pub const CHIP_UNKNOWN: u32 = 0x08;
pub const CHIP_IS_TOP: u32 = 0x10;
pub const CHIP_IS_BOTTOM: u32 = 0x20;

/// What a sprite is made of: its graphics, assembly, palette and animations.
#[derive(Clone, Copy, PartialEq, Eq, Structural, Debug)]
pub struct SpriteHeader {
    pub index: usize,
    pub bitmap_index: usize,
    pub assembly_index: usize,
    pub palette_index: usize,
    pub size_flags: u32,
    pub anim_index: usize,
    pub flags: u32,
    pub hand_x: i32,
    pub hand_y: i32,
    pub enemy_unknown1: u32,
    pub enemy_unknown2: u32,
    pub enemy_unknown3: u32,
}

/// How a sprite's animation runs: not at all (the movement animations take over), frozen on
/// one frame, looping, or looping a number of times.
#[derive(Clone, Copy, PartialEq, Eq, Structural, Debug)]
pub enum AnimationMode {
    Stopped,
    Static,
    Loop,
    LoopCount,
}

/// One frame of a sprite animation: the assembly frame for each direction and how many 60ths
/// of a second it shows.
#[derive(Clone, Copy, Debug)]
pub struct SpriteAnimFrame {
    pub sprite_frames: [usize; 4],
    pub delay: u32,
}

/// A sprite animation.
pub struct SpriteAnim {
    pub frames: Vec<SpriteAnimFrame>,
}

/// The animations of a sprite.
pub struct SpriteAnimSet {
    pub index: usize,
    pub anims: Vec<SpriteAnim>,
}

impl SpriteAnimSet {
    /// An empty set.
    pub fn new(index: usize) -> (set: SpriteAnimSet)
        ensures
            set.index == index,
            set.anims@.len() == 0,
    {
        SpriteAnimSet { index, anims: Vec::new() }
    }

    /// The animation at an index, if the set has one there.
    pub fn get_anim(&self, index: usize) -> (anim: Option<&SpriteAnim>)
        ensures
            index < self.anims@.len() ==> anim == Some(&self.anims@[index as int]),
            index >= self.anims@.len() ==> anim is None,
    {
        if index < self.anims.len() {
            Some(&self.anims[index])
        } else {
            None
        }
    }

    /// Adds an animation at the end.
    pub fn add_anim(&mut self, anim: SpriteAnim)
        ensures
            final(self).index == old(self).index,
            final(self).anims@ == old(self).anims@.push(anim),
    {
        self.anims.push(anim);
    }
}

/// A chip of a sprite assembly frame: where it is in the graphics and where it is drawn.
#[derive(Clone, Copy, PartialEq, Eq, Structural, Debug)]
pub struct SpriteAssemblyChip {
    pub src_index: usize,
    pub x: i32,
    pub y: i32,
    pub src_x: i32,
    pub src_y: i32,
    pub width: i32,
    pub height: i32,
    pub flags: u32,
}

/// The chips of one frame of a sprite.
pub struct SpriteAssemblyFrame {
    pub chips: Vec<SpriteAssemblyChip>,
}

impl SpriteAssemblyFrame {
    /// A frame without chips.
    pub fn new() -> (f: SpriteAssemblyFrame)
        ensures
            f.chips@.len() == 0,
    {
        SpriteAssemblyFrame { chips: Vec::new() }
    }
}

/// A sprite assembly: the keys of its frames and the highest chip index they use.
pub struct SpriteAssembly {
    pub index: usize,
    pub chip_max: usize,
    pub frame_keys: Vec<u64>,
}

} // verus!
