//! Loaded sprite assets, kept by key: sprite descriptions, assemblies and their frames,
//! palettes, bitmaps and animation sets.
use crate::bitmap::Bitmap;
use crate::palette::Palette;
use crate::sprites::{SpriteAnimSet, SpriteAssembly, SpriteAssemblyFrame};
use std::collections::HashMap;
use vstd::prelude::*;

verus! {

broadcast use vstd::std_specs::hash::group_hash_axioms;

/// The assets a sprite is drawn from, by key.
#[derive(Clone, Copy, PartialEq, Eq, Structural, Debug)]
pub struct SpriteInfo {
    pub index: usize,
    pub tiles_bitmap_key: u64,
    pub assembly_key: u64,
    pub palette_key: u64,
    pub anim_set_index: usize,
}

/// The key space of assets that scenes load.
pub const SCENE_ASSET_KEY: u64 = 0x1000000000000000;

/// The key space of assets that worlds load.
pub const WORLD_ASSET_KEY: u64 = 0x2000000000000000;

/// The key of a scene sprite assembly frame.
pub open spec fn frame_key(assembly_index: usize, frame_index: usize) -> u64 {
    SCENE_ASSET_KEY | (frame_index as u64) | ((assembly_index as u64) << 32u64)
}

/// The key of a scene asset with an index.
pub open spec fn scene_key(index: usize) -> u64 {
    SCENE_ASSET_KEY | (index as u64)
}

/// `m` with each pair of `pairs` inserted in turn.
pub open spec fn with_frames(m: Map<u64, SpriteAssemblyFrame>, pairs: Seq<(u64, SpriteAssemblyFrame)>) -> Map<u64, SpriteAssemblyFrame>
    decreases pairs.len(),
{
    if pairs.len() == 0 {
        m
    } else {
        with_frames(m, pairs.drop_last()).insert(pairs.last().0, pairs.last().1)
    }
}

/// Sprite assets by key.
pub struct Assets {
    sprite_info: HashMap<u64, SpriteInfo>,
    assembly_frames: HashMap<u64, SpriteAssemblyFrame>,
    assemblies: HashMap<u64, SpriteAssembly>,
    palettes: HashMap<u64, Palette>,
    bitmaps: HashMap<u64, Bitmap>,
    anim_sets: HashMap<usize, SpriteAnimSet>,
}

/// `HashMap::get_mut` on a key that the map holds: the documentation states that it gives a
/// mutable reference to the key's value, so the map holds whatever the reference holds at the
/// end.
#[verifier::external_body]
fn palette_in_map(palettes: &mut HashMap<u64, Palette>, key: u64) -> (palette: &mut Palette)
    requires
        old(palettes)@.contains_key(key),
    ensures
        *palette == old(palettes)@[key],
        final(palettes)@ == old(palettes)@.insert(key, *final(palette)),
{
    palettes.get_mut(&key).unwrap()
}

impl Assets {
    /// The sprite descriptions by key.
    pub closed spec fn sprite_infos(&self) -> Map<u64, SpriteInfo> {
        self.sprite_info@
    }

    /// The assembly frames by key.
    pub closed spec fn frames(&self) -> Map<u64, SpriteAssemblyFrame> {
        self.assembly_frames@
    }

    /// The assemblies by key.
    pub closed spec fn assembly_map(&self) -> Map<u64, SpriteAssembly> {
        self.assemblies@
    }

    /// The palettes by key.
    pub closed spec fn palette_map(&self) -> Map<u64, Palette> {
        self.palettes@
    }

    /// The bitmaps by key.
    pub closed spec fn bitmap_map(&self) -> Map<u64, Bitmap> {
        self.bitmaps@
    }

    /// The animation sets by index.
    pub closed spec fn anim_set_map(&self) -> Map<usize, SpriteAnimSet> {
        self.anim_sets@
    }

    /// No assets but the animation sets, which are read up front.
    pub fn new(anim_sets: HashMap<usize, SpriteAnimSet>) -> (a: Assets)
        ensures
            a.anim_set_map() == anim_sets@,
            a.sprite_infos() == Map::<u64, SpriteInfo>::empty(),
            a.frames() == Map::<u64, SpriteAssemblyFrame>::empty(),
            a.assembly_map() == Map::<u64, SpriteAssembly>::empty(),
            a.palette_map() == Map::<u64, Palette>::empty(),
            a.bitmap_map() == Map::<u64, Bitmap>::empty(),
    {
        Assets {
            sprite_info: HashMap::new(),
            assembly_frames: HashMap::new(),
            assemblies: HashMap::new(),
            palettes: HashMap::new(),
            bitmaps: HashMap::new(),
            anim_sets,
        }
    }

    /// A loaded sprite description.
    pub fn get_sprite_info(&self, sprite_info_key: u64) -> (info: &SpriteInfo)
        requires
            self.sprite_infos().contains_key(sprite_info_key),
        ensures
            *info == self.sprite_infos()[sprite_info_key],
    {
        self.sprite_info.get(&sprite_info_key).unwrap()
    }

    /// A loaded animation set.
    pub fn get_anim_set(&self, anim_set_index: usize) -> (set: &SpriteAnimSet)
        requires
            self.anim_set_map().contains_key(anim_set_index),
        ensures
            *set == self.anim_set_map()[anim_set_index],
    {
        self.anim_sets.get(&anim_set_index).unwrap()
    }

    /// A loaded assembly frame.
    pub fn get_assembly_frame(&self, assembly_frame_key: u64) -> (frame: &SpriteAssemblyFrame)
        requires
            self.frames().contains_key(assembly_frame_key),
        ensures
            *frame == self.frames()[assembly_frame_key],
    {
        self.assembly_frames.get(&assembly_frame_key).unwrap()
    }

    /// A loaded assembly.
    pub fn get_assembly(&self, assembly_key: u64) -> (assembly: &SpriteAssembly)
        requires
            self.assembly_map().contains_key(assembly_key),
        ensures
            *assembly == self.assembly_map()[assembly_key],
    {
        self.assemblies.get(&assembly_key).unwrap()
    }

    /// A loaded bitmap.
    pub fn get_bitmap(&self, bitmap_key: u64) -> (bitmap: &Bitmap)
        requires
            self.bitmap_map().contains_key(bitmap_key),
        ensures
            *bitmap == self.bitmap_map()[bitmap_key],
    {
        self.bitmaps.get(&bitmap_key).unwrap()
    }

    /// A loaded palette.
    pub fn get_palette(&self, palette_key: u64) -> (palette: &Palette)
        requires
            self.palette_map().contains_key(palette_key),
        ensures
            *palette == self.palette_map()[palette_key],
    {
        self.palettes.get(&palette_key).unwrap()
    }

    /// A loaded palette, to change in place.
    pub fn get_palette_mut(&mut self, palette_key: u64) -> (palette: &mut Palette)
        requires
            old(self).palette_map().contains_key(palette_key),
        ensures
            *palette == old(self).palette_map()[palette_key],
            final(self).palette_map() == old(self).palette_map().insert(palette_key, *final(palette)),
            final(self).sprite_infos() == old(self).sprite_infos(),
            final(self).frames() == old(self).frames(),
            final(self).assembly_map() == old(self).assembly_map(),
            final(self).bitmap_map() == old(self).bitmap_map(),
            final(self).anim_set_map() == old(self).anim_set_map(),
    {
        palette_in_map(&mut self.palettes, palette_key)
    }

    /// Replaces the colors of a loaded palette.
    pub fn set_palette(&mut self, palette_key: u64, palette: Palette)
        requires
            old(self).palette_map().contains_key(palette_key),
        ensures
            final(self).palette_map() == old(self).palette_map().insert(palette_key, palette),
            final(self).sprite_infos() == old(self).sprite_infos(),
            final(self).frames() == old(self).frames(),
            final(self).assembly_map() == old(self).assembly_map(),
            final(self).bitmap_map() == old(self).bitmap_map(),
            final(self).anim_set_map() == old(self).anim_set_map(),
    {
        self.palettes.insert(palette_key, palette);
    }

    /// Whether a sprite description is loaded.
    pub fn has_sprite_info(&self, key: u64) -> (b: bool)
        ensures
            b == self.sprite_infos().contains_key(key),
    {
        self.sprite_info.contains_key(&key)
    }

    /// Whether an assembly is loaded.
    pub fn has_assembly(&self, key: u64) -> (b: bool)
        ensures
            b == self.assembly_map().contains_key(key),
    {
        self.assemblies.contains_key(&key)
    }

    /// Whether a palette is loaded.
    pub fn has_palette(&self, key: u64) -> (b: bool)
        ensures
            b == self.palette_map().contains_key(key),
    {
        self.palettes.contains_key(&key)
    }

    /// Whether a bitmap is loaded.
    pub fn has_bitmap(&self, key: u64) -> (b: bool)
        ensures
            b == self.bitmap_map().contains_key(key),
    {
        self.bitmaps.contains_key(&key)
    }

    /// Keeps a sprite description.
    pub fn insert_sprite_info(&mut self, key: u64, info: SpriteInfo)
        ensures
            final(self).sprite_infos() == old(self).sprite_infos().insert(key, info),
            final(self).frames() == old(self).frames(),
            final(self).assembly_map() == old(self).assembly_map(),
            final(self).palette_map() == old(self).palette_map(),
            final(self).bitmap_map() == old(self).bitmap_map(),
            final(self).anim_set_map() == old(self).anim_set_map(),
    {
        self.sprite_info.insert(key, info);
    }

    /// Keeps an assembly and its frames, given as key and frame, in order; a frame replaces one
    /// kept under the same key.
    pub fn insert_assembly(&mut self, key: u64, assembly: SpriteAssembly, frames: Vec<(u64, SpriteAssemblyFrame)>)
        ensures
            final(self).assembly_map() == old(self).assembly_map().insert(key, assembly),
            final(self).frames() == with_frames(old(self).frames(), frames@),
            final(self).sprite_infos() == old(self).sprite_infos(),
            final(self).palette_map() == old(self).palette_map(),
            final(self).bitmap_map() == old(self).bitmap_map(),
            final(self).anim_set_map() == old(self).anim_set_map(),
    {
        let ghost start = self.assembly_frames@;
        let ghost all = frames@;
        let mut rest = frames;
        let ghost mut taken: Seq<(u64, SpriteAssemblyFrame)> = Seq::empty();
        while rest.len() > 0
            invariant
                all == taken + rest@,
                self.assembly_frames@ == with_frames(start, taken),
                self.sprite_info@ == old(self).sprite_info@,
                self.assemblies@ == old(self).assemblies@,
                self.palettes@ == old(self).palettes@,
                self.bitmaps@ == old(self).bitmaps@,
                self.anim_sets@ == old(self).anim_sets@,
            decreases rest@.len(),
        {
            let ghost before = rest@;
            let (k, frame) = rest.remove(0);
            let ghost pair = (k, frame);
            self.assembly_frames.insert(k, frame);
            proof {
                let prior = taken;
                taken = taken.push(pair);
                assert(before =~= seq![pair] + rest@);
                assert(all =~= taken + rest@);
                assert(taken.drop_last() =~= prior);
            }
        }
        assert(taken =~= all);
        self.assemblies.insert(key, assembly);
    }

    /// Keeps a palette.
    pub fn insert_palette(&mut self, key: u64, palette: Palette)
        ensures
            final(self).palette_map() == old(self).palette_map().insert(key, palette),
            final(self).sprite_infos() == old(self).sprite_infos(),
            final(self).frames() == old(self).frames(),
            final(self).assembly_map() == old(self).assembly_map(),
            final(self).bitmap_map() == old(self).bitmap_map(),
            final(self).anim_set_map() == old(self).anim_set_map(),
    {
        self.palettes.insert(key, palette);
    }

    /// Keeps a bitmap.
    pub fn insert_bitmap(&mut self, key: u64, bitmap: Bitmap)
        ensures
            final(self).bitmap_map() == old(self).bitmap_map().insert(key, bitmap),
            final(self).sprite_infos() == old(self).sprite_infos(),
            final(self).frames() == old(self).frames(),
            final(self).assembly_map() == old(self).assembly_map(),
            final(self).palette_map() == old(self).palette_map(),
            final(self).anim_set_map() == old(self).anim_set_map(),
    {
        self.bitmaps.insert(key, bitmap);
    }

    /// The key of a scene sprite assembly frame.
    pub fn asset_key_sprite_assembly_frame_scene(assembly_index: usize, frame_index: usize) -> (key: u64)
        ensures
            key == frame_key(assembly_index, frame_index),
    {
        SCENE_ASSET_KEY | (frame_index as u64) | ((assembly_index as u64) << 32)
    }

    /// The key of a world sprite assembly frame, by its address.
    pub fn asset_key_sprite_assembly_frame_world(frame_address: u64) -> (key: u64)
        ensures
            key == WORLD_ASSET_KEY | frame_address,
    {
        WORLD_ASSET_KEY | frame_address
    }

    /// The key of a scene sprite palette.
    pub fn asset_key_palette_sprite_scene(palette_index: usize) -> (key: u64)
        ensures
            key == scene_key(palette_index),
    {
        SCENE_ASSET_KEY | (palette_index as u64)
    }

    /// The key of a sprite assembly.
    pub fn asset_key_sprite_assembly(assembly: usize) -> (key: u64)
        ensures
            key == scene_key(assembly),
    {
        SCENE_ASSET_KEY | (assembly as u64)
    }

    /// The key of a sprite description.
    pub fn asset_key_sprite_info(sprite_index: usize) -> (key: u64)
        ensures
            key == scene_key(sprite_index),
    {
        SCENE_ASSET_KEY | (sprite_index as u64)
    }

    /// The key of a sprite's graphics.
    pub fn asset_key_bitmap_sprite_tiles(sprite_index: usize) -> (key: u64)
        ensures
            key == scene_key(sprite_index),
    {
        SCENE_ASSET_KEY | (sprite_index as u64)
    }
}

/// Frames of one assembly have keys of their own: frame keys differ where the frame indices,
/// below 2^32, do.
pub proof fn law_frame_keys_distinct(assembly_index: usize, f1: usize, f2: usize)
    requires
        f1 < 0x1_0000_0000,
        f2 < 0x1_0000_0000,
        f1 != f2,
    ensures
        frame_key(assembly_index, f1) != frame_key(assembly_index, f2),
{
    let a = assembly_index as u64;
    let x = f1 as u64;
    let y = f2 as u64;
    assert(x < 0x1_0000_0000 && y < 0x1_0000_0000 && x != y ==> (SCENE_ASSET_KEY | x | (a << 32u64)) != (
    SCENE_ASSET_KEY | y | (a << 32u64))) by (bit_vector);
}

} // verus!
