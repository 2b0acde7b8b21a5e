//! The decisions of the world map view: memory set up on entering and leaving, how world actors
//! are drawn, what keys do and which exit lies under the mouse.
use crate::map_renderer::{MapRenderer, LAYER_1, LAYER_2, LAYER_3, LAYER_SPRITES};
use crate::memory::{mapped, Memory};
use crate::sprites::SpritePriority;
use crate::util::vec2di32::Vec2Di32;
use crate::world::world_exit::WorldExit;
use vstd::prelude::*;

verus! {

/// Where the world scripts keep the story flags.
pub const WORLD_STORY_FLAGS: usize = 0x7E1BA7;

/// Where the scene scripts keep the story flags.
pub const SCENE_STORY_FLAGS: usize = 0x7F01F0;

/// How many bytes of story flags there are.
pub const STORY_FLAG_COUNT: usize = 0x0F;

/// The memory on entering a world: two world variables are cleared, the story flags are copied
/// from the scene storage to the world's, and the first global byte is copied next to them.
pub open spec fn entered_world_byte(m: Memory, a: int) -> u8 {
    if a == 0x7E1B59 || a == 0x7E1BF7 {
        0
    } else if WORLD_STORY_FLAGS <= a < WORLD_STORY_FLAGS + STORY_FLAG_COUNT {
        m.byte(a - WORLD_STORY_FLAGS + SCENE_STORY_FLAGS)
    } else if a == 0x7E1BA6 {
        m.byte(0x7F0000)
    } else {
        m.byte(a)
    }
}

/// Sets up memory for a world that is entered.
pub fn enter_world_memory(memory: &mut Memory)
    requires
        old(memory).wf(),
    ensures
        final(memory).wf(),
        forall|a: int| #[trigger] final(memory).byte(a) == entered_world_byte(*old(memory), a),
{
    memory.put_u8(0x7E1B59, 0);
    memory.put_u8(0x7E1BF7, 0);
    let story_flags = memory.get_bytes(SCENE_STORY_FLAGS, STORY_FLAG_COUNT);
    let ghost after_clear = *memory;
    memory.put_bytes(WORLD_STORY_FLAGS, story_flags.as_slice());
    let first = memory.get_u8(0x7F0000);
    memory.put_u8(0x7E1BA6, first);
    assert forall|a: int| #[trigger] memory.byte(a) == entered_world_byte(*old(memory), a) by {
        if WORLD_STORY_FLAGS <= a < WORLD_STORY_FLAGS + STORY_FLAG_COUNT {
            assert(mapped(a));
            assert(after_clear.byte(a - WORLD_STORY_FLAGS + SCENE_STORY_FLAGS) == old(memory).byte(a - WORLD_STORY_FLAGS + SCENE_STORY_FLAGS));
        }
    }
}

/// The memory on leaving a world: the story flags are copied back to the scene storage.
pub open spec fn left_world_byte(m: Memory, a: int) -> u8 {
    if SCENE_STORY_FLAGS <= a < SCENE_STORY_FLAGS + STORY_FLAG_COUNT {
        m.byte(a - SCENE_STORY_FLAGS + WORLD_STORY_FLAGS)
    } else {
        m.byte(a)
    }
}

/// Copies the story flags back to the scene storage as the world is left.
pub fn leave_world_memory(memory: &mut Memory)
    requires
        old(memory).wf(),
    ensures
        final(memory).wf(),
        forall|a: int| #[trigger] final(memory).byte(a) == left_world_byte(*old(memory), a),
{
    let story_flags = memory.get_bytes(WORLD_STORY_FLAGS, STORY_FLAG_COUNT);
    memory.put_bytes(SCENE_STORY_FLAGS, story_flags.as_slice());
    assert forall|a: int| #[trigger] memory.byte(a) == left_world_byte(*old(memory), a) by {
        if SCENE_STORY_FLAGS <= a < SCENE_STORY_FLAGS + STORY_FLAG_COUNT {
            assert(mapped(a));
        }
    }
}

/// Entering a world and leaving it again keeps the scene story flags as they were, and the
/// world's story flags then hold the same values.
pub proof fn law_story_flags_survive_world(before: Memory, inside: Memory, after: Memory)
    requires
        forall|a: int| #[trigger] inside.byte(a) == entered_world_byte(before, a),
        forall|a: int| #[trigger] after.byte(a) == left_world_byte(inside, a),
    ensures
        forall|i: int| 0 <= i < STORY_FLAG_COUNT ==> #[trigger] after.byte(SCENE_STORY_FLAGS + i) == before.byte(SCENE_STORY_FLAGS + i),
        forall|i: int| 0 <= i < STORY_FLAG_COUNT ==> #[trigger] after.byte(WORLD_STORY_FLAGS + i) == before.byte(SCENE_STORY_FLAGS + i),
{
    assert forall|i: int| 0 <= i < STORY_FLAG_COUNT implies #[trigger] after.byte(SCENE_STORY_FLAGS + i) == before.byte(SCENE_STORY_FLAGS + i) by {
        assert(after.byte(SCENE_STORY_FLAGS + i) == left_world_byte(inside, SCENE_STORY_FLAGS + i));
        assert(inside.byte(WORLD_STORY_FLAGS + i) == entered_world_byte(before, WORLD_STORY_FLAGS + i));
    }
    assert forall|i: int| 0 <= i < STORY_FLAG_COUNT implies #[trigger] after.byte(WORLD_STORY_FLAGS + i) == before.byte(SCENE_STORY_FLAGS + i) by {
        assert(after.byte(WORLD_STORY_FLAGS + i) == left_world_byte(inside, WORLD_STORY_FLAGS + i));
        assert(inside.byte(WORLD_STORY_FLAGS + i) == entered_world_byte(before, WORLD_STORY_FLAGS + i));
    }
}

/// How a world actor's sprite is drawn, from its palette and priority byte.
#[derive(Clone, Copy, PartialEq, Eq, Structural, Debug)]
pub struct WorldSpriteSetup {
    pub palette_offset: usize,
    pub camera_relative: bool,
    pub priority: SpritePriority,
}

/// The sprite priority that bits 4 and 5 of a world actor's palette and priority byte select.
pub open spec fn world_sprite_priority(palette_priority: u8) -> SpritePriority {
    let p = palette_priority & 0x30;
    if p == 0x30 {
        SpritePriority::AboveAll
    } else if p == 0x20 {
        SpritePriority::BelowL2AboveL1
    } else if p == 0x10 {
        SpritePriority::BelowL1L2
    } else {
        SpritePriority::BelowAll
    }
}

/// How a world actor's sprite is drawn: bits 1 to 3 of its byte pick a 16 color palette from
/// color 128 on, bit 0 makes it move with the camera, bits 4 and 5 give its priority.
pub fn world_sprite_setup(palette_priority: u8) -> (s: WorldSpriteSetup)
    ensures
        s.palette_offset == 128 + ((palette_priority >> 1u8) & 0x07) * 16,
        s.camera_relative == (palette_priority & 0x01 != 0),
        s.priority == world_sprite_priority(palette_priority),
{
    let priority = match palette_priority & 0x30 {
        0x30 => SpritePriority::AboveAll,
        0x20 => SpritePriority::BelowL2AboveL1,
        0x10 => SpritePriority::BelowL1L2,
        _ => SpritePriority::BelowAll,
    };
    assert((palette_priority >> 1u8) & 0x07 < 8) by (bit_vector);
    WorldSpriteSetup {
        palette_offset: 128 + ((palette_priority >> 1) & 0x07) as usize * 16,
        camera_relative: palette_priority & 0x01 != 0,
        priority,
    }
}

/// What the world view's debug overlay shows.
#[derive(Clone, Copy, PartialEq, Eq, Structural, Debug)]
pub enum WorldDebugLayer {
    Disabled,
    Solidity,
    Exits,
    Music,
}

/// The keys that the world view reacts to; every other key is `Other`.
#[derive(Clone, Copy, PartialEq, Eq, Structural, Debug)]
pub enum WorldKey {
    W,
    A,
    S,
    D,
    Num1,
    Num2,
    Num3,
    Num4,
    Num5,
    Z,
    X,
    C,
    V,
    Other,
}

/// What the world view does besides changing its own state after a key press.
#[derive(Clone, Copy, PartialEq, Eq, Structural, Debug)]
pub enum WorldKeyAction {
    Nothing,
    /// A map layer was switched; whether it is now drawn.
    LayerToggled { layer: u8, enabled: bool },
    /// The palette overlay was switched.
    PaletteToggled,
    /// A debug overlay was chosen.
    DebugLayerChosen { layer: WorldDebugLayer },
}

/// The held movement keys and the debug choices of the world view.
#[derive(Clone, Copy, PartialEq, Eq, Structural, Debug)]
pub struct WorldControls {
    pub key_up: bool,
    pub key_down: bool,
    pub key_left: bool,
    pub key_right: bool,
    pub debug_layer: WorldDebugLayer,
    pub debug_palette: bool,
}

/// The debug overlay that a key chooses, if it chooses one.
pub open spec fn world_key_debug_layer(key: WorldKey) -> Option<WorldDebugLayer> {
    match key {
        WorldKey::Z => Some(WorldDebugLayer::Disabled),
        WorldKey::X => Some(WorldDebugLayer::Solidity),
        WorldKey::C => Some(WorldDebugLayer::Exits),
        WorldKey::V => Some(WorldDebugLayer::Music),
        _ => None,
    }
}

/// The map layer that a key switches, if it switches one.
pub open spec fn world_key_map_layer(key: WorldKey) -> Option<u8> {
    match key {
        WorldKey::Num1 => Some(LAYER_1),
        WorldKey::Num2 => Some(LAYER_2),
        WorldKey::Num3 => Some(LAYER_3),
        WorldKey::Num4 => Some(LAYER_SPRITES),
        _ => None,
    }
}

impl WorldControls {
    /// No key held, no overlay.
    pub fn new() -> (c: WorldControls)
        ensures
            !c.key_up && !c.key_down && !c.key_left && !c.key_right,
            c.debug_layer == WorldDebugLayer::Disabled,
            !c.debug_palette,
    {
        WorldControls {
            key_up: false,
            key_down: false,
            key_left: false,
            key_right: false,
            debug_layer: WorldDebugLayer::Disabled,
            debug_palette: false,
        }
    }

    /// Handles a key press: W, A, S and D are held as movement, 1 to 4 switch map layers, 5 the
    /// palette overlay, and Z, X, C and V choose debug overlays.
    pub fn key_down(&mut self, map_renderer: &mut MapRenderer, key: WorldKey) -> (action: WorldKeyAction)
        ensures
            key == WorldKey::W ==> *final(self) == (WorldControls { key_up: true, ..*old(self) }),
            key == WorldKey::A ==> *final(self) == (WorldControls { key_left: true, ..*old(self) }),
            key == WorldKey::S ==> *final(self) == (WorldControls { key_down: true, ..*old(self) }),
            key == WorldKey::D ==> *final(self) == (WorldControls { key_right: true, ..*old(self) }),
            key == WorldKey::W || key == WorldKey::A || key == WorldKey::S || key == WorldKey::D || key == WorldKey::Other
                ==> action == WorldKeyAction::Nothing,
            world_key_map_layer(key) matches Some(layer) ==> {
                &&& final(map_renderer).layer_enabled == old(map_renderer).layer_enabled ^ layer
                &&& action == (WorldKeyAction::LayerToggled { layer, enabled: final(map_renderer).layer_enabled & layer != 0 })
                &&& *final(self) == *old(self)
            },
            world_key_map_layer(key) is None ==> *final(map_renderer) == *old(map_renderer),
            key == WorldKey::Num5 ==> *final(self) == (WorldControls { debug_palette: !old(self).debug_palette, ..*old(self) })
                && action == WorldKeyAction::PaletteToggled,
            world_key_debug_layer(key) matches Some(layer) ==> *final(self) == (WorldControls { debug_layer: layer, ..*old(self) })
                && action == (WorldKeyAction::DebugLayerChosen { layer }),
            key == WorldKey::Other ==> *final(self) == *old(self),
    {
        match key {
            WorldKey::W => {
                self.key_up = true;
                WorldKeyAction::Nothing
            },
            WorldKey::A => {
                self.key_left = true;
                WorldKeyAction::Nothing
            },
            WorldKey::S => {
                self.key_down = true;
                WorldKeyAction::Nothing
            },
            WorldKey::D => {
                self.key_right = true;
                WorldKeyAction::Nothing
            },
            WorldKey::Num1 | WorldKey::Num2 | WorldKey::Num3 | WorldKey::Num4 => {
                let layer = match key {
                    WorldKey::Num1 => LAYER_1,
                    WorldKey::Num2 => LAYER_2,
                    WorldKey::Num3 => LAYER_3,
                    _ => LAYER_SPRITES,
                };
                map_renderer.layer_enabled = map_renderer.layer_enabled ^ layer;
                WorldKeyAction::LayerToggled { layer, enabled: map_renderer.layer_enabled & layer != 0 }
            },
            WorldKey::Num5 => {
                self.debug_palette = !self.debug_palette;
                WorldKeyAction::PaletteToggled
            },
            WorldKey::Z | WorldKey::X | WorldKey::C | WorldKey::V => {
                let layer = match key {
                    WorldKey::Z => WorldDebugLayer::Disabled,
                    WorldKey::X => WorldDebugLayer::Solidity,
                    WorldKey::C => WorldDebugLayer::Exits,
                    _ => WorldDebugLayer::Music,
                };
                self.debug_layer = layer;
                WorldKeyAction::DebugLayerChosen { layer }
            },
            WorldKey::Other => WorldKeyAction::Nothing,
        }
    }

    /// Handles a key release: W, A, S and D stop being held.
    pub fn key_up(&mut self, key: WorldKey)
        ensures
            *final(self) == match key {
                WorldKey::W => WorldControls { key_up: false, ..*old(self) },
                WorldKey::A => WorldControls { key_left: false, ..*old(self) },
                WorldKey::S => WorldControls { key_down: false, ..*old(self) },
                WorldKey::D => WorldControls { key_right: false, ..*old(self) },
                _ => *old(self),
            },
    {
        match key {
            WorldKey::W => self.key_up = false,
            WorldKey::A => self.key_left = false,
            WorldKey::S => self.key_down = false,
            WorldKey::D => self.key_right = false,
            _ => {},
        }
    }

    /// The direction the camera moves in, -1, 0 or 1 on each axis: up wins over down and left
    /// over right.
    pub fn camera_direction(&self) -> (d: (i32, i32))
        ensures
            d.1 == (if self.key_up { -1i32 } else if self.key_down { 1i32 } else { 0i32 }),
            d.0 == (if self.key_left { -1i32 } else if self.key_right { 1i32 } else { 0i32 }),
    {
        let dy = if self.key_up { -1 } else if self.key_down { 1 } else { 0 };
        let dx = if self.key_left { -1 } else if self.key_right { 1 } else { 0 };
        (dx, dy)
    }
}

/// Whether a point lies on the 16 by 16 pixel square of a world exit.
pub open spec fn on_world_exit(e: WorldExit, pos: Vec2Di32) -> bool {
    e.pos.x <= pos.x < e.pos.x + 16 && e.pos.y <= pos.y < e.pos.y + 16
}

/// The first world exit whose square a point lies on.
pub fn get_world_exit_at(exits: &Vec<WorldExit>, pos: Vec2Di32) -> (found: Option<usize>)
    requires
        forall|i: int| 0 <= i < exits@.len() ==> (#[trigger] exits@[i]).pos.x + 16 <= i32::MAX && exits@[i].pos.y + 16 <= i32::MAX,
    ensures
        match found {
            Some(i) => i < exits@.len() && on_world_exit(exits@[i as int], pos)
                && forall|k: int| 0 <= k < i ==> !#[trigger] on_world_exit(exits@[k], pos),
            None => forall|k: int| 0 <= k < exits@.len() ==> !#[trigger] on_world_exit(exits@[k], pos),
        },
{
    let mut i: usize = 0;
    while i < exits.len()
        invariant
            i <= exits@.len(),
            forall|k: int| 0 <= k < i ==> !#[trigger] on_world_exit(exits@[k], pos),
            forall|k: int| 0 <= k < exits@.len() ==> (#[trigger] exits@[k]).pos.x + 16 <= i32::MAX && exits@[k].pos.y + 16 <= i32::MAX,
        decreases exits@.len() - i,
    {
        let exit = &exits[i];
        if !(pos.x < exit.pos.x || pos.x >= exit.pos.x + 16 || pos.y < exit.pos.y || pos.y >= exit.pos.y + 16) {
            return Some(i);
        }
        i = i + 1;
    }
    None
}

} // verus!
