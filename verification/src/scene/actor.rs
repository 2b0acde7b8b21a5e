//! Scene actors: their class, how they are drawn, their state flags and their animation.
use vstd::prelude::*;
use crate::facing::{facing_index, Facing};
use crate::scene::scene_map::{prop_index_at, tile_of, SceneMap};
use crate::sprites::{AnimationMode, SpriteAnim, SpriteAnimFrame, SpriteAnimSet, SpritePriority};

verus! {

/// The marker drawn over an actor in debug views.
#[derive(Clone, Copy, PartialEq, Eq, Structural, Debug)]
pub enum DebugSprite {
    Hidden,
    Moving,
    Waiting,
    Animating,
}

/// The kind of scene actor.
#[derive(Clone, Copy, PartialEq, Eq, Structural, Debug)]
pub enum SceneActorClass {
    PC1,
    PC2,
    PC3,
    PCOutOfParty,
    NPC,
    Enemy,
    EnemyPeaceful,
    Undefined,
}

/// The number the game uses for an actor class.
pub open spec fn class_index(c: SceneActorClass) -> u8 {
    match c {
        SceneActorClass::PC1 => 0,
        SceneActorClass::PC2 => 1,
        SceneActorClass::PC3 => 2,
        SceneActorClass::PCOutOfParty => 3,
        SceneActorClass::NPC => 4,
        SceneActorClass::Enemy => 5,
        SceneActorClass::EnemyPeaceful => 6,
        SceneActorClass::Undefined => 7,
    }
}

impl SceneActorClass {
    /// The number the game uses for the class.
    pub fn to_index(&self) -> (index: u8)
        ensures
            index == class_index(*self),
    {
        match self {
            SceneActorClass::PC1 => 0,
            SceneActorClass::PC2 => 1,
            SceneActorClass::PC3 => 2,
            SceneActorClass::PCOutOfParty => 3,
            SceneActorClass::NPC => 4,
            SceneActorClass::Enemy => 5,
            SceneActorClass::EnemyPeaceful => 6,
            SceneActorClass::Undefined => 7,
        }
    }
}

/// Distinct classes have distinct numbers.
pub proof fn law_class_index_distinct(a: SceneActorClass, b: SceneActorClass)
    ensures
        class_index(a) == class_index(b) ==> a == b,
        class_index(a) < 8,
{
}

/// Whether and how an actor is drawn.
#[derive(Clone, Copy, PartialEq, Eq, Structural, Debug)]
pub enum DrawMode {
    Hidden,
    Draw,
    Removed,
}

/// Scene actor flag bits.
pub const SCENE_ACTOR_SCRIPT_DISABLED: u32 = 0x0001;
pub const SCENE_ACTOR_SOLID: u32 = 0x0002;
pub const SCENE_ACTOR_CALLS_DISABLED: u32 = 0x0004;
pub const SCENE_ACTOR_COLLISION_WITH_TILES: u32 = 0x0008;
pub const SCENE_ACTOR_COLLISION_AVOID_PC: u32 = 0x0010;
pub const SCENE_ACTOR_MOVE_ONTO_TILE: u32 = 0x0020;
pub const SCENE_ACTOR_MOVE_ONTO_OBJECT: u32 = 0x0040;
pub const SCENE_ACTOR_IN_BATTLE: u32 = 0x0080;
pub const SCENE_ACTOR_PUSHABLE: u32 = 0x0100;
pub const SCENE_ACTOR_BATTLE_STATIC: u32 = 0x0200;
pub const SCENE_ACTOR_DEAD: u32 = 0x0400;
pub const SCENE_ACTOR_SPRITE_PRIORITY_LOCKED: u32 = 0x0800;
pub const SCENE_ACTOR_TEXTBOX_ACTIVE: u32 = 0x1000;

/// Whether an actor takes calls from the player, to activate or touch it: it is drawn, and its
/// script is not disabled, it is not dead and it does not refuse calls.
pub open spec fn accepts_calls(draw_mode: DrawMode, flags: u32) -> bool {
    draw_mode == DrawMode::Draw && flags & SCENE_ACTOR_SCRIPT_DISABLED == 0 && flags & SCENE_ACTOR_DEAD == 0
        && flags & SCENE_ACTOR_CALLS_DISABLED == 0
}

/// Whether an actor takes calls from the player.
pub fn can_be_called(draw_mode: DrawMode, flags: u32) -> (b: bool)
    ensures
        b == accepts_calls(draw_mode, flags),
{
    draw_mode == DrawMode::Draw && flags & SCENE_ACTOR_SCRIPT_DISABLED == 0 && flags & SCENE_ACTOR_DEAD == 0
        && flags & SCENE_ACTOR_CALLS_DISABLED == 0
}

} // verus!

verus! {

/// The animation state of a scene actor: which animation of its set runs, at which frame, how
/// many 60ths of a second the frame still shows, and the sprite frame it last picked.
#[derive(Clone, Copy, PartialEq, Eq, Structural, Debug)]
pub struct SceneActorAnimation {
    pub anim_set_index: usize,
    pub anim_delay: u32,
    pub anim_index: usize,
    pub anim_index_looped: usize,
    pub anim_frame: usize,
    pub anim_frame_static: usize,
    pub anim_mode: AnimationMode,
    pub anim_loops_remaining: u32,
    pub anim_enabled: bool,
    pub sprite_frame: usize,
}

/// The delay after one tick's countdown: one less, but not below zero.
pub open spec fn counted_down(delay: u32) -> u32 {
    if delay > 0 { (delay - 1) as u32 } else { 0 }
}

/// Whether a tick moves the animation on: the delay has run out and animation is enabled.
pub open spec fn advances(a: SceneActorAnimation) -> bool {
    counted_down(a.anim_delay) == 0 && a.anim_enabled
}

/// Whether a tick runs past the last frame of an animation with `frame_count` frames.
pub open spec fn wraps(a: SceneActorAnimation, frame_count: int) -> bool {
    advances(a) && a.anim_frame + 1 >= frame_count
}

/// What one tick of an animation does: count the delay down; once it has run out, and if
/// animation is enabled, go to the next frame and take its delay. Past the last frame the
/// animation starts over with the first frame's delay; counted loops stay on the last frame when
/// one or two loops remain (two becoming one), and otherwise use up two.
pub open spec fn animation_step(a: SceneActorAnimation, frames: Seq<SpriteAnimFrame>) -> SceneActorAnimation {
    let delay = counted_down(a.anim_delay);
    if !advances(a) {
        SceneActorAnimation { anim_delay: delay, ..a }
    } else if a.anim_frame + 1 < frames.len() {
        SceneActorAnimation { anim_delay: frames[a.anim_frame + 1].delay, anim_frame: (a.anim_frame + 1) as usize, ..a }
    } else if a.anim_mode == AnimationMode::LoopCount && a.anim_loops_remaining == 1 {
        SceneActorAnimation { anim_delay: frames[0].delay, ..a }
    } else if a.anim_mode == AnimationMode::LoopCount && a.anim_loops_remaining == 2 {
        SceneActorAnimation { anim_delay: frames[0].delay, anim_loops_remaining: 1, ..a }
    } else if a.anim_mode == AnimationMode::LoopCount {
        SceneActorAnimation { anim_delay: frames[0].delay, anim_loops_remaining: (a.anim_loops_remaining - 2) as u32, anim_frame: 0, ..a }
    } else {
        SceneActorAnimation { anim_delay: frames[0].delay, anim_frame: 0, ..a }
    }
}

/// The inputs on which a tick of an animation is defined: a wrap needs a first frame, and a
/// counted loop that wraps has loops left.
pub open spec fn step_defined(a: SceneActorAnimation, frames: Seq<SpriteAnimFrame>) -> bool {
    advances(a) ==> {
        &&& a.anim_frame < usize::MAX
        &&& wraps(a, frames.len() as int) ==> frames.len() > 0
        &&& wraps(a, frames.len() as int) && a.anim_mode == AnimationMode::LoopCount ==> a.anim_loops_remaining != 0
    }
}

/// A tick keeps an animation's frame among its frames.
pub proof fn law_step_keeps_frame(a: SceneActorAnimation, frames: Seq<SpriteAnimFrame>)
    requires
        a.anim_frame < frames.len(),
        step_defined(a, frames),
    ensures
        animation_step(a, frames).anim_frame < frames.len(),
{
}

/// The animation index that runs in a mode: the looped one for counted loops.
pub open spec fn running_index(a: SceneActorAnimation) -> usize {
    if a.anim_mode == AnimationMode::LoopCount { a.anim_index_looped } else { a.anim_index }
}

/// The animation index that movement asks for: running (6) for a fast non-NPC, walking (1) for
/// any movement, standing (0) otherwise.
pub open spec fn movement_anim_index(class: SceneActorClass, fast: bool, moved: bool) -> usize {
    if class != SceneActorClass::NPC && fast { 6 } else if moved { 1 } else { 0 }
}

impl SceneActorAnimation {
    /// The animation state of a new actor: animation 0 of set 0, enabled, not running.
    pub fn new() -> (a: SceneActorAnimation)
        ensures
            a == (SceneActorAnimation {
                anim_set_index: 0,
                anim_delay: 0,
                anim_index: 0,
                anim_index_looped: 0,
                anim_frame: 0,
                anim_frame_static: 0,
                anim_mode: AnimationMode::Stopped,
                anim_loops_remaining: 0,
                anim_enabled: true,
                sprite_frame: 0,
            }),
    {
        SceneActorAnimation {
            anim_set_index: 0,
            anim_delay: 0,
            anim_index: 0,
            anim_index_looped: 0,
            anim_frame: 0,
            anim_frame_static: 0,
            anim_mode: AnimationMode::Stopped,
            anim_loops_remaining: 0,
            anim_enabled: true,
            sprite_frame: 0,
        }
    }

    /// Moves an animation on by one tick.
    pub fn tick_animation(&mut self, anim: &SpriteAnim)
        requires
            step_defined(*old(self), anim.frames@),
        ensures
            *final(self) == animation_step(*old(self), anim.frames@),
    {
        if self.anim_delay > 0 {
            self.anim_delay = self.anim_delay - 1;
        }
        if self.anim_delay > 0 {
            return;
        }
        if !self.anim_enabled {
            return;
        }
        self.anim_frame = self.anim_frame + 1;
        if self.anim_frame < anim.frames.len() {
            self.anim_delay = anim.frames[self.anim_frame].delay;
            return;
        }
        self.anim_delay = anim.frames[0].delay;
        if self.anim_mode == AnimationMode::LoopCount {
            if self.anim_loops_remaining == 1 {
                self.anim_frame = self.anim_frame - 1;
                return;
            } else if self.anim_loops_remaining == 2 {
                self.anim_loops_remaining = 1;
                self.anim_frame = self.anim_frame - 1;
                return;
            }
            self.anim_loops_remaining = self.anim_loops_remaining - 2;
        }
        self.anim_frame = 0;
    }

    /// Returns a movement-driven animation to its first animation, unless another mode runs or
    /// it is already there.
    pub fn reset_animation(&mut self)
        ensures
            *final(self) == if old(self).anim_mode != AnimationMode::Stopped || old(self).anim_index == 0 {
                *old(self)
            } else {
                SceneActorAnimation { anim_index: 0, anim_frame: 0, anim_delay: 0, ..*old(self) }
            },
    {
        if self.anim_mode != AnimationMode::Stopped {
            return;
        }
        if self.anim_index == 0 {
            return;
        }
        self.anim_index = 0;
        self.anim_frame = 0;
        self.anim_delay = 0;
    }

    /// Picks the animation for a movement. `fast` says that the movement was over 4 pixels,
    /// `moved` that it was at least a hundredth of one. A static animation whose index is 0xFF
    /// gives way to movement; any other static one starts looping. A new animation index starts
    /// at its first frame.
    pub fn animate_for_movement(&mut self, class: SceneActorClass, fast: bool, moved: bool)
        ensures
            ({
                let a = *old(self);
                let b = *final(self);
                if a.anim_mode == AnimationMode::Static && a.anim_index != 0xFF {
                    b == SceneActorAnimation { anim_mode: AnimationMode::Loop, ..a }
                } else if a.anim_mode != AnimationMode::Static && a.anim_mode != AnimationMode::Stopped {
                    b == a
                } else {
                    let index = movement_anim_index(class, fast, moved);
                    if a.anim_index != index {
                        b == SceneActorAnimation { anim_mode: AnimationMode::Stopped, anim_index: index, anim_frame: 0, anim_delay: 0, ..a }
                    } else {
                        b == SceneActorAnimation { anim_mode: AnimationMode::Stopped, ..a }
                    }
                }
            }),
    {
        if self.anim_mode == AnimationMode::Static {
            if self.anim_index == 0xFF {
                self.anim_mode = AnimationMode::Stopped;
            } else {
                self.anim_mode = AnimationMode::Loop;
                return;
            }
        }
        if self.anim_mode != AnimationMode::Stopped {
            return;
        }
        let mut anim_index: usize = 0;
        if class != SceneActorClass::NPC && fast {
            anim_index = 6;
        } else if moved {
            anim_index = 1;
        }
        if self.anim_index != anim_index {
            self.anim_index = anim_index;
            self.anim_frame = 0;
            self.anim_delay = 0;
        }
    }

    /// The animation part of an actor's tick: animation is enabled unless the actor is dead; a
    /// static animation shows its frozen frame; otherwise the running animation of the set, if
    /// the set has it, moves on one tick and its current frame for the facing is shown.
    pub fn tick(&mut self, dead: bool, facing: Facing, anim_set: &SpriteAnimSet)
        requires
            ({
                let a = SceneActorAnimation { anim_enabled: !dead, ..*old(self) };
                a.anim_mode != AnimationMode::Static && running_index(a) < anim_set.anims@.len() ==> {
                    let frames = anim_set.anims@[running_index(a) as int].frames@;
                    step_defined(a, frames) && animation_step(a, frames).anim_frame < frames.len()
                }
            }),
        ensures
            ({
                let a = SceneActorAnimation { anim_enabled: !dead, ..*old(self) };
                if a.anim_mode == AnimationMode::Static {
                    *final(self) == SceneActorAnimation { sprite_frame: a.anim_frame_static, ..a }
                } else if running_index(a) < anim_set.anims@.len() {
                    let frames = anim_set.anims@[running_index(a) as int].frames@;
                    let b = animation_step(a, frames);
                    *final(self) == SceneActorAnimation {
                        sprite_frame: frames[b.anim_frame as int].sprite_frames[facing_index(facing) as int],
                        ..b
                    }
                } else {
                    *final(self) == a
                }
            }),
    {
        self.anim_enabled = !dead;
        if self.anim_mode == AnimationMode::Static {
            self.sprite_frame = self.anim_frame_static;
        } else {
            let anim_index = if self.anim_mode == AnimationMode::LoopCount {
                self.anim_index_looped
            } else {
                self.anim_index
            };
            let anim = anim_set.get_anim(anim_index);
            if let Some(anim) = anim {
                self.tick_animation(anim);
                let frame = &anim.frames[self.anim_frame];
                self.sprite_frame = frame.sprite_frames[facing.to_index()];
            }
        }
    }
}

} // verus!

verus! {

/// Whether an actor's sprite is drawn: the actor is drawn, not dead, and has a class.
pub fn sprite_enabled(draw_mode: DrawMode, flags: u32, class: SceneActorClass) -> (b: bool)
    ensures
        b == (draw_mode == DrawMode::Draw && flags & SCENE_ACTOR_DEAD == 0 && class != SceneActorClass::Undefined),
{
    draw_mode == DrawMode::Draw && flags & SCENE_ACTOR_DEAD == 0 && class != SceneActorClass::Undefined
}

/// The top and bottom sprite priorities of an actor at a pixel position, in whole pixels
/// truncated toward zero: those of the tile under it, unless its priorities are locked or there
/// is no tile there, where it keeps `current`.
pub fn sprite_priorities_at(flags: u32, current: (SpritePriority, SpritePriority), scene_map: &SceneMap, x: i32, y: i32) -> (priorities: (SpritePriority, SpritePriority))
    requires
        flags & SCENE_ACTOR_SPRITE_PRIORITY_LOCKED == 0 ==> {
            &&& scene_map.props.width <= i32::MAX
            &&& i32::MIN <= tile_of(y as int) * scene_map.props.width <= i32::MAX
            &&& i32::MIN <= prop_index_at(scene_map.props.width, x as int, y as int) <= i32::MAX
        },
    ensures
        ({
            let i = prop_index_at(scene_map.props.width, x as int, y as int);
            if flags & SCENE_ACTOR_SPRITE_PRIORITY_LOCKED != 0 || i < 0 || i >= scene_map.props.props@.len() {
                priorities == current
            } else {
                priorities == (scene_map.props.props@[i].sprite_priority_top, scene_map.props.props@[i].sprite_priority_bottom)
            }
        }),
{
    if flags & SCENE_ACTOR_SPRITE_PRIORITY_LOCKED != 0 {
        return current;
    }
    match scene_map.get_props_at_pixel(x, y) {
        Some(props) => (props.sprite_priority_top, props.sprite_priority_bottom),
        None => current,
    }
}

} // verus!
