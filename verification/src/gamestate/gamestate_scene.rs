//! The decisions of the scene view: what keys and mouse buttons do, what lies under the mouse,
//! and which way the free camera moves.
use crate::fmt::{digits, push_decimal, string_from};
use crate::map_renderer::{MapRenderer, LAYER_1, LAYER_2, LAYER_3, LAYER_SPRITES};
use crate::scene::actor::{accepts_calls, can_be_called, DrawMode};
use crate::scene::scene::SceneTreasure;
use crate::scene::scene_exit::SceneExit;
use crate::scene::scene_renderer::{SceneDebugLayer, SceneRenderer};
use crate::util::vec2di32::Vec2Di32;
use vstd::prelude::*;

verus! {

/// The keys that the scene view reacts to; every other key is `Other`.
#[derive(Clone, Copy, PartialEq, Eq, Structural, Debug)]
pub enum SceneKey {
    W,
    A,
    S,
    D,
    F,
    Num1,
    Num2,
    Num3,
    Num4,
    Num5,
    Z,
    X,
    C,
    V,
    B,
    N,
    M,
    Comma,
    Period,
    Slash,
    Space,
    Other,
}

/// What the view does besides changing its own state after a key press.
#[derive(Clone, Copy, PartialEq, Eq, Structural, Debug)]
pub enum SceneKeyAction {
    Nothing,
    /// Select the text box's previous choice.
    ChoicePrevious,
    /// Select the text box's next choice.
    ChoiceNext,
    /// Move the text box on.
    ProgressTextbox,
    /// A map layer was switched; whether it is now drawn.
    LayerToggled { layer: u8, enabled: bool },
    /// The palette overlay was switched.
    PaletteToggled,
    /// A debug overlay was chosen.
    DebugLayerChosen { layer: SceneDebugLayer },
    /// Let the followed actor's script go on at once.
    StepDebugActor,
}

/// The held movement and activation keys of the scene view.
#[derive(Clone, Copy, PartialEq, Eq, Structural, Debug)]
pub struct SceneKeys {
    pub key_up: bool,
    pub key_down: bool,
    pub key_left: bool,
    pub key_right: bool,
    pub key_activate: bool,
}

/// The debug overlay that a key chooses, if it chooses one.
pub open spec fn key_debug_layer(key: SceneKey) -> Option<SceneDebugLayer> {
    match key {
        SceneKey::Z => Some(SceneDebugLayer::Disabled),
        SceneKey::X => Some(SceneDebugLayer::PcCollision),
        SceneKey::C => Some(SceneDebugLayer::NpcCollision),
        SceneKey::V => Some(SceneDebugLayer::ZPlane),
        SceneKey::B => Some(SceneDebugLayer::Movement),
        SceneKey::N => Some(SceneDebugLayer::DoorTrigger),
        SceneKey::M => Some(SceneDebugLayer::SpritePriority),
        SceneKey::Comma => Some(SceneDebugLayer::Exits),
        SceneKey::Period => Some(SceneDebugLayer::Treasure),
        SceneKey::Slash => Some(SceneDebugLayer::Actors),
        _ => None,
    }
}

/// The map layer that a key switches, if it switches one.
pub open spec fn key_map_layer(key: SceneKey) -> Option<u8> {
    match key {
        SceneKey::Num1 => Some(LAYER_1),
        SceneKey::Num2 => Some(LAYER_2),
        SceneKey::Num3 => Some(LAYER_3),
        SceneKey::Num4 => Some(LAYER_SPRITES),
        _ => None,
    }
}

/// The debug overlay that a key chooses.
fn debug_layer_for_key(key: SceneKey) -> (layer: Option<SceneDebugLayer>)
    ensures
        layer == key_debug_layer(key),
{
    match key {
        SceneKey::Z => Some(SceneDebugLayer::Disabled),
        SceneKey::X => Some(SceneDebugLayer::PcCollision),
        SceneKey::C => Some(SceneDebugLayer::NpcCollision),
        SceneKey::V => Some(SceneDebugLayer::ZPlane),
        SceneKey::B => Some(SceneDebugLayer::Movement),
        SceneKey::N => Some(SceneDebugLayer::DoorTrigger),
        SceneKey::M => Some(SceneDebugLayer::SpritePriority),
        SceneKey::Comma => Some(SceneDebugLayer::Exits),
        SceneKey::Period => Some(SceneDebugLayer::Treasure),
        SceneKey::Slash => Some(SceneDebugLayer::Actors),
        _ => None,
    }
}

/// The map layer that a key switches.
fn map_layer_for_key(key: SceneKey) -> (layer: Option<u8>)
    ensures
        layer == key_map_layer(key),
{
    match key {
        SceneKey::Num1 => Some(LAYER_1),
        SceneKey::Num2 => Some(LAYER_2),
        SceneKey::Num3 => Some(LAYER_3),
        SceneKey::Num4 => Some(LAYER_SPRITES),
        _ => None,
    }
}

impl SceneKeys {
    /// No key held.
    pub fn new() -> (k: SceneKeys)
        ensures
            !k.key_up && !k.key_down && !k.key_left && !k.key_right && !k.key_activate,
    {
        SceneKeys { key_up: false, key_down: false, key_left: false, key_right: false, key_activate: false }
    }

    /// Handles a key press. While the text box shows choices, W and S move between them, and
    /// while it is shown F moves it on; otherwise these keys are held as movement and
    /// activation. Number keys 1 to 4 switch map layers, 5 the palette overlay, the letter and
    /// punctuation keys choose debug overlays, and space steps the followed actor.
    pub fn key_down(
        &mut self,
        scene_renderer: &mut SceneRenderer,
        map_renderer: &mut MapRenderer,
        key: SceneKey,
        textbox_active: bool,
        textbox_has_choices: bool,
        has_debug_actor: bool,
    ) -> (action: SceneKeyAction)
        ensures
            key == SceneKey::W && textbox_active && textbox_has_choices ==> action == SceneKeyAction::ChoicePrevious && *final(self) == *old(self),
            key == SceneKey::W && !(textbox_active && textbox_has_choices) ==> action == SceneKeyAction::Nothing && *final(self) == (SceneKeys { key_up: true, ..*old(self) }),
            key == SceneKey::S && textbox_active && textbox_has_choices ==> action == SceneKeyAction::ChoiceNext && *final(self) == *old(self),
            key == SceneKey::S && !(textbox_active && textbox_has_choices) ==> action == SceneKeyAction::Nothing && *final(self) == (SceneKeys { key_down: true, ..*old(self) }),
            key == SceneKey::A ==> action == SceneKeyAction::Nothing && *final(self) == (SceneKeys { key_left: true, ..*old(self) }),
            key == SceneKey::D ==> action == SceneKeyAction::Nothing && *final(self) == (SceneKeys { key_right: true, ..*old(self) }),
            key == SceneKey::F && textbox_active ==> action == SceneKeyAction::ProgressTextbox && *final(self) == *old(self),
            key == SceneKey::F && !textbox_active ==> action == SceneKeyAction::Nothing && *final(self) == (SceneKeys { key_activate: true, ..*old(self) }),
            key_map_layer(key) matches Some(layer) ==> {
                &&& final(map_renderer).layer_enabled == old(map_renderer).layer_enabled ^ layer
                &&& action == (SceneKeyAction::LayerToggled { layer, enabled: final(map_renderer).layer_enabled & layer != 0 })
            },
            key_map_layer(key) is None ==> *final(map_renderer) == *old(map_renderer),
            key == SceneKey::Num5 ==> final(scene_renderer).debug_palette == !old(scene_renderer).debug_palette && action == SceneKeyAction::PaletteToggled,
            key != SceneKey::Num5 ==> final(scene_renderer).debug_palette == old(scene_renderer).debug_palette,
            key_debug_layer(key) matches Some(layer) ==> final(scene_renderer).debug_layer == layer && action == (SceneKeyAction::DebugLayerChosen { layer }),
            key_debug_layer(key) is None ==> final(scene_renderer).debug_layer == old(scene_renderer).debug_layer,
            final(scene_renderer).debug_tiles == old(scene_renderer).debug_tiles,
            final(scene_renderer).debug_sprites == old(scene_renderer).debug_sprites,
            key == SceneKey::Space ==> action == (if has_debug_actor { SceneKeyAction::StepDebugActor } else { SceneKeyAction::Nothing }),
            key != SceneKey::W && key != SceneKey::S && key != SceneKey::A && key != SceneKey::D && key != SceneKey::F ==> *final(self) == *old(self),
            key == SceneKey::Other ==> action == SceneKeyAction::Nothing,
    {
        if let Some(layer) = map_layer_for_key(key) {
            map_renderer.layer_enabled = map_renderer.layer_enabled ^ layer;
            return SceneKeyAction::LayerToggled { layer, enabled: map_renderer.layer_enabled & layer != 0 };
        }
        if let Some(layer) = debug_layer_for_key(key) {
            scene_renderer.debug_layer = layer;
            return SceneKeyAction::DebugLayerChosen { layer };
        }
        match key {
            SceneKey::W => {
                if textbox_active && textbox_has_choices {
                    SceneKeyAction::ChoicePrevious
                } else {
                    self.key_up = true;
                    SceneKeyAction::Nothing
                }
            },
            SceneKey::A => {
                self.key_left = true;
                SceneKeyAction::Nothing
            },
            SceneKey::S => {
                if textbox_active && textbox_has_choices {
                    SceneKeyAction::ChoiceNext
                } else {
                    self.key_down = true;
                    SceneKeyAction::Nothing
                }
            },
            SceneKey::D => {
                self.key_right = true;
                SceneKeyAction::Nothing
            },
            SceneKey::F => {
                if textbox_active {
                    SceneKeyAction::ProgressTextbox
                } else {
                    self.key_activate = true;
                    SceneKeyAction::Nothing
                }
            },
            SceneKey::Num5 => {
                scene_renderer.debug_palette = !scene_renderer.debug_palette;
                SceneKeyAction::PaletteToggled
            },
            SceneKey::Space => {
                if has_debug_actor {
                    SceneKeyAction::StepDebugActor
                } else {
                    SceneKeyAction::Nothing
                }
            },
            _ => SceneKeyAction::Nothing,
        }
    }

    /// Handles a key release: W, A, S, D and F stop being held.
    pub fn key_up(&mut self, key: SceneKey)
        ensures
            *final(self) == match key {
                SceneKey::W => SceneKeys { key_up: false, ..*old(self) },
                SceneKey::A => SceneKeys { key_left: false, ..*old(self) },
                SceneKey::S => SceneKeys { key_down: false, ..*old(self) },
                SceneKey::D => SceneKeys { key_right: false, ..*old(self) },
                SceneKey::F => SceneKeys { key_activate: false, ..*old(self) },
                _ => *old(self),
            },
    {
        match key {
            SceneKey::W => self.key_up = false,
            SceneKey::A => self.key_left = false,
            SceneKey::S => self.key_down = false,
            SceneKey::D => self.key_right = false,
            SceneKey::F => self.key_activate = false,
            _ => {},
        }
    }

    /// The direction the free camera moves in, -1, 0 or 1 on each axis: up wins over down and
    /// left over right.
    pub fn camera_direction(&self) -> (d: (i32, i32))
        ensures
            d.1 == (if self.key_up { -1i32 } else if self.key_down { 1i32 } else { 0i32 }),
            d.0 == (if self.key_left { -1i32 } else if self.key_right { 1i32 } else { 0i32 }),
    {
        let dy = if self.key_up { -1 } else if self.key_down { 1 } else { 0 };
        let dx = if self.key_left { -1 } else if self.key_right { 1 } else { 0 };
        (dx, dy)
    }
}


/// Whether a point lies on an exit or within 8 pixels around it.
pub open spec fn near_exit(e: SceneExit, pos: Vec2Di32) -> bool {
    e.pos.x - 8 <= pos.x < e.pos.x + e.size.x + 8 && e.pos.y - 8 <= pos.y < e.pos.y + e.size.y + 8
}

/// Whether a point lies on a treasure's tile.
pub open spec fn on_treasure(t: SceneTreasure, pos: Vec2Di32) -> bool {
    t.tile_x * 16 <= pos.x < t.tile_x * 16 + 16 && t.tile_y * 16 <= pos.y < t.tile_y * 16 + 16
}

/// Whether a point lies on an actor standing at `at`: 16 pixels wide around it and 16 pixels
/// above it.
pub open spec fn on_actor(at: Vec2Di32, pos: Vec2Di32) -> bool {
    at.x - 8 <= pos.x < at.x + 8 && at.y - 16 <= pos.y < at.y
}

/// `Some` of the first index whose element a predicate holds of, else `None`.
pub open spec fn is_first_hit(hits: spec_fn(int) -> bool, len: int, found: Option<usize>) -> bool {
    match found {
        Some(i) => 0 <= i < len && hits(i as int) && forall|k: int| 0 <= k < i ==> !#[trigger] hits(k),
        None => forall|k: int| 0 <= k < len ==> !#[trigger] hits(k),
    }
}

/// The first exit that a point lies on or near.
pub fn get_exit_at(exits: &Vec<SceneExit>, pos: Vec2Di32) -> (found: Option<usize>)
    requires
        forall|i: int| 0 <= i < exits@.len() ==> {
            &&& i32::MIN <= (#[trigger] exits@[i]).pos.x - 8
            &&& exits@[i].pos.x + exits@[i].size.x + 8 <= i32::MAX
            &&& i32::MIN <= exits@[i].pos.y - 8
            &&& exits@[i].pos.y + exits@[i].size.y + 8 <= i32::MAX
            &&& i32::MIN <= exits@[i].pos.x + exits@[i].size.x
            &&& i32::MIN <= exits@[i].pos.y + exits@[i].size.y
        },
    ensures
        is_first_hit(|k: int| near_exit(exits@[k], pos), exits@.len() as int, found),
{
    let mut i: usize = 0;
    while i < exits.len()
        invariant
            i <= exits@.len(),
            forall|k: int| 0 <= k < i ==> !#[trigger] near_exit(exits@[k], pos),
            forall|k: int| 0 <= k < exits@.len() ==> {
                &&& i32::MIN <= (#[trigger] exits@[k]).pos.x - 8
                &&& exits@[k].pos.x + exits@[k].size.x + 8 <= i32::MAX
                &&& i32::MIN <= exits@[k].pos.y - 8
                &&& exits@[k].pos.y + exits@[k].size.y + 8 <= i32::MAX
                &&& i32::MIN <= exits@[k].pos.x + exits@[k].size.x
                &&& i32::MIN <= exits@[k].pos.y + exits@[k].size.y
            },
        decreases exits@.len() - i,
    {
        let exit = &exits[i];
        if !(pos.x < exit.pos.x - 8 || pos.x >= exit.pos.x + exit.size.x + 8 || pos.y < exit.pos.y - 8
            || pos.y >= exit.pos.y + exit.size.y + 8) {
            return Some(i);
        }
        i = i + 1;
    }
    None
}

/// The first treasure whose tile a point lies on.
pub fn get_treasure_at(treasure: &Vec<SceneTreasure>, pos: Vec2Di32) -> (found: Option<usize>)
    requires
        forall|i: int| 0 <= i < treasure@.len() ==> {
            &&& i32::MIN <= (#[trigger] treasure@[i]).tile_x * 16
            &&& treasure@[i].tile_x * 16 + 16 <= i32::MAX
            &&& i32::MIN <= treasure@[i].tile_y * 16
            &&& treasure@[i].tile_y * 16 + 16 <= i32::MAX
        },
    ensures
        is_first_hit(|k: int| on_treasure(treasure@[k], pos), treasure@.len() as int, found),
{
    let mut i: usize = 0;
    while i < treasure.len()
        invariant
            i <= treasure@.len(),
            forall|k: int| 0 <= k < i ==> !#[trigger] on_treasure(treasure@[k], pos),
            forall|k: int| 0 <= k < treasure@.len() ==> {
                &&& i32::MIN <= (#[trigger] treasure@[k]).tile_x * 16
                &&& treasure@[k].tile_x * 16 + 16 <= i32::MAX
                &&& i32::MIN <= treasure@[k].tile_y * 16
                &&& treasure@[k].tile_y * 16 + 16 <= i32::MAX
            },
        decreases treasure@.len() - i,
    {
        let item = &treasure[i];
        if !(pos.x < item.tile_x * 16 || pos.x >= item.tile_x * 16 + 16 || pos.y < item.tile_y * 16 || pos.y
            >= item.tile_y * 16 + 16) {
            return Some(i);
        }
        i = i + 1;
    }
    None
}

/// The first actor, by its position in whole pixels, that a point lies on.
pub fn get_actor_at(positions: &Vec<Vec2Di32>, pos: Vec2Di32) -> (found: Option<usize>)
    requires
        forall|i: int| 0 <= i < positions@.len() ==> {
            &&& i32::MIN <= (#[trigger] positions@[i]).x - 8
            &&& positions@[i].x + 8 <= i32::MAX
            &&& i32::MIN <= positions@[i].y - 16
        },
    ensures
        is_first_hit(|k: int| on_actor(positions@[k], pos), positions@.len() as int, found),
{
    let mut i: usize = 0;
    while i < positions.len()
        invariant
            i <= positions@.len(),
            forall|k: int| 0 <= k < i ==> !#[trigger] on_actor(positions@[k], pos),
            forall|k: int| 0 <= k < positions@.len() ==> {
                &&& i32::MIN <= (#[trigger] positions@[k]).x - 8
                &&& positions@[k].x + 8 <= i32::MAX
                &&& i32::MIN <= positions@[k].y - 16
            },
        decreases positions@.len() - i,
    {
        let at = positions[i];
        if !(pos.x < at.x - 8 || pos.x >= at.x + 8 || pos.y < at.y - 16 || pos.y >= at.y) {
            return Some(i);
        }
        i = i + 1;
    }
    None
}

/// What lies under the mouse, in the order the view looks: actors first, then exits, then
/// treasure.
#[derive(Clone, Copy, PartialEq, Eq, Structural, Debug)]
pub enum HoverTarget {
    Actor(usize),
    Exit(usize),
    Treasure(usize),
    Nothing,
}

/// What the mouse is over, given the first actor, exit and treasure under it.
pub fn hover_target(actor: Option<usize>, exit: Option<usize>, treasure: Option<usize>) -> (t: HoverTarget)
    ensures
        t == match (actor, exit, treasure) {
            (Some(a), _, _) => HoverTarget::Actor(a),
            (None, Some(e), _) => HoverTarget::Exit(e),
            (None, None, Some(r)) => HoverTarget::Treasure(r),
            (None, None, None) => HoverTarget::Nothing,
        },
{
    match (actor, exit, treasure) {
        (Some(a), _, _) => HoverTarget::Actor(a),
        (None, Some(e), _) => HoverTarget::Exit(e),
        (None, None, Some(r)) => HoverTarget::Treasure(r),
        (None, None, None) => HoverTarget::Nothing,
    }
}

/// The label of a treasure: its gold, else the name of its item, else that it is empty.
pub open spec fn treasure_label_text(gold: u32, item: usize, item_name: Seq<char>) -> Seq<char> {
    if gold > 0 {
        digits(gold as nat, 10, false) + " gold"@
    } else if item > 0 {
        item_name
    } else {
        "Empty"@
    }
}

/// The label shown over a treasure; `item_name` is the name of its item.
pub fn treasure_label(gold: u32, item: usize, item_name: &str) -> (label: String)
    ensures
        label@ == treasure_label_text(gold, item, item_name@),
{
    if gold > 0 {
        let mut label = String::new();
        push_decimal(&mut label, gold as u64);
        label.push_str(" gold");
        assert(label@ =~= treasure_label_text(gold, item, item_name@));
        label
    } else if item > 0 {
        string_from(item_name)
    } else {
        string_from("Empty")
    }
}

/// A mouse button.
#[derive(Clone, Copy, PartialEq, Eq, Structural, Debug)]
pub enum SceneMouseButton {
    Left,
    Middle,
    Right,
    Other,
}

/// What a mouse click does in the scene view.
#[derive(Clone, Copy, PartialEq, Eq, Structural, Debug)]
pub enum SceneClick {
    /// Follow this actor, or none.
    FollowActor(Option<usize>),
    /// Call the actor's activation function.
    ActivateActor(usize),
    /// Call the actor's touch function.
    TouchActor(usize),
    /// Leave the scene by this exit.
    TakeExit(usize),
    Nothing,
}

/// The effect of a click, given the first actor and the first exit under the mouse: the middle
/// button follows the actor, the left one activates it or else takes the exit, the right one
/// touches it.
pub fn click_action(button: SceneMouseButton, actor: Option<usize>, exit: Option<usize>) -> (c: SceneClick)
    ensures
        c == match button {
            SceneMouseButton::Middle => SceneClick::FollowActor(actor),
            SceneMouseButton::Left => match (actor, exit) {
                (Some(a), _) => SceneClick::ActivateActor(a),
                (None, Some(e)) => SceneClick::TakeExit(e),
                (None, None) => SceneClick::Nothing,
            },
            SceneMouseButton::Right => match actor {
                Some(a) => SceneClick::TouchActor(a),
                None => SceneClick::Nothing,
            },
            SceneMouseButton::Other => SceneClick::Nothing,
        },
{
    match button {
        SceneMouseButton::Middle => SceneClick::FollowActor(actor),
        SceneMouseButton::Left => match (actor, exit) {
            (Some(a), _) => SceneClick::ActivateActor(a),
            (None, Some(e)) => SceneClick::TakeExit(e),
            (None, None) => SceneClick::Nothing,
        },
        SceneMouseButton::Right => match actor {
            Some(a) => SceneClick::TouchActor(a),
            None => SceneClick::Nothing,
        },
        SceneMouseButton::Other => SceneClick::Nothing,
    }
}

/// The function of an actor's script that activating it calls, and the priority it runs at.
pub const ACTIVATE_FUNCTION: usize = 1;

/// The function of an actor's script that touching it calls, and the priority it runs at.
pub const TOUCH_FUNCTION: usize = 2;

/// Where an actor's script is and what it can be called with.
#[derive(Clone, Copy, Debug)]
pub struct ScriptCallState {
    pub current_address: usize,
    pub current_priority: usize,
    pub priority_return_ptrs: [usize; 8],
    pub function_ptrs: [usize; 16],
    pub delay_counter: u32,
}

/// Calls function `function` of an actor's script, at the priority of the same number, when
/// the actor takes calls and its script runs at a greater priority number: the current address
/// is kept to return to at the current priority, the script jumps to the function and waits no
/// longer. Returns whether the call was made; the caller then stops what the actor was doing.
pub fn call_actor_function(draw_mode: DrawMode, flags: u32, state: &mut ScriptCallState, function: usize) -> (called: bool)
    requires
        1 <= function < 8,
        old(state).current_priority < 8,
    ensures
        called == (accepts_calls(draw_mode, flags) && old(state).current_priority > function),
        called ==> {
            &&& final(state).current_address == old(state).function_ptrs[function as int]
            &&& final(state).current_priority == function
            &&& final(state).priority_return_ptrs@ == old(state).priority_return_ptrs@.update(old(state).current_priority as int, old(state).current_address)
            &&& final(state).delay_counter == 0
        },
        !called ==> {
            &&& final(state).current_address == old(state).current_address
            &&& final(state).current_priority == old(state).current_priority
            &&& final(state).priority_return_ptrs@ == old(state).priority_return_ptrs@
            &&& final(state).delay_counter == old(state).delay_counter
        },
        final(state).function_ptrs@ == old(state).function_ptrs@,
{
    if can_be_called(draw_mode, flags) && state.current_priority > function {
        let priority = state.current_priority;
        state.priority_return_ptrs[priority] = state.current_address;
        state.current_address = state.function_ptrs[function];
        state.current_priority = function;
        state.delay_counter = 0;
        true
    } else {
        false
    }
}


/// Pressing a map layer key twice leaves the layer as it was.
pub proof fn law_layer_key_twice(enabled: u8, layer: u8)
    ensures
        (enabled ^ layer) ^ layer == enabled,
{
    assert((enabled ^ layer) ^ layer == enabled) by (bit_vector);
}

/// Pressing and releasing a movement key leaves the held keys as they were when the key was not
/// held before.
pub proof fn law_movement_key_press_release(before: SceneKeys, key: SceneKey)
    requires
        key == SceneKey::W ==> !before.key_up,
        key == SceneKey::A ==> !before.key_left,
        key == SceneKey::S ==> !before.key_down,
        key == SceneKey::D ==> !before.key_right,
        key == SceneKey::F ==> !before.key_activate,
    ensures
        ({
            let pressed = match key {
                SceneKey::W => SceneKeys { key_up: true, ..before },
                SceneKey::A => SceneKeys { key_left: true, ..before },
                SceneKey::S => SceneKeys { key_down: true, ..before },
                SceneKey::D => SceneKeys { key_right: true, ..before },
                SceneKey::F => SceneKeys { key_activate: true, ..before },
                _ => before,
            };
            let released = match key {
                SceneKey::W => SceneKeys { key_up: false, ..pressed },
                SceneKey::A => SceneKeys { key_left: false, ..pressed },
                SceneKey::S => SceneKeys { key_down: false, ..pressed },
                SceneKey::D => SceneKeys { key_right: false, ..pressed },
                SceneKey::F => SceneKeys { key_activate: false, ..pressed },
                _ => pressed,
            };
            released == before
        }),
{
}

} // verus!
