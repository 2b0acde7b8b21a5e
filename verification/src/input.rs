//! Input: the actions a player can ask for, which keys are bound to them, and which are held,
//! pressed or released.
use std::collections::{HashMap, HashSet};
use vstd::prelude::*;

verus! {

broadcast use vstd::std_specs::hash::group_hash_axioms;

/// What the player asks for; keys are bound to actions.
#[derive(Clone, Copy, PartialEq, Eq, Structural, Debug)]
pub enum InputAction {
    Exit,
    TogglePause,
    OpenMap,
    OpenSettingsMenu,
    OpenPartyMenu,
    MenuPrevious,
    MenuNext,
    MenuUp,
    MenuDown,
    MenuLeft,
    MenuRight,
    MoveUp,
    MoveDown,
    MoveLeft,
    MoveRight,
    Activate,
    Run,
    DialogueChoicePrevious,
    DialogueChoiceNext,
    DialogueChoiceConfirm,
    ToggleDebug,
    DebugCameraUp,
    DebugCameraDown,
    DebugCameraLeft,
    DebugCameraRight,
    DebugToggleLayer1,
    DebugToggleLayer2,
    DebugToggleLayer3,
    DebugToggleSprites,
    DebugTogglePalette,
    DebugOverlaysDisable,
    DebugOverlays1,
    DebugOverlays2,
    DebugOverlays3,
    DebugOverlays4,
    DebugOverlays5,
    DebugOverlays6,
    DebugOverlays7,
    DebugOverlays8,
    DebugOverlays9,
    DebugActorStep,
    DebugDump,
}

/// The number of input actions.
pub const ACTION_COUNT: u8 = 42;

/// The number of an action, in the order of declaration.
pub open spec fn action_index(a: InputAction) -> u8 {
    match a {
        InputAction::Exit => 0,
        InputAction::TogglePause => 1,
        InputAction::OpenMap => 2,
        InputAction::OpenSettingsMenu => 3,
        InputAction::OpenPartyMenu => 4,
        InputAction::MenuPrevious => 5,
        InputAction::MenuNext => 6,
        InputAction::MenuUp => 7,
        InputAction::MenuDown => 8,
        InputAction::MenuLeft => 9,
        InputAction::MenuRight => 10,
        InputAction::MoveUp => 11,
        InputAction::MoveDown => 12,
        InputAction::MoveLeft => 13,
        InputAction::MoveRight => 14,
        InputAction::Activate => 15,
        InputAction::Run => 16,
        InputAction::DialogueChoicePrevious => 17,
        InputAction::DialogueChoiceNext => 18,
        InputAction::DialogueChoiceConfirm => 19,
        InputAction::ToggleDebug => 20,
        InputAction::DebugCameraUp => 21,
        InputAction::DebugCameraDown => 22,
        InputAction::DebugCameraLeft => 23,
        InputAction::DebugCameraRight => 24,
        InputAction::DebugToggleLayer1 => 25,
        InputAction::DebugToggleLayer2 => 26,
        InputAction::DebugToggleLayer3 => 27,
        InputAction::DebugToggleSprites => 28,
        InputAction::DebugTogglePalette => 29,
        InputAction::DebugOverlaysDisable => 30,
        InputAction::DebugOverlays1 => 31,
        InputAction::DebugOverlays2 => 32,
        InputAction::DebugOverlays3 => 33,
        InputAction::DebugOverlays4 => 34,
        InputAction::DebugOverlays5 => 35,
        InputAction::DebugOverlays6 => 36,
        InputAction::DebugOverlays7 => 37,
        InputAction::DebugOverlays8 => 38,
        InputAction::DebugOverlays9 => 39,
        InputAction::DebugActorStep => 40,
        InputAction::DebugDump => 41,
    }
}

impl InputAction {
    /// The number of the action.
    pub fn to_index(&self) -> (index: u8)
        ensures
            index == action_index(*self),
    {
        match self {
            InputAction::Exit => 0,
            InputAction::TogglePause => 1,
            InputAction::OpenMap => 2,
            InputAction::OpenSettingsMenu => 3,
            InputAction::OpenPartyMenu => 4,
            InputAction::MenuPrevious => 5,
            InputAction::MenuNext => 6,
            InputAction::MenuUp => 7,
            InputAction::MenuDown => 8,
            InputAction::MenuLeft => 9,
            InputAction::MenuRight => 10,
            InputAction::MoveUp => 11,
            InputAction::MoveDown => 12,
            InputAction::MoveLeft => 13,
            InputAction::MoveRight => 14,
            InputAction::Activate => 15,
            InputAction::Run => 16,
            InputAction::DialogueChoicePrevious => 17,
            InputAction::DialogueChoiceNext => 18,
            InputAction::DialogueChoiceConfirm => 19,
            InputAction::ToggleDebug => 20,
            InputAction::DebugCameraUp => 21,
            InputAction::DebugCameraDown => 22,
            InputAction::DebugCameraLeft => 23,
            InputAction::DebugCameraRight => 24,
            InputAction::DebugToggleLayer1 => 25,
            InputAction::DebugToggleLayer2 => 26,
            InputAction::DebugToggleLayer3 => 27,
            InputAction::DebugToggleSprites => 28,
            InputAction::DebugTogglePalette => 29,
            InputAction::DebugOverlaysDisable => 30,
            InputAction::DebugOverlays1 => 31,
            InputAction::DebugOverlays2 => 32,
            InputAction::DebugOverlays3 => 33,
            InputAction::DebugOverlays4 => 34,
            InputAction::DebugOverlays5 => 35,
            InputAction::DebugOverlays6 => 36,
            InputAction::DebugOverlays7 => 37,
            InputAction::DebugOverlays8 => 38,
            InputAction::DebugOverlays9 => 39,
            InputAction::DebugActorStep => 40,
            InputAction::DebugDump => 41,
        }
    }
}

/// Distinct actions have distinct numbers, all below the action count.
pub proof fn law_action_index_distinct(a: InputAction, b: InputAction)
    ensures
        action_index(a) == action_index(b) ==> a == b,
        action_index(a) < ACTION_COUNT,
{
}

/// The actions bound to keys, and those held, pressed and released since the last clear. Keys
/// are key codes; actions are kept by number.
pub struct InputManager {
    bindings: HashMap<u8, u32>,
    keycode_to_bindings: HashMap<u32, HashSet<u8>>,
    inputs_down: HashSet<u8>,
    inputs_pressed: HashSet<u8>,
    inputs_released: HashSet<u8>,
}

/// The actions bound to a key in a key map; none where the key has no entry.
pub open spec fn actions_of(by_key: Map<u32, Set<u8>>, key: u32) -> Set<u8> {
    if by_key.dom().contains(key) { by_key[key] } else { Set::empty() }
}

impl InputManager {
    /// The key bound to each action, by action number.
    pub closed spec fn bound(&self) -> Map<u8, u32> {
        self.bindings@
    }

    /// The actions each key is bound to.
    pub closed spec fn by_key(&self) -> Map<u32, Set<u8>> {
        self.keycode_to_bindings@.map_values(|s: HashSet<u8>| s@)
    }

    /// The actions whose keys are held.
    pub closed spec fn down(&self) -> Set<u8> {
        self.inputs_down@
    }

    /// The actions pressed since the last clear.
    pub closed spec fn pressed(&self) -> Set<u8> {
        self.inputs_pressed@
    }

    /// The actions released since the last clear.
    pub closed spec fn released(&self) -> Set<u8> {
        self.inputs_released@
    }

    /// No bindings and no input.
    pub fn new() -> (m: InputManager)
        ensures
            m.bound() == Map::<u8, u32>::empty(),
            m.by_key() == Map::<u32, Set<u8>>::empty(),
            m.down() == Set::<u8>::empty(),
            m.pressed() == Set::<u8>::empty(),
            m.released() == Set::<u8>::empty(),
    {
        let m = InputManager {
            bindings: HashMap::new(),
            keycode_to_bindings: HashMap::new(),
            inputs_down: HashSet::new(),
            inputs_pressed: HashSet::new(),
            inputs_released: HashSet::new(),
        };
        assert(m.by_key() =~= Map::<u32, Set<u8>>::empty());
        m
    }

    /// Forgets what was pressed and released; held actions stay held.
    pub fn clear(&mut self)
        ensures
            final(self).pressed() == Set::<u8>::empty(),
            final(self).released() == Set::<u8>::empty(),
            final(self).down() == old(self).down(),
            final(self).bound() == old(self).bound(),
            final(self).by_key() == old(self).by_key(),
    {
        self.inputs_pressed.clear();
        self.inputs_released.clear();
    }

    /// Whether an action's key is held.
    pub fn is_down(&self, action: InputAction) -> (b: bool)
        ensures
            b == self.down().contains(action_index(action)),
    {
        self.inputs_down.contains(&action.to_index())
    }

    /// Whether an action was pressed since the last clear.
    pub fn was_pressed(&self, action: InputAction) -> (b: bool)
        ensures
            b == self.pressed().contains(action_index(action)),
    {
        self.inputs_pressed.contains(&action.to_index())
    }

    /// Whether an action was released since the last clear.
    pub fn was_released(&self, action: InputAction) -> (b: bool)
        ensures
            b == self.released().contains(action_index(action)),
    {
        self.inputs_released.contains(&action.to_index())
    }

    /// Binds a key to an action; the key keeps the actions it was bound to.
    pub fn bind(&mut self, action: InputAction, keycode: u32)
        ensures
            final(self).bound() == old(self).bound().insert(action_index(action), keycode),
            final(self).by_key() == old(self).by_key().insert(keycode, actions_of(old(self).by_key(), keycode).insert(action_index(action))),
            final(self).down() == old(self).down(),
            final(self).pressed() == old(self).pressed(),
            final(self).released() == old(self).released(),
    {
        let index = action.to_index();
        self.bindings.insert(index, keycode);
        let ghost before = self.keycode_to_bindings@;
        let actions = self.keycode_to_bindings.remove(&keycode);
        let mut set = match actions {
            Some(set) => set,
            None => HashSet::new(),
        };
        set.insert(index);
        self.keycode_to_bindings.insert(keycode, set);
        assert(self.by_key() =~= old(self).by_key().insert(keycode, actions_of(old(self).by_key(), keycode).insert(index)));
    }

    /// Unbinds an action, and takes it from the actions of the key.
    pub fn unbind(&mut self, action: InputAction, keycode: u32)
        ensures
            final(self).bound() == old(self).bound().remove(action_index(action)),
            final(self).by_key() == if old(self).by_key().dom().contains(keycode) {
                old(self).by_key().insert(keycode, old(self).by_key()[keycode].remove(action_index(action)))
            } else {
                old(self).by_key()
            },
            final(self).down() == old(self).down(),
            final(self).pressed() == old(self).pressed(),
            final(self).released() == old(self).released(),
    {
        let index = action.to_index();
        self.bindings.remove(&index);
        let actions = self.keycode_to_bindings.remove(&keycode);
        match actions {
            Some(mut set) => {
                set.remove(&index);
                self.keycode_to_bindings.insert(keycode, set);
                assert(self.by_key() =~= old(self).by_key().insert(keycode, old(self).by_key()[keycode].remove(index)));
            },
            None => {
                assert(self.by_key() =~= old(self).by_key());
            },
        }
    }

    /// A key went down: its actions are held and pressed.
    pub fn key_down(&mut self, key: u32)
        ensures
            final(self).down() == old(self).down().union(actions_of(old(self).by_key(), key)),
            final(self).pressed() == old(self).pressed().union(actions_of(old(self).by_key(), key)),
            final(self).released() == old(self).released(),
            final(self).bound() == old(self).bound(),
            final(self).by_key() == old(self).by_key(),
    {
        match self.keycode_to_bindings.get(&key) {
            Some(actions) => {
                let ghost acts = actions@;
                assert(acts == actions_of(old(self).by_key(), key));
                let mut i: u8 = 0;
                while i < 255
                    invariant
                        self.inputs_down@ == old(self).inputs_down@.union(acts.filter(|a: u8| a < i)),
                        self.inputs_pressed@ == old(self).inputs_pressed@.union(acts.filter(|a: u8| a < i)),
                        self.inputs_released@ == old(self).inputs_released@,
                        self.bindings@ == old(self).bindings@,
                        self.keycode_to_bindings@ == old(self).keycode_to_bindings@,
                        actions@ == acts,
                    decreases 255 - i,
                {
                    if actions.contains(&i) {
                        self.inputs_down.insert(i);
                        self.inputs_pressed.insert(i);
                    }
                    i = i + 1;
                    assert(self.inputs_down@ =~= old(self).inputs_down@.union(acts.filter(|a: u8| a < i)));
                    assert(self.inputs_pressed@ =~= old(self).inputs_pressed@.union(acts.filter(|a: u8| a < i)));
                }
                if actions.contains(&255) {
                    self.inputs_down.insert(255);
                    self.inputs_pressed.insert(255);
                }
                assert(self.inputs_down@ =~= old(self).inputs_down@.union(acts));
                assert(self.inputs_pressed@ =~= old(self).inputs_pressed@.union(acts));
            },
            None => {
                assert(actions_of(old(self).by_key(), key) =~= Set::<u8>::empty());
                assert(self.inputs_down@ =~= old(self).inputs_down@.union(Set::<u8>::empty()));
                assert(self.inputs_pressed@ =~= old(self).inputs_pressed@.union(Set::<u8>::empty()));
            },
        }
    }

    /// A key went up: its actions are no longer held and are released.
    pub fn key_up(&mut self, key: u32)
        ensures
            final(self).down() == old(self).down().difference(actions_of(old(self).by_key(), key)),
            final(self).released() == old(self).released().union(actions_of(old(self).by_key(), key)),
            final(self).pressed() == old(self).pressed(),
            final(self).bound() == old(self).bound(),
            final(self).by_key() == old(self).by_key(),
    {
        match self.keycode_to_bindings.get(&key) {
            Some(actions) => {
                let ghost acts = actions@;
                assert(acts == actions_of(old(self).by_key(), key));
                let mut i: u8 = 0;
                while i < 255
                    invariant
                        self.inputs_down@ == old(self).inputs_down@.difference(acts.filter(|a: u8| a < i)),
                        self.inputs_released@ == old(self).inputs_released@.union(acts.filter(|a: u8| a < i)),
                        self.inputs_pressed@ == old(self).inputs_pressed@,
                        self.bindings@ == old(self).bindings@,
                        self.keycode_to_bindings@ == old(self).keycode_to_bindings@,
                        actions@ == acts,
                    decreases 255 - i,
                {
                    if actions.contains(&i) {
                        self.inputs_down.remove(&i);
                        self.inputs_released.insert(i);
                    }
                    i = i + 1;
                    assert(self.inputs_down@ =~= old(self).inputs_down@.difference(acts.filter(|a: u8| a < i)));
                    assert(self.inputs_released@ =~= old(self).inputs_released@.union(acts.filter(|a: u8| a < i)));
                }
                if actions.contains(&255) {
                    self.inputs_down.remove(&255);
                    self.inputs_released.insert(255);
                }
                assert(self.inputs_down@ =~= old(self).inputs_down@.difference(acts));
                assert(self.inputs_released@ =~= old(self).inputs_released@.union(acts));
            },
            None => {
                assert(actions_of(old(self).by_key(), key) =~= Set::<u8>::empty());
                assert(self.inputs_down@ =~= old(self).inputs_down@.difference(Set::<u8>::empty()));
                assert(self.inputs_released@ =~= old(self).inputs_released@.union(Set::<u8>::empty()));
            },
        }
    }
}


/// A key bound to an action holds that action among its actions.
pub proof fn law_bound_key_has_action(before: InputManager, after: InputManager, action: InputAction, keycode: u32)
    requires
        after.by_key() == before.by_key().insert(keycode, actions_of(before.by_key(), keycode).insert(action_index(action))),
    ensures
        actions_of(after.by_key(), keycode).contains(action_index(action)),
{
}

/// Pressing a key and releasing it again leaves none of its actions held, and each of them both
/// pressed and released.
pub proof fn law_press_then_release(before: InputManager, down: InputManager, after: InputManager, key: u32)
    requires
        down.down() == before.down().union(actions_of(before.by_key(), key)),
        down.pressed() == before.pressed().union(actions_of(before.by_key(), key)),
        down.by_key() == before.by_key(),
        after.down() == down.down().difference(actions_of(down.by_key(), key)),
        after.released() == down.released().union(actions_of(down.by_key(), key)),
        after.pressed() == down.pressed(),
    ensures
        forall|a: u8| #[trigger] actions_of(before.by_key(), key).contains(a) ==> !after.down().contains(a)
            && after.pressed().contains(a) && after.released().contains(a),
{
}

} // verus!
