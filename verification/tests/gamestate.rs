use ctviewer::destination::Destination;
use ctviewer::facing::Facing;
use ctviewer::gamestate::gamestate_scene::{
    call_actor_function, click_action, get_actor_at, get_exit_at, get_treasure_at, hover_target, treasure_label,
    HoverTarget, SceneClick, SceneKey, SceneKeyAction, SceneKeys, SceneMouseButton, ScriptCallState, ACTIVATE_FUNCTION,
    TOUCH_FUNCTION,
};
use ctviewer::gamestate::gamestate_world::{
    get_world_exit_at, world_sprite_setup, WorldControls, WorldDebugLayer, WorldKey, WorldKeyAction,
};
use ctviewer::map_renderer::{MapRenderer, LAYER_1, LAYER_SPRITES};
use ctviewer::scene::actor::{DrawMode, SCENE_ACTOR_DEAD};
use ctviewer::scene::scene::SceneTreasure;
use ctviewer::scene::scene_exit::SceneExit;
use ctviewer::scene::scene_renderer::{SceneDebugLayer, SceneRenderer};
use ctviewer::sprites::SpritePriority;
use ctviewer::surface::Surface;
use ctviewer::util::vec2di32::Vec2Di32;
use ctviewer::world::world_exit::{WorldExit, WorldExitType};

fn renderers() -> (SceneRenderer, MapRenderer) {
    (SceneRenderer::new(Surface::new(1, 1), Surface::new(1, 1)), MapRenderer::new(4, 4))
}

#[test]
fn movement_keys_are_held_until_released() {
    let (mut sr, mut mr) = renderers();
    let mut keys = SceneKeys::new();
    assert_eq!(keys.key_down(&mut sr, &mut mr, SceneKey::W, false, false, false), SceneKeyAction::Nothing);
    assert_eq!(keys.key_down(&mut sr, &mut mr, SceneKey::A, false, false, false), SceneKeyAction::Nothing);
    assert!(keys.key_up && keys.key_left);
    assert_eq!(keys.camera_direction(), (-1, -1));
    keys.key_up(SceneKey::W);
    assert!(!keys.key_up);
    assert_eq!(keys.camera_direction(), (-1, 0));
}

#[test]
fn text_box_choices_take_the_movement_keys() {
    let (mut sr, mut mr) = renderers();
    let mut keys = SceneKeys::new();
    assert_eq!(keys.key_down(&mut sr, &mut mr, SceneKey::W, true, true, false), SceneKeyAction::ChoicePrevious);
    assert_eq!(keys.key_down(&mut sr, &mut mr, SceneKey::S, true, true, false), SceneKeyAction::ChoiceNext);
    assert_eq!(keys.key_down(&mut sr, &mut mr, SceneKey::F, true, false, false), SceneKeyAction::ProgressTextbox);
    assert!(!keys.key_up && !keys.key_down && !keys.key_activate);
}

#[test]
fn number_keys_switch_layers_and_letters_choose_overlays() {
    let (mut sr, mut mr) = renderers();
    let mut keys = SceneKeys::new();
    let before = mr.layer_enabled;
    assert_eq!(
        keys.key_down(&mut sr, &mut mr, SceneKey::Num1, false, false, false),
        SceneKeyAction::LayerToggled { layer: LAYER_1, enabled: false }
    );
    assert_eq!(mr.layer_enabled, before ^ LAYER_1);
    assert_eq!(
        keys.key_down(&mut sr, &mut mr, SceneKey::Num1, false, false, false),
        SceneKeyAction::LayerToggled { layer: LAYER_1, enabled: true }
    );
    assert_eq!(keys.key_down(&mut sr, &mut mr, SceneKey::X, false, false, false), SceneKeyAction::DebugLayerChosen { layer: SceneDebugLayer::PcCollision });
    assert_eq!(sr.debug_layer, SceneDebugLayer::PcCollision);
    assert_eq!(keys.key_down(&mut sr, &mut mr, SceneKey::Num5, false, false, false), SceneKeyAction::PaletteToggled);
    assert!(sr.debug_palette);
    assert_eq!(keys.key_down(&mut sr, &mut mr, SceneKey::Space, false, false, true), SceneKeyAction::StepDebugActor);
    assert_eq!(keys.key_down(&mut sr, &mut mr, SceneKey::Other, false, false, true), SceneKeyAction::Nothing);
}

fn exit_at(x: i32, y: i32) -> SceneExit {
    SceneExit {
        index: 0,
        pos: Vec2Di32 { x, y },
        size: Vec2Di32 { x: 16, y: 16 },
        destination: Destination::from_data(1, Facing::Down, 0, 0, 0, 0, 0),
    }
}

#[test]
fn exits_are_found_with_an_eight_pixel_margin() {
    let exits = vec![exit_at(100, 100), exit_at(200, 200)];
    assert_eq!(get_exit_at(&exits, Vec2Di32 { x: 92, y: 100 }), Some(0));
    assert_eq!(get_exit_at(&exits, Vec2Di32 { x: 91, y: 100 }), None);
    assert_eq!(get_exit_at(&exits, Vec2Di32 { x: 223, y: 223 }), Some(1));
    assert_eq!(get_exit_at(&exits, Vec2Di32 { x: 224, y: 223 }), None);
}

#[test]
fn treasure_and_actors_are_hit_by_their_squares() {
    let treasure = vec![SceneTreasure { id: String::new(), tile_x: 2, tile_y: 3, gold: 0, item: 0 }];
    assert_eq!(get_treasure_at(&treasure, Vec2Di32 { x: 32, y: 48 }), Some(0));
    assert_eq!(get_treasure_at(&treasure, Vec2Di32 { x: 48, y: 48 }), None);
    let actors = vec![Vec2Di32 { x: 50, y: 50 }, Vec2Di32 { x: 52, y: 50 }];
    assert_eq!(get_actor_at(&actors, Vec2Di32 { x: 44, y: 40 }), Some(0));
    assert_eq!(get_actor_at(&actors, Vec2Di32 { x: 59, y: 40 }), Some(1));
    assert_eq!(get_actor_at(&actors, Vec2Di32 { x: 44, y: 50 }), None);
}

#[test]
fn hovering_prefers_actors_then_exits_then_treasure() {
    assert_eq!(hover_target(Some(1), Some(2), Some(3)), HoverTarget::Actor(1));
    assert_eq!(hover_target(None, Some(2), Some(3)), HoverTarget::Exit(2));
    assert_eq!(hover_target(None, None, Some(3)), HoverTarget::Treasure(3));
    assert_eq!(hover_target(None, None, None), HoverTarget::Nothing);
}

#[test]
fn treasure_labels() {
    assert_eq!(treasure_label(250, 7, "Potion"), "250 gold");
    assert_eq!(treasure_label(0, 7, "Potion"), "Potion");
    assert_eq!(treasure_label(0, 0, "Potion"), "Empty");
}

#[test]
fn clicks() {
    assert_eq!(click_action(SceneMouseButton::Middle, None, Some(1)), SceneClick::FollowActor(None));
    assert_eq!(click_action(SceneMouseButton::Left, Some(2), Some(1)), SceneClick::ActivateActor(2));
    assert_eq!(click_action(SceneMouseButton::Left, None, Some(1)), SceneClick::TakeExit(1));
    assert_eq!(click_action(SceneMouseButton::Right, None, Some(1)), SceneClick::Nothing);
    assert_eq!(click_action(SceneMouseButton::Right, Some(4), None), SceneClick::TouchActor(4));
}

fn call_state(priority: usize) -> ScriptCallState {
    let mut function_ptrs = [0usize; 16];
    function_ptrs[1] = 0x100;
    function_ptrs[2] = 0x200;
    ScriptCallState { current_address: 0x50, current_priority: priority, priority_return_ptrs: [0; 8], function_ptrs, delay_counter: 9 }
}

#[test]
fn activation_calls_a_less_urgent_script() {
    let mut state = call_state(4);
    assert!(call_actor_function(DrawMode::Draw, 0, &mut state, ACTIVATE_FUNCTION));
    assert_eq!(state.current_address, 0x100);
    assert_eq!(state.current_priority, 1);
    assert_eq!(state.priority_return_ptrs[4], 0x50);
    assert_eq!(state.delay_counter, 0);

    let mut busy = call_state(2);
    assert!(!call_actor_function(DrawMode::Draw, 0, &mut busy, TOUCH_FUNCTION));
    assert_eq!(busy.current_address, 0x50);

    let mut dead = call_state(7);
    assert!(!call_actor_function(DrawMode::Draw, SCENE_ACTOR_DEAD, &mut dead, TOUCH_FUNCTION));
    let mut hidden = call_state(7);
    assert!(!call_actor_function(DrawMode::Hidden, 0, &mut hidden, TOUCH_FUNCTION));
}

#[test]
fn world_controls() {
    let mut mr = MapRenderer::new(4, 4);
    let mut c = WorldControls::new();
    assert_eq!(c.key_down(&mut mr, WorldKey::D), WorldKeyAction::Nothing);
    assert_eq!(c.camera_direction(), (1, 0));
    assert_eq!(c.key_down(&mut mr, WorldKey::V), WorldKeyAction::DebugLayerChosen { layer: WorldDebugLayer::Music });
    assert_eq!(c.debug_layer, WorldDebugLayer::Music);
    assert_eq!(c.key_down(&mut mr, WorldKey::Num4), WorldKeyAction::LayerToggled { layer: LAYER_SPRITES, enabled: false });
    c.key_up(WorldKey::D);
    assert_eq!(c.camera_direction(), (0, 0));
}

#[test]
fn world_exits_are_sixteen_pixel_squares() {
    let exit = WorldExit {
        index: 0,
        pos: Vec2Di32 { x: 64, y: 32 },
        is_available: true,
        name_index: 0,
        exit_type: WorldExitType::Scripted { pointer_index: 0 },
        unknown: 0,
    };
    let exits = vec![exit];
    assert_eq!(get_world_exit_at(&exits, Vec2Di32 { x: 79, y: 47 }), Some(0));
    assert_eq!(get_world_exit_at(&exits, Vec2Di32 { x: 80, y: 47 }), None);
}

#[test]
fn world_sprites_take_palette_and_priority_from_one_byte() {
    let s = world_sprite_setup(0x35);
    assert_eq!(s.palette_offset, 128 + 2 * 16);
    assert!(s.camera_relative);
    assert_eq!(s.priority, SpritePriority::AboveAll);
    assert_eq!(world_sprite_setup(0x10).priority, SpritePriority::BelowL1L2);
    assert_eq!(world_sprite_setup(0x02).priority, SpritePriority::BelowAll);
}
