use ctviewer::facing::Facing;
use ctviewer::scene::actor::{
    sprite_enabled, sprite_priorities_at, DrawMode, SceneActorAnimation, SceneActorClass, SCENE_ACTOR_DEAD,
    SCENE_ACTOR_SPRITE_PRIORITY_LOCKED,
};
use ctviewer::scene::scene_map::{SceneMap, ScenePropLayer, SceneTileProps};
use ctviewer::sprites::{AnimationMode, SpriteAnim, SpriteAnimFrame, SpriteAnimSet, SpritePriority};

fn anim(delays: &[u32]) -> SpriteAnim {
    let mut frames = Vec::new();
    for (i, d) in delays.iter().enumerate() {
        frames.push(SpriteAnimFrame { sprite_frames: [i * 4, i * 4 + 1, i * 4 + 2, i * 4 + 3], delay: *d });
    }
    SpriteAnim { frames }
}

#[test]
fn animation_counts_down_then_advances() {
    let a = anim(&[2, 3, 4]);
    let mut s = SceneActorAnimation::new();
    s.anim_delay = 2;
    s.tick_animation(&a);
    assert_eq!(s.anim_delay, 1);
    assert_eq!(s.anim_frame, 0);
    s.tick_animation(&a);
    assert_eq!(s.anim_frame, 1);
    assert_eq!(s.anim_delay, 3);
}

#[test]
fn animation_wraps_to_first_frame() {
    let a = anim(&[5, 6]);
    let mut s = SceneActorAnimation::new();
    s.anim_frame = 1;
    s.tick_animation(&a);
    assert_eq!(s.anim_frame, 0);
    assert_eq!(s.anim_delay, 5);
}

#[test]
fn counted_loop_stops_on_last_frame() {
    let a = anim(&[1, 1]);
    let mut s = SceneActorAnimation::new();
    s.anim_mode = AnimationMode::LoopCount;
    s.anim_loops_remaining = 2;
    s.anim_frame = 1;
    s.tick_animation(&a);
    assert_eq!(s.anim_loops_remaining, 1);
    assert_eq!(s.anim_frame, 1);
    s.tick_animation(&a);
    assert_eq!(s.anim_loops_remaining, 1);
    assert_eq!(s.anim_frame, 1);
}

#[test]
fn counted_loop_uses_up_two() {
    let a = anim(&[1, 1]);
    let mut s = SceneActorAnimation::new();
    s.anim_mode = AnimationMode::LoopCount;
    s.anim_loops_remaining = 5;
    s.anim_frame = 1;
    s.tick_animation(&a);
    assert_eq!(s.anim_loops_remaining, 3);
    assert_eq!(s.anim_frame, 0);
}

#[test]
fn disabled_animation_only_counts_down() {
    let a = anim(&[1, 1]);
    let mut s = SceneActorAnimation::new();
    s.anim_enabled = false;
    s.tick_animation(&a);
    assert_eq!(s.anim_frame, 0);
    assert_eq!(s.anim_delay, 0);
}

#[test]
fn movement_picks_running_walking_standing() {
    let mut s = SceneActorAnimation::new();
    s.animate_for_movement(SceneActorClass::PC1, true, true);
    assert_eq!(s.anim_index, 6);
    s.animate_for_movement(SceneActorClass::NPC, true, true);
    assert_eq!(s.anim_index, 1);
    s.animate_for_movement(SceneActorClass::NPC, false, false);
    assert_eq!(s.anim_index, 0);
}

#[test]
fn static_animation_starts_looping() {
    let mut s = SceneActorAnimation::new();
    s.anim_mode = AnimationMode::Static;
    s.anim_index = 3;
    s.animate_for_movement(SceneActorClass::PC1, true, true);
    assert_eq!(s.anim_mode, AnimationMode::Loop);
    assert_eq!(s.anim_index, 3);
    s.anim_mode = AnimationMode::Static;
    s.anim_index = 0xFF;
    s.animate_for_movement(SceneActorClass::PC1, false, true);
    assert_eq!(s.anim_mode, AnimationMode::Stopped);
    assert_eq!(s.anim_index, 1);
}

#[test]
fn reset_returns_to_first_animation() {
    let mut s = SceneActorAnimation::new();
    s.anim_index = 4;
    s.anim_frame = 2;
    s.anim_delay = 7;
    s.reset_animation();
    assert_eq!((s.anim_index, s.anim_frame, s.anim_delay), (0, 0, 0));
    s.anim_index = 4;
    s.anim_mode = AnimationMode::Loop;
    s.reset_animation();
    assert_eq!(s.anim_index, 4);
}

#[test]
fn tick_shows_frame_for_facing() {
    let mut set = SpriteAnimSet::new(0);
    set.add_anim(anim(&[1, 1]));
    let mut s = SceneActorAnimation::new();
    s.tick(false, Facing::Left, &set);
    assert_eq!(s.anim_frame, 1);
    assert_eq!(s.sprite_frame, 6);
    s.tick(true, Facing::Left, &set);
    assert!(!s.anim_enabled);
    assert_eq!(s.anim_frame, 1);
}

#[test]
fn tick_static_shows_frozen_frame() {
    let set = SpriteAnimSet::new(0);
    let mut s = SceneActorAnimation::new();
    s.anim_mode = AnimationMode::Static;
    s.anim_frame_static = 9;
    s.tick(false, Facing::Down, &set);
    assert_eq!(s.sprite_frame, 9);
}

#[test]
fn sprites_show_for_drawn_living_classed_actors() {
    assert!(sprite_enabled(DrawMode::Draw, 0, SceneActorClass::NPC));
    assert!(!sprite_enabled(DrawMode::Hidden, 0, SceneActorClass::NPC));
    assert!(!sprite_enabled(DrawMode::Draw, SCENE_ACTOR_DEAD, SceneActorClass::NPC));
    assert!(!sprite_enabled(DrawMode::Draw, 0, SceneActorClass::Undefined));
}

#[test]
fn sprite_priorities_come_from_the_tile_below() {
    let mut tile = SceneTileProps::default();
    tile.sprite_priority_top = SpritePriority::AboveAll;
    tile.sprite_priority_bottom = SpritePriority::BelowAll;
    let map = SceneMap { index: 0, props: ScenePropLayer { width: 2, height: 1, props: vec![SceneTileProps::default(), tile] } };
    let current = (SpritePriority::BelowL1L2, SpritePriority::BelowL1L2);
    assert_eq!(sprite_priorities_at(0, current, &map, 20, 5), (SpritePriority::AboveAll, SpritePriority::BelowAll));
    assert_eq!(sprite_priorities_at(SCENE_ACTOR_SPRITE_PRIORITY_LOCKED, current, &map, 20, 5), current);
    assert_eq!(sprite_priorities_at(0, current, &map, 20, 40), current);
}
