//! The decisions of the game's views.
pub mod gamestate_scene;
pub mod gamestate_world;
