//! Scenes: script decoding, actors, maps and exits.

pub mod ops;
pub mod ops_call;
pub mod ops_copy;
pub mod ops_jump;
pub mod ops_math;
pub mod ops_palette;
pub mod scene_script_decoder;
pub mod scene_script;
pub mod scene;
pub mod scene_exit;
pub mod treasure;
pub mod scene_map;
pub mod actor;
pub mod textbox;
pub mod scene_renderer;
pub mod textbox_layout;
