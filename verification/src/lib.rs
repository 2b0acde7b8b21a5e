//! Data decoding and game-state logic for viewing Chrono Trigger scenes and worlds.

pub mod reader;
pub mod fmt;
pub mod memory;
pub mod scene;
pub mod items;
pub mod character;
pub mod party;
pub mod bitmap;
pub mod map;
pub mod tileset;
pub mod sprites;
pub mod surface;
pub mod renderer;
pub mod map_renderer;
pub mod palette;
pub mod game_palette;
pub mod palette_anim;
pub mod l10n;
pub mod assets;
pub mod actor;
pub mod camera;
pub mod util;
pub mod facing;
pub mod destination;
pub mod next_destination;
pub mod world;
pub mod filesystem;
pub mod gamestate;
pub mod input;

use vstd::prelude::*;

verus! {

/// Which release of the game the data comes from.
#[derive(Clone, Copy, PartialEq, Eq, Structural, Debug)]
pub enum GameMode {
    Pc,
    Snes,
}

/// Something that happened in the game that the main loop acts on.
#[derive(Clone, Copy, PartialEq, Eq, Structural, Debug)]
pub enum GameEvent {
    GotoDestination { destination: destination::Destination, fade_in: bool },
}

} // verus!
