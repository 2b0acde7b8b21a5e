//! Decoding of the game's data files: headers, maps, tilesets, exits, treasure, text.
pub mod world;
pub mod scene;
pub mod text_decoder;
pub mod maps;
pub mod sprite;
pub mod tileset;
pub mod resourcesbin;
pub mod backend_snes;
pub mod backend_pc;
pub mod palette;
pub mod strings;
