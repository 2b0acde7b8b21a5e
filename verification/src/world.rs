//! World maps: the overworld of each era.
pub mod world_exit;
pub mod world_map;
