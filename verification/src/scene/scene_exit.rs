//! A scene exit as an area and a destination.
use crate::destination::Destination;
use crate::util::vec2di32::Vec2Di32;
use vstd::prelude::*;

verus! {

/// An exit of a scene: the area that triggers it and where it leads.
#[derive(Clone, Copy, PartialEq, Eq, Structural, Debug)]
pub struct SceneExit {
    pub index: usize,
    pub pos: Vec2Di32,
    pub size: Vec2Di32,
    pub destination: Destination,
}

} // verus!
