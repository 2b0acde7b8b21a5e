//! The camera's movement state.
use vstd::prelude::*;

verus! {

/// Whether the camera is moving to a target.
#[derive(Clone, Copy, PartialEq, Eq, Structural, Debug)]
pub enum CameraMoveTo {
    Disabled,
    Enabled,
    Complete,
}

} // verus!
