//! The movement commands the input layer hands to the application's
//! camera.  The camera arithmetic itself (view matrices, angles) lives
//! with the application; the library only fixes the command vocabulary.

use vstd::prelude::*;

verus! {

/// A camera movement direction, relative to the camera's own frame.
#[allow(non_camel_case_types)]
#[derive(Clone, Copy, Debug, PartialEq, Eq)]
pub enum CameraMoveDirection {
    FORWARD,
    BACKWARD,
    LEFT,
    RIGHT,
    UP,
    DOWN,
}

} // verus!
