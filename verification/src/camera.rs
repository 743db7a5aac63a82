//! The camera's discrete pose state.
//!
//! The matrix and unprojection math runs outside this crate on floats;
//! what the command and interaction logic reads and writes is modelled
//! here exactly: the projection mode, the two orbital angles in
//! nano-radians (1e-9 rad), the reference plane the mouse ray is
//! intersected with, and the fixed-point world-space mouse position that
//! the host writes back after each ray update.

use vstd::prelude::*;
use crate::math::Vec3i;

verus! {

/// A quarter turn, `pi/4`, in nano-radians.
pub const QUARTER_TURN_NANOS: i64 = 785_398_163;

/// A half turn, `pi/2`, in nano-radians.
pub const HALF_TURN_NANOS: i64 = 1_570_796_327;

/// A full straight angle, `pi`, in nano-radians.
pub const STRAIGHT_TURN_NANOS: i64 = 3_141_592_653;

/// The tiny tilt (1e-8 rad) that keeps the top and bottom views clear of
/// a degenerate look-at direction.
pub const AXIS_TILT_NANOS: i64 = 10;

/// How the camera projects the scene.
#[derive(Clone, Copy, Debug, PartialEq, Eq, Structural)]
pub enum Projection {
    Perspective,
    Orthographics,
}

/// The movable reference plane that the picking ray is intersected with
/// to produce the world-space mouse position.
#[derive(Clone, Copy, Debug, PartialEq, Eq, Structural)]
pub struct Plane {
    pub position: Vec3i,
    pub orientation: Vec3i,
}

/// The camera pose the verified logic reads and writes.
#[derive(Clone, Copy, Debug, PartialEq, Eq, Structural)]
pub struct Camera {
    pub projection: Projection,
    pub x_angle: i64,
    pub y_angle: i64,
    pub plane: Plane,
    pub world_mouse_position: Vec3i,
}

impl Default for Camera {
    /// The home pose: perspective projection, both orbital angles a
    /// quarter turn back, picking against the ground plane.
    fn default() -> (r: Camera)
        ensures
            r == Camera::spec_default(),
    {
        Camera {
            projection: Projection::Perspective,
            x_angle: (-QUARTER_TURN_NANOS) as i64,
            y_angle: (-QUARTER_TURN_NANOS) as i64,
            plane: Plane {
                position: Vec3i { x: 0, y: 0, z: 0 },
                orientation: Vec3i { x: 0, y: 1000, z: 0 },
            },
            world_mouse_position: Vec3i { x: 0, y: 0, z: 0 },
        }
    }
}

impl Camera {
    /// The home pose.
    pub open spec fn spec_default() -> Camera {
        Camera {
            projection: Projection::Perspective,
            x_angle: (-QUARTER_TURN_NANOS) as i64,
            y_angle: (-QUARTER_TURN_NANOS) as i64,
            plane: Plane {
                position: Vec3i { x: 0, y: 0, z: 0 },
                orientation: Vec3i { x: 0, y: 1000, z: 0 },
            },
            world_mouse_position: Vec3i { x: 0, y: 0, z: 0 },
        }
    }
}

} // verus!
