//! The view commands: synchronous camera pose changes.
//!
//! Each command runs to completion inside one frame; none of them
//! suspends. They write the orbital angles in nano-radians and pick the
//! reference plane the mouse ray is intersected with.

use vstd::prelude::*;
use crate::camera::{
    Camera, Projection, AXIS_TILT_NANOS, HALF_TURN_NANOS, QUARTER_TURN_NANOS, STRAIGHT_TURN_NANOS,
};
use crate::math::Vec3i;

verus! {

pub struct ChangeProjection;

pub struct HomeView;

pub struct TopView;

pub struct BottomView;

pub struct FrontView;

pub struct BackView;

pub struct LeftView;

pub struct RightView;

impl ChangeProjection {
    /// Switches between perspective and orthographic projection.
    pub fn start(&self, camera: &mut Camera)
        ensures
            final(camera).projection == match old(camera).projection {
                Projection::Perspective => Projection::Orthographics,
                Projection::Orthographics => Projection::Perspective,
            },
            final(camera).x_angle == old(camera).x_angle,
            final(camera).y_angle == old(camera).y_angle,
            final(camera).plane == old(camera).plane,
            final(camera).world_mouse_position == old(camera).world_mouse_position,
    {
        match camera.projection {
            Projection::Perspective => {
                camera.projection = Projection::Orthographics;
            }
            Projection::Orthographics => {
                camera.projection = Projection::Perspective;
            }
        }
    }
}

impl HomeView {
    /// Both orbital angles a quarter turn back, picking on the ground plane.
    pub fn start(&self, camera: &mut Camera)
        ensures
            final(camera).x_angle == -QUARTER_TURN_NANOS,
            final(camera).y_angle == -QUARTER_TURN_NANOS,
            final(camera).plane.orientation == (Vec3i { x: 0, y: 1000, z: 0 }),
            final(camera).plane.position == old(camera).plane.position,
            final(camera).projection == old(camera).projection,
            final(camera).world_mouse_position == old(camera).world_mouse_position,
    {
        camera.x_angle = -QUARTER_TURN_NANOS;
        camera.y_angle = -QUARTER_TURN_NANOS;
        camera.plane.orientation = Vec3i::new(0, 1000, 0);
    }
}

impl TopView {
    /// Looking straight down, with a tiny tilt against degeneracy.
    pub fn start(&self, camera: &mut Camera)
        ensures
            final(camera).x_angle == AXIS_TILT_NANOS,
            final(camera).y_angle == 0,
            final(camera).plane.orientation == (Vec3i { x: 0, y: 1000, z: 0 }),
            final(camera).plane.position == old(camera).plane.position,
            final(camera).projection == old(camera).projection,
            final(camera).world_mouse_position == old(camera).world_mouse_position,
    {
        camera.x_angle = AXIS_TILT_NANOS;
        camera.y_angle = 0;
        camera.plane.orientation = Vec3i::new(0, 1000, 0);
    }
}

impl BottomView {
    /// Looking straight up, with the same tiny tilt.
    pub fn start(&self, camera: &mut Camera)
        ensures
            final(camera).x_angle == -STRAIGHT_TURN_NANOS + AXIS_TILT_NANOS,
            final(camera).y_angle == 0,
            final(camera).plane.orientation == (Vec3i { x: 0, y: 1000, z: 0 }),
            final(camera).plane.position == old(camera).plane.position,
            final(camera).projection == old(camera).projection,
            final(camera).world_mouse_position == old(camera).world_mouse_position,
    {
        camera.x_angle = -STRAIGHT_TURN_NANOS + AXIS_TILT_NANOS;
        camera.y_angle = 0;
        camera.plane.orientation = Vec3i::new(0, 1000, 0);
    }
}

impl FrontView {
    /// Facing the scene from the front, picking on the x plane.
    pub fn start(&self, camera: &mut Camera)
        ensures
            final(camera).x_angle == -HALF_TURN_NANOS,
            final(camera).y_angle == 0,
            final(camera).plane.orientation == (Vec3i { x: 1000, y: 0, z: 0 }),
            final(camera).plane.position == old(camera).plane.position,
            final(camera).projection == old(camera).projection,
            final(camera).world_mouse_position == old(camera).world_mouse_position,
    {
        camera.x_angle = -HALF_TURN_NANOS;
        camera.y_angle = 0;
        camera.plane.orientation = Vec3i::new(1000, 0, 0);
    }
}

impl BackView {
    /// Facing the scene from behind, picking on the x plane.
    pub fn start(&self, camera: &mut Camera)
        ensures
            final(camera).x_angle == -HALF_TURN_NANOS,
            final(camera).y_angle == -STRAIGHT_TURN_NANOS,
            final(camera).plane.orientation == (Vec3i { x: 1000, y: 0, z: 0 }),
            final(camera).plane.position == old(camera).plane.position,
            final(camera).projection == old(camera).projection,
            final(camera).world_mouse_position == old(camera).world_mouse_position,
    {
        camera.x_angle = -HALF_TURN_NANOS;
        camera.y_angle = -STRAIGHT_TURN_NANOS;
        camera.plane.orientation = Vec3i::new(1000, 0, 0);
    }
}

impl LeftView {
    /// Facing the scene from the left, picking on the z plane.
    pub fn start(&self, camera: &mut Camera)
        ensures
            final(camera).x_angle == -HALF_TURN_NANOS,
            final(camera).y_angle == -HALF_TURN_NANOS,
            final(camera).plane.orientation == (Vec3i { x: 0, y: 0, z: 1000 }),
            final(camera).plane.position == old(camera).plane.position,
            final(camera).projection == old(camera).projection,
            final(camera).world_mouse_position == old(camera).world_mouse_position,
    {
        camera.x_angle = -HALF_TURN_NANOS;
        camera.y_angle = -HALF_TURN_NANOS;
        camera.plane.orientation = Vec3i::new(0, 0, 1000);
    }
}

impl RightView {
    /// Facing the scene from the right, picking on the z plane.
    pub fn start(&self, camera: &mut Camera)
        ensures
            final(camera).x_angle == -HALF_TURN_NANOS,
            final(camera).y_angle == HALF_TURN_NANOS,
            final(camera).plane.orientation == (Vec3i { x: 0, y: 0, z: 1000 }),
            final(camera).plane.position == old(camera).plane.position,
            final(camera).projection == old(camera).projection,
            final(camera).world_mouse_position == old(camera).world_mouse_position,
    {
        camera.x_angle = -HALF_TURN_NANOS;
        camera.y_angle = HALF_TURN_NANOS;
        camera.plane.orientation = Vec3i::new(0, 0, 1000);
    }
}

} // verus!
