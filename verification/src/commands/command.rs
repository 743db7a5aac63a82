//! The command palette: named, key-bindable actions over the camera.
//!
//! Commands run synchronously to completion inside one frame; they never
//! suspend. The palette is a closed table: each entry carries a
//! [`CommandAction`] discriminant, and [`Command::run`] dispatches over
//! it, so generic UI code can fire any command without knowing which.

use vstd::prelude::*;
use crate::camera::{
    Camera, Plane, Projection, AXIS_TILT_NANOS, HALF_TURN_NANOS, QUARTER_TURN_NANOS,
    STRAIGHT_TURN_NANOS,
};
use crate::ids::fresh_id;
use crate::math::Vec3i;
use super::view_commands::{
    BackView, BottomView, ChangeProjection, FrontView, HomeView, LeftView, RightView, TopView,
};

verus! {

/// A keyboard key a command can be bound to.
#[derive(Clone, Copy, Debug, PartialEq, Eq, Structural)]
pub enum CommandKey {
    Num0,
    Num1,
    Num2,
    Num3,
    Num4,
    Num5,
    Num6,
    Num7,
    Num8,
    Num9,
}

/// Which camera action a palette entry performs.
#[derive(Clone, Copy, Debug, PartialEq, Eq, Structural)]
pub enum CommandAction {
    ChangeProjection,
    HomeView,
    TopView,
    BottomView,
    FrontView,
    BackView,
    LeftView,
    RightView,
}

/// One palette entry: a unique id, a display name, its key bindings and
/// the action it performs.
pub struct Command {
    pub id: u128,
    pub name: String,
    pub down_keys: Vec<CommandKey>,
    pub released_key: Option<CommandKey>,
    pub action: CommandAction,
}

/// The projection mode after toggling.
pub open spec fn toggled(p: Projection) -> Projection {
    match p {
        Projection::Perspective => Projection::Orthographics,
        Projection::Orthographics => Projection::Perspective,
    }
}

/// What each action does to the camera pose.
pub open spec fn command_effect(action: CommandAction, pre: Camera, post: Camera) -> bool {
    match action {
        CommandAction::ChangeProjection => post == (Camera {
            projection: toggled(pre.projection),
            x_angle: pre.x_angle,
            y_angle: pre.y_angle,
            plane: pre.plane,
            world_mouse_position: pre.world_mouse_position,
        }),
        CommandAction::HomeView => post == (Camera {
            projection: pre.projection,
            x_angle: (-QUARTER_TURN_NANOS) as i64,
            y_angle: (-QUARTER_TURN_NANOS) as i64,
            plane: Plane {
                position: pre.plane.position,
                orientation: Vec3i { x: 0, y: 1000, z: 0 },
            },
            world_mouse_position: pre.world_mouse_position,
        }),
        CommandAction::TopView => post == (Camera {
            projection: pre.projection,
            x_angle: AXIS_TILT_NANOS,
            y_angle: 0,
            plane: Plane {
                position: pre.plane.position,
                orientation: Vec3i { x: 0, y: 1000, z: 0 },
            },
            world_mouse_position: pre.world_mouse_position,
        }),
        CommandAction::BottomView => post == (Camera {
            projection: pre.projection,
            x_angle: (-STRAIGHT_TURN_NANOS + AXIS_TILT_NANOS) as i64,
            y_angle: 0,
            plane: Plane {
                position: pre.plane.position,
                orientation: Vec3i { x: 0, y: 1000, z: 0 },
            },
            world_mouse_position: pre.world_mouse_position,
        }),
        CommandAction::FrontView => post == (Camera {
            projection: pre.projection,
            x_angle: (-HALF_TURN_NANOS) as i64,
            y_angle: 0,
            plane: Plane {
                position: pre.plane.position,
                orientation: Vec3i { x: 1000, y: 0, z: 0 },
            },
            world_mouse_position: pre.world_mouse_position,
        }),
        CommandAction::BackView => post == (Camera {
            projection: pre.projection,
            x_angle: (-HALF_TURN_NANOS) as i64,
            y_angle: (-STRAIGHT_TURN_NANOS) as i64,
            plane: Plane {
                position: pre.plane.position,
                orientation: Vec3i { x: 1000, y: 0, z: 0 },
            },
            world_mouse_position: pre.world_mouse_position,
        }),
        CommandAction::LeftView => post == (Camera {
            projection: pre.projection,
            x_angle: (-HALF_TURN_NANOS) as i64,
            y_angle: (-HALF_TURN_NANOS) as i64,
            plane: Plane {
                position: pre.plane.position,
                orientation: Vec3i { x: 0, y: 0, z: 1000 },
            },
            world_mouse_position: pre.world_mouse_position,
        }),
        CommandAction::RightView => post == (Camera {
            projection: pre.projection,
            x_angle: (-HALF_TURN_NANOS) as i64,
            y_angle: HALF_TURN_NANOS,
            plane: Plane {
                position: pre.plane.position,
                orientation: Vec3i { x: 0, y: 0, z: 1000 },
            },
            world_mouse_position: pre.world_mouse_position,
        }),
    }
}

impl Command {
    /// Performs this entry's action on the camera.
    pub fn run(&self, camera: &mut Camera)
        ensures
            command_effect(self.action, *old(camera), *final(camera)),
    {
        match self.action {
            CommandAction::ChangeProjection => ChangeProjection.start(camera),
            CommandAction::HomeView => HomeView.start(camera),
            CommandAction::TopView => TopView.start(camera),
            CommandAction::BottomView => BottomView.start(camera),
            CommandAction::FrontView => FrontView.start(camera),
            CommandAction::BackView => BackView.start(camera),
            CommandAction::LeftView => LeftView.start(camera),
            CommandAction::RightView => RightView.start(camera),
        }
    }
}

/// Builds one palette entry.
fn make_command(name: &str, released_key: Option<CommandKey>, action: CommandAction) -> (r:
    Command)
    ensures
        r.name@ == name@,
        r.released_key == released_key,
        r.action == action,
        r.down_keys@.len() == 0,
{
    let n = name.to_string();
    proof {
        vstd::string::to_string_from_display_ensures_for_str(name, n);
    }
    Command { id: fresh_id(), name: n, down_keys: Vec::new(), released_key, action }
}

/// The palette: the eight view commands with their key bindings, in
/// their display order.
pub fn get_commands() -> (r: Vec<Command>)
    ensures
        r@.len() == 8,
        r@[0].action == CommandAction::ChangeProjection && r@[0].released_key == Some(
            CommandKey::Num0,
        ) && r@[0].name@ == "Change Projection"@
            && r@[0].down_keys@.len() == 0,
        r@[1].action == CommandAction::HomeView && r@[1].released_key == Some(CommandKey::Num1)
            && r@[1].name@ == "Home View"@
            && r@[1].down_keys@.len() == 0,
        r@[2].action == CommandAction::TopView && r@[2].released_key == Some(CommandKey::Num8)
            && r@[2].name@ == "Top View"@
            && r@[2].down_keys@.len() == 0,
        r@[3].action == CommandAction::BottomView && r@[3].released_key == Some(CommandKey::Num2)
            && r@[3].name@ == "Bottom View"@
            && r@[3].down_keys@.len() == 0,
        r@[4].action == CommandAction::FrontView && r@[4].released_key == Some(CommandKey::Num4)
            && r@[4].name@ == "Front View"@
            && r@[4].down_keys@.len() == 0,
        r@[5].action == CommandAction::BackView && r@[5].released_key == Some(CommandKey::Num6)
            && r@[5].name@ == "Back View"@
            && r@[5].down_keys@.len() == 0,
        r@[6].action == CommandAction::LeftView && r@[6].released_key == Some(CommandKey::Num5)
            && r@[6].name@ == "Left View"@
            && r@[6].down_keys@.len() == 0,
        r@[7].action == CommandAction::RightView && r@[7].released_key == None::<CommandKey>
            && r@[7].name@ == "Right View"@
            && r@[7].down_keys@.len() == 0,
{
    let mut commands: Vec<Command> = Vec::new();
    commands.push(
        make_command("Change Projection", Some(CommandKey::Num0), CommandAction::ChangeProjection),
    );
    commands.push(make_command("Home View", Some(CommandKey::Num1), CommandAction::HomeView));
    commands.push(make_command("Top View", Some(CommandKey::Num8), CommandAction::TopView));
    commands.push(make_command("Bottom View", Some(CommandKey::Num2), CommandAction::BottomView));
    commands.push(make_command("Front View", Some(CommandKey::Num4), CommandAction::FrontView));
    commands.push(make_command("Back View", Some(CommandKey::Num6), CommandAction::BackView));
    commands.push(make_command("Left View", Some(CommandKey::Num5), CommandAction::LeftView));
    commands.push(make_command("Right View", None, CommandAction::RightView));
    commands
}

} // verus!
