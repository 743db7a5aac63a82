use f9::camera::{
    Camera, Projection, AXIS_TILT_NANOS, HALF_TURN_NANOS, QUARTER_TURN_NANOS, STRAIGHT_TURN_NANOS,
};
use f9::commands::command::{get_commands, CommandAction, CommandKey};
use f9::commands::view_commands::{BottomView, ChangeProjection, HomeView, TopView};
use f9::math::Vec3i;

#[test]
fn palette_has_the_eight_view_commands() {
    let commands = get_commands();
    assert_eq!(commands.len(), 8);
    let expected = [
        ("Change Projection", Some(CommandKey::Num0), CommandAction::ChangeProjection),
        ("Home View", Some(CommandKey::Num1), CommandAction::HomeView),
        ("Top View", Some(CommandKey::Num8), CommandAction::TopView),
        ("Bottom View", Some(CommandKey::Num2), CommandAction::BottomView),
        ("Front View", Some(CommandKey::Num4), CommandAction::FrontView),
        ("Back View", Some(CommandKey::Num6), CommandAction::BackView),
        ("Left View", Some(CommandKey::Num5), CommandAction::LeftView),
        ("Right View", None, CommandAction::RightView),
    ];
    for (command, (name, key, action)) in commands.iter().zip(expected.iter()) {
        assert_eq!(command.name.as_str(), *name);
        assert_eq!(command.released_key, *key);
        assert_eq!(command.action, *action);
        assert!(command.down_keys.is_empty());
    }
}

#[test]
fn change_projection_toggles_back_and_forth() {
    let mut camera = Camera::default();
    assert_eq!(camera.projection, Projection::Perspective);
    ChangeProjection.start(&mut camera);
    assert_eq!(camera.projection, Projection::Orthographics);
    ChangeProjection.start(&mut camera);
    assert_eq!(camera.projection, Projection::Perspective);
}

#[test]
fn home_view_restores_the_default_angles() {
    let mut camera = Camera::default();
    TopView.start(&mut camera);
    assert_eq!(camera.x_angle, AXIS_TILT_NANOS);
    assert_eq!(camera.y_angle, 0);
    HomeView.start(&mut camera);
    assert_eq!(camera.x_angle, -QUARTER_TURN_NANOS);
    assert_eq!(camera.y_angle, -QUARTER_TURN_NANOS);
    assert_eq!(camera.plane.orientation, Vec3i::new(0, 1000, 0));
}

#[test]
fn bottom_view_tilts_just_off_the_pole() {
    let mut camera = Camera::default();
    BottomView.start(&mut camera);
    assert_eq!(camera.x_angle, -STRAIGHT_TURN_NANOS + AXIS_TILT_NANOS);
    assert_eq!(camera.y_angle, 0);
}

#[test]
fn running_palette_entries_applies_their_action() {
    let commands = get_commands();
    let mut camera = Camera::default();
    // entry 6 is the left view: quarter turns onto the z plane
    commands[6].run(&mut camera);
    assert_eq!(camera.x_angle, -HALF_TURN_NANOS);
    assert_eq!(camera.y_angle, -HALF_TURN_NANOS);
    assert_eq!(camera.plane.orientation, Vec3i::new(0, 0, 1000));
    // entry 7 is the right view: the opposite y angle
    commands[7].run(&mut camera);
    assert_eq!(camera.y_angle, HALF_TURN_NANOS);
    // projection was never touched by the view entries
    assert_eq!(camera.projection, Projection::Perspective);
    commands[0].run(&mut camera);
    assert_eq!(camera.projection, Projection::Orthographics);
}

#[test]
fn view_commands_leave_the_plane_position_alone() {
    let mut camera = Camera::default();
    camera.plane.position = Vec3i::new(5, 6, 7);
    HomeView.start(&mut camera);
    assert_eq!(camera.plane.position, Vec3i::new(5, 6, 7));
}
