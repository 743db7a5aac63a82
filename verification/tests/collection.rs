use f9::component_collection::ComponentCollection;
use f9::components::component::{ComponentType, FlagOp};
use f9::math::{midpoint, Vec3i};
use f9::project::{Project, ProjectState};

#[test]
fn seed_scene_matches_the_documented_contents() {
    let c = ComponentCollection::new();
    assert!(c.hovers.is_empty());
    assert!(c.selected.is_empty());

    // four unit-square points, all visible
    let positions: Vec<Vec3i> = c.points.array.iter().map(|p| p.data.position).collect();
    assert_eq!(
        positions,
        vec![
            Vec3i::new(0, 0, 0),
            Vec3i::new(1000, 1000, 0),
            Vec3i::new(1000, 0, 0),
            Vec3i::new(0, 1000, 0),
        ]
    );
    assert!(c.points.array.iter().all(|p| p.flags == 1));

    // axes: x hidden, x, y hidden, z — flags 0, 1, 0, 1
    let axis_flags: Vec<u32> = c.axises.array.iter().map(|v| v.flags).collect();
    assert_eq!(axis_flags, vec![0, 1, 0, 1]);
    // grids: only the y grid visible
    let grid_flags: Vec<u32> = c.grids.array.iter().map(|v| v.flags).collect();
    assert_eq!(grid_flags, vec![0, 0, 1, 0]);
    // arrows and arrow planes: one hidden marker per axis
    assert_eq!(c.arrows.array.len(), 3);
    assert_eq!(c.arrow_planes.array.len(), 3);
    assert!(c.arrows.array.iter().all(|v| v.flags == 0));

    // one line, one bezier, one circle
    assert_eq!(c.lines.array.len(), 1);
    assert_eq!((c.lines.array[0].data.point_a, c.lines.array[0].data.point_b), (0, 1));
    assert_eq!(c.beziers.array.len(), 1);
    let b = c.beziers.array[0].data;
    assert_eq!((b.point_a, b.point_b, b.control_a, b.control_b), (0, 3, 2, 1));
    assert_eq!(c.circles.array.len(), 1);
    let circle = c.circles.array[0].data;
    assert_eq!(circle.center, 0);
    assert_eq!(circle.radius, 2500);
    assert_eq!(circle.orientation, Vec3i::new(1000, 0, 0));
    assert_eq!(circle.heightfactor, 0);
}

#[test]
fn centers_follow_each_kind_s_rule() {
    let c = ComponentCollection::new();
    // a point's center is its own position
    assert_eq!(c.get_center(ComponentType::Point, 1), Some(Vec3i::new(1000, 1000, 0)));
    // the seed line joins points 0 and 1: its center is their midpoint
    assert_eq!(c.get_center(ComponentType::Line, 0), Some(Vec3i::new(500, 500, 0)));
    // the seed circle is centered on point 0
    assert_eq!(c.get_center(ComponentType::Circle, 0), Some(Vec3i::new(0, 0, 0)));
    // a bezier reports the origin
    assert_eq!(c.get_center(ComponentType::Bezier, 0), Some(Vec3i::new(0, 0, 0)));
    // stale indices give no center
    assert_eq!(c.get_center(ComponentType::Point, 99), None);
    assert_eq!(c.get_center(ComponentType::Line, 4), None);
}

#[test]
fn midpoint_rounds_toward_the_first_coordinate() {
    assert_eq!(midpoint(Vec3i::new(0, 0, 0), Vec3i::new(5, -5, 1)), Vec3i::new(2, -2, 0));
    assert_eq!(midpoint(Vec3i::new(10, 10, 10), Vec3i::new(10, 10, 10)), Vec3i::new(10, 10, 10));
    assert_eq!(
        midpoint(Vec3i::new(i64::MIN, 0, 0), Vec3i::new(i64::MAX, 0, 0)),
        Vec3i::new(-1, 0, 0)
    );
}

#[test]
fn dangling_point_reference_gives_no_center() {
    let mut c = ComponentCollection::new();
    c.lines.update(0, |mut l| {
        l.data.point_b = 77;
        l
    });
    assert_eq!(c.get_center(ComponentType::Line, 0), None);
}

#[test]
fn flag_dispatch_reaches_exactly_one_record() {
    let mut c = ComponentCollection::new();
    c.update_c(ComponentType::Circle, 0, FlagOp::Selected);
    assert!(c.is_selected(ComponentType::Circle, 0));
    assert!(!c.is_selected(ComponentType::Point, 0));
    assert!(!c.is_selected(ComponentType::Line, 0));
    // a stale index is a tolerated no-op
    c.update_c(ComponentType::Point, 40, FlagOp::Selected);
    assert!(!c.is_selected(ComponentType::Point, 40));
    assert_eq!(c.get_flags(ComponentType::Point, 40), None);
}

#[test]
fn closing_tabs_keeps_one_document_and_clamps_the_selection() {
    let mut docs = vec!["a", "b", "c"];
    let mut selected: usize = 2;
    f9::project::close_document(&mut docs, &mut selected, 1, || "fresh");
    assert_eq!(docs, vec!["a", "c"]);
    assert_eq!(selected, 1);
    f9::project::close_document(&mut docs, &mut selected, 1, || "fresh");
    assert_eq!(docs, vec!["a"]);
    assert_eq!(selected, 0);
    // closing the last document replaces it with a fresh one
    f9::project::close_document(&mut docs, &mut selected, 0, || "fresh");
    assert_eq!(docs, vec!["fresh"]);
    assert_eq!(selected, 0);
    f9::project::add_document(&mut docs, &mut selected, || "new tab");
    assert_eq!(docs, vec!["fresh", "new tab"]);
    assert_eq!(selected, 1);
}

#[test]
fn fresh_project_owns_the_seed_scene() {
    let project: Project<u32> = Project::new();
    assert_eq!(project.name.as_str(), "New Project");
    assert!(!project.state.is_mouse_clicked);
    assert_eq!(project.dispatchers.entries.len(), 0);

    // the new document is fully seeded, exactly as a standalone
    // collection would be
    let c = &project.state.components;
    assert!(c.hovers.is_empty());
    assert!(c.selected.is_empty());
    let positions: Vec<Vec3i> = c.points.array.iter().map(|p| p.data.position).collect();
    assert_eq!(
        positions,
        vec![
            Vec3i::new(0, 0, 0),
            Vec3i::new(1000, 1000, 0),
            Vec3i::new(1000, 0, 0),
            Vec3i::new(0, 1000, 0),
        ]
    );
    assert_eq!((c.lines.array[0].data.point_a, c.lines.array[0].data.point_b), (0, 1));
    let b = c.beziers.array[0].data;
    assert_eq!((b.point_a, b.point_b, b.control_a, b.control_b), (0, 3, 2, 1));
    let circle = c.circles.array[0].data;
    assert_eq!((circle.center, circle.radius), (0, 2500));
    // every cross-store index the seed mentions is in bounds
    let n = c.points.array.len() as u32;
    assert!(c.lines.array[0].data.point_a < n && c.lines.array[0].data.point_b < n);
    assert!(circle.center < n);
    assert!(b.point_a < n && b.point_b < n && b.control_a < n && b.control_b < n);
    // each store's device mirror matches its array's encoded length
    assert_eq!(c.points.buffer.len(), c.points.array.len() * 28);
    assert_eq!(c.lines.buffer.len(), c.lines.array.len() * 12);
    assert_eq!(c.circles.buffer.len(), c.circles.array.len() * 48);
    assert_eq!(c.beziers.buffer.len(), c.beziers.array.len() * 20);
    assert_eq!(c.axises.buffer.len(), c.axises.array.len() * 52);

    let state = ProjectState::new();
    assert_eq!(state.camera.projection, f9::camera::Projection::Perspective);
    assert_eq!(state.camera.x_angle, -f9::camera::QUARTER_TURN_NANOS);
    assert_eq!(state.camera.plane.orientation, Vec3i::new(0, 1000, 0));
}
