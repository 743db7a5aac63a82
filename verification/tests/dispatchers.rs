use f9::component_array::ComponentArray;
use f9::components::point::Point;
use f9::dispatchers::dispatcher::{
    remove, select_point_tick, window, DispatcherRegistry,
};
use f9::dispatchers::oncedispatcher::OnceDispatcher;
use f9::dispatchers::uidispatcher::UiDispatcher;
use f9::dispatchers::waitfordispatcher::WaitForDispatcher;
use f9::dispatchers::windowdispatcher::WindowDispatcher;
use f9::math::Vec3i;

#[test]
fn wait_for_dispatcher_completes_on_fourth_tick() {
    let mut registry: DispatcherRegistry<WaitForDispatcher<u64>> = DispatcherRegistry::new();
    let id = registry.announce_add(WaitForDispatcher::new());
    registry.process_events();
    assert!(registry.contains(id));

    // three ticks with nothing to report keep it pending and registered
    for _ in 0..3 {
        let (eid, mut d) = registry.take_first().unwrap();
        let completed = d.interact(None);
        assert!(!completed);
        assert!(!d.is_complete());
        registry.requeue(eid, d);
        assert!(registry.contains(id));
    }

    // the fourth tick produces the value; the owner consumes it and
    // removes the dispatcher at once
    let (eid, mut d) = registry.take_first().unwrap();
    let completed = d.interact(Some(42));
    assert!(completed);
    assert_eq!(d.take(), Some(42));
    registry.requeue(eid, d);
    registry.announce_remove(id);
    registry.process_events();
    assert!(!registry.contains(id));
    assert_eq!(registry.len(), 0);
}

#[test]
fn once_dispatcher_runs_exactly_once() {
    let mut d: OnceDispatcher<i32> = OnceDispatcher::new();
    assert!(d.should_run());
    d.publish(7);
    assert!(!d.should_run());
    assert_eq!(d.take(), Some(7));
    assert_eq!(d.take(), None);
    assert!(!d.should_run());
}

#[test]
fn second_publish_is_dropped_silently() {
    let mut d: OnceDispatcher<i32> = OnceDispatcher::new();
    d.publish(1);
    d.publish(2);
    assert_eq!(d.take(), Some(1));

    let mut w: WaitForDispatcher<i32> = WaitForDispatcher::new();
    assert!(w.interact(Some(10)));
    assert!(w.interact(Some(11)));
    assert_eq!(w.take(), Some(10));
}

#[test]
fn ui_dispatcher_completes_like_wait_for() {
    let mut d: UiDispatcher<&str> = UiDispatcher::new();
    assert!(!d.draw_tick(None));
    assert!(d.draw_tick(Some("done")));
    assert_eq!(d.take(), Some("done"));
}

#[test]
fn window_dispatcher_never_completes() {
    let d = WindowDispatcher::new("circle radius editor");
    assert_eq!(d.window_name, "circle radius editor");
    assert!(!d.is_complete());

    let mut registry: DispatcherRegistry<WindowDispatcher> = DispatcherRegistry::new();
    let id = window(&mut registry, d);
    registry.process_events();
    assert!(registry.contains(id));
    // only the explicit removal announcement takes it out
    remove(&mut registry, id);
    registry.process_events();
    assert!(!registry.contains(id));
}

#[test]
fn add_for_a_registered_id_overwrites_in_place() {
    let mut registry: DispatcherRegistry<u32> = DispatcherRegistry::new();
    let a = registry.announce_add(10);
    let b = registry.announce_add(20);
    registry.process_events();
    assert_eq!(registry.len(), 2);
    // re-announcing id `a` replaces its entry without reordering
    registry.queue.push(f9::dispatchers::dispatcher::DispatcherEvent::Add(a, 11));
    registry.process_events();
    assert_eq!(registry.len(), 2);
    assert_eq!(registry.entries[0], (a, 11));
    assert_eq!(registry.entries[1], (b, 20));
    // removing an unknown id changes nothing
    registry.announce_remove(a.wrapping_add(1).wrapping_add(b));
    registry.process_events();
    assert_eq!(registry.len(), 2);
}

#[test]
fn events_are_consumed_in_announcement_order() {
    let mut registry: DispatcherRegistry<u32> = DispatcherRegistry::new();
    let id = registry.announce_add(5);
    registry.announce_remove(id);
    registry.process_events();
    // the add lands first, the remove then takes it out again
    assert_eq!(registry.len(), 0);
    assert!(registry.queue.is_empty());
}

#[test]
fn select_point_builds_one_draft_across_ticks() {
    let mut points: ComponentArray<Point> = ComponentArray::new(vec![f9::components::point::new(
        Vec3i::new(0, 0, 0),
    )]);
    let mut draft: Option<usize> = None;

    // first tick: the draft point appears at the mouse position
    let r = select_point_tick(&mut points, &mut draft, true, Vec3i::new(10, 0, 0), false);
    assert_eq!(r, None);
    assert_eq!(draft, Some(1));
    assert_eq!(points.array.len(), 2);
    assert_eq!(points.array[1].data.position, Vec3i::new(10, 0, 0));

    // later ticks drag it along without growing the store
    let r = select_point_tick(&mut points, &mut draft, true, Vec3i::new(20, 5, 0), false);
    assert_eq!(r, None);
    assert_eq!(points.array.len(), 2);
    assert_eq!(points.array[1].data.position, Vec3i::new(20, 5, 0));

    // the confirming click completes with the draft index and position
    let r = select_point_tick(&mut points, &mut draft, true, Vec3i::new(30, 5, 0), true);
    assert_eq!(r, Some((1, Vec3i::new(30, 5, 0))));
    assert_eq!(points.array.len(), 2);
    assert_eq!(points.array[1].data.position, Vec3i::new(30, 5, 0));
}

#[test]
fn select_point_without_creation_leaves_the_store_alone() {
    let mut points: ComponentArray<Point> = ComponentArray::new(vec![f9::components::point::new(
        Vec3i::new(1, 2, 3),
    )]);
    let mut draft: Option<usize> = None;
    let r = select_point_tick(&mut points, &mut draft, false, Vec3i::new(9, 9, 9), true);
    assert_eq!(r, Some((0, Vec3i::new(9, 9, 9))));
    assert_eq!(points.array.len(), 1);
    assert_eq!(draft, None);
}
