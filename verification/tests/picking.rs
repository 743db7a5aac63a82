use f9::component_collection::ComponentCollection;
use f9::components::component::{ComponentIdentifier, ComponentType, HoverElement};
use f9::math::Vec3i;

fn candidate(ctype: ComponentType, index: u32, distance: i64) -> HoverElement {
    HoverElement { index, ctype, distance, position: Vec3i::new(0, 0, 0) }
}

fn selected_flag(c: &ComponentCollection, ctype: ComponentType, index: usize) -> bool {
    c.get_flags(ctype, index).map(|f| f & 4 == 4).unwrap_or(false)
}

fn hover_flag(c: &ComponentCollection, ctype: ComponentType, index: usize) -> bool {
    c.get_flags(ctype, index).map(|f| f & 2 == 2).unwrap_or(false)
}

#[test]
fn point_wins_near_tie_within_epsilon() {
    // a Point at 5.0 and a Line at 5.005 differ by less than epsilon
    // (0.01): the point takes priority, in either candidate order
    let mut c = ComponentCollection::new();
    c.hovers = vec![
        candidate(ComponentType::Point, 0, 5000),
        candidate(ComponentType::Line, 0, 5005),
    ];
    let best = c.get_most_hovered().unwrap();
    assert_eq!(best.ctype, ComponentType::Point);
    assert_eq!(best.distance, 5000);

    let mut c = ComponentCollection::new();
    c.hovers = vec![
        candidate(ComponentType::Line, 0, 5005),
        candidate(ComponentType::Point, 0, 5000),
    ];
    let best = c.get_most_hovered().unwrap();
    assert_eq!(best.ctype, ComponentType::Point);
}

#[test]
fn outside_epsilon_strict_closest_wins() {
    // outside the band the closest candidate wins whatever its kind:
    // a Line at 5.0 beats a Point at 5.02
    let mut c = ComponentCollection::new();
    c.hovers = vec![
        candidate(ComponentType::Line, 0, 5000),
        candidate(ComponentType::Point, 0, 5020),
    ];
    let best = c.get_most_hovered().unwrap();
    assert_eq!(best.ctype, ComponentType::Line);

    let mut c = ComponentCollection::new();
    c.hovers = vec![
        candidate(ComponentType::Point, 0, 5020),
        candidate(ComponentType::Line, 0, 5000),
    ];
    let best = c.get_most_hovered().unwrap();
    assert_eq!(best.ctype, ComponentType::Line);

    // and a Point at 5.0 beats a Line at 5.02
    let mut c = ComponentCollection::new();
    c.hovers = vec![
        candidate(ComponentType::Point, 0, 5000),
        candidate(ComponentType::Line, 0, 5020),
    ];
    let best = c.get_most_hovered().unwrap();
    assert_eq!(best.ctype, ComponentType::Point);
}

#[test]
fn empty_hover_list_resolves_to_none() {
    let mut c = ComponentCollection::new();
    assert!(c.get_most_hovered().is_none());
}

#[test]
fn losing_candidates_get_their_hover_flag_cleared() {
    let mut c = ComponentCollection::new();
    // pre-set hover flags on both candidates' records
    c.update_c(ComponentType::Point, 0, f9::components::component::FlagOp::Hover);
    c.update_c(ComponentType::Line, 0, f9::components::component::FlagOp::Hover);
    assert!(hover_flag(&c, ComponentType::Point, 0));
    assert!(hover_flag(&c, ComponentType::Line, 0));
    c.hovers = vec![
        candidate(ComponentType::Point, 0, 5000),
        candidate(ComponentType::Line, 0, 5005),
    ];
    let best = c.get_most_hovered().unwrap();
    assert_eq!(best.ctype, ComponentType::Point);
    // the losing line's hover flag is cleared, the winner's is kept
    assert!(hover_flag(&c, ComponentType::Point, 0));
    assert!(!hover_flag(&c, ComponentType::Line, 0));
}

#[test]
fn selection_toggle_scenario() {
    let a = (ComponentType::Point, 0u32);
    let b = (ComponentType::Point, 1u32);
    let mut c = ComponentCollection::new();
    assert!(c.selected.is_empty());

    // click A without ctrl: A becomes the sole selection, flagged
    c.hovers = vec![candidate(a.0, a.1, 100)];
    c.update_selected(true, false);
    assert_eq!(c.selected.len(), 1);
    assert_eq!((c.selected[0].ctype, c.selected[0].index), a);
    assert!(selected_flag(&c, a.0, a.1 as usize));

    // click A again without ctrl: everything is deselected, A included
    c.hovers = vec![candidate(a.0, a.1, 100)];
    c.update_selected(true, false);
    assert!(c.selected.is_empty());
    assert!(!selected_flag(&c, a.0, a.1 as usize));

    // click A, then ctrl-click B: both are selected and flagged
    c.hovers = vec![candidate(a.0, a.1, 100)];
    c.update_selected(true, false);
    c.hovers = vec![candidate(b.0, b.1, 100)];
    c.update_selected(true, true);
    assert_eq!(c.selected.len(), 2);
    assert_eq!((c.selected[0].ctype, c.selected[0].index), a);
    assert_eq!((c.selected[1].ctype, c.selected[1].index), b);
    assert!(selected_flag(&c, a.0, a.1 as usize));
    assert!(selected_flag(&c, b.0, b.1 as usize));

    // ctrl-click A again: only A leaves; B stays selected
    c.hovers = vec![candidate(a.0, a.1, 100)];
    c.update_selected(true, true);
    assert_eq!(c.selected.len(), 1);
    assert_eq!((c.selected[0].ctype, c.selected[0].index), b);
    assert!(!selected_flag(&c, a.0, a.1 as usize));
    assert!(selected_flag(&c, b.0, b.1 as usize));
}

#[test]
fn click_without_hover_changes_nothing() {
    let mut c = ComponentCollection::new();
    c.hovers = vec![candidate(ComponentType::Point, 0, 100)];
    c.update_selected(true, false);
    assert_eq!(c.selected.len(), 1);
    // a frame with no hover candidates: the click misses
    c.hovers = Vec::new();
    c.update_selected(true, false);
    assert_eq!(c.selected.len(), 1);
    assert!(selected_flag(&c, ComponentType::Point, 0));
}

#[test]
fn no_click_keeps_the_selection() {
    let mut c = ComponentCollection::new();
    c.hovers = vec![candidate(ComponentType::Point, 0, 100)];
    c.update_selected(true, false);
    c.hovers = vec![candidate(ComponentType::Point, 1, 100)];
    c.update_selected(false, false);
    assert_eq!(c.selected.len(), 1);
    assert_eq!(c.selected[0].index, 0);
}

#[test]
fn stale_candidate_index_is_tolerated() {
    let mut c = ComponentCollection::new();
    // index 99 names no point record: resolution and clicking must not panic
    c.hovers = vec![candidate(ComponentType::Point, 99, 100)];
    let best = c.get_most_hovered().unwrap();
    assert_eq!(best.index, 99);
    c.hovers = vec![candidate(ComponentType::Point, 99, 100)];
    c.update_selected(true, false);
    // the stale target still lands in the selection list (its flag
    // update was a no-op), matching the not-selected click policy
    assert_eq!(c.selected.len(), 1);
    let ident = ComponentIdentifier { index: 99, ctype: ComponentType::Point };
    assert_eq!(c.selected[0], ident);
}
