//! One open document: its scene state and its live interactions.

use vstd::prelude::*;
use crate::camera::Camera;
use crate::component_collection::{seeded, ComponentCollection};
use crate::dispatchers::dispatcher::DispatcherRegistry;

verus! {

/// The mutable scene state every interaction runs against: the camera
/// pose, the entity stores, and whether the primary button was clicked
/// this frame.
pub struct ProjectState {
    pub camera: Camera,
    pub components: ComponentCollection,
    pub is_mouse_clicked: bool,
}

impl ProjectState {
    /// A fresh scene over the documented seed data: every store holds
    /// exactly its seed records, mirrored, with nothing hovered or
    /// selected yet.
    pub fn new() -> (r: ProjectState)
        ensures
            r.components.wf(),
            seeded(r.components),
            r.camera == Camera::spec_default(),
            !r.is_mouse_clicked,
    {
        ProjectState {
            camera: Camera::default(),
            components: ComponentCollection::new(),
            is_mouse_clicked: false,
        }
    }
}

/// A document: a name, its scene state, and the registry of its live
/// dispatchers. `D` is whatever the host wraps its dispatcher closures
/// in; the registry only manages their ids, order and lifecycle.
pub struct Project<D> {
    pub name: String,
    pub state: ProjectState,
    pub dispatchers: DispatcherRegistry<D>,
}

impl<D> Project<D> {
    /// A fresh document: the seeded scene under the default name, with
    /// no dispatcher registered or announced.
    pub fn new() -> (r: Project<D>)
        ensures
            r.name@ == "New Project"@,
            r.state.components.wf(),
            seeded(r.state.components),
            r.state.camera == Camera::spec_default(),
            !r.state.is_mouse_clicked,
            r.dispatchers.entries@.len() == 0,
            r.dispatchers.queue@.len() == 0,
    {
        let name = "New Project".to_string();
        proof {
            vstd::string::to_string_from_display_ensures_for_str("New Project", name);
        }
        Project { name, state: ProjectState::new(), dispatchers: DispatcherRegistry::new() }
    }
}

/// Appends a fresh document and selects it: the tab strip's add button.
pub fn add_document<T, F: FnOnce() -> T>(
    items: &mut Vec<T>,
    selected_index: &mut usize,
    create_new: F,
)
    requires
        call_requires(create_new, ()),
    ensures
        final(items)@.len() == old(items)@.len() + 1,
        forall|j: int| 0 <= j < old(items)@.len() ==> final(items)@[j] == old(items)@[j],
        call_ensures(create_new, (), final(items)@[old(items)@.len() as int]),
        *final(selected_index) == old(items)@.len(),
{
    items.push(create_new());
    *selected_index = items.len() - 1;
}

/// Closes document `index`: removes it, creates a fresh document when
/// the last one closed so at least one is always open, and clamps the
/// selected index back into range. The tab strip's close button.
pub fn close_document<T, F: FnOnce() -> T>(
    items: &mut Vec<T>,
    selected_index: &mut usize,
    index: usize,
    create_new: F,
)
    requires
        index < old(items)@.len(),
        call_requires(create_new, ()),
    ensures
        old(items)@.len() > 1 ==> {
            &&& final(items)@ == old(items)@.remove(index as int)
            &&& *final(selected_index) == if *old(selected_index) >= old(items)@.len() - 1 {
                (old(items)@.len() - 2) as int
            } else {
                *old(selected_index) as int
            }
        },
        old(items)@.len() == 1 ==> {
            &&& final(items)@.len() == 1
            &&& call_ensures(create_new, (), final(items)@[0])
            &&& *final(selected_index) == 0
        },
{
    let _closed = items.remove(index);
    if items.len() == 0 {
        items.push(create_new());
    }
    if *selected_index >= items.len() {
        *selected_index = items.len() - 1;
    }
}

} // verus!
