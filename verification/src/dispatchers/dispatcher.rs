//! The dispatcher registry and its message-based lifecycle.
//!
//! Interactions announce their own registration and removal through a
//! queue of [`DispatcherEvent`]s that the owning document consumes once
//! per frame: the call site that creates a dispatcher is itself
//! suspended across frames, so it can never touch the registry
//! directly. The registry keeps its entries in registration order,
//! which is the order the interact phase drives them in.

use vstd::prelude::*;
use crate::component_array::ComponentArray;
use crate::components::component::Component;
use crate::components::point::{self, Point};
use crate::ids::fresh_id;
use crate::math::Vec3i;

verus! {

/// A registration or removal announcement.
pub enum DispatcherEvent<D> {
    Add(u128, D),
    Remove(u128),
}

/// The position of the first entry with id `id`, or `-1`.
pub open spec fn entry_index<D>(entries: Seq<(u128, D)>, id: u128) -> int
    decreases entries.len(),
{
    if entries.len() == 0 {
        -1
    } else if entries[0].0 == id {
        0
    } else {
        let r = entry_index(entries.drop_first(), id);
        if r < 0 {
            -1
        } else {
            r + 1
        }
    }
}

/// Whether some entry carries id `id`.
pub open spec fn has_entry<D>(entries: Seq<(u128, D)>, id: u128) -> bool {
    entry_index(entries, id) >= 0
}

/// `entry_index` names the first entry with the id when there is one.
pub proof fn lemma_entry_index_found<D>(entries: Seq<(u128, D)>, id: u128, q: int)
    requires
        0 <= q < entries.len(),
        entries[q].0 == id,
        forall|m: int| 0 <= m < q ==> (#[trigger] entries[m]).0 != id,
    ensures
        entry_index(entries, id) == q,
    decreases entries.len(),
{
    if q > 0 {
        lemma_entry_index_found(entries.drop_first(), id, q - 1);
    }
}

/// `entry_index` is `-1` exactly when no entry carries the id.
pub proof fn lemma_entry_index_missing<D>(entries: Seq<(u128, D)>, id: u128)
    requires
        forall|m: int| 0 <= m < entries.len() ==> (#[trigger] entries[m]).0 != id,
    ensures
        entry_index(entries, id) == -1,
    decreases entries.len(),
{
    if entries.len() > 0 {
        lemma_entry_index_missing(entries.drop_first(), id);
    }
}

/// One announcement applied to the entry list: an `Add` overwrites the
/// entry already carrying that id or appends a new one; a `Remove`
/// drops the entry carrying the id, if any.
pub open spec fn apply_event<D>(entries: Seq<(u128, D)>, e: DispatcherEvent<D>) -> Seq<(u128, D)> {
    match e {
        DispatcherEvent::Add(id, d) => {
            let i = entry_index(entries, id);
            if i >= 0 {
                entries.update(i, (id, d))
            } else {
                entries.push((id, d))
            }
        },
        DispatcherEvent::Remove(id) => {
            let i = entry_index(entries, id);
            if i >= 0 {
                entries.remove(i)
            } else {
                entries
            }
        },
    }
}

/// A whole queue of announcements applied in order.
pub open spec fn apply_events<D>(
    entries: Seq<(u128, D)>,
    events: Seq<DispatcherEvent<D>>,
) -> Seq<(u128, D)>
    decreases events.len(),
{
    if events.len() == 0 {
        entries
    } else {
        apply_events(apply_event(entries, events[0]), events.drop_first())
    }
}

/// Applying one more trailing announcement is applying it last.
pub proof fn lemma_apply_events_snoc<D>(
    entries: Seq<(u128, D)>,
    events: Seq<DispatcherEvent<D>>,
    e: DispatcherEvent<D>,
)
    ensures
        apply_events(entries, events.push(e)) == apply_event(apply_events(entries, events), e),
    decreases events.len(),
{
    if events.len() == 0 {
        let ae = apply_event(entries, e);
        assert(events.push(e)[0] == e);
        assert(events.push(e).drop_first() =~= Seq::<DispatcherEvent<D>>::empty());
        assert(apply_events(ae, events.push(e).drop_first()) == ae);
        assert(apply_events(entries, events.push(e)) == apply_events(
            apply_event(entries, events.push(e)[0]),
            events.push(e).drop_first(),
        ));
        assert(apply_events(entries, events) == entries);
    } else {
        assert(events.push(e)[0] == events[0]);
        assert(events.push(e).drop_first() =~= events.drop_first().push(e));
        assert(apply_events(entries, events.push(e)) == apply_events(
            apply_event(entries, events.push(e)[0]),
            events.push(e).drop_first(),
        ));
        lemma_apply_events_snoc(apply_event(entries, events[0]), events.drop_first(), e);
        assert(apply_events(entries, events) == apply_events(
            apply_event(entries, events[0]),
            events.drop_first(),
        ));
    }
}

/// The registry of live dispatchers for one document, with the queue of
/// announcements to be consumed at the next frame boundary.
pub struct DispatcherRegistry<D> {
    pub entries: Vec<(u128, D)>,
    pub queue: Vec<DispatcherEvent<D>>,
}

impl<D> DispatcherRegistry<D> {
    /// An empty registry.
    pub fn new() -> (r: Self)
        ensures
            r.entries@.len() == 0,
            r.queue@.len() == 0,
    {
        DispatcherRegistry { entries: Vec::new(), queue: Vec::new() }
    }

    /// Announces the registration of `dispatcher` under a fresh id and
    /// hands the id back, so the announcer can later remove it.
    pub fn announce_add(&mut self, dispatcher: D) -> (id: u128)
        ensures
            final(self).entries == old(self).entries,
            final(self).queue@ == old(self).queue@.push(DispatcherEvent::Add(id, dispatcher)),
    {
        let id = fresh_id();
        self.queue.push(DispatcherEvent::Add(id, dispatcher));
        id
    }

    /// Announces the removal of the dispatcher registered under `id`.
    pub fn announce_remove(&mut self, id: u128)
        ensures
            final(self).entries == old(self).entries,
            final(self).queue@ == old(self).queue@.push(DispatcherEvent::Remove(id)),
    {
        self.queue.push(DispatcherEvent::Remove(id));
    }

    /// The position of the first entry with id `id`.
    fn find_entry(&self, id: u128) -> (r: Option<usize>)
        ensures
            match r {
                Some(p) => p < self.entries@.len() && entry_index(self.entries@, id) == p as int,
                None => entry_index(self.entries@, id) == -1,
            },
    {
        let n = self.entries.len();
        let mut q: usize = 0;
        while q < n
            invariant
                q <= n,
                n == self.entries@.len(),
                forall|m: int| 0 <= m < q ==> (#[trigger] self.entries@[m]).0 != id,
            decreases n - q,
        {
            if self.entries[q].0 == id {
                proof {
                    lemma_entry_index_found(self.entries@, id, q as int);
                }
                return Some(q);
            }
            q = q + 1;
        }
        proof {
            lemma_entry_index_missing(self.entries@, id);
        }
        None
    }

    /// Consumes the queued announcements in order, applying each to the
    /// entry list.
    pub fn process_events(&mut self)
        ensures
            final(self).entries@ == apply_events(old(self).entries@, old(self).queue@),
            final(self).queue@.len() == 0,
    {
        let ghost orig_entries = self.entries@;
        let ghost orig_queue = self.queue@;
        let mut k: usize = 0;
        let q0: usize = self.queue.len();
        let ghost qlen = orig_queue.len();
        while self.queue.len() > 0
            invariant
                qlen == orig_queue.len(),
                qlen == q0,
                k <= qlen,
                self.queue@ =~= orig_queue.subrange(k as int, qlen as int),
                self.entries@ == apply_events(orig_entries, orig_queue.subrange(0, k as int)),
            decreases self.queue@.len(),
        {
            let ghost qpre = self.queue@;
            let e = self.queue.remove(0);
            proof {
                assert(0 <= k as int <= qlen as int <= orig_queue.len());
                assert(qpre.len() == qlen - k);
                assert(k < qlen);
                assert(qpre[0] == orig_queue.subrange(k as int, qlen as int)[0]);
                assert(orig_queue.subrange(k as int, qlen as int)[0] == orig_queue[k as int]);
                assert(e == orig_queue[k as int]);
                assert forall|m: int| 0 <= m < qpre.len() - 1 implies qpre.remove(0)[m]
                    == orig_queue[k as int + 1 + m] by {
                    assert(qpre[m + 1] == orig_queue.subrange(k as int, qlen as int)[m + 1]);
                }
                assert(self.queue@ =~= orig_queue.subrange(k as int + 1, qlen as int));
            }
            match e {
                DispatcherEvent::Add(id, d) => {
                    match self.find_entry(id) {
                        Some(i) => {
                            self.entries[i] = (id, d);
                        }
                        None => {
                            self.entries.push((id, d));
                        }
                    }
                }
                DispatcherEvent::Remove(id) => {
                    match self.find_entry(id) {
                        Some(i) => {
                            let _removed = self.entries.remove(i);
                        }
                        None => {}
                    }
                }
            }
            proof {
                lemma_apply_events_snoc(
                    orig_entries,
                    orig_queue.subrange(0, k as int),
                    orig_queue[k as int],
                );
                assert(orig_queue.subrange(0, k as int).push(orig_queue[k as int])
                    =~= orig_queue.subrange(0, k as int + 1));
            }
            k = k + 1;
        }
        proof {
            assert(orig_queue.subrange(0, k as int) =~= orig_queue);
        }
    }

    /// How many dispatchers are registered.
    pub fn len(&self) -> (r: usize)
        ensures
            r == self.entries@.len(),
    {
        self.entries.len()
    }

    /// Whether a dispatcher is registered under `id`.
    pub fn contains(&self, id: u128) -> (r: bool)
        ensures
            r == has_entry(self.entries@, id),
    {
        self.find_entry(id).is_some()
    }

    /// Takes the front entry out, so the interact phase can drive it
    /// against the live scene and then requeue it.
    pub fn take_first(&mut self) -> (r: Option<(u128, D)>)
        ensures
            final(self).queue == old(self).queue,
            match r {
                Some(e) => old(self).entries@.len() > 0 && e == old(self).entries@[0]
                    && final(self).entries@ == old(self).entries@.drop_first(),
                None => old(self).entries@.len() == 0 && final(self).entries == old(self).entries,
            },
    {
        if self.entries.len() > 0 {
            let e = self.entries.remove(0);
            proof {
                assert(self.entries@ =~= old(self).entries@.drop_first());
            }
            Some(e)
        } else {
            None
        }
    }

    /// Puts a driven dispatcher back at the end of the round.
    pub fn requeue(&mut self, id: u128, dispatcher: D)
        ensures
            final(self).queue == old(self).queue,
            final(self).entries@ == old(self).entries@.push((id, dispatcher)),
    {
        self.entries.push((id, dispatcher));
    }
}

/// Announces a modal-window dispatcher and hands back the id that later
/// removes it. A window dispatcher never completes on its own.
pub fn window<D>(registry: &mut DispatcherRegistry<D>, dispatcher: D) -> (r: u128)
    ensures
        final(registry).entries == old(registry).entries,
        final(registry).queue@ == old(registry).queue@.push(DispatcherEvent::Add(r, dispatcher)),
{
    registry.announce_add(dispatcher)
}

/// Announces the removal of the dispatcher registered under `dispatcher_id`.
pub fn remove<D>(registry: &mut DispatcherRegistry<D>, dispatcher_id: u128)
    ensures
        final(registry).entries == old(registry).entries,
        final(registry).queue@ == old(registry).queue@.push(
            DispatcherEvent::Remove(dispatcher_id),
        ),
{
    registry.announce_remove(dispatcher_id)
}

/// One tick of the point-placement interaction: with `create_point`,
/// the draft point is created at the mouse position on the first tick
/// and moved there on every later one, so the whole interaction adds at
/// most one point however many frames it spans; a confirming click
/// completes with the draft index and position. Without `create_point`
/// the store is untouched and index 0 stands in.
pub fn select_point_tick(
    points: &mut ComponentArray<Point>,
    draft: &mut Option<usize>,
    create_point: bool,
    pos: Vec3i,
    mouse_clicked: bool,
) -> (r: Option<(usize, Vec3i)>)
    requires
        old(points).wf(),
    ensures
        final(points).wf(),
        ({
            let plen = old(points).array@.len();
            if !create_point {
                &&& *final(points) == *old(points)
                &&& *final(draft) == *old(draft)
                &&& r == if mouse_clicked {
                    Some((0usize, pos))
                } else {
                    None::<(usize, Vec3i)>
                }
            } else {
                match *old(draft) {
                    Some(i) => if i < plen {
                        &&& final(points).array@ == old(points).array@.update(
                            i as int,
                            Component {
                                data: Point { position: pos },
                                flags: old(points).array@[i as int].flags,
                            },
                        )
                        &&& *final(draft) == *old(draft)
                        &&& r == if mouse_clicked {
                            Some((i, pos))
                        } else {
                            None::<(usize, Vec3i)>
                        }
                    } else {
                        &&& final(points).array@ == old(points).array@.push(
                            Component { data: Point { position: pos }, flags: 1u32 },
                        )
                        &&& *final(draft) == Some(plen as usize)
                        &&& r == if mouse_clicked {
                            Some((plen as usize, pos))
                        } else {
                            None::<(usize, Vec3i)>
                        }
                    },
                    None => {
                        &&& final(points).array@ == old(points).array@.push(
                            Component { data: Point { position: pos }, flags: 1u32 },
                        )
                        &&& *final(draft) == Some(plen as usize)
                        &&& r == if mouse_clicked {
                            Some((plen as usize, pos))
                        } else {
                            None::<(usize, Vec3i)>
                        }
                    },
                }
            }
        }),
{
    let point_index: usize = if create_point {
        let insert = move || -> (c: Component<Point>)
            ensures
                c == (Component { data: Point { position: pos }, flags: 1u32 }),
            {
                point::new(pos)
            };
        let update = move |c: Component<Point>| -> (c2: Component<Point>)
            ensures
                c2 == (Component { data: Point { position: pos }, flags: c.flags }),
            {
                Component { data: Point { position: pos }, flags: c.flags }
            };
        points.push_or_update(draft, insert, update)
    } else {
        0
    };
    if mouse_clicked {
        Some((point_index, pos))
    } else {
        None
    }
}

} // verus!
