//! The aggregate of all typed entity stores for one scene.
//!
//! One store per entity kind, plus the per-frame hover candidate list and
//! the persistent selection list. Generic code reaches "the store for
//! kind k" through a closed match over [`ComponentType`], never through
//! open-ended dispatch: flag mutations go through [`ComponentCollection::update_c`],
//! reads through [`ComponentCollection::get_flags`] and
//! [`ComponentCollection::get_center`].

use vstd::prelude::*;
use crate::component_array::{ComponentArray, lemma_store_flag_updated_views};
use crate::components::bezier::Bezier;
use crate::components::circle::Circle;
use crate::components::component::{
    Component, ComponentFlags, ComponentIdentifier, ComponentType, FlagOp, HoverElement,
    apply_flag_spec, has_flag,
};
use crate::components::line::Line;
use crate::components::point::Point;
use crate::components::vertex::{Vertex, unit_x, unit_y, unit_z};
use crate::components::{bezier, circle, line, point, vertex};
use crate::math::{Vec3i, mid_vec};

verus! {

/// The tie-break tolerance of the hover resolver, in milli-units of
/// distance along the picking ray: point entities win against other
/// kinds whenever the two distances differ by no more than this.
pub const HOVER_EPSILON_MILLI: i64 = 10;

/// The absolute difference of two distances.
pub open spec fn abs_diff(a: int, b: int) -> int {
    if a >= b {
        a - b
    } else {
        b - a
    }
}

/// Whether the challenger candidate displaces the current best. The rule
/// is asymmetric by kind: a point displaces a point only by being
/// strictly closer; a non-point displaces a point only by being strictly
/// closer *and* clear of the epsilon band; a point displaces a non-point
/// by being closer *or* within the band; a non-point displaces a
/// non-point only by being strictly closer.
pub open spec fn beats(chal: HoverElement, best: HoverElement) -> bool {
    if best.ctype == ComponentType::Point {
        if chal.ctype == ComponentType::Point {
            chal.distance < best.distance
        } else {
            chal.distance < best.distance && abs_diff(chal.distance as int, best.distance as int)
                > HOVER_EPSILON_MILLI
        }
    } else {
        if chal.ctype == ComponentType::Point {
            chal.distance < best.distance || abs_diff(chal.distance as int, best.distance as int)
                <= HOVER_EPSILON_MILLI
        } else {
            chal.distance < best.distance
        }
    }
}

/// The index of the winning candidate among the first `n`, scanning
/// left to right from candidate 0 and replacing the best whenever a
/// later candidate beats it.
pub open spec fn winner_upto(hovers: Seq<HoverElement>, n: int) -> int
    decreases n,
{
    if n <= 1 {
        0
    } else {
        let w = winner_upto(hovers, n - 1);
        if beats(hovers[n - 1], hovers[w]) {
            n - 1
        } else {
            w
        }
    }
}

/// The winning candidate's position in the hover list.
pub open spec fn most_hovered_index(hovers: Seq<HoverElement>) -> int {
    winner_upto(hovers, hovers.len() as int)
}

/// The net effect of the tie-break rule on two candidates, a point and
/// a non-point, whatever order they arrive in: within the epsilon band
/// the point wins; outside it the strictly closer candidate wins
/// regardless of kind.
pub proof fn lemma_tie_break_two(a: HoverElement, b: HoverElement)
    requires
        a.ctype == ComponentType::Point,
        b.ctype != ComponentType::Point,
    ensures
        abs_diff(a.distance as int, b.distance as int) <= HOVER_EPSILON_MILLI ==> {
            &&& most_hovered_index(seq![a, b]) == 0
            &&& most_hovered_index(seq![b, a]) == 1
        },
        abs_diff(a.distance as int, b.distance as int) > HOVER_EPSILON_MILLI && a.distance
            < b.distance ==> {
            &&& most_hovered_index(seq![a, b]) == 0
            &&& most_hovered_index(seq![b, a]) == 1
        },
        abs_diff(a.distance as int, b.distance as int) > HOVER_EPSILON_MILLI && b.distance
            < a.distance ==> {
            &&& most_hovered_index(seq![a, b]) == 1
            &&& most_hovered_index(seq![b, a]) == 0
        },
{
    let ab = seq![a, b];
    let ba = seq![b, a];
    assert(winner_upto(ab, 1) == 0);
    assert(winner_upto(ba, 1) == 0);
    assert(most_hovered_index(ab) == if beats(ab[1], ab[0]) {
        1int
    } else {
        0int
    });
    assert(most_hovered_index(ba) == if beats(ba[1], ba[0]) {
        1int
    } else {
        0int
    });
}

/// Whether some candidate other than the winner names record `j` of
/// kind `k`: exactly the records whose hover flag the resolver clears.
pub open spec fn nonwinner_hovered(pre: ComponentCollection, k: ComponentType, j: int) -> bool {
    exists|t: int|
        0 <= t < pre.hovers@.len() && t != most_hovered_index(pre.hovers@) && (
        #[trigger] pre.hovers@[t]).ctype == k && pre.hovers@[t].index as int == j
}

/// The flag word of record `j` of kind `k` after hover resolution: the
/// hover bit is cleared on every record named by a losing candidate and
/// nothing else changes.
pub open spec fn hover_cleared_flag(pre: ComponentCollection, k: ComponentType, j: int) -> u32 {
    if nonwinner_hovered(pre, k, j) {
        pre.kind_flags(k)[j] & !ComponentFlags::Hover.spec_mask()
    } else {
        pre.kind_flags(k)[j]
    }
}

/// The position of the first occurrence of `x` in `s`, or `-1` when `s`
/// does not contain it.
pub open spec fn first_index_of(s: Seq<ComponentIdentifier>, x: ComponentIdentifier) -> int
    decreases s.len(),
{
    if s.len() == 0 {
        -1
    } else if s[0] == x {
        0
    } else {
        let r = first_index_of(s.drop_first(), x);
        if r < 0 {
            -1
        } else {
            r + 1
        }
    }
}

/// `first_index_of` names the first occurrence when there is one.
pub proof fn lemma_first_index_of_found(s: Seq<ComponentIdentifier>, x: ComponentIdentifier, q: int)
    requires
        0 <= q < s.len(),
        s[q] == x,
        forall|m: int| 0 <= m < q ==> s[m] != x,
    ensures
        first_index_of(s, x) == q,
    decreases s.len(),
{
    if q > 0 {
        lemma_first_index_of_found(s.drop_first(), x, q - 1);
    }
}

/// `first_index_of` is `-1` exactly when nothing matches.
pub proof fn lemma_first_index_of_missing(s: Seq<ComponentIdentifier>, x: ComponentIdentifier)
    requires
        forall|m: int| 0 <= m < s.len() ==> s[m] != x,
    ensures
        first_index_of(s, x) == -1,
    decreases s.len(),
{
    if s.len() > 0 {
        lemma_first_index_of_missing(s.drop_first(), x);
    }
}

/// Whether some identifier in `s` names record `j` of kind `k`.
pub open spec fn sel_listed(s: Seq<ComponentIdentifier>, k: ComponentType, j: int) -> bool {
    exists|t: int| 0 <= t < s.len() && (#[trigger] s[t]).ctype == k && s[t].index as int == j
}

/// Whether the resolved hover target is currently a selected record:
/// its index is live in its kind's store and that record's `Selected`
/// flag is set. (Hover resolution never touches the `Selected` bit, so
/// this reads the same before and after it.)
pub open spec fn target_selected_pre(pre: ComponentCollection) -> bool {
    let h = pre.hovers@[most_hovered_index(pre.hovers@)];
    &&& (h.index as int) < pre.kind_len(h.ctype)
    &&& has_flag(pre.kind_flags(h.ctype)[h.index as int], ComponentFlags::Selected)
}

/// The selection list after one frame's click handling, per the click
/// policy: no click keeps it; clicking a selected target removes it
/// (ctrl) or clears everything (no ctrl); clicking an unselected target
/// appends it (ctrl) or makes it the sole selection (no ctrl).
pub open spec fn selected_after(pre: ComponentCollection, clicked: bool, ctrl: bool) -> Seq<
    ComponentIdentifier,
> {
    if pre.hovers@.len() == 0 || !clicked {
        pre.selected@
    } else {
        let h = pre.hovers@[most_hovered_index(pre.hovers@)];
        let tgt = ComponentIdentifier { index: h.index, ctype: h.ctype };
        if target_selected_pre(pre) {
            if ctrl {
                let p = first_index_of(pre.selected@, tgt);
                if p >= 0 {
                    pre.selected@.remove(p)
                } else {
                    pre.selected@
                }
            } else {
                Seq::empty()
            }
        } else {
            if ctrl {
                pre.selected@.push(tgt)
            } else {
                seq![tgt]
            }
        }
    }
}

/// The flag word of record `j` of kind `k` after one whole frame of
/// hover resolution and click handling.
pub open spec fn selection_flag(
    pre: ComponentCollection,
    clicked: bool,
    ctrl: bool,
    k: ComponentType,
    j: int,
) -> u32 {
    let base = hover_cleared_flag(pre, k, j);
    let smask = ComponentFlags::Selected.spec_mask();
    if pre.hovers@.len() == 0 || !clicked {
        base
    } else {
        let h = pre.hovers@[most_hovered_index(pre.hovers@)];
        let is_tgt = k == h.ctype && j == h.index as int;
        if target_selected_pre(pre) {
            if ctrl {
                if is_tgt {
                    base & !smask
                } else {
                    base
                }
            } else {
                if sel_listed(pre.selected@, k, j) {
                    base & !smask
                } else {
                    base
                }
            }
        } else {
            if is_tgt {
                base | smask
            } else if !ctrl && sel_listed(pre.selected@, k, j) {
                base & !smask
            } else {
                base
            }
        }
    }
}

/// All entity stores of one scene, with the frame's hover candidates and
/// the persistent selection.
pub struct ComponentCollection {
    pub hovers: Vec<HoverElement>,
    pub selected: Vec<ComponentIdentifier>,
    pub axises: ComponentArray<Vertex>,
    pub grids: ComponentArray<Vertex>,
    pub arrows: ComponentArray<Vertex>,
    pub arrow_planes: ComponentArray<Vertex>,
    pub points: ComponentArray<Point>,
    pub lines: ComponentArray<Line>,
    pub beziers: ComponentArray<Bezier>,
    pub circles: ComponentArray<Circle>,
}

/// The seed records of the axis store: x hidden, x, y hidden, z.
pub open spec fn seed_axises() -> Seq<Component<Vertex>> {
    seq![
        Component { data: Vertex { position: Vec3i { x: 0, y: 0, z: 0 }, direction: unit_x() }, flags: 0u32 },
        Component { data: Vertex { position: Vec3i { x: 0, y: 0, z: 0 }, direction: unit_x() }, flags: 1u32 },
        Component { data: Vertex { position: Vec3i { x: 0, y: 0, z: 0 }, direction: unit_y() }, flags: 0u32 },
        Component { data: Vertex { position: Vec3i { x: 0, y: 0, z: 0 }, direction: unit_z() }, flags: 1u32 },
    ]
}

/// The seed records of the grid store: only the y grid visible.
pub open spec fn seed_grids() -> Seq<Component<Vertex>> {
    seq![
        Component { data: Vertex { position: Vec3i { x: 0, y: 0, z: 0 }, direction: unit_x() }, flags: 0u32 },
        Component { data: Vertex { position: Vec3i { x: 0, y: 0, z: 0 }, direction: unit_x() }, flags: 0u32 },
        Component { data: Vertex { position: Vec3i { x: 0, y: 0, z: 0 }, direction: unit_y() }, flags: 1u32 },
        Component { data: Vertex { position: Vec3i { x: 0, y: 0, z: 0 }, direction: unit_z() }, flags: 0u32 },
    ]
}

/// The seed records of the arrow and arrow-plane stores: one hidden
/// marker per axis.
pub open spec fn seed_arrows() -> Seq<Component<Vertex>> {
    seq![
        Component { data: Vertex { position: Vec3i { x: 0, y: 0, z: 0 }, direction: unit_x() }, flags: 0u32 },
        Component { data: Vertex { position: Vec3i { x: 0, y: 0, z: 0 }, direction: unit_y() }, flags: 0u32 },
        Component { data: Vertex { position: Vec3i { x: 0, y: 0, z: 0 }, direction: unit_z() }, flags: 0u32 },
    ]
}

/// The seed records of the point store: four visible unit-square points.
pub open spec fn seed_points() -> Seq<Component<Point>> {
    seq![
        Component { data: Point { position: Vec3i { x: 0, y: 0, z: 0 } }, flags: 1u32 },
        Component { data: Point { position: Vec3i { x: 1000, y: 1000, z: 0 } }, flags: 1u32 },
        Component { data: Point { position: Vec3i { x: 1000, y: 0, z: 0 } }, flags: 1u32 },
        Component { data: Point { position: Vec3i { x: 0, y: 1000, z: 0 } }, flags: 1u32 },
    ]
}

/// The seed record of the circle store: one circle around point 0.
pub open spec fn seed_circles() -> Seq<Component<Circle>> {
    seq![
        Component {
            data: Circle { center: 0u32, radius: 2500i64, orientation: unit_x(), heightfactor: 0i64 },
            flags: 1u32,
        },
    ]
}

/// The seed record of the line store: one line between points 0 and 1.
pub open spec fn seed_lines() -> Seq<Component<Line>> {
    seq![Component { data: Line { point_a: 0u32, point_b: 1u32 }, flags: 1u32 }]
}

/// The seed record of the bezier store.
pub open spec fn seed_beziers() -> Seq<Component<Bezier>> {
    seq![
        Component {
            data: Bezier { point_a: 0u32, point_b: 3u32, control_a: 2u32, control_b: 1u32 },
            flags: 1u32,
        },
    ]
}

/// The whole per-document seed: every store holds exactly its
/// documented seed records and the hover and selection lists are empty.
pub open spec fn seeded(c: ComponentCollection) -> bool {
    &&& c.hovers@.len() == 0
    &&& c.selected@.len() == 0
    &&& c.axises.array@ == seed_axises()
    &&& c.grids.array@ == seed_grids()
    &&& c.arrows.array@ == seed_arrows()
    &&& c.arrow_planes.array@ == seed_arrows()
    &&& c.points.array@ == seed_points()
    &&& c.lines.array@ == seed_lines()
    &&& c.beziers.array@ == seed_beziers()
    &&& c.circles.array@ == seed_circles()
}

impl ComponentCollection {
    /// Every store's mirror is intact.
    pub open spec fn wf(self) -> bool {
        &&& self.axises.wf()
        &&& self.grids.wf()
        &&& self.arrows.wf()
        &&& self.arrow_planes.wf()
        &&& self.points.wf()
        &&& self.lines.wf()
        &&& self.beziers.wf()
        &&& self.circles.wf()
    }

    /// The flag words of the store for kind `k`, in index order.
    pub open spec fn kind_flags(self, k: ComponentType) -> Seq<u32> {
        match k {
            ComponentType::Point => self.points.flags_view(),
            ComponentType::Line => self.lines.flags_view(),
            ComponentType::Circle => self.circles.flags_view(),
            ComponentType::Bezier => self.beziers.flags_view(),
            ComponentType::Arrow => self.arrows.flags_view(),
            ComponentType::ArrowPlane => self.arrow_planes.flags_view(),
        }
    }

    /// How many records the store for kind `k` holds.
    pub open spec fn kind_len(self, k: ComponentType) -> nat {
        self.kind_flags(k).len()
    }

    /// The geometric payloads of both collections agree store for store,
    /// as do the GPU allocation sizes and the non-pickable stores: only
    /// flag words may differ.
    pub open spec fn geometry_unchanged(pre: ComponentCollection, post: ComponentCollection) -> bool {
        &&& post.axises == pre.axises
        &&& post.grids == pre.grids
        &&& post.points.data_view() == pre.points.data_view()
        &&& post.points.buffer_size == pre.points.buffer_size
        &&& post.lines.data_view() == pre.lines.data_view()
        &&& post.lines.buffer_size == pre.lines.buffer_size
        &&& post.circles.data_view() == pre.circles.data_view()
        &&& post.circles.buffer_size == pre.circles.buffer_size
        &&& post.beziers.data_view() == pre.beziers.data_view()
        &&& post.beziers.buffer_size == pre.beziers.buffer_size
        &&& post.arrows.data_view() == pre.arrows.data_view()
        &&& post.arrows.buffer_size == pre.arrows.buffer_size
        &&& post.arrow_planes.data_view() == pre.arrow_planes.data_view()
        &&& post.arrow_planes.buffer_size == pre.arrow_planes.buffer_size
    }

    /// A scene collection over the documented seed data, with empty
    /// hover and selection lists.
    pub fn new() -> (r: ComponentCollection)
        ensures
            r.wf(),
            seeded(r),
    {
        proof {
            assert(1u32 & !1u32 == 0u32) by (bit_vector);
        }
        let axises = ComponentArray::new(
            vec![vertex::x().notvisible(), vertex::x(), vertex::y().notvisible(), vertex::z()],
        );
        let grids = ComponentArray::new(
            vec![
                vertex::x().notvisible(),
                vertex::x().notvisible(),
                vertex::y(),
                vertex::z().notvisible(),
            ],
        );
        let arrows = ComponentArray::new(
            vec![vertex::x().notvisible(), vertex::y().notvisible(), vertex::z().notvisible()],
        );
        let arrow_planes = ComponentArray::new(
            vec![vertex::x().notvisible(), vertex::y().notvisible(), vertex::z().notvisible()],
        );
        let points = ComponentArray::new(
            vec![
                point::new(Vec3i::new(0, 0, 0)),
                point::new(Vec3i::new(1000, 1000, 0)),
                point::new(Vec3i::new(1000, 0, 0)),
                point::new(Vec3i::new(0, 1000, 0)),
            ],
        );
        let circles = ComponentArray::new(
            vec![circle::new(0, 2500, Vec3i::new(1000, 0, 0), 0)],
        );
        let lines = ComponentArray::new(vec![line::new(0, 1)]);
        let beziers = ComponentArray::new(vec![bezier::new(0, 3, 2, 1)]);
        let r = ComponentCollection {
            hovers: Vec::new(),
            selected: Vec::new(),
            axises,
            grids,
            arrows,
            arrow_planes,
            points,
            lines,
            beziers,
            circles,
        };
        proof {
            assert(r.axises.array@ =~= seed_axises());
            assert(r.grids.array@ =~= seed_grids());
            assert(r.arrows.array@ =~= seed_arrows());
            assert(r.arrow_planes.array@ =~= seed_arrows());
            assert(r.points.array@ =~= seed_points());
            assert(r.circles.array@ =~= seed_circles());
            assert(r.lines.array@ =~= seed_lines());
            assert(r.beziers.array@ =~= seed_beziers());
        }
        r
    }

    /// Applies the flag mutation `op` to the record `index` of the store
    /// for `ctype`; a stale index changes nothing. Nothing but that one
    /// record's flag word moves.
    pub fn update_c(&mut self, ctype: ComponentType, index: usize, op: FlagOp)
        requires
            old(self).wf(),
        ensures
            final(self).wf(),
            final(self).hovers == old(self).hovers,
            final(self).selected == old(self).selected,
            ComponentCollection::geometry_unchanged(*old(self), *final(self)),
            forall|k: ComponentType|
                k != ctype ==> final(self).kind_flags(k) == old(self).kind_flags(k),
            final(self).kind_flags(ctype) == if 0 <= index < old(self).kind_len(ctype) {
                old(self).kind_flags(ctype).update(
                    index as int,
                    apply_flag_spec(old(self).kind_flags(ctype)[index as int], op),
                )
            } else {
                old(self).kind_flags(ctype)
            },
    {
        match ctype {
            ComponentType::Point => {
                let r = self.points.update_flag(index, op);
                proof {
                    lemma_store_flag_updated_views(old(self).points, self.points, index as int, op);
                }
            }
            ComponentType::Line => {
                let r = self.lines.update_flag(index, op);
                proof {
                    lemma_store_flag_updated_views(old(self).lines, self.lines, index as int, op);
                }
            }
            ComponentType::Circle => {
                let r = self.circles.update_flag(index, op);
                proof {
                    lemma_store_flag_updated_views(
                        old(self).circles,
                        self.circles,
                        index as int,
                        op,
                    );
                }
            }
            ComponentType::Bezier => {
                let r = self.beziers.update_flag(index, op);
                proof {
                    lemma_store_flag_updated_views(
                        old(self).beziers,
                        self.beziers,
                        index as int,
                        op,
                    );
                }
            }
            ComponentType::Arrow => {
                let r = self.arrows.update_flag(index, op);
                proof {
                    lemma_store_flag_updated_views(old(self).arrows, self.arrows, index as int, op);
                }
            }
            ComponentType::ArrowPlane => {
                let r = self.arrow_planes.update_flag(index, op);
                proof {
                    lemma_store_flag_updated_views(
                        old(self).arrow_planes,
                        self.arrow_planes,
                        index as int,
                        op,
                    );
                }
            }
        }
    }

    /// Resolves the frame's hover candidates to the single most hovered
    /// entity: the scan winner under [`beats`]. The hover flag of every
    /// record named by a losing candidate is cleared; the winner's flags
    /// are left for the selection step. With no candidates, `None` and
    /// no change at all.
    pub fn get_most_hovered(&mut self) -> (r: Option<HoverElement>)
        requires
            old(self).wf(),
        ensures
            final(self).wf(),
            final(self).hovers == old(self).hovers,
            final(self).selected == old(self).selected,
            ComponentCollection::geometry_unchanged(*old(self), *final(self)),
            match r {
                None => old(self).hovers@.len() == 0 && *final(self) == *old(self),
                Some(h) => {
                    &&& old(self).hovers@.len() > 0
                    &&& 0 <= most_hovered_index(old(self).hovers@) < old(self).hovers@.len()
                    &&& h == old(self).hovers@[most_hovered_index(old(self).hovers@)]
                    &&& forall|k: ComponentType|
                        #[trigger] final(self).kind_len(k) == old(self).kind_len(k)
                    &&& forall|k: ComponentType, j: int|
                        0 <= j < old(self).kind_len(k) ==> #[trigger] final(self).kind_flags(k)[j]
                            == hover_cleared_flag(*old(self), k, j)
                },
            },
    {
        let n = self.hovers.len();
        if n == 0 {
            return None;
        }
        let first = self.hovers[0];
        let mut ctype = first.ctype;
        let mut widx: usize = 0;
        let mut distance = first.distance;
        let mut i: usize = 0;
        while i < n
            invariant
                self == old(self),
                n == self.hovers@.len(),
                1 <= n,
                i <= n,
                widx < n,
                widx as int == winner_upto(self.hovers@, if i == 0 { 1int } else { i as int }),
                ctype == self.hovers@[widx as int].ctype,
                distance == self.hovers@[widx as int].distance,
            decreases n - i,
        {
            let element = self.hovers[i];
            let current_distance = element.distance;
            let diff: i128 = if current_distance as i128 >= distance as i128 {
                current_distance as i128 - distance as i128
            } else {
                distance as i128 - current_distance as i128
            };
            if ctype == ComponentType::Point {
                if element.ctype == ComponentType::Point {
                    if current_distance < distance {
                        ctype = element.ctype;
                        widx = i;
                        distance = element.distance;
                    }
                } else if current_distance < distance && diff > HOVER_EPSILON_MILLI as i128 {
                    ctype = element.ctype;
                    widx = i;
                    distance = element.distance;
                }
            } else {
                if element.ctype == ComponentType::Point {
                    if current_distance < distance || diff <= HOVER_EPSILON_MILLI as i128 {
                        ctype = element.ctype;
                        widx = i;
                        distance = element.distance;
                    }
                } else if current_distance < distance {
                    ctype = element.ctype;
                    widx = i;
                    distance = element.distance;
                }
            }
            i = i + 1;
        }
        proof {
            assert(widx as int == most_hovered_index(self.hovers@));
        }
        let ghost pre = *self;
        let mut c: usize = 0;
        while c < n
            invariant
                self.wf(),
                self.hovers == pre.hovers,
                self.selected == pre.selected,
                ComponentCollection::geometry_unchanged(pre, *self),
                n == pre.hovers@.len(),
                c <= n,
                widx < n,
                widx as int == most_hovered_index(pre.hovers@),
                forall|k: ComponentType| #[trigger] self.kind_len(k) == pre.kind_len(k),
                forall|k: ComponentType, j: int|
                    0 <= j < pre.kind_len(k) ==> #[trigger] self.kind_flags(k)[j] == if (exists|
                        t: int|
                        0 <= t < c && t != widx as int && (#[trigger] pre.hovers@[t]).ctype == k
                            && pre.hovers@[t].index as int == j) {
                        pre.kind_flags(k)[j] & !ComponentFlags::Hover.spec_mask()
                    } else {
                        pre.kind_flags(k)[j]
                    },
            decreases n - c,
        {
            let element = self.hovers[c];
            if c != widx {
                let ghost mid = *self;
                self.update_c(element.ctype, element.index as usize, FlagOp::NotHover);
                proof {
                    let hmask = ComponentFlags::Hover.spec_mask();
                    assert forall|k: ComponentType| #[trigger] self.kind_len(k) == pre.kind_len(
                        k,
                    ) by {
                        assert(mid.kind_len(k) == pre.kind_len(k));
                        if k != element.ctype {
                            assert(self.kind_flags(k) == mid.kind_flags(k));
                        } else {
                            if 0 <= element.index as int && (element.index as int) < mid.kind_len(
                                k,
                            ) {
                                assert(self.kind_flags(k).len() == mid.kind_flags(k).len());
                            } else {
                                assert(self.kind_flags(k) == mid.kind_flags(k));
                            }
                        }
                    }
                    assert forall|k: ComponentType, j: int| 0 <= j < pre.kind_len(k) implies
                        #[trigger] self.kind_flags(k)[j] == if (exists|t: int|
                            0 <= t < c + 1 && t != widx as int && (#[trigger] pre.hovers@[t]).ctype
                                == k && pre.hovers@[t].index as int == j) {
                            pre.kind_flags(k)[j] & !hmask
                        } else {
                            pre.kind_flags(k)[j]
                        } by {
                        if k == element.ctype && j == element.index as int {
                            assert(0 <= c < c + 1 && c != widx as int && pre.hovers@[c as int].ctype
                                == k && pre.hovers@[c as int].index as int == j);
                            if exists|t: int|
                                0 <= t < c && t != widx as int && (
                                #[trigger] pre.hovers@[t]).ctype == k && pre.hovers@[t].index as int
                                    == j {
                                crate::components::component::lemma_clear_idempotent(
                                    pre.kind_flags(k)[j],
                                    hmask,
                                );
                            }
                        } else {
                            if exists|t: int|
                                0 <= t < c + 1 && t != widx as int && (
                                #[trigger] pre.hovers@[t]).ctype == k && pre.hovers@[t].index as int
                                    == j {
                                let t = choose|t: int|
                                    0 <= t < c + 1 && t != widx as int && (
                                    #[trigger] pre.hovers@[t]).ctype == k
                                        && pre.hovers@[t].index as int == j;
                                assert(t != c as int);
                                assert(0 <= t < c);
                            }
                        }
                    }
                }
            } else {
                proof {
                    assert forall|k: ComponentType, j: int| 0 <= j < pre.kind_len(k) implies
                        #[trigger] self.kind_flags(k)[j] == if (exists|t: int|
                            0 <= t < c + 1 && t != widx as int && (#[trigger] pre.hovers@[t]).ctype
                                == k && pre.hovers@[t].index as int == j) {
                            pre.kind_flags(k)[j] & !ComponentFlags::Hover.spec_mask()
                        } else {
                            pre.kind_flags(k)[j]
                        } by {
                        if exists|t: int|
                            0 <= t < c + 1 && t != widx as int && (#[trigger] pre.hovers@[t]).ctype
                                == k && pre.hovers@[t].index as int == j {
                            let t = choose|t: int|
                                0 <= t < c + 1 && t != widx as int && (
                                #[trigger] pre.hovers@[t]).ctype == k && pre.hovers@[t].index as int
                                    == j;
                            assert(t != c as int);
                            assert(0 <= t < c);
                        }
                    }
                }
            }
            c = c + 1;
        }
        let result = self.hovers[widx];
        proof {
            assert forall|k: ComponentType, j: int| 0 <= j < pre.kind_len(k) implies #[trigger] self
                .kind_flags(k)[j] == hover_cleared_flag(pre, k, j) by {
            }
        }
        Some(result)
    }

    /// Clears the `Selected` flag of every record the selection list
    /// names. The list itself is left for the caller to clear.
    fn deselect_all_listed(&mut self)
        requires
            old(self).wf(),
        ensures
            final(self).wf(),
            final(self).hovers == old(self).hovers,
            final(self).selected == old(self).selected,
            ComponentCollection::geometry_unchanged(*old(self), *final(self)),
            forall|k: ComponentType|
                #[trigger] final(self).kind_len(k) == old(self).kind_len(k),
            forall|k: ComponentType, j: int|
                0 <= j < old(self).kind_len(k) ==> #[trigger] final(self).kind_flags(k)[j]
                    == if sel_listed(old(self).selected@, k, j) {
                    old(self).kind_flags(k)[j] & !ComponentFlags::Selected.spec_mask()
                } else {
                    old(self).kind_flags(k)[j]
                },
    {
        let ghost pre = *self;
        let m = self.selected.len();
        let mut q: usize = 0;
        while q < m
            invariant
                self.wf(),
                self.hovers == pre.hovers,
                self.selected == pre.selected,
                ComponentCollection::geometry_unchanged(pre, *self),
                m == pre.selected@.len(),
                q <= m,
                forall|k: ComponentType| #[trigger] self.kind_len(k) == pre.kind_len(k),
                forall|k: ComponentType, j: int|
                    0 <= j < pre.kind_len(k) ==> #[trigger] self.kind_flags(k)[j] == if (exists|
                        t: int|
                        0 <= t < q && (#[trigger] pre.selected@[t]).ctype == k
                            && pre.selected@[t].index as int == j) {
                        pre.kind_flags(k)[j] & !ComponentFlags::Selected.spec_mask()
                    } else {
                        pre.kind_flags(k)[j]
                    },
            decreases m - q,
        {
            let ident = self.selected[q];
            let ghost mid = *self;
            self.update_c(ident.ctype, ident.index as usize, FlagOp::Deselected);
            proof {
                let smask = ComponentFlags::Selected.spec_mask();
                assert forall|k: ComponentType| #[trigger] self.kind_len(k) == pre.kind_len(k) by {
                    assert(mid.kind_len(k) == pre.kind_len(k));
                    if k != ident.ctype {
                        assert(self.kind_flags(k) == mid.kind_flags(k));
                    } else {
                        if 0 <= ident.index as int && (ident.index as int) < mid.kind_len(k) {
                            assert(self.kind_flags(k).len() == mid.kind_flags(k).len());
                        } else {
                            assert(self.kind_flags(k) == mid.kind_flags(k));
                        }
                    }
                }
                assert forall|k: ComponentType, j: int| 0 <= j < pre.kind_len(k) implies #[trigger]
                    self.kind_flags(k)[j] == if (exists|t: int|
                    0 <= t < q + 1 && (#[trigger] pre.selected@[t]).ctype == k
                        && pre.selected@[t].index as int == j) {
                    pre.kind_flags(k)[j] & !smask
                } else {
                    pre.kind_flags(k)[j]
                } by {
                    if k == ident.ctype && j == ident.index as int {
                        assert(0 <= q < q + 1 && pre.selected@[q as int].ctype == k
                            && pre.selected@[q as int].index as int == j);
                        if exists|t: int|
                            0 <= t < q && (#[trigger] pre.selected@[t]).ctype == k
                                && pre.selected@[t].index as int == j {
                            crate::components::component::lemma_clear_idempotent(
                                pre.kind_flags(k)[j],
                                smask,
                            );
                        }
                    } else {
                        if exists|t: int|
                            0 <= t < q + 1 && (#[trigger] pre.selected@[t]).ctype == k
                                && pre.selected@[t].index as int == j {
                            let t = choose|t: int|
                                0 <= t < q + 1 && (#[trigger] pre.selected@[t]).ctype == k
                                    && pre.selected@[t].index as int == j;
                            assert(t != q as int);
                            assert(0 <= t < q);
                        }
                    }
                }
            }
            q = q + 1;
        }
    }

    /// The position of the first occurrence of `x` in the selection
    /// list, or `None` when the list does not contain it.
    fn position_of(selected: &Vec<ComponentIdentifier>, x: ComponentIdentifier) -> (r: Option<
        usize,
    >)
        ensures
            match r {
                Some(p) => p < selected@.len() && first_index_of(selected@, x) == p as int,
                None => first_index_of(selected@, x) == -1,
            },
    {
        let n = selected.len();
        let mut q: usize = 0;
        while q < n
            invariant
                q <= n,
                n == selected@.len(),
                forall|m: int| 0 <= m < q ==> selected@[m] != x,
            decreases n - q,
        {
            if selected[q] == x {
                proof {
                    lemma_first_index_of_found(selected@, x, q as int);
                }
                return Some(q);
            }
            q = q + 1;
        }
        proof {
            lemma_first_index_of_missing(selected@, x);
        }
        None
    }

    /// One frame's picking step: resolves the most hovered entity, then
    /// applies the click policy to the selection list and the `Selected`
    /// flags. Without a click (or without any hover candidate) the
    /// selection is untouched; a click on a selected target removes it
    /// from the selection (ctrl) or deselects everything (no ctrl); a
    /// click on an unselected target adds it (ctrl) or makes it the sole
    /// selection (no ctrl).
    pub fn update_selected(&mut self, primary_clicked: bool, ctrl: bool)
        requires
            old(self).wf(),
        ensures
            final(self).wf(),
            final(self).hovers == old(self).hovers,
            ComponentCollection::geometry_unchanged(*old(self), *final(self)),
            final(self).selected@ == selected_after(*old(self), primary_clicked, ctrl),
            forall|k: ComponentType|
                #[trigger] final(self).kind_len(k) == old(self).kind_len(k),
            forall|k: ComponentType, j: int|
                0 <= j < old(self).kind_len(k) ==> #[trigger] final(self).kind_flags(k)[j]
                    == selection_flag(*old(self), primary_clicked, ctrl, k, j),
    {
        let ghost pre = *old(self);
        let hover_opt = self.get_most_hovered();
        proof {
            assert(2u32 & 4u32 == 0u32) by (bit_vector);
            assert(ComponentFlags::Hover.spec_mask() & ComponentFlags::Selected.spec_mask() == 0);
        }
        match hover_opt {
            None => {
                proof {
                    assert forall|k: ComponentType, j: int| 0 <= j < pre.kind_len(k) implies
                        #[trigger] self.kind_flags(k)[j] == selection_flag(
                        pre,
                        primary_clicked,
                        ctrl,
                        k,
                        j,
                    ) by {
                        assert(!nonwinner_hovered(pre, k, j));
                    }
                }
            }
            Some(hover) => {
                let ghost hmask = ComponentFlags::Hover.spec_mask();
                let ghost smask = ComponentFlags::Selected.spec_mask();
                let ghost mid = *self;
                if primary_clicked {
                    let identifier = ComponentIdentifier { index: hover.index, ctype: hover.ctype };
                    let target_selected = self.is_selected(hover.ctype, hover.index as usize);
                    proof {
                        if (hover.index as int) < pre.kind_len(hover.ctype) {
                            assert(mid.kind_flags(hover.ctype)[hover.index as int]
                                == hover_cleared_flag(pre, hover.ctype, hover.index as int));
                            crate::components::component::lemma_clear_preserves_other(
                                pre.kind_flags(hover.ctype)[hover.index as int],
                                hmask,
                                smask,
                            );
                        }
                        assert(target_selected == target_selected_pre(pre));
                    }
                    if target_selected {
                        if ctrl {
                            let pos = Self::position_of(&self.selected, identifier);
                            if let Some(p) = pos {
                                self.selected.remove(p);
                            }
                            proof {
                                assert(self.selected@ == selected_after(
                                    pre,
                                    primary_clicked,
                                    ctrl,
                                ));
                            }
                            let ghost mid2 = *self;
                            self.update_c(hover.ctype, hover.index as usize, FlagOp::Deselected);
                            proof {
                                assert forall|k: ComponentType| #[trigger] self.kind_len(k)
                                    == pre.kind_len(k) by {
                                    assert(mid2.kind_flags(k) == mid.kind_flags(k));
                                    assert(mid.kind_len(k) == pre.kind_len(k));
                                    if k != hover.ctype {
                                        assert(self.kind_flags(k) == mid2.kind_flags(k));
                                    } else if 0 <= hover.index as int && (hover.index as int)
                                        < mid2.kind_len(k) {
                                        assert(self.kind_flags(k).len() == mid2.kind_flags(
                                            k,
                                        ).len());
                                    } else {
                                        assert(self.kind_flags(k) == mid2.kind_flags(k));
                                    }
                                }
                                assert forall|k: ComponentType, j: int|
                                    0 <= j < pre.kind_len(k) implies #[trigger] self.kind_flags(
                                    k,
                                )[j] == selection_flag(pre, primary_clicked, ctrl, k, j) by {
                                    assert(mid2.kind_flags(k) == mid.kind_flags(k));
                                    assert(mid.kind_len(k) == pre.kind_len(k));
                                    assert(mid.kind_flags(k)[j] == hover_cleared_flag(pre, k, j));
                                    if k == hover.ctype && j == hover.index as int {
                                        assert(self.kind_flags(k)[j] == apply_flag_spec(
                                            mid2.kind_flags(k)[j],
                                            FlagOp::Deselected,
                                        ));
                                    } else if k == hover.ctype {
                                        assert(self.kind_flags(k)[j] == mid2.kind_flags(k)[j]);
                                    } else {
                                        assert(self.kind_flags(k) == mid2.kind_flags(k));
                                    }
                                }
                            }
                        } else {
                            self.deselect_all_listed();
                            let ghost midd = *self;
                            self.selected = Vec::new();
                            proof {
                                assert(self.selected@ =~= selected_after(
                                    pre,
                                    primary_clicked,
                                    ctrl,
                                ));
                                assert forall|k: ComponentType| #[trigger] self.kind_len(k)
                                    == pre.kind_len(k) by {
                                    assert(self.kind_flags(k) == midd.kind_flags(k));
                                    assert(midd.kind_len(k) == mid.kind_len(k));
                                    assert(mid.kind_len(k) == pre.kind_len(k));
                                }
                                assert forall|k: ComponentType, j: int|
                                    0 <= j < pre.kind_len(k) implies #[trigger] self.kind_flags(
                                    k,
                                )[j] == selection_flag(pre, primary_clicked, ctrl, k, j) by {
                                    assert(mid.kind_len(k) == pre.kind_len(k));
                                    assert(mid.kind_flags(k)[j] == hover_cleared_flag(pre, k, j));
                                    assert(midd.kind_flags(k)[j] == if sel_listed(
                                        mid.selected@,
                                        k,
                                        j,
                                    ) {
                                        mid.kind_flags(k)[j] & !smask
                                    } else {
                                        mid.kind_flags(k)[j]
                                    });
                                    assert(self.kind_flags(k) == midd.kind_flags(k));
                                    assert(mid.selected@ == pre.selected@);
                                }
                            }
                        }
                    } else {
                        if ctrl {
                            self.selected.push(identifier);
                            proof {
                                assert(self.selected@ == selected_after(
                                    pre,
                                    primary_clicked,
                                    ctrl,
                                ));
                                assert forall|k: ComponentType| #[trigger] self.kind_len(k)
                                    == pre.kind_len(k) by {
                                    assert(self.kind_flags(k) == mid.kind_flags(k));
                                    assert(mid.kind_len(k) == pre.kind_len(k));
                                }
                                assert forall|k: ComponentType, j: int|
                                    0 <= j < pre.kind_len(k) implies #[trigger] self.kind_flags(
                                    k,
                                )[j] == (if !ctrl && sel_listed(pre.selected@, k, j) {
                                    hover_cleared_flag(pre, k, j) & !smask
                                } else {
                                    hover_cleared_flag(pre, k, j)
                                }) by {
                                    assert(mid.kind_len(k) == pre.kind_len(k));
                                    assert(self.kind_flags(k) == mid.kind_flags(k));
                                    assert(mid.kind_flags(k)[j] == hover_cleared_flag(pre, k, j));
                                }
                            }
                        } else {
                            self.deselect_all_listed();
                            let ghost midd = *self;
                            let mut fresh: Vec<ComponentIdentifier> = Vec::new();
                            fresh.push(identifier);
                            self.selected = fresh;
                            proof {
                                assert(self.selected@ =~= selected_after(
                                    pre,
                                    primary_clicked,
                                    ctrl,
                                ));
                                assert forall|k: ComponentType| #[trigger] self.kind_len(k)
                                    == pre.kind_len(k) by {
                                    assert(self.kind_flags(k) == midd.kind_flags(k));
                                    assert(midd.kind_len(k) == mid.kind_len(k));
                                    assert(mid.kind_len(k) == pre.kind_len(k));
                                }
                                assert forall|k: ComponentType, j: int|
                                    0 <= j < pre.kind_len(k) implies #[trigger] self.kind_flags(
                                    k,
                                )[j] == (if !ctrl && sel_listed(pre.selected@, k, j) {
                                    hover_cleared_flag(pre, k, j) & !smask
                                } else {
                                    hover_cleared_flag(pre, k, j)
                                }) by {
                                    assert(mid.kind_len(k) == pre.kind_len(k));
                                    assert(mid.kind_flags(k)[j] == hover_cleared_flag(pre, k, j));
                                    assert(midd.kind_flags(k)[j] == if sel_listed(
                                        mid.selected@,
                                        k,
                                        j,
                                    ) {
                                        mid.kind_flags(k)[j] & !smask
                                    } else {
                                        mid.kind_flags(k)[j]
                                    });
                                    assert(self.kind_flags(k) == midd.kind_flags(k));
                                    assert(mid.selected@ == pre.selected@);
                                }
                            }
                        }
                        let ghost mid3 = *self;
                        self.update_c(hover.ctype, hover.index as usize, FlagOp::Selected);
                        proof {
                            assert forall|k: ComponentType| #[trigger] mid3.kind_len(k)
                                == pre.kind_len(k) by {
                            }
                            assert forall|k: ComponentType, j: int|
                                0 <= j < pre.kind_len(k) implies #[trigger] mid3.kind_flags(k)[j]
                                == (if !ctrl && sel_listed(pre.selected@, k, j) {
                                hover_cleared_flag(pre, k, j) & !smask
                            } else {
                                hover_cleared_flag(pre, k, j)
                            }) by {
                            }
                            assert forall|k: ComponentType| #[trigger] self.kind_len(k)
                                == pre.kind_len(k) by {
                                assert(mid3.kind_len(k) == pre.kind_len(k));
                                if k != hover.ctype {
                                    assert(self.kind_flags(k) == mid3.kind_flags(k));
                                } else if 0 <= hover.index as int && (hover.index as int)
                                    < mid3.kind_len(k) {
                                    assert(self.kind_flags(k).len() == mid3.kind_flags(k).len());
                                } else {
                                    assert(self.kind_flags(k) == mid3.kind_flags(k));
                                }
                            }
                            assert forall|k: ComponentType, j: int|
                                0 <= j < pre.kind_len(k) implies #[trigger] self.kind_flags(k)[j]
                                == selection_flag(pre, primary_clicked, ctrl, k, j) by {
                                assert(mid3.kind_len(k) == pre.kind_len(k));
                                assert(mid3.kind_flags(k)[j] == if !ctrl && sel_listed(
                                    pre.selected@,
                                    k,
                                    j,
                                ) {
                                    hover_cleared_flag(pre, k, j) & !smask
                                } else {
                                    hover_cleared_flag(pre, k, j)
                                });
                                if k == hover.ctype && j == hover.index as int {
                                    assert(self.kind_flags(k)[j] == apply_flag_spec(
                                        mid3.kind_flags(k)[j],
                                        FlagOp::Selected,
                                    ));
                                    crate::components::component::lemma_set_after_clear(
                                        hover_cleared_flag(pre, k, j),
                                        smask,
                                    );
                                } else if k == hover.ctype {
                                    assert(self.kind_flags(k)[j] == mid3.kind_flags(k)[j]);
                                } else {
                                    assert(self.kind_flags(k) == mid3.kind_flags(k));
                                }
                            }
                        }
                    }
                } else {
                    proof {
                        assert forall|k: ComponentType, j: int|
                            0 <= j < pre.kind_len(k) implies #[trigger] self.kind_flags(k)[j]
                            == selection_flag(pre, primary_clicked, ctrl, k, j) by {
                            assert(self.kind_flags(k)[j] == hover_cleared_flag(pre, k, j));
                        }
                    }
                }
            }
        }
    }

    /// The flag word of record `index` of kind `ctype`, or `None` for a
    /// stale index.
    pub fn get_flags(&self, ctype: ComponentType, index: usize) -> (r: Option<u32>)
        ensures
            r == if (index as int) < self.kind_len(ctype) {
                Some(self.kind_flags(ctype)[index as int])
            } else {
                None::<u32>
            },
    {
        match ctype {
            ComponentType::Point => match self.points.get_c(index) {
                Some(c) => Some(c.flags),
                None => None,
            },
            ComponentType::Line => match self.lines.get_c(index) {
                Some(c) => Some(c.flags),
                None => None,
            },
            ComponentType::Circle => match self.circles.get_c(index) {
                Some(c) => Some(c.flags),
                None => None,
            },
            ComponentType::Bezier => match self.beziers.get_c(index) {
                Some(c) => Some(c.flags),
                None => None,
            },
            ComponentType::Arrow => match self.arrows.get_c(index) {
                Some(c) => Some(c.flags),
                None => None,
            },
            ComponentType::ArrowPlane => match self.arrow_planes.get_c(index) {
                Some(c) => Some(c.flags),
                None => None,
            },
        }
    }

    /// Whether record `index` of kind `ctype` has its `Selected` flag
    /// set; a stale index counts as not selected.
    pub fn is_selected(&self, ctype: ComponentType, index: usize) -> (r: bool)
        ensures
            r == ((index as int) < self.kind_len(ctype) && has_flag(
                self.kind_flags(ctype)[index as int],
                ComponentFlags::Selected,
            )),
    {
        match self.get_flags(ctype, index) {
            Some(f) => {
                f & ComponentFlags::Selected.mask() == ComponentFlags::Selected.mask()
            }
            None => false,
        }
    }

    /// The center a record picks and drags by: a point's own position, a
    /// line's midpoint, a circle's center point, the origin for a
    /// bezier, a marker's position. `None` for a stale index or a
    /// dangling point reference.
    pub open spec fn center_spec(self, ctype: ComponentType, index: int) -> Option<Vec3i> {
        match ctype {
            ComponentType::Point => if 0 <= index < self.points.data_view().len() {
                Some(self.points.data_view()[index].position)
            } else {
                None
            },
            ComponentType::Line => if 0 <= index < self.lines.data_view().len() {
                let l = self.lines.data_view()[index];
                if l.point_a < self.points.data_view().len() && l.point_b
                    < self.points.data_view().len() {
                    Some(
                        mid_vec(
                            self.points.data_view()[l.point_a as int].position,
                            self.points.data_view()[l.point_b as int].position,
                        ),
                    )
                } else {
                    None
                }
            } else {
                None
            },
            ComponentType::Circle => if 0 <= index < self.circles.data_view().len() {
                let c = self.circles.data_view()[index];
                if c.center < self.points.data_view().len() {
                    Some(self.points.data_view()[c.center as int].position)
                } else {
                    None
                }
            } else {
                None
            },
            ComponentType::Bezier => if 0 <= index < self.beziers.data_view().len() {
                Some(Vec3i { x: 0, y: 0, z: 0 })
            } else {
                None
            },
            ComponentType::Arrow => if 0 <= index < self.arrows.data_view().len() {
                Some(self.arrows.data_view()[index].position)
            } else {
                None
            },
            ComponentType::ArrowPlane => if 0 <= index < self.arrow_planes.data_view().len() {
                Some(self.arrow_planes.data_view()[index].position)
            } else {
                None
            },
        }
    }

    /// The center of record `index` of kind `ctype`; `None` for a stale
    /// index or a dangling point reference.
    pub fn get_center(&self, ctype: ComponentType, index: usize) -> (r: Option<Vec3i>)
        ensures
            r == self.center_spec(ctype, index as int),
    {
        match ctype {
            ComponentType::Point => match self.points.get_c(index) {
                Some(c) => Some(c.data.position),
                None => None,
            },
            ComponentType::Line => match self.lines.get_c(index) {
                Some(c) => {
                    let pa = self.points.get_c(c.data.point_a as usize);
                    let pb = self.points.get_c(c.data.point_b as usize);
                    match (pa, pb) {
                        (Some(a), Some(b)) => Some(
                            crate::math::midpoint(a.data.position, b.data.position),
                        ),
                        _ => None,
                    }
                }
                None => None,
            },
            ComponentType::Circle => match self.circles.get_c(index) {
                Some(c) => match self.points.get_c(c.data.center as usize) {
                    Some(p) => Some(p.data.position),
                    None => None,
                },
                None => None,
            },
            ComponentType::Bezier => match self.beziers.get_c(index) {
                Some(c) => Some(Vec3i::zero()),
                None => None,
            },
            ComponentType::Arrow => match self.arrows.get_c(index) {
                Some(c) => Some(c.data.position),
                None => None,
            },
            ComponentType::ArrowPlane => match self.arrow_planes.get_c(index) {
                Some(c) => Some(c.data.position),
                None => None,
            },
        }
    }
}

} // verus!
