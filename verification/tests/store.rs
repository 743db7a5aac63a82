use f9::component_array::ComponentArray;
use f9::components::component::{Component, ComponentFlags, FlagOp};
use f9::components::point::Point;
use f9::math::Vec3i;

fn le64(v: i64, out: &mut Vec<u8>) {
    for k in 0..8 {
        out.push(((v as u64) >> (8 * k)) as u8);
    }
}

fn le32(v: u32, out: &mut Vec<u8>) {
    for k in 0..4 {
        out.push((v >> (8 * k)) as u8);
    }
}

fn point_record_bytes(x: i64, y: i64, z: i64, flags: u32) -> Vec<u8> {
    let mut out = Vec::new();
    le64(x, &mut out);
    le64(y, &mut out);
    le64(z, &mut out);
    le32(flags, &mut out);
    out
}

#[test]
fn push_returns_stable_indices() {
    let mut store: ComponentArray<Point> = ComponentArray::new(Vec::new());
    let i0 = store.push(f9::components::point::new(Vec3i::new(1, 2, 3)));
    let i1 = store.push(f9::components::point::new(Vec3i::new(4, 5, 6)));
    let i2 = store.push(f9::components::point::new(Vec3i::new(7, 8, 9)));
    assert_eq!((i0, i1, i2), (0, 1, 2));
    // records pushed earlier are untouched by later pushes
    assert_eq!(store.array[0].data.position, Vec3i::new(1, 2, 3));
    assert_eq!(store.array[1].data.position, Vec3i::new(4, 5, 6));
    assert_eq!(store.array[2].data.position, Vec3i::new(7, 8, 9));
}

#[test]
fn mirror_matches_records_byte_for_byte() {
    let mut store: ComponentArray<Point> = ComponentArray::new(vec![
        f9::components::point::new(Vec3i::new(0, 0, 0)),
        f9::components::point::new(Vec3i::new(1000, -1000, 5)),
    ]);
    let mut expected = Vec::new();
    expected.extend(point_record_bytes(0, 0, 0, 1));
    expected.extend(point_record_bytes(1000, -1000, 5, 1));
    assert_eq!(store.buffer, expected);

    store.push(f9::components::point::new(Vec3i::new(7, 7, 7)));
    expected.extend(point_record_bytes(7, 7, 7, 1));
    assert_eq!(store.buffer, expected);

    let updated = store.update(1, |c| Component {
        data: Point { position: Vec3i::new(42, 43, 44) },
        flags: c.flags,
    });
    assert_eq!(updated, Some(()));
    let mut expected2 = Vec::new();
    expected2.extend(point_record_bytes(0, 0, 0, 1));
    expected2.extend(point_record_bytes(42, 43, 44, 1));
    expected2.extend(point_record_bytes(7, 7, 7, 1));
    assert_eq!(store.buffer, expected2);
}

#[test]
fn update_of_stale_index_is_a_noop() {
    let mut store: ComponentArray<Point> = ComponentArray::new(vec![f9::components::point::new(
        Vec3i::new(1, 1, 1),
    )]);
    let before = store.buffer.clone();
    let r = store.update(5, |c| c);
    assert_eq!(r, None);
    assert_eq!(store.array.len(), 1);
    assert_eq!(store.buffer, before);
    assert_eq!(store.array[0].data.position, Vec3i::new(1, 1, 1));
}

#[test]
fn push_or_update_builds_one_draft_record() {
    let mut store: ComponentArray<Point> = ComponentArray::new(vec![f9::components::point::new(
        Vec3i::new(9, 9, 9),
    )]);
    let mut draft: Option<usize> = None;
    let i = store.push_or_update(
        &mut draft,
        || f9::components::point::new(Vec3i::new(1, 0, 0)),
        |c| Component { data: Point { position: Vec3i::new(1, 0, 0) }, flags: c.flags },
    );
    assert_eq!(i, 1);
    assert_eq!(draft, Some(1));
    assert_eq!(store.array.len(), 2);
    // every further call mutates record 1 in place, never growing the store
    for step in 2..6i64 {
        let j = store.push_or_update(
            &mut draft,
            || f9::components::point::new(Vec3i::new(step, 0, 0)),
            move |c| Component { data: Point { position: Vec3i::new(step, 0, 0) }, flags: c.flags },
        );
        assert_eq!(j, 1);
        assert_eq!(draft, Some(1));
        assert_eq!(store.array.len(), 2);
        assert_eq!(store.array[1].data.position, Vec3i::new(step, 0, 0));
    }
    assert_eq!(store.array[0].data.position, Vec3i::new(9, 9, 9));
}

#[test]
fn push_or_update_with_stale_draft_pushes_fresh() {
    let mut store: ComponentArray<Point> = ComponentArray::new(Vec::new());
    let mut draft: Option<usize> = Some(17);
    let i = store.push_or_update(
        &mut draft,
        || f9::components::point::new(Vec3i::new(3, 3, 3)),
        |c| c,
    );
    assert_eq!(i, 0);
    assert_eq!(draft, Some(0));
    assert_eq!(store.array.len(), 1);
    assert_eq!(store.array[0].data.position, Vec3i::new(3, 3, 3));
}

#[test]
fn growth_preserves_prior_contents() {
    let mut store: ComponentArray<Point> = ComponentArray::new(vec![f9::components::point::new(
        Vec3i::new(0, 1, 2),
    )]);
    let initial_size = store.buffer_size;
    assert_eq!(initial_size, store.buffer.len());
    let mut sizes = vec![initial_size];
    for n in 0..8i64 {
        store.push(f9::components::point::new(Vec3i::new(n, n, n)));
        sizes.push(store.buffer_size);
    }
    // the allocation grew at least once and never shrank
    assert!(*sizes.last().unwrap() > initial_size);
    for w in sizes.windows(2) {
        assert!(w[0] <= w[1]);
    }
    // all prior contents survived every grow-reallocate-reupload cycle
    let mut expected = point_record_bytes(0, 1, 2, 1);
    for n in 0..8i64 {
        expected.extend(point_record_bytes(n, n, n, 1));
    }
    assert_eq!(store.buffer, expected);
    assert_eq!(store.array[0].data.position, Vec3i::new(0, 1, 2));
}

#[test]
fn flag_updates_touch_only_the_flag_word() {
    let mut store: ComponentArray<Point> = ComponentArray::new(vec![
        f9::components::point::new(Vec3i::new(1, 2, 3)),
        f9::components::point::new(Vec3i::new(4, 5, 6)),
    ]);
    let r = store.update_flag(0, FlagOp::Selected);
    assert_eq!(r, Some(()));
    assert_eq!(store.array[0].flags, 1 | 4);
    assert_eq!(store.array[1].flags, 1);
    assert_eq!(store.array[0].data.position, Vec3i::new(1, 2, 3));
    let mut expected = Vec::new();
    expected.extend(point_record_bytes(1, 2, 3, 5));
    expected.extend(point_record_bytes(4, 5, 6, 1));
    assert_eq!(store.buffer, expected);
    assert_eq!(store.update_flag(9, FlagOp::Selected), None);
}

#[test]
fn record_flag_methods_mask_bits() {
    let mut c = Component::new(Point { position: Vec3i::new(0, 0, 0) });
    assert_eq!(c.flags, ComponentFlags::Visible.mask());
    c.hover();
    assert_eq!(c.flags, 1 | 2);
    c.selected();
    assert_eq!(c.flags, 1 | 2 | 4);
    assert!(c.is_selected());
    c.nothover();
    assert_eq!(c.flags, 1 | 4);
    c.deselected();
    assert_eq!(c.flags, 1);
    assert!(!c.is_selected());
    let c2 = c.notvisible();
    assert_eq!(c2.flags, 0);
    let l = f9::components::line::new(2, 7);
    assert_eq!((l.data.point_a, l.data.point_b), (2, 7));
}
