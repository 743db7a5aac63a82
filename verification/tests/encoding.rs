use f9::component_array::ComponentArray;
use f9::errors::Error;
use f9::math::Vec3i;

fn le64(v: i64, out: &mut Vec<u8>) {
    for k in 0..8 {
        out.push(((v as u64) >> (8 * k)) as u8);
    }
}

fn le32(v: u32, out: &mut Vec<u8>) {
    for k in 0..4 {
        out.push((v >> (8 * k)) as u8);
    }
}

fn le_vec(v: Vec3i, out: &mut Vec<u8>) {
    le64(v.x, out);
    le64(v.y, out);
    le64(v.z, out);
}

#[test]
fn line_records_take_twelve_bytes() {
    let store = ComponentArray::new(vec![f9::components::line::new(2, 7)]);
    let mut expected = Vec::new();
    le32(2, &mut expected);
    le32(7, &mut expected);
    le32(1, &mut expected);
    assert_eq!(store.buffer, expected);
    assert_eq!(store.buffer.len(), 12);
}

#[test]
fn bezier_records_take_twenty_bytes() {
    let store = ComponentArray::new(vec![f9::components::bezier::new(0, 3, 2, 1)]);
    let mut expected = Vec::new();
    for v in [0u32, 3, 2, 1, 1] {
        le32(v, &mut expected);
    }
    assert_eq!(store.buffer, expected);
    assert_eq!(store.buffer.len(), 20);
}

#[test]
fn circle_records_lay_out_center_radius_orientation_height() {
    let store = ComponentArray::new(vec![f9::components::circle::new(
        0,
        2500,
        Vec3i::new(1000, 0, 0),
        0,
    )]);
    let mut expected = Vec::new();
    le32(0, &mut expected);
    le64(2500, &mut expected);
    le_vec(Vec3i::new(1000, 0, 0), &mut expected);
    le64(0, &mut expected);
    le32(1, &mut expected);
    assert_eq!(store.buffer, expected);
    assert_eq!(store.buffer.len(), 48);
}

#[test]
fn vertex_records_hold_position_then_direction() {
    let store = ComponentArray::new(vec![f9::components::vertex::z().notvisible()]);
    let mut expected = Vec::new();
    le_vec(Vec3i::new(0, 0, 0), &mut expected);
    le_vec(Vec3i::new(0, 0, 1000), &mut expected);
    le32(0, &mut expected);
    assert_eq!(store.buffer, expected);
    assert_eq!(store.buffer.len(), 52);
}

#[test]
fn axis_marker_constructors_point_along_their_axis() {
    let x = f9::components::vertex::x();
    let y = f9::components::vertex::y();
    let z = f9::components::vertex::z();
    assert_eq!(x.data.direction, Vec3i::new(1000, 0, 0));
    assert_eq!(y.data.direction, Vec3i::new(0, 1000, 0));
    assert_eq!(z.data.direction, Vec3i::new(0, 0, 1000));
    assert_eq!(x.data.position, Vec3i::new(0, 0, 0));
    assert_eq!(x.flags, 1);
    let v = f9::components::vertex::Vertex::new(Vec3i::new(1, 2, 3), Vec3i::new(4, 5, 6));
    assert_eq!(v.position, Vec3i::new(1, 2, 3));
    assert_eq!(v.direction, Vec3i::new(4, 5, 6));
    let v0 = f9::components::vertex::Vertex::zero(Vec3i::new(4, 5, 6));
    assert_eq!(v0.position, Vec3i::new(0, 0, 0));
}

#[test]
fn interaction_error_values_are_distinct() {
    assert_ne!(Error::NotFound, Error::WrongType);
    assert_eq!(Error::NotFound, Error::NotFound);
}
