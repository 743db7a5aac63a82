//! An oriented marker entity, used for axes, grids and arrows.

use vstd::prelude::*;
use crate::math::Vec3i;
use crate::bytes::{vec3i_le_bytes, push_vec3i_le};
use super::component::{Component, ComponentData};

verus! {

/// A position with a direction.
#[derive(Clone, Copy, Debug, PartialEq, Eq, Structural)]
pub struct Vertex {
    pub position: Vec3i,
    pub direction: Vec3i,
}

impl ComponentData for Vertex {
    open spec fn byte_len() -> nat {
        48
    }

    open spec fn enc(self) -> Seq<u8> {
        vec3i_le_bytes(self.position) + vec3i_le_bytes(self.direction)
    }

    proof fn enc_len(self) {
    }

    fn encode_into(&self, out: &mut Vec<u8>) {
        push_vec3i_le(out, self.position);
        push_vec3i_le(out, self.direction);
        proof {
            assert(out@ =~= old(out)@ + self.enc());
        }
    }
}

impl Vertex {
    /// A marker at `position` pointing along `direction`.
    pub fn new(position: Vec3i, direction: Vec3i) -> (r: Self)
        ensures
            r == (Vertex { position, direction }),
    {
        Vertex { position, direction }
    }

    /// A marker at the origin pointing along `direction`.
    pub fn zero(direction: Vec3i) -> (r: Self)
        ensures
            r == (Vertex { position: Vec3i { x: 0, y: 0, z: 0 }, direction }),
    {
        Vertex { position: Vec3i::zero(), direction }
    }
}

/// One world unit along the x axis, in milli-units.
pub open spec fn unit_x() -> Vec3i {
    Vec3i { x: 1000, y: 0, z: 0 }
}

/// One world unit along the y axis, in milli-units.
pub open spec fn unit_y() -> Vec3i {
    Vec3i { x: 0, y: 1000, z: 0 }
}

/// One world unit along the z axis, in milli-units.
pub open spec fn unit_z() -> Vec3i {
    Vec3i { x: 0, y: 0, z: 1000 }
}

/// A fresh, visible marker at the origin pointing along the x axis.
pub fn x() -> (r: Component<Vertex>)
    ensures
        r.data == (Vertex { position: Vec3i { x: 0, y: 0, z: 0 }, direction: unit_x() }),
        r.flags == super::component::ComponentFlags::Visible.spec_mask(),
{
    Component::new(Vertex::zero(Vec3i::new(1000, 0, 0)))
}

/// A fresh, visible marker at the origin pointing along the y axis.
pub fn y() -> (r: Component<Vertex>)
    ensures
        r.data == (Vertex { position: Vec3i { x: 0, y: 0, z: 0 }, direction: unit_y() }),
        r.flags == super::component::ComponentFlags::Visible.spec_mask(),
{
    Component::new(Vertex::zero(Vec3i::new(0, 1000, 0)))
}

/// A fresh, visible marker at the origin pointing along the z axis.
pub fn z() -> (r: Component<Vertex>)
    ensures
        r.data == (Vertex { position: Vec3i { x: 0, y: 0, z: 0 }, direction: unit_z() }),
        r.flags == super::component::ComponentFlags::Visible.spec_mask(),
{
    Component::new(Vertex::zero(Vec3i::new(0, 0, 1000)))
}

} // verus!
