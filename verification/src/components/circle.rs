//! A circle entity: a center point index, a radius and an orientation.

use vstd::prelude::*;
use crate::math::Vec3i;
use crate::bytes::{u32_le_bytes, i64_le_bytes, vec3i_le_bytes, push_u32_le, push_i64_le,
    push_vec3i_le};
use super::component::{Component, ComponentData};

verus! {

/// A circle around the point at index `center`, with fixed-point radius,
/// plane orientation and height factor.
#[derive(Clone, Copy, Debug, PartialEq, Eq, Structural)]
pub struct Circle {
    pub center: u32,
    pub radius: i64,
    pub orientation: Vec3i,
    pub heightfactor: i64,
}

impl ComponentData for Circle {
    open spec fn byte_len() -> nat {
        44
    }

    open spec fn enc(self) -> Seq<u8> {
        u32_le_bytes(self.center) + i64_le_bytes(self.radius) + vec3i_le_bytes(self.orientation)
            + i64_le_bytes(self.heightfactor)
    }

    proof fn enc_len(self) {
    }

    fn encode_into(&self, out: &mut Vec<u8>) {
        push_u32_le(out, self.center);
        push_i64_le(out, self.radius);
        push_vec3i_le(out, self.orientation);
        push_i64_le(out, self.heightfactor);
        proof {
            assert(out@ =~= old(out)@ + self.enc());
        }
    }
}

/// A fresh, visible circle record.
pub fn new(center: u32, radius: i64, orientation: Vec3i, heightfactor: i64) -> (r: Component<
    Circle,
>)
    ensures
        r.data == (Circle { center, radius, orientation, heightfactor }),
        r.flags == super::component::ComponentFlags::Visible.spec_mask(),
{
    Component::new(Circle { center, radius, orientation, heightfactor })
}

} // verus!
