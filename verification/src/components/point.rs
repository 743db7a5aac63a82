//! A point entity: a bare position.

use vstd::prelude::*;
use crate::math::Vec3i;
use crate::bytes::{vec3i_le_bytes, push_vec3i_le};
use super::component::{Component, ComponentData};

verus! {

/// A point in fixed-point world space.
#[derive(Clone, Copy, Debug, PartialEq, Eq, Structural)]
pub struct Point {
    pub position: Vec3i,
}

impl ComponentData for Point {
    open spec fn byte_len() -> nat {
        24
    }

    open spec fn enc(self) -> Seq<u8> {
        vec3i_le_bytes(self.position)
    }

    proof fn enc_len(self) {
    }

    fn encode_into(&self, out: &mut Vec<u8>) {
        push_vec3i_le(out, self.position);
    }
}

/// A fresh, visible point record at `position`.
pub fn new(position: Vec3i) -> (r: Component<Point>)
    ensures
        r.data == (Point { position }),
        r.flags == super::component::ComponentFlags::Visible.spec_mask(),
{
    Component::new(Point { position })
}

} // verus!
