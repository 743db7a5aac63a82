//! A cubic bezier entity: four indices into the point store.

use vstd::prelude::*;
use crate::bytes::{u32_le_bytes, push_u32_le};
use super::component::{Component, ComponentData};

verus! {

/// A cubic bezier from `point_a` to `point_b` with two control points,
/// all indices into the point store.
#[derive(Clone, Copy, Debug, PartialEq, Eq, Structural)]
pub struct Bezier {
    pub point_a: u32,
    pub point_b: u32,
    pub control_a: u32,
    pub control_b: u32,
}

impl ComponentData for Bezier {
    open spec fn byte_len() -> nat {
        16
    }

    open spec fn enc(self) -> Seq<u8> {
        u32_le_bytes(self.point_a) + u32_le_bytes(self.point_b) + u32_le_bytes(self.control_a)
            + u32_le_bytes(self.control_b)
    }

    proof fn enc_len(self) {
    }

    fn encode_into(&self, out: &mut Vec<u8>) {
        push_u32_le(out, self.point_a);
        push_u32_le(out, self.point_b);
        push_u32_le(out, self.control_a);
        push_u32_le(out, self.control_b);
        proof {
            assert(out@ =~= old(out)@ + self.enc());
        }
    }
}

/// A fresh, visible bezier record over the four point indices.
pub fn new(point_a: u32, point_b: u32, control_a: u32, control_b: u32) -> (r: Component<Bezier>)
    ensures
        r.data == (Bezier { point_a, point_b, control_a, control_b }),
        r.flags == super::component::ComponentFlags::Visible.spec_mask(),
{
    Component::new(Bezier { point_a, point_b, control_a, control_b })
}

} // verus!
