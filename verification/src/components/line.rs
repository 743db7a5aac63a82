//! A line entity: two indices into the point store.

use vstd::prelude::*;
use crate::bytes::{u32_le_bytes, push_u32_le};
use super::component::{Component, ComponentData};

verus! {

/// A line between the points at indices `point_a` and `point_b`.
#[derive(Clone, Copy, Debug, PartialEq, Eq, Structural)]
pub struct Line {
    pub point_a: u32,
    pub point_b: u32,
}

impl ComponentData for Line {
    open spec fn byte_len() -> nat {
        8
    }

    open spec fn enc(self) -> Seq<u8> {
        u32_le_bytes(self.point_a) + u32_le_bytes(self.point_b)
    }

    proof fn enc_len(self) {
    }

    fn encode_into(&self, out: &mut Vec<u8>) {
        push_u32_le(out, self.point_a);
        push_u32_le(out, self.point_b);
        proof {
            assert(out@ =~= old(out)@ + self.enc());
        }
    }
}

/// A fresh, visible line record between point indices `point_a` and `point_b`.
pub fn new(point_a: u32, point_b: u32) -> (r: Component<Line>)
    ensures
        r.data == (Line { point_a, point_b }),
        r.flags == super::component::ComponentFlags::Visible.spec_mask(),
{
    Component::new(Line { point_a, point_b })
}

} // verus!
