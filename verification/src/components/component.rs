//! Entity records and their flag bitmask.
//!
//! A `Component<T>` couples a typed geometric payload with a `u32` flag
//! word. The four flag bits are independent: a record can be visible,
//! hovered, selected and deleted in any combination. Payload types
//! implement [`ComponentData`], which fixes their byte layout in the
//! GPU-bound mirror.

use vstd::prelude::*;
use crate::bytes::u32_le_bytes;

verus! {

/// Which end of an entity a walk starts from.
#[derive(Clone, Copy, Debug, PartialEq, Eq, Structural)]
pub enum IndexPosition {
    First,
    Last,
}

/// The direction of a walk along connected entities.
#[derive(Clone, Copy, Debug, PartialEq, Eq, Structural)]
pub enum WalkDirection {
    Down,
    Up,
}

/// One independent flag bit of a record.
#[derive(Clone, Copy, Debug, PartialEq, Eq, Structural)]
pub enum ComponentFlags {
    Visible,
    Hover,
    Selected,
    Deleted,
}

impl ComponentFlags {
    /// The bit this flag occupies in the flag word.
    pub open spec fn spec_mask(self) -> u32 {
        match self {
            ComponentFlags::Visible => 1u32,
            ComponentFlags::Hover => 2u32,
            ComponentFlags::Selected => 4u32,
            ComponentFlags::Deleted => 8u32,
        }
    }

    /// The bit this flag occupies in the flag word.
    #[verifier::when_used_as_spec(spec_mask)]
    pub fn mask(self) -> (r: u32)
        ensures
            r == self.spec_mask(),
    {
        match self {
            ComponentFlags::Visible => 1u32,
            ComponentFlags::Hover => 2u32,
            ComponentFlags::Selected => 4u32,
            ComponentFlags::Deleted => 8u32,
        }
    }
}

/// Whether the flag word `flags` has the bit of `f` set.
pub open spec fn has_flag(flags: u32, f: ComponentFlags) -> bool {
    flags & f.spec_mask() == f.spec_mask()
}

/// A flag mutation that generic code can request on any record, whatever
/// its payload type.
#[derive(Clone, Copy, Debug, PartialEq, Eq, Structural)]
pub enum FlagOp {
    Hover,
    NotHover,
    Visible,
    Invisible,
    Selected,
    Deselected,
}

/// The flag word after applying `op` to `flags`.
pub open spec fn apply_flag_spec(flags: u32, op: FlagOp) -> u32 {
    match op {
        FlagOp::Hover => flags | ComponentFlags::Hover.spec_mask(),
        FlagOp::NotHover => flags & !ComponentFlags::Hover.spec_mask(),
        FlagOp::Visible => flags | ComponentFlags::Visible.spec_mask(),
        FlagOp::Invisible => flags & !ComponentFlags::Visible.spec_mask(),
        FlagOp::Selected => flags | ComponentFlags::Selected.spec_mask(),
        FlagOp::Deselected => flags & !ComponentFlags::Selected.spec_mask(),
    }
}

/// Clearing a bit twice is the same as clearing it once.
pub proof fn lemma_clear_idempotent(f: u32, m: u32)
    ensures
        (f & !m) & !m == f & !m,
{
    assert((f & !m) & !m == f & !m) by (bit_vector);
}

/// Setting a bit on a word that had it cleared gives the same word as
/// setting it directly.
pub proof fn lemma_set_after_clear(f: u32, m: u32)
    ensures
        (f & !m) | m == f | m,
{
    assert((f & !m) | m == f | m) by (bit_vector);
}

/// Clearing one bit leaves a disjoint bit untouched.
pub proof fn lemma_clear_preserves_other(f: u32, m1: u32, m2: u32)
    requires
        m1 & m2 == 0,
    ensures
        (f & !m1) & m2 == f & m2,
{
    assert(m1 & m2 == 0 ==> (f & !m1) & m2 == f & m2) by (bit_vector);
}

/// The closed set of entity kinds a record can belong to.
#[derive(Clone, Copy, Debug, PartialEq, Eq, Structural)]
pub enum ComponentType {
    Point,
    Line,
    Circle,
    Bezier,
    Arrow,
    ArrowPlane,
}

/// Names one entity: its kind and its index inside that kind's store.
#[derive(Clone, Copy, Debug, PartialEq, Eq, Structural)]
pub struct ComponentIdentifier {
    pub index: u32,
    pub ctype: ComponentType,
}

/// One hover candidate reported for the current picking ray, with its
/// distance along the ray in fixed-point milli-units.
#[derive(Clone, Copy, Debug, PartialEq, Eq, Structural)]
pub struct HoverElement {
    pub index: u32,
    pub ctype: ComponentType,
    pub distance: i64,
    pub position: crate::math::Vec3i,
}

/// A typed payload that owns a fixed byte layout in the buffer mirror.
pub trait ComponentData: Sized + Copy {
    /// How many bytes one payload takes in the mirror.
    spec fn byte_len() -> nat;

    /// The exact bytes of this payload in the mirror.
    spec fn enc(self) -> Seq<u8>;

    /// Every payload of one type takes the same number of bytes.
    proof fn enc_len(self)
        ensures
            self.enc().len() == Self::byte_len(),
    ;

    /// Appends the payload's bytes to `out`.
    fn encode_into(&self, out: &mut Vec<u8>)
        ensures
            final(out)@ == old(out)@ + self.enc(),
    ;
}

/// A stored entity: payload plus flag word.
#[derive(Clone, Copy, Debug, PartialEq)]
pub struct Component<T> {
    pub data: T,
    pub flags: u32,
}

/// The bytes of one record in the mirror: the payload, then the flag word.
pub open spec fn component_bytes<T: ComponentData>(c: Component<T>) -> Seq<u8> {
    c.data.enc() + u32_le_bytes(c.flags)
}

/// How many bytes one record of payload type `T` takes in the mirror.
pub open spec fn component_byte_len<T: ComponentData>() -> nat {
    T::byte_len() + 4
}

/// A record's bytes always take [`component_byte_len`] bytes.
pub proof fn lemma_component_bytes_len<T: ComponentData>(c: Component<T>)
    ensures
        component_bytes(c).len() == component_byte_len::<T>(),
{
    c.data.enc_len();
}

/// Appends the bytes of one record to `out`.
pub fn encode_component<T: ComponentData>(c: &Component<T>, out: &mut Vec<u8>)
    ensures
        final(out)@ == old(out)@ + component_bytes(*c),
{
    c.data.encode_into(out);
    crate::bytes::push_u32_le(out, c.flags);
    proof {
        assert(out@ =~= old(out)@ + component_bytes(*c));
    }
}

impl<T> Component<T> {
    /// A fresh record: the payload, with only the `Visible` flag set.
    pub fn new(data: T) -> (r: Self)
        ensures
            r.data == data,
            r.flags == ComponentFlags::Visible.spec_mask(),
    {
        Component { data, flags: ComponentFlags::Visible.mask() }
    }

    /// The same record with the `Visible` flag cleared.
    pub fn notvisible(self) -> (r: Self)
        ensures
            r.data == self.data,
            r.flags == self.flags & !ComponentFlags::Visible.spec_mask(),
    {
        Component { data: self.data, flags: self.flags & !ComponentFlags::Visible.mask() }
    }

    /// Sets the `Hover` flag.
    pub fn hover(&mut self)
        ensures
            final(self).data == old(self).data,
            final(self).flags == old(self).flags | ComponentFlags::Hover.spec_mask(),
    {
        self.flags = self.flags | ComponentFlags::Hover.mask();
    }

    /// Clears the `Hover` flag.
    pub fn nothover(&mut self)
        ensures
            final(self).data == old(self).data,
            final(self).flags == old(self).flags & !ComponentFlags::Hover.spec_mask(),
    {
        self.flags = self.flags & !ComponentFlags::Hover.mask();
    }

    /// Sets the `Visible` flag.
    pub fn visible(&mut self)
        ensures
            final(self).data == old(self).data,
            final(self).flags == old(self).flags | ComponentFlags::Visible.spec_mask(),
    {
        self.flags = self.flags | ComponentFlags::Visible.mask();
    }

    /// Clears the `Visible` flag.
    pub fn invisible(&mut self)
        ensures
            final(self).data == old(self).data,
            final(self).flags == old(self).flags & !ComponentFlags::Visible.spec_mask(),
    {
        self.flags = self.flags & !ComponentFlags::Visible.mask();
    }

    /// Sets the `Selected` flag.
    pub fn selected(&mut self)
        ensures
            final(self).data == old(self).data,
            final(self).flags == old(self).flags | ComponentFlags::Selected.spec_mask(),
    {
        self.flags = self.flags | ComponentFlags::Selected.mask();
    }

    /// Clears the `Selected` flag.
    pub fn deselected(&mut self)
        ensures
            final(self).data == old(self).data,
            final(self).flags == old(self).flags & !ComponentFlags::Selected.spec_mask(),
    {
        self.flags = self.flags & !ComponentFlags::Selected.mask();
    }

    /// Whether the `Selected` flag is set.
    pub fn is_selected(&self) -> (r: bool)
        ensures
            r == has_flag(self.flags, ComponentFlags::Selected),
    {
        self.flags & ComponentFlags::Selected.mask() == ComponentFlags::Selected.mask()
    }
}

} // verus!
