//! Fixed-layout little-endian serialization.
//!
//! Every entity record is mirrored into a GPU-bound buffer as a fixed
//! number of bytes. The encoders here are the single source of truth for
//! that layout: a `u32` takes four bytes, an `i64` eight, both
//! little-endian, with no padding beyond what the record layouts state.

use vstd::prelude::*;
use crate::math::Vec3i;

verus! {

/// The four little-endian bytes of a `u32`.
pub open spec fn u32_le_bytes(v: u32) -> Seq<u8> {
    seq![
        v as u8,
        (v >> 8) as u8,
        (v >> 16) as u8,
        (v >> 24) as u8,
    ]
}

/// The eight little-endian bytes of a `u64`.
pub open spec fn u64_le_bytes(v: u64) -> Seq<u8> {
    seq![
        v as u8,
        (v >> 8) as u8,
        (v >> 16) as u8,
        (v >> 24) as u8,
        (v >> 32) as u8,
        (v >> 40) as u8,
        (v >> 48) as u8,
        (v >> 56) as u8,
    ]
}

/// The eight little-endian bytes of an `i64` (two's complement).
pub open spec fn i64_le_bytes(v: i64) -> Seq<u8> {
    u64_le_bytes(v as u64)
}

/// The 24 bytes of a fixed-point vector: x, then y, then z.
pub open spec fn vec3i_le_bytes(v: Vec3i) -> Seq<u8> {
    i64_le_bytes(v.x) + i64_le_bytes(v.y) + i64_le_bytes(v.z)
}

/// Appends the four little-endian bytes of `v` to `out`.
pub fn push_u32_le(out: &mut Vec<u8>, v: u32)
    ensures
        final(out)@ == old(out)@ + u32_le_bytes(v),
{
    out.push(#[verifier::truncate] (v as u8));
    out.push(#[verifier::truncate] ((v >> 8) as u8));
    out.push(#[verifier::truncate] ((v >> 16) as u8));
    out.push(#[verifier::truncate] ((v >> 24) as u8));
    proof {
        assert(out@ =~= old(out)@ + u32_le_bytes(v));
    }
}

/// Appends the eight little-endian bytes of `v` to `out`.
pub fn push_u64_le(out: &mut Vec<u8>, v: u64)
    ensures
        final(out)@ == old(out)@ + u64_le_bytes(v),
{
    out.push(#[verifier::truncate] (v as u8));
    out.push(#[verifier::truncate] ((v >> 8) as u8));
    out.push(#[verifier::truncate] ((v >> 16) as u8));
    out.push(#[verifier::truncate] ((v >> 24) as u8));
    out.push(#[verifier::truncate] ((v >> 32) as u8));
    out.push(#[verifier::truncate] ((v >> 40) as u8));
    out.push(#[verifier::truncate] ((v >> 48) as u8));
    out.push(#[verifier::truncate] ((v >> 56) as u8));
    proof {
        assert(out@ =~= old(out)@ + u64_le_bytes(v));
    }
}

/// Appends the eight little-endian bytes of `v` to `out`.
pub fn push_i64_le(out: &mut Vec<u8>, v: i64)
    ensures
        final(out)@ == old(out)@ + i64_le_bytes(v),
{
    push_u64_le(out, #[verifier::truncate] (v as u64));
}

/// Appends the 24 bytes of `v` to `out`.
pub fn push_vec3i_le(out: &mut Vec<u8>, v: Vec3i)
    ensures
        final(out)@ == old(out)@ + vec3i_le_bytes(v),
{
    push_i64_le(out, v.x);
    push_i64_le(out, v.y);
    push_i64_le(out, v.z);
    proof {
        assert(out@ =~= old(out)@ + vec3i_le_bytes(v));
    }
}

} // verus!
