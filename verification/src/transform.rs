//! Per-vertex load-time transforms: the axis-convention fix and the color
//! de-extremization, both exact on the stored representation.

use vstd::prelude::*;

use crate::lump::{ColorRgba, Vec3Bits, Vertex};

verus! {

/// The bit pattern of the negated IEEE-754 value: the sign bit flipped.
pub open spec fn spec_flip_sign(v: u32) -> u32 {
    v ^ 0x8000_0000
}

/// The axis-convention fix: the file keeps Z up, the engine keeps Y up, so
/// the new Y is the old Z and the new Z is the negated old Y.
pub open spec fn spec_axis_fix(p: Vec3Bits) -> Vec3Bits {
    Vec3Bits { x: p.x, y: p.z, z: spec_flip_sign(p.y) }
}

/// De-extremization of one color channel: a channel that is exactly 0 gains
/// 100, one that is exactly 255 loses 100, anything else is kept.
pub open spec fn spec_fix_channel(v: u8) -> u8 {
    if v == 0 {
        100
    } else if v == 255 {
        155
    } else {
        v
    }
}

/// The loaded color: R, G and B de-extremized, alpha forced to 1 whatever
/// the file held.
pub open spec fn spec_fix_color(c: ColorRgba) -> ColorRgba {
    ColorRgba {
        r: spec_fix_channel(c.r),
        g: spec_fix_channel(c.g),
        b: spec_fix_channel(c.b),
        a: 1,
    }
}

/// A raw vertex record after the load-time transforms: axis fix on the
/// position, color fix on the color, everything else kept.
pub open spec fn spec_transform_vertex(v: Vertex) -> Vertex {
    Vertex {
        position: spec_axis_fix(v.position),
        tex_surface: v.tex_surface,
        tex_lightmap: v.tex_lightmap,
        normal: v.normal,
        color: spec_fix_color(v.color),
    }
}

/// Flips the sign bit of a position component's bit pattern.
pub fn flip_sign(v: u32) -> (r: u32)
    ensures
        r == spec_flip_sign(v),
{
    v ^ 0x8000_0000
}

/// Applies the axis-convention fix to one position.
pub fn axis_fix(p: Vec3Bits) -> (r: Vec3Bits)
    ensures
        r == spec_axis_fix(p),
{
    Vec3Bits { x: p.x, y: p.z, z: flip_sign(p.y) }
}

/// De-extremizes one color channel.
pub fn fix_channel(v: u8) -> (r: u8)
    ensures
        r == spec_fix_channel(v),
{
    if v == 0 {
        100
    } else if v == 255 {
        155
    } else {
        v
    }
}

/// De-extremizes a color's R, G and B and forces alpha to 1.
pub fn fix_color(c: ColorRgba) -> (r: ColorRgba)
    ensures
        r == spec_fix_color(c),
{
    ColorRgba { r: fix_channel(c.r), g: fix_channel(c.g), b: fix_channel(c.b), a: 1 }
}

/// Applies both load-time transforms to one raw vertex record.
pub fn transform_vertex(v: Vertex) -> (r: Vertex)
    ensures
        r == spec_transform_vertex(v),
{
    Vertex {
        position: axis_fix(v.position),
        tex_surface: v.tex_surface,
        tex_lightmap: v.tex_lightmap,
        normal: v.normal,
        color: fix_color(v.color),
    }
}

/// Flipping the sign bit twice restores the original bit pattern.
pub proof fn lemma_flip_sign_involution(v: u32)
    ensures
        spec_flip_sign(spec_flip_sign(v)) == v,
{
    assert((v ^ 0x8000_0000) ^ 0x8000_0000 == v) by (bit_vector);
}

/// One application of the axis fix maps (x, y, z) to (x, z, -y); applying
/// it twice is the identity up to sign, negating both Y and Z.
pub proof fn lemma_axis_fix_twice(p: Vec3Bits)
    ensures
        spec_axis_fix(p) == (Vec3Bits { x: p.x, y: p.z, z: spec_flip_sign(p.y) }),
        spec_axis_fix(spec_axis_fix(p)) == (Vec3Bits {
            x: p.x,
            y: spec_flip_sign(p.y),
            z: spec_flip_sign(p.z),
        }),
{
}

} // verus!
