//! Loader and triangulator for IBSP level geometry.
//!
//! The library decodes a compiled map from a byte buffer: a fixed-layout
//! header with a directory of lumps, then vertex, face and mesh-vertex
//! records.  Vertices get an axis-convention fix and a color correction on
//! load; polygon faces are fan-triangulated into a flat, renderer-ready
//! vertex and triangle list.
//!
//! Position components are carried as raw IEEE-754 bit patterns (`u32`), so
//! every structural step is exact.  The purely numeric post-pass (uniform
//! scale, bounding boxes and re-centering) operates on those bits outside
//! this crate.

use vstd::prelude::*;

pub mod bytes;
pub mod lump;
pub mod map;
pub mod transform;
pub mod triangulate;

verus! {

/// How a load can fail: `IoError` for a seek or read past the end of the
/// input, `FormatError` for a bad magic tag or a lump whose computed record
/// count is not positive.
#[derive(Clone, Copy, Debug, PartialEq, Eq, Structural)]
pub enum LoadError {
    IoError,
    FormatError,
}

} // verus!
