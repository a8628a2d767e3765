//! Binary record layouts: the header, the lump directory, and the vertex,
//! face and mesh-vertex records, with their exact byte sizes and decoders.

use vstd::prelude::*;

use crate::bytes::{as_i32, le32, read_i32, read_u32};
use crate::LoadError;

verus! {

/// Size in bytes of the header: magic tag, version, 17 directory entries.
pub const HEADER_SIZE: usize = 144;

/// Number of entries in the header's lump directory.
pub const LUMP_COUNT: usize = 17;

/// Size in bytes of one vertex record: position, two texture-coordinate
/// pairs, normal, RGBA color.
pub const VERTEX_SIZE: usize = 44;

/// Size in bytes of one face record on disk; only the kind, first-vertex
/// and vertex-count fields are consumed.
pub const FACE_SIZE: usize = 104;

/// Size in bytes of one mesh-vertex record: a single signed index offset.
pub const MESH_VERT_SIZE: usize = 4;

/// Directory index of the vertex lump.
pub const LUMP_VERTICES: usize = 10;

/// Directory index of the mesh-vertex lump.
pub const LUMP_MESH_VERTS: usize = 11;

/// Directory index of the face lump.
pub const LUMP_FACES: usize = 13;

/// One directory entry: where a lump's data lives in the file.
#[derive(Clone, Copy, Debug, PartialEq, Eq, Structural)]
pub struct DirEntry {
    /// Absolute byte offset of the lump's data.
    pub offset: i32,
    /// Byte length of the lump's data.
    pub length: i32,
}

/// The decoded header: format version and the lump directory.  The magic
/// tag has been checked and is not kept.
#[derive(Debug)]
pub struct Header {
    pub version: i32,
    pub lumps: Vec<DirEntry>,
}

/// Three 32-bit words holding the IEEE-754 bit patterns of a 3-vector.
#[derive(Clone, Copy, Debug, PartialEq, Eq, Structural)]
pub struct Vec3Bits {
    pub x: u32,
    pub y: u32,
    pub z: u32,
}

/// Two 32-bit words holding the IEEE-754 bit patterns of a 2-vector.
#[derive(Clone, Copy, Debug, PartialEq, Eq, Structural)]
pub struct Vec2Bits {
    pub u: u32,
    pub v: u32,
}

/// An RGBA color of four unsigned bytes.
#[derive(Clone, Copy, Debug, PartialEq, Eq, Structural)]
pub struct ColorRgba {
    pub r: u8,
    pub g: u8,
    pub b: u8,
    pub a: u8,
}

/// One vertex record.  Position components are bit patterns; the color is
/// four bytes.
#[derive(Clone, Copy, Debug, PartialEq, Eq, Structural)]
pub struct Vertex {
    pub position: Vec3Bits,
    pub tex_surface: Vec2Bits,
    pub tex_lightmap: Vec2Bits,
    pub normal: Vec3Bits,
    pub color: ColorRgba,
}

/// The consumed fields of one face record: the kind discriminant, the index
/// of the face's first vertex, and how many vertices the face spans.
#[derive(Clone, Copy, Debug, PartialEq, Eq, Structural)]
pub struct Face {
    pub kind: i32,
    pub start_vertex: i32,
    pub num_vertices: i32,
}

/// One mesh-vertex record: a signed index offset, loaded but not consumed
/// by triangulation.
#[derive(Clone, Copy, Debug, PartialEq, Eq, Structural)]
pub struct MeshVert {
    pub offset: i32,
}

/// The all-zero 3-vector (the bit pattern of positive zero on each axis).
pub open spec fn spec_vec3_zero() -> Vec3Bits {
    Vec3Bits { x: 0, y: 0, z: 0 }
}

/// Whether the buffer starts with the ASCII tag "IBSP".
pub open spec fn magic_ok(b: Seq<u8>) -> bool {
    &&& b.len() >= 4
    &&& b[0] == 73
    &&& b[1] == 66
    &&& b[2] == 83
    &&& b[3] == 80
}

/// The directory entry for lump `k`, as laid out in the header.
pub open spec fn spec_dir_entry(b: Seq<u8>, k: int) -> DirEntry
    recommends
        0 <= k < 17,
        b.len() >= 144,
{
    DirEntry {
        offset: as_i32(le32(b, 8 + 8 * k)),
        length: as_i32(le32(b, 12 + 8 * k)),
    }
}

/// Whether the buffer holds a complete header with the right magic tag.
pub open spec fn header_ok(b: Seq<u8>) -> bool {
    b.len() >= 144 && magic_ok(b)
}

impl Header {
    /// A well-formed header carries one directory entry per lump kind.
    pub open spec fn wf(self) -> bool {
        self.lumps@.len() == 17
    }

    /// Whether this header is exactly the one decoded from `b`.
    pub open spec fn decoded_from(self, b: Seq<u8>) -> bool {
        &&& self.wf()
        &&& self.version == as_i32(le32(b, 4))
        &&& forall|k: int| 0 <= k < 17 ==> self.lumps@[k] == spec_dir_entry(b, k)
    }
}

/// The raw vertex record at byte offset `o`, before any transform.
pub open spec fn spec_raw_vertex(b: Seq<u8>, o: int) -> Vertex
    recommends
        0 <= o,
        o + 44 <= b.len(),
{
    Vertex {
        position: Vec3Bits { x: le32(b, o), y: le32(b, o + 4), z: le32(b, o + 8) },
        tex_surface: Vec2Bits { u: le32(b, o + 12), v: le32(b, o + 16) },
        tex_lightmap: Vec2Bits { u: le32(b, o + 20), v: le32(b, o + 24) },
        normal: Vec3Bits { x: le32(b, o + 28), y: le32(b, o + 32), z: le32(b, o + 36) },
        color: ColorRgba { r: b[o + 40], g: b[o + 41], b: b[o + 42], a: b[o + 43] },
    }
}

/// The consumed fields of the face record at byte offset `o`.
pub open spec fn spec_face(b: Seq<u8>, o: int) -> Face
    recommends
        0 <= o,
        o + 104 <= b.len(),
{
    Face {
        kind: as_i32(le32(b, o + 8)),
        start_vertex: as_i32(le32(b, o + 12)),
        num_vertices: as_i32(le32(b, o + 16)),
    }
}

/// The mesh-vertex record at byte offset `o`.
pub open spec fn spec_mesh_vert(b: Seq<u8>, o: int) -> MeshVert
    recommends
        0 <= o,
        o + 4 <= b.len(),
{
    MeshVert { offset: as_i32(le32(b, o)) }
}

/// Decodes the raw vertex record at byte offset `o`.
pub fn read_vertex(b: &Vec<u8>, o: usize) -> (r: Vertex)
    requires
        o + 44 <= b@.len(),
    ensures
        r == spec_raw_vertex(b@, o as int),
{
    let n = b.len();
    assert(o + 44 <= n);
    Vertex {
        position: Vec3Bits { x: read_u32(b, o), y: read_u32(b, o + 4), z: read_u32(b, o + 8) },
        tex_surface: Vec2Bits { u: read_u32(b, o + 12), v: read_u32(b, o + 16) },
        tex_lightmap: Vec2Bits { u: read_u32(b, o + 20), v: read_u32(b, o + 24) },
        normal: Vec3Bits { x: read_u32(b, o + 28), y: read_u32(b, o + 32), z: read_u32(b, o + 36) },
        color: ColorRgba { r: b[o + 40], g: b[o + 41], b: b[o + 42], a: b[o + 43] },
    }
}

/// Decodes the consumed fields of the face record at byte offset `o`.
pub fn read_face(b: &Vec<u8>, o: usize) -> (r: Face)
    requires
        o + 104 <= b@.len(),
    ensures
        r == spec_face(b@, o as int),
{
    let n = b.len();
    assert(o + 104 <= n);
    Face {
        kind: read_i32(b, o + 8),
        start_vertex: read_i32(b, o + 12),
        num_vertices: read_i32(b, o + 16),
    }
}

/// Decodes the mesh-vertex record at byte offset `o`.
pub fn read_mesh_vert(b: &Vec<u8>, o: usize) -> (r: MeshVert)
    requires
        o + 4 <= b@.len(),
    ensures
        r == spec_mesh_vert(b@, o as int),
{
    MeshVert { offset: read_i32(b, o) }
}

/// Decodes the header, checking the buffer length and the magic tag.  A
/// short buffer is an I/O failure; a wrong tag is a format failure.
pub fn parse_header(bytes: &Vec<u8>) -> (r: Result<Header, LoadError>)
    ensures
        match r {
            Ok(h) => header_ok(bytes@) && h.decoded_from(bytes@),
            Err(e) => {
                &&& !header_ok(bytes@)
                &&& e == (if bytes@.len() < 144 {
                    LoadError::IoError
                } else {
                    LoadError::FormatError
                })
            },
        },
{
    if bytes.len() < HEADER_SIZE {
        return Err(LoadError::IoError);
    }
    if !(bytes[0] == 73 && bytes[1] == 66 && bytes[2] == 83 && bytes[3] == 80) {
        return Err(LoadError::FormatError);
    }
    let version = read_i32(bytes, 4);
    let mut lumps: Vec<DirEntry> = Vec::new();
    let mut k: usize = 0;
    while k < LUMP_COUNT
        invariant
            k <= 17,
            lumps@.len() == k,
            bytes@.len() >= 144,
            forall|j: int| 0 <= j < k ==> lumps@[j] == spec_dir_entry(bytes@, j),
        decreases 17 - k,
    {
        let offset = read_i32(bytes, 8 + 8 * k);
        let length = read_i32(bytes, 12 + 8 * k);
        lumps.push(DirEntry { offset, length });
        k = k + 1;
    }
    Ok(Header { version, lumps })
}

} // verus!
