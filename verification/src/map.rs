//! The map object and its construction from a byte buffer.
//!
//! `BspMap::parse` decodes the header and the three consumed lumps (vertices,
//! faces, mesh-vertices) and applies the per-vertex load-time transforms;
//! `BspMap::triangulate` then replaces the vertex buffer with the flattened
//! fan-triangulated list.  The numeric post-pass on positions (uniform
//! scale, bounding boxes, re-centering) happens between the two, outside
//! this crate, on the stored bit patterns.

use vstd::arithmetic::div_mod::lemma_remainder_lower;
use vstd::prelude::*;

use crate::lump::{
    parse_header, read_face, read_mesh_vert, read_vertex, spec_dir_entry, spec_face,
    spec_mesh_vert, spec_raw_vertex, spec_vec3_zero, DirEntry, Face, Header, MeshVert, Vec3Bits,
    Vertex, FACE_SIZE, LUMP_FACES, LUMP_MESH_VERTS, LUMP_VERTICES, MESH_VERT_SIZE, VERTEX_SIZE,
};
use crate::lump::{header_ok, magic_ok};
use crate::transform::{spec_transform_vertex, transform_vertex};
use crate::triangulate::{
    all_faces_in_range, flat_tris, flat_verts, total_tri_count, triangulate_faces, Triangle,
};
use crate::LoadError;

verus! {

/// An axis-aligned bounding box of two corner positions, as bit patterns.
#[derive(Clone, Copy, Debug, PartialEq, Eq, Structural)]
pub struct Bb3 {
    pub top_left: Vec3Bits,
    pub bottom_right: Vec3Bits,
}

/// A loaded map: the decoded header, the lump buffers, the triangle list,
/// a world position and a bounding box.  The vertex buffer holds the
/// per-lump records until `triangulate` replaces it with the flattened
/// triangulated list.
#[derive(Debug)]
pub struct BspMap {
    pub header: Header,
    pub verts: Vec<Vertex>,
    pub faces: Vec<Face>,
    pub mesh_verts: Vec<MeshVert>,
    pub tris: Vec<Triangle>,
    pub position: Vec3Bits,
    pub bb: Bb3,
}

/// Whether a lump directory entry addresses a readable run of records of
/// the given size inside the buffer: its record count is positive and the
/// records it announces lie inside the buffer.
pub open spec fn lump_ok(b: Seq<u8>, e: DirEntry, size: int) -> bool
    recommends
        size >= 1,
{
    &&& e.length >= size
    &&& e.offset >= 0
    &&& e.offset + ((e.length as int) / size) * size <= b.len()
}

/// The record count a lump entry announces: its byte length over the
/// record size.
pub open spec fn spec_lump_count(e: DirEntry, size: int) -> int
    recommends
        size >= 1,
        e.length >= size,
{
    (e.length as int) / size
}

/// How reading a lump fails when it is not readable: a non-positive record
/// count is a format failure, anything else (a negative offset, records
/// past the end of the buffer) is an I/O failure.
pub open spec fn spec_lump_error(e: DirEntry, size: int) -> LoadError {
    if e.length < size {
        LoadError::FormatError
    } else {
        LoadError::IoError
    }
}

/// Checks a lump entry against the buffer and returns its byte offset and
/// record count.
fn locate_lump(bytes: &Vec<u8>, e: DirEntry, size: usize) -> (r: Result<
    (usize, usize),
    LoadError,
>)
    requires
        1 <= size <= 0x7fff_ffff,
    ensures
        match r {
            Ok(oc) => {
                &&& lump_ok(bytes@, e, size as int)
                &&& oc.0 as int == e.offset as int
                &&& oc.1 as int == spec_lump_count(e, size as int)
                &&& oc.0 + oc.1 * size <= bytes@.len()
            },
            Err(err) => {
                &&& !lump_ok(bytes@, e, size as int)
                &&& err == spec_lump_error(e, size as int)
            },
        },
{
    if e.length < size as i32 {
        return Err(LoadError::FormatError);
    }
    if e.offset < 0 {
        return Err(LoadError::IoError);
    }
    let off = e.offset as usize;
    let count = (e.length as usize) / size;
    proof {
        lemma_remainder_lower(e.length as int, size as int);
        assert(count * size <= e.length as int);
    }
    let blen = bytes.len();
    if (off as u64) + (count as u64) * (size as u64) > blen as u64 {
        return Err(LoadError::IoError);
    }
    Ok((off, count))
}

/// Reads and transforms every vertex record of the vertex lump, in record
/// order: each stored vertex is the raw record after the axis fix and the
/// color fix.
pub fn read_verts(bytes: &Vec<u8>, e: DirEntry) -> (r: Result<Vec<Vertex>, LoadError>)
    ensures
        match r {
            Ok(vs) => {
                &&& lump_ok(bytes@, e, 44)
                &&& vs@.len() == spec_lump_count(e, 44)
                &&& forall|i: int|
                    0 <= i < vs@.len() ==> vs@[i] == spec_transform_vertex(
                        spec_raw_vertex(bytes@, e.offset + 44 * i),
                    )
            },
            Err(err) => {
                &&& !lump_ok(bytes@, e, 44)
                &&& err == spec_lump_error(e, 44)
            },
        },
{
    let (off, count) = match locate_lump(bytes, e, VERTEX_SIZE) {
        Ok(oc) => oc,
        Err(err) => {
            return Err(err);
        },
    };
    let mut vs: Vec<Vertex> = Vec::new();
    let blen = bytes.len();
    let mut i: usize = 0;
    while i < count
        invariant
            i <= count,
            off as int == e.offset as int,
            blen == bytes@.len(),
            off + count * 44 <= blen,
            vs@.len() == i,
            forall|j: int|
                0 <= j < i ==> vs@[j] == spec_transform_vertex(
                    spec_raw_vertex(bytes@, e.offset + 44 * j),
                ),
        decreases count - i,
    {
        proof {
            assert((i + 1) * 44 <= count * 44) by (nonlinear_arith)
                requires
                    i + 1 <= count,
            ;
        }
        let base = off + i * VERTEX_SIZE;
        let raw = read_vertex(bytes, base);
        vs.push(transform_vertex(raw));
        i = i + 1;
    }
    Ok(vs)
}

/// Reads every face record of the face lump verbatim, in record order.
pub fn read_faces(bytes: &Vec<u8>, e: DirEntry) -> (r: Result<Vec<Face>, LoadError>)
    ensures
        match r {
            Ok(fs) => {
                &&& lump_ok(bytes@, e, 104)
                &&& fs@.len() == spec_lump_count(e, 104)
                &&& forall|i: int|
                    0 <= i < fs@.len() ==> fs@[i] == spec_face(bytes@, e.offset + 104 * i)
            },
            Err(err) => {
                &&& !lump_ok(bytes@, e, 104)
                &&& err == spec_lump_error(e, 104)
            },
        },
{
    let (off, count) = match locate_lump(bytes, e, FACE_SIZE) {
        Ok(oc) => oc,
        Err(err) => {
            return Err(err);
        },
    };
    let mut fs: Vec<Face> = Vec::new();
    let blen = bytes.len();
    let mut i: usize = 0;
    while i < count
        invariant
            i <= count,
            off as int == e.offset as int,
            blen == bytes@.len(),
            off + count * 104 <= blen,
            fs@.len() == i,
            forall|j: int| 0 <= j < i ==> fs@[j] == spec_face(bytes@, e.offset + 104 * j),
        decreases count - i,
    {
        proof {
            assert((i + 1) * 104 <= count * 104) by (nonlinear_arith)
                requires
                    i + 1 <= count,
            ;
        }
        let base = off + i * FACE_SIZE;
        fs.push(read_face(bytes, base));
        i = i + 1;
    }
    Ok(fs)
}

/// Reads every mesh-vertex record of its lump verbatim, in record order.
pub fn read_mesh_verts(bytes: &Vec<u8>, e: DirEntry) -> (r: Result<Vec<MeshVert>, LoadError>)
    ensures
        match r {
            Ok(ms) => {
                &&& lump_ok(bytes@, e, 4)
                &&& ms@.len() == spec_lump_count(e, 4)
                &&& forall|i: int|
                    0 <= i < ms@.len() ==> ms@[i] == spec_mesh_vert(bytes@, e.offset + 4 * i)
            },
            Err(err) => {
                &&& !lump_ok(bytes@, e, 4)
                &&& err == spec_lump_error(e, 4)
            },
        },
{
    let (off, count) = match locate_lump(bytes, e, MESH_VERT_SIZE) {
        Ok(oc) => oc,
        Err(err) => {
            return Err(err);
        },
    };
    let mut ms: Vec<MeshVert> = Vec::new();
    let blen = bytes.len();
    let mut i: usize = 0;
    while i < count
        invariant
            i <= count,
            off as int == e.offset as int,
            blen == bytes@.len(),
            off + count * 4 <= blen,
            ms@.len() == i,
            forall|j: int| 0 <= j < i ==> ms@[j] == spec_mesh_vert(bytes@, e.offset + 4 * j),
        decreases count - i,
    {
        proof {
            assert((i + 1) * 4 <= count * 4) by (nonlinear_arith)
                requires
                    i + 1 <= count,
            ;
        }
        let base = off + i * MESH_VERT_SIZE;
        ms.push(read_mesh_vert(bytes, base));
        i = i + 1;
    }
    Ok(ms)
}

/// The directory entry of the vertex lump.
pub open spec fn vert_entry(b: Seq<u8>) -> DirEntry {
    spec_dir_entry(b, 10)
}

/// The directory entry of the mesh-vertex lump.
pub open spec fn mesh_vert_entry(b: Seq<u8>) -> DirEntry {
    spec_dir_entry(b, 11)
}

/// The directory entry of the face lump.
pub open spec fn face_entry(b: Seq<u8>) -> DirEntry {
    spec_dir_entry(b, 13)
}

/// Whether the buffer parses into a map: a complete header with the right
/// magic tag, and the three consumed lumps readable with positive record
/// counts.
pub open spec fn parse_ok(b: Seq<u8>) -> bool {
    &&& header_ok(b)
    &&& lump_ok(b, vert_entry(b), 44)
    &&& lump_ok(b, face_entry(b), 104)
    &&& lump_ok(b, mesh_vert_entry(b), 4)
}

/// The error a failed parse reports, in stage order: header, vertices,
/// faces, mesh-vertices.
pub open spec fn spec_parse_error(b: Seq<u8>) -> LoadError {
    if b.len() < 144 {
        LoadError::IoError
    } else if !magic_ok(b) {
        LoadError::FormatError
    } else if !lump_ok(b, vert_entry(b), 44) {
        spec_lump_error(vert_entry(b), 44)
    } else if !lump_ok(b, face_entry(b), 104) {
        spec_lump_error(face_entry(b), 104)
    } else {
        spec_lump_error(mesh_vert_entry(b), 4)
    }
}

impl BspMap {
    /// Whether this map is exactly what parsing `b` yields, before the
    /// numeric post-pass and triangulation: decoded header, transformed
    /// vertices, verbatim faces and mesh-vertices, no triangles yet, and
    /// a zero position and bounding box.
    pub open spec fn parsed_from(self, b: Seq<u8>) -> bool {
        &&& self.header.decoded_from(b)
        &&& self.verts@.len() == spec_lump_count(vert_entry(b), 44)
        &&& forall|i: int|
            0 <= i < self.verts@.len() ==> self.verts@[i] == spec_transform_vertex(
                spec_raw_vertex(b, vert_entry(b).offset + 44 * i),
            )
        &&& self.faces@.len() == spec_lump_count(face_entry(b), 104)
        &&& forall|i: int|
            0 <= i < self.faces@.len() ==> self.faces@[i] == spec_face(
                b,
                face_entry(b).offset + 104 * i,
            )
        &&& self.mesh_verts@.len() == spec_lump_count(mesh_vert_entry(b), 4)
        &&& forall|i: int|
            0 <= i < self.mesh_verts@.len() ==> self.mesh_verts@[i] == spec_mesh_vert(
                b,
                mesh_vert_entry(b).offset + 4 * i,
            )
        &&& self.tris@.len() == 0
        &&& self.position == spec_vec3_zero()
        &&& self.bb == (Bb3 { top_left: spec_vec3_zero(), bottom_right: spec_vec3_zero() })
    }

    /// Decodes a map from a byte buffer: header and magic tag first, then
    /// the vertex, face and mesh-vertex lumps in that order, transforming
    /// each vertex as it is read.  Succeeds exactly on buffers that hold a
    /// complete header, the right tag, and three readable lumps; any
    /// failure aborts the whole parse and no map is produced.
    pub fn parse(bytes: &Vec<u8>) -> (r: Result<BspMap, LoadError>)
        ensures
            match r {
                Ok(m) => parse_ok(bytes@) && m.parsed_from(bytes@),
                Err(e) => !parse_ok(bytes@) && e == spec_parse_error(bytes@),
            },
    {
        let header = match parse_header(bytes) {
            Ok(h) => h,
            Err(e) => {
                return Err(e);
            },
        };
        let verts = match read_verts(bytes, header.lumps[LUMP_VERTICES]) {
            Ok(v) => v,
            Err(e) => {
                return Err(e);
            },
        };
        let faces = match read_faces(bytes, header.lumps[LUMP_FACES]) {
            Ok(f) => f,
            Err(e) => {
                return Err(e);
            },
        };
        let mesh_verts = match read_mesh_verts(bytes, header.lumps[LUMP_MESH_VERTS]) {
            Ok(m) => m,
            Err(e) => {
                return Err(e);
            },
        };
        Ok(
            BspMap {
                header,
                verts,
                faces,
                mesh_verts,
                tris: Vec::new(),
                position: Vec3Bits { x: 0, y: 0, z: 0 },
                bb: Bb3 {
                    top_left: Vec3Bits { x: 0, y: 0, z: 0 },
                    bottom_right: Vec3Bits { x: 0, y: 0, z: 0 },
                },
            },
        )
    }

    /// Replaces the vertex buffer with the flattened fan-triangulated
    /// vertex list and fills the triangle list, leaving every other part
    /// of the map unchanged.  Succeeds exactly when every accepted face's
    /// vertex run lies inside the vertex buffer; otherwise the map is left
    /// untouched and a format failure is reported.
    pub fn triangulate(&mut self) -> (r: Result<(), LoadError>)
        ensures
            match r {
                Ok(()) => {
                    &&& all_faces_in_range(old(self).faces@, old(self).verts@.len() as int)
                    &&& final(self).verts@ == flat_verts(old(self).verts@, old(self).faces@)
                    &&& final(self).tris@ == flat_tris(old(self).verts@, old(self).faces@)
                    &&& final(self).verts@.len() == 3 * total_tri_count(old(self).faces@)
                    &&& final(self).tris@.len() == total_tri_count(old(self).faces@)
                    &&& final(self).faces@ == old(self).faces@
                    &&& final(self).mesh_verts@ == old(self).mesh_verts@
                    &&& final(self).header.version == old(self).header.version
                    &&& final(self).header.lumps@ == old(self).header.lumps@
                    &&& final(self).position == old(self).position
                    &&& final(self).bb == old(self).bb
                },
                Err(e) => {
                    &&& e == LoadError::FormatError
                    &&& !all_faces_in_range(old(self).faces@, old(self).verts@.len() as int)
                    &&& final(self).verts@ == old(self).verts@
                    &&& final(self).tris@ == old(self).tris@
                    &&& final(self).faces@ == old(self).faces@
                    &&& final(self).mesh_verts@ == old(self).mesh_verts@
                    &&& final(self).header.version == old(self).header.version
                    &&& final(self).header.lumps@ == old(self).header.lumps@
                    &&& final(self).position == old(self).position
                    &&& final(self).bb == old(self).bb
                },
            },
    {
        let (vs, ts) = match triangulate_faces(&self.verts, &self.faces) {
            Ok(p) => p,
            Err(e) => {
                return Err(e);
            },
        };
        self.verts = vs;
        self.tris = ts;
        Ok(())
    }
}

} // verus!
