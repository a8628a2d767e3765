//! Fan triangulation of polygon faces into renderer-ready triangles.
//!
//! Every face whose kind discriminant is the polygon kind and whose vertex
//! count is at least 3 is decomposed into a fan around its first vertex;
//! the second and third corner of each triangle are deliberately swapped
//! relative to the naive fan, which reverses the winding order.  Faces of
//! any other kind, and degenerate faces with fewer than 3 vertices, are
//! skipped and never an error.

use vstd::prelude::*;

use crate::lump::{Face, Vec3Bits, Vertex};
use crate::LoadError;

verus! {

/// An RGB color of three unsigned bytes; the triangle stage drops alpha.
#[derive(Clone, Copy, Debug, PartialEq, Eq, Structural)]
pub struct ColorRgb {
    pub r: u8,
    pub g: u8,
    pub b: u8,
}

/// A renderer-ready vertex: position and flat color, UV and normal dropped.
#[derive(Clone, Copy, Debug, PartialEq, Eq, Structural)]
pub struct TriVertex {
    pub position: Vec3Bits,
    pub color: ColorRgb,
}

/// One output triangle of three colored vertices, in winding order.
#[derive(Clone, Copy, Debug, PartialEq, Eq, Structural)]
pub struct Triangle {
    pub a: TriVertex,
    pub b: TriVertex,
    pub c: TriVertex,
}

/// The face-kind discriminant of a flat polygon, the only kind consumed.
pub const POLYGON_KIND: i32 = 1;

/// Whether triangulation accepts this face: polygon kind and at least 3
/// vertices.
pub open spec fn face_accepted(f: Face) -> bool {
    f.kind == POLYGON_KIND && f.num_vertices >= 3
}

/// How many triangles this face emits: its vertex count less 2 when it is
/// accepted, none otherwise.
pub open spec fn face_tri_count(f: Face) -> int {
    if face_accepted(f) {
        f.num_vertices - 2
    } else {
        0
    }
}

/// The total number of triangles emitted over a run of faces.
pub open spec fn total_tri_count(faces: Seq<Face>) -> int
    decreases faces.len(),
{
    if faces.len() == 0 {
        0
    } else {
        total_tri_count(faces.drop_last()) + face_tri_count(faces.last())
    }
}

/// Whether an accepted face's vertex run lies inside a vertex buffer of
/// length `n`.  A skipped face constrains nothing.
pub open spec fn face_in_range(f: Face, n: int) -> bool {
    face_accepted(f) ==> 0 <= f.start_vertex && f.start_vertex + f.num_vertices <= n
}

/// Whether every face's vertex run lies inside a vertex buffer of length
/// `n`.
pub open spec fn all_faces_in_range(faces: Seq<Face>, n: int) -> bool {
    forall|j: int| 0 <= j < faces.len() ==> face_in_range(faces[j], n)
}

/// The renderer-ready vertex taken from a loaded vertex record: the
/// transformed position and the R, G, B of the transformed color.
pub open spec fn spec_tri_vertex(v: Vertex) -> TriVertex {
    TriVertex { position: v.position, color: ColorRgb { r: v.color.r, g: v.color.g, b: v.color.b } }
}

/// The three vertices of fan triangle `i` of face `f`, in emission order:
/// local indices 0, i + 2, i + 1 of the face's run.
pub open spec fn fan_triple(vs: Seq<Vertex>, f: Face, i: int) -> Seq<Vertex>
    recommends
        0 <= f.start_vertex,
        f.start_vertex + i + 2 < vs.len(),
{
    seq![
        vs[f.start_vertex as int],
        vs[f.start_vertex + i + 2],
        vs[f.start_vertex + i + 1],
    ]
}

/// Fan triangle `i` of face `f` as a triangle value.
pub open spec fn fan_tri(vs: Seq<Vertex>, f: Face, i: int) -> Triangle
    recommends
        0 <= f.start_vertex,
        f.start_vertex + i + 2 < vs.len(),
{
    Triangle {
        a: spec_tri_vertex(vs[f.start_vertex as int]),
        b: spec_tri_vertex(vs[f.start_vertex + i + 2]),
        c: spec_tri_vertex(vs[f.start_vertex + i + 1]),
    }
}

/// The flattened vertices of the first `k` fan triangles of face `f`.
pub open spec fn fan_verts_up_to(vs: Seq<Vertex>, f: Face, k: int) -> Seq<Vertex>
    decreases k,
{
    if k <= 0 {
        Seq::empty()
    } else {
        fan_verts_up_to(vs, f, k - 1) + fan_triple(vs, f, k - 1)
    }
}

/// The first `k` fan triangles of face `f`.
pub open spec fn fan_tris_up_to(vs: Seq<Vertex>, f: Face, k: int) -> Seq<Triangle>
    decreases k,
{
    if k <= 0 {
        Seq::empty()
    } else {
        fan_tris_up_to(vs, f, k - 1).push(fan_tri(vs, f, k - 1))
    }
}

/// All flattened fan vertices of face `f`; empty when the face is skipped.
pub open spec fn fan_verts(vs: Seq<Vertex>, f: Face) -> Seq<Vertex> {
    if face_accepted(f) {
        fan_verts_up_to(vs, f, f.num_vertices - 2)
    } else {
        Seq::empty()
    }
}

/// All fan triangles of face `f`; empty when the face is skipped.
pub open spec fn fan_tris(vs: Seq<Vertex>, f: Face) -> Seq<Triangle> {
    if face_accepted(f) {
        fan_tris_up_to(vs, f, f.num_vertices - 2)
    } else {
        Seq::empty()
    }
}

/// The flattened vertex list over a run of faces, in emission order.
pub open spec fn flat_verts(vs: Seq<Vertex>, faces: Seq<Face>) -> Seq<Vertex>
    decreases faces.len(),
{
    if faces.len() == 0 {
        Seq::empty()
    } else {
        flat_verts(vs, faces.drop_last()) + fan_verts(vs, faces.last())
    }
}

/// The triangle list over a run of faces, in emission order.
pub open spec fn flat_tris(vs: Seq<Vertex>, faces: Seq<Face>) -> Seq<Triangle>
    decreases faces.len(),
{
    if faces.len() == 0 {
        Seq::empty()
    } else {
        flat_tris(vs, faces.drop_last()) + fan_tris(vs, faces.last())
    }
}

/// Converts one loaded vertex record to its renderer-ready form.
pub fn to_tri_vertex(v: &Vertex) -> (r: TriVertex)
    ensures
        r == spec_tri_vertex(*v),
{
    TriVertex {
        position: v.position,
        color: ColorRgb { r: v.color.r, g: v.color.g, b: v.color.b },
    }
}

/// The first `k` fan triangles of a face have exactly `3 * k` flattened
/// vertices.
proof fn lemma_fan_up_to_lengths(vs: Seq<Vertex>, f: Face, k: int)
    requires
        k >= 0,
    ensures
        fan_verts_up_to(vs, f, k).len() == 3 * k,
        fan_tris_up_to(vs, f, k).len() == k,
    decreases k,
{
    if k > 0 {
        lemma_fan_up_to_lengths(vs, f, k - 1);
    }
}

/// One face's fan holds three flattened vertices per emitted triangle.
pub proof fn lemma_fan_lengths(vs: Seq<Vertex>, f: Face)
    ensures
        fan_verts(vs, f).len() == 3 * face_tri_count(f),
        fan_tris(vs, f).len() == face_tri_count(f),
{
    if face_accepted(f) {
        lemma_fan_up_to_lengths(vs, f, f.num_vertices - 2);
    }
}

/// For any vertex buffer and face run, the flattened vertex list is exactly
/// three entries per emitted triangle: its length is `3 * total_tri_count`
/// and the triangle list's length is `total_tri_count`.
pub proof fn lemma_output_lengths(vs: Seq<Vertex>, faces: Seq<Face>)
    ensures
        flat_verts(vs, faces).len() == 3 * total_tri_count(faces),
        flat_tris(vs, faces).len() == total_tri_count(faces),
    decreases faces.len(),
{
    if faces.len() > 0 {
        lemma_output_lengths(vs, faces.drop_last());
        lemma_fan_lengths(vs, faces.last());
    }
}

/// A face of a non-polygon kind, or with fewer than 3 vertices, emits no
/// triangles and no flattened vertices: it is skipped, never an error.
pub proof fn lemma_skipped_face(vs: Seq<Vertex>, f: Face)
    requires
        f.kind != POLYGON_KIND || f.num_vertices < 3,
    ensures
        face_tri_count(f) == 0,
        fan_verts(vs, f) == Seq::<Vertex>::empty(),
        fan_tris(vs, f) == Seq::<Triangle>::empty(),
{
}

/// A quad face emits exactly the two triangles (A, C, B) and (A, D, C) of
/// its local vertices [A, B, C, D] — the winding-reversed fan, not
/// (A, B, C) and (A, C, D).
pub proof fn lemma_quad_winding(vs: Seq<Vertex>, f: Face)
    requires
        f.kind == 1,
        f.num_vertices == 4,
        0 <= f.start_vertex,
        f.start_vertex + 4 <= vs.len(),
    ensures
        ({
            let s = f.start_vertex as int;
            fan_verts(vs, f) == seq![vs[s], vs[s + 2], vs[s + 1], vs[s], vs[s + 3], vs[s + 2]]
        }),
        fan_tris(vs, f) == seq![fan_tri(vs, f, 0), fan_tri(vs, f, 1)],
{
    let s = f.start_vertex as int;
    assert(fan_verts_up_to(vs, f, 0) =~= Seq::<Vertex>::empty());
    assert(fan_verts_up_to(vs, f, 1) =~= fan_verts_up_to(vs, f, 0) + fan_triple(vs, f, 0));
    assert(fan_verts_up_to(vs, f, 2) =~= fan_verts_up_to(vs, f, 1) + fan_triple(vs, f, 1));
    assert(fan_verts(vs, f) =~= seq![vs[s], vs[s + 2], vs[s + 1], vs[s], vs[s + 3], vs[s + 2]]);
    assert(fan_tris_up_to(vs, f, 0) =~= Seq::<Triangle>::empty());
    assert(fan_tris_up_to(vs, f, 2) =~= fan_tris_up_to(vs, f, 1).push(fan_tri(vs, f, 1)));
    assert(fan_tris(vs, f) =~= seq![fan_tri(vs, f, 0), fan_tri(vs, f, 1)]);
}

/// Appending one face to a run appends that face's fan to the flattened
/// outputs.
proof fn lemma_flat_snoc(vs: Seq<Vertex>, faces: Seq<Face>, k: int)
    requires
        0 <= k < faces.len(),
    ensures
        flat_verts(vs, faces.take(k + 1)) == flat_verts(vs, faces.take(k)) + fan_verts(
            vs,
            faces[k],
        ),
        flat_tris(vs, faces.take(k + 1)) == flat_tris(vs, faces.take(k)) + fan_tris(
            vs,
            faces[k],
        ),
{
    let t = faces.take(k + 1);
    assert(t.drop_last() =~= faces.take(k));
    assert(t.last() == faces[k]);
    assert(flat_verts(vs, t) == flat_verts(vs, t.drop_last()) + fan_verts(vs, t.last()));
    assert(flat_tris(vs, t) == flat_tris(vs, t.drop_last()) + fan_tris(vs, t.last()));
}

/// Fan-triangulates every accepted face of `faces` over the vertex buffer
/// `verts`.  Succeeds exactly when every accepted face's vertex run lies
/// inside the buffer; an out-of-range run is a format failure and nothing
/// is produced.  On success the flattened vertex list and the triangle
/// list are exactly the fans of the accepted faces, in face order, with
/// three vertex entries per triangle.
pub fn triangulate_faces(verts: &Vec<Vertex>, faces: &Vec<Face>) -> (r: Result<
    (Vec<Vertex>, Vec<Triangle>),
    LoadError,
>)
    ensures
        match r {
            Ok(p) => {
                &&& all_faces_in_range(faces@, verts@.len() as int)
                &&& p.0@ == flat_verts(verts@, faces@)
                &&& p.1@ == flat_tris(verts@, faces@)
                &&& p.0@.len() == 3 * total_tri_count(faces@)
                &&& p.1@.len() == total_tri_count(faces@)
            },
            Err(e) => {
                &&& e == LoadError::FormatError
                &&& !all_faces_in_range(faces@, verts@.len() as int)
            },
        },
{
    let n = verts.len();
    let mut fi: usize = 0;
    while fi < faces.len()
        invariant
            fi <= faces@.len(),
            n == verts@.len(),
            forall|j: int| 0 <= j < fi ==> face_in_range(faces@[j], n as int),
        decreases faces@.len() - fi,
    {
        let f = faces[fi];
        if f.kind == POLYGON_KIND && f.num_vertices >= 3 {
            let ok = f.start_vertex >= 0 && (f.start_vertex as usize) <= n && (f.num_vertices
                as usize) <= n - (f.start_vertex as usize);
            if !ok {
                proof {
                    assert(!face_in_range(faces@[fi as int], n as int));
                }
                return Err(LoadError::FormatError);
            }
        }
        fi = fi + 1;
    }
    let mut verts_out: Vec<Vertex> = Vec::new();
    let mut tris_out: Vec<Triangle> = Vec::new();
    let mut fi: usize = 0;
    while fi < faces.len()
        invariant
            fi <= faces@.len(),
            n == verts@.len(),
            all_faces_in_range(faces@, n as int),
            verts_out@ == flat_verts(verts@, faces@.take(fi as int)),
            tris_out@ == flat_tris(verts@, faces@.take(fi as int)),
        decreases faces@.len() - fi,
    {
        let f = faces[fi];
        proof {
            lemma_flat_snoc(verts@, faces@, fi as int);
        }
        if f.kind == POLYGON_KIND && f.num_vertices >= 3 {
            assert(face_in_range(faces@[fi as int], n as int));
            let s = f.start_vertex as usize;
            let n_tris = (f.num_vertices - 2) as usize;
            let ghost pre_v = verts_out@;
            let ghost pre_t = tris_out@;
            let mut i: usize = 0;
            while i < n_tris
                invariant
                    i <= n_tris,
                    n == verts@.len(),
                    f.kind == 1,
                    f.num_vertices >= 3,
                    s as int == f.start_vertex as int,
                    n_tris as int == f.num_vertices - 2,
                    s + n_tris + 2 <= n,
                    verts_out@ == pre_v + fan_verts_up_to(verts@, f, i as int),
                    tris_out@ == pre_t + fan_tris_up_to(verts@, f, i as int),
                decreases n_tris - i,
            {
                let va = verts[s];
                let vb = verts[s + i + 2];
                let vc = verts[s + i + 1];
                verts_out.push(va);
                verts_out.push(vb);
                verts_out.push(vc);
                tris_out.push(
                    Triangle { a: to_tri_vertex(&va), b: to_tri_vertex(&vb), c: to_tri_vertex(&vc) },
                );
                proof {
                    assert(fan_verts_up_to(verts@, f, i + 1) == fan_verts_up_to(
                        verts@,
                        f,
                        i as int,
                    ) + fan_triple(verts@, f, i as int));
                    assert(verts_out@ =~= pre_v + fan_verts_up_to(verts@, f, i + 1));
                    assert(fan_tris_up_to(verts@, f, i + 1) == fan_tris_up_to(
                        verts@,
                        f,
                        i as int,
                    ).push(fan_tri(verts@, f, i as int)));
                    assert(tris_out@ =~= pre_t + fan_tris_up_to(verts@, f, i + 1));
                }
                i = i + 1;
            }
            proof {
                assert(fan_verts_up_to(verts@, f, n_tris as int) == fan_verts(verts@, f));
                assert(fan_tris_up_to(verts@, f, n_tris as int) == fan_tris(verts@, f));
                assert(verts_out@ == flat_verts(verts@, faces@.take(fi as int + 1)));
                assert(tris_out@ == flat_tris(verts@, faces@.take(fi as int + 1)));
            }
        } else {
            proof {
                assert(fan_verts(verts@, f) == Seq::<Vertex>::empty());
                assert(fan_tris(verts@, f) == Seq::<Triangle>::empty());
                assert(verts_out@ =~= verts_out@ + fan_verts(verts@, f));
                assert(tris_out@ =~= tris_out@ + fan_tris(verts@, f));
            }
        }
        fi = fi + 1;
    }
    proof {
        assert(faces@.take(faces@.len() as int) =~= faces@);
        lemma_output_lengths(verts@, faces@);
    }
    Ok((verts_out, tris_out))
}

} // verus!
