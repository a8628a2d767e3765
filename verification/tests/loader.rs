//! End-to-end tests of the map loader on hand-built byte buffers.

use bsp_map::lump::{parse_header, DirEntry};
use bsp_map::map::BspMap;
use bsp_map::transform::{axis_fix, fix_channel, fix_color, flip_sign};
use bsp_map::LoadError;

/// Builds a 144-byte header: "IBSP", version 46, and a 17-entry directory
/// with the given (lump index, offset, length) triples; other entries zero.
fn build_header(lumps: &[(usize, i32, i32)]) -> Vec<u8> {
    let mut dir = [(0i32, 0i32); 17];
    for &(k, o, l) in lumps {
        dir[k] = (o, l);
    }
    let mut b = vec![b'I', b'B', b'S', b'P'];
    b.extend_from_slice(&46i32.to_le_bytes());
    for &(o, l) in dir.iter() {
        b.extend_from_slice(&o.to_le_bytes());
        b.extend_from_slice(&l.to_le_bytes());
    }
    assert_eq!(b.len(), 144);
    b
}

/// One 44-byte vertex record: position, zeroed texture coordinates and
/// normal, and an RGBA color.
fn vertex_record(pos: [f32; 3], color: [u8; 4]) -> Vec<u8> {
    let mut b = Vec::new();
    for c in pos.iter() {
        b.extend_from_slice(&c.to_bits().to_le_bytes());
    }
    for _ in 0..7 {
        b.extend_from_slice(&0u32.to_le_bytes());
    }
    b.extend_from_slice(&color);
    assert_eq!(b.len(), 44);
    b
}

/// One 104-byte face record with the given kind, first vertex and vertex
/// count; all other fields zero.
fn face_record(kind: i32, start: i32, count: i32) -> Vec<u8> {
    let mut b = vec![0u8; 104];
    b[8..12].copy_from_slice(&kind.to_le_bytes());
    b[12..16].copy_from_slice(&start.to_le_bytes());
    b[16..20].copy_from_slice(&count.to_le_bytes());
    b
}

/// A complete file: header, vertex lump, face lump, and one mesh-vertex.
fn build_map_file(verts: &[([f32; 3], [u8; 4])], faces: &[(i32, i32, i32)]) -> Vec<u8> {
    let vlen = (verts.len() * 44) as i32;
    let flen = (faces.len() * 104) as i32;
    let voff = 144i32;
    let foff = voff + vlen;
    let moff = foff + flen;
    let mut b = build_header(&[
        (10, voff, vlen),
        (13, foff, flen),
        (11, moff, 4),
    ]);
    for v in verts.iter() {
        b.extend(vertex_record(v.0, v.1));
    }
    for f in faces.iter() {
        b.extend(face_record(f.0, f.1, f.2));
    }
    b.extend_from_slice(&0i32.to_le_bytes());
    b
}

/// The four vertices of a unit square in the file's z = 0 plane.
fn unit_square() -> Vec<([f32; 3], [u8; 4])> {
    vec![
        ([0.0, 0.0, 0.0], [10, 20, 30, 40]),
        ([1.0, 0.0, 0.0], [10, 20, 30, 40]),
        ([1.0, 1.0, 0.0], [10, 20, 30, 40]),
        ([0.0, 1.0, 0.0], [10, 20, 30, 40]),
    ]
}

#[test]
fn fix_channel_extremes() {
    assert_eq!(fix_channel(0), 100);
    assert_eq!(fix_channel(255), 155);
    assert_eq!(fix_channel(1), 1);
    assert_eq!(fix_channel(100), 100);
    assert_eq!(fix_channel(254), 254);
}

#[test]
fn fix_color_forces_alpha() {
    let c = bsp_map::lump::ColorRgba { r: 0, g: 128, b: 255, a: 77 };
    let f = fix_color(c);
    assert_eq!(f.r, 100);
    assert_eq!(f.g, 128);
    assert_eq!(f.b, 155);
    assert_eq!(f.a, 1);
    let c2 = bsp_map::lump::ColorRgba { r: 5, g: 6, b: 7, a: 0 };
    assert_eq!(fix_color(c2).a, 1);
}

#[test]
fn flip_sign_matches_float_negation() {
    for v in [0.0f32, -0.0, 1.0, -1.0, 1.5, -3.25, 32.0, 1.0e-40, f32::INFINITY] {
        assert_eq!(flip_sign(v.to_bits()), (-v).to_bits());
    }
}

#[test]
fn axis_fix_single_application() {
    let p = bsp_map::lump::Vec3Bits {
        x: 1.0f32.to_bits(),
        y: 2.0f32.to_bits(),
        z: 3.0f32.to_bits(),
    };
    let q = axis_fix(p);
    assert_eq!(q.x, 1.0f32.to_bits());
    assert_eq!(q.y, 3.0f32.to_bits());
    assert_eq!(q.z, (-2.0f32).to_bits());
}

#[test]
fn axis_fix_twice_negates_y_and_z() {
    let p = bsp_map::lump::Vec3Bits {
        x: 1.0f32.to_bits(),
        y: 2.0f32.to_bits(),
        z: 3.0f32.to_bits(),
    };
    let q = axis_fix(axis_fix(p));
    assert_eq!(q.x, 1.0f32.to_bits());
    assert_eq!(q.y, (-2.0f32).to_bits());
    assert_eq!(q.z, (-3.0f32).to_bits());
}

#[test]
fn header_decodes_version_and_directory() {
    let b = build_header(&[(10, 144, 88), (13, 232, 104)]);
    let h = parse_header(&b).unwrap();
    assert_eq!(h.version, 46);
    assert_eq!(h.lumps.len(), 17);
    assert_eq!(h.lumps[10], DirEntry { offset: 144, length: 88 });
    assert_eq!(h.lumps[13], DirEntry { offset: 232, length: 104 });
    assert_eq!(h.lumps[0], DirEntry { offset: 0, length: 0 });
}

#[test]
fn short_buffer_is_io_error() {
    let b = vec![b'I', b'B', b'S', b'P', 0, 0, 0];
    assert_eq!(parse_header(&b).unwrap_err(), LoadError::IoError);
    assert_eq!(BspMap::parse(&b).unwrap_err(), LoadError::IoError);
}

#[test]
fn bad_magic_is_format_error() {
    let mut b = build_map_file(&unit_square(), &[(1, 0, 4)]);
    b[0] = b'X';
    assert_eq!(BspMap::parse(&b).unwrap_err(), LoadError::FormatError);
}

#[test]
fn empty_vertex_lump_is_format_error() {
    // Lump record count computed as non-positive: the load fails and no
    // map is produced.
    let b = build_header(&[(10, 144, 0), (13, 144, 104), (11, 144, 4)]);
    assert_eq!(BspMap::parse(&b).unwrap_err(), LoadError::FormatError);
}

#[test]
fn negative_vertex_lump_length_is_format_error() {
    let b = build_header(&[(10, 144, -88), (13, 144, 104), (11, 144, 4)]);
    assert_eq!(BspMap::parse(&b).unwrap_err(), LoadError::FormatError);
}

#[test]
fn truncated_vertex_lump_is_io_error() {
    // The directory announces more vertex bytes than the file holds.
    let b = build_header(&[(10, 144, 88), (13, 144, 104), (11, 144, 4)]);
    assert_eq!(BspMap::parse(&b).unwrap_err(), LoadError::IoError);
}

#[test]
fn negative_vertex_lump_offset_is_io_error() {
    let mut b = build_header(&[(10, -8, 88), (13, 144, 104), (11, 144, 4)]);
    b.extend(vec![0u8; 400]);
    assert_eq!(BspMap::parse(&b).unwrap_err(), LoadError::IoError);
}

#[test]
fn empty_face_lump_is_format_error() {
    let mut b = build_header(&[(10, 144, 44), (13, 0, 0), (11, 144, 4)]);
    b.extend(vertex_record([0.0, 0.0, 0.0], [1, 2, 3, 4]));
    assert_eq!(BspMap::parse(&b).unwrap_err(), LoadError::FormatError);
}

#[test]
fn parse_transforms_vertices() {
    let b = build_map_file(&unit_square(), &[(1, 0, 4)]);
    let m = BspMap::parse(&b).unwrap();
    assert_eq!(m.verts.len(), 4);
    assert_eq!(m.faces.len(), 1);
    assert_eq!(m.mesh_verts.len(), 1);
    assert_eq!(m.tris.len(), 0);
    // Vertex 3 was (0, 1, 0) in the file: the axis fix maps (x, y, z) to
    // (x, z, -y).
    assert_eq!(m.verts[3].position.x, 0.0f32.to_bits());
    assert_eq!(m.verts[3].position.y, 0.0f32.to_bits());
    assert_eq!(m.verts[3].position.z, (-1.0f32).to_bits());
    // Colors are de-extremized already at parse time.
    assert_eq!(m.verts[0].color.r, 10);
    assert_eq!(m.verts[0].color.a, 1);
    assert_eq!(m.faces[0].kind, 1);
    assert_eq!(m.faces[0].start_vertex, 0);
    assert_eq!(m.faces[0].num_vertices, 4);
}

#[test]
fn mesh_vert_record_is_decoded_signed() {
    let verts = unit_square();
    let mut b = build_map_file(&verts, &[(1, 0, 4)]);
    let n = b.len();
    b[n - 4..].copy_from_slice(&(-5i32).to_le_bytes());
    let m = BspMap::parse(&b).unwrap();
    assert_eq!(m.mesh_verts[0].offset, -5);
}

#[test]
fn quad_face_emits_two_reversed_triangles() {
    // A quad with local vertices [A, B, C, D] emits (A, C, B) then
    // (A, D, C), not the naive fan.
    let b = build_map_file(&unit_square(), &[(1, 0, 4)]);
    let mut m = BspMap::parse(&b).unwrap();
    let parsed = m.verts.clone();
    m.triangulate().unwrap();
    assert_eq!(m.tris.len(), 2);
    assert_eq!(m.verts.len(), 6);
    let order = [0usize, 2, 1, 0, 3, 2];
    for (k, &idx) in order.iter().enumerate() {
        assert_eq!(m.verts[k], parsed[idx]);
    }
    assert_eq!(m.tris[0].a.position, parsed[0].position);
    assert_eq!(m.tris[0].b.position, parsed[2].position);
    assert_eq!(m.tris[0].c.position, parsed[1].position);
    assert_eq!(m.tris[1].a.position, parsed[0].position);
    assert_eq!(m.tris[1].b.position, parsed[3].position);
    assert_eq!(m.tris[1].c.position, parsed[2].position);
    // Triangle colors come from the already-transformed vertex colors.
    assert_eq!(m.tris[0].a.color.r, 10);
    assert_eq!(m.tris[0].a.color.g, 20);
    assert_eq!(m.tris[0].a.color.b, 30);
}

#[test]
fn pentagon_face_emits_three_triangles() {
    // verts.length == triangleCount * 3 with triangleCount = n - 2.
    let mut verts = unit_square();
    verts.push(([0.5, 2.0, 0.0], [9, 9, 9, 9]));
    let b = build_map_file(&verts, &[(1, 0, 5)]);
    let mut m = BspMap::parse(&b).unwrap();
    m.triangulate().unwrap();
    assert_eq!(m.tris.len(), 3);
    assert_eq!(m.verts.len(), 9);
}

#[test]
fn mixed_faces_sum_accepted_only() {
    let mut verts = unit_square();
    verts.push(([0.5, 2.0, 0.0], [9, 9, 9, 9]));
    // One accepted quad, one skipped patch, one accepted triangle.
    let b = build_map_file(&verts, &[(1, 0, 4), (2, 0, 5), (1, 1, 3)]);
    let mut m = BspMap::parse(&b).unwrap();
    m.triangulate().unwrap();
    assert_eq!(m.tris.len(), 3);
    assert_eq!(m.verts.len(), 9);
}

#[test]
fn nonpolygon_face_is_skipped_not_an_error() {
    // A face of another kind is skipped even when its vertex run would be
    // wildly out of range.
    let b = build_map_file(&unit_square(), &[(3, 9999, 4)]);
    let mut m = BspMap::parse(&b).unwrap();
    m.triangulate().unwrap();
    assert_eq!(m.tris.len(), 0);
    assert_eq!(m.verts.len(), 0);
}

#[test]
fn two_vertex_face_is_skipped_not_an_error() {
    let b = build_map_file(&unit_square(), &[(1, 0, 2)]);
    let mut m = BspMap::parse(&b).unwrap();
    m.triangulate().unwrap();
    assert_eq!(m.tris.len(), 0);
    assert_eq!(m.verts.len(), 0);
}

#[test]
fn out_of_range_polygon_face_fails_and_leaves_map_unchanged() {
    let b = build_map_file(&unit_square(), &[(1, 3, 4)]);
    let mut m = BspMap::parse(&b).unwrap();
    assert_eq!(m.triangulate().unwrap_err(), LoadError::FormatError);
    assert_eq!(m.verts.len(), 4);
    assert_eq!(m.tris.len(), 0);
}

#[test]
fn unit_square_scenario_scaled_and_centered() {
    // The full pipeline on the unit-square quad: parse, then the numeric
    // post-pass (uniform scale by 1/32, re-centering at the true bounding
    // box center) done here on the bit patterns, then triangulation.
    let b = build_map_file(&unit_square(), &[(1, 0, 4)]);
    let mut m = BspMap::parse(&b).unwrap();

    let mut pos: Vec<[f32; 3]> = m
        .verts
        .iter()
        .map(|v| {
            [
                f32::from_bits(v.position.x) / 32.0,
                f32::from_bits(v.position.y) / 32.0,
                f32::from_bits(v.position.z) / 32.0,
            ]
        })
        .collect();
    let mut min = pos[0];
    let mut max = pos[0];
    for p in pos.iter() {
        for a in 0..3 {
            min[a] = min[a].min(p[a]);
            max[a] = max[a].max(p[a]);
        }
    }
    let center = [
        max[0] - (max[0] - min[0]) / 2.0,
        max[1] - (max[1] - min[1]) / 2.0,
        max[2] - (max[2] - min[2]) / 2.0,
    ];
    for p in pos.iter_mut() {
        for a in 0..3 {
            p[a] -= center[a];
        }
    }
    for (v, p) in m.verts.iter_mut().zip(pos.iter()) {
        v.position.x = p[0].to_bits();
        v.position.y = p[1].to_bits();
        v.position.z = p[2].to_bits();
    }
    m.triangulate().unwrap();

    assert_eq!(m.tris.len(), 2);
    assert_eq!(m.verts.len(), 6);
    // After the axis fix the square spans x in [0, 1], y == 0, z in
    // [-1, 0]; scaled by 1/32 and centered, the corners are at +-1/64
    // exactly, and min + max is symmetric around zero on every axis.
    let expect = [
        [-1.0 / 64.0, 0.0, 1.0 / 64.0],
        [1.0 / 64.0, 0.0, 1.0 / 64.0],
        [1.0 / 64.0, 0.0, -1.0 / 64.0],
        [-1.0 / 64.0, 0.0, -1.0 / 64.0],
    ];
    let order = [0usize, 2, 1, 0, 3, 2];
    for (k, &idx) in order.iter().enumerate() {
        assert_eq!(m.verts[k].position.x, (expect[idx][0] as f32).to_bits());
        assert_eq!(m.verts[k].position.y, (expect[idx][1] as f32).to_bits());
        assert_eq!(m.verts[k].position.z, (expect[idx][2] as f32).to_bits());
    }
    let mean_x: f32 = expect.iter().map(|p| p[0]).sum::<f32>() / 4.0;
    let mean_z: f32 = expect.iter().map(|p| p[2]).sum::<f32>() / 4.0;
    assert_eq!(mean_x, 0.0);
    assert_eq!(mean_z, 0.0);
}
