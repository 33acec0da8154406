use lab03::mesh::{
    index_buffer_bytes, index_count, make_checkerboard, make_cube, vertex_layout, AttributeFormat, GridVertex, Int3, Uv,
    CHECKER_BYTES, CUBE_INDEX_COUNT, CUBE_VERTEX_COUNT,
};

fn texel(px: &[u8], x: usize, y: usize) -> [u8; 4] {
    let i = (y * 64 + x) * 4;
    [px[i], px[i + 1], px[i + 2], px[i + 3]]
}

const AMBER: [u8; 4] = [215, 140, 45, 255];
const INDIGO: [u8; 4] = [35, 55, 130, 255];

#[test]
fn checkerboard_has_one_rgba_texel_per_pixel() {
    let px = make_checkerboard();
    assert_eq!(px.len(), 64 * 64 * 4);
    assert_eq!(px.len(), CHECKER_BYTES);
}

#[test]
fn checkerboard_corner_texels() {
    let px = make_checkerboard();
    assert_eq!(texel(&px, 0, 0), AMBER);
    assert_eq!(texel(&px, 7, 7), AMBER);
    assert_eq!(texel(&px, 8, 0), INDIGO);
    assert_eq!(texel(&px, 0, 8), INDIGO);
    assert_eq!(texel(&px, 8, 8), AMBER);
    assert_eq!(texel(&px, 63, 0), INDIGO);
    assert_eq!(texel(&px, 63, 63), AMBER);
}

#[test]
fn checkerboard_is_opaque_and_two_coloured() {
    let px = make_checkerboard();
    for y in 0..64 {
        for x in 0..64 {
            let t = texel(&px, x, y);
            assert_eq!(t[3], 255);
            assert!(t == AMBER || t == INDIGO);
        }
    }
}

#[test]
fn checkerboard_tiles_uniform_and_alternating_with_wrap() {
    let px = make_checkerboard();
    for y in 0..64 {
        for x in 0..64 {
            let t = texel(&px, x, y);
            assert_eq!(t, texel(&px, (x / 8) * 8, (y / 8) * 8));
            assert_ne!(t, texel(&px, (x + 8) % 64, y));
            assert_ne!(t, texel(&px, x, (y + 8) % 64));
        }
    }
}

fn v(x: i8, y: i8, z: i8) -> Int3 {
    Int3 { x, y, z }
}

#[test]
fn cube_has_24_vertices_and_36_indices() {
    let (verts, idx) = make_cube();
    assert_eq!(verts.len(), 24);
    assert_eq!(verts.len(), CUBE_VERTEX_COUNT);
    assert_eq!(idx.len(), 36);
    assert_eq!(idx.len(), CUBE_INDEX_COUNT);
}

#[test]
fn cube_front_face_vertices() {
    let (verts, _) = make_cube();
    let n = v(0, 0, 1);
    assert_eq!(verts[0], GridVertex { position: v(-1, -1, 1), normal: n, uv: Uv { u: 0, v: 1 } });
    assert_eq!(verts[1], GridVertex { position: v(1, -1, 1), normal: n, uv: Uv { u: 1, v: 1 } });
    assert_eq!(verts[2], GridVertex { position: v(1, 1, 1), normal: n, uv: Uv { u: 1, v: 0 } });
    assert_eq!(verts[3], GridVertex { position: v(-1, 1, 1), normal: n, uv: Uv { u: 0, v: 0 } });
}

#[test]
fn cube_bottom_face_vertices() {
    let (verts, _) = make_cube();
    let n = v(0, -1, 0);
    assert_eq!(verts[20].position, v(-1, -1, -1));
    assert_eq!(verts[21].position, v(1, -1, -1));
    assert_eq!(verts[22].position, v(1, -1, 1));
    assert_eq!(verts[23].position, v(-1, -1, 1));
    for k in 20..24 {
        assert_eq!(verts[k].normal, n);
    }
}

#[test]
fn cube_indices_two_triangles_per_face() {
    let (_, idx) = make_cube();
    assert_eq!(&idx[0..6], &[0, 1, 2, 0, 2, 3]);
    assert_eq!(&idx[6..12], &[4, 5, 6, 4, 6, 7]);
    assert_eq!(&idx[30..36], &[20, 21, 22, 20, 22, 23]);
    assert!(idx.iter().all(|&i| i < 24));
}

fn sub(a: Int3, b: Int3) -> [i32; 3] {
    [(a.x - b.x) as i32, (a.y - b.y) as i32, (a.z - b.z) as i32]
}

fn cross(a: [i32; 3], b: [i32; 3]) -> [i32; 3] {
    [a[1] * b[2] - a[2] * b[1], a[2] * b[0] - a[0] * b[2], a[0] * b[1] - a[1] * b[0]]
}

fn dot(a: [i32; 3], n: Int3) -> i32 {
    a[0] * n.x as i32 + a[1] * n.y as i32 + a[2] * n.z as i32
}

#[test]
fn cube_triangles_wind_ccw_from_outside() {
    let (verts, idx) = make_cube();
    for t in 0..12 {
        let a = verts[idx[3 * t] as usize];
        let b = verts[idx[3 * t + 1] as usize];
        let c = verts[idx[3 * t + 2] as usize];
        assert_eq!(a.normal, b.normal);
        assert_eq!(b.normal, c.normal);
        assert!(dot(cross(sub(b.position, a.position), sub(c.position, a.position)), a.normal) > 0);
    }
}

#[test]
fn cube_vertices_on_outward_faces() {
    let (verts, _) = make_cube();
    for p in &verts {
        let pos = [p.position.x as i32, p.position.y as i32, p.position.z as i32];
        assert!(pos.iter().all(|&c| c == 1 || c == -1));
        assert_eq!(dot(pos, p.normal), 1);
        let n = [p.normal.x as i32, p.normal.y as i32, p.normal.z as i32];
        assert_eq!(dot(n, p.normal), 1);
    }
}

#[test]
fn cube_corners_shared_by_three_faces() {
    let (verts, _) = make_cube();
    for x in [-1i8, 1] {
        for y in [-1i8, 1] {
            for z in [-1i8, 1] {
                let normals: Vec<Int3> =
                    verts.iter().filter(|p| p.position == v(x, y, z)).map(|p| p.normal).collect();
                assert_eq!(normals.len(), 3);
                assert_ne!(normals[0], normals[1]);
                assert_ne!(normals[0], normals[2]);
                assert_ne!(normals[1], normals[2]);
            }
        }
    }
}

#[test]
fn vertex_layout_is_packed_32_bytes() {
    let layout = vertex_layout();
    assert_eq!(layout.array_stride, 32);
    assert_eq!(layout.attributes.len(), 3);
    let offsets: Vec<u64> = layout.attributes.iter().map(|a| a.offset).collect();
    let locations: Vec<u32> = layout.attributes.iter().map(|a| a.shader_location).collect();
    let comps: Vec<u64> = layout.attributes.iter().map(|a| a.components).collect();
    assert_eq!(offsets, vec![0, 12, 24]);
    assert_eq!(locations, vec![0, 1, 2]);
    assert_eq!(comps, vec![3, 3, 2]);
    let formats: Vec<AttributeFormat> = layout.attributes.iter().map(|a| a.format).collect();
    assert_eq!(formats, vec![AttributeFormat::Float32x3, AttributeFormat::Float32x3, AttributeFormat::Float32x2]);
}

#[test]
fn index_buffer_bytes_are_native_u16s() {
    let (_, idx) = make_cube();
    let bytes = index_buffer_bytes(&idx);
    assert_eq!(bytes.len(), 72);
    for (i, &ix) in idx.iter().enumerate() {
        assert_eq!(u16::from_ne_bytes([bytes[2 * i], bytes[2 * i + 1]]), ix);
    }
    // face 1 starts at vertex 4: not the bytes of index 0
    assert_eq!(u16::from_ne_bytes([bytes[12], bytes[13]]), 4);
}

#[test]
fn index_count_is_length() {
    let (_, idx) = make_cube();
    assert_eq!(index_count(&idx), 36);
    assert_eq!(index_count(&vec![]), 0);
}
