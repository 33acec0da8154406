//! Cube geometry, the checkerboard texture and the vertex layout.

use vstd::prelude::*;

verus! {

/// Side length, in pixels, of the square checkerboard texture.
pub const CHECKER_SIZE: usize = 64;

/// Side length, in pixels, of one checkerboard tile.
pub const TILE_SIZE: usize = 8;

/// Bytes per RGBA8 texel.
pub const BYTES_PER_TEXEL: usize = 4;

/// Number of bytes in the checkerboard texture (64 * 64 * 4).
pub const CHECKER_BYTES: usize = 16384;

/// Byte offset of channel `c` of texel `(x, y)` in a row-major RGBA8
/// buffer of width `CHECKER_SIZE`.
pub open spec fn pixel_byte_index(x: int, y: int, c: int) -> int {
    (y * 64 + x) * 4 + c
}

/// The texel `(x, y)` lies in an "amber" tile: tile column plus tile row is even.
pub open spec fn is_amber_tile(x: int, y: int) -> bool {
    (x / 8 + y / 8) % 2 == 0
}

/// The RGBA colour of the amber tiles.
pub open spec fn amber() -> Seq<u8> {
    seq![215u8, 140u8, 45u8, 255u8]
}

/// The RGBA colour of the indigo tiles.
pub open spec fn indigo() -> Seq<u8> {
    seq![35u8, 55u8, 130u8, 255u8]
}

/// The RGBA colour of texel `(x, y)` of the checkerboard.
pub open spec fn checker_rgba(x: int, y: int) -> Seq<u8> {
    if is_amber_tile(x, y) { amber() } else { indigo() }
}

/// Channel `c` (0 = red, 1 = green, 2 = blue, 3 = alpha) of texel `(x, y)`.
pub open spec fn checker_channel(x: int, y: int, c: int) -> u8 {
    checker_rgba(x, y)[c]
}

/// Builds the 64x64 RGBA8 checkerboard: 8x8-pixel tiles, amber where the
/// tile column plus tile row is even, indigo elsewhere, fully opaque.
pub fn make_checkerboard() -> (px: Vec<u8>)
    ensures
        px@.len() == CHECKER_BYTES,
        forall|x: int, y: int, c: int|
            0 <= x < 64 && 0 <= y < 64 && 0 <= c < 4 ==>
                #[trigger] px@[pixel_byte_index(x, y, c)] == checker_channel(x, y, c),
{
    let w: usize = CHECKER_SIZE;
    let mut px: Vec<u8> = Vec::new();
    let mut y: usize = 0;
    while y < w
        invariant
            w == 64,
            y <= 64,
            px@.len() == y * 256,
            forall|x1: int, y1: int, c: int|
                0 <= x1 < 64 && 0 <= y1 < y && 0 <= c < 4 ==>
                    #[trigger] px@[pixel_byte_index(x1, y1, c)] == checker_channel(x1, y1, c),
        decreases 64 - y,
    {
        let mut x: usize = 0;
        while x < w
            invariant
                w == 64,
                y < 64,
                x <= 64,
                px@.len() == y * 256 + x * 4,
                forall|x1: int, y1: int, c: int|
                    0 <= x1 < 64 && 0 <= y1 < y && 0 <= c < 4 ==>
                        #[trigger] px@[pixel_byte_index(x1, y1, c)] == checker_channel(x1, y1, c),
                forall|x1: int, c: int|
                    0 <= x1 < x && 0 <= c < 4 ==>
                        #[trigger] px@[pixel_byte_index(x1, y as int, c)] == checker_channel(x1, y as int, c),
            decreases 64 - x,
        {
            let amber_tile = (x / TILE_SIZE + y / TILE_SIZE) % 2 == 0;
            let (r, g, b): (u8, u8, u8) = if amber_tile {
                (215u8, 140u8, 45u8)
            } else {
                (35u8, 55u8, 130u8)
            };
            let ghost before = px@;
            px.push(r);
            px.push(g);
            px.push(b);
            px.push(255u8);
            proof {
                let base = pixel_byte_index(x as int, y as int, 0);
                assert(base == before.len());
                assert forall|x1: int, y1: int, c: int|
                    0 <= x1 < 64 && 0 <= y1 < y && 0 <= c < 4 implies
                        #[trigger] px@[pixel_byte_index(x1, y1, c)] == checker_channel(x1, y1, c) by {
                    assert(pixel_byte_index(x1, y1, c) < before.len());
                    assert(px@[pixel_byte_index(x1, y1, c)] == before[pixel_byte_index(x1, y1, c)]);
                }
                assert forall|x1: int, c: int|
                    0 <= x1 < x + 1 && 0 <= c < 4 implies
                        #[trigger] px@[pixel_byte_index(x1, y as int, c)] == checker_channel(x1, y as int, c) by {
                    if x1 < x {
                        assert(pixel_byte_index(x1, y as int, c) < before.len());
                        assert(px@[pixel_byte_index(x1, y as int, c)] == before[pixel_byte_index(x1, y as int, c)]);
                    } else {
                        assert(pixel_byte_index(x1, y as int, c) == base + c);
                    }
                }
            }
            x = x + 1;
        }
        y = y + 1;
    }
    px
}

/// The checkerboard buffer holds exactly one RGBA8 texel per pixel of the
/// 64x64 image, row after row: every (texel, channel) has its own byte.
pub proof fn lemma_checker_buffer_layout(x: int, y: int, c: int, x2: int, y2: int, c2: int)
    requires
        0 <= x < 64, 0 <= y < 64, 0 <= c < 4,
        0 <= x2 < 64, 0 <= y2 < 64, 0 <= c2 < 4,
    ensures
        CHECKER_BYTES == CHECKER_SIZE * CHECKER_SIZE * BYTES_PER_TEXEL,
        0 <= pixel_byte_index(x, y, c) < CHECKER_BYTES,
        pixel_byte_index(x, y, c) == pixel_byte_index(x2, y2, c2) ==> (x == x2 && y == y2 && c == c2),
{
}

/// Texel `(x, y)` is amber (215, 140, 45, 255) exactly when its tile
/// column `x / 8` plus tile row `y / 8` is even, and indigo
/// (35, 55, 130, 255) otherwise.
pub proof fn lemma_checker_colours(x: int, y: int)
    ensures
        (x / 8 + y / 8) % 2 == 0 ==> checker_rgba(x, y) == seq![215u8, 140u8, 45u8, 255u8],
        (x / 8 + y / 8) % 2 != 0 ==> checker_rgba(x, y) == seq![35u8, 55u8, 130u8, 255u8],
{
}

/// Every texel of the checkerboard is fully opaque.
pub proof fn lemma_checker_opaque(x: int, y: int)
    ensures
        checker_channel(x, y, 3) == 255,
{
}

/// The checkerboard has exactly two colours, amber and indigo, and they differ.
pub proof fn lemma_checker_two_colours(x: int, y: int)
    ensures
        checker_rgba(x, y) == amber() || checker_rgba(x, y) == indigo(),
        amber() != indigo(),
{
    assert(amber()[0] != indigo()[0]);
}

/// Texels in the same 8x8 tile have the same colour.
pub proof fn lemma_checker_tile_uniform(x1: int, y1: int, x2: int, y2: int)
    requires
        0 <= x1 < 64, 0 <= y1 < 64, 0 <= x2 < 64, 0 <= y2 < 64,
        x1 / 8 == x2 / 8,
        y1 / 8 == y2 / 8,
    ensures
        checker_rgba(x1, y1) == checker_rgba(x2, y2),
{
}

/// The texture tiles seamlessly under repeat addressing: moving one tile
/// to the right, or one tile down, wrapping around the 64-texel edge,
/// always lands on a tile of the other colour.
pub proof fn lemma_checker_alternates_with_wrap(x: int, y: int)
    requires
        0 <= x < 64, 0 <= y < 64,
    ensures
        checker_rgba(x, y) != checker_rgba((x + 8) % 64, y),
        checker_rgba(x, y) != checker_rgba(x, (y + 8) % 64),
{
    assert(amber()[0] != indigo()[0]);
    let tx = x / 8;
    let ty = y / 8;
    assert(0 <= tx < 8 && 0 <= ty < 8);
    if x + 8 < 64 {
        assert((x + 8) % 64 == x + 8);
        assert((x + 8) / 8 == tx + 1);
    } else {
        assert((x + 8) % 64 == x - 56);
        assert((x - 56) / 8 == tx - 7);
    }
    if y + 8 < 64 {
        assert((y + 8) % 64 == y + 8);
        assert((y + 8) / 8 == ty + 1);
    } else {
        assert((y + 8) % 64 == y - 56);
        assert((y - 56) / 8 == ty - 7);
    }
}

/// An integer 3-vector. Cube positions are stored in half-units (a
/// coordinate of 1 stands for 0.5 in object space, so every corner of the
/// unit cube centred at the origin is exact); normals are stored as they are.
#[derive(Clone, Copy, Debug, PartialEq, Eq, Structural)]
pub struct Int3 {
    pub x: i8,
    pub y: i8,
    pub z: i8,
}

/// A texture coordinate whose components are 0 or 1.
#[derive(Clone, Copy, Debug, PartialEq, Eq, Structural)]
pub struct Uv {
    pub u: u8,
    pub v: u8,
}

/// One cube vertex: position (half-units), outward face normal and
/// texture coordinate.
#[derive(Clone, Copy, Debug, PartialEq, Eq, Structural)]
pub struct GridVertex {
    pub position: Int3,
    pub normal: Int3,
    pub uv: Uv,
}

/// Number of vertices in the cube mesh: 6 faces with 4 vertices each.
pub const CUBE_VERTEX_COUNT: usize = 24;

/// Number of indices in the cube mesh: 6 faces with 2 triangles each.
pub const CUBE_INDEX_COUNT: usize = 36;

/// The integer vector `(x, y, z)`.
pub open spec fn int3(x: i8, y: i8, z: i8) -> Int3 {
    Int3 { x, y, z }
}

/// Outward normal of face `f`: +Z, -Z, +X, -X, +Y, -Y in that order.
pub open spec fn face_normal(f: int) -> Int3 {
    if f == 0 { int3(0i8, 0i8, 1i8) }
    else if f == 1 { int3(0i8, 0i8, -1i8) }
    else if f == 2 { int3(1i8, 0i8, 0i8) }
    else if f == 3 { int3(-1i8, 0i8, 0i8) }
    else if f == 4 { int3(0i8, 1i8, 0i8) }
    else { int3(0i8, -1i8, 0i8) }
}

/// Corner `k` (0..4) of face `f`, in half-units, listed counter-clockwise
/// as seen from outside the cube.
pub open spec fn face_corner(f: int, k: int) -> Int3 {
    if f == 0 {
        if k == 0 { int3(-1i8, -1i8, 1i8) } else if k == 1 { int3(1i8, -1i8, 1i8) }
        else if k == 2 { int3(1i8, 1i8, 1i8) } else { int3(-1i8, 1i8, 1i8) }
    } else if f == 1 {
        if k == 0 { int3(1i8, -1i8, -1i8) } else if k == 1 { int3(-1i8, -1i8, -1i8) }
        else if k == 2 { int3(-1i8, 1i8, -1i8) } else { int3(1i8, 1i8, -1i8) }
    } else if f == 2 {
        if k == 0 { int3(1i8, -1i8, 1i8) } else if k == 1 { int3(1i8, -1i8, -1i8) }
        else if k == 2 { int3(1i8, 1i8, -1i8) } else { int3(1i8, 1i8, 1i8) }
    } else if f == 3 {
        if k == 0 { int3(-1i8, -1i8, -1i8) } else if k == 1 { int3(-1i8, -1i8, 1i8) }
        else if k == 2 { int3(-1i8, 1i8, 1i8) } else { int3(-1i8, 1i8, -1i8) }
    } else if f == 4 {
        if k == 0 { int3(-1i8, 1i8, 1i8) } else if k == 1 { int3(1i8, 1i8, 1i8) }
        else if k == 2 { int3(1i8, 1i8, -1i8) } else { int3(-1i8, 1i8, -1i8) }
    } else {
        if k == 0 { int3(-1i8, -1i8, -1i8) } else if k == 1 { int3(1i8, -1i8, -1i8) }
        else if k == 2 { int3(1i8, -1i8, 1i8) } else { int3(-1i8, -1i8, 1i8) }
    }
}

/// Texture coordinate of corner `k` of every face: (0,1), (1,1), (1,0), (0,0).
pub open spec fn uv_corner(k: int) -> Uv {
    if k == 0 { Uv { u: 0, v: 1 } }
    else if k == 1 { Uv { u: 1, v: 1 } }
    else if k == 2 { Uv { u: 1, v: 0 } }
    else { Uv { u: 0, v: 0 } }
}

/// Vertex `v` of the cube mesh: corner `v % 4` of face `v / 4`.
pub open spec fn cube_vertex(v: int) -> GridVertex {
    GridVertex { position: face_corner(v / 4, v % 4), normal: face_normal(v / 4), uv: uv_corner(v % 4) }
}

/// The 24 vertices of the cube mesh.
pub open spec fn cube_vertices() -> Seq<GridVertex> {
    Seq::new(24, |v: int| cube_vertex(v))
}

/// Offset, within its face's four vertices, of the `k`-th index of a quad:
/// the triangles (0, 1, 2) and (0, 2, 3).
pub open spec fn quad_offset(k: int) -> int {
    if k == 0 { 0 } else if k == 1 { 1 } else if k == 2 { 2 }
    else if k == 3 { 0 } else if k == 4 { 2 } else { 3 }
}

/// Index `j` of the cube's index buffer.
pub open spec fn cube_index(j: int) -> u16 {
    (4 * (j / 6) + quad_offset(j % 6)) as u16
}

/// The 36 indices of the cube mesh, two triangles per face.
pub open spec fn cube_indices() -> Seq<u16> {
    Seq::new(36, |j: int| cube_index(j))
}

/// The four vertices that `push_face` appends.
pub open spec fn quad_vertices(positions: Seq<Int3>, normal: Int3) -> Seq<GridVertex> {
    seq![
        GridVertex { position: positions[0], normal: normal, uv: uv_corner(0) },
        GridVertex { position: positions[1], normal: normal, uv: uv_corner(1) },
        GridVertex { position: positions[2], normal: normal, uv: uv_corner(2) },
        GridVertex { position: positions[3], normal: normal, uv: uv_corner(3) },
    ]
}

/// The six indices that `push_face` appends for a quad whose first vertex is `base`.
pub open spec fn quad_indices(base: int) -> Seq<u16> {
    seq![base as u16, (base + 1) as u16, (base + 2) as u16, base as u16, (base + 2) as u16, (base + 3) as u16]
}

/// Appends one quad: four vertices sharing `normal` with the shared uv
/// corners, and the six indices of its two triangles.
fn push_face(verts: &mut Vec<GridVertex>, idx: &mut Vec<u16>, positions: [Int3; 4], normal: Int3)
    requires
        old(verts)@.len() + 4 <= 65536,
    ensures
        final(verts)@ == old(verts)@ + quad_vertices(positions@, normal),
        final(idx)@ == old(idx)@ + quad_indices(old(verts)@.len() as int),
{
    let uvs: [Uv; 4] = [Uv { u: 0, v: 1 }, Uv { u: 1, v: 1 }, Uv { u: 1, v: 0 }, Uv { u: 0, v: 0 }];
    let base: u16 = verts.len() as u16;
    let ghost v0 = verts@;
    let mut i: usize = 0;
    while i < 4
        invariant
            i <= 4,
            v0.len() + 4 <= 65536,
            uvs@ == seq![uv_corner(0), uv_corner(1), uv_corner(2), uv_corner(3)],
            verts@ == v0 + quad_vertices(positions@, normal).take(i as int),
        decreases 4 - i,
    {
        verts.push(GridVertex { position: positions[i], normal: normal, uv: uvs[i] });
        assert(quad_vertices(positions@, normal).take(i + 1) =~= quad_vertices(positions@, normal).take(i as int).push(
            GridVertex { position: positions@[i as int], normal: normal, uv: uvs@[i as int] }));
        i = i + 1;
    }
    assert(quad_vertices(positions@, normal).take(4) =~= quad_vertices(positions@, normal));
    idx.push(base);
    idx.push(base + 1);
    idx.push(base + 2);
    idx.push(base);
    idx.push(base + 2);
    idx.push(base + 3);
    assert(idx@ =~= old(idx)@ + quad_indices(v0.len() as int));
}

/// The corners of face `f` as a sequence.
pub open spec fn face_corners(f: int) -> Seq<Int3> {
    seq![face_corner(f, 0), face_corner(f, 1), face_corner(f, 2), face_corner(f, 3)]
}

proof fn lemma_cube_vertices_by_face(verts: Seq<GridVertex>)
    requires
        verts == quad_vertices(face_corners(0), face_normal(0))
            + quad_vertices(face_corners(1), face_normal(1))
            + quad_vertices(face_corners(2), face_normal(2))
            + quad_vertices(face_corners(3), face_normal(3))
            + quad_vertices(face_corners(4), face_normal(4))
            + quad_vertices(face_corners(5), face_normal(5)),
    ensures
        verts == cube_vertices(),
{
    assert forall|v: int| 0 <= v < 24 implies #[trigger] verts[v] == cube_vertex(v) by {
        let f = v / 4;
        let k = v % 4;
        assert(v == 4 * f + k);
        assert(verts[v] == quad_vertices(face_corners(f), face_normal(f))[k]);
    }
    assert(verts =~= cube_vertices());
}

proof fn lemma_cube_indices_by_face(idx: Seq<u16>)
    requires
        idx == quad_indices(0) + quad_indices(4) + quad_indices(8) + quad_indices(12)
            + quad_indices(16) + quad_indices(20),
    ensures
        idx == cube_indices(),
{
    assert forall|j: int| 0 <= j < 36 implies #[trigger] idx[j] == cube_index(j) by {
        let f = j / 6;
        let k = j % 6;
        assert(j == 6 * f + k);
        assert(idx[j] == quad_indices(4 * f)[k]);
    }
    assert(idx =~= cube_indices());
}

/// Builds the cube mesh: 24 vertices (each face has its own four vertices
/// so that its flat normal is not shared across edges) and 36 indices,
/// two counter-clockwise triangles per face.
pub fn make_cube() -> (mesh: (Vec<GridVertex>, Vec<u16>))
    ensures
        mesh.0@ == cube_vertices(),
        mesh.1@ == cube_indices(),
{
    let mut verts: Vec<GridVertex> = Vec::new();
    let mut idx: Vec<u16> = Vec::new();
    // +Z front
    push_face(&mut verts, &mut idx,
        [Int3 { x: -1, y: -1, z: 1 }, Int3 { x: 1, y: -1, z: 1 }, Int3 { x: 1, y: 1, z: 1 }, Int3 { x: -1, y: 1, z: 1 }],
        Int3 { x: 0, y: 0, z: 1 });
    // -Z back
    push_face(&mut verts, &mut idx,
        [Int3 { x: 1, y: -1, z: -1 }, Int3 { x: -1, y: -1, z: -1 }, Int3 { x: -1, y: 1, z: -1 }, Int3 { x: 1, y: 1, z: -1 }],
        Int3 { x: 0, y: 0, z: -1 });
    // +X right
    push_face(&mut verts, &mut idx,
        [Int3 { x: 1, y: -1, z: 1 }, Int3 { x: 1, y: -1, z: -1 }, Int3 { x: 1, y: 1, z: -1 }, Int3 { x: 1, y: 1, z: 1 }],
        Int3 { x: 1, y: 0, z: 0 });
    // -X left
    push_face(&mut verts, &mut idx,
        [Int3 { x: -1, y: -1, z: -1 }, Int3 { x: -1, y: -1, z: 1 }, Int3 { x: -1, y: 1, z: 1 }, Int3 { x: -1, y: 1, z: -1 }],
        Int3 { x: -1, y: 0, z: 0 });
    // +Y top
    push_face(&mut verts, &mut idx,
        [Int3 { x: -1, y: 1, z: 1 }, Int3 { x: 1, y: 1, z: 1 }, Int3 { x: 1, y: 1, z: -1 }, Int3 { x: -1, y: 1, z: -1 }],
        Int3 { x: 0, y: 1, z: 0 });
    // -Y bottom
    push_face(&mut verts, &mut idx,
        [Int3 { x: -1, y: -1, z: -1 }, Int3 { x: 1, y: -1, z: -1 }, Int3 { x: 1, y: -1, z: 1 }, Int3 { x: -1, y: -1, z: 1 }],
        Int3 { x: 0, y: -1, z: 0 });
    proof {
        lemma_cube_vertices_by_face(verts@);
        lemma_cube_indices_by_face(idx@);
    }
    (verts, idx)
}

/// Difference `a - b` of two integer vectors.
pub open spec fn sub3(a: Int3, b: Int3) -> (int, int, int) {
    (a.x - b.x, a.y - b.y, a.z - b.z)
}

/// Cross product of two integer vectors.
pub open spec fn cross3(a: (int, int, int), b: (int, int, int)) -> (int, int, int) {
    (a.1 * b.2 - a.2 * b.1, a.2 * b.0 - a.0 * b.2, a.0 * b.1 - a.1 * b.0)
}

/// Dot product of an integer vector with `n`.
pub open spec fn dot3(a: (int, int, int), n: Int3) -> int {
    a.0 * n.x + a.1 * n.y + a.2 * n.z
}

/// The integer vector of `p`.
pub open spec fn as_tuple(p: Int3) -> (int, int, int) {
    (p.x as int, p.y as int, p.z as int)
}

/// Vertex `i` (0..3) of triangle `t` (0..12) of the cube's index buffer.
pub open spec fn triangle_vertex(t: int, i: int) -> GridVertex {
    cube_vertices()[cube_indices()[3 * t + i] as int]
}

/// The triangle `(a, b, c)` winds counter-clockwise when seen from the
/// side its vertices' normal points to, and all three share that normal.
pub open spec fn ccw_about_normal(a: GridVertex, b: GridVertex, c: GridVertex) -> bool {
    &&& a.normal == b.normal
    &&& b.normal == c.normal
    &&& dot3(cross3(sub3(b.position, a.position), sub3(c.position, a.position)), a.normal) > 0
}

proof fn lemma_face_corner_facts(f: int, k: int)
    requires
        0 <= f < 6,
        0 <= k < 4,
    ensures
        face_corner(f, k).x == 1 || face_corner(f, k).x == -1,
        face_corner(f, k).y == 1 || face_corner(f, k).y == -1,
        face_corner(f, k).z == 1 || face_corner(f, k).z == -1,
        dot3(as_tuple(face_normal(f)), face_normal(f)) == 1,
        dot3(as_tuple(face_corner(f, k)), face_normal(f)) == 1,
{
    if f == 0 {
        if k == 0 {} else if k == 1 {} else if k == 2 {} else {}
    } else if f == 1 {
        if k == 0 {} else if k == 1 {} else if k == 2 {} else {}
    } else if f == 2 {
        if k == 0 {} else if k == 1 {} else if k == 2 {} else {}
    } else if f == 3 {
        if k == 0 {} else if k == 1 {} else if k == 2 {} else {}
    } else if f == 4 {
        if k == 0 {} else if k == 1 {} else if k == 2 {} else {}
    } else {
        if k == 0 {} else if k == 1 {} else if k == 2 {} else {}
    }
}

proof fn lemma_face_quads_ccw(f: int)
    by (nonlinear_arith)
    requires
        0 <= f < 6,
    ensures
        ccw_about_normal(cube_vertex(4 * f), cube_vertex(4 * f + 1), cube_vertex(4 * f + 2)),
        ccw_about_normal(cube_vertex(4 * f), cube_vertex(4 * f + 2), cube_vertex(4 * f + 3)),
{
    assert((4 * f) / 4 == f && (4 * f) % 4 == 0);
    assert((4 * f + 1) / 4 == f && (4 * f + 1) % 4 == 1);
    assert((4 * f + 2) / 4 == f && (4 * f + 2) % 4 == 2);
    assert((4 * f + 3) / 4 == f && (4 * f + 3) % 4 == 3);
    if f == 0 {} else if f == 1 {} else if f == 2 {} else if f == 3 {} else if f == 4 {} else {}
}

/// Every index of the cube's index buffer names one of its 24 vertices,
/// and the three vertices of each triangle belong to the same face.
pub proof fn lemma_cube_indices_valid()
    ensures
        cube_indices().len() == CUBE_INDEX_COUNT,
        cube_vertices().len() == CUBE_VERTEX_COUNT,
        forall|j: int| 0 <= j < 36 ==> #[trigger] cube_indices()[j] < 24,
        forall|j: int| 0 <= j < 36 ==> (#[trigger] cube_indices()[j]) / 4 == j / 6,
{
    assert forall|j: int| 0 <= j < 36 implies #[trigger] cube_indices()[j] < 24 && cube_indices()[j] / 4 == j / 6 by {
        let f = j / 6;
        let k = j % 6;
        assert(0 <= quad_offset(k) < 4);
        assert(cube_indices()[j] == 4 * f + quad_offset(k));
    }
}

/// Every cube vertex is a corner of the cube (each coordinate is +-0.5),
/// lies on the plane of its face, and carries that face's outward unit
/// normal: the normal is a unit axis vector and points away from the
/// centre (its dot product with the position is positive). The six faces
/// have six different normals.
pub proof fn lemma_cube_vertices_on_outward_faces()
    ensures
        forall|v: int| 0 <= v < 24 ==> {
            let p = #[trigger] cube_vertices()[v];
            &&& (p.position.x == 1 || p.position.x == -1)
            &&& (p.position.y == 1 || p.position.y == -1)
            &&& (p.position.z == 1 || p.position.z == -1)
            &&& dot3(as_tuple(p.normal), p.normal) == 1
            &&& dot3(as_tuple(p.position), p.normal) == 1
        },
        forall|f: int, g: int| 0 <= f < 6 && 0 <= g < 6 && f != g ==>
            #[trigger] face_normal(f) != #[trigger] face_normal(g),
{
    assert forall|v: int| 0 <= v < 24 implies {
        let p = #[trigger] cube_vertices()[v];
        &&& (p.position.x == 1 || p.position.x == -1)
        &&& (p.position.y == 1 || p.position.y == -1)
        &&& (p.position.z == 1 || p.position.z == -1)
        &&& dot3(as_tuple(p.normal), p.normal) == 1
        &&& dot3(as_tuple(p.position), p.normal) == 1
    } by {
        let f = v / 4;
        let k = v % 4;
        assert(cube_vertices()[v] == cube_vertex(v));
        assert(0 <= f < 6 && 0 <= k < 4);
        lemma_face_corner_facts(f, k);
    }
}

/// Every triangle of the cube winds counter-clockwise as seen from outside:
/// the right-hand normal of each triangle points the same way as the
/// outward normal of the face it belongs to.
pub proof fn lemma_cube_triangles_ccw_from_outside()
    ensures
        forall|t: int| 0 <= t < 12 ==>
            ccw_about_normal(#[trigger] triangle_vertex(t, 0), triangle_vertex(t, 1), triangle_vertex(t, 2)),
{
    assert forall|t: int| 0 <= t < 12 implies
        ccw_about_normal(#[trigger] triangle_vertex(t, 0), triangle_vertex(t, 1), triangle_vertex(t, 2)) by {
        let f = t / 2;
        let second = t % 2 == 1;
        assert(0 <= f < 6);
        assert(cube_indices()[3 * t] == cube_index(3 * t));
        assert(cube_indices()[3 * t + 1] == cube_index(3 * t + 1));
        assert(cube_indices()[3 * t + 2] == cube_index(3 * t + 2));
        if second {
            assert(cube_index(3 * t) == 4 * f);
            assert(cube_index(3 * t + 1) == 4 * f + 2);
            assert(cube_index(3 * t + 2) == 4 * f + 3);
        } else {
            assert(cube_index(3 * t) == 4 * f);
            assert(cube_index(3 * t + 1) == 4 * f + 1);
            assert(cube_index(3 * t + 2) == 4 * f + 2);
        }
        assert(triangle_vertex(t, 0) == cube_vertex(cube_index(3 * t) as int));
        assert(triangle_vertex(t, 1) == cube_vertex(cube_index(3 * t + 1) as int));
        assert(triangle_vertex(t, 2) == cube_vertex(cube_index(3 * t + 2) as int));
        lemma_face_quads_ccw(f);
    }
}

/// Vertices `a`, `b` and `c` of the cube mesh all sit at `corner` and
/// belong to three faces with three different normals.
pub open spec fn corner_shared_by(corner: Int3, a: int, b: int, c: int) -> bool {
    &&& 0 <= a < 24 && 0 <= b < 24 && 0 <= c < 24
    &&& cube_vertices()[a].position == corner
    &&& cube_vertices()[b].position == corner
    &&& cube_vertices()[c].position == corner
    &&& cube_vertices()[a].normal != cube_vertices()[b].normal
    &&& cube_vertices()[a].normal != cube_vertices()[c].normal
    &&& cube_vertices()[b].normal != cube_vertices()[c].normal
}

/// Each of the cube's 8 corners is used by three faces pointing in three
/// different directions, each with a vertex of its own there (so that
/// the faces' flat normals are never shared across an edge).
pub proof fn lemma_cube_corners_shared_by_three_faces(x: i8, y: i8, z: i8)
    requires
        x == 1 || x == -1,
        y == 1 || y == -1,
        z == 1 || z == -1,
    ensures
        exists|a: int, b: int, c: int| #[trigger] corner_shared_by(int3(x, y, z), a, b, c),
{
        if x == -1 && y == -1 && z == -1 {
            assert(corner_shared_by(int3(x, y, z), 5, 12, 20));
        } else if x == -1 && y == -1 && z == 1 {
            assert(corner_shared_by(int3(x, y, z), 0, 13, 23));
        } else if x == -1 && y == 1 && z == -1 {
            assert(corner_shared_by(int3(x, y, z), 6, 15, 19));
        } else if x == -1 && y == 1 && z == 1 {
            assert(corner_shared_by(int3(x, y, z), 3, 14, 16));
        } else if x == 1 && y == -1 && z == -1 {
            assert(corner_shared_by(int3(x, y, z), 4, 9, 21));
        } else if x == 1 && y == -1 && z == 1 {
            assert(corner_shared_by(int3(x, y, z), 1, 8, 22));
        } else if x == 1 && y == 1 && z == -1 {
            assert(corner_shared_by(int3(x, y, z), 7, 10, 18));
        } else if x == 1 && y == 1 && z == 1 {
            assert(corner_shared_by(int3(x, y, z), 2, 11, 17));
        }
}

/// Each face maps its four corners to the four corners of the unit uv square.
pub proof fn lemma_cube_faces_span_uv_square()
    ensures
        forall|f: int| 0 <= f < 6 ==> {
            &&& (#[trigger] cube_vertices()[4 * f]).uv == (Uv { u: 0, v: 1 })
            &&& cube_vertices()[4 * f + 1].uv == (Uv { u: 1, v: 1 })
            &&& cube_vertices()[4 * f + 2].uv == (Uv { u: 1, v: 0 })
            &&& cube_vertices()[4 * f + 3].uv == (Uv { u: 0, v: 0 })
        },
{
}

/// Bytes in one 32-bit float component.
pub const FLOAT_BYTES: u64 = 4;

/// The shader-side format of a vertex attribute: two or three 32-bit floats.
#[derive(Clone, Copy, Debug, PartialEq, Eq, Structural)]
pub enum AttributeFormat {
    Float32x2,
    Float32x3,
}

/// The attribute format for a vector of `components` 32-bit floats.
pub open spec fn format_for(components: u64) -> AttributeFormat {
    if components == 3 { AttributeFormat::Float32x3 } else { AttributeFormat::Float32x2 }
}

/// One attribute of the vertex buffer layout: its byte offset inside a
/// vertex, the shader location it feeds, its number of 32-bit float
/// components and the matching format.
#[derive(Clone, Copy, Debug, PartialEq, Eq, Structural)]
pub struct VertexAttributePlan {
    pub offset: u64,
    pub shader_location: u32,
    pub components: u64,
    pub format: AttributeFormat,
}

/// The vertex buffer layout: the stride between vertices and the
/// attributes in shader-location order.
pub struct VertexLayoutPlan {
    pub array_stride: u64,
    pub attributes: Vec<VertexAttributePlan>,
}

/// Float components of the vertex attributes, in order: position (3),
/// normal (3), uv (2).
pub open spec fn vertex_components() -> Seq<u64> {
    seq![3u64, 3u64, 2u64]
}

/// Number of floats in the attributes before attribute `k`.
pub open spec fn floats_before(k: int) -> int
    decreases k,
{
    if k <= 0 { 0 } else { floats_before(k - 1) + vertex_components()[k - 1] }
}

/// Attribute `k` of the tightly packed vertex layout.
pub open spec fn vertex_attribute(k: int) -> VertexAttributePlan {
    VertexAttributePlan {
        offset: (FLOAT_BYTES * floats_before(k)) as u64,
        shader_location: k as u32,
        components: vertex_components()[k],
        format: format_for(vertex_components()[k]),
    }
}

/// Describes how a vertex is laid out in the vertex buffer: the attributes
/// are packed back to back in field order (position, normal, uv), each at
/// the shader location equal to its position in that order, and the stride
/// is the size of the whole vertex.
pub fn vertex_layout() -> (layout: VertexLayoutPlan)
    ensures
        layout.attributes@.len() == 3,
        forall|k: int| 0 <= k < 3 ==> #[trigger] layout.attributes@[k] == vertex_attribute(k),
        layout.array_stride == FLOAT_BYTES * floats_before(3),
{
    let components: [u64; 3] = [3, 3, 2];
    let formats: [AttributeFormat; 3] = [AttributeFormat::Float32x3, AttributeFormat::Float32x3, AttributeFormat::Float32x2];
    let mut attributes: Vec<VertexAttributePlan> = Vec::new();
    let mut offset: u64 = 0;
    let mut k: usize = 0;
    while k < 3
        invariant
            k <= 3,
            components@ == vertex_components(),
            formats@ == seq![format_for(3), format_for(3), format_for(2)],
            offset == FLOAT_BYTES * floats_before(k as int),
            offset <= 32,
            attributes@.len() == k,
            forall|j: int| 0 <= j < k ==> #[trigger] attributes@[j] == vertex_attribute(j),
        decreases 3 - k,
    {
        proof {
            reveal_with_fuel(floats_before, 4);
        }
        attributes.push(VertexAttributePlan {
            offset: offset,
            shader_location: k as u32,
            components: components[k],
            format: formats[k],
        });
        offset = offset + FLOAT_BYTES * components[k];
        k = k + 1;
    }
    VertexLayoutPlan { array_stride: offset, attributes }
}

/// The vertex layout is the packed 32-byte vertex the shader expects:
/// position at byte 0 and normal at byte 12 as three floats, uv at byte 24
/// as two floats; each attribute
/// ends where the next begins, so no two overlap, and the last one ends
/// exactly at the stride.
pub proof fn lemma_vertex_layout_packed()
    ensures
        FLOAT_BYTES * floats_before(3) == 32,
        vertex_attribute(0).offset == 0,
        vertex_attribute(1).offset == 12,
        vertex_attribute(2).offset == 24,
        vertex_attribute(0).components == 3 && vertex_attribute(0).shader_location == 0,
        vertex_attribute(1).components == 3 && vertex_attribute(1).shader_location == 1,
        vertex_attribute(2).components == 2 && vertex_attribute(2).shader_location == 2,
        vertex_attribute(0).format == AttributeFormat::Float32x3,
        vertex_attribute(1).format == AttributeFormat::Float32x3,
        vertex_attribute(2).format == AttributeFormat::Float32x2,
        forall|k: int| 0 <= k < 2 ==>
            #[trigger] vertex_attribute(k).offset + FLOAT_BYTES * vertex_attribute(k).components
                == vertex_attribute(k + 1).offset,
        vertex_attribute(2).offset + FLOAT_BYTES * vertex_attribute(2).components == FLOAT_BYTES * floats_before(3),
{
    reveal_with_fuel(floats_before, 4);
}

/// `bytes` holds each index of `indices` as two bytes, low byte first.
pub open spec fn u16s_as_le_bytes(indices: Seq<u16>, bytes: Seq<u8>) -> bool {
    &&& bytes.len() == 2 * indices.len()
    &&& forall|i: int| 0 <= i < indices.len() ==>
            #[trigger] indices[i] as int == bytes[2 * i] as int + 256 * bytes[2 * i + 1] as int
}

/// `bytes` holds each index of `indices` as two bytes, high byte first.
pub open spec fn u16s_as_be_bytes(indices: Seq<u16>, bytes: Seq<u8>) -> bool {
    &&& bytes.len() == 2 * indices.len()
    &&& forall|i: int| 0 <= i < indices.len() ==>
            #[trigger] indices[i] as int == 256 * bytes[2 * i] as int + bytes[2 * i + 1] as int
}

/// `bytes` is the in-memory image of `indices`: two bytes per index, in the
/// machine's byte order (the same order for every index).
pub open spec fn u16s_as_native_bytes(indices: Seq<u16>, bytes: Seq<u8>) -> bool {
    u16s_as_le_bytes(indices, bytes) || u16s_as_be_bytes(indices, bytes)
}

/// Reinterprets a `u16` slice as its bytes with `bytemuck::cast_slice`.
/// The bytes are the slice's memory: two per element, in the machine's
/// byte order. Which byte order that is depends on the machine, so the
/// contract admits both and leaves it open.
#[verifier::external_body]
fn cast_u16_slice_to_bytes<'a>(indices: &'a [u16]) -> (bytes: &'a [u8])
    ensures
        u16s_as_native_bytes(indices@, bytes@),
{
    bytemuck::cast_slice::<u16, u8>(indices)
}

/// The bytes uploaded to the GPU index buffer for `indices` (16-bit
/// indices in the machine's byte order).
pub fn index_buffer_bytes(indices: &Vec<u16>) -> (bytes: &[u8])
    ensures
        u16s_as_native_bytes(indices@, bytes@),
{
    cast_u16_slice_to_bytes(indices.as_slice())
}

/// The number of indices to draw, as the `u32` that a draw call takes
/// (the length converted with `as`, so it is the length itself whenever
/// that fits in a `u32`).
pub fn index_count(indices: &Vec<u16>) -> (count: u32)
    ensures
        count == indices@.len() as u32,
        indices@.len() <= u32::MAX ==> count == indices@.len(),
{
    indices.len() as u32
}

} // verus!
