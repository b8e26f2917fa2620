//! The index buffer of a cube mesh.
use vstd::prelude::*;

verus! {

/// The six corners, in order, of the two triangles of a cube face whose four
/// vertices are numbered 0 to 3: (0, 1, 2) and (0, 2, 3).
pub open spec fn cube_face_corner(c: int) -> int {
    if c == 0 || c == 3 {
        0
    } else if c == 1 {
        1
    } else if c == 2 || c == 4 {
        2
    } else {
        3
    }
}

/// The position in the index buffer of corner `c` of face `f`.
pub open spec fn face_slot(f: int, c: int) -> int {
    6 * f + c
}

/// The triangle list of a cube: the six faces, each with its own four vertices
/// (`4 * f` to `4 * f + 3` for face `f`), split into two triangles.
pub fn generate_indices() -> (indices: [u32; 36])
    ensures
        forall|f: int, c: int|
            0 <= f < 6 && 0 <= c < 6 ==> #[trigger] indices@[face_slot(f, c)] == 4 * f + cube_face_corner(c),
{
    let indices: [u32; 36] = [
        0, 1, 2, 0, 2, 3,
        4, 5, 6, 4, 6, 7,
        8, 9, 10, 8, 10, 11,
        12, 13, 14, 12, 14, 15,
        16, 17, 18, 16, 18, 19,
        20, 21, 22, 20, 22, 23,
    ];
    assert forall|f: int, c: int|
        0 <= f < 6 && 0 <= c < 6 implies #[trigger] indices@[face_slot(f, c)] == 4 * f + cube_face_corner(c) by {
        assert(indices@ =~= seq![
            0u32, 1, 2, 0, 2, 3,
            4, 5, 6, 4, 6, 7,
            8, 9, 10, 8, 10, 11,
            12, 13, 14, 12, 14, 15,
            16, 17, 18, 16, 18, 19,
            20, 21, 22, 20, 22, 23,
        ]);
    }
    indices
}

/// Law: every triangle of a cube face uses only that face's four vertices, so
/// every index names one of the 24 vertices.
pub proof fn lemma_cube_indices_in_range()
    ensures
        forall|f: int, c: int|
            #![trigger face_slot(f, c)]
            0 <= f < 6 && 0 <= c < 6 ==> 4 * f <= 4 * f + cube_face_corner(c) < 4 * f + 4 <= 24,
{
}

/// The signs (each -1 or 1) of the three coordinates of corner `k` (0 to 3) of
/// face `f`, in units of half the cube's size. Faces come in the order front
/// (+z), right (+x), back (-z), left (-x), bottom (-y), top (+y).
pub open spec fn cube_corner_position(f: int, k: int) -> (int, int, int) {
    if f == 0 {
        if k == 0 { (-1, -1, 1) } else if k == 1 { (1, -1, 1) } else if k == 2 { (1, 1, 1) } else { (-1, 1, 1) }
    } else if f == 1 {
        if k == 0 { (1, -1, 1) } else if k == 1 { (1, -1, -1) } else if k == 2 { (1, 1, -1) } else { (1, 1, 1) }
    } else if f == 2 {
        if k == 0 { (-1, -1, -1) } else if k == 1 { (-1, 1, -1) } else if k == 2 { (1, 1, -1) } else { (1, -1, -1) }
    } else if f == 3 {
        if k == 0 { (-1, -1, 1) } else if k == 1 { (-1, 1, 1) } else if k == 2 { (-1, 1, -1) } else { (-1, -1, -1) }
    } else if f == 4 {
        if k == 0 { (-1, -1, 1) } else if k == 1 { (-1, -1, -1) } else if k == 2 { (1, -1, -1) } else { (1, -1, 1) }
    } else {
        if k == 0 { (-1, 1, 1) } else if k == 1 { (1, 1, 1) } else if k == 2 { (1, 1, -1) } else { (-1, 1, -1) }
    }
}

/// The outward unit normal of face `f`.
pub open spec fn cube_face_normal(f: int) -> (int, int, int) {
    if f == 0 {
        (0, 0, 1)
    } else if f == 1 {
        (1, 0, 0)
    } else if f == 2 {
        (0, 0, -1)
    } else if f == 3 {
        (-1, 0, 0)
    } else if f == 4 {
        (0, -1, 0)
    } else {
        (0, 1, 0)
    }
}

/// The texture coordinate of corner `k` of any face: (0,0), (1,0), (1,1), (0,1).
pub open spec fn cube_corner_texcoord(k: int) -> (int, int) {
    if k == 0 {
        (0, 0)
    } else if k == 1 {
        (1, 0)
    } else if k == 2 {
        (1, 1)
    } else {
        (0, 1)
    }
}

/// A cube vertex: the signs of its coordinates in units of half the size, its
/// outward normal and its texture coordinate.
#[derive(Clone, Copy, Debug, PartialEq, Eq)]
pub struct CubeCorner {
    pub position: (i8, i8, i8),
    pub normal: (i8, i8, i8),
    pub texcoord: (u8, u8),
}

/// The position in the vertex list of corner `k` of face `f`.
pub open spec fn corner_slot(f: int, k: int) -> int {
    4 * f + k
}

/// The three integers of a triple of signs.
pub open spec fn signs(t: (i8, i8, i8)) -> (int, int, int) {
    (t.0 as int, t.1 as int, t.2 as int)
}

/// The 24 vertices of a cube, four for each face so that every face has its own
/// normal: positions as signs of half the size, to be scaled by it.
pub fn generate_vertex_layout() -> (corners: [CubeCorner; 24])
    ensures
        forall|f: int, k: int|
            0 <= f < 6 && 0 <= k < 4 ==> {
                let c = #[trigger] corners@[corner_slot(f, k)];
                &&& signs(c.position) == cube_corner_position(f, k)
                &&& signs(c.normal) == cube_face_normal(f)
                &&& (c.texcoord.0 as int, c.texcoord.1 as int) == cube_corner_texcoord(k)
            },
{
    let corners: [CubeCorner; 24] = [
        // Front
        CubeCorner { position: (-1, -1, 1), normal: (0, 0, 1), texcoord: (0, 0) },
        CubeCorner { position: (1, -1, 1), normal: (0, 0, 1), texcoord: (1, 0) },
        CubeCorner { position: (1, 1, 1), normal: (0, 0, 1), texcoord: (1, 1) },
        CubeCorner { position: (-1, 1, 1), normal: (0, 0, 1), texcoord: (0, 1) },
        // Right
        CubeCorner { position: (1, -1, 1), normal: (1, 0, 0), texcoord: (0, 0) },
        CubeCorner { position: (1, -1, -1), normal: (1, 0, 0), texcoord: (1, 0) },
        CubeCorner { position: (1, 1, -1), normal: (1, 0, 0), texcoord: (1, 1) },
        CubeCorner { position: (1, 1, 1), normal: (1, 0, 0), texcoord: (0, 1) },
        // Back
        CubeCorner { position: (-1, -1, -1), normal: (0, 0, -1), texcoord: (0, 0) },
        CubeCorner { position: (-1, 1, -1), normal: (0, 0, -1), texcoord: (1, 0) },
        CubeCorner { position: (1, 1, -1), normal: (0, 0, -1), texcoord: (1, 1) },
        CubeCorner { position: (1, -1, -1), normal: (0, 0, -1), texcoord: (0, 1) },
        // Left
        CubeCorner { position: (-1, -1, 1), normal: (-1, 0, 0), texcoord: (0, 0) },
        CubeCorner { position: (-1, 1, 1), normal: (-1, 0, 0), texcoord: (1, 0) },
        CubeCorner { position: (-1, 1, -1), normal: (-1, 0, 0), texcoord: (1, 1) },
        CubeCorner { position: (-1, -1, -1), normal: (-1, 0, 0), texcoord: (0, 1) },
        // Bottom
        CubeCorner { position: (-1, -1, 1), normal: (0, -1, 0), texcoord: (0, 0) },
        CubeCorner { position: (-1, -1, -1), normal: (0, -1, 0), texcoord: (1, 0) },
        CubeCorner { position: (1, -1, -1), normal: (0, -1, 0), texcoord: (1, 1) },
        CubeCorner { position: (1, -1, 1), normal: (0, -1, 0), texcoord: (0, 1) },
        // Top
        CubeCorner { position: (-1, 1, 1), normal: (0, 1, 0), texcoord: (0, 0) },
        CubeCorner { position: (1, 1, 1), normal: (0, 1, 0), texcoord: (1, 0) },
        CubeCorner { position: (1, 1, -1), normal: (0, 1, 0), texcoord: (1, 1) },
        CubeCorner { position: (-1, 1, -1), normal: (0, 1, 0), texcoord: (0, 1) },
    ];
    assert forall|f: int, k: int| 0 <= f < 6 && 0 <= k < 4 implies {
        let c = #[trigger] corners@[corner_slot(f, k)];
        &&& signs(c.position) == cube_corner_position(f, k)
        &&& signs(c.normal) == cube_face_normal(f)
        &&& (c.texcoord.0 as int, c.texcoord.1 as int) == cube_corner_texcoord(k)
    } by {
        assert(corners@ =~= seq![
            corners[0], corners[1], corners[2], corners[3], corners[4], corners[5],
            corners[6], corners[7], corners[8], corners[9], corners[10], corners[11],
            corners[12], corners[13], corners[14], corners[15], corners[16], corners[17],
            corners[18], corners[19], corners[20], corners[21], corners[22], corners[23],
        ]);
    }
    corners
}

/// Law: every vertex of a cube face lies on that face: its coordinate along the
/// face's normal is the normal's sign, and every coordinate is -1 or 1 half sizes.
pub proof fn lemma_cube_corners_on_their_faces()
    ensures
        forall|f: int, k: int|
            0 <= f < 6 && 0 <= k < 4 ==> {
                let p = #[trigger] cube_corner_position(f, k);
                let n = cube_face_normal(f);
                &&& (n.0 != 0 ==> p.0 == n.0)
                &&& (n.1 != 0 ==> p.1 == n.1)
                &&& (n.2 != 0 ==> p.2 == n.2)
                &&& (p.0 == 1 || p.0 == -1)
                &&& (p.1 == 1 || p.1 == -1)
                &&& (p.2 == 1 || p.2 == -1)
            },
{
}

/// The difference `a - b` of two points.
pub open spec fn sub3(a: (int, int, int), b: (int, int, int)) -> (int, int, int) {
    (a.0 - b.0, a.1 - b.1, a.2 - b.2)
}

/// The dot product of two vectors.
pub open spec fn dot3(a: (int, int, int), b: (int, int, int)) -> int {
    a.0 * b.0 + a.1 * b.1 + a.2 * b.2
}

/// The cross product of two vectors.
pub open spec fn cross3(a: (int, int, int), b: (int, int, int)) -> (int, int, int) {
    (a.1 * b.2 - a.2 * b.1, a.2 * b.0 - a.0 * b.2, a.0 * b.1 - a.1 * b.0)
}

/// The signed area of the parallelogram spanned by two texture-space vectors.
pub open spec fn cross2(a: (int, int), b: (int, int)) -> int {
    a.0 * b.1 - a.1 * b.0
}

/// The difference `a - b` of two texture coordinates.
pub open spec fn sub2(a: (int, int), b: (int, int)) -> (int, int) {
    (a.0 - b.0, a.1 - b.1)
}

/// Seen from outside face `f`, its corners 0, 1 and 3 turn counter-clockwise,
/// and so do their texture coordinates.
pub open spec fn face_texture_upright(f: int) -> bool {
    let p0 = cube_corner_position(f, 0);
    let e1 = sub3(cube_corner_position(f, 1), p0);
    let e3 = sub3(cube_corner_position(f, 3), p0);
    let t0 = cube_corner_texcoord(0);
    &&& dot3(cross3(e1, e3), cube_face_normal(f)) > 0
    &&& cross2(sub2(cube_corner_texcoord(1), t0), sub2(cube_corner_texcoord(3), t0)) > 0
}

/// The texture coordinate of corner `k` of face `f` is its place in the face:
/// `u` along the edge from corner 0 to corner 1, `v` along the edge from corner 0
/// to corner 3, in units of the cube's size (an edge is two half sizes long).
pub open spec fn texcoord_follows_edges(f: int, k: int) -> bool {
    let p0 = cube_corner_position(f, 0);
    let d = sub3(cube_corner_position(f, k), p0);
    let t = cube_corner_texcoord(k);
    &&& 4 * t.0 == dot3(d, sub3(cube_corner_position(f, 1), p0))
    &&& 4 * t.1 == dot3(d, sub3(cube_corner_position(f, 3), p0))
}

/// Law: the texture lies on every face the right way round. Seen from outside
/// (along the face's normal), corners 0, 1 and 3 turn counter-clockwise, and so
/// do their texture coordinates, so no face shows its texture mirrored. Each
/// corner's texture coordinate is its place in the face: `u` the distance from
/// corner 0 along the edge to corner 1, `v` along the edge to corner 3, both in
/// units of the cube's size.
pub proof fn lemma_cube_texture_orientation()
    ensures
        forall|f: int| 0 <= f < 6 ==> #[trigger] face_texture_upright(f),
        forall|f: int, k: int| 0 <= f < 6 && 0 <= k < 4 ==> #[trigger] texcoord_follows_edges(f, k),
{
    assert(face_texture_upright(0)) by (nonlinear_arith);
    assert(face_texture_upright(1)) by (nonlinear_arith);
    assert(face_texture_upright(2)) by (nonlinear_arith);
    assert(face_texture_upright(3)) by (nonlinear_arith);
    assert(face_texture_upright(4)) by (nonlinear_arith);
    assert(face_texture_upright(5)) by (nonlinear_arith);
    assert forall|f: int, k: int| 0 <= f < 6 && 0 <= k < 4 implies #[trigger] texcoord_follows_edges(f, k) by {
        assert(texcoord_follows_edges(f, 0) && texcoord_follows_edges(f, 1) && texcoord_follows_edges(f, 2)
            && texcoord_follows_edges(f, 3)) by {
            if f == 0 {
                assert(texcoord_follows_edges(0, 0) && texcoord_follows_edges(0, 1) && texcoord_follows_edges(0, 2)
                    && texcoord_follows_edges(0, 3)) by (nonlinear_arith);
            } else if f == 1 {
                assert(texcoord_follows_edges(1, 0) && texcoord_follows_edges(1, 1) && texcoord_follows_edges(1, 2)
                    && texcoord_follows_edges(1, 3)) by (nonlinear_arith);
            } else if f == 2 {
                assert(texcoord_follows_edges(2, 0) && texcoord_follows_edges(2, 1) && texcoord_follows_edges(2, 2)
                    && texcoord_follows_edges(2, 3)) by (nonlinear_arith);
            } else if f == 3 {
                assert(texcoord_follows_edges(3, 0) && texcoord_follows_edges(3, 1) && texcoord_follows_edges(3, 2)
                    && texcoord_follows_edges(3, 3)) by (nonlinear_arith);
            } else if f == 4 {
                assert(texcoord_follows_edges(4, 0) && texcoord_follows_edges(4, 1) && texcoord_follows_edges(4, 2)
                    && texcoord_follows_edges(4, 3)) by (nonlinear_arith);
            } else {
                assert(texcoord_follows_edges(5, 0) && texcoord_follows_edges(5, 1) && texcoord_follows_edges(5, 2)
                    && texcoord_follows_edges(5, 3)) by (nonlinear_arith);
            }
        }
    }
}

} // verus!
