//! The index buffer of a sky box, which is seen from inside.
use vstd::prelude::*;
use crate::objects::cube::{cube_face_corner, face_slot, cube_corner_position, corner_slot, signs};

verus! {

/// The six corners, in order, of the two triangles of a sky box face whose four
/// vertices are numbered 0 to 3: (0, 2, 1) and (0, 3, 2).
pub open spec fn skybox_face_corner(c: int) -> int {
    if c == 0 || c == 3 {
        0
    } else if c == 1 || c == 5 {
        2
    } else if c == 2 {
        1
    } else {
        3
    }
}

/// The triangle list of a sky box: the six faces, each with its own four vertices
/// (`4 * f` to `4 * f + 3` for face `f`), split into two triangles that face inwards.
pub fn generate_indices() -> (indices: [u32; 36])
    ensures
        forall|f: int, c: int|
            0 <= f < 6 && 0 <= c < 6 ==> #[trigger] indices@[face_slot(f, c)] == 4 * f
                + skybox_face_corner(c),
{
    let indices: [u32; 36] = [
        0, 2, 1, 0, 3, 2,
        4, 6, 5, 4, 7, 6,
        8, 10, 9, 8, 11, 10,
        12, 14, 13, 12, 15, 14,
        16, 18, 17, 16, 19, 18,
        20, 22, 21, 20, 23, 22,
    ];
    assert forall|f: int, c: int|
        0 <= f < 6 && 0 <= c < 6 implies #[trigger] indices@[face_slot(f, c)] == 4 * f
            + skybox_face_corner(c) by {
        assert(indices@ =~= seq![
            0u32, 2, 1, 0, 3, 2,
            4, 6, 5, 4, 7, 6,
            8, 10, 9, 8, 11, 10,
            12, 14, 13, 12, 15, 14,
            16, 18, 17, 16, 19, 18,
            20, 22, 21, 20, 23, 22,
        ]);
    }
    indices
}

/// The 24 vertex positions of a sky box, as signs of half its size: the corners
/// of the cube's faces, face by face in the cube's order.
pub fn generate_vertex_layout() -> (positions: [(i8, i8, i8); 24])
    ensures
        forall|f: int, k: int|
            0 <= f < 6 && 0 <= k < 4 ==> signs(#[trigger] positions@[corner_slot(f, k)])
                == cube_corner_position(f, k),
{
    let positions: [(i8, i8, i8); 24] = [
        // Front
        (-1, -1, 1), (1, -1, 1), (1, 1, 1), (-1, 1, 1),
        // Right
        (1, -1, 1), (1, -1, -1), (1, 1, -1), (1, 1, 1),
        // Back
        (-1, -1, -1), (-1, 1, -1), (1, 1, -1), (1, -1, -1),
        // Left
        (-1, -1, 1), (-1, 1, 1), (-1, 1, -1), (-1, -1, -1),
        // Bottom
        (-1, -1, 1), (-1, -1, -1), (1, -1, -1), (1, -1, 1),
        // Top
        (-1, 1, 1), (1, 1, 1), (1, 1, -1), (-1, 1, -1),
    ];
    assert forall|f: int, k: int| 0 <= f < 6 && 0 <= k < 4 implies signs(
        #[trigger] positions@[corner_slot(f, k)],
    ) == cube_corner_position(f, k) by {
        assert(positions@ =~= seq![
            positions[0], positions[1], positions[2], positions[3], positions[4], positions[5],
            positions[6], positions[7], positions[8], positions[9], positions[10], positions[11],
            positions[12], positions[13], positions[14], positions[15], positions[16], positions[17],
            positions[18], positions[19], positions[20], positions[21], positions[22], positions[23],
        ]);
    }
    positions
}

/// The corner of the same triangle with the second and third corners swapped.
pub open spec fn reverse_winding(c: int) -> int {
    if c % 3 == 1 {
        c + 1
    } else if c % 3 == 2 {
        c - 1
    } else {
        c
    }
}

/// Law: a sky box face has the triangles of the cube face with the same
/// vertices, each with its winding reversed: a triangle's first corner stays and
/// its other two swap, so the face is seen from the other side.
pub proof fn lemma_skybox_reverses_cube_winding()
    ensures
        forall|c: int|
            0 <= c < 6 ==> #[trigger] skybox_face_corner(c) == cube_face_corner(reverse_winding(c)),
{
}

} // verus!
