//! The two triangles of a full-screen quad.
use vstd::prelude::*;

verus! {

/// A corner of the full-screen quad: its position in the z = 0 plane as signs
/// (each -1 or 1) and its texture coordinate (each 0 or 1).
#[derive(Clone, Copy, Debug, PartialEq, Eq)]
pub struct QuadCorner {
    pub position: (i8, i8),
    pub texcoord: (u8, u8),
}

/// The position of vertex `i` of the quad: triangles (-1,-1), (1,-1), (1,1) and
/// (-1,-1), (1,1), (-1,1), both counter-clockwise.
pub open spec fn quad_position(i: int) -> (int, int) {
    if i == 0 || i == 3 {
        (-1, -1)
    } else if i == 1 {
        (1, -1)
    } else if i == 2 || i == 4 {
        (1, 1)
    } else {
        (-1, 1)
    }
}

/// The six vertices of the quad that covers the screen, normals left zero.
pub fn generate_vertex_layout() -> (corners: [QuadCorner; 6])
    ensures
        forall|i: int|
            0 <= i < 6 ==> (#[trigger] corners@[i].position.0 as int, corners@[i].position.1 as int)
                == quad_position(i),
        forall|i: int|
            0 <= i < 6 ==> 2 * (#[trigger] corners@[i].texcoord.0 as int) - 1 == corners@[i].position.0
                && 2 * (corners@[i].texcoord.1 as int) - 1 == corners@[i].position.1,
{
    let corners: [QuadCorner; 6] = [
        QuadCorner { position: (-1, -1), texcoord: (0, 0) },
        QuadCorner { position: (1, -1), texcoord: (1, 0) },
        QuadCorner { position: (1, 1), texcoord: (1, 1) },
        QuadCorner { position: (-1, -1), texcoord: (0, 0) },
        QuadCorner { position: (1, 1), texcoord: (1, 1) },
        QuadCorner { position: (-1, 1), texcoord: (0, 1) },
    ];
    assert(corners@ =~= seq![corners[0], corners[1], corners[2], corners[3], corners[4], corners[5]]);
    corners
}

} // verus!
