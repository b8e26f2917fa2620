//! The line list that draws a view frustum.
use vstd::prelude::*;

verus! {

/// The two vertex indices of line `l` of a frustum drawing whose vertices are
/// the apex (0), the near-plane corners (1 to 4) and the far-plane corners
/// (5 to 8): four lines from the apex to the far corners, then the near
/// rectangle, then the far rectangle.
pub open spec fn frustum_line(l: int) -> (int, int) {
    if l < 4 {
        (0, 5 + l)
    } else if l < 8 {
        (1 + (l - 4), 1 + (l - 3) % 4)
    } else {
        (5 + (l - 8), 5 + (l - 7) % 4)
    }
}

/// The position in the index buffer of end `e` (0 or 1) of line `l`.
pub open spec fn line_slot(l: int, e: int) -> int {
    2 * l + e
}

/// The line list of a frustum drawing: twelve lines over its nine vertices.
pub fn line_indices() -> (indices: [u32; 24])
    ensures
        forall|l: int|
            0 <= l < 12 ==> #[trigger] indices@[line_slot(l, 0)] == frustum_line(l).0 && indices@[line_slot(
                l,
                1,
            )] == frustum_line(l).1,
        forall|k: int| 0 <= k < 24 ==> #[trigger] indices@[k] < 9,
{
    let indices: [u32; 24] = [
        0, 5, 0, 6, 0, 7, 0, 8,
        1, 2, 2, 3, 3, 4, 4, 1,
        5, 6, 6, 7, 7, 8, 8, 5,
    ];
    assert(indices@ =~= seq![
        0u32, 5, 0, 6, 0, 7, 0, 8,
        1, 2, 2, 3, 3, 4, 4, 1,
        5, 6, 6, 7, 7, 8, 8, 5,
    ]);
    assert forall|l: int| 0 <= l < 12 implies #[trigger] indices@[line_slot(l, 0)] == frustum_line(l).0
        && indices@[line_slot(l, 1)] == frustum_line(l).1 by {
        if l == 3 {
            assert(indices@[7] == 8);
        }
        if l == 7 {
            assert(indices@[15] == 1);
        }
        if l == 11 {
            assert(indices@[23] == 5);
        }
    }
    indices
}

} // verus!
