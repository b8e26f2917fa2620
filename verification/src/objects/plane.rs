//! The index buffer of a plane mesh.
use vstd::prelude::*;
use crate::objects::indices::{all_below, lemma_all_below_concat, append_indices, to_u32s};

verus! {

/// The number of vertices of a plane: a grid of `(x_divs + 1) * (z_divs + 1)`
/// points, row after row along z.
pub open spec fn plane_vertex_count(x_divs: int, z_divs: int) -> int {
    (x_divs + 1) * (z_divs + 1)
}

/// The six indices (two triangles) of the grid cell in row `i`, column `j`.
pub open spec fn plane_quad(x_divs: int, i: int, j: int) -> Seq<u32> {
    let row_start = i * (x_divs + 1);
    let next_row_start = (i + 1) * (x_divs + 1);
    seq![
        (row_start + j) as u32,
        (next_row_start + j) as u32,
        (next_row_start + j + 1) as u32,
        (row_start + j) as u32,
        (next_row_start + j + 1) as u32,
        (row_start + j + 1) as u32,
    ]
}

/// The cells of row `i` in its first `cols` columns, in order.
pub open spec fn plane_row(x_divs: int, i: int, cols: int) -> Seq<u32>
    decreases cols,
{
    if cols <= 0 {
        Seq::empty()
    } else {
        plane_row(x_divs, i, cols - 1) + plane_quad(x_divs, i, cols - 1)
    }
}

/// The cells of the first `rows` rows, row after row.
pub open spec fn plane_indices(x_divs: int, rows: int) -> Seq<u32>
    decreases rows,
{
    if rows <= 0 {
        Seq::empty()
    } else {
        plane_indices(x_divs, rows - 1) + plane_row(x_divs, rows - 1, x_divs)
    }
}

proof fn lemma_plane_row(x_divs: int, z_divs: int, i: int, cols: int)
    requires
        0 <= cols <= x_divs,
        0 <= i < z_divs,
    ensures
        plane_row(x_divs, i, cols).len() == 6 * cols,
        plane_vertex_count(x_divs, z_divs) <= 0x1_0000_0000 ==> all_below(
            plane_row(x_divs, i, cols),
            plane_vertex_count(x_divs, z_divs),
        ),
    decreases cols,
{
    if cols > 0 {
        lemma_plane_row(x_divs, z_divs, i, cols - 1);
        let j = cols - 1;
        let bound = plane_vertex_count(x_divs, z_divs);
        assert((i + 1) * (x_divs + 1) == i * (x_divs + 1) + x_divs + 1) by (nonlinear_arith);
        assert((i + 2) * (x_divs + 1) <= bound) by (nonlinear_arith)
            requires
                i + 2 <= z_divs + 1,
                x_divs >= 0,
                bound == (x_divs + 1) * (z_divs + 1),
        ;
        assert((i + 2) * (x_divs + 1) == i * (x_divs + 1) + 2 * (x_divs + 1)) by (nonlinear_arith);
        assert(i * (x_divs + 1) >= 0) by (nonlinear_arith)
            requires
                i >= 0,
                x_divs >= 0,
        ;
        if bound <= 0x1_0000_0000 {
            lemma_all_below_concat(plane_row(x_divs, i, j), plane_quad(x_divs, i, j), bound);
        }
    }
}

proof fn lemma_plane_indices(x_divs: int, z_divs: int, rows: int)
    requires
        0 <= rows <= z_divs,
        0 <= x_divs,
    ensures
        plane_indices(x_divs, rows).len() == 6 * x_divs * rows,
        plane_vertex_count(x_divs, z_divs) <= 0x1_0000_0000 ==> all_below(
            plane_indices(x_divs, rows),
            plane_vertex_count(x_divs, z_divs),
        ),
    decreases rows,
{
    if rows > 0 {
        lemma_plane_indices(x_divs, z_divs, rows - 1);
        lemma_plane_row(x_divs, z_divs, rows - 1, x_divs);
        let a = plane_indices(x_divs, rows - 1);
        let b = plane_row(x_divs, rows - 1, x_divs);
        assert((a + b).len() == a.len() + b.len());
        assert(6 * x_divs * (rows - 1) + 6 * x_divs == 6 * x_divs * rows) by (nonlinear_arith);
        if plane_vertex_count(x_divs, z_divs) <= 0x1_0000_0000 {
            lemma_all_below_concat(a, b, plane_vertex_count(x_divs, z_divs));
        }
    } else {
        assert(6 * x_divs * rows == 0) by (nonlinear_arith)
            requires
                rows == 0,
        ;
    }
}

/// Law: every index of a plane names one of its vertices, provided the vertex
/// count fits the 32-bit indices.
pub proof fn lemma_plane_indices_in_range(x_divs: int, z_divs: int)
    requires
        0 <= x_divs,
        0 <= z_divs,
        plane_vertex_count(x_divs, z_divs) <= 0x1_0000_0000,
    ensures
        all_below(plane_indices(x_divs, z_divs), plane_vertex_count(x_divs, z_divs)),
{
    lemma_plane_indices(x_divs, z_divs, z_divs);
}

/// The number of vertices of a plane divided into `x_divs` by `z_divs` cells.
pub fn vertex_count(x_divs: usize, z_divs: usize) -> (n: usize)
    requires
        (x_divs + 1) * (z_divs + 1) <= usize::MAX,
    ensures
        n == plane_vertex_count(x_divs as int, z_divs as int),
{
    assert(x_divs + 1 <= usize::MAX && z_divs + 1 <= usize::MAX) by (nonlinear_arith)
        requires
            (x_divs + 1) * (z_divs + 1) <= usize::MAX,
            x_divs >= 0,
            z_divs >= 0,
    ;
    (x_divs + 1) * (z_divs + 1)
}

/// The triangle list of a plane divided into `x_divs` by `z_divs` cells: for each
/// row and each column, the two triangles of the cell. Indices are cut to 32 bits.
pub fn generate_indices(x_divs: usize, z_divs: usize) -> (indices: Vec<u32>)
    requires
        x_divs * z_divs * 6 <= usize::MAX,
    ensures
        indices@ == plane_indices(x_divs as int, z_divs as int),
        indices@.len() == x_divs * z_divs * 6,
{
    let mut indices: Vec<u32> = Vec::with_capacity(x_divs * z_divs * 6);
    let ghost x = x_divs as int;
    let mut i: usize = 0;
    while i < z_divs
        invariant
            x == x_divs as int,
            0 <= i <= z_divs,
            x_divs * z_divs * 6 <= usize::MAX,
            indices@ == plane_indices(x, i as int),
        decreases z_divs - i,
    {
        assert((i + 1) * (x + 1) <= z_divs * (x + 1)) by (nonlinear_arith)
            requires
                i < z_divs,
                x >= 0,
        ;
        assert(z_divs * (x + 1) + x <= usize::MAX || x == 0) by (nonlinear_arith)
            requires
                x * z_divs * 6 <= usize::MAX,
                z_divs >= 1,
                x >= 0,
        ;
        assert(z_divs * (x + 1) <= usize::MAX) by (nonlinear_arith)
            requires
                x * z_divs * 6 <= usize::MAX,
                z_divs >= 1,
                x >= 0,
                x == 0 ==> z_divs <= usize::MAX,
        ;
        assert((i + 1) * (x + 1) == i * (x + 1) + x + 1) by (nonlinear_arith);
        let row_start = i * (x_divs + 1);
        let next_row_start = (i + 1) * (x_divs + 1);
        let mut j: usize = 0;
        while j < x_divs
            invariant
                x == x_divs as int,
                0 <= i < z_divs,
                0 <= j <= x_divs,
                row_start == i * (x + 1),
                next_row_start == row_start + x + 1,
                next_row_start == (i + 1) * (x + 1),
                x > 0 ==> next_row_start + x <= usize::MAX,
                indices@ == plane_indices(x, i as int) + plane_row(x, i as int, j as int),
            decreases x_divs - j,
        {
            let quad = [
                row_start + j,
                next_row_start + j,
                next_row_start + j + 1,
                row_start + j,
                next_row_start + j + 1,
                row_start + j + 1,
            ];
            append_indices(&mut indices, &quad);
            assert(plane_quad(x, i as int, j as int) =~= to_u32s(quad@));
            assert(indices@ =~= plane_indices(x, i as int) + plane_row(x, i as int, j + 1));
            j = j + 1;
        }
        i = i + 1;
    }
    proof {
        lemma_plane_indices(x, z_divs as int, z_divs as int);
        assert(6 * x * z_divs == x_divs * z_divs * 6) by (nonlinear_arith)
            requires
                x == x_divs,
        ;
    }
    indices
}

} // verus!
