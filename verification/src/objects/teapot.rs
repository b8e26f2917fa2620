//! The structure of the Utah teapot mesh: which Bezier patches are built, in which
//! order and with which reflections, how control points are read from a patch,
//! and the triangle list over the evaluated grids.
use vstd::prelude::*;
use crate::objects::indices::{all_below, lemma_all_below_concat, append_indices, to_u32s};

verus! {

/// The number of patches in the teapot data.
pub const TEAPOT_PATCH_COUNT: usize = 10;

/// One evaluated copy of a patch: the patch, whether its control points are read
/// with `v` reversed, the reflection applied (in x, in y, in both or none), and
/// whether the normals are turned around.
#[derive(Clone, Copy, Debug, PartialEq, Eq)]
pub struct PatchBuild {
    pub patch_num: usize,
    pub reverse_v: bool,
    pub reflect_x: bool,
    pub reflect_y: bool,
    pub invert_normal: bool,
}

/// The copies of one patch: the patch itself, then its reflection in x (if asked),
/// in y (if asked), and in both (if both are asked). The single reflections read
/// the patch reversed in `v`, which keeps the winding; the unreflected and doubly
/// reflected copies turn their normals around.
pub open spec fn reflect_builds(patch_num: int, reflect_x: bool, reflect_y: bool) -> Seq<PatchBuild> {
    let p = patch_num as usize;
    seq![PatchBuild { patch_num: p, reverse_v: false, reflect_x: false, reflect_y: false, invert_normal: true }]
        + (if reflect_x {
        seq![PatchBuild { patch_num: p, reverse_v: true, reflect_x: true, reflect_y: false, invert_normal: false }]
    } else {
        Seq::empty()
    }) + (if reflect_y {
        seq![PatchBuild { patch_num: p, reverse_v: true, reflect_x: false, reflect_y: true, invert_normal: false }]
    } else {
        Seq::empty()
    }) + (if reflect_x && reflect_y {
        seq![PatchBuild { patch_num: p, reverse_v: false, reflect_x: true, reflect_y: true, invert_normal: true }]
    } else {
        Seq::empty()
    })
}

/// Whether patch `k` is reflected in x: the rim, body, lid and bottom (patches 0
/// to 5) are; the handle and spout (6 to 9) only in y.
pub open spec fn patch_reflects_x(k: int) -> bool {
    k < 6
}

/// The copies of patches `0 .. n`, patch after patch.
pub open spec fn teapot_builds_upto(n: int) -> Seq<PatchBuild>
    decreases n,
{
    if n <= 0 {
        Seq::empty()
    } else {
        teapot_builds_upto(n - 1) + reflect_builds(n - 1, patch_reflects_x(n - 1), true)
    }
}

/// All copies that make up the teapot.
pub open spec fn teapot_builds() -> Seq<PatchBuild> {
    teapot_builds_upto(TEAPOT_PATCH_COUNT as int)
}

/// Appends the copies of patch `patch_num`.
fn build_patch_reflect(builds: &mut Vec<PatchBuild>, patch_num: usize, reflect_x: bool, reflect_y: bool)
    ensures
        final(builds)@ == old(builds)@ + reflect_builds(patch_num as int, reflect_x, reflect_y),
{
    builds.push(
        PatchBuild { patch_num, reverse_v: false, reflect_x: false, reflect_y: false, invert_normal: true },
    );
    if reflect_x {
        builds.push(
            PatchBuild { patch_num, reverse_v: true, reflect_x: true, reflect_y: false, invert_normal: false },
        );
    }
    if reflect_y {
        builds.push(
            PatchBuild { patch_num, reverse_v: true, reflect_x: false, reflect_y: true, invert_normal: false },
        );
    }
    if reflect_x && reflect_y {
        builds.push(
            PatchBuild { patch_num, reverse_v: false, reflect_x: true, reflect_y: true, invert_normal: true },
        );
    }
    assert(builds@ =~= old(builds)@ + reflect_builds(patch_num as int, reflect_x, reflect_y));
}

/// The copies of the teapot's patches in the order their vertices are generated:
/// the rim (patch 0), the body (1, 2), the lid (3, 4) and the bottom (5), each in
/// four copies, then the handle (6, 7) and the spout (8, 9), each in two.
pub fn generate_patch_builds() -> (builds: Vec<PatchBuild>)
    ensures
        builds@ == teapot_builds(),
        builds@.len() == 32,
{
    let mut builds: Vec<PatchBuild> = Vec::with_capacity(32);
    let mut k: usize = 0;
    while k < TEAPOT_PATCH_COUNT
        invariant
            0 <= k <= TEAPOT_PATCH_COUNT,
            builds@ == teapot_builds_upto(k as int),
        decreases TEAPOT_PATCH_COUNT - k,
    {
        build_patch_reflect(&mut builds, k, k < 6, true);
        k = k + 1;
    }
    proof {
        lemma_teapot_builds();
    }
    builds
}

proof fn lemma_teapot_builds_upto(n: int)
    requires
        0 <= n <= TEAPOT_PATCH_COUNT,
    ensures
        teapot_builds_upto(n).len() == if n <= 6 {
            4 * n
        } else {
            24 + 2 * (n - 6)
        },
        forall|k: int|
            0 <= k < teapot_builds_upto(n).len() ==> (#[trigger] teapot_builds_upto(n)[k]).patch_num == if k
                < 24 {
                k / 4
            } else {
                6 + (k - 24) / 2
            },
    decreases n,
{
    if n > 0 {
        lemma_teapot_builds_upto(n - 1);
        let a = teapot_builds_upto(n - 1);
        let b = reflect_builds(n - 1, patch_reflects_x(n - 1), true);
        assert forall|k: int| 0 <= k < (a + b).len() implies (#[trigger] (a + b)[k]).patch_num == if k
            < 24 {
            k / 4
        } else {
            6 + (k - 24) / 2
        } by {
            if k < a.len() {
                assert((a + b)[k] == a[k]);
            } else {
                assert((a + b)[k] == b[k - a.len()]);
            }
        }
    }
}

/// Law: there are 32 copies, four of each of the patches 0 to 5 and two of each
/// of the patches 6 to 9, in the order of the patches.
pub proof fn lemma_teapot_builds()
    ensures
        teapot_builds().len() == 32,
        forall|k: int|
            0 <= k < 32 ==> (#[trigger] teapot_builds()[k]).patch_num == if k < 24 {
                k / 4
            } else {
                6 + (k - 24) / 2
            },
{
    lemma_teapot_builds_upto(TEAPOT_PATCH_COUNT as int);
}

/// Law: the copies of the lid (patches 3 and 4) are exactly the copies 12 to 19,
/// so the lid's vertices are those from `12 * (grid + 1)^2` to `20 * (grid + 1)^2`,
/// the range that `lid_vertex_range` gives.
pub proof fn lemma_lid_builds()
    ensures
        forall|k: int|
            0 <= k < 32 ==> (((#[trigger] teapot_builds()[k]).patch_num == 3
                || teapot_builds()[k].patch_num == 4) <==> 12 <= k < 20),
{
    lemma_teapot_builds();
    assert forall|k: int| 0 <= k < 32 implies ((#[trigger] teapot_builds()[k]).patch_num == 3
        || teapot_builds()[k].patch_num == 4) <==> 12 <= k < 20 by {
        if k < 12 {
            assert(k / 4 < 3);
        } else if k < 16 {
            assert(k / 4 == 3);
        } else if k < 20 {
            assert(k / 4 == 4);
        } else if k < 24 {
            assert(k / 4 == 5);
        } else {
            assert((k - 24) / 2 >= 0);
        }
    }
}

/// The copies of patches `0 .. n` keep their normals pointing out: a copy read
/// with `v` reversed is reflected exactly once, and a copy turns its normals
/// around exactly when `v` is not reversed.
proof fn lemma_teapot_builds_upto_orientation(n: int)
    requires
        0 <= n,
    ensures
        forall|k: int|
            0 <= k < teapot_builds_upto(n).len() ==> {
                let b = #[trigger] teapot_builds_upto(n)[k];
                &&& b.reverse_v == (b.reflect_x != b.reflect_y)
                &&& b.invert_normal == !b.reverse_v
            },
    decreases n,
{
    if n > 0 {
        lemma_teapot_builds_upto_orientation(n - 1);
        let a = teapot_builds_upto(n - 1);
        let b = reflect_builds(n - 1, patch_reflects_x(n - 1), true);
        assert forall|k: int| 0 <= k < (a + b).len() implies {
            let c = #[trigger] (a + b)[k];
            &&& c.reverse_v == (c.reflect_x != c.reflect_y)
            &&& c.invert_normal == !c.reverse_v
        } by {
            if k < a.len() {
                assert((a + b)[k] == a[k]);
            } else {
                assert((a + b)[k] == b[k - a.len()]);
            }
        }
    }
}

/// Law: every copy of a patch keeps the teapot's outward normals. A reflection
/// turns the surface inside out, and reading the patch with `v` reversed turns it
/// back: so a copy read with `v` reversed is the one reflected in exactly one
/// axis, and a copy turns its normals around exactly when `v` is not reversed
/// (the patch itself and its double reflection).
pub proof fn lemma_teapot_builds_orientation()
    ensures
        forall|k: int|
            0 <= k < teapot_builds().len() ==> {
                let b = #[trigger] teapot_builds()[k];
                &&& b.reverse_v == (b.reflect_x != b.reflect_y)
                &&& b.invert_normal == !b.reverse_v
                &&& b.invert_normal == (b.reflect_x == b.reflect_y)
            },
{
    lemma_teapot_builds_upto_orientation(TEAPOT_PATCH_COUNT as int);
}

/// The number of vertices in one evaluated copy of a patch.
pub open spec fn patch_vertex_count(grid: int) -> int {
    (grid + 1) * (grid + 1)
}

/// The number of vertices of the teapot.
pub open spec fn teapot_vertex_count(grid: int) -> int {
    32 * patch_vertex_count(grid)
}

/// The number of vertices of the teapot built with `grid` by `grid` cells per
/// patch copy.
pub fn vertex_count(grid: usize) -> (n: usize)
    requires
        32 * (grid + 1) * (grid + 1) <= usize::MAX,
    ensures
        n == teapot_vertex_count(grid as int),
{
    assert(grid + 1 <= usize::MAX && 32 * (grid + 1) <= usize::MAX) by (nonlinear_arith)
        requires
            32 * (grid + 1) * (grid + 1) <= usize::MAX,
            grid >= 0,
    ;
    assert(32 * (grid + 1) * (grid + 1) == 32 * ((grid + 1) * (grid + 1))) by (nonlinear_arith);
    32 * (grid + 1) * (grid + 1)
}

/// The range of vertices that belong to the lid: the copies 12 to 19.
pub fn lid_vertex_range(grid: usize) -> (range: (usize, usize))
    requires
        32 * (grid + 1) * (grid + 1) <= usize::MAX,
    ensures
        range.0 == 12 * patch_vertex_count(grid as int),
        range.1 == 20 * patch_vertex_count(grid as int),
{
    assert(grid + 1 <= 32 * (grid + 1) * (grid + 1)) by (nonlinear_arith)
        requires
            grid >= 0,
    ;
    assert(20 * (grid + 1) <= 20 * (grid + 1) * (grid + 1)) by (nonlinear_arith)
        requires
            grid >= 0,
    ;
    assert(20 * (grid + 1) * (grid + 1) <= 32 * (grid + 1) * (grid + 1)) by (nonlinear_arith);
    assert(12 * (grid + 1) * (grid + 1) <= 32 * (grid + 1) * (grid + 1)) by (nonlinear_arith);
    assert(20 * (grid + 1) * (grid + 1) == 20 * patch_vertex_count(grid as int)) by (nonlinear_arith);
    assert(12 * (grid + 1) * (grid + 1) == 12 * patch_vertex_count(grid as int)) by (nonlinear_arith);
    (12 * (grid + 1) * (grid + 1), 20 * (grid + 1) * (grid + 1))
}

/// The slot in a patch's list of sixteen control points that point `(u, v)` of
/// the 4 by 4 control grid comes from; with `reverse_v` the `v` direction is read
/// backwards.
pub open spec fn patch_slot_spec(u: int, v: int, reverse_v: bool) -> int {
    if reverse_v {
        u * 4 + (3 - v)
    } else {
        u * 4 + v
    }
}

/// The slot of control point `(u, v)`.
pub fn patch_slot(u: usize, v: usize, reverse_v: bool) -> (slot: usize)
    requires
        u < 4,
        v < 4,
    ensures
        slot == patch_slot_spec(u as int, v as int, reverse_v),
{
    if reverse_v {
        u * 4 + (3 - v)
    } else {
        u * 4 + v
    }
}

/// Law: reading a patch, reversed or not, takes each of its sixteen control
/// points exactly once.
pub proof fn lemma_patch_slots_bijective(reverse_v: bool)
    ensures
        forall|u: int, v: int|
            0 <= u < 4 && 0 <= v < 4 ==> 0 <= #[trigger] patch_slot_spec(u, v, reverse_v) < 16,
        forall|u1: int, v1: int, u2: int, v2: int|
            0 <= u1 < 4 && 0 <= v1 < 4 && 0 <= u2 < 4 && 0 <= v2 < 4 && #[trigger] patch_slot_spec(
                u1,
                v1,
                reverse_v,
            ) == #[trigger] patch_slot_spec(u2, v2, reverse_v) ==> u1 == u2 && v1 == v2,
{
}

/// The six indices (two triangles) of grid cell `(i, j)` of a patch copy whose
/// vertices start at `base`, row `i` holding `grid + 1` vertices.
pub open spec fn patch_quad(grid: int, base: int, i: int, j: int) -> Seq<u32> {
    let i_start = i * (grid + 1) + base;
    let next_i_start = (i + 1) * (grid + 1) + base;
    seq![
        (i_start + j) as u32,
        (next_i_start + j + 1) as u32,
        (next_i_start + j) as u32,
        (i_start + j) as u32,
        (i_start + j + 1) as u32,
        (next_i_start + j + 1) as u32,
    ]
}

/// The cells of row `i` in its first `cols` columns.
pub open spec fn patch_row(grid: int, base: int, i: int, cols: int) -> Seq<u32>
    decreases cols,
{
    if cols <= 0 {
        Seq::empty()
    } else {
        patch_row(grid, base, i, cols - 1) + patch_quad(grid, base, i, cols - 1)
    }
}

/// The cells of the first `rows` rows of a patch copy.
pub open spec fn patch_indices(grid: int, base: int, rows: int) -> Seq<u32>
    decreases rows,
{
    if rows <= 0 {
        Seq::empty()
    } else {
        patch_indices(grid, base, rows - 1) + patch_row(grid, base, rows - 1, grid)
    }
}

/// The triangles of the first `n` patch copies, copy `b` starting at vertex
/// `b * (grid + 1)^2`.
pub open spec fn teapot_indices_upto(grid: int, n: int) -> Seq<u32>
    decreases n,
{
    if n <= 0 {
        Seq::empty()
    } else {
        teapot_indices_upto(grid, n - 1) + patch_indices(grid, (n - 1) * patch_vertex_count(grid), grid)
    }
}

/// The triangle list of the teapot.
pub open spec fn teapot_indices(grid: int) -> Seq<u32> {
    teapot_indices_upto(grid, 32)
}

/// The cells of row `i` in its first `cols` columns are `6 * cols` indices, all
/// below `bound` where the row lies in a patch copy starting at `base` and the
/// copy's vertices lie below `bound`.
proof fn lemma_patch_row(grid: int, base: int, i: int, cols: int, bound: int)
    requires
        0 <= cols,
    ensures
        patch_row(grid, base, i, cols).len() == 6 * cols,
        0 <= grid && 0 <= base && 0 <= i < grid && cols <= grid && base + patch_vertex_count(grid)
            <= bound <= 0x1_0000_0000 ==> all_below(patch_row(grid, base, i, cols), bound),
    decreases cols,
{
    if cols > 0 {
        lemma_patch_row(grid, base, i, cols - 1, bound);
        let j = cols - 1;
        if 0 <= grid && 0 <= base && 0 <= i < grid && cols <= grid && base + patch_vertex_count(grid)
            <= bound <= 0x1_0000_0000 {
            assert((i + 2) * (grid + 1) <= patch_vertex_count(grid)) by (nonlinear_arith)
                requires
                    i + 2 <= grid + 1,
                    grid >= 0,
            ;
            assert((i + 1) * (grid + 1) == i * (grid + 1) + grid + 1) by (nonlinear_arith);
            assert((i + 2) * (grid + 1) == i * (grid + 1) + 2 * (grid + 1)) by (nonlinear_arith);
            assert(i * (grid + 1) >= 0) by (nonlinear_arith)
                requires
                    i >= 0,
                    grid >= 0,
            ;
            lemma_all_below_concat(patch_row(grid, base, i, j), patch_quad(grid, base, i, j), bound);
        }
    }
}

/// The cells of the first `rows` rows of a patch copy are `6 * grid * rows`
/// indices, all below `bound` where the copy starts at `base` and its vertices
/// lie below `bound`.
proof fn lemma_patch_indices(grid: int, base: int, rows: int, bound: int)
    requires
        0 <= rows,
        0 <= grid,
    ensures
        patch_indices(grid, base, rows).len() == 6 * grid * rows,
        0 <= base && rows <= grid && base + patch_vertex_count(grid) <= bound <= 0x1_0000_0000
            ==> all_below(patch_indices(grid, base, rows), bound),
    decreases rows,
{
    if rows > 0 {
        lemma_patch_indices(grid, base, rows - 1, bound);
        lemma_patch_row(grid, base, rows - 1, grid, bound);
        let a = patch_indices(grid, base, rows - 1);
        let b = patch_row(grid, base, rows - 1, grid);
        assert((a + b).len() == a.len() + b.len());
        assert(6 * grid * (rows - 1) + 6 * grid == 6 * grid * rows) by (nonlinear_arith);
        if 0 <= base && rows <= grid && base + patch_vertex_count(grid) <= bound <= 0x1_0000_0000 {
            lemma_all_below_concat(a, b, bound);
        }
    } else {
        assert(6 * grid * rows == 0) by (nonlinear_arith)
            requires
                rows == 0,
        ;
    }
}

proof fn lemma_teapot_indices_upto(grid: int, n: int)
    requires
        0 <= grid,
        0 <= n <= 32,
    ensures
        teapot_indices_upto(grid, n).len() == n * grid * grid * 6,
        teapot_vertex_count(grid) <= 0x1_0000_0000 ==> all_below(
            teapot_indices_upto(grid, n),
            teapot_vertex_count(grid),
        ),
    decreases n,
{
    if n > 0 {
        lemma_teapot_indices_upto(grid, n - 1);
        let base = (n - 1) * patch_vertex_count(grid);
        lemma_patch_indices(grid, base, grid, teapot_vertex_count(grid));
        let a = teapot_indices_upto(grid, n - 1);
        let b = patch_indices(grid, base, grid);
        assert((a + b).len() == a.len() + b.len());
        assert((n - 1) * grid * grid * 6 + 6 * grid * grid == n * grid * grid * 6) by (nonlinear_arith);
        if teapot_vertex_count(grid) <= 0x1_0000_0000 {
            assert(base >= 0 && base + patch_vertex_count(grid) <= teapot_vertex_count(grid)) by (
            nonlinear_arith)
                requires
                    1 <= n <= 32,
                    base == (n - 1) * patch_vertex_count(grid),
                    patch_vertex_count(grid) >= 0,
                    teapot_vertex_count(grid) == 32 * patch_vertex_count(grid),
            ;
            lemma_all_below_concat(a, b, teapot_vertex_count(grid));
        }
    } else {
        assert(n * grid * grid * 6 == 0) by (nonlinear_arith)
            requires
                n == 0,
        ;
    }
}

/// Law: the teapot has `32 * grid * grid * 6` indices and every one names one of
/// its `32 * (grid + 1)^2` vertices, provided that count fits the 32-bit indices.
pub proof fn lemma_teapot_indices(grid: int)
    requires
        0 <= grid,
    ensures
        teapot_indices(grid).len() == 32 * grid * grid * 6,
        teapot_vertex_count(grid) <= 0x1_0000_0000 ==> all_below(
            teapot_indices(grid),
            teapot_vertex_count(grid),
        ),
{
    lemma_teapot_indices_upto(grid, 32);
}

/// Appends the triangles of one patch copy whose vertices start at `base`.
fn build_patch_indices(indices: &mut Vec<u32>, grid: usize, base: usize)
    requires
        base + (grid + 1) * (grid + 1) <= usize::MAX,
    ensures
        final(indices)@ == old(indices)@ + patch_indices(grid as int, base as int, grid as int),
{
    let ghost g = grid as int;
    let ghost start = old(indices)@;
    let mut i: usize = 0;
    while i < grid
        invariant
            g == grid as int,
            0 <= i <= grid,
            base + (grid + 1) * (grid + 1) <= usize::MAX,
            indices@ == start + patch_indices(g, base as int, i as int),
        decreases grid - i,
    {
        assert((i + 2) * (g + 1) <= (g + 1) * (g + 1)) by (nonlinear_arith)
            requires
                i < g,
                g >= 0,
        ;
        assert((i + 1) * (g + 1) == i * (g + 1) + g + 1) by (nonlinear_arith);
        assert((i + 2) * (g + 1) == i * (g + 1) + 2 * (g + 1)) by (nonlinear_arith);
        assert(i * (g + 1) >= 0) by (nonlinear_arith)
            requires
                i >= 0,
                g >= 0,
        ;
        let i_start = i * (grid + 1) + base;
        let next_i_start = (i + 1) * (grid + 1) + base;
        let mut j: usize = 0;
        while j < grid
            invariant
                g == grid as int,
                0 <= i < grid,
                0 <= j <= grid,
                i_start == i * (g + 1) + base,
                next_i_start == (i + 1) * (g + 1) + base,
                i_start + g + 1 == next_i_start,
                next_i_start + g + 1 <= usize::MAX,
                indices@ == start + patch_indices(g, base as int, i as int) + patch_row(
                    g,
                    base as int,
                    i as int,
                    j as int,
                ),
            decreases grid - j,
        {
            let quad = [
                i_start + j,
                next_i_start + j + 1,
                next_i_start + j,
                i_start + j,
                i_start + j + 1,
                next_i_start + j + 1,
            ];
            append_indices(indices, &quad);
            assert(patch_quad(g, base as int, i as int, j as int) =~= to_u32s(quad@));
            assert(indices@ =~= start + patch_indices(g, base as int, i as int) + patch_row(
                g,
                base as int,
                i as int,
                j + 1,
            ));
            j = j + 1;
        }
        assert(indices@ =~= start + patch_indices(g, base as int, i + 1));
        i = i + 1;
    }
}

/// The triangle list of the teapot built with `grid` by `grid` cells per patch
/// copy: the cells of each copy in the order of `generate_patch_builds`, copy `b`
/// owning the vertices from `b * (grid + 1)^2` on. Indices are cut to 32 bits.
pub fn generate_indices(grid: usize) -> (indices: Vec<u32>)
    requires
        32 * (grid + 1) * (grid + 1) <= usize::MAX,
        32 * grid * grid * 6 <= usize::MAX,
    ensures
        indices@ == teapot_indices(grid as int),
        indices@.len() == 32 * grid * grid * 6,
{
    assert(32 * grid <= usize::MAX && 32 * grid * grid <= usize::MAX) by (nonlinear_arith)
        requires
            32 * (grid + 1) * (grid + 1) <= usize::MAX,
            grid >= 0,
    ;
    assert(grid + 1 <= usize::MAX && (grid + 1) * (grid + 1) <= usize::MAX) by (nonlinear_arith)
        requires
            32 * (grid + 1) * (grid + 1) <= usize::MAX,
            grid >= 0,
    ;
    let mut indices: Vec<u32> = Vec::with_capacity(32 * grid * grid * 6);
    let per_patch = (grid + 1) * (grid + 1);
    let ghost g = grid as int;
    let mut b: usize = 0;
    while b < 32
        invariant
            g == grid as int,
            0 <= b <= 32,
            per_patch == patch_vertex_count(g),
            32 * (grid + 1) * (grid + 1) <= usize::MAX,
            indices@ == teapot_indices_upto(g, b as int),
        decreases 32 - b,
    {
        assert((b + 1) * per_patch <= 32 * per_patch) by (nonlinear_arith)
            requires
                b < 32,
                per_patch >= 0,
        ;
        assert(32 * per_patch == 32 * (grid + 1) * (grid + 1)) by (nonlinear_arith)
            requires
                per_patch == (grid + 1) * (grid + 1),
        ;
        assert((b + 1) * per_patch == b * per_patch + per_patch) by (nonlinear_arith);
        assert(b * per_patch >= 0) by (nonlinear_arith)
            requires
                b >= 0,
                per_patch >= 0,
        ;
        let base = b * per_patch;
        build_patch_indices(&mut indices, grid, base);
        b = b + 1;
    }
    proof {
        lemma_teapot_indices(g);
    }
    indices
}

} // verus!
