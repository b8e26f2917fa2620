//! The index buffer of a sphere mesh.
use vstd::prelude::*;
use crate::objects::indices::{all_below, lemma_all_below_concat, append_indices, to_u32s};

verus! {

/// The number of vertices of a sphere: `stack_count + 1` points on each of the
/// `slice_count + 1` slices.
pub open spec fn sphere_vertex_count(slice_count: int, stack_count: int) -> int {
    (slice_count + 1) * (stack_count + 1)
}

/// The indices of face `j` of slice `i`: one triangle at either pole (face 0 and
/// face `stack_count - 1`), two triangles in between. Positions on the next
/// slice are counted from `stack_start + stack_count`.
pub open spec fn sphere_face(stack_count: int, i: int, j: int) -> Seq<u32> {
    let stack_start = i * (stack_count + 1);
    let next_stack_start = stack_start + stack_count;
    if j == 0 {
        seq![stack_start as u32, (stack_start + 1) as u32, (next_stack_start + 1) as u32]
    } else if j == stack_count - 1 {
        seq![
            (stack_start + j) as u32,
            (stack_start + j + 1) as u32,
            (next_stack_start + j) as u32,
        ]
    } else {
        seq![
            (stack_start + j) as u32,
            (stack_start + j + 1) as u32,
            (next_stack_start + j + 1) as u32,
            (next_stack_start + j) as u32,
            (stack_start + j) as u32,
            (next_stack_start + j + 1) as u32,
        ]
    }
}

/// The first `faces` faces of slice `i`, in order.
pub open spec fn sphere_slice(stack_count: int, i: int, faces: int) -> Seq<u32>
    decreases faces,
{
    if faces <= 0 {
        Seq::empty()
    } else {
        sphere_slice(stack_count, i, faces - 1) + sphere_face(stack_count, i, faces - 1)
    }
}

/// The faces of the first `slices` slices, slice after slice.
pub open spec fn sphere_indices(stack_count: int, slices: int) -> Seq<u32>
    decreases slices,
{
    if slices <= 0 {
        Seq::empty()
    } else {
        sphere_indices(stack_count, slices - 1) + sphere_slice(stack_count, slices - 1, stack_count)
    }
}

proof fn lemma_sphere_slice(slice_count: int, stack_count: int, i: int, faces: int)
    requires
        stack_count >= 2,
        0 <= faces <= stack_count,
        0 <= i < slice_count,
    ensures
        1 <= faces < stack_count ==> sphere_slice(stack_count, i, faces).len() == 6 * faces - 3,
        faces == stack_count ==> sphere_slice(stack_count, i, faces).len() == 6 * (stack_count - 1),
        sphere_vertex_count(slice_count, stack_count) <= 0x1_0000_0000 ==> all_below(
            sphere_slice(stack_count, i, faces),
            sphere_vertex_count(slice_count, stack_count),
        ),
    decreases faces,
{
    if faces > 0 {
        lemma_sphere_slice(slice_count, stack_count, i, faces - 1);
        let j = faces - 1;
        let bound = sphere_vertex_count(slice_count, stack_count);
        let ss = i * (stack_count + 1);
        assert(ss >= 0) by (nonlinear_arith)
            requires
                i >= 0,
                stack_count >= 0,
                ss == i * (stack_count + 1),
        ;
        assert(ss + 2 * stack_count <= bound) by (nonlinear_arith)
            requires
                i + 1 <= slice_count,
                stack_count >= 0,
                ss == i * (stack_count + 1),
                bound == (slice_count + 1) * (stack_count + 1),
        ;
        let f = sphere_face(stack_count, i, j);
        if bound <= 0x1_0000_0000 {
            assert(all_below(f, bound));
            lemma_all_below_concat(sphere_slice(stack_count, i, j), f, bound);
        }
    }
}

proof fn lemma_sphere_indices(slice_count: int, stack_count: int, slices: int)
    requires
        stack_count >= 2,
        0 <= slices <= slice_count,
    ensures
        sphere_indices(stack_count, slices).len() == slices * 2 * (stack_count - 1) * 3,
        sphere_vertex_count(slice_count, stack_count) <= 0x1_0000_0000 ==> all_below(
            sphere_indices(stack_count, slices),
            sphere_vertex_count(slice_count, stack_count),
        ),
    decreases slices,
{
    if slices > 0 {
        lemma_sphere_indices(slice_count, stack_count, slices - 1);
        lemma_sphere_slice(slice_count, stack_count, slices - 1, stack_count);
        let a = sphere_indices(stack_count, slices - 1);
        let b = sphere_slice(stack_count, slices - 1, stack_count);
        assert((a + b).len() == a.len() + b.len());
        assert((slices - 1) * 2 * (stack_count - 1) * 3 + 6 * (stack_count - 1) == slices * 2 * (
        stack_count - 1) * 3) by (nonlinear_arith);
        if sphere_vertex_count(slice_count, stack_count) <= 0x1_0000_0000 {
            lemma_all_below_concat(a, b, sphere_vertex_count(slice_count, stack_count));
        }
    } else {
        assert(slices * 2 * (stack_count - 1) * 3 == 0) by (nonlinear_arith)
            requires
                slices == 0,
        ;
    }
}

/// Law: every index of a sphere names one of its vertices, provided the vertex
/// count fits the 32-bit indices.
pub proof fn lemma_sphere_indices_in_range(slice_count: int, stack_count: int)
    requires
        0 <= slice_count,
        stack_count >= 2,
        sphere_vertex_count(slice_count, stack_count) <= 0x1_0000_0000,
    ensures
        all_below(
            sphere_indices(stack_count, slice_count),
            sphere_vertex_count(slice_count, stack_count),
        ),
{
    lemma_sphere_indices(slice_count, stack_count, slice_count);
}

/// The number of vertices of a sphere with `slice_count` slices and
/// `stack_count` stacks.
pub fn vertex_count(slice_count: usize, stack_count: usize) -> (n: usize)
    requires
        (slice_count + 1) * (stack_count + 1) <= usize::MAX,
    ensures
        n == sphere_vertex_count(slice_count as int, stack_count as int),
{
    assert(slice_count + 1 <= usize::MAX && stack_count + 1 <= usize::MAX) by (nonlinear_arith)
        requires
            (slice_count + 1) * (stack_count + 1) <= usize::MAX,
            slice_count >= 0,
            stack_count >= 0,
    ;
    (slice_count + 1) * (stack_count + 1)
}

/// The triangle list of a sphere with `slice_count` slices and `stack_count`
/// stacks: for each slice, its faces from one pole to the other. Indices are cut
/// to 32 bits. A sphere with slices has at least two stacks.
pub fn generate_indices(slice_count: usize, stack_count: usize) -> (indices: Vec<u32>)
    requires
        stack_count >= 1,
        slice_count > 0 ==> stack_count >= 2,
        slice_count * 2 * (stack_count - 1) * 3 <= usize::MAX,
    ensures
        indices@ == sphere_indices(stack_count as int, slice_count as int),
        indices@.len() == slice_count * 2 * (stack_count - 1) * 3,
{
    assert(slice_count * 2 <= usize::MAX) by (nonlinear_arith)
        requires
            slice_count > 0 ==> stack_count >= 2,
            slice_count * 2 * (stack_count - 1) * 3 <= usize::MAX,
    ;
    let indices_count = (slice_count * 2) * (stack_count - 1) * 3;
    let mut indices: Vec<u32> = Vec::with_capacity(indices_count);
    let ghost st = stack_count as int;
    let mut i: usize = 0;
    while i < slice_count
        invariant
            st == stack_count as int,
            0 <= i <= slice_count,
            stack_count >= 1,
            slice_count > 0 ==> stack_count >= 2,
            slice_count * 2 * (stack_count - 1) * 3 <= usize::MAX,
            indices@ == sphere_indices(st, i as int),
        decreases slice_count - i,
    {
        assert(i * (st + 1) + 2 * st <= usize::MAX) by (nonlinear_arith)
            requires
                i < slice_count,
                st >= 2,
                slice_count * 2 * (st - 1) * 3 <= usize::MAX,
        ;
        assert(i * (st + 1) >= 0) by (nonlinear_arith)
            requires
                i >= 0,
                st >= 0,
        ;
        let stack_start = i * (stack_count + 1);
        let next_stack_start = stack_start + stack_count;
        let mut j: usize = 0;
        while j < stack_count
            invariant
                st == stack_count as int,
                st >= 2,
                0 <= i < slice_count,
                0 <= j <= stack_count,
                stack_start == i * (st + 1),
                next_stack_start == stack_start + st,
                stack_start + 2 * st <= usize::MAX,
                indices@ == sphere_indices(st, i as int) + sphere_slice(st, i as int, j as int),
            decreases stack_count - j,
        {
            if j == 0 {
                let face = [stack_start, stack_start + 1, next_stack_start + 1];
                append_indices(&mut indices, &face);
                assert(sphere_face(st, i as int, j as int) =~= to_u32s(face@));
            } else if j == stack_count - 1 {
                let face = [stack_start + j, stack_start + j + 1, next_stack_start + j];
                append_indices(&mut indices, &face);
                assert(sphere_face(st, i as int, j as int) =~= to_u32s(face@));
            } else {
                let face = [
                    stack_start + j,
                    stack_start + j + 1,
                    next_stack_start + j + 1,
                    next_stack_start + j,
                    stack_start + j,
                    next_stack_start + j + 1,
                ];
                append_indices(&mut indices, &face);
                assert(sphere_face(st, i as int, j as int) =~= to_u32s(face@));
            }
            assert(indices@ =~= sphere_indices(st, i as int) + sphere_slice(st, i as int, j + 1));
            j = j + 1;
        }
        i = i + 1;
    }
    proof {
        if slice_count > 0 {
            lemma_sphere_indices(slice_count as int, st, slice_count as int);
        }
    }
    indices
}

} // verus!
