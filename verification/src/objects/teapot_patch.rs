//! The control points of the teapot drawn as tessellation patches: which patch
//! copies are emitted, in which order and with which reflections.
use vstd::prelude::*;
use crate::objects::teapot::{PatchBuild, TEAPOT_PATCH_COUNT, patch_reflects_x};

verus! {

/// The number of control points of one patch copy.
pub const POINTS_PER_PATCH: usize = 16;

/// The copies of one patch as control-point patches: the patch read reversed in
/// `v`, then (if asked) its reflection in x and in y read as it is, and (if both are
/// asked) its reflection in both read reversed. Normals are not involved.
pub open spec fn reflect_point_builds(patch_num: int, reflect_x: bool, reflect_y: bool) -> Seq<PatchBuild> {
    let p = patch_num as usize;
    seq![PatchBuild { patch_num: p, reverse_v: true, reflect_x: false, reflect_y: false, invert_normal: false }]
        + (if reflect_x {
        seq![PatchBuild { patch_num: p, reverse_v: false, reflect_x: true, reflect_y: false, invert_normal: false }]
    } else {
        Seq::empty()
    }) + (if reflect_y {
        seq![PatchBuild { patch_num: p, reverse_v: false, reflect_x: false, reflect_y: true, invert_normal: false }]
    } else {
        Seq::empty()
    }) + (if reflect_x && reflect_y {
        seq![PatchBuild { patch_num: p, reverse_v: true, reflect_x: true, reflect_y: true, invert_normal: false }]
    } else {
        Seq::empty()
    })
}

/// The control-point copies of patches `0 .. n`, patch after patch.
pub open spec fn point_builds_upto(n: int) -> Seq<PatchBuild>
    decreases n,
{
    if n <= 0 {
        Seq::empty()
    } else {
        point_builds_upto(n - 1) + reflect_point_builds(n - 1, patch_reflects_x(n - 1), true)
    }
}

/// Appends the control-point copies of patch `patch_num`.
fn build_patch_reflect(builds: &mut Vec<PatchBuild>, patch_num: usize, reflect_x: bool, reflect_y: bool)
    ensures
        final(builds)@ == old(builds)@ + reflect_point_builds(patch_num as int, reflect_x, reflect_y),
{
    builds.push(
        PatchBuild { patch_num, reverse_v: true, reflect_x: false, reflect_y: false, invert_normal: false },
    );
    if reflect_x {
        builds.push(
            PatchBuild { patch_num, reverse_v: false, reflect_x: true, reflect_y: false, invert_normal: false },
        );
    }
    if reflect_y {
        builds.push(
            PatchBuild { patch_num, reverse_v: false, reflect_x: false, reflect_y: true, invert_normal: false },
        );
    }
    if reflect_x && reflect_y {
        builds.push(
            PatchBuild { patch_num, reverse_v: true, reflect_x: true, reflect_y: true, invert_normal: false },
        );
    }
    assert(builds@ =~= old(builds)@ + reflect_point_builds(patch_num as int, reflect_x, reflect_y));
}

proof fn lemma_point_builds_len(n: int)
    requires
        0 <= n <= TEAPOT_PATCH_COUNT,
    ensures
        point_builds_upto(n).len() == if n <= 6 {
            4 * n
        } else {
            24 + 2 * (n - 6)
        },
    decreases n,
{
    if n > 0 {
        lemma_point_builds_len(n - 1);
    }
}

/// The control-point copies of the teapot's ten patches: the first six in four
/// copies, the last four in two, so the patch buffer holds `32 * 16` points.
pub fn generate_patch_builds() -> (builds: Vec<PatchBuild>)
    ensures
        builds@ == point_builds_upto(TEAPOT_PATCH_COUNT as int),
        builds@.len() == 32,
        builds@.len() * POINTS_PER_PATCH == 32 * 16,
{
    let mut builds: Vec<PatchBuild> = Vec::with_capacity(32);
    let mut k: usize = 0;
    while k < TEAPOT_PATCH_COUNT
        invariant
            0 <= k <= TEAPOT_PATCH_COUNT,
            builds@ == point_builds_upto(k as int),
        decreases TEAPOT_PATCH_COUNT - k,
    {
        build_patch_reflect(&mut builds, k, k < 6, true);
        k = k + 1;
    }
    proof {
        lemma_point_builds_len(TEAPOT_PATCH_COUNT as int);
    }
    builds
}

} // verus!
