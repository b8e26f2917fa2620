//! Helpers shared by the index buffers of the generated meshes.
use vstd::prelude::*;

verus! {

/// Every element of `s` is below `bound`.
pub open spec fn all_below(s: Seq<u32>, bound: int) -> bool {
    forall|k: int| 0 <= k < s.len() ==> #[trigger] s[k] < bound
}

/// `values` cut to 32 bits, as `as u32` does.
pub open spec fn to_u32s(values: Seq<usize>) -> Seq<u32> {
    values.map_values(|x: usize| x as u32)
}

pub proof fn lemma_all_below_concat(a: Seq<u32>, b: Seq<u32>, bound: int)
    requires
        all_below(a, bound),
        all_below(b, bound),
    ensures
        all_below(a + b, bound),
{
    assert forall|k: int| 0 <= k < (a + b).len() implies #[trigger] (a + b)[k] < bound by {
        if k < a.len() {
            assert((a + b)[k] == a[k]);
        } else {
            assert((a + b)[k] == b[k - a.len()]);
        }
    }
}

/// Appends `values`, each cut to 32 bits.
pub fn append_indices(indices: &mut Vec<u32>, values: &[usize])
    ensures
        final(indices)@ == old(indices)@ + to_u32s(values@),
{
    let ghost before = old(indices)@;
    let mut i: usize = 0;
    while i < values.len()
        invariant
            0 <= i <= values@.len(),
            indices@ == before + to_u32s(values@).take(i as int),
        decreases values@.len() - i,
    {
        indices.push(values[i] as u32);
        assert(to_u32s(values@).take(i + 1) =~= to_u32s(values@).take(i as int).push(values[i as int] as u32));
        i = i + 1;
    }
    assert(to_u32s(values@).take(values@.len() as int) =~= to_u32s(values@));
}

} // verus!
