//! The index buffer of a torus mesh.
use vstd::prelude::*;
use crate::objects::indices::{all_below, lemma_all_below_concat, append_indices, to_u32s};

verus! {

/// The number of vertices of a torus: one per side on each ring, with one
/// extra ring that repeats the first.
pub open spec fn torus_vertex_count(n_sides: int, n_rings: int) -> int {
    n_sides * (n_rings + 1)
}

/// The six indices (two triangles) of the quad between `ring` and the next ring,
/// from `side` to the next side, which wraps around to side 0.
pub open spec fn torus_quad(n_sides: int, ring: int, side: int) -> Seq<u32> {
    let ring_start = ring * n_sides;
    let next_ring_start = (ring + 1) * n_sides;
    let next_side = (side + 1) % n_sides;
    seq![
        (ring_start + side) as u32,
        (next_ring_start + side) as u32,
        (next_ring_start + next_side) as u32,
        (ring_start + side) as u32,
        (next_ring_start + next_side) as u32,
        (ring_start + next_side) as u32,
    ]
}

/// The quads of `ring` for its first `sides` sides, in order.
pub open spec fn torus_ring(n_sides: int, ring: int, sides: int) -> Seq<u32>
    decreases sides,
{
    if sides <= 0 {
        Seq::empty()
    } else {
        torus_ring(n_sides, ring, sides - 1) + torus_quad(n_sides, ring, sides - 1)
    }
}

/// The quads of the first `rings` rings, ring after ring.
pub open spec fn torus_indices(n_sides: int, rings: int) -> Seq<u32>
    decreases rings,
{
    if rings <= 0 {
        Seq::empty()
    } else {
        torus_indices(n_sides, rings - 1) + torus_ring(n_sides, rings - 1, n_sides)
    }
}

/// The quads of the first `sides` sides of a ring are `6 * sides` indices, all
/// below the vertex count where the ring and the sides are the torus's own.
proof fn lemma_torus_ring(n_sides: int, n_rings: int, ring: int, sides: int)
    requires
        0 <= sides,
    ensures
        torus_ring(n_sides, ring, sides).len() == 6 * sides,
        sides <= n_sides && 0 <= ring < n_rings && torus_vertex_count(n_sides, n_rings) <= 0x1_0000_0000
            ==> all_below(torus_ring(n_sides, ring, sides), torus_vertex_count(n_sides, n_rings)),
    decreases sides,
{
    if sides > 0 {
        lemma_torus_ring(n_sides, n_rings, ring, sides - 1);
        let side = sides - 1;
        let bound = torus_vertex_count(n_sides, n_rings);
        let q = torus_quad(n_sides, ring, side);
        assert(torus_ring(n_sides, ring, sides) == torus_ring(n_sides, ring, side) + q);
        if sides <= n_sides && 0 <= ring < n_rings && bound <= 0x1_0000_0000 {
            assert((ring + 2) * n_sides <= bound) by (nonlinear_arith)
                requires
                    ring + 2 <= n_rings + 1,
                    n_sides >= 0,
                    bound == n_sides * (n_rings + 1),
            ;
            assert((ring + 1) * n_sides == ring * n_sides + n_sides) by (nonlinear_arith);
            assert((ring + 2) * n_sides == ring * n_sides + 2 * n_sides) by (nonlinear_arith);
            assert(ring * n_sides >= 0) by (nonlinear_arith)
                requires
                    ring >= 0,
                    n_sides >= 0,
            ;
            let next_side = (side + 1) % n_sides;
            assert(0 <= next_side < n_sides);
            assert(all_below(q, bound));
            lemma_all_below_concat(torus_ring(n_sides, ring, side), q, bound);
        }
    }
}

/// The quads of the first `rings` rings are `6 * n_sides * rings` indices, all
/// below the vertex count where those rings are the torus's own.
proof fn lemma_torus_indices(n_sides: int, n_rings: int, rings: int)
    requires
        0 <= rings,
        0 <= n_sides,
    ensures
        torus_indices(n_sides, rings).len() == 6 * n_sides * rings,
        rings <= n_rings && torus_vertex_count(n_sides, n_rings) <= 0x1_0000_0000 ==> all_below(
            torus_indices(n_sides, rings),
            torus_vertex_count(n_sides, n_rings),
        ),
    decreases rings,
{
    if rings > 0 {
        lemma_torus_indices(n_sides, n_rings, rings - 1);
        lemma_torus_ring(n_sides, n_rings, rings - 1, n_sides);
        let a = torus_indices(n_sides, rings - 1);
        let b = torus_ring(n_sides, rings - 1, n_sides);
        assert(torus_indices(n_sides, rings) == a + b);
        assert((a + b).len() == a.len() + b.len());
        assert(6 * n_sides * (rings - 1) + 6 * n_sides == 6 * n_sides * rings) by (nonlinear_arith);
        if rings <= n_rings && torus_vertex_count(n_sides, n_rings) <= 0x1_0000_0000 {
            lemma_all_below_concat(a, b, torus_vertex_count(n_sides, n_rings));
        }
    } else {
        assert(6 * n_sides * rings == 0) by (nonlinear_arith)
            requires
                rings == 0,
        ;
    }
}

/// Law: every index of a torus names one of its vertices, provided the vertex
/// count fits the 32-bit indices.
pub proof fn lemma_torus_indices_in_range(n_sides: int, n_rings: int)
    requires
        0 <= n_sides,
        0 <= n_rings,
        torus_vertex_count(n_sides, n_rings) <= 0x1_0000_0000,
    ensures
        all_below(torus_indices(n_sides, n_rings), torus_vertex_count(n_sides, n_rings)),
{
    lemma_torus_indices(n_sides, n_rings, n_rings);
}

/// The number of vertices of a torus with `n_sides` sides and `n_rings` rings.
pub fn vertex_count(n_sides: usize, n_rings: usize) -> (n: usize)
    requires
        n_rings < usize::MAX,
        n_sides * (n_rings + 1) <= usize::MAX,
    ensures
        n == torus_vertex_count(n_sides as int, n_rings as int),
{
    n_sides * (n_rings + 1)
}

/// The triangle list of a torus with `n_sides` sides per ring and `n_rings`
/// rings: for each ring and each side, the two triangles of the quad towards the
/// next ring and the next side. Indices are cut to 32 bits.
pub fn generate_indices(n_sides: usize, n_rings: usize) -> (indices: Vec<u32>)
    requires
        6 * (n_sides * n_rings) <= usize::MAX,
    ensures
        indices@ == torus_indices(n_sides as int, n_rings as int),
        indices@.len() == 6 * n_sides * n_rings,
{
    let faces = n_sides * n_rings;
    let mut indices: Vec<u32> = Vec::with_capacity(6 * faces);
    let ghost ns = n_sides as int;
    let mut ring: usize = 0;
    while ring < n_rings
        invariant
            ns == n_sides as int,
            0 <= ring <= n_rings,
            6 * (n_sides * n_rings) <= usize::MAX,
            indices@ == torus_indices(ns, ring as int),
        decreases n_rings - ring,
    {
        assert((ring + 2) * ns <= 2 * n_rings * ns + ns) by (nonlinear_arith)
            requires
                ring < n_rings,
                ns >= 0,
        ;
        assert(2 * n_rings * ns + ns <= usize::MAX) by (nonlinear_arith)
            requires
                6 * (ns * n_rings) <= usize::MAX,
                n_rings >= 1,
                ns >= 0,
        ;
        assert((ring + 1) * ns == ring * ns + ns) by (nonlinear_arith);
        assert((ring + 2) * ns == ring * ns + 2 * ns) by (nonlinear_arith);
        let ring_start = ring * n_sides;
        let next_ring_start = (ring + 1) * n_sides;
        let mut side: usize = 0;
        while side < n_sides
            invariant
                ns == n_sides as int,
                0 <= ring < n_rings,
                0 <= side <= n_sides,
                ring_start == ring * ns,
                next_ring_start == (ring + 1) * ns,
                ring_start + ns == next_ring_start,
                next_ring_start + ns <= usize::MAX,
                indices@ == torus_indices(ns, ring as int) + torus_ring(ns, ring as int, side as int),
            decreases n_sides - side,
        {
            let next_side = (side + 1) % n_sides;
            let quad = [
                ring_start + side,
                next_ring_start + side,
                next_ring_start + next_side,
                ring_start + side,
                next_ring_start + next_side,
                ring_start + next_side,
            ];
            append_indices(&mut indices, &quad);
            assert(torus_quad(ns, ring as int, side as int) =~= to_u32s(quad@));
            assert(indices@ =~= torus_indices(ns, ring as int) + torus_ring(ns, ring as int, side + 1));
            side = side + 1;
        }
        ring = ring + 1;
    }
    proof {
        lemma_torus_indices(ns, n_rings as int, n_rings as int);
    }
    indices
}

} // verus!
