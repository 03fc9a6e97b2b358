use vstd::prelude::*;

use crate::grid_point3::GridPoint3;
use crate::GridCoord;

verus! {

/// Chunk resolutions name a positive number of cells along each axis.
pub open spec fn is_valid_chunk_resolution(chunk_resolution: [GridCoord; 3]) -> bool {
    &&& chunk_resolution[0] > 0
    &&& chunk_resolution[1] > 0
    &&& chunk_resolution[2] > 0
}

/// Whether `pos` is the origin of a chunk: inside its root quad (not on
/// its far edges), at or above the bottom of the globe, and at a multiple
/// of the chunk resolution along every axis.
pub open spec fn is_chunk_origin(
    pos: GridPoint3,
    root_resolution: [GridCoord; 2],
    chunk_resolution: [GridCoord; 3],
) -> bool {
    &&& 0 <= pos.rxy.x < root_resolution[0]
    &&& 0 <= pos.rxy.y < root_resolution[1]
    &&& 0 <= pos.z
    &&& pos.rxy.x % chunk_resolution[0] == 0
    &&& pos.rxy.y % chunk_resolution[1] == 0
    &&& pos.z % chunk_resolution[2] == 0
}

/// Whether the chunk with origin `origin` holds the cell at `pos`.
///
/// Neighbouring chunks share the cells on their common edges in the
/// x- and y-directions, but not in the z-direction.
pub open spec fn chunk_contains(origin: GridPoint3, chunk_resolution: [GridCoord; 3], pos: GridPoint3) -> bool {
    &&& pos.rxy.root == origin.rxy.root
    &&& origin.rxy.x <= pos.rxy.x <= origin.rxy.x + chunk_resolution[0]
    &&& origin.rxy.y <= pos.rxy.y <= origin.rxy.y + chunk_resolution[1]
    &&& origin.z <= pos.z < origin.z + chunk_resolution[2]
}

/// `x` rounded down to a multiple of `c`.
pub open spec fn round_down(x: int, c: int) -> int {
    (x / c) * c
}

/// Facts about rounding a non-negative `x` down to a multiple of a
/// positive `c`: the result is the unique multiple of `c` in `(x - c, x]`.
pub proof fn lemma_round_down(x: int, c: int)
    requires
        0 <= x,
        0 < c,
    ensures
        0 <= round_down(x, c) <= x,
        x < round_down(x, c) + c,
        round_down(x, c) % c == 0,
        (round_down(x, c) - c) % c == 0,
        (round_down(x, c) == x) <==> (x % c == 0),
        round_down(x, c) > 0 ==> round_down(x, c) >= c,
        forall|m: int| #![trigger m % c] m % c == 0 && x - c < m <= x ==> m == round_down(x, c),
{
    let q = x / c;
    let r = x % c;
    vstd::arithmetic::div_mod::lemma_fundamental_div_mod(x, c);
    vstd::arithmetic::div_mod::lemma_mod_pos_bound(x, c);
    assert(x == c * q + r);
    assert(q * c == c * q) by (nonlinear_arith);
    assert(q >= 0) by (nonlinear_arith)
        requires
            x == c * q + r,
            0 <= r < c,
            0 <= x,
            0 < c,
    ;
    vstd::arithmetic::div_mod::lemma_mod_multiples_basic(q, c);
    vstd::arithmetic::div_mod::lemma_mod_multiples_basic(q - 1, c);
    assert((q - 1) * c == q * c - c) by (nonlinear_arith);
    assert(q * c > 0 ==> q * c >= c) by (nonlinear_arith)
        requires
            0 < c,
    ;
    assert forall|m: int| #![trigger m % c] m % c == 0 && x - c < m <= x implies m == round_down(x, c) by {
        let k = m / c;
        vstd::arithmetic::div_mod::lemma_fundamental_div_mod(m, c);
        assert(m == c * k);
        assert(k == q) by (nonlinear_arith)
            requires
                m == c * k,
                x == c * q + r,
                0 <= r < c,
                x - c < m <= x,
                0 < c,
        ;
    }
}

/// Wrapper type around a position that is known to be a valid chunk
/// origin.
///
/// Note that this does not save you from accidentally using
/// positions from multiple incompatible globes with different
/// resolutions.
#[derive(Default, Clone, Copy, PartialEq, Eq, Debug, Hash, Structural)]
pub struct ChunkOrigin {
    pos: GridPoint3,
}

impl View for ChunkOrigin {
    type V = GridPoint3;

    closed spec fn view(&self) -> GridPoint3 {
        self.pos
    }
}

impl ChunkOrigin {
    /// Wraps `pos`, which must be a valid chunk origin at the given
    /// resolutions.
    pub fn new(pos: GridPoint3, root_resolution: [GridCoord; 2], chunk_resolution: [GridCoord; 3]) -> (o: ChunkOrigin)
        requires
            chunk_resolution[0] != 0,
            chunk_resolution[1] != 0,
            chunk_resolution[2] != 0,
            is_chunk_origin(pos, root_resolution, chunk_resolution),
        ensures
            o@ == pos,
    {
        ChunkOrigin { pos: pos }
    }

    pub fn pos(&self) -> (p: &GridPoint3)
        ensures
            *p == self@,
    {
        &self.pos
    }
}

impl From<ChunkOrigin> for GridPoint3 {
    fn from(o: ChunkOrigin) -> (p: GridPoint3) {
        o.pos
    }
}

impl vstd::std_specs::convert::FromSpecImpl<ChunkOrigin> for GridPoint3 {
    open spec fn obeys_from_spec() -> bool {
        true
    }

    open spec fn from_spec(o: ChunkOrigin) -> GridPoint3 {
        o@
    }
}

} // verus!
