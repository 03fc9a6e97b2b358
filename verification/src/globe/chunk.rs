//! The layout of a chunk's cells.
//!
//! A chunk stores its cells from `(0, 0)` to `(chunk_resolution[0],
//! chunk_resolution[1])` _inclusive_ in x and y, relative to its origin,
//! and `chunk_resolution[2]` layers in z, ordered by z, then y, then x.
use vstd::prelude::*;

use super::chunk_origin::ChunkOrigin;
use super::chunk_pair::PointPair;
use crate::grid_point3::GridPoint3;
use crate::GridCoord;

verus! {

/// What a cell of a globe is made of.
#[derive(PartialEq, Eq, Copy, Clone, Debug, Structural)]
pub enum Material {
    Air,
    Dirt,
    Water,
}

/// A loaded chunk of a globe, as far as sharing cells with its
/// neighbors goes.
pub struct Chunk {
    pub origin: ChunkOrigin,
    pub chunk_resolution: [GridCoord; 3],
    /// Sorted by (z, y, x); see `cell_index`.
    pub cells: Vec<Material>,
    /// Incremented whenever cells that this chunk shares with other chunks
    /// and owns are updated, so that a neighbor that was not loaded at the
    /// time can tell later that its copies are out of date. The first
    /// version is 1, so 0 can stand for "no version known".
    pub owned_edge_version: u64,
    /// Neighbors that own some of the cells on the border of this chunk.
    pub upstream_neighbors: Vec<UpstreamNeighbor>,
    /// Neighbors that share some cells on the border of this chunk but
    /// don't own them.
    pub downstream_neighbors: Vec<DownstreamNeighbor>,
    /// Whether the chunk has changed since its view was last updated.
    pub is_view_dirty: bool,
}

/// A neighbor that owns some of a chunk's cells.
pub struct UpstreamNeighbor {
    pub origin: ChunkOrigin,
    /// The positions owned by the neighbor (source), specified in both
    /// source and sink.
    pub shared_cells: Vec<PointPair>,
}

/// A neighbor that holds copies of some of a chunk's cells.
pub struct DownstreamNeighbor {
    pub origin: ChunkOrigin,
    /// The positions owned by the chunk (source), specified in both source
    /// and sink.
    pub shared_cells: Vec<PointPair>,
}

impl Chunk {
    /// The origins of the chunk's upstream neighbors, in order.
    pub open spec fn upstream_origins(&self) -> Seq<ChunkOrigin> {
        self.upstream_neighbors@.map_values(|n: UpstreamNeighbor| n.origin)
    }

    /// The origins of the chunk's downstream neighbors, in order.
    pub open spec fn downstream_origins(&self) -> Seq<ChunkOrigin> {
        self.downstream_neighbors@.map_values(|n: DownstreamNeighbor| n.origin)
    }

    /// Whether the chunk holds a full set of cells, all of which can be
    /// addressed.
    pub open spec fn is_well_formed(&self) -> bool {
        &&& chunk_cell_count(self.chunk_resolution) <= usize::MAX
        &&& chunk_cell_count(self.chunk_resolution) <= i64::MAX
        &&& self.cells@.len() == chunk_cell_count(self.chunk_resolution)
    }

    /// What the cell at `pos` is made of.
    pub open spec fn cell_at(&self, pos: GridPoint3) -> Material {
        self.cells@[cell_index_of(self.origin@, self.chunk_resolution, pos)]
    }

    /// The cell at `pos`, which must lie within the chunk.
    pub fn cell(&self, pos: GridPoint3) -> (c: &Material)
        requires
            self.is_well_formed(),
            is_within_chunk(self.origin@, self.chunk_resolution, pos),
        ensures
            *c == self.cell_at(pos),
    {
        let cell_i = cell_index(&self.origin, self.chunk_resolution, pos);
        &self.cells[cell_i]
    }

    /// The cell at `pos`, which must lie within the chunk, for changing it.
    /// Whatever it is set to is stored at `pos`; nothing else changes.
    pub fn cell_mut(&mut self, pos: GridPoint3) -> (c: &mut Material)
        requires
            old(self).is_well_formed(),
            is_within_chunk(old(self).origin@, old(self).chunk_resolution, pos),
        ensures
            *c == old(self).cell_at(pos),
            final(self).cells@ == old(self).cells@.update(
                cell_index_of(old(self).origin@, old(self).chunk_resolution, pos),
                *final(c),
            ),
            final(self).origin == old(self).origin,
            final(self).chunk_resolution == old(self).chunk_resolution,
            final(self).owned_edge_version == old(self).owned_edge_version,
            final(self).upstream_neighbors@ == old(self).upstream_neighbors@,
            final(self).downstream_neighbors@ == old(self).downstream_neighbors@,
            final(self).is_view_dirty == old(self).is_view_dirty,
    {
        let cell_i = cell_index(&self.origin, self.chunk_resolution, pos);
        &mut self.cells[cell_i]
    }

    /// Indicates that the chunk has been modified since its view was last
    /// updated.
    pub fn mark_view_as_dirty(&mut self)
        ensures
            final(self).is_view_dirty,
            final(self).origin == old(self).origin,
            final(self).chunk_resolution == old(self).chunk_resolution,
            final(self).cells@ == old(self).cells@,
            final(self).owned_edge_version == old(self).owned_edge_version,
            final(self).upstream_neighbors@ == old(self).upstream_neighbors@,
            final(self).downstream_neighbors@ == old(self).downstream_neighbors@,
    {
        self.is_view_dirty = true;
    }

    /// Indicates that the view has been updated since the chunk was last
    /// modified.
    pub fn mark_view_as_clean(&mut self)
        ensures
            !final(self).is_view_dirty,
            final(self).origin == old(self).origin,
            final(self).chunk_resolution == old(self).chunk_resolution,
            final(self).cells@ == old(self).cells@,
            final(self).owned_edge_version == old(self).owned_edge_version,
            final(self).upstream_neighbors@ == old(self).upstream_neighbors@,
            final(self).downstream_neighbors@ == old(self).downstream_neighbors@,
    {
        self.is_view_dirty = false;
    }
}

/// Whether `pos` lies within the bounds of the chunk at `origin`: in the
/// same root quad, on or between its x- and y-edges, and among its layers
/// in z.
pub open spec fn is_within_chunk(origin: GridPoint3, chunk_resolution: [GridCoord; 3], pos: GridPoint3) -> bool {
    &&& pos.rxy.root == origin.rxy.root
    &&& origin.rxy.x <= pos.rxy.x <= origin.rxy.x + chunk_resolution[0]
    &&& origin.rxy.y <= pos.rxy.y <= origin.rxy.y + chunk_resolution[1]
    &&& origin.z <= pos.z <= origin.z + chunk_resolution[2] - 1
}

/// The number of cells a chunk stores.
pub open spec fn chunk_cell_count(chunk_resolution: [GridCoord; 3]) -> int {
    (chunk_resolution[0] + 1) * (chunk_resolution[1] + 1) * chunk_resolution[2]
}

/// Where the cell at `pos` is stored among the cells of the chunk at
/// `origin`.
pub open spec fn cell_index_of(origin: GridPoint3, chunk_resolution: [GridCoord; 3], pos: GridPoint3) -> int {
    let local_x = pos.rxy.x - origin.rxy.x;
    let local_y = pos.rxy.y - origin.rxy.y;
    let local_z = pos.z - origin.z;
    local_z * (chunk_resolution[0] + 1) * (chunk_resolution[1] + 1) + local_y * (chunk_resolution[0] + 1) + local_x
}

/// Returns `true` if the given `pos` lies within the bounds of the chunk
/// at `origin`, or `false` otherwise.
///
/// This does not consider whether or not that chunk _owns_ the cell at
/// `pos`.
pub fn contains_pos(origin: &ChunkOrigin, chunk_resolution: [GridCoord; 3], pos: GridPoint3) -> (b: bool)
    requires
        origin@.rxy.x + chunk_resolution[0] <= i64::MAX,
        origin@.rxy.y + chunk_resolution[1] <= i64::MAX,
        origin@.z + chunk_resolution[2] <= i64::MAX,
        origin@.rxy.x + chunk_resolution[0] >= i64::MIN,
        origin@.rxy.y + chunk_resolution[1] >= i64::MIN,
        origin@.z + chunk_resolution[2] - 1 >= i64::MIN,
    ensures
        b == is_within_chunk(origin@, chunk_resolution, pos),
{
    // Chunks don't share cells in the z-direction,
    // but do in the x- and y-directions.
    let end_x = origin.pos().rxy.x + chunk_resolution[0];
    let end_y = origin.pos().rxy.y + chunk_resolution[1];
    let end_z = origin.pos().z + chunk_resolution[2] - 1;
    let contains_x = pos.rxy.x >= origin.pos().rxy.x && pos.rxy.x <= end_x;
    let contains_y = pos.rxy.y >= origin.pos().rxy.y && pos.rxy.y <= end_y;
    let contains_z = pos.z >= origin.pos().z && pos.z <= end_z;
    let same_root = pos.rxy.root.index == origin.pos().rxy.root.index;
    same_root && contains_x && contains_y && contains_z
}

/// Bounds on each term of a cell's index, for a cell within its chunk.
pub(crate) proof fn lemma_cell_index_bounds(origin: GridPoint3, chunk_resolution: [GridCoord; 3], pos: GridPoint3)
    requires
        is_within_chunk(origin, chunk_resolution, pos),
    ensures
        0 <= (pos.z - origin.z) * (chunk_resolution[0] + 1) <= (chunk_resolution[2] - 1) * (chunk_resolution[0] + 1),
        0 <= (pos.z - origin.z) * (chunk_resolution[0] + 1) * (chunk_resolution[1] + 1)
            <= (chunk_resolution[2] - 1) * (chunk_resolution[0] + 1) * (chunk_resolution[1] + 1),
        0 <= (pos.rxy.y - origin.rxy.y) * (chunk_resolution[0] + 1) <= chunk_resolution[1] * (chunk_resolution[0] + 1),
        0 <= cell_index_of(origin, chunk_resolution, pos) < chunk_cell_count(chunk_resolution),
        1 <= chunk_resolution[0] + 1 <= chunk_cell_count(chunk_resolution),
        1 <= chunk_resolution[1] + 1 <= chunk_cell_count(chunk_resolution),
        (chunk_resolution[2] - 1) * (chunk_resolution[0] + 1) <= chunk_cell_count(chunk_resolution),
{
    let a = chunk_resolution[0] + 1;
    let b = chunk_resolution[1] + 1;
    let c = chunk_resolution[2];
    let lx = pos.rxy.x - origin.rxy.x;
    let ly = pos.rxy.y - origin.rxy.y;
    let lz = pos.z - origin.z;
    assert(0 <= lz * a <= (c - 1) * a) by (nonlinear_arith)
        requires
            0 <= lz <= c - 1,
            a >= 1,
    ;
    assert(0 <= lz * a * b <= (c - 1) * a * b) by (nonlinear_arith)
        requires
            0 <= lz * a <= (c - 1) * a,
            b >= 1,
    ;
    assert(0 <= ly * a <= (b - 1) * a) by (nonlinear_arith)
        requires
            0 <= ly <= b - 1,
            a >= 1,
    ;
    assert(a <= a * b * c && b <= a * b * c && (c - 1) * a <= a * b * c) by (nonlinear_arith)
        requires
            a >= 1,
            b >= 1,
            c >= 1,
    ;
    assert(a * b * c == (a * b) * c && (a * b) * c == a * (b * c)) by (nonlinear_arith);
    assert(lz * a * b + ly * a + lx < a * b * c) by (nonlinear_arith)
        requires
            0 <= lz * a * b <= (c - 1) * a * b,
            0 <= ly * a <= (b - 1) * a,
            0 <= lx <= a - 1,
            a >= 1,
            b >= 1,
    ;
}

/// The position of the cell within the chunk's storage.
///
/// `pos` must lie within the chunk, whose cells must all be addressable.
pub fn cell_index(origin: &ChunkOrigin, chunk_resolution: [GridCoord; 3], pos: GridPoint3) -> (i: usize)
    requires
        is_within_chunk(origin@, chunk_resolution, pos),
        chunk_cell_count(chunk_resolution) <= usize::MAX,
        chunk_cell_count(chunk_resolution) <= i64::MAX,
    ensures
        i == cell_index_of(origin@, chunk_resolution, pos),
        i < chunk_cell_count(chunk_resolution),
{
    proof {
        lemma_cell_index_bounds(origin@, chunk_resolution, pos);
    }
    let local_x = pos.rxy.x - origin.pos().rxy.x;
    let local_y = pos.rxy.y - origin.pos().rxy.y;
    let local_z = pos.z - origin.pos().z;
    let r = chunk_resolution;
    let plane_offset = local_z * (r[0] + 1) * (r[1] + 1);
    let row_offset = local_y * (r[0] + 1);
    let cell_offset = local_x;
    (plane_offset + row_offset + cell_offset) as usize
}

/// Writing material `c` into the cell at `p` of a chunk (what a write
/// through `cell_mut` does) makes the cell at `p` hold `c` and leaves
/// every other cell `q` of the chunk as it was, and the chunk well formed.
pub proof fn lemma_cell_write_changes_only_that_cell(chunk: Chunk, p: GridPoint3, q: GridPoint3, c: Material)
    requires
        chunk.is_well_formed(),
        is_within_chunk(chunk.origin@, chunk.chunk_resolution, p),
        is_within_chunk(chunk.origin@, chunk.chunk_resolution, q),
    ensures
        ({
            let cells = chunk.cells@.update(cell_index_of(chunk.origin@, chunk.chunk_resolution, p), c);
            &&& cells.len() == chunk.cells@.len()
            &&& cells[cell_index_of(chunk.origin@, chunk.chunk_resolution, p)] == c
            &&& (q.rxy.x != p.rxy.x || q.rxy.y != p.rxy.y || q.z != p.z) ==> cells[cell_index_of(
                chunk.origin@,
                chunk.chunk_resolution,
                q,
            )] == chunk.cell_at(q)
        }),
{
    lemma_cell_index_bounds(chunk.origin@, chunk.chunk_resolution, p);
    lemma_cell_index_bounds(chunk.origin@, chunk.chunk_resolution, q);
    if cell_index_of(chunk.origin@, chunk.chunk_resolution, p) == cell_index_of(chunk.origin@, chunk.chunk_resolution, q) {
        lemma_cell_index_injective(chunk.origin@, chunk.chunk_resolution, p, q);
    }
}

/// Different cells of a chunk are stored in different places.
pub proof fn lemma_cell_index_injective(
    origin: GridPoint3,
    chunk_resolution: [GridCoord; 3],
    p: GridPoint3,
    q: GridPoint3,
)
    requires
        is_within_chunk(origin, chunk_resolution, p),
        is_within_chunk(origin, chunk_resolution, q),
        cell_index_of(origin, chunk_resolution, p) == cell_index_of(origin, chunk_resolution, q),
    ensures
        p.rxy.x == q.rxy.x,
        p.rxy.y == q.rxy.y,
        p.z == q.z,
{
    let a = chunk_resolution[0] + 1;
    let b = chunk_resolution[1] + 1;
    let lxp = p.rxy.x - origin.rxy.x;
    let lyp = p.rxy.y - origin.rxy.y;
    let lzp = p.z - origin.z;
    let lxq = q.rxy.x - origin.rxy.x;
    let lyq = q.rxy.y - origin.rxy.y;
    let lzq = q.z - origin.z;
    // Within a plane: the index is `row * a + column` with `column < a`.
    let rp = lzp * b + lyp;
    let rq = lzq * b + lyq;
    assert(cell_index_of(origin, chunk_resolution, p) == rp * a + lxp) by (nonlinear_arith)
        requires
            cell_index_of(origin, chunk_resolution, p) == lzp * a * b + lyp * a + lxp,
            rp == lzp * b + lyp,
    ;
    assert(cell_index_of(origin, chunk_resolution, q) == rq * a + lxq) by (nonlinear_arith)
        requires
            cell_index_of(origin, chunk_resolution, q) == lzq * a * b + lyq * a + lxq,
            rq == lzq * b + lyq,
    ;
    vstd::arithmetic::div_mod::lemma_fundamental_div_mod_converse(rp * a + lxp, a, rp, lxp);
    vstd::arithmetic::div_mod::lemma_fundamental_div_mod_converse(rq * a + lxq, a, rq, lxq);
    vstd::arithmetic::div_mod::lemma_fundamental_div_mod_converse(rp, b, lzp, lyp);
    vstd::arithmetic::div_mod::lemma_fundamental_div_mod_converse(rq, b, lzq, lyq);
}

} // verus!
