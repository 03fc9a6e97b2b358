//! Facts about the geometry and topology of hexagons, and portions
//! thereof, with respect to their use in a globe voxmap.
//!
//! Offsets are measured on a grid with six units between neighbouring
//! cell centres, so that every edge midpoint and vertex of a cell lies at
//! integer coordinates. Direction `i` of `Dir` points at `DIR_OFFSETS[i]`:
//! even indices at edge midpoints, odd indices at vertices.
use vstd::prelude::*;

use crate::IntCoord;

verus! {

/// Offsets (on the six-unit grid) from a cell centre to the midpoint of
/// each edge and to each vertex, counter-clockwise from the positive
/// x-axis.
pub const DIR_OFFSETS: [[i64; 2]; 12] = [
    [3, 0],
    [2, 2],
    [0, 3],
    [-2, 4],
    [-3, 3],
    [-4, 2],
    [-3, 0],
    [-2, -2],
    [0, -3],
    [2, -4],
    [3, -3],
    [4, -2],
];

/// The outline of the top of a cell, or of the portion of a cell that a
/// chunk draws, as offsets from the cell centre on the six-unit grid.
pub struct CellShape {
    pub top_outline_dir_offsets: &'static [[i64; 2]],
}

/// A whole hexagon.
pub fn full_hex() -> (s: CellShape)
    ensures
        s.top_outline_dir_offsets@ == seq![DIR_OFFSETS[1], DIR_OFFSETS[3], DIR_OFFSETS[5], DIR_OFFSETS[7], DIR_OFFSETS[9], DIR_OFFSETS[11]],
{
    CellShape { top_outline_dir_offsets: &[[2, 2], [-2, 4], [-4, 2], [-2, -2], [2, -4], [4, -2]] }
}

/// The portion of a hexagon at the north corner (`(0, 0)`) of a chunk.
pub fn north_portion() -> (s: CellShape)
    ensures
        s.top_outline_dir_offsets@ == seq![[0i64, 0i64], DIR_OFFSETS[0], DIR_OFFSETS[1], DIR_OFFSETS[2]],
{
    CellShape { top_outline_dir_offsets: &[[0, 0], [3, 0], [2, 2], [0, 3]] }
}

/// The portion of a hexagon at the south corner of a chunk.
pub fn south_portion() -> (s: CellShape)
    ensures
        s.top_outline_dir_offsets@ == seq![[0i64, 0i64], DIR_OFFSETS[6], DIR_OFFSETS[7], DIR_OFFSETS[8]],
{
    CellShape { top_outline_dir_offsets: &[[0, 0], [-3, 0], [-2, -2], [0, -3]] }
}

/// The portion of a hexagon at the west corner of a chunk.
pub fn west_portion() -> (s: CellShape)
    ensures
        s.top_outline_dir_offsets@ == seq![[0i64, 0i64], DIR_OFFSETS[2], DIR_OFFSETS[3], DIR_OFFSETS[5], DIR_OFFSETS[6]],
{
    CellShape { top_outline_dir_offsets: &[[0, 0], [0, 3], [-2, 4], [-4, 2], [-3, 0]] }
}

/// The portion of a hexagon at the east corner of a chunk.
pub fn east_portion() -> (s: CellShape)
    ensures
        s.top_outline_dir_offsets@ == seq![[0i64, 0i64], DIR_OFFSETS[8], DIR_OFFSETS[9], DIR_OFFSETS[11], DIR_OFFSETS[0]],
{
    CellShape { top_outline_dir_offsets: &[[0, 0], [0, -3], [2, -4], [4, -2], [3, 0]] }
}

/// The portion of a hexagon on the north-west edge of a chunk.
pub fn north_west_portion() -> (s: CellShape)
    ensures
        s.top_outline_dir_offsets@ == seq![DIR_OFFSETS[0], DIR_OFFSETS[1], DIR_OFFSETS[3], DIR_OFFSETS[5], DIR_OFFSETS[6]],
{
    CellShape { top_outline_dir_offsets: &[[3, 0], [2, 2], [-2, 4], [-4, 2], [-3, 0]] }
}

/// The portion of a hexagon on the north-east edge of a chunk.
pub fn north_east_portion() -> (s: CellShape)
    ensures
        s.top_outline_dir_offsets@ == seq![DIR_OFFSETS[8], DIR_OFFSETS[9], DIR_OFFSETS[11], DIR_OFFSETS[1], DIR_OFFSETS[2]],
{
    CellShape { top_outline_dir_offsets: &[[0, -3], [2, -4], [4, -2], [2, 2], [0, 3]] }
}

/// The portion of a hexagon on the south-west edge of a chunk.
pub fn south_west_portion() -> (s: CellShape)
    ensures
        s.top_outline_dir_offsets@ == seq![DIR_OFFSETS[2], DIR_OFFSETS[3], DIR_OFFSETS[5], DIR_OFFSETS[7], DIR_OFFSETS[8]],
{
    CellShape { top_outline_dir_offsets: &[[0, 3], [-2, 4], [-4, 2], [-2, -2], [0, -3]] }
}

/// The portion of a hexagon on the south-east edge of a chunk.
pub fn south_east_portion() -> (s: CellShape)
    ensures
        s.top_outline_dir_offsets@ == seq![DIR_OFFSETS[0], DIR_OFFSETS[6], DIR_OFFSETS[7], DIR_OFFSETS[9], DIR_OFFSETS[11]],
{
    CellShape { top_outline_dir_offsets: &[[3, 0], [-3, 0], [-2, -2], [2, -4], [4, -2]] }
}

/// The `(x, y)` offsets to reach each of the six neighbouring hexagons,
/// numbering cell edges from 0 (the positive x-direction) through 5
/// counter-clockwise.
pub const NEIGHBOR_OFFSETS: [(IntCoord, IntCoord); 6] = [
    (1, 0),
    (0, 1),
    (-1, 1),
    (-1, 0),
    (0, -1),
    (1, -1),
];

/// The offset to the neighbour across edge `edge`, for `edge` in `0..6`.
pub open spec fn neighbor_offset(edge: int) -> (int, int) {
    if edge == 0 {
        (1, 0)
    } else if edge == 1 {
        (0, 1)
    } else if edge == 2 {
        (-1, 1)
    } else if edge == 3 {
        (-1, 0)
    } else if edge == 4 {
        (0, -1)
    } else {
        (1, -1)
    }
}

/// The offset to the neighbour across edge `edge`.
pub fn neighbor_offset_for_edge(edge: usize) -> (o: (IntCoord, IntCoord))
    requires
        edge < 6,
    ensures
        o.0 == neighbor_offset(edge as int).0,
        o.1 == neighbor_offset(edge as int).1,
{
    NEIGHBOR_OFFSETS[edge]
}

/// The neighbour across each edge is the opposite of the neighbour across
/// the opposite edge.
pub proof fn lemma_opposite_neighbor_offsets(edge: int)
    requires
        0 <= edge < 6,
    ensures
        neighbor_offset((edge + 3) % 6).0 == -neighbor_offset(edge).0,
        neighbor_offset((edge + 3) % 6).1 == -neighbor_offset(edge).1,
{
}

/// The midpoint of the edge that direction `2 * edge` points at lies
/// halfway (three units of six) towards the neighbour across that edge.
pub proof fn lemma_edge_midpoints_face_neighbors(edge: int)
    requires
        0 <= edge < 6,
    ensures
        DIR_OFFSETS[2 * edge][0] == 3 * neighbor_offset(edge).0,
        DIR_OFFSETS[2 * edge][1] == 3 * neighbor_offset(edge).1,
{
}

/// Each vertex of a hexagon lies two thirds of the way from the centre
/// towards the sum of the midpoints of the two edges that meet there.
pub proof fn lemma_vertices_between_edges(edge: int)
    requires
        0 <= edge < 6,
    ensures
        3 * DIR_OFFSETS[2 * edge + 1][0] == 2 * (DIR_OFFSETS[2 * edge][0] + DIR_OFFSETS[(2 * edge + 2) % 12][0]),
        3 * DIR_OFFSETS[2 * edge + 1][1] == 2 * (DIR_OFFSETS[2 * edge][1] + DIR_OFFSETS[(2 * edge + 2) % 12][1]),
{
}

} // verus!
