use vstd::prelude::*;

use crate::cell_shape::{neighbor_offset, neighbor_offset_for_edge};
use crate::dir::Dir;
use crate::grid_point3::{cell_at, GridPoint3};
use crate::GridCoord;

verus! {

/// The offset `dir` leads to from a hexagonal cell, when it points at an
/// edge of that cell.
pub open spec fn dir_offset(dir: Dir) -> (int, int) {
    neighbor_offset((dir.index / 2) as int)
}

/// Whether moving from `pos` one cell in direction `dir` stays within
/// the range of grid coordinates.
pub open spec fn step_fits(pos: GridPoint3, dir: Dir) -> bool {
    &&& i64::MIN <= pos.rxy.x + dir_offset(dir).0 <= i64::MAX
    &&& i64::MIN <= pos.rxy.y + dir_offset(dir).1 <= i64::MAX
}

/// The cell next to `pos` across the edge that `dir` points at, ignoring
/// any change of root quad.
pub open spec fn adjacent_cell(pos: GridPoint3, dir: Dir) -> GridPoint3 {
    cell_at(
        pos.rxy.root,
        (pos.rxy.x + dir_offset(dir).0) as i64,
        (pos.rxy.y + dir_offset(dir).1) as i64,
        pos.z,
    )
}

/// Get next cell in direction faced by `dir`, without considering
/// movement between roots. Note that this may therefore return positions
/// outside the boundaries of `pos`'s current root.
///
/// Returns an error if `dir` does not point to a direction that would
/// represent an immediately adjacent cell if in a hexagon. (Movement
/// toward vertices is undefined.)
pub fn adjacent_pos_in_dir(pos: GridPoint3, dir: Dir) -> (r: Result<GridPoint3, ()>)
    requires
        dir.is_hex_edge() ==> dir.is_valid() && step_fits(pos, dir),
    ensures
        r is Err <==> !dir.is_hex_edge(),
        r matches Ok(p) ==> p == adjacent_cell(pos, dir),
{
    if !dir.points_at_hex_edge() {
        return Err(());
    }

    // Find the (x, y) offset for `dir` and apply to `pos`.
    // Edge index is half the direction index, because direction 0
    // points at edge 0.
    let edge_index = (dir.index / 2) as usize;
    let (dx, dy) = neighbor_offset_for_edge(edge_index);
    Ok(GridPoint3::new(pos.rxy.root, pos.rxy.x + dx, pos.rxy.y + dy, pos.z))
}

/// Whether `pos` sits on one of the six pentagons at the corners of its
/// root quad: north, north-east, east, west, south-west or south.
pub open spec fn is_pentagon_cell(pos: GridPoint3, resolution: [GridCoord; 2]) -> bool {
    let x = pos.rxy.x;
    let y = pos.rxy.y;
    ||| x == 0 && y == 0
    ||| x == 0 && y == resolution[0]
    ||| x == 0 && y == resolution[1]
    ||| x == resolution[0] && y == 0
    ||| x == resolution[0] && y == resolution[0]
    ||| x == resolution[0] && y == resolution[1]
}

/// Whether `pos` lies on the boundary of its root quad.
pub open spec fn is_on_root_edge_cell(pos: GridPoint3, resolution: [GridCoord; 2]) -> bool {
    ||| pos.rxy.x == 0
    ||| pos.rxy.y == 0
    ||| pos.rxy.x == resolution[0]
    ||| pos.rxy.y == resolution[1]
}

pub fn is_pentagon(pos: &GridPoint3, resolution: [GridCoord; 2]) -> (b: bool)
    ensures
        b == is_pentagon_cell(*pos, resolution),
{
    // There are six pentagons in every root quad:
    //
    //              ◌ north
    //             / \
    //            /   \
    //      west ◌     ◌ north-east
    //            \     \
    //             \     \
    //   south-west ◌     ◌ east
    //               \   /
    //                \ /
    //           south ◌
    //
    let is_north = pos.rxy.x == 0 && pos.rxy.y == 0;
    let is_north_east = pos.rxy.x == 0 && pos.rxy.y == resolution[0];
    let is_east = pos.rxy.x == 0 && pos.rxy.y == resolution[1];
    let is_west = pos.rxy.x == resolution[0] && pos.rxy.y == 0;
    let is_south_west = pos.rxy.x == resolution[0] && pos.rxy.y == resolution[0];
    let is_south = pos.rxy.x == resolution[0] && pos.rxy.y == resolution[1];
    is_north || is_north_east || is_east || is_west || is_south_west || is_south
}

pub fn is_on_root_edge(pos: &GridPoint3, resolution: [GridCoord; 2]) -> (b: bool)
    ensures
        b == is_on_root_edge_cell(*pos, resolution),
{
    pos.rxy.x == 0 || pos.rxy.y == 0 || pos.rxy.x == resolution[0] || pos.rxy.y == resolution[1]
}

/// Checks (in debug builds) that `pos` lies within its root at the given
/// resolution; `pos` is left as it is.
pub fn debug_assert_pos_within_root(pos: &mut GridPoint3, resolution: [GridCoord; 2])
    requires
        old(pos).is_within_root(resolution),
    ensures
        *final(pos) == *old(pos),
{
}

/// Every pentagon lies on the edge of its root quad.
pub proof fn lemma_pentagon_on_root_edge(pos: GridPoint3, resolution: [GridCoord; 2])
    requires
        is_pentagon_cell(pos, resolution),
    ensures
        is_on_root_edge_cell(pos, resolution),
{
}

/// Stepping to the adjacent cell and then stepping back in the opposite
/// direction returns to where we started.
pub proof fn lemma_step_back_returns(pos: GridPoint3, dir: Dir)
    requires
        dir.is_valid(),
        dir.is_hex_edge(),
        step_fits(pos, dir),
    ensures
        dir.rotated(6).is_valid(),
        dir.rotated(6).is_hex_edge(),
        step_fits(adjacent_cell(pos, dir), dir.rotated(6)),
        adjacent_cell(adjacent_cell(pos, dir), dir.rotated(6)) == pos,
{
}

} // verus!
