//! Hexagonal grid geometry for voxel planets built from five root quads.
use vstd::prelude::*;

pub mod cell_dweller;
pub mod cell_pos;
pub mod cell_shape;
pub mod dir;
pub mod globe;
pub mod grid_point2;
pub mod grid_point3;
pub mod input;
pub mod kaboom;
pub mod movement;
pub mod net;
pub mod point2;
pub mod root;
mod rng;

use crate::grid_point2::GridPoint2;
use crate::root::Root;
use rand::rngs::StdRng;

verus! {

/// Coordinate along one axis of the grid.
pub type GridCoord = i64;

/// Coordinate along one axis of the grid, as `CellPos` names it.
pub type IntCoord = i64;

/// Generate a random column on the globe: in one of the five root quads,
/// with both coordinates drawn from `0..root_resolution[0]`.
///
/// This is not uniformly distributed over all columns of the globe.
pub fn random_column(root_resolution: [GridCoord; 2], rng: &mut StdRng) -> (p: GridPoint2)
    requires
        root_resolution[0] > 0,
    ensures
        p.root.index < 5,
        0 <= p.x < root_resolution[0],
        0 <= p.y < root_resolution[0],
{
    let root_index = rng::gen_range_i64(rng, 0, 5) as u8;
    let x: GridCoord = rng::gen_range_i64(rng, 0, root_resolution[0]);
    let y: GridCoord = rng::gen_range_i64(rng, 0, root_resolution[0]);
    GridPoint2::new(Root::new(root_index), x, y)
}

} // verus!
