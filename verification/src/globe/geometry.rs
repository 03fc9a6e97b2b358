//! The integer part of building a chunk's geometry: which cells are drawn,
//! which part of each cell a chunk draws, and how the vertices of a cell
//! are joined into triangles.
use vstd::prelude::*;

use super::chunk::Material;
use crate::cell_shape::{
    east_portion, full_hex, north_east_portion, north_portion, north_west_portion, south_east_portion,
    south_portion, south_west_portion, west_portion, CellShape, DIR_OFFSETS,
};
use crate::GridCoord;

verus! {

/// Which part of a cell a chunk draws.
#[derive(Debug, Eq, PartialEq, Clone, Copy, Structural)]
pub enum CellPortion {
    FullHex,
    North,
    South,
    West,
    East,
    NorthWest,
    NorthEast,
    SouthWest,
    SouthEast,
}

/// The part of the cell at `(cell_x, cell_y)` that a chunk ending at
/// `(end_x, end_y)` draws: the corners and edges of the root quad get only
/// the portion inside it, the most specific case first.
pub open spec fn cell_portion_at(cell_x: int, cell_y: int, end_x: int, end_y: int) -> CellPortion {
    if cell_x == 0 && cell_y == 0 {
        CellPortion::North
    } else if cell_x == end_x && cell_y == end_y {
        CellPortion::South
    } else if cell_x == end_x && cell_y == 0 {
        CellPortion::West
    } else if cell_x == 0 && cell_y == end_y {
        CellPortion::East
    } else if cell_y == 0 {
        CellPortion::NorthWest
    } else if cell_x == 0 {
        CellPortion::NorthEast
    } else if cell_x == end_x {
        CellPortion::SouthWest
    } else if cell_y == end_y {
        CellPortion::SouthEast
    } else {
        CellPortion::FullHex
    }
}

/// The outline of the top of `portion`, as offsets from the cell centre.
pub open spec fn portion_outline(portion: CellPortion) -> Seq<[i64; 2]> {
    match portion {
        CellPortion::FullHex => seq![DIR_OFFSETS[1], DIR_OFFSETS[3], DIR_OFFSETS[5], DIR_OFFSETS[7], DIR_OFFSETS[9], DIR_OFFSETS[11]],
        CellPortion::North => seq![[0i64, 0i64], DIR_OFFSETS[0], DIR_OFFSETS[1], DIR_OFFSETS[2]],
        CellPortion::South => seq![[0i64, 0i64], DIR_OFFSETS[6], DIR_OFFSETS[7], DIR_OFFSETS[8]],
        CellPortion::West => seq![[0i64, 0i64], DIR_OFFSETS[2], DIR_OFFSETS[3], DIR_OFFSETS[5], DIR_OFFSETS[6]],
        CellPortion::East => seq![[0i64, 0i64], DIR_OFFSETS[8], DIR_OFFSETS[9], DIR_OFFSETS[11], DIR_OFFSETS[0]],
        CellPortion::NorthWest => seq![DIR_OFFSETS[0], DIR_OFFSETS[1], DIR_OFFSETS[3], DIR_OFFSETS[5], DIR_OFFSETS[6]],
        CellPortion::NorthEast => seq![DIR_OFFSETS[8], DIR_OFFSETS[9], DIR_OFFSETS[11], DIR_OFFSETS[1], DIR_OFFSETS[2]],
        CellPortion::SouthWest => seq![DIR_OFFSETS[2], DIR_OFFSETS[3], DIR_OFFSETS[5], DIR_OFFSETS[7], DIR_OFFSETS[8]],
        CellPortion::SouthEast => seq![DIR_OFFSETS[0], DIR_OFFSETS[6], DIR_OFFSETS[7], DIR_OFFSETS[9], DIR_OFFSETS[11]],
    }
}

/// The shape to draw for the cell at `(cell_x, cell_y)` of a chunk whose
/// far corner is `(end_x, end_y)`; see `cell_portion_at`.
pub fn cell_shape_at(cell_x: GridCoord, cell_y: GridCoord, end_x: GridCoord, end_y: GridCoord) -> (s: CellShape)
    ensures
        s.top_outline_dir_offsets@ == portion_outline(cell_portion_at(cell_x as int, cell_y as int, end_x as int, end_y as int)),
{
    // Put the most specific cases first.
    if cell_x == 0 && cell_y == 0 {
        north_portion()
    } else if cell_x == end_x && cell_y == end_y {
        south_portion()
    } else if cell_x == end_x && cell_y == 0 {
        west_portion()
    } else if cell_x == 0 && cell_y == end_y {
        east_portion()
    } else if cell_y == 0 {
        north_west_portion()
    } else if cell_x == 0 {
        north_east_portion()
    } else if cell_x == end_x {
        south_west_portion()
    } else if cell_y == end_y {
        south_east_portion()
    } else {
        full_hex()
    }
}

/// Whether a cell is left out of the geometry, given its neighboring cells
/// (`None` for a neighbor whose chunk is not loaded): when none of them is
/// air, the cell cannot be seen.
pub fn cull_cell(neighbors: &Vec<Option<Material>>) -> (b: bool)
    ensures
        b == forall|i: int| 0 <= i < neighbors@.len() ==> #[trigger] neighbors@[i] != Some(Material::Air),
{
    let mut i: usize = 0;
    while i < neighbors.len()
        invariant
            i <= neighbors@.len(),
            forall|j: int| 0 <= j < i ==> #[trigger] neighbors@[j] != Some(Material::Air),
        decreases neighbors@.len() - i,
    {
        match neighbors[i] {
            // This cell can be seen; we can't cull it.
            Some(Material::Air) => return false,
            _ => {},
        }
        i = i + 1;
    }
    // If there was no reason to save it, then assume we can cull it.
    true
}

/// The triangles of the fan over vertices `first..first + m`: the first
/// vertex with each following pair, `m - 2` triangles in all.
pub open spec fn fan(first: int, m: int) -> Seq<u32>
    decreases m,
{
    if m <= 2 {
        Seq::empty()
    } else {
        fan(first, m - 1) + seq![first as u32, (first + m - 2) as u32, (first + m - 1) as u32]
    }
}

/// Appends the triangles covering the top of a cell whose `n` top
/// vertices start at index `first`: a fan from the first vertex.
pub fn append_top_indices(first: u32, n: u32, index_data: &mut Vec<u32>)
    requires
        1 <= n,
        first + n <= u32::MAX,
    ensures
        final(index_data)@ == old(index_data)@ + fan(first as int, n as int),
{
    let mut i: u32 = 1;
    while i < n - 1
        invariant
            1 <= i,
            n >= 1,
            i <= n - 1 || n <= 2,
            i == 1 || i <= n - 1,
            first + n <= u32::MAX,
            index_data@ == old(index_data)@ + fan(first as int, i as int + 1),
        decreases n - i,
    {
        index_data.push(first);
        index_data.push(first + i);
        index_data.push(first + i + 1);
        proof {
            assert(fan(first as int, i as int + 2) == fan(first as int, i as int + 1) + seq![
                first,
                (first + i) as u32,
                (first + i + 1) as u32,
            ]);
            assert(index_data@ =~= old(index_data)@ + fan(first as int, i as int + 2));
        }
        i = i + 1;
    }
    proof {
        if n <= 2 {
            assert(fan(first as int, n as int) =~= Seq::<u32>::empty());
            assert(fan(first as int, 2) =~= Seq::<u32>::empty());
        }
    }
}

/// The two triangles of each side of a cell, from the edge between top
/// vertices `0` and `1` up to the one between `k - 1` and `k` (wrapping
/// round to `0` after `n - 1`), whose top-of-side vertices start at
/// `top` and bottom vertices at `bottom`.
pub open spec fn side_quads(top: int, bottom: int, n: int, k: int) -> Seq<u32>
    decreases k,
{
    if k <= 0 {
        Seq::empty()
    } else {
        let ab = k - 1;
        let cd = (ab + 1) % n;
        side_quads(top, bottom, n, k - 1) + seq![
            (top + ab) as u32,
            (bottom + ab) as u32,
            (top + cd) as u32,
            (top + cd) as u32,
            (bottom + ab) as u32,
            (bottom + cd) as u32,
        ]
    }
}

/// Appends the triangles covering the sides of a cell with `n` vertices
/// around its top, whose top-of-side vertices start at index `top` and
/// bottom vertices at `bottom`: two triangles for each edge.
pub fn append_side_indices(top: u32, bottom: u32, n: u32, index_data: &mut Vec<u32>)
    requires
        top + n <= u32::MAX,
        bottom + n <= u32::MAX,
    ensures
        final(index_data)@ == old(index_data)@ + side_quads(top as int, bottom as int, n as int, n as int),
{
    let mut ab_i: u32 = 0;
    while ab_i < n
        invariant
            ab_i <= n,
            top + n <= u32::MAX,
            bottom + n <= u32::MAX,
            index_data@ == old(index_data)@ + side_quads(top as int, bottom as int, n as int, ab_i as int),
        decreases n - ab_i,
    {
        let cd_i = (ab_i + 1) % n;
        let a_i = top + ab_i;
        let b_i = bottom + ab_i;
        let c_i = bottom + cd_i;
        let d_i = top + cd_i;
        index_data.push(a_i);
        index_data.push(b_i);
        index_data.push(d_i);
        index_data.push(d_i);
        index_data.push(b_i);
        index_data.push(c_i);
        proof {
            assert(index_data@ =~= old(index_data)@ + side_quads(top as int, bottom as int, n as int, ab_i + 1));
        }
        ab_i = ab_i + 1;
    }
}

/// Appends all the triangles of a cell with `n` vertices around its top,
/// whose vertices were added from index `first` on: `n` for the top,
/// `n` more for the top of the sides and `n` for their bottom.
pub fn append_cell_indices(first: u32, n: u32, index_data: &mut Vec<u32>)
    requires
        1 <= n,
        first + 3 * n <= u32::MAX,
    ensures
        final(index_data)@ == old(index_data)@ + fan(first as int, n as int) + side_quads(
            first + n,
            first + 2 * n,
            n as int,
            n as int,
        ),
{
    append_top_indices(first, n, index_data);
    let first_side_top_vertex_index = first + n;
    let first_side_bottom_vertex_index = first_side_top_vertex_index + n;
    append_side_indices(first_side_top_vertex_index, first_side_bottom_vertex_index, n, index_data);
    proof {
        assert(index_data@ =~= old(index_data)@ + fan(first as int, n as int) + side_quads(
            first + n,
            first + 2 * n,
            n as int,
            n as int,
        ));
    }
}

} // verus!
