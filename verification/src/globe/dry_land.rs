//! Searching a column of cells for dry land to stand on.
use vstd::prelude::*;

use super::chunk::Material;
use crate::cell_pos::{CellPos, PosInOwningRoot};
use crate::grid_point2::GridPoint2;
use crate::{random_column, GridCoord};
use rand::rngs::StdRng;
use crate::grid_point3::owning_root_form;
use crate::IntCoord;

verus! {

/// Whether the cell at height `z` of `column` (where `column[i]` is the
/// cell at height `i`) is land with at least `min_air_cells_above`
/// contiguous cells of air directly above it.
pub open spec fn is_dry_land(column: Seq<Material>, z: int, min_air_cells_above: int) -> bool {
    &&& 0 <= z < column.len()
    &&& column[z] == Material::Dirt
    &&& forall|k: int| 1 <= k <= min_air_cells_above ==> z + k < column.len() && #[trigger] column[z + k] == Material::Air
}

/// The dry land that `find_dry_land` finds, searching from distance `d`
/// on: at each distance it tries `d` below the start, then `d + 1` above
/// it, and gives up beyond `max_distance`.
pub open spec fn dry_land_from(
    column: Seq<Material>,
    start_z: int,
    min_air_cells_above: int,
    d: int,
    max_distance: int,
) -> Option<int>
    decreases max_distance + 1 - d,
{
    if d > max_distance {
        None
    } else if is_dry_land(column, start_z - d, min_air_cells_above) {
        Some(start_z - d)
    } else if is_dry_land(column, start_z + 1 + d, min_air_cells_above) {
        Some(start_z + 1 + d)
    } else {
        dry_land_from(column, start_z, min_air_cells_above, d + 1, max_distance)
    }
}

/// The larger of `a` and zero.
pub open spec fn at_least_zero(a: int) -> int {
    if a < 0 { 0 } else { a }
}

fn is_dry_land_at(column: &Vec<Material>, z: IntCoord, min_air_cells_above: IntCoord) -> (b: bool)
    requires
        z >= 0 ==> z + at_least_zero(min_air_cells_above as int) < column@.len(),
        z + at_least_zero(min_air_cells_above as int) < i64::MAX,
    ensures
        b == is_dry_land(column@, z as int, min_air_cells_above as int),
{
    if z < 0 {
        return false;
    }
    let height: usize = column.len();
    assert(z < height);
    // If it's not land, then we're not interested.
    match column[z as usize] {
        Material::Dirt => {},
        _ => return false,
    }
    // Ensure minimum required air above.
    let mut k: IntCoord = 1;
    while k <= min_air_cells_above
        invariant
            1 <= k,
            min_air_cells_above >= 1 ==> k <= min_air_cells_above + 1,
            0 <= z,
            height == column@.len(),
            z + at_least_zero(min_air_cells_above as int) < column@.len(),
            z + at_least_zero(min_air_cells_above as int) < i64::MAX,
            forall|j: int| 1 <= j < k ==> z + j < column@.len() && #[trigger] column@[z + j] == Material::Air,
        decreases min_air_cells_above + 1 - k,
    {
        match column[(z + k) as usize] {
            Material::Air => {},
            _ => return false,
        }
        k = k + 1;
    }
    true
}

/// How far `z` is from the cells searched first around `start_z`: the
/// search tries `start_z - d` and then `start_z + 1 + d` at distance `d`.
pub open spec fn search_distance(start_z: int, z: int) -> int {
    if z <= start_z {
        start_z - z
    } else {
        z - start_z - 1
    }
}

/// Whether the cell at height `z` of `column` holds dirt, with air in
/// each of the `min_air_cells_above` cells straight above it.
pub open spec fn dirt_under_air(column: Seq<Material>, z: int, min_air_cells_above: int) -> bool {
    &&& 0 <= z < column.len()
    &&& column[z] == Material::Dirt
    &&& forall|k: int| 1 <= k <= min_air_cells_above ==> z + k < column.len() && #[trigger] column[z + k] == Material::Air
}

/// What the search for dry land finds, from distance `d` on: a cell of
/// dirt with enough air above it, no further than `max_distance`, such
/// that no cell nearer the start (from distance `d` on), nor the cell
/// below the start at the same distance, is one; and it finds nothing
/// only when no cell within reach is one.
pub proof fn lemma_dry_land_is_nearest_dirt_under_air(
    column: Seq<Material>,
    start_z: int,
    min_air_cells_above: int,
    d: int,
    max_distance: int,
)
    requires
        0 <= d,
    ensures
        dry_land_from(column, start_z, min_air_cells_above, d, max_distance) matches Some(z) ==> {
            &&& dirt_under_air(column, z, min_air_cells_above)
            &&& d <= search_distance(start_z, z) <= max_distance
            &&& forall|w: int|
                d <= search_distance(start_z, w) < search_distance(start_z, z) ==> !#[trigger] dirt_under_air(
                    column,
                    w,
                    min_air_cells_above,
                )
            &&& z > start_z ==> !dirt_under_air(column, start_z - search_distance(start_z, z), min_air_cells_above)
        },
        dry_land_from(column, start_z, min_air_cells_above, d, max_distance) is None ==> forall|w: int|
            d <= search_distance(start_z, w) <= max_distance ==> !#[trigger] dirt_under_air(
                column,
                w,
                min_air_cells_above,
            ),
    decreases max_distance + 1 - d,
{
    if d <= max_distance {
        lemma_dry_land_is_nearest_dirt_under_air(column, start_z, min_air_cells_above, d + 1, max_distance);
        assert forall|w: int| search_distance(start_z, w) == d implies (w == start_z - d || w == start_z + 1 + d) by {}
        assert(dirt_under_air(column, start_z - d, min_air_cells_above) == is_dry_land(column, start_z - d, min_air_cells_above));
        assert(dirt_under_air(column, start_z + 1 + d, min_air_cells_above) == is_dry_land(column, start_z + 1 + d, min_air_cells_above));
    }
}

/// Attempts to find dry land near (above or below) `start_pos`, given
/// `column`, the cells of its column from height 0 up (`column[i]` is the
/// cell at height `i`), far enough up to cover the search.
///
/// A land cell will only be returned if it has at least as many
/// contiguous cells of air directly above it as `min_air_cells_above`.
/// The search alternates between looking down, starting at `start_pos`,
/// and looking up, starting one above it, one cell further each time.
///
/// Returns `None` if no such cell lies within `max_distance_from_starting_point`.
///
/// This returns the position of the cell containing land, not the first
/// cell above it containing air.
pub fn find_dry_land(
    start_pos: CellPos,
    column: &Vec<Material>,
    min_air_cells_above: IntCoord,
    max_distance_from_starting_point: IntCoord,
) -> (r: Option<CellPos>)
    requires
        start_pos.z + max_distance_from_starting_point + 1 + at_least_zero(min_air_cells_above as int) < column@.len(),
        start_pos.z + max_distance_from_starting_point + 2 + at_least_zero(min_air_cells_above as int) < i64::MAX,
        start_pos.z - max_distance_from_starting_point - 1 >= i64::MIN,
    ensures
        r == match dry_land_from(
            column@,
            start_pos.z as int,
            min_air_cells_above as int,
            0,
            max_distance_from_starting_point as int,
        ) {
            Some(z) => Some(CellPos { rxy: start_pos.rxy, z: z as IntCoord }),
            None => None::<CellPos>,
        },
        r matches Some(p) ==> {
            &&& p.rxy == start_pos.rxy
            &&& 0 <= p.z < column@.len()
            &&& column@[p.z as int] == Material::Dirt
            &&& forall|k: int|
                1 <= k <= min_air_cells_above ==> p.z + k < column@.len() && #[trigger] column@[p.z + k] == Material::Air
            &&& search_distance(start_pos.z as int, p.z as int) <= max_distance_from_starting_point
        },
        r is None ==> forall|w: int|
            0 <= search_distance(start_pos.z as int, w) <= max_distance_from_starting_point ==> !#[trigger] dirt_under_air(
                column@,
                w,
                min_air_cells_above as int,
            ),
{
    proof {
        lemma_dry_land_is_nearest_dirt_under_air(
            column@,
            start_pos.z as int,
            min_air_cells_above as int,
            0,
            max_distance_from_starting_point as int,
        );
    }
    let ghost max = max_distance_from_starting_point as int;
    let ghost start = start_pos.z as int;
    let mut distance_from_start: IntCoord = 0;
    while distance_from_start <= max_distance_from_starting_point
        invariant
            0 <= distance_from_start,
            distance_from_start <= max + 1 || distance_from_start == 0,
            max == max_distance_from_starting_point,
            start == start_pos.z,
            start + max + 1 + at_least_zero(min_air_cells_above as int) < column@.len(),
            start + max + 2 + at_least_zero(min_air_cells_above as int) < i64::MAX,
            start - max - 1 >= i64::MIN,
            dry_land_from(column@, start, min_air_cells_above as int, 0, max) == dry_land_from(
                column@,
                start,
                min_air_cells_above as int,
                distance_from_start as int,
                max,
            ),
        decreases max + 1 - distance_from_start,
    {
        let down_z = start_pos.z - distance_from_start;
        if is_dry_land_at(column, down_z, min_air_cells_above) {
            return Some(CellPos { rxy: start_pos.rxy, z: down_z });
        }
        let up_z = start_pos.z + 1 + distance_from_start;
        if is_dry_land_at(column, up_z, min_air_cells_above) {
            return Some(CellPos { rxy: start_pos.rxy, z: up_z });
        }
        distance_from_start = distance_from_start + 1;
    }
    None
}

/// Finds the lowest cell of `column` that contains `material`, given
/// `cells`, the cells of that column in the root that owns it, from
/// bedrock (height 0) up. The column is first translated into its owning
/// root; its height does not matter.
///
/// Some cell of the column must contain `material`.
pub fn find_lowest_cell_containing(
    column: CellPos,
    root_resolution: [IntCoord; 2],
    cells: &Vec<Material>,
    material: Material,
) -> (p: CellPos)
    requires
        column.z >= 0,
        column.as_grid_point3().is_within_root(root_resolution),
        cells@.len() <= i64::MAX,
        exists|z: int| 0 <= z < cells@.len() && #[trigger] cells@[z] == material,
    ensures
        p.rxy == owning_root_form(column.as_grid_point3(), root_resolution).rxy,
        0 <= p.z < cells@.len(),
        cells@[p.z as int] == material,
        forall|z: int| 0 <= z < p.z ==> #[trigger] cells@[z] != material,
{
    // Translate into owning root, then start at bedrock.
    let mut owned = PosInOwningRoot::new(column, root_resolution);
    owned.set_z(0);
    let mut z: usize = 0;
    while z < cells.len()
        invariant
            z <= cells@.len(),
            cells@.len() <= i64::MAX,
            owned@.rxy == owning_root_form(column.as_grid_point3(), root_resolution).rxy,
            forall|k: int| 0 <= k < z ==> #[trigger] cells@[k] != material,
        decreases cells@.len() - z,
    {
        if cells[z] == material {
            // Yay, we found it!
            return CellPos { rxy: owned.pos().rxy, z: z as IntCoord };
        }
        z = z + 1;
    }
    proof {
        let w = choose|w: int| 0 <= w < cells@.len() && #[trigger] cells@[w] == material;
        assert(cells@[w] != material);
    }
    CellPos { rxy: owned.pos().rxy, z: 0 }
}

/// What to do next while looking for a random place to spawn on dry land.
#[derive(Debug, Eq, PartialEq, Clone, Copy, Structural)]
pub enum SpawnStep {
    /// Look for dry land at the surface of this column (see
    /// `find_dry_land`), and report what was found to `attempt_done`.
    TryColumn(GridPoint2),
    /// The cell of air immediately above the dry land found.
    Found(CellPos),
    /// No dry land was found in any of the attempts allowed.
    GiveUp,
}

/// A search for a random cell immediately above dry land, trying a new
/// random column up to a given number of times.
pub struct SpawnSearch {
    attempts_remaining: usize,
}

impl SpawnSearch {
    /// How many more columns may be tried.
    pub closed spec fn attempts_remaining(&self) -> usize {
        self.attempts_remaining
    }

    pub fn new(max_attempts: usize) -> (s: SpawnSearch)
        ensures
            s.attempts_remaining() == max_attempts,
    {
        SpawnSearch { attempts_remaining: max_attempts }
    }

    /// The next step: try a new random column, or give up if no attempts
    /// remain.
    pub fn next_attempt(&self, root_resolution: [GridCoord; 2], rng: &mut StdRng) -> (s: SpawnStep)
        requires
            root_resolution[0] > 0,
        ensures
            (s == SpawnStep::GiveUp) == (self.attempts_remaining() == 0),
            s matches SpawnStep::TryColumn(c) ==> c.root.index < 5 && 0 <= c.x < root_resolution[0] && 0
                <= c.y < root_resolution[0],
            !(s is Found),
    {
        if self.attempts_remaining > 0 {
            SpawnStep::TryColumn(random_column(root_resolution, rng))
        } else {
            SpawnStep::GiveUp
        }
    }

    /// Takes in what the search of the last column tried found: the land
    /// cell, or `None`. Land found ends the search with the cell above it;
    /// otherwise one attempt is used up and the next step follows.
    pub fn attempt_done(&mut self, land: Option<CellPos>, root_resolution: [GridCoord; 2], rng: &mut StdRng) -> (s:
        SpawnStep)
        requires
            old(self).attempts_remaining() > 0,
            root_resolution[0] > 0,
            land matches Some(p) ==> p.z < i64::MAX,
        ensures
            land matches Some(p) ==> {
                &&& s == SpawnStep::Found(CellPos { rxy: p.rxy, z: (p.z + 1) as GridCoord })
                &&& final(self).attempts_remaining() == old(self).attempts_remaining()
            },
            land is None ==> {
                &&& final(self).attempts_remaining() == old(self).attempts_remaining() - 1
                &&& (s == SpawnStep::GiveUp) == (final(self).attempts_remaining() == 0)
                &&& s matches SpawnStep::TryColumn(c) ==> c.root.index < 5 && 0 <= c.x < root_resolution[0] && 0
                    <= c.y < root_resolution[0]
                &&& !(s is Found)
            },
    {
        match land {
            Some(pos) => {
                // We want the air above the land we found.
                SpawnStep::Found(CellPos { rxy: pos.rxy, z: pos.z + 1 })
            },
            None => {
                self.attempts_remaining = self.attempts_remaining - 1;
                self.next_attempt(root_resolution, rng)
            },
        }
    }
}

} // verus!
