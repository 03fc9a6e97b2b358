use vstd::prelude::*;

use std::cmp::Ordering;
use std::ops::Deref;

use crate::grid_point2::GridPoint2;
use crate::root::{Root, RootIndex};
use crate::GridCoord;

verus! {

/// A cell: a column on a root quad together with a height `z`.
#[derive(Default, Clone, Copy, PartialEq, Eq, Debug, Hash, Structural)]
pub struct GridPoint3 {
    pub rxy: GridPoint2,
    pub z: GridCoord,
}

/// The cell in root `root` at `(x, y, z)`.
pub open spec fn cell_at(root: Root, x: GridCoord, y: GridCoord, z: GridCoord) -> GridPoint3 {
    GridPoint3 { rxy: GridPoint2 { root, x, y }, z }
}

impl GridPoint3 {
    /// Whether the column of `self` lies on or inside the edges of its
    /// root quad at the given resolution.
    pub open spec fn is_within_root(self, resolution: [GridCoord; 2]) -> bool {
        &&& 0 <= self.rxy.x <= resolution[0]
        &&& 0 <= self.rxy.y <= resolution[1]
    }

    pub fn new(root: Root, x: GridCoord, y: GridCoord, z: GridCoord) -> (p: GridPoint3)
        ensures
            p == cell_at(root, x, y, z),
    {
        GridPoint3 { rxy: GridPoint2::new(root, x, y), z: z }
    }

    pub fn with_root(&self, new_root_index: RootIndex) -> (p: Self)
        ensures
            p == cell_at(Root { index: new_root_index }, self.rxy.x, self.rxy.y, self.z),
    {
        let mut new_point = *self;
        new_point.rxy.root.index = new_root_index;
        new_point
    }

    pub fn with_x(&self, new_x: GridCoord) -> (p: Self)
        ensures
            p == cell_at(self.rxy.root, new_x, self.rxy.y, self.z),
    {
        let mut new_point = *self;
        new_point.rxy.x = new_x;
        new_point
    }

    pub fn with_y(&self, new_y: GridCoord) -> (p: Self)
        ensures
            p == cell_at(self.rxy.root, self.rxy.x, new_y, self.z),
    {
        let mut new_point = *self;
        new_point.rxy.y = new_y;
        new_point
    }

    pub fn with_z(&self, new_z: GridCoord) -> (p: Self)
        ensures
            p == cell_at(self.rxy.root, self.rxy.x, self.rxy.y, new_z),
    {
        let mut new_point = *self;
        new_point.z = new_z;
        new_point
    }
}

/// Gives access to the column fields (`root`, `x`, `y`) of a cell
/// directly on the cell.
impl Deref for GridPoint3 {
    type Target = GridPoint2;

    fn deref(&self) -> (r: &GridPoint2)
        ensures
            *r == self.rxy,
    {
        &self.rxy
    }
}

/// Whether `pos` is already expressed in the root quad that owns it.
///
/// Each root owns its cells except those on its north-west edge and its
/// west edges; the north pole belongs to root 0 and the south pole to
/// root 4.
pub open spec fn is_in_owning_root(pos: GridPoint3, resolution: [GridCoord; 2]) -> bool {
    let x = pos.rxy.x;
    let y = pos.rxy.y;
    if x == 0 && y == 0 {
        pos.rxy.root.index == 0
    } else if x == resolution[0] && y == resolution[1] {
        pos.rxy.root.index == 4
    } else {
        y != 0 && x != resolution[0]
    }
}

/// The representation of `pos` in the root quad that owns it.
///
/// Cells on a root's north-west edge are the next root west's
/// north-east edge; cells on the upper half of its west edge are the
/// lower half of the next root west's east edge; cells on the lower
/// half of its west edge are the next root west's south-east edge.
pub open spec fn owning_root_form(pos: GridPoint3, resolution: [GridCoord; 2]) -> GridPoint3 {
    let x = pos.rxy.x;
    let y = pos.rxy.y;
    let z = pos.z;
    let end_x = resolution[0];
    let end_y = resolution[1];
    let half_y = resolution[1] / 2;
    let west = Root { index: Root::west_of(pos.rxy.root.index as int) as u8 };
    if x == 0 && y == 0 {
        cell_at(Root { index: 0 }, 0, 0, z)
    } else if x == end_x && y == end_y {
        cell_at(Root { index: 4 }, end_x, end_y, z)
    } else if y == 0 {
        cell_at(west, 0, x, z)
    } else if x == end_x && y < half_y {
        cell_at(west, 0, (half_y + y) as i64, z)
    } else if x == end_x {
        cell_at(west, (y - half_y) as i64, end_y, z)
    } else {
        pos
    }
}

/// Resolutions for which root quads are twice as long in `y` as in `x`,
/// as every globe has.
pub open spec fn is_valid_root_resolution(resolution: [GridCoord; 2]) -> bool {
    &&& resolution[0] > 0
    &&& resolution[1] == 2 * resolution[0]
}

/// Wrapper type around a `GridPoint3` that is known to be expressed
/// in its owning root quad.
///
/// Note that this does not save you from accidentally using
/// positions from multiple incompatible globes with different
/// resolutions.
#[derive(Default, Clone, Copy, PartialEq, Eq, Debug, Hash, Structural)]
pub struct PosInOwningRoot {
    pos: GridPoint3,
}

impl View for PosInOwningRoot {
    type V = GridPoint3;

    closed spec fn view(&self) -> GridPoint3 {
        self.pos
    }
}

impl PosInOwningRoot {
    /// Returns a position equivalent to `pos`, but in whatever root owns
    /// the data for `pos`.
    ///
    /// The output only ever differs from the input if `pos` is on the edge
    /// of a root quad. `pos` must lie within the edges of its root.
    pub fn new(pos: GridPoint3, resolution: [GridCoord; 2]) -> (p: PosInOwningRoot)
        requires
            pos.z >= 0,
            pos.is_within_root(resolution),
        ensures
            p@ == owning_root_form(pos, resolution),
    {
        let end_x = resolution[0];
        let end_y = resolution[1];
        let half_y = resolution[1] / 2;

        let pos_in_owning_root = if pos.rxy.x == 0 && pos.rxy.y == 0 {
            // North pole; the first root owns it.
            GridPoint3::new(Root::new(0), 0, 0, pos.z)
        } else if pos.rxy.x == end_x && pos.rxy.y == end_y {
            // South pole; the last root owns it.
            GridPoint3::new(Root::new(4), end_x, end_y, pos.z)
        } else if pos.rxy.y == 0 {
            // Roots don't own their north-west edge;
            // translate to next root's north-east edge.
            GridPoint3::new(pos.rxy.root.next_west(), 0, pos.rxy.x, pos.z)
        } else if pos.rxy.x == end_x && pos.rxy.y < half_y {
            // Roots don't own their mid-west edge;
            // translate to the next root's mid-east edge.
            GridPoint3::new(pos.rxy.root.next_west(), 0, half_y + pos.rxy.y, pos.z)
        } else if pos.rxy.x == end_x {
            // Roots don't own their south-west edge;
            // translate to the next root's south-east edge.
            GridPoint3::new(pos.rxy.root.next_west(), pos.rxy.y - half_y, end_y, pos.z)
        } else {
            // `pos` is either on an edge owned by its root,
            // or somewhere in the middle of the root.
            pos
        };

        PosInOwningRoot { pos: pos_in_owning_root }
    }

    /// Set z-coordinate of underlying position.
    ///
    /// This is the one safe axis to operate on without knowing the
    /// globe resolution.
    pub fn set_z(&mut self, new_z: GridCoord)
        ensures
            final(self)@ == cell_at(old(self)@.rxy.root, old(self)@.rxy.x, old(self)@.rxy.y, new_z),
    {
        self.pos.z = new_z;
    }

    pub fn pos(&self) -> (p: &GridPoint3)
        ensures
            *p == self@,
    {
        &self.pos
    }
}

impl From<PosInOwningRoot> for GridPoint3 {
    fn from(p: PosInOwningRoot) -> (r: GridPoint3) {
        p.pos
    }
}

impl vstd::std_specs::convert::FromSpecImpl<PosInOwningRoot> for GridPoint3 {
    open spec fn obeys_from_spec() -> bool {
        true
    }

    open spec fn from_spec(p: PosInOwningRoot) -> GridPoint3 {
        p@
    }
}

/// A position in its owning root stays within the root, in a valid root
/// quad, and is already in owning form; a position already in owning form
/// is left unchanged. Together: translating into the owning root twice is
/// the same as doing it once.
pub proof fn lemma_owning_root_form_is_canonical(pos: GridPoint3, resolution: [GridCoord; 2])
    requires
        is_valid_root_resolution(resolution),
        pos.is_within_root(resolution),
        pos.rxy.root.index < 5,
    ensures
        owning_root_form(pos, resolution).is_within_root(resolution),
        owning_root_form(pos, resolution).rxy.root.index < 5,
        owning_root_form(pos, resolution).z == pos.z,
        is_in_owning_root(owning_root_form(pos, resolution), resolution),
        is_in_owning_root(pos, resolution) ==> owning_root_form(pos, resolution) == pos,
        owning_root_form(owning_root_form(pos, resolution), resolution) == owning_root_form(pos, resolution),
{
}

/// Whether column `b` is the next cell after `a` along a root's edge: in
/// the same root, one step further in exactly one of `x` and `y`.
pub open spec fn next_along_edge(a: GridPoint3, b: GridPoint3) -> bool {
    &&& a.rxy.root == b.rxy.root
    &&& a.z == b.z
    &&& ((b.rxy.x == a.rxy.x && b.rxy.y == a.rxy.y + 1) || (b.rxy.y == a.rxy.y && b.rxy.x == a.rxy.x + 1))
}

/// Translating the cells of a root's west edge into their owning root
/// keeps neighbors neighbors: walking south along the west edge, from the
/// west pentagon `(end_x, 0)` down to the cell before the south pole, walks
/// the next root west's east edges one cell at a time, in that root, from
/// its cell `(0, end_x)` on.
pub proof fn lemma_west_edge_stays_adjacent(root: Root, y: GridCoord, z: GridCoord, resolution: [GridCoord; 2])
    requires
        is_valid_root_resolution(resolution),
        root.index < 5,
        0 <= y,
        y + 1 < resolution[1],
    ensures
        owning_root_form(cell_at(root, resolution[0], y, z), resolution).rxy.root.index == (root.index + 4) % 5,
        next_along_edge(
            owning_root_form(cell_at(root, resolution[0], y, z), resolution),
            owning_root_form(cell_at(root, resolution[0], (y + 1) as GridCoord, z), resolution),
        ),
        y == 0 ==> owning_root_form(cell_at(root, resolution[0], y, z), resolution) == cell_at(
            Root { index: ((root.index + 4) % 5) as u8 },
            0,
            resolution[0],
            z,
        ),
{
}

/// Translating the cells of a root's north-west edge into their owning
/// root keeps neighbors neighbors: walking along the north-west edge away
/// from the north pole, up to the west pentagon, walks the next root
/// west's north-east edge one cell at a time, from its cell `(0, 1)` on.
pub proof fn lemma_north_west_edge_stays_adjacent(root: Root, x: GridCoord, z: GridCoord, resolution: [GridCoord; 2])
    requires
        is_valid_root_resolution(resolution),
        root.index < 5,
        1 <= x,
        x + 1 <= resolution[0],
    ensures
        owning_root_form(cell_at(root, x, 0, z), resolution).rxy.root.index == (root.index + 4) % 5,
        next_along_edge(
            owning_root_form(cell_at(root, x, 0, z), resolution),
            owning_root_form(cell_at(root, (x + 1) as GridCoord, 0, z), resolution),
        ),
        x == 1 ==> owning_root_form(cell_at(root, x, 0, z), resolution) == cell_at(
            Root { index: ((root.index + 4) % 5) as u8 },
            0,
            1,
            z,
        ),
{
}

/// Cells strictly inside a root quad are always owned by that root.
pub proof fn lemma_interior_is_owned(pos: GridPoint3, resolution: [GridCoord; 2])
    requires
        0 < pos.rxy.x < resolution[0],
        0 < pos.rxy.y < resolution[1],
    ensures
        owning_root_form(pos, resolution) == pos,
{
}

/// The order of `semi_arbitrary_compare`: by root, then z, then y, then x.
pub open spec fn semi_arbitrary_order(a: GridPoint3, b: GridPoint3) -> Ordering {
    if a.rxy.root.index < b.rxy.root.index {
        Ordering::Less
    } else if a.rxy.root.index > b.rxy.root.index {
        Ordering::Greater
    } else if a.z < b.z {
        Ordering::Less
    } else if a.z > b.z {
        Ordering::Greater
    } else if a.rxy.y < b.rxy.y {
        Ordering::Less
    } else if a.rxy.y > b.rxy.y {
        Ordering::Greater
    } else if a.rxy.x < b.rxy.x {
        Ordering::Less
    } else if a.rxy.x > b.rxy.x {
        Ordering::Greater
    } else {
        Ordering::Equal
    }
}

/// Compare by root, z, y, then x.
///
/// Sorting points by this will be cache-friendly when indexing into
/// chunks, which order their elements by z (coarsest) to x (finest).
pub fn semi_arbitrary_compare(a: &GridPoint3, b: &GridPoint3) -> (o: Ordering)
    ensures
        o == semi_arbitrary_order(*a, *b),
{
    if a.rxy.root.index < b.rxy.root.index {
        return Ordering::Less;
    }
    if a.rxy.root.index > b.rxy.root.index {
        return Ordering::Greater;
    }
    if a.z < b.z {
        return Ordering::Less;
    }
    if a.z > b.z {
        return Ordering::Greater;
    }
    if a.rxy.y < b.rxy.y {
        return Ordering::Less;
    }
    if a.rxy.y > b.rxy.y {
        return Ordering::Greater;
    }
    if a.rxy.x < b.rxy.x {
        Ordering::Less
    } else if a.rxy.x > b.rxy.x {
        Ordering::Greater
    } else {
        Ordering::Equal
    }
}

/// Two cells compare equal exactly when they are the same cell.
pub proof fn lemma_order_equal_iff_same(a: GridPoint3, b: GridPoint3)
    ensures
        (semi_arbitrary_order(a, b) == Ordering::Equal) <==> (a == b),
{
}

/// Swapping the arguments reverses the order.
pub proof fn lemma_order_antisymmetric(a: GridPoint3, b: GridPoint3)
    ensures
        (semi_arbitrary_order(a, b) == Ordering::Less) <==> (semi_arbitrary_order(b, a) == Ordering::Greater),
{
}

/// The order is transitive.
pub proof fn lemma_order_transitive(a: GridPoint3, b: GridPoint3, c: GridPoint3)
    requires
        semi_arbitrary_order(a, b) == Ordering::Less,
        semi_arbitrary_order(b, c) == Ordering::Less,
    ensures
        semi_arbitrary_order(a, c) == Ordering::Less,
{
}

} // verus!
