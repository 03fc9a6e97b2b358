use vstd::prelude::*;

use std::ops::Deref;

use crate::grid_point2::GridPoint2;
use crate::grid_point3::{cell_at, owning_root_form, GridPoint3};
use crate::root::{Root, RootIndex};
use crate::IntCoord;

verus! {

/// A cell position: a column on a root quad together with a height `z`.
///
/// It has the same layout as `GridPoint3`.
#[derive(Default, Clone, Copy, PartialEq, Eq, Debug, Hash, Structural)]
pub struct CellPos {
    pub rxy: GridPoint2,
    pub z: IntCoord,
}

impl CellPos {
    /// The same cell as a `GridPoint3`.
    pub open spec fn as_grid_point3(self) -> GridPoint3 {
        GridPoint3 { rxy: self.rxy, z: self.z }
    }

    pub fn new(root: Root, x: IntCoord, y: IntCoord, z: IntCoord) -> (p: CellPos)
        ensures
            p.as_grid_point3() == cell_at(root, x, y, z),
    {
        CellPos { rxy: GridPoint2::new(root, x, y), z: z }
    }

    pub fn with_root(&self, new_root_index: RootIndex) -> (p: Self)
        ensures
            p.as_grid_point3() == cell_at(Root { index: new_root_index }, self.rxy.x, self.rxy.y, self.z),
    {
        let mut new_point = *self;
        new_point.rxy.root.index = new_root_index;
        new_point
    }

    pub fn with_x(&self, new_x: IntCoord) -> (p: Self)
        ensures
            p.as_grid_point3() == cell_at(self.rxy.root, new_x, self.rxy.y, self.z),
    {
        let mut new_point = *self;
        new_point.rxy.x = new_x;
        new_point
    }

    pub fn with_y(&self, new_y: IntCoord) -> (p: Self)
        ensures
            p.as_grid_point3() == cell_at(self.rxy.root, self.rxy.x, new_y, self.z),
    {
        let mut new_point = *self;
        new_point.rxy.y = new_y;
        new_point
    }

    pub fn with_z(&self, new_z: IntCoord) -> (p: Self)
        ensures
            p.as_grid_point3() == cell_at(self.rxy.root, self.rxy.x, self.rxy.y, new_z),
    {
        let mut new_point = *self;
        new_point.z = new_z;
        new_point
    }
}

/// Gives access to the column fields (`root`, `x`, `y`) of a cell
/// directly on the cell.
impl Deref for CellPos {
    type Target = GridPoint2;

    fn deref(&self) -> (r: &GridPoint2)
        ensures
            *r == self.rxy,
    {
        &self.rxy
    }
}

/// Wrapper type around a `CellPos` that is known to be expressed
/// in its owning root quad.
///
/// Note that this does not save you from accidentally using
/// positions from multiple incompatible globes with different
/// resolutions.
#[derive(Default, Clone, Copy, PartialEq, Eq, Debug, Hash, Structural)]
pub struct PosInOwningRoot {
    pos: CellPos,
}

impl View for PosInOwningRoot {
    type V = CellPos;

    closed spec fn view(&self) -> CellPos {
        self.pos
    }
}

impl PosInOwningRoot {
    /// Returns a position equivalent to `pos`, but in whatever root owns
    /// the data for `pos`; the same rule as for `GridPoint3` positions.
    ///
    /// The output only ever differs from the input if `pos` is on the edge
    /// of a root quad. `pos` must lie within the edges of its root.
    pub fn new(pos: CellPos, resolution: [IntCoord; 2]) -> (p: PosInOwningRoot)
        requires
            pos.z >= 0,
            pos.as_grid_point3().is_within_root(resolution),
        ensures
            p@.as_grid_point3() == owning_root_form(pos.as_grid_point3(), resolution),
    {
        let end_x = resolution[0];
        let end_y = resolution[1];
        let half_y = resolution[1] / 2;

        let pos_in_owning_root = if pos.rxy.x == 0 && pos.rxy.y == 0 {
            // North pole; the first root owns it.
            CellPos::new(Root::new(0), 0, 0, pos.z)
        } else if pos.rxy.x == end_x && pos.rxy.y == end_y {
            // South pole; the last root owns it.
            CellPos::new(Root::new(4), end_x, end_y, pos.z)
        } else if pos.rxy.y == 0 {
            // Roots don't own their north-west edge;
            // translate to next root's north-east edge.
            CellPos::new(pos.rxy.root.next_west(), 0, pos.rxy.x, pos.z)
        } else if pos.rxy.x == end_x && pos.rxy.y < half_y {
            // Roots don't own their mid-west edge;
            // translate to the next root's mid-east edge.
            CellPos::new(pos.rxy.root.next_west(), 0, half_y + pos.rxy.y, pos.z)
        } else if pos.rxy.x == end_x {
            // Roots don't own their south-west edge;
            // translate to the next root's south-east edge.
            CellPos::new(pos.rxy.root.next_west(), pos.rxy.y - half_y, end_y, pos.z)
        } else {
            // `pos` is either on an edge owned by its root,
            // or somewhere in the middle of the root.
            pos
        };

        PosInOwningRoot { pos: pos_in_owning_root }
    }

    /// Set z-coordinate of underlying position.
    ///
    /// This is the one safe axis to operate on without knowing the
    /// globe resolution.
    pub fn set_z(&mut self, new_z: IntCoord)
        ensures
            final(self)@ == (CellPos { z: new_z, ..old(self)@ }),
    {
        self.pos.z = new_z;
    }

    pub fn pos(&self) -> (p: &CellPos)
        ensures
            *p == self@,
    {
        &self.pos
    }
}

impl From<PosInOwningRoot> for CellPos {
    fn from(p: PosInOwningRoot) -> (r: CellPos) {
        p.pos
    }
}

impl vstd::std_specs::convert::FromSpecImpl<PosInOwningRoot> for CellPos {
    open spec fn obeys_from_spec() -> bool {
        true
    }

    open spec fn from_spec(p: PosInOwningRoot) -> CellPos {
        p@
    }
}

} // verus!
