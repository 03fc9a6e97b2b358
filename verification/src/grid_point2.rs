use vstd::prelude::*;

use crate::grid_point3::GridPoint3;
use crate::root::{Root, RootIndex};
use crate::GridCoord;

verus! {

/// A column of cells: a point on the surface of one root quad.
#[derive(Default, Clone, Copy, PartialEq, Eq, Debug, Hash, Structural)]
pub struct GridPoint2 {
    pub root: Root,
    pub x: GridCoord,
    pub y: GridCoord,
}

impl GridPoint2 {
    pub fn new(root: Root, x: GridCoord, y: GridCoord) -> (p: GridPoint2)
        ensures
            p == (GridPoint2 { root, x, y }),
    {
        GridPoint2 { root: root, x: x, y: y }
    }

    pub fn with_root(&self, new_root_index: RootIndex) -> (p: Self)
        ensures
            p == (GridPoint2 { root: Root { index: new_root_index }, ..*self }),
    {
        let mut new_point = *self;
        new_point.root.index = new_root_index;
        new_point
    }

    pub fn with_x(&self, new_x: GridCoord) -> (p: Self)
        ensures
            p == (GridPoint2 { x: new_x, ..*self }),
    {
        let mut new_point = *self;
        new_point.x = new_x;
        new_point
    }

    pub fn with_y(&self, new_y: GridCoord) -> (p: Self)
        ensures
            p == (GridPoint2 { y: new_y, ..*self }),
    {
        let mut new_point = *self;
        new_point.y = new_y;
        new_point
    }

    /// The cell at height `z` in this column.
    pub fn with_z(&self, z: GridCoord) -> (p: GridPoint3)
        ensures
            p == (GridPoint3 { rxy: *self, z }),
    {
        GridPoint3::new(self.root, self.x, self.y, z)
    }
}

} // verus!
