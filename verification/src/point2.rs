//! Points of the grid under the names `Point2` and `Point3`.
use vstd::prelude::*;

use crate::grid_point3::{cell_at, GridPoint3};
use crate::root::{Root, RootIndex};
use crate::GridCoord;

verus! {

/// A cell: a column on a root quad together with a height `z`.
pub type Point3 = GridPoint3;

/// A column of cells: a point on the surface of one root quad.
#[derive(Default, Clone, Copy, PartialEq, Eq, Debug, Hash, Structural)]
pub struct Point2 {
    pub root: Root,
    pub x: GridCoord,
    pub y: GridCoord,
}

impl Point2 {
    pub fn new(root: Root, x: GridCoord, y: GridCoord) -> (p: Point2)
        ensures
            p == (Point2 { root, x, y }),
    {
        Point2 { root, x, y }
    }

    pub fn with_root(&self, new_root_index: RootIndex) -> (p: Self)
        ensures
            p == (Point2 { root: Root { index: new_root_index }, ..*self }),
    {
        let mut new_point = *self;
        new_point.root.index = new_root_index;
        new_point
    }

    pub fn with_x(&self, new_x: GridCoord) -> (p: Self)
        ensures
            p == (Point2 { x: new_x, ..*self }),
    {
        let mut new_point = *self;
        new_point.x = new_x;
        new_point
    }

    pub fn with_y(&self, new_y: GridCoord) -> (p: Self)
        ensures
            p == (Point2 { y: new_y, ..*self }),
    {
        let mut new_point = *self;
        new_point.y = new_y;
        new_point
    }

    /// The cell at height `z` in this column.
    pub fn with_z(&self, z: GridCoord) -> (p: Point3)
        ensures
            p == cell_at(self.root, self.x, self.y, z),
    {
        Point3::new(self.root, self.x, self.y, z)
    }
}

} // verus!
