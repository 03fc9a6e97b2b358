//! Movement of positions and directions between cells of the grid.
use vstd::prelude::*;

pub mod triangles;
pub mod util;

pub use self::util::{adjacent_pos_in_dir, debug_assert_pos_within_root, is_on_root_edge, is_pentagon};

verus! {

/// Which way to turn when a choice of direction has to be made.
#[derive(Clone, Copy, PartialEq, Eq, Debug, Hash, Structural)]
pub enum TurnDir {
    Left,
    Right,
}

} // verus!
