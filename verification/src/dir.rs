use vstd::prelude::*;

verus! {

/// Index of a direction within a cell: even indices point at the six
/// edges of a hexagon, odd indices at its six vertices.
pub type DirIndex = u8;

/// A direction relative to a cell, as one of twelve evenly spaced
/// directions counter-clockwise from the positive x-axis.
#[derive(Default, Clone, Copy, PartialEq, Eq, Debug, Structural)]
pub struct Dir {
    pub index: DirIndex,
}

impl Dir {
    /// A direction is valid when it names one of the twelve directions.
    pub open spec fn is_valid(self) -> bool {
        self.index < 12
    }

    /// Whether this direction points at an edge (rather than a vertex)
    /// of a hexagonal cell.
    pub open spec fn is_hex_edge(self) -> bool {
        self.index % 2 == 0
    }

    /// This direction rotated by `units` twelfths of a full turn
    /// counter-clockwise, as a valid direction.
    pub open spec fn rotated(self, units: int) -> Dir {
        Dir { index: ((self.index + units) % 12) as u8 }
    }

    pub fn new(index: DirIndex) -> (d: Dir)
        ensures
            d.index == index,
    {
        Dir { index: index }
    }

    /// Returns `true` if `self` points toward an immediately
    /// adjacent cell, or equivalently toward an edge of the
    /// current cell (in the context of a hexagonal cell).
    pub fn points_at_hex_edge(&self) -> (b: bool)
        ensures
            b == self.is_hex_edge(),
    {
        self.index % 2 == 0
    }

    /// The next edge direction counter-clockwise.
    pub fn next_hex_edge_left(&self) -> (d: Dir)
        requires
            self.index + 2 <= u8::MAX,
        ensures
            d == self.rotated(2),
    {
        Dir::new((self.index + 2) % 12)
    }

    /// The next edge direction clockwise.
    pub fn next_hex_edge_right(&self) -> (d: Dir)
        requires
            self.index + 12 <= u8::MAX,
        ensures
            d == self.rotated(10),
    {
        Dir::new((self.index + 12 - 2) % 12)
    }

    /// The direction pointing the opposite way.
    pub fn opposite(&self) -> (d: Dir)
        requires
            self.index + 6 <= u8::MAX,
        ensures
            d == self.rotated(6),
    {
        Dir::new((self.index + 6) % 12)
    }
}

/// Every rotation yields a valid direction.
pub proof fn lemma_rotated_is_valid(d: Dir, units: int)
    requires
        units >= 0,
    ensures
        d.rotated(units).is_valid(),
{
}

/// Turning to the opposite direction twice gives back the starting
/// direction.
pub proof fn lemma_opposite_involution(d: Dir)
    requires
        d.is_valid(),
    ensures
        d.rotated(6).rotated(6) == d,
{
}

/// Turning to the next edge on the left undoes turning to the next edge
/// on the right, and vice versa.
pub proof fn lemma_left_right_inverse(d: Dir)
    requires
        d.is_valid(),
    ensures
        d.rotated(2).rotated(10) == d,
        d.rotated(10).rotated(2) == d,
{
}

/// Turning by whole edges keeps pointing at an edge, and keeps pointing
/// at a vertex.
pub proof fn lemma_turns_preserve_edge(d: Dir)
    ensures
        d.rotated(2).is_hex_edge() == d.is_hex_edge(),
        d.rotated(10).is_hex_edge() == d.is_hex_edge(),
        d.rotated(6).is_hex_edge() == d.is_hex_edge(),
{
}

/// Six turns by one edge make a full turn.
pub proof fn lemma_six_left_turns(d: Dir)
    requires
        d.is_valid(),
    ensures
        d.rotated(2).rotated(2).rotated(2).rotated(2).rotated(2).rotated(2) == d,
{
}

impl From<DirIndex> for Dir {
    fn from(dir_index: DirIndex) -> (d: Dir) {
        Dir::new(dir_index)
    }
}

impl vstd::std_specs::convert::FromSpecImpl<DirIndex> for Dir {
    open spec fn obeys_from_spec() -> bool {
        true
    }

    open spec fn from_spec(dir_index: DirIndex) -> Dir {
        Dir { index: dir_index }
    }
}

} // verus!
