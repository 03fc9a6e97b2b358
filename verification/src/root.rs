use vstd::prelude::*;

verus! {

/// Index of one of the five root quads that tile the globe.
pub type RootIndex = u8;

/// The number of root quads that make up a globe.
pub const ROOT_QUADS: u8 = 5;

/// One of the five root quads of the globe.
#[derive(Default, Clone, Copy, PartialEq, Eq, Debug, Hash, Structural)]
pub struct Root {
    pub index: RootIndex,
}

impl Root {
    /// The index of the root quad to the west of the one with index `index`.
    pub open spec fn west_of(index: int) -> int {
        (index + 4) % 5
    }

    pub fn new(index: RootIndex) -> (r: Root)
        ensures
            r.index == index,
    {
        Root { index }
    }

    /// The root quad that neighbours this one to the west.
    pub fn next_west(&self) -> (r: Root)
        ensures
            r.index == Root::west_of(self.index as int),
    {
        Root::new((self.index % ROOT_QUADS + ROOT_QUADS - 1) % ROOT_QUADS)
    }
}

/// Stepping west five times around the globe comes back to the same root.
pub proof fn lemma_west_cycle(index: int)
    requires
        0 <= index < 5,
    ensures
        0 <= Root::west_of(index) < 5,
        Root::west_of(Root::west_of(Root::west_of(Root::west_of(Root::west_of(index))))) == index,
{
}

impl From<RootIndex> for Root {
    fn from(index: RootIndex) -> (r: Root) {
        Root::new(index)
    }
}

impl vstd::std_specs::convert::FromSpecImpl<RootIndex> for Root {
    open spec fn obeys_from_spec() -> bool {
        true
    }

    open spec fn from_spec(index: RootIndex) -> Root {
        Root { index }
    }
}

} // verus!
