//! When a cell dweller may pick up the block in front of it.
use vstd::prelude::*;

use crate::globe::Material;
use crate::GridCoord;

verus! {

/// Whether a cell dweller standing at height `z` may pick up the block in
/// front of it, given the cell below it, the cell in front of it and the
/// cell above that one (`None` for a cell whose chunk is not loaded).
///
/// It must stand on dirt, the block in front must be dirt, and there must
/// be air above that block, so nothing is mined below the surface.
pub open spec fn may_pick_up(
    z: int,
    below: Option<Material>,
    in_front: Option<Material>,
    above_in_front: Option<Material>,
) -> bool {
    &&& z >= 0
    &&& below == Some(Material::Dirt)
    &&& in_front == Some(Material::Dirt)
    &&& above_in_front == Some(Material::Air)
}

/// A block is picked up only from above ground, only if it is dirt, and
/// only from under open air: never from under water or under other
/// blocks, nor when a cell involved is not loaded. Whenever all of that
/// holds, it may be picked up.
pub proof fn lemma_pick_up_needs_dirt_under_air(
    z: int,
    below: Option<Material>,
    in_front: Option<Material>,
    above_in_front: Option<Material>,
)
    ensures
        may_pick_up(z, below, in_front, above_in_front) ==> above_in_front == Some(Material::Air),
        may_pick_up(z, below, in_front, above_in_front) ==> in_front == Some(Material::Dirt),
        may_pick_up(z, below, in_front, above_in_front) ==> below == Some(Material::Dirt) && z >= 0,
        above_in_front == Some(Material::Water) ==> !may_pick_up(z, below, in_front, above_in_front),
        (z >= 0 && below == Some(Material::Dirt) && in_front == Some(Material::Dirt) && above_in_front == Some(
            Material::Air,
        )) ==> may_pick_up(z, below, in_front, above_in_front),
{
}

fn is_loaded_as(cell: Option<Material>, material: Material) -> (b: bool)
    ensures
        b == (cell == Some(material)),
{
    match cell {
        Some(m) => m == material,
        None => false,
    }
}

/// Decides whether a cell dweller at height `z` can pick up the block in
/// front of it, from the cells that the globe holds around it (see
/// `may_pick_up`). Looking the cells up, and finding the cell in front,
/// is the caller's part.
pub fn can_pick_up(
    z: GridCoord,
    below: Option<Material>,
    in_front: Option<Material>,
    above_in_front: Option<Material>,
) -> (b: bool)
    ensures
        b == may_pick_up(z as int, below, in_front, above_in_front),
        b ==> above_in_front == Some(Material::Air),
        b ==> in_front == Some(Material::Dirt) && below == Some(Material::Dirt) && z >= 0,
{
    if z < 0 {
        // There's nothing below; someone built a silly globe.
        return false;
    }
    if !is_loaded_as(below, Material::Dirt) {
        return false;
    }
    let anything_to_pick_up = is_loaded_as(in_front, Material::Dirt);
    let air_above_target = is_loaded_as(above_in_front, Material::Air);
    anything_to_pick_up && air_above_target
}

} // verus!
