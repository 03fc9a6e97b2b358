use vstd::prelude::*;

use super::player::PlayerMessage;
use super::weapon::WeaponMessage;
use crate::cell_dweller::CellDwellerMessage;

verus! {

/// Every network message of the game.
#[derive(Debug, Eq, PartialEq, Clone)]
pub enum Message {
    CellDweller(CellDwellerMessage),
    Player(PlayerMessage),
    Weapon(WeaponMessage),
}

} // verus!
