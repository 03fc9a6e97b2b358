//! How a peer reacts to each received message about cell dwellers.
use vstd::prelude::*;

use super::{CellDwellerMessage, RemoveBlockMessage, SetPosMessage};
use crate::net::{Destination, PeerId, SendMessage, Transport};
use crate::point2::Point3;

verus! {

/// What to do about one received cell-dweller message. Finding the cell
/// dweller by its global ID, and touching the globe, is left to the
/// caller.
#[derive(Debug, Eq, PartialEq, Clone)]
pub enum CellDwellerAction {
    /// Move the cell dweller as the message says, and then send `forward`
    /// if there is one.
    SetPos { message: SetPosMessage, forward: Option<SendMessage<CellDwellerMessage>> },
    /// Pick up the block in front of the cell dweller with this global ID,
    /// if possible, and announce it with `announce_removed_block`.
    TryPickUpBlock(u64),
    /// Remove the block at this position.
    RemoveBlock(Point3),
}

/// Decides what to do about `message`, received from peer `source`.
///
/// A server passes position updates on to every other peer but the one
/// they came from, by UDP; a client just applies them.
pub fn route_message(message: CellDwellerMessage, source: PeerId, is_master: bool) -> (a: CellDwellerAction)
    ensures
        match message {
            CellDwellerMessage::SetPos(m) => a == CellDwellerAction::SetPos {
                message: m,
                forward: if is_master {
                    Some(
                        SendMessage {
                            destination: Destination::EveryoneElseExcept(source),
                            game_message: CellDwellerMessage::SetPos(m),
                            transport: Transport::UDP,
                        },
                    )
                } else {
                    None
                },
            },
            CellDwellerMessage::TryPickUpBlock(m) => a == CellDwellerAction::TryPickUpBlock(m.cd_entity_id),
            CellDwellerMessage::RemoveBlock(m) => a == CellDwellerAction::RemoveBlock(m.pos),
        },
{
    match message {
        CellDwellerMessage::SetPos(set_pos_message) => {
            // Inform all peers that don't yet know about this action.
            let forward = if is_master {
                Some(
                    SendMessage {
                        destination: Destination::EveryoneElseExcept(source),
                        game_message: CellDwellerMessage::SetPos(set_pos_message),
                        transport: Transport::UDP,
                    },
                )
            } else {
                None
            };
            CellDwellerAction::SetPos { message: set_pos_message, forward }
        },
        CellDwellerMessage::TryPickUpBlock(try_pick_up_block_message) => {
            CellDwellerAction::TryPickUpBlock(try_pick_up_block_message.cd_entity_id)
        },
        CellDwellerMessage::RemoveBlock(remove_block_message) => {
            CellDwellerAction::RemoveBlock(remove_block_message.pos)
        },
    }
}

/// The message telling every other peer that the block at `pos` was
/// removed, by TCP.
pub fn remove_block_announcement(pos: Point3) -> (m: SendMessage<CellDwellerMessage>)
    ensures
        m == (SendMessage {
            destination: Destination::EveryoneElse,
            game_message: CellDwellerMessage::RemoveBlock(RemoveBlockMessage { pos }),
            transport: Transport::TCP,
        }),
{
    SendMessage {
        destination: Destination::EveryoneElse,
        game_message: CellDwellerMessage::RemoveBlock(RemoveBlockMessage { pos: pos }),
        transport: Transport::TCP,
    }
}

} // verus!
