//! Entities that live in the cells of a globe, and the messages and
//! input events that move them around.
use vstd::prelude::*;

pub mod mining;
pub mod mining_system;
pub mod movement_system;
pub mod recv_system;

pub use self::mining::can_pick_up;
pub use self::mining_system::{MiningEvent, MiningInputAdapter, MiningSystem};
pub use self::movement_system::{MovementEvent, MovementInputAdapter, MovementSystem};

use crate::dir::Dir;
use crate::movement::TurnDir;
use crate::net::SendMessage;
use crate::point2::Point3;
use std::collections::VecDeque;

verus! {

/// Declares the channel sender that input adapters hand their events to.
#[verifier::external_type_specification]
#[verifier::external_body]
#[verifier::reject_recursive_types(T)]
pub struct ExSender<T>(std::sync::mpsc::Sender<T>);

/// Network messages about cell dwellers.
#[derive(Debug, Eq, PartialEq, Clone, Copy, Structural)]
pub enum CellDwellerMessage {
    SetPos(SetPosMessage),
    TryPickUpBlock(TryPickUpBlockMessage),
    RemoveBlock(RemoveBlockMessage),
}

/// Tells peers where a cell dweller now is and which way it faces.
#[derive(Debug, Eq, PartialEq, Clone, Copy, Structural)]
pub struct SetPosMessage {
    pub entity_id: u64,
    pub new_pos: Point3,
    pub new_dir: Dir,
    pub new_last_turn_bias: TurnDir,
}

/// Asks the server to pick up whatever block is in front of a cell
/// dweller.
#[derive(Debug, Eq, PartialEq, Clone, Copy, Structural)]
pub struct TryPickUpBlockMessage {
    pub cd_entity_id: u64,
}

/// Tells peers that the block at `pos` was removed.
///
/// The position is not sent as a position in its owning root, because
/// that cannot be trusted from clients.
#[derive(Debug, Eq, PartialEq, Clone, Copy, Structural)]
pub struct RemoveBlockMessage {
    pub pos: Point3,
}

/// Outbound cell-dweller network messages.
pub struct SendMessageQueue {
    /// Whether a network system will consume the queue; no messages need
    /// queueing otherwise.
    pub has_consumer: bool,
    pub queue: VecDeque<SendMessage<CellDwellerMessage>>,
}

impl SendMessageQueue {
    /// An empty queue that nothing consumes yet.
    pub fn new() -> (q: SendMessageQueue)
        ensures
            !q.has_consumer,
            q.queue@.len() == 0,
    {
        SendMessageQueue { has_consumer: false, queue: VecDeque::new() }
    }
}

} // verus!
