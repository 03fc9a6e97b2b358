//! Addressing of messages between network peers.
use vstd::prelude::*;

verus! {

/// A network peer.
#[derive(Debug, Eq, PartialEq, Clone, Copy, Structural)]
pub struct PeerId(pub u16);

/// Who a message is sent to.
#[derive(Debug, Eq, PartialEq, Clone, Copy, Structural)]
pub enum Destination {
    One(PeerId),
    EveryoneElse,
    EveryoneElseExcept(PeerId),
    EveryoneIncludingSelf,
    /// The server, which may be this peer.
    Master,
}

/// How a message is sent.
#[derive(Debug, Eq, PartialEq, Clone, Copy, Structural)]
pub enum Transport {
    UDP,
    TCP,
}

/// A game message to be sent to some peers.
#[derive(Debug, Eq, PartialEq, Clone)]
pub struct SendMessage<G> {
    pub destination: Destination,
    pub game_message: G,
    pub transport: Transport,
}

} // verus!
