use vstd::prelude::*;

verus! {

/// Identifies a player across all peers.
#[derive(Debug, Eq, PartialEq, Clone, Copy, Structural)]
pub struct PlayerId(pub u16);

/// Network messages about players.
#[derive(Debug, Eq, PartialEq, Clone)]
pub enum PlayerMessage {
    NewPlayer(NewPlayerMessage),
    // Tell a client about the new player ID created for them,
    // or the player they are taking over.
    YourPlayer(PlayerId),
    NewFighter(u64),
    YourFighter(u64),
}

/// Announces a new player.
#[derive(Debug, Eq, PartialEq, Clone)]
pub struct NewPlayerMessage {
    pub id: PlayerId,
    pub name: String,
}

} // verus!
