use vstd::prelude::*;

use super::message::Message;
use super::player::PlayerId;
use crate::net::{Destination, SendMessage, Transport};

verus! {

/// Network messages about weapons.
#[derive(Debug, Eq, PartialEq, Clone, Structural)]
pub enum WeaponMessage {
    ShootGrenade(ShootGrenadeMessage),
    NewGrenade(NewGrenadeMessage),
}

/// Asks for a grenade to be fired by a player's cell dweller.
#[derive(Debug, Eq, PartialEq, Clone, Structural)]
pub struct ShootGrenadeMessage {
    pub fired_by_player_id: PlayerId,
    pub fired_by_cell_dweller_entity_id: u64,
}

/// Announces a grenade fired by a player's cell dweller.
#[derive(Debug, Eq, PartialEq, Clone, Structural)]
pub struct NewGrenadeMessage {
    pub fired_by_player_id: PlayerId,
    pub fired_by_cell_dweller_entity_id: u64,
}

/// What to do about one received weapon message.
#[derive(Debug, Eq, PartialEq, Clone)]
pub enum WeaponAction {
    /// Send this message.
    Send(SendMessage<Message>),
    /// Fire a grenade from the cell dweller with this global ID, on behalf
    /// of this player, if that cell dweller is known.
    ShootGrenade { fired_by_player_id: PlayerId, fired_by_cell_dweller_entity_id: u64 },
}

/// Decides what to do about a received weapon message.
///
/// A request to fire a grenade is answered by telling everyone, this peer
/// included, by TCP, to spawn it; being told to spawn a grenade fires it.
pub fn route_weapon_message(message: WeaponMessage) -> (a: WeaponAction)
    ensures
        match message {
            WeaponMessage::ShootGrenade(m) => a == WeaponAction::Send(
                SendMessage {
                    destination: Destination::EveryoneIncludingSelf,
                    game_message: Message::Weapon(
                        WeaponMessage::NewGrenade(
                            NewGrenadeMessage {
                                fired_by_player_id: m.fired_by_player_id,
                                fired_by_cell_dweller_entity_id: m.fired_by_cell_dweller_entity_id,
                            },
                        ),
                    ),
                    transport: Transport::TCP,
                },
            ),
            WeaponMessage::NewGrenade(m) => a == WeaponAction::ShootGrenade {
                fired_by_player_id: m.fired_by_player_id,
                fired_by_cell_dweller_entity_id: m.fired_by_cell_dweller_entity_id,
            },
        },
{
    match message {
        WeaponMessage::ShootGrenade(shoot_grenade_message) => {
            WeaponAction::Send(
                SendMessage {
                    destination: Destination::EveryoneIncludingSelf,
                    game_message: Message::Weapon(
                        WeaponMessage::NewGrenade(
                            NewGrenadeMessage {
                                fired_by_player_id: shoot_grenade_message.fired_by_player_id,
                                fired_by_cell_dweller_entity_id: shoot_grenade_message.fired_by_cell_dweller_entity_id,
                            },
                        ),
                    ),
                    transport: Transport::TCP,
                },
            )
        },
        WeaponMessage::NewGrenade(new_grenade_message) => {
            WeaponAction::ShootGrenade {
                fired_by_player_id: new_grenade_message.fired_by_player_id,
                fired_by_cell_dweller_entity_id: new_grenade_message.fired_by_cell_dweller_entity_id,
            }
        },
    }
}

} // verus!
