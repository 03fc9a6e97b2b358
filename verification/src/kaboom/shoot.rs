//! Firing grenades while the shoot key is held.
use vstd::prelude::*;

use std::collections::VecDeque;
use std::sync::mpsc;

use super::message::Message;
use super::player::PlayerId;
use super::weapon::{ShootGrenadeMessage, WeaponMessage};
use crate::input::Key;
use crate::net::{Destination, SendMessage, Transport};

verus! {

/// The shoot key was pressed (`true`) or released.
#[derive(Debug, Eq, PartialEq, Clone, Copy, Structural)]
pub struct ShootEvent(pub bool);

/// Turns key presses into `ShootEvent`s sent down a channel.
pub struct ShootInputAdapter {
    sender: mpsc::Sender<ShootEvent>,
}

impl ShootInputAdapter {
    /// The channel this adapter sends its events to.
    pub closed spec fn sender(&self) -> mpsc::Sender<ShootEvent> {
        self.sender
    }

    pub fn new(sender: mpsc::Sender<ShootEvent>) -> (a: ShootInputAdapter)
        ensures
            a.sender() == sender,
    {
        ShootInputAdapter { sender: sender }
    }

    /// The event for `key` being pressed (`is_down`) or released: the
    /// space bar shoots; other keys mean nothing here.
    pub fn event_for_key(key: Key, is_down: bool) -> (e: Option<ShootEvent>)
        ensures
            e == (if key == Key::Space {
                Some(ShootEvent(is_down))
            } else {
                None::<ShootEvent>
            }),
    {
        match key {
            Key::Space => Some(ShootEvent(is_down)),
            _ => None,
        }
    }
}

/// The shoot key's state after `events`, starting from `shoot`: the last
/// event wins.
pub open spec fn shoot_after(shoot: bool, events: Seq<ShootEvent>) -> bool {
    if events.len() == 0 {
        shoot
    } else {
        events.last().0
    }
}

/// The request, sent to the server by UDP, to fire a grenade from the cell
/// dweller with global ID `entity_id`, on behalf of player `player_id`.
pub open spec fn shoot_request(player_id: PlayerId, entity_id: u64) -> SendMessage<Message> {
    SendMessage {
        destination: Destination::Master,
        game_message: Message::Weapon(
            WeaponMessage::ShootGrenade(
                ShootGrenadeMessage {
                    fired_by_player_id: player_id,
                    fired_by_cell_dweller_entity_id: entity_id,
                },
            ),
        ),
        transport: Transport::UDP,
    }
}

/// Asks the server to fire a grenade when the shoot key is pressed.
pub struct ShootSystem {
    shoot: bool,
}

impl ShootSystem {
    /// Whether a shot is wanted.
    pub closed spec fn shooting(&self) -> bool {
        self.shoot
    }

    pub fn new() -> (s: ShootSystem)
        ensures
            !s.shooting(),
    {
        ShootSystem { shoot: false }
    }

    /// Takes in the input events received since the last run, oldest
    /// first.
    pub fn consume_input(&mut self, events: &Vec<ShootEvent>)
        ensures
            final(self).shooting() == shoot_after(old(self).shooting(), events@),
    {
        let mut i: usize = 0;
        while i < events.len()
            invariant
                0 <= i <= events@.len(),
                self.shoot == shoot_after(old(self).shoot, events@.take(i as int)),
            decreases events@.len() - i,
        {
            self.shoot = events[i].0;
            i = i + 1;
            proof {
                assert(events@.take(i as int).last() == events@[i - 1]);
            }
        }
        proof {
            assert(events@.take(events@.len() as int) =~= events@);
        }
    }

    /// One run for the controlled fighter: takes in `events`, and then,
    /// if a shot is wanted and the fighter is not `still_waiting_to_shoot`,
    /// queues a request to the server to fire a grenade, forgets the
    /// wish to shoot, and returns `true`; the caller then restarts the
    /// fighter's wait. The player's ID and the fighter's global ID are
    /// needed only then.
    pub fn run(
        &mut self,
        events: &Vec<ShootEvent>,
        still_waiting_to_shoot: bool,
        send_message_queue: &mut VecDeque<SendMessage<Message>>,
        player_id: Option<PlayerId>,
        entity_id: Option<u64>,
    ) -> (fired: bool)
        requires
            shoot_after(old(self).shooting(), events@) && !still_waiting_to_shoot ==> {
                &&& player_id is Some
                &&& entity_id is Some
            },
        ensures
            fired == (shoot_after(old(self).shooting(), events@) && !still_waiting_to_shoot),
            final(self).shooting() == (shoot_after(old(self).shooting(), events@) && !fired),
            final(send_message_queue)@ == if fired {
                old(send_message_queue)@.push(shoot_request(player_id.unwrap(), entity_id.unwrap()))
            } else {
                old(send_message_queue)@
            },
    {
        self.consume_input(events);
        if self.shoot && !still_waiting_to_shoot {
            self.shoot = false;
            let fired_by_player_id = match player_id {
                Some(id) => id,
                None => PlayerId(0),
            };
            let fired_by_cell_dweller_entity_id = match entity_id {
                Some(id) => id,
                None => 0,
            };
            // Ask the server/master to spawn a grenade.
            send_message_queue.push_back(
                SendMessage {
                    destination: Destination::Master,
                    game_message: Message::Weapon(
                        WeaponMessage::ShootGrenade(
                            ShootGrenadeMessage {
                                fired_by_player_id: fired_by_player_id,
                                fired_by_cell_dweller_entity_id: fired_by_cell_dweller_entity_id,
                            },
                        ),
                    ),
                    transport: Transport::UDP,
                },
            );
            true
        } else {
            false
        }
    }
}

} // verus!
