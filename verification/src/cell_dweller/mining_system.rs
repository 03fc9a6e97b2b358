use vstd::prelude::*;

use std::sync::mpsc;

use super::{CellDwellerMessage, SendMessageQueue, TryPickUpBlockMessage};
use crate::input::Key;
use crate::net::{Destination, SendMessage, Transport};

verus! {

/// Input events for picking up blocks.
#[derive(Debug, Eq, PartialEq, Clone, Structural)]
pub enum MiningEvent {
    PickUp(bool),
}

/// Turns key presses into `MiningEvent`s sent down a channel.
pub struct MiningInputAdapter {
    sender: mpsc::Sender<MiningEvent>,
}

impl MiningInputAdapter {
    /// The channel this adapter sends its events to.
    pub closed spec fn sender(&self) -> mpsc::Sender<MiningEvent> {
        self.sender
    }

    pub fn new(sender: mpsc::Sender<MiningEvent>) -> (a: MiningInputAdapter)
        ensures
            a.sender() == sender,
    {
        MiningInputAdapter { sender }
    }

    /// The event for `key` being pressed (`is_down`) or released: the U
    /// key picks up; other keys mean nothing here.
    pub fn event_for_key(key: Key, is_down: bool) -> (e: Option<MiningEvent>)
        ensures
            e == (if key == Key::U {
                Some(MiningEvent::PickUp(is_down))
            } else {
                None::<MiningEvent>
            }),
    {
        match key {
            Key::U => Some(MiningEvent::PickUp(is_down)),
            _ => None,
        }
    }
}

/// The request, sent to the server (even when that is this peer), to pick
/// up the block in front of the cell dweller with global ID `cd_entity_id`.
pub open spec fn pick_up_request(cd_entity_id: u64) -> SendMessage<CellDwellerMessage> {
    SendMessage {
        destination: Destination::Master,
        game_message: CellDwellerMessage::TryPickUpBlock(TryPickUpBlockMessage { cd_entity_id }),
        transport: Transport::TCP,
    }
}

/// The pick-up key's state after `events`, starting from `pick_up`: the
/// last event wins.
pub open spec fn pick_up_after(pick_up: bool, events: Seq<MiningEvent>) -> bool {
    if events.len() == 0 {
        pick_up
    } else {
        match events.last() {
            MiningEvent::PickUp(b) => b,
        }
    }
}

/// Asks the server to pick up blocks while the pick-up key is held.
pub struct MiningSystem {
    pick_up: bool,
}

impl MiningSystem {
    /// Whether the pick-up key is held.
    pub closed spec fn picking_up(&self) -> bool {
        self.pick_up
    }

    pub fn new() -> (s: MiningSystem)
        ensures
            !s.picking_up(),
    {
        MiningSystem { pick_up: false }
    }

    /// Takes in the input events received since the last run, oldest
    /// first.
    pub fn consume_input(&mut self, events: &Vec<MiningEvent>)
        ensures
            final(self).picking_up() == pick_up_after(old(self).picking_up(), events@),
    {
        let mut i: usize = 0;
        while i < events.len()
            invariant
                0 <= i <= events@.len(),
                self.pick_up == pick_up_after(old(self).pick_up, events@.take(i as int)),
            decreases events@.len() - i,
        {
            match &events[i] {
                MiningEvent::PickUp(b) => self.pick_up = *b,
            }
            i = i + 1;
            proof {
                assert(events@.take(i as int).last() == events@[i - 1]);
            }
        }
        proof {
            assert(events@.take(events@.len() as int) =~= events@);
        }
    }

    /// One run: takes in `events`, and then, if the pick-up key is held
    /// and the cell dweller `can_pick_up` (see `can_pick_up`), queues a
    /// request to the server to pick up the block, provided something
    /// consumes the queue. The cell dweller's global ID, `cd_entity_id`,
    /// is needed only then.
    pub fn run(
        &mut self,
        events: &Vec<MiningEvent>,
        can_pick_up: bool,
        send_message_queue: &mut SendMessageQueue,
        cd_entity_id: Option<u64>,
    )
        requires
            pick_up_after(old(self).picking_up(), events@) && can_pick_up && old(send_message_queue).has_consumer
                ==> cd_entity_id is Some,
        ensures
            final(self).picking_up() == pick_up_after(old(self).picking_up(), events@),
            final(send_message_queue).has_consumer == old(send_message_queue).has_consumer,
            final(send_message_queue).queue@ == if final(self).picking_up() && can_pick_up
                && old(send_message_queue).has_consumer {
                old(send_message_queue).queue@.push(pick_up_request(cd_entity_id.unwrap()))
            } else {
                old(send_message_queue).queue@
            },
    {
        self.consume_input(events);
        if self.pick_up && can_pick_up {
            if send_message_queue.has_consumer {
                let id = match cd_entity_id {
                    Some(id) => id,
                    None => 0,
                };
                send_message_queue.queue.push_back(
                    SendMessage {
                        // Send the request to the master node, including when that's us.
                        destination: Destination::Master,
                        game_message: CellDwellerMessage::TryPickUpBlock(TryPickUpBlockMessage { cd_entity_id: id }),
                        transport: Transport::TCP,
                    },
                );
            }
        }
    }
}

} // verus!
