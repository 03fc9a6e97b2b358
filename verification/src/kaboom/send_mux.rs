//! Gathering the game's outbound network messages into one queue.
use vstd::prelude::*;

use std::collections::VecDeque;

use super::message::Message;
use crate::cell_dweller::{CellDwellerMessage, SendMessageQueue};
use crate::net::SendMessage;

verus! {

/// A cell-dweller message to send, as a message of the game.
pub open spec fn as_game_message(m: SendMessage<CellDwellerMessage>) -> SendMessage<Message> {
    SendMessage {
        destination: m.destination,
        game_message: Message::CellDweller(m.game_message),
        transport: m.transport,
    }
}

/// Moves the messages that cell dwellers want sent into the game's own
/// queue of outbound messages.
pub struct SendMuxSystem {
    initialized: bool,
}

impl SendMuxSystem {
    /// Whether the system has run before.
    pub closed spec fn initialized(&self) -> bool {
        self.initialized
    }

    pub fn new() -> (s: SendMuxSystem)
        ensures
            !s.initialized(),
    {
        SendMuxSystem { initialized: false }
    }

    /// On the first run, tells the cell dwellers that their messages are
    /// now wanted; on every run, drains their queue into
    /// `send_message_queue`, in order.
    pub fn run(
        &mut self,
        send_message_queue: &mut VecDeque<SendMessage<Message>>,
        cell_dweller_send_queue: &mut SendMessageQueue,
    )
        ensures
            final(self).initialized(),
            final(cell_dweller_send_queue).has_consumer == (old(cell_dweller_send_queue).has_consumer
                || !old(self).initialized()),
            final(cell_dweller_send_queue).queue@.len() == 0,
            final(send_message_queue)@ == old(send_message_queue)@ + old(cell_dweller_send_queue).queue@.map_values(
                |m: SendMessage<CellDwellerMessage>| as_game_message(m),
            ),
    {
        if !self.initialized {
            // Signal to the cell dwellers that we want them to publish
            // network messages.
            cell_dweller_send_queue.has_consumer = true;
            self.initialized = true;
        }

        // Drain the cell dweller queue into the send message queue.
        let ghost pending = cell_dweller_send_queue.queue@;
        let ghost sent = send_message_queue@;
        while cell_dweller_send_queue.queue.len() > 0
            invariant
                cell_dweller_send_queue.has_consumer == (old(cell_dweller_send_queue).has_consumer
                    || !old(self).initialized()),
                pending == old(cell_dweller_send_queue).queue@,
                sent == old(send_message_queue)@,
                cell_dweller_send_queue.queue@.len() <= pending.len(),
                cell_dweller_send_queue.queue@ == pending.subrange(
                    pending.len() - cell_dweller_send_queue.queue@.len(),
                    pending.len() as int,
                ),
                send_message_queue@ == sent + pending.subrange(
                    0,
                    pending.len() - cell_dweller_send_queue.queue@.len(),
                ).map_values(|m: SendMessage<CellDwellerMessage>| as_game_message(m)),
            decreases cell_dweller_send_queue.queue@.len(),
        {
            let ghost before = cell_dweller_send_queue.queue@;
            let ghost out_before = send_message_queue@;
            let message = cell_dweller_send_queue.queue.pop_front().unwrap();
            send_message_queue.push_back(
                SendMessage {
                    destination: message.destination,
                    game_message: Message::CellDweller(message.game_message),
                    transport: message.transport,
                },
            );
            proof {
                let done = pending.len() - before.len();
                assert(message == pending[done]);
                assert(pending.subrange(0, done + 1) =~= pending.subrange(0, done).push(pending[done]));
                assert(pending.subrange(0, done + 1).map_values(|m: SendMessage<CellDwellerMessage>| as_game_message(m))
                    =~= pending.subrange(0, done).map_values(|m: SendMessage<CellDwellerMessage>| as_game_message(m)).push(
                    as_game_message(pending[done]),
                ));
                assert(cell_dweller_send_queue.queue@ =~= pending.subrange(
                    pending.len() - cell_dweller_send_queue.queue@.len(),
                    pending.len() as int,
                ));
            }
        }
        proof {
            assert(pending.subrange(0, pending.len() as int) =~= pending);
        }
    }
}

} // verus!
