use vstd::prelude::*;

use std::sync::mpsc;

use super::{CellDwellerMessage, SendMessageQueue, SetPosMessage};
use crate::dir::Dir;
use crate::globe::Material;
use crate::input::Key;
use crate::movement::TurnDir;
use crate::net::{Destination, SendMessage, Transport};
use crate::point2::Point3;
use crate::GridCoord;

verus! {

/// Input events for stepping and turning; `true` while the key is held.
#[derive(Debug, Eq, PartialEq, Clone, Structural)]
pub enum MovementEvent {
    StepForward(bool),
    StepBackward(bool),
    TurnLeft(bool),
    TurnRight(bool),
}

/// The event for `key` being pressed (`is_down`) or released. The arrow
/// keys, IJKL and WASD each step forward, step backward, turn left and
/// turn right.
pub open spec fn movement_event_for(key: Key, is_down: bool) -> Option<MovementEvent> {
    match key {
        Key::Up | Key::I | Key::W => Some(MovementEvent::StepForward(is_down)),
        Key::Down | Key::K | Key::S => Some(MovementEvent::StepBackward(is_down)),
        Key::Left | Key::J | Key::A => Some(MovementEvent::TurnLeft(is_down)),
        Key::Right | Key::L | Key::D => Some(MovementEvent::TurnRight(is_down)),
        _ => None,
    }
}

/// Turns key presses into `MovementEvent`s sent down a channel.
pub struct MovementInputAdapter {
    sender: mpsc::Sender<MovementEvent>,
}

impl MovementInputAdapter {
    /// The channel this adapter sends its events to.
    pub closed spec fn sender(&self) -> mpsc::Sender<MovementEvent> {
        self.sender
    }

    pub fn new(sender: mpsc::Sender<MovementEvent>) -> (a: MovementInputAdapter)
        ensures
            a.sender() == sender,
    {
        MovementInputAdapter { sender: sender }
    }

    /// The event to send for `key` being pressed (`is_down`) or released.
    pub fn event_for_key(key: Key, is_down: bool) -> (e: Option<MovementEvent>)
        ensures
            e == movement_event_for(key, is_down),
    {
        match key {
            // Arrow keys, IJKL keys and WASD keys.
            Key::Up | Key::I | Key::W => Some(MovementEvent::StepForward(is_down)),
            Key::Down | Key::K | Key::S => Some(MovementEvent::StepBackward(is_down)),
            Key::Left | Key::J | Key::A => Some(MovementEvent::TurnLeft(is_down)),
            Key::Right | Key::L | Key::D => Some(MovementEvent::TurnRight(is_down)),
            _ => None,
        }
    }
}

/// Which movement keys are held.
#[derive(Debug, Eq, PartialEq, Clone, Copy, Structural)]
pub struct MovementControls {
    pub step_forward: bool,
    pub step_backward: bool,
    pub turn_left: bool,
    pub turn_right: bool,
}

/// The keys held after event `e`.
pub open spec fn apply_movement_event(c: MovementControls, e: MovementEvent) -> MovementControls {
    match e {
        MovementEvent::StepForward(b) => MovementControls { step_forward: b, ..c },
        MovementEvent::StepBackward(b) => MovementControls { step_backward: b, ..c },
        MovementEvent::TurnLeft(b) => MovementControls { turn_left: b, ..c },
        MovementEvent::TurnRight(b) => MovementControls { turn_right: b, ..c },
    }
}

/// The keys held after `events`, oldest first.
pub open spec fn controls_after(c: MovementControls, events: Seq<MovementEvent>) -> MovementControls
    decreases events.len(),
{
    if events.len() == 0 {
        c
    } else {
        apply_movement_event(controls_after(c, events.drop_last()), events.last())
    }
}

/// Which way a cell dweller steps.
#[derive(Debug, Eq, PartialEq, Clone, Copy, Structural)]
pub enum ForwardOrBackward {
    Forward,
    Backward,
}

/// Whether a cell dweller at height `z`, above `below` (`None` when its
/// chunk is not loaded), stands on ground it may move from: solid dirt.
pub open spec fn stands_on_ground(z: int, below: Option<Material>) -> bool {
    z >= 0 && below == Some(Material::Dirt)
}

/// How far a step climbs: cells `i..=last` of `cells` are the cells at
/// the step's target and above it; the first one that is not dirt is
/// where the step ends. `None` if a cell's chunk is not loaded before
/// one is found, or all are dirt.
pub open spec fn open_height_from(cells: Seq<Option<Material>>, i: int, last: int) -> Option<int>
    decreases last + 1 - i,
{
    if i > last {
        None
    } else {
        match cells[i] {
            None => None,
            Some(Material::Dirt) => open_height_from(cells, i + 1, last),
            Some(_) => Some(i),
        }
    }
}

/// The message telling every other peer, by UDP, where the cell dweller
/// with global ID `entity_id` now is.
pub open spec fn position_announcement(
    entity_id: u64,
    new_pos: Point3,
    new_dir: Dir,
    new_last_turn_bias: TurnDir,
) -> SendMessage<CellDwellerMessage> {
    SendMessage {
        destination: Destination::EveryoneElse,
        game_message: CellDwellerMessage::SetPos(SetPosMessage { entity_id, new_pos, new_dir, new_last_turn_bias }),
        transport: Transport::UDP,
    }
}

/// Steps and turns the controlled cell dweller while keys are held.
pub struct MovementSystem {
    controls: MovementControls,
    max_step_height: u8,
}

impl MovementSystem {
    /// Which keys are held.
    pub closed spec fn controls(&self) -> MovementControls {
        self.controls
    }

    /// How many blocks a step may climb.
    pub closed spec fn max_step_height(&self) -> u8 {
        self.max_step_height
    }

    pub fn new() -> (s: MovementSystem)
        ensures
            s.controls() == (MovementControls {
                step_forward: false,
                step_backward: false,
                turn_left: false,
                turn_right: false,
            }),
            s.max_step_height() == 1,
    {
        MovementSystem {
            controls: MovementControls {
                step_forward: false,
                step_backward: false,
                turn_left: false,
                turn_right: false,
            },
            max_step_height: 1,
        }
    }

    pub fn set_step_height(&mut self, new_max_step_height: u8)
        ensures
            final(self).max_step_height() == new_max_step_height,
            final(self).controls() == old(self).controls(),
    {
        self.max_step_height = new_max_step_height;
    }

    /// Takes in the input events received since the last run, oldest
    /// first.
    pub fn consume_input(&mut self, events: &Vec<MovementEvent>)
        ensures
            final(self).controls() == controls_after(old(self).controls(), events@),
            final(self).max_step_height() == old(self).max_step_height(),
    {
        let mut i: usize = 0;
        while i < events.len()
            invariant
                0 <= i <= events@.len(),
                self.max_step_height == old(self).max_step_height,
                self.controls == controls_after(old(self).controls, events@.take(i as int)),
            decreases events@.len() - i,
        {
            match &events[i] {
                MovementEvent::StepForward(b) => self.controls.step_forward = *b,
                MovementEvent::StepBackward(b) => self.controls.step_backward = *b,
                MovementEvent::TurnLeft(b) => self.controls.turn_left = *b,
                MovementEvent::TurnRight(b) => self.controls.turn_right = *b,
            }
            proof {
                assert(events@.take(i + 1).drop_last() =~= events@.take(i as int));
            }
            i = i + 1;
        }
        proof {
            assert(events@.take(events@.len() as int) =~= events@);
        }
    }

    /// Which way to step, if the cell dweller may move now: only when
    /// exactly one of forward and backward is held.
    pub fn step_direction(&self) -> (d: Option<ForwardOrBackward>)
        ensures
            d == (if self.controls().step_forward != self.controls().step_backward {
                Some(
                    if self.controls().step_forward {
                        ForwardOrBackward::Forward
                    } else {
                        ForwardOrBackward::Backward
                    },
                )
            } else {
                None::<ForwardOrBackward>
            }),
    {
        // We can only step if forward XOR backward. Otherwise we're not
        // trying to go anywhere, or we're trying to go both directions.
        if self.controls.step_forward != self.controls.step_backward {
            if self.controls.step_forward {
                Some(ForwardOrBackward::Forward)
            } else {
                Some(ForwardOrBackward::Backward)
            }
        } else {
            None
        }
    }

    /// Which way to turn, if the cell dweller may turn now: only when
    /// exactly one of left and right is held.
    pub fn turn_direction(&self) -> (t: Option<TurnDir>)
        ensures
            t == (if self.controls().turn_left && !self.controls().turn_right {
                Some(TurnDir::Left)
            } else if self.controls().turn_right && !self.controls().turn_left {
                Some(TurnDir::Right)
            } else {
                None::<TurnDir>
            }),
    {
        if self.controls.turn_left && !self.controls.turn_right {
            Some(TurnDir::Left)
        } else if self.controls.turn_right && !self.controls.turn_left {
            Some(TurnDir::Right)
        } else {
            None
        }
    }

    /// How many blocks a step climbs, given `cells`: the cell at the
    /// step's target and those above it, as far as `max_step_height`
    /// above (`None` for a cell whose chunk is not loaded). The step ends
    /// in the first one that is not dirt; `None` means no step.
    pub fn climb_height(&self, cells: &Vec<Option<Material>>) -> (h: Option<u8>)
        requires
            cells@.len() > self.max_step_height(),
        ensures
            h matches Some(x) ==> open_height_from(cells@, 0, self.max_step_height() as int) == Some(x as int),
            h is None ==> open_height_from(cells@, 0, self.max_step_height() as int) is None,
    {
        let ghost last = self.max_step_height as int;
        let mut i: usize = 0;
        while i <= self.max_step_height as usize
            invariant
                0 <= i <= last + 1,
                last == self.max_step_height,
                cells@.len() > last,
                open_height_from(cells@, 0, last) == open_height_from(cells@, i as int, last),
            decreases last + 1 - i,
        {
            match cells[i] {
                // Chunk not loaded; wait until it is before attempting to move.
                None => return None,
                Some(Material::Dirt) => {
                    // Try again one higher.
                    i = i + 1;
                },
                Some(_) => return Some(i as u8),
            }
        }
        None
    }
}

/// Decides whether a cell dweller at height `z` may step at all, given
/// the cell below it (`None` when its chunk is not loaded).
pub fn can_step_from(z: GridCoord, below: Option<Material>) -> (b: bool)
    ensures
        b == stands_on_ground(z as int, below),
{
    if z < 0 {
        // There's nothing below; someone built a silly globe.
        return false;
    }
    match below {
        Some(Material::Dirt) => true,
        _ => false,
    }
}

/// Tells every other peer where the cell dweller with global ID
/// `entity_id` now is, provided something consumes the queue; the ID is
/// needed only then.
pub fn announce_position(
    send_message_queue: &mut SendMessageQueue,
    entity_id: Option<u64>,
    new_pos: Point3,
    new_dir: Dir,
    new_last_turn_bias: TurnDir,
)
    requires
        old(send_message_queue).has_consumer ==> entity_id is Some,
    ensures
        final(send_message_queue).has_consumer == old(send_message_queue).has_consumer,
        final(send_message_queue).queue@ == if old(send_message_queue).has_consumer {
            old(send_message_queue).queue@.push(
                position_announcement(entity_id.unwrap(), new_pos, new_dir, new_last_turn_bias),
            )
        } else {
            old(send_message_queue).queue@
        },
{
    if send_message_queue.has_consumer {
        let id = match entity_id {
            Some(id) => id,
            None => 0,
        };
        send_message_queue.queue.push_back(
            SendMessage {
                destination: Destination::EveryoneElse,
                game_message: CellDwellerMessage::SetPos(
                    SetPosMessage {
                        entity_id: id,
                        new_pos: new_pos,
                        new_dir: new_dir,
                        new_last_turn_bias: new_last_turn_bias,
                    },
                ),
                transport: Transport::UDP,
            },
        );
    }
}

} // verus!
