//! The top-level state machine for the players of a game: creating
//! players, announcing them to peers, and reacting to what peers say
//! about players and their fighters.
//!
//! Each function here takes the game state and one event and returns the
//! next state, the messages to send, and any action that needs the
//! entity world (creating a fighter), which the caller performs.
use vstd::prelude::*;

use super::player::{NewPlayerMessage, PlayerId, PlayerMessage};
use crate::net::{Destination, PeerId, SendMessage, Transport};

verus! {

/// A message about players, to be sent to some peers.
pub type OutMessage = SendMessage<PlayerMessage>;

/// What the game knows about a player.
#[derive(Debug, Eq, PartialEq, Clone)]
pub struct PlayerRecord {
    pub id: PlayerId,
    /// The peer the player plays from.
    pub peer_id: PeerId,
    pub name: String,
    /// Global ID of the player's fighter, once it has one.
    pub fighter_entity: Option<u64>,
}

/// The state of the game's players, on the server or on a client.
pub struct GameModel {
    /// Every player, indexed by player ID.
    pub players: Vec<PlayerRecord>,
    /// Players that have joined but have no fighter yet, oldest first.
    pub new_players: Vec<PlayerId>,
    /// The player that this peer controls, once known.
    pub my_player_id: Option<PlayerId>,
}

impl GameModel {
    /// No players yet, and no player of our own.
    pub fn new() -> (s: GameModel)
        ensures
            s.players@.len() == 0,
            s.new_players@.len() == 0,
            s.my_player_id is None,
            s.is_consistent(),
    {
        GameModel { players: Vec::new(), new_players: Vec::new(), my_player_id: None }
    }

    /// Every player's ID is its place in `players`, and every player
    /// waiting for a fighter is one of them.
    pub open spec fn is_consistent(&self) -> bool {
        &&& self.players@.len() <= 65536
        &&& forall|i: int| 0 <= i < self.players@.len() ==> #[trigger] self.players@[i].id == PlayerId(i as u16)
        &&& forall|j: int| 0 <= j < self.new_players@.len() ==> (#[trigger] self.new_players@[j]).0 < self.players@.len()
    }
}

/// Work that needs the entity world, for the caller to perform.
#[derive(Debug, Eq, PartialEq, Clone, Copy, Structural)]
pub enum GameAction {
    Nothing,
    /// Create a fighter with the given global ID.
    CreateFighter(u64),
}

/// Whether `m` announces player `id`, named `name`, to `destination`.
pub open spec fn announces_player(m: OutMessage, destination: Destination, id: PlayerId, name: Seq<char>) -> bool {
    &&& m.destination == destination
    &&& m.transport == Transport::TCP
    &&& m.game_message matches PlayerMessage::NewPlayer(n) && n.id == id && n.name@ == name
}

/// The message telling peer `peer_id` that `id` is its player.
pub open spec fn your_player_message(peer_id: PeerId, id: PlayerId) -> OutMessage {
    SendMessage {
        destination: Destination::One(peer_id),
        game_message: PlayerMessage::YourPlayer(id),
        transport: Transport::TCP,
    }
}

/// The message telling peer `peer_id` about the fighter with global ID
/// `entity_id`.
pub open spec fn new_fighter_message(peer_id: PeerId, entity_id: u64) -> OutMessage {
    SendMessage {
        destination: Destination::One(peer_id),
        game_message: PlayerMessage::NewFighter(entity_id),
        transport: Transport::TCP,
    }
}

/// Adds a player for the peer `peer_id`, queues it for a fighter, tells
/// all other peers about it, and tells its owner that it is theirs.
///
/// The new player's ID is the number of players so far.
pub fn create_and_broadcast_player(
    state: &mut GameModel,
    send_message_queue: &mut Vec<OutMessage>,
    peer_id: PeerId,
    name: String,
)
    requires
        old(state).players.len() < 65536,
    ensures
        old(state).is_consistent() ==> final(state).is_consistent(),
        ({
            let id = PlayerId(old(state).players.len() as u16);
            &&& final(state).players@ == old(state).players@.push(
                PlayerRecord { id, peer_id, name, fighter_entity: None },
            )
            &&& final(state).new_players@ == old(state).new_players@.push(id)
            &&& final(state).my_player_id == old(state).my_player_id
            &&& final(send_message_queue)@.len() == old(send_message_queue)@.len() + 2
            &&& final(send_message_queue)@.take(old(send_message_queue)@.len() as int)
                == old(send_message_queue)@
            &&& announces_player(
                final(send_message_queue)@[old(send_message_queue)@.len() as int],
                Destination::EveryoneElse,
                id,
                name@,
            )
            &&& final(send_message_queue)@[old(send_message_queue)@.len() + 1int] == your_player_message(peer_id, id)
        }),
{
    let next_player_id = PlayerId(state.players.len() as u16);
    let announced_name = name.clone();
    state.players.push(PlayerRecord { id: next_player_id, peer_id: peer_id, name: name, fighter_entity: None });
    state.new_players.push(next_player_id);

    // Tell all the other peers about this new player.
    send_message_queue.push(
        SendMessage {
            destination: Destination::EveryoneElse,
            game_message: PlayerMessage::NewPlayer(NewPlayerMessage { id: next_player_id, name: announced_name }),
            transport: Transport::TCP,
        },
    );

    // Tell the owner (even if it's us) who their new player is.
    send_message_queue.push(
        SendMessage {
            destination: Destination::One(peer_id),
            game_message: PlayerMessage::YourPlayer(next_player_id),
            transport: Transport::TCP,
        },
    );
    proof {
        assert(send_message_queue@.take(old(send_message_queue)@.len() as int) =~= old(send_message_queue)@);
    }
}

/// Whether peers may send message `msg` to this node: a server is never
/// told about new players; a player announced as new has an ID no greater
/// than the number of players known; the player said to be ours is
/// known; and we know our player before hearing which fighter is ours.
pub open spec fn accepts_player_message(state: &GameModel, msg: PlayerMessage, is_master: bool) -> bool {
    match msg {
        PlayerMessage::NewPlayer(m) => !is_master && m.id.0 <= state.players.len(),
        PlayerMessage::YourPlayer(id) => id.0 < state.players.len(),
        PlayerMessage::NewFighter(_) => true,
        PlayerMessage::YourFighter(_) => state.my_player_id matches Some(p) && p.0 < state.players.len(),
    }
}

/// Updates the game state for one message about players received from a
/// peer.
///
/// - A new player we don't yet know about is added (its peer is not yet
///   known; peer 1 is recorded); one we know already is ignored.
/// - Being told which player is ours records it.
/// - A new fighter is left to the caller to create.
/// - Being told which fighter is ours records it on our player.
pub fn handle_player_message(state: &mut GameModel, msg: PlayerMessage, is_master: bool) -> (a: GameAction)
    requires
        accepts_player_message(old(state), msg, is_master),
    ensures
        old(state).is_consistent() ==> final(state).is_consistent(),
        final(state).new_players == old(state).new_players,
        match msg {
            PlayerMessage::NewPlayer(m) => {
                &&& a == GameAction::Nothing
                &&& final(state).my_player_id == old(state).my_player_id
                &&& if m.id.0 < old(state).players.len() {
                    final(state).players@ == old(state).players@
                } else {
                    final(state).players@ == old(state).players@.push(
                        PlayerRecord { id: m.id, peer_id: PeerId(1), name: m.name, fighter_entity: None },
                    )
                }
            },
            PlayerMessage::YourPlayer(id) => {
                &&& a == GameAction::Nothing
                &&& final(state).my_player_id == Some(id)
                &&& final(state).players@ == old(state).players@
            },
            PlayerMessage::NewFighter(entity_id) => {
                &&& a == GameAction::CreateFighter(entity_id)
                &&& final(state).my_player_id == old(state).my_player_id
                &&& final(state).players@ == old(state).players@
            },
            PlayerMessage::YourFighter(entity_id) => {
                let p = old(state).my_player_id.unwrap().0 as int;
                let player = old(state).players@[p];
                &&& a == GameAction::Nothing
                &&& final(state).my_player_id == old(state).my_player_id
                &&& final(state).players@ == old(state).players@.update(
                    p,
                    PlayerRecord { fighter_entity: Some(entity_id), ..player },
                )
            },
        },
{
    match msg {
        PlayerMessage::NewPlayer(new_player) => {
            if (new_player.id.0 as usize) < state.players.len() {
                // Heard about a new player we already know about.
                return GameAction::Nothing;
            }
            state.players.push(
                PlayerRecord {
                    id: new_player.id,
                    peer_id: PeerId(1),
                    name: new_player.name,
                    fighter_entity: None,
                },
            );
            GameAction::Nothing
        },
        PlayerMessage::YourPlayer(player_id) => {
            // Remember which player is ours.
            state.my_player_id = Some(player_id);
            GameAction::Nothing
        },
        PlayerMessage::NewFighter(entity_id) => GameAction::CreateFighter(entity_id),
        PlayerMessage::YourFighter(entity_id) => {
            let player_index = match state.my_player_id {
                Some(player_id) => player_id.0 as usize,
                None => 0,
            };
            let old_record = state.players.remove(player_index);
            let record = PlayerRecord { fighter_entity: Some(entity_id), ..old_record };
            state.players.insert(player_index, record);
            proof {
                assert(state.players@ =~= old(state).players@.update(
                    player_index as int,
                    PlayerRecord { fighter_entity: Some(entity_id), ..old(state).players@[player_index as int] },
                ));
            }
            GameAction::Nothing
        },
    }
}

/// Greets a peer that has just connected. A server tells it about every
/// existing player and every existing fighter (whose global IDs are
/// `fighter_entity_ids`), then creates a player for it, named `name`, as
/// `create_and_broadcast_player` does. A client does nothing.
pub fn welcome_new_peer(
    state: &mut GameModel,
    send_message_queue: &mut Vec<OutMessage>,
    new_peer_id: PeerId,
    fighter_entity_ids: &Vec<u64>,
    name: String,
    is_master: bool,
)
    requires
        old(state).players.len() < 65536,
    ensures
        old(state).is_consistent() ==> final(state).is_consistent(),
        !is_master ==> {
            &&& final(state).players@ == old(state).players@
            &&& final(state).new_players@ == old(state).new_players@
            &&& final(state).my_player_id == old(state).my_player_id
            &&& final(send_message_queue)@ == old(send_message_queue)@
        },
        is_master ==> ({
            let q0 = old(send_message_queue)@.len() as int;
            let n = old(state).players@.len() as int;
            let f = fighter_entity_ids@.len() as int;
            let id = PlayerId(n as u16);
            let queue = final(send_message_queue)@;
            &&& final(state).players@ == old(state).players@.push(
                PlayerRecord { id, peer_id: new_peer_id, name, fighter_entity: None },
            )
            &&& final(state).new_players@ == old(state).new_players@.push(id)
            &&& final(state).my_player_id == old(state).my_player_id
            &&& queue.len() == q0 + n + f + 2
            &&& queue.take(q0) == old(send_message_queue)@
            &&& forall|i: int|
                0 <= i < n ==> announces_player(
                    #[trigger] queue[q0 + i],
                    Destination::One(new_peer_id),
                    old(state).players@[i].id,
                    old(state).players@[i].name@,
                )
            &&& forall|j: int|
                0 <= j < f ==> #[trigger] queue[q0 + n + j] == new_fighter_message(
                    new_peer_id,
                    fighter_entity_ids@[j],
                )
            &&& announces_player(queue[q0 + n + f], Destination::EveryoneElse, id, name@)
            &&& queue[q0 + n + f + 1] == your_player_message(new_peer_id, id)
        }),
{
    // As a client, we don't care about new peers.
    if !is_master {
        return;
    }
    let ghost q0 = send_message_queue@.len() as int;
    let ghost n = state.players@.len() as int;

    // Tell the new peer about all existing players.
    let mut i: usize = 0;
    while i < state.players.len()
        invariant
            state.players@ == old(state).players@,
            state.new_players@ == old(state).new_players@,
            state.my_player_id == old(state).my_player_id,
            q0 == old(send_message_queue)@.len(),
            n == old(state).players@.len(),
            0 <= i <= n,
            send_message_queue@.len() == q0 + i,
            send_message_queue@.take(q0) == old(send_message_queue)@,
            forall|k: int|
                0 <= k < i ==> announces_player(
                    #[trigger] send_message_queue@[q0 + k],
                    Destination::One(new_peer_id),
                    old(state).players@[k].id,
                    old(state).players@[k].name@,
                ),
        decreases n - i,
    {
        let player_id = state.players[i].id;
        let player_name = state.players[i].name.clone();
        let ghost before = send_message_queue@;
        send_message_queue.push(
            SendMessage {
                destination: Destination::One(new_peer_id),
                game_message: PlayerMessage::NewPlayer(NewPlayerMessage { id: player_id, name: player_name }),
                transport: Transport::TCP,
            },
        );
        proof {
            assert(send_message_queue@.take(q0) =~= before.take(q0));
            assert forall|k: int| 0 <= k < i + 1 implies announces_player(
                #[trigger] send_message_queue@[q0 + k],
                Destination::One(new_peer_id),
                old(state).players@[k].id,
                old(state).players@[k].name@,
            ) by {
                if k < i {
                    assert(send_message_queue@[q0 + k] == before[q0 + k]);
                }
            }
        }
        i = i + 1;
    }

    // Tell the new peer about all existing fighters.
    let mut j: usize = 0;
    while j < fighter_entity_ids.len()
        invariant
            state.players@ == old(state).players@,
            state.new_players@ == old(state).new_players@,
            state.my_player_id == old(state).my_player_id,
            q0 == old(send_message_queue)@.len(),
            n == old(state).players@.len(),
            0 <= j <= fighter_entity_ids@.len(),
            send_message_queue@.len() == q0 + n + j,
            send_message_queue@.take(q0) == old(send_message_queue)@,
            forall|k: int|
                0 <= k < n ==> announces_player(
                    #[trigger] send_message_queue@[q0 + k],
                    Destination::One(new_peer_id),
                    old(state).players@[k].id,
                    old(state).players@[k].name@,
                ),
            forall|k: int|
                0 <= k < j ==> #[trigger] send_message_queue@[q0 + n + k] == new_fighter_message(
                    new_peer_id,
                    fighter_entity_ids@[k],
                ),
        decreases fighter_entity_ids@.len() - j,
    {
        let ghost before = send_message_queue@;
        send_message_queue.push(
            SendMessage {
                destination: Destination::One(new_peer_id),
                game_message: PlayerMessage::NewFighter(fighter_entity_ids[j]),
                transport: Transport::TCP,
            },
        );
        proof {
            assert(send_message_queue@.take(q0) =~= before.take(q0));
            assert forall|k: int| 0 <= k < n implies announces_player(
                #[trigger] send_message_queue@[q0 + k],
                Destination::One(new_peer_id),
                old(state).players@[k].id,
                old(state).players@[k].name@,
            ) by {
                assert(send_message_queue@[q0 + k] == before[q0 + k]);
            }
            assert forall|k: int| 0 <= k < j + 1 implies #[trigger] send_message_queue@[q0 + n + k]
                == new_fighter_message(new_peer_id, fighter_entity_ids@[k]) by {
                if k < j {
                    assert(send_message_queue@[q0 + n + k] == before[q0 + n + k]);
                }
            }
        }
        j = j + 1;
    }

    // Create a new player for that peer.
    let ghost before = send_message_queue@;
    create_and_broadcast_player(state, send_message_queue, new_peer_id, name);
    proof {
        let m = before.len() as int;
        assert(send_message_queue@.take(m) == before);
        assert(send_message_queue@.take(q0) =~= before.take(q0));
        assert forall|k: int| 0 <= k < n implies announces_player(
            #[trigger] send_message_queue@[q0 + k],
            Destination::One(new_peer_id),
            old(state).players@[k].id,
            old(state).players@[k].name@,
        ) by {
            assert(send_message_queue@.take(m)[q0 + k] == before[q0 + k]);
        }
        assert forall|k: int| 0 <= k < fighter_entity_ids@.len() implies #[trigger] send_message_queue@[q0 + n + k]
            == new_fighter_message(new_peer_id, fighter_entity_ids@[k]) by {
            assert(send_message_queue@.take(m)[q0 + n + k] == before[q0 + n + k]);
        }
    }
}

/// A server that does not yet know its own player creates one for itself
/// (on peer 0), named `name`; it will hear which player is its own from
/// the message this queues. Otherwise nothing changes.
pub fn ensure_master_player(
    state: &mut GameModel,
    send_message_queue: &mut Vec<OutMessage>,
    name: String,
    is_master: bool,
)
    requires
        old(state).players.len() < 65536,
    ensures
        old(state).is_consistent() ==> final(state).is_consistent(),
        !(is_master && old(state).my_player_id is None) ==> {
            &&& final(state).players@ == old(state).players@
            &&& final(state).new_players@ == old(state).new_players@
            &&& final(state).my_player_id == old(state).my_player_id
            &&& final(send_message_queue)@ == old(send_message_queue)@
        },
        is_master && old(state).my_player_id is None ==> ({
            let id = PlayerId(old(state).players.len() as u16);
            let q0 = old(send_message_queue)@.len() as int;
            &&& final(state).players@ == old(state).players@.push(
                PlayerRecord { id, peer_id: PeerId(0), name, fighter_entity: None },
            )
            &&& final(state).new_players@ == old(state).new_players@.push(id)
            &&& final(state).my_player_id == old(state).my_player_id
            &&& final(send_message_queue)@.len() == q0 + 2
            &&& final(send_message_queue)@.take(q0) == old(send_message_queue)@
            &&& announces_player(final(send_message_queue)@[q0], Destination::EveryoneElse, id, name@)
            &&& final(send_message_queue)@[q0 + 1] == your_player_message(PeerId(0), id)
        }),
{
    if is_master && state.my_player_id.is_none() {
        create_and_broadcast_player(state, send_message_queue, PeerId(0), name);
    }
}

/// Gives the oldest player still waiting for a fighter the fighter just
/// created with global ID `entity_id`, tells all other peers about the
/// fighter, and tells the player's peer that the fighter is theirs.
///
/// Returns the player, or `None` (changing nothing) if no player is
/// waiting.
pub fn assign_fighter(
    state: &mut GameModel,
    send_message_queue: &mut Vec<OutMessage>,
    entity_id: u64,
) -> (r: Option<PlayerId>)
    requires
        old(state).new_players@.len() > 0 ==> old(state).new_players@[0].0 < old(state).players@.len(),
    ensures
        old(state).is_consistent() ==> final(state).is_consistent(),
        final(state).my_player_id == old(state).my_player_id,
        old(state).new_players@.len() == 0 ==> {
            &&& r is None
            &&& final(state).players@ == old(state).players@
            &&& final(state).new_players@ == old(state).new_players@
            &&& final(send_message_queue)@ == old(send_message_queue)@
        },
        old(state).new_players@.len() > 0 ==> ({
            let id = old(state).new_players@[0];
            let player = old(state).players@[id.0 as int];
            &&& r == Some(id)
            &&& final(state).new_players@ == old(state).new_players@.drop_first()
            &&& final(state).players@ == old(state).players@.update(
                id.0 as int,
                PlayerRecord { fighter_entity: Some(entity_id), ..player },
            )
            &&& final(send_message_queue)@ == old(send_message_queue)@.push(
                SendMessage {
                    destination: Destination::EveryoneElse,
                    game_message: PlayerMessage::NewFighter(entity_id),
                    transport: Transport::TCP,
                },
            ).push(
                SendMessage {
                    destination: Destination::One(player.peer_id),
                    game_message: PlayerMessage::YourFighter(entity_id),
                    transport: Transport::TCP,
                },
            )
        }),
{
    if state.new_players.len() == 0 {
        return None;
    }
    let player_id = state.new_players.remove(0);
    let player_index = player_id.0 as usize;
    let old_record = state.players.remove(player_index);
    let peer_id = old_record.peer_id;
    state.players.insert(player_index, PlayerRecord { fighter_entity: Some(entity_id), ..old_record });
    proof {
        assert(state.players@ =~= old(state).players@.update(
            player_index as int,
            PlayerRecord { fighter_entity: Some(entity_id), ..old(state).players@[player_index as int] },
        ));
        assert(state.new_players@ =~= old(state).new_players@.drop_first());
    }

    // Tell all network peers about the new entity.
    send_message_queue.push(
        SendMessage {
            destination: Destination::EveryoneElse,
            game_message: PlayerMessage::NewFighter(entity_id),
            transport: Transport::TCP,
        },
    );

    // Tell the owner that this is _their_ fighter.
    send_message_queue.push(
        SendMessage {
            destination: Destination::One(peer_id),
            game_message: PlayerMessage::YourFighter(entity_id),
            transport: Transport::TCP,
        },
    );
    Some(player_id)
}

} // verus!
