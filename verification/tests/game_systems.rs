use planetkit::cell_dweller::recv_system::{remove_block_announcement, route_message, CellDwellerAction};
use planetkit::cell_dweller::movement_system::{announce_position, can_step_from, ForwardOrBackward};
use planetkit::cell_dweller::{
    can_pick_up, CellDwellerMessage, MiningEvent, MiningInputAdapter, MiningSystem, MovementEvent,
    MovementInputAdapter, MovementSystem, RemoveBlockMessage, SendMessageQueue, SetPosMessage,
    TryPickUpBlockMessage,
};
use planetkit::globe::Material;
use planetkit::input::Key;
use planetkit::kaboom::send_mux::SendMuxSystem;
use planetkit::kaboom::shoot::{ShootEvent, ShootInputAdapter, ShootSystem};
use std::collections::VecDeque;
use planetkit::dir::Dir;
use planetkit::grid_point3::GridPoint3;
use planetkit::kaboom::game::{
    assign_fighter, create_and_broadcast_player, ensure_master_player, handle_player_message,
    welcome_new_peer, GameAction, GameModel, OutMessage, PlayerRecord,
};
use planetkit::kaboom::weapon::{route_weapon_message, WeaponAction};
use planetkit::kaboom::{
    resolve_death, Health, Message, NewGrenadeMessage, NewPlayerMessage, PlayerId, PlayerMessage,
    PlayerScore, ShootGrenadeMessage, WeaponMessage,
};
use planetkit::movement::TurnDir;
use planetkit::net::{Destination, PeerId, SendMessage, Transport};
use planetkit::root::Root;

fn empty_game() -> GameModel {
    GameModel::new()
}

fn scores() -> Vec<PlayerScore> {
    vec![
        PlayerScore { id: PlayerId(0), points: 3 },
        PlayerScore { id: PlayerId(1), points: 5 },
    ]
}

fn dead(killer: Option<PlayerId>) -> Health {
    Health { hp: -7, last_damaged_by_player_id: killer }
}

#[test]
fn killing_another_player_awards_a_point() {
    let mut players = scores();
    let mut health = dead(Some(PlayerId(1)));
    resolve_death(&mut players, PlayerId(0), &mut health);
    assert_eq!(players[0].points, 3);
    assert_eq!(players[1].points, 6);
    assert_eq!(health.hp, 100);
    assert_eq!(health.last_damaged_by_player_id, Some(PlayerId(1)));
}

#[test]
fn killing_yourself_costs_a_point() {
    let mut players = scores();
    let mut health = dead(Some(PlayerId(1)));
    resolve_death(&mut players, PlayerId(1), &mut health);
    assert_eq!(players[0].points, 3);
    assert_eq!(players[1].points, 4);
    assert_eq!(health.hp, 100);
}

#[test]
fn deaths_without_a_known_killer_change_no_score() {
    let mut players = scores();
    let mut health = dead(None);
    resolve_death(&mut players, PlayerId(0), &mut health);
    assert_eq!(players, scores());
    assert_eq!(health.hp, 100);

    let mut health = dead(Some(PlayerId(9)));
    resolve_death(&mut players, PlayerId(0), &mut health);
    assert_eq!(players, scores());
    assert_eq!(health.hp, 100);

    // The victim has left the game.
    let mut health = dead(Some(PlayerId(1)));
    resolve_death(&mut players, PlayerId(4), &mut health);
    assert_eq!(players, scores());
    assert_eq!(health.hp, 100);
}

#[test]
fn a_created_player_is_announced_then_told_it_is_theirs() {
    let mut state = empty_game();
    let mut queue: Vec<OutMessage> = Vec::new();
    create_and_broadcast_player(&mut state, &mut queue, PeerId(3), "Ada".to_string());
    assert_eq!(
        state.players,
        vec![PlayerRecord { id: PlayerId(0), peer_id: PeerId(3), name: "Ada".to_string(), fighter_entity: None }]
    );
    assert_eq!(state.new_players, vec![PlayerId(0)]);
    assert_eq!(state.my_player_id, None);
    assert_eq!(
        queue,
        vec![
            SendMessage {
                destination: Destination::EveryoneElse,
                game_message: PlayerMessage::NewPlayer(NewPlayerMessage { id: PlayerId(0), name: "Ada".to_string() }),
                transport: Transport::TCP,
            },
            SendMessage {
                destination: Destination::One(PeerId(3)),
                game_message: PlayerMessage::YourPlayer(PlayerId(0)),
                transport: Transport::TCP,
            },
        ]
    );

    create_and_broadcast_player(&mut state, &mut queue, PeerId(4), "Bo".to_string());
    assert_eq!(state.players.len(), 2);
    assert_eq!(state.players[1].id, PlayerId(1));
    assert_eq!(state.new_players, vec![PlayerId(0), PlayerId(1)]);
    assert_eq!(queue.len(), 4);
    assert_eq!(queue[3].game_message, PlayerMessage::YourPlayer(PlayerId(1)));
}

#[test]
fn clients_learn_about_new_players_once() {
    let mut state = empty_game();
    let msg = PlayerMessage::NewPlayer(NewPlayerMessage { id: PlayerId(0), name: "Ada".to_string() });
    assert_eq!(handle_player_message(&mut state, msg.clone(), false), GameAction::Nothing);
    assert_eq!(
        state.players,
        vec![PlayerRecord { id: PlayerId(0), peer_id: PeerId(1), name: "Ada".to_string(), fighter_entity: None }]
    );
    // Hearing about it again changes nothing.
    assert_eq!(handle_player_message(&mut state, msg, false), GameAction::Nothing);
    assert_eq!(state.players.len(), 1);
    assert!(state.new_players.is_empty());
}

#[test]
fn clients_record_their_player_and_fighter() {
    let mut state = empty_game();
    let msg = PlayerMessage::NewPlayer(NewPlayerMessage { id: PlayerId(0), name: "Ada".to_string() });
    handle_player_message(&mut state, msg, false);
    assert_eq!(handle_player_message(&mut state, PlayerMessage::YourPlayer(PlayerId(0)), false), GameAction::Nothing);
    assert_eq!(state.my_player_id, Some(PlayerId(0)));
    assert_eq!(handle_player_message(&mut state, PlayerMessage::NewFighter(42), false), GameAction::CreateFighter(42));
    assert_eq!(state.players[0].fighter_entity, None);
    assert_eq!(handle_player_message(&mut state, PlayerMessage::YourFighter(42), false), GameAction::Nothing);
    assert_eq!(state.players[0].fighter_entity, Some(42));
    assert_eq!(state.players[0].name, "Ada".to_string());
}

#[test]
fn servers_welcome_new_peers_with_everything_known() {
    let mut state = empty_game();
    let mut queue: Vec<OutMessage> = Vec::new();
    create_and_broadcast_player(&mut state, &mut queue, PeerId(0), "Host".to_string());
    queue.clear();
    welcome_new_peer(&mut state, &mut queue, PeerId(2), &vec![7, 8], "Guest".to_string(), true);
    assert_eq!(
        queue,
        vec![
            SendMessage {
                destination: Destination::One(PeerId(2)),
                game_message: PlayerMessage::NewPlayer(NewPlayerMessage { id: PlayerId(0), name: "Host".to_string() }),
                transport: Transport::TCP,
            },
            SendMessage {
                destination: Destination::One(PeerId(2)),
                game_message: PlayerMessage::NewFighter(7),
                transport: Transport::TCP,
            },
            SendMessage {
                destination: Destination::One(PeerId(2)),
                game_message: PlayerMessage::NewFighter(8),
                transport: Transport::TCP,
            },
            SendMessage {
                destination: Destination::EveryoneElse,
                game_message: PlayerMessage::NewPlayer(NewPlayerMessage { id: PlayerId(1), name: "Guest".to_string() }),
                transport: Transport::TCP,
            },
            SendMessage {
                destination: Destination::One(PeerId(2)),
                game_message: PlayerMessage::YourPlayer(PlayerId(1)),
                transport: Transport::TCP,
            },
        ]
    );
    assert_eq!(state.players[1].peer_id, PeerId(2));
    assert_eq!(state.new_players, vec![PlayerId(0), PlayerId(1)]);
}

#[test]
fn clients_ignore_new_peers() {
    let mut state = empty_game();
    let mut queue: Vec<OutMessage> = Vec::new();
    welcome_new_peer(&mut state, &mut queue, PeerId(2), &vec![7], "Guest".to_string(), false);
    assert!(queue.is_empty());
    assert!(state.players.is_empty());
}

#[test]
fn only_a_server_without_a_player_makes_one_for_itself() {
    let mut state = empty_game();
    let mut queue: Vec<OutMessage> = Vec::new();
    ensure_master_player(&mut state, &mut queue, "Host".to_string(), false);
    assert!(state.players.is_empty());
    assert!(queue.is_empty());

    ensure_master_player(&mut state, &mut queue, "Host".to_string(), true);
    assert_eq!(state.players.len(), 1);
    assert_eq!(state.players[0].peer_id, PeerId(0));
    assert_eq!(queue.len(), 2);
    assert_eq!(queue[1].destination, Destination::One(PeerId(0)));

    state.my_player_id = Some(PlayerId(0));
    ensure_master_player(&mut state, &mut queue, "Host".to_string(), true);
    assert_eq!(state.players.len(), 1);
    assert_eq!(queue.len(), 2);
}

#[test]
fn fighters_go_to_the_oldest_waiting_player() {
    let mut state = empty_game();
    let mut queue: Vec<OutMessage> = Vec::new();
    assert_eq!(assign_fighter(&mut state, &mut queue, 5), None);
    assert!(queue.is_empty());

    create_and_broadcast_player(&mut state, &mut queue, PeerId(3), "Ada".to_string());
    create_and_broadcast_player(&mut state, &mut queue, PeerId(4), "Bo".to_string());
    queue.clear();
    assert_eq!(assign_fighter(&mut state, &mut queue, 5), Some(PlayerId(0)));
    assert_eq!(state.players[0].fighter_entity, Some(5));
    assert_eq!(state.players[1].fighter_entity, None);
    assert_eq!(state.new_players, vec![PlayerId(1)]);
    assert_eq!(
        queue,
        vec![
            SendMessage {
                destination: Destination::EveryoneElse,
                game_message: PlayerMessage::NewFighter(5),
                transport: Transport::TCP,
            },
            SendMessage {
                destination: Destination::One(PeerId(3)),
                game_message: PlayerMessage::YourFighter(5),
                transport: Transport::TCP,
            },
        ]
    );
}

fn set_pos_message() -> SetPosMessage {
    SetPosMessage {
        entity_id: 11,
        new_pos: GridPoint3::new(Root::new(2), 1, 2, 3),
        new_dir: Dir::new(4),
        new_last_turn_bias: TurnDir::Left,
    }
}

#[test]
fn servers_forward_positions_to_other_peers() {
    let m = set_pos_message();
    assert_eq!(
        route_message(CellDwellerMessage::SetPos(m), PeerId(6), true),
        CellDwellerAction::SetPos {
            message: m,
            forward: Some(SendMessage {
                destination: Destination::EveryoneElseExcept(PeerId(6)),
                game_message: CellDwellerMessage::SetPos(m),
                transport: Transport::UDP,
            }),
        }
    );
    assert_eq!(
        route_message(CellDwellerMessage::SetPos(m), PeerId(6), false),
        CellDwellerAction::SetPos { message: m, forward: None }
    );
}

#[test]
fn block_messages_become_block_actions() {
    let pos = GridPoint3::new(Root::new(1), 4, 5, 6);
    assert_eq!(
        route_message(CellDwellerMessage::TryPickUpBlock(TryPickUpBlockMessage { cd_entity_id: 9 }), PeerId(1), true),
        CellDwellerAction::TryPickUpBlock(9)
    );
    assert_eq!(
        route_message(CellDwellerMessage::RemoveBlock(RemoveBlockMessage { pos }), PeerId(0), false),
        CellDwellerAction::RemoveBlock(pos)
    );
    assert_eq!(
        remove_block_announcement(pos),
        SendMessage {
            destination: Destination::EveryoneElse,
            game_message: CellDwellerMessage::RemoveBlock(RemoveBlockMessage { pos }),
            transport: Transport::TCP,
        }
    );
}

#[test]
fn grenade_requests_are_answered_to_everyone() {
    let request = WeaponMessage::ShootGrenade(ShootGrenadeMessage {
        fired_by_player_id: PlayerId(2),
        fired_by_cell_dweller_entity_id: 33,
    });
    let announced =
        NewGrenadeMessage { fired_by_player_id: PlayerId(2), fired_by_cell_dweller_entity_id: 33 };
    assert_eq!(
        route_weapon_message(request),
        WeaponAction::Send(SendMessage {
            destination: Destination::EveryoneIncludingSelf,
            game_message: Message::Weapon(WeaponMessage::NewGrenade(announced.clone())),
            transport: Transport::TCP,
        })
    );
    assert_eq!(
        route_weapon_message(WeaponMessage::NewGrenade(announced)),
        WeaponAction::ShootGrenade { fired_by_player_id: PlayerId(2), fired_by_cell_dweller_entity_id: 33 }
    );
}

#[test]
fn send_message_queues_start_empty() {
    let q = SendMessageQueue::new();
    assert!(!q.has_consumer);
    assert!(q.queue.is_empty());
}

#[test]
fn only_the_u_key_mines() {
    assert_eq!(MiningInputAdapter::event_for_key(Key::U, true), Some(MiningEvent::PickUp(true)));
    assert_eq!(MiningInputAdapter::event_for_key(Key::U, false), Some(MiningEvent::PickUp(false)));
    assert_eq!(MiningInputAdapter::event_for_key(Key::Space, true), None);
}

#[test]
fn picking_up_needs_dirt_below_dirt_ahead_and_air_above_it() {
    let dirt = Some(Material::Dirt);
    let air = Some(Material::Air);
    assert!(can_pick_up(1, dirt, dirt, air));
    assert!(!can_pick_up(-1, dirt, dirt, air));
    assert!(!can_pick_up(1, air, dirt, air));
    assert!(!can_pick_up(1, None, dirt, air));
    assert!(!can_pick_up(1, dirt, Some(Material::Water), air));
    assert!(!can_pick_up(1, dirt, None, air));
    assert!(!can_pick_up(1, dirt, dirt, dirt));
    assert!(!can_pick_up(1, dirt, dirt, None));
}

#[test]
fn holding_the_pick_up_key_requests_a_pick_up_from_the_server() {
    let mut system = MiningSystem::new();
    let mut queue = SendMessageQueue::new();
    queue.has_consumer = true;
    system.run(&vec![MiningEvent::PickUp(true)], true, &mut queue, Some(12));
    assert_eq!(
        queue.queue,
        VecDeque::from(vec![SendMessage {
            destination: Destination::Master,
            game_message: CellDwellerMessage::TryPickUpBlock(TryPickUpBlockMessage { cd_entity_id: 12 }),
            transport: Transport::TCP,
        }])
    );
    // Still held, but nothing to pick up.
    system.run(&vec![], false, &mut queue, Some(12));
    assert_eq!(queue.queue.len(), 1);
    // Released, then pressed and released again: the last event wins.
    system.run(
        &vec![MiningEvent::PickUp(false), MiningEvent::PickUp(true), MiningEvent::PickUp(false)],
        true,
        &mut queue,
        Some(12),
    );
    assert_eq!(queue.queue.len(), 1);
}

#[test]
fn pick_up_requests_need_a_queue_consumer() {
    let mut system = MiningSystem::new();
    let mut queue = SendMessageQueue::new();
    system.run(&vec![MiningEvent::PickUp(true)], true, &mut queue, None);
    assert!(queue.queue.is_empty());
}

#[test]
fn arrows_ijkl_and_wasd_move() {
    for (keys, event) in [
        ([Key::Up, Key::I, Key::W], MovementEvent::StepForward(true)),
        ([Key::Down, Key::K, Key::S], MovementEvent::StepBackward(true)),
        ([Key::Left, Key::J, Key::A], MovementEvent::TurnLeft(true)),
        ([Key::Right, Key::L, Key::D], MovementEvent::TurnRight(true)),
    ] {
        for key in keys {
            assert_eq!(MovementInputAdapter::event_for_key(key, true), Some(event.clone()));
        }
    }
    assert_eq!(MovementInputAdapter::event_for_key(Key::W, false), Some(MovementEvent::StepForward(false)));
    assert_eq!(MovementInputAdapter::event_for_key(Key::U, true), None);
    assert_eq!(MovementInputAdapter::event_for_key(Key::Other, true), None);
}

#[test]
fn steps_and_turns_need_exactly_one_of_two_keys() {
    let mut system = MovementSystem::new();
    assert_eq!(system.step_direction(), None);
    assert_eq!(system.turn_direction(), None);
    system.consume_input(&vec![MovementEvent::StepForward(true), MovementEvent::TurnRight(true)]);
    assert_eq!(system.step_direction(), Some(ForwardOrBackward::Forward));
    assert_eq!(system.turn_direction(), Some(TurnDir::Right));
    system.consume_input(&vec![MovementEvent::StepBackward(true), MovementEvent::TurnLeft(true)]);
    assert_eq!(system.step_direction(), None);
    assert_eq!(system.turn_direction(), None);
    system.consume_input(&vec![MovementEvent::StepForward(false), MovementEvent::TurnRight(false)]);
    assert_eq!(system.step_direction(), Some(ForwardOrBackward::Backward));
    assert_eq!(system.turn_direction(), Some(TurnDir::Left));
}

#[test]
fn steps_climb_at_most_the_step_height() {
    let dirt = Some(Material::Dirt);
    let air = Some(Material::Air);
    let mut system = MovementSystem::new();
    assert_eq!(system.climb_height(&vec![air, air]), Some(0));
    assert_eq!(system.climb_height(&vec![dirt, air]), Some(1));
    assert_eq!(system.climb_height(&vec![dirt, dirt]), None);
    assert_eq!(system.climb_height(&vec![None, air]), None);
    assert_eq!(system.climb_height(&vec![dirt, Some(Material::Water)]), Some(1));
    system.set_step_height(3);
    assert_eq!(system.climb_height(&vec![dirt, dirt, dirt, air]), Some(3));
    assert_eq!(system.climb_height(&vec![dirt, dirt, None, air]), None);
}

#[test]
fn steps_start_only_from_loaded_dirt() {
    assert!(can_step_from(0, Some(Material::Dirt)));
    assert!(!can_step_from(-1, Some(Material::Dirt)));
    assert!(!can_step_from(3, Some(Material::Air)));
    assert!(!can_step_from(3, None));
}

#[test]
fn positions_are_announced_by_udp_when_consumed() {
    let pos = GridPoint3::new(Root::new(3), 2, 1, 0);
    let mut queue = SendMessageQueue::new();
    announce_position(&mut queue, None, pos, Dir::new(0), TurnDir::Left);
    assert!(queue.queue.is_empty());
    queue.has_consumer = true;
    announce_position(&mut queue, Some(8), pos, Dir::new(2), TurnDir::Right);
    assert_eq!(
        queue.queue,
        VecDeque::from(vec![SendMessage {
            destination: Destination::EveryoneElse,
            game_message: CellDwellerMessage::SetPos(SetPosMessage {
                entity_id: 8,
                new_pos: pos,
                new_dir: Dir::new(2),
                new_last_turn_bias: TurnDir::Right,
            }),
            transport: Transport::UDP,
        }])
    );
}

#[test]
fn the_space_bar_shoots() {
    assert_eq!(ShootInputAdapter::event_for_key(Key::Space, true), Some(ShootEvent(true)));
    assert_eq!(ShootInputAdapter::event_for_key(Key::U, true), None);
}

#[test]
fn a_shot_is_requested_once_per_press_when_ready() {
    let mut system = ShootSystem::new();
    let mut queue: VecDeque<SendMessage<Message>> = VecDeque::new();
    assert!(!system.run(&vec![ShootEvent(true)], true, &mut queue, None, None));
    assert!(queue.is_empty());
    assert!(system.run(&vec![], false, &mut queue, Some(PlayerId(1)), Some(21)));
    assert_eq!(
        queue,
        VecDeque::from(vec![SendMessage {
            destination: Destination::Master,
            game_message: Message::Weapon(WeaponMessage::ShootGrenade(ShootGrenadeMessage {
                fired_by_player_id: PlayerId(1),
                fired_by_cell_dweller_entity_id: 21,
            })),
            transport: Transport::UDP,
        }])
    );
    // The wish to shoot was used up.
    assert!(!system.run(&vec![], false, &mut queue, None, None));
    assert_eq!(queue.len(), 1);
}

#[test]
fn cell_dweller_messages_are_muxed_in_order() {
    let mut mux = SendMuxSystem::new();
    let mut cd_queue = SendMessageQueue::new();
    let mut out: VecDeque<SendMessage<Message>> = VecDeque::new();
    mux.run(&mut out, &mut cd_queue);
    assert!(cd_queue.has_consumer);
    assert!(out.is_empty());

    let pick_up = CellDwellerMessage::TryPickUpBlock(TryPickUpBlockMessage { cd_entity_id: 4 });
    let set_pos = CellDwellerMessage::SetPos(set_pos_message());
    cd_queue.queue.push_back(SendMessage { destination: Destination::Master, game_message: pick_up, transport: Transport::TCP });
    cd_queue.queue.push_back(SendMessage {
        destination: Destination::EveryoneElse,
        game_message: set_pos,
        transport: Transport::UDP,
    });
    mux.run(&mut out, &mut cd_queue);
    assert!(cd_queue.queue.is_empty());
    assert_eq!(
        out,
        VecDeque::from(vec![
            SendMessage {
                destination: Destination::Master,
                game_message: Message::CellDweller(pick_up),
                transport: Transport::TCP,
            },
            SendMessage {
                destination: Destination::EveryoneElse,
                game_message: Message::CellDweller(set_pos),
                transport: Transport::UDP,
            },
        ])
    );
}

#[test]
fn player_ids_stay_their_places_in_the_list() {
    let mut state = GameModel::new();
    let mut queue: Vec<OutMessage> = Vec::new();
    ensure_master_player(&mut state, &mut queue, "Host".to_string(), true);
    welcome_new_peer(&mut state, &mut queue, PeerId(1), &vec![], "Guest".to_string(), true);
    assign_fighter(&mut state, &mut queue, 3);
    create_and_broadcast_player(&mut state, &mut queue, PeerId(2), "Late".to_string());
    handle_player_message(&mut state, PlayerMessage::NewFighter(4), true);
    for (i, player) in state.players.iter().enumerate() {
        assert_eq!(player.id, PlayerId(i as u16));
    }
    assert_eq!(state.new_players, vec![PlayerId(1), PlayerId(2)]);
    for id in &state.new_players {
        assert!((id.0 as usize) < state.players.len());
    }
}
