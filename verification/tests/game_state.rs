use std::sync::mpsc;

use planetkit::cell_dweller::{
    CellDwellerMessage, MiningEvent, MiningInputAdapter, MovementEvent, MovementInputAdapter,
    RemoveBlockMessage, SetPosMessage, TryPickUpBlockMessage,
};
use planetkit::dir::Dir;
use planetkit::globe::{ChunkPair, ChunkPairOrigins, ChunkOrigin, Material, PointPair};
use planetkit::grid_point3::{GridPoint3, PosInOwningRoot};
use planetkit::kaboom::{Health, Message, NewPlayerMessage, PlayerId, PlayerMessage};
use planetkit::movement::TurnDir;
use planetkit::random_column;
use rand::rngs::StdRng;
use rand::SeedableRng;

#[test]
fn new_health_is_undamaged() {
    let h = Health::new(100);
    assert_eq!(h.hp, 100);
    assert_eq!(h.last_damaged_by_player_id, None);
    let h = Health::new(-5);
    assert_eq!(h.hp, -5);
}

#[test]
fn random_columns_lie_in_a_root() {
    let mut rng = StdRng::seed_from_u64(42);
    let mut xs = Vec::new();
    let mut roots = Vec::new();
    for _ in 0..200 {
        let column = random_column([64, 128], &mut rng);
        assert!(column.root.index < 5);
        assert!(column.x >= 0 && column.x < 64);
        assert!(column.y >= 0 && column.y < 64);
        xs.push(column.x);
        roots.push(column.root.index);
    }
    // The draws are not all the lower bound of their range.
    assert!(xs.iter().any(|&x| x != 0));
    assert!(roots.iter().any(|&r| r != 0));
    // A resolution of one leaves only one choice of column position.
    let column = random_column([1, 2], &mut rng);
    assert_eq!((column.x, column.y), (0, 0));
}

#[test]
fn input_adapters_send_to_their_channels() {
    let (tx, _rx) = mpsc::channel::<MiningEvent>();
    let _mining = MiningInputAdapter::new(tx);
    let (tx, _rx) = mpsc::channel::<MovementEvent>();
    let _movement = MovementInputAdapter::new(tx);
    assert_ne!(MovementEvent::TurnLeft(true), MovementEvent::TurnRight(true));
    assert_eq!(MiningEvent::PickUp(false), MiningEvent::PickUp(false));
}

#[test]
fn messages_compare_by_content() {
    let pos = GridPoint3::new(1.into(), 2, 3, 4);
    let set_pos = CellDwellerMessage::SetPos(SetPosMessage {
        entity_id: 7,
        new_pos: pos,
        new_dir: Dir::new(4),
        new_last_turn_bias: TurnDir::Left,
    });
    assert_eq!(set_pos.clone(), set_pos);
    assert_ne!(
        CellDwellerMessage::RemoveBlock(RemoveBlockMessage { pos }),
        CellDwellerMessage::TryPickUpBlock(TryPickUpBlockMessage { cd_entity_id: 7 })
    );
    let new_player = Message::Player(PlayerMessage::NewPlayer(NewPlayerMessage {
        id: PlayerId(3),
        name: "Kaboomer".to_string(),
    }));
    assert_eq!(new_player.clone(), new_player);
    assert_ne!(new_player, Message::Player(PlayerMessage::YourPlayer(PlayerId(3))));
    assert_ne!(Message::CellDweller(set_pos), new_player);
    assert_ne!(Material::Air, Material::Dirt);
}

#[test]
fn chunk_pairs_hold_shared_points() {
    let res = [4, 8];
    let source = ChunkOrigin::new(GridPoint3::new(1.into(), 0, 2, 0), res, [2, 2, 2]);
    let sink = ChunkOrigin::new(GridPoint3::new(0.into(), 0, 6, 0), res, [2, 2, 2]);
    let origins = ChunkPairOrigins { source, sink };
    assert_eq!(origins, ChunkPairOrigins { source, sink });
    let pair = ChunkPair {
        point_pairs: vec![PointPair {
            source: PosInOwningRoot::new(GridPoint3::new(1.into(), 0, 2, 0), res),
            sink: GridPoint3::new(1.into(), 0, 2, 0),
        }],
        last_upstream_edge_version_known_downstream: 0,
    };
    assert_eq!(pair.point_pairs.len(), 1);
    assert_eq!(pair.last_upstream_edge_version_known_downstream, 0);
}
