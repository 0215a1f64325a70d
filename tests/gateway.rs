use battlefun::battlefun::BattleFun;
use battlefun::error::Error;
use battlefun::game::{GameState, Ship, Shot};
use battlefun::gamemaster::{GameInfo, GameMaster};
use battlefun::bridge::StatefunKafkaClient;
use battlefun::messages::{AuthenticationResponse, GenericResponse, Outgoing};
use battlefun::proto;

fn ships(label: &str, cells: &[u8]) -> Vec<Ship> {
    vec![Ship { ship_type: label.to_string(), cells: cells.to_vec() }]
}

fn uuid_text(u: u128) -> String {
    let h = format!("{:032x}", u);
    format!("{}-{}-{}-{}-{}", &h[0..8], &h[8..12], &h[12..16], &h[16..20], &h[20..32])
}

#[test]
fn register_create_game_and_turn_end_to_end() {
    let mut bf = BattleFun::new();
    let alice = bf.players.register_client(None, None).unwrap();
    let bob = bf.players.register_client(None, None).unwrap();
    let carol = bf.players.register_client(None, None).unwrap();
    assert_ne!(alice.id, bob.id);

    let first = bf.new_game(alice.token, ships("ships1", &[1, 2])).unwrap();
    assert!(first.is_none());

    let (game_id, record) = bf.new_game(bob.token, ships("ships2", &[3])).unwrap().unwrap();
    assert_eq!(record.key, uuid_text(game_id));
    match record.message.msg {
        proto::Msg::CreateGame(c) => {
            assert_eq!(c.player1_id, uuid_text(alice.id));
            assert_eq!(c.player2_id, uuid_text(bob.id));
            assert_eq!(c.player1_placement.ships[0].ship_type, "ships1");
            assert_eq!(c.player1_placement.ships[0].cells, vec![1, 2]);
            assert_eq!(c.player2_placement.ships[0].ship_type, "ships2");
            assert_eq!(c.player2_placement.ships[0].cells, vec![3]);
        }
        _ => panic!("expected a create-game intent"),
    }

    let turn = bf.turn(alice.token, game_id, 5).unwrap();
    assert_eq!(turn.key, uuid_text(game_id));
    match turn.message.msg {
        proto::Msg::Turn(t) => {
            assert_eq!(t.player_id, uuid_text(alice.id));
            assert_eq!(t.shot, 5);
        }
        _ => panic!("expected a turn intent"),
    }
    assert!(matches!(bf.turn(carol.token, game_id, 5), Err(Error::InvalidArgument(_))));
}

#[test]
fn new_game_with_unknown_token_is_not_found() {
    let mut bf = BattleFun::new();
    assert!(matches!(bf.new_game(5, ships("a", &[1])), Err(Error::NoSuchPlayer)));
    let p = bf.players.register_client(None, None).unwrap();
    assert!(bf.new_game(p.token, ships("a", &[1])).unwrap().is_none());
}

#[test]
fn turn_errors() {
    let mut bf = BattleFun::new();
    let alice = bf.players.register_client(None, None).unwrap();
    let bob = bf.players.register_client(None, None).unwrap();
    bf.new_game(alice.token, ships("a", &[1])).unwrap();
    let (game_id, _) = bf.new_game(bob.token, ships("b", &[2])).unwrap().unwrap();
    assert!(matches!(bf.turn(77, game_id, 1), Err(Error::NoSuchPlayer)));
    match bf.turn(alice.token, game_id.wrapping_add(1), 1) {
        Err(Error::NoSuchGame(g)) => assert_eq!(g, game_id.wrapping_add(1)),
        other => panic!("expected no such game, got {:?}", other),
    }
    assert!(bf.turn(bob.token, game_id, 200).is_ok());
}

#[test]
fn game_master_validates_participants() {
    let mut gm = GameMaster::new(StatefunKafkaClient::new("b", "t".to_string()));
    let (g, record) = gm.start_game(1, ships("a", &[1]), 2, ships("b", &[2]));
    assert_eq!(record.topic, "t");
    assert!(matches!(gm.turn(g.wrapping_add(1), 1, 0), Err(Error::NoSuchGame(_))));
    match gm.turn(g, 3, 0) {
        Err(Error::InvalidArgument(m)) => assert_eq!(m, "Invalid player"),
        other => panic!("expected an invalid argument, got {:?}", other),
    }
    assert!(gm.turn(g, 1, 0).is_ok());
    assert!(gm.turn(g, 2, 0).is_ok());
    assert_eq!(GameInfo::new(1, 2), GameInfo { player1_id: 1, player2_id: 2 });
}

#[test]
fn game_ids_are_random_version_four() {
    let mut gm = GameMaster::new(StatefunKafkaClient::new("b", "t".to_string()));
    let (a, _) = gm.start_game(1, ships("a", &[1]), 2, ships("b", &[2]));
    let (b, _) = gm.start_game(1, ships("a", &[1]), 2, ships("b", &[2]));
    assert_ne!(a, b);
    assert_eq!((a >> 76) & 0xf, 4);
    assert_eq!((a >> 62) & 3, 2);
}

#[test]
fn game_update_goes_to_authenticated_players() {
    let mut bf = BattleFun::new();
    let a = bf.players.register_with(None, None, 1, 10).unwrap();
    let b = bf.players.register_with(None, None, 2, 20).unwrap();
    let mut g = GameState::new(9, a.id, ships("boat", &[4]), b.id, ships("raft", &[7]));
    g.register_shot(a.id, 7).unwrap();

    assert!(bf.handle_game_update(&g).is_empty());
    bf.players.attach(a.id, 100);
    bf.players.attach(b.id, 200);
    assert!(bf.handle_game_update(&g).is_empty());
    bf.players.authenticate(b.id, b.token);
    let out = bf.handle_game_update(&g);
    assert_eq!(out.len(), 1);
    assert_eq!(out[0].channel, 200);
    bf.players.authenticate(a.id, a.token);
    let out = bf.handle_game_update(&g);
    assert_eq!(out.len(), 2);
    assert_eq!(out[0].channel, 100);
    assert_eq!(out[1].channel, 200);
    match &out[0].message {
        Outgoing::GameState(v) => {
            assert!(v.your_turn);
            assert_eq!(v.opponent_id, b.id);
            assert_eq!(v.your_shots, vec![Shot { cell: 7, hit: true }]);
            assert_eq!(v.destroyed_opponent_ships, vec!["raft".to_string()]);
        }
        _ => panic!("expected a game view"),
    }
    match &out[1].message {
        Outgoing::GameState(v) => {
            assert!(!v.your_turn);
            assert_eq!(v.opponent_id, a.id);
            assert_eq!(v.opponent_shots, vec![Shot { cell: 7, hit: true }]);
            assert!(v.destroyed_opponent_ships.is_empty());
        }
        _ => panic!("expected a game view"),
    }
    bf.players.detach(a.id);
    assert_eq!(bf.handle_game_update(&g).len(), 1);
}

#[test]
fn engine_messages_are_decoded_and_pushed() {
    let mut bf = BattleFun::new();
    bf.players.register_with(None, None, 1, 10).unwrap();
    bf.players.attach(1, 100);
    bf.players.authenticate(1, 10);
    let msg = proto::FromGameFn {
        game_id: uuid_text(9),
        response: Some(proto::Response::GameUpdate(proto::GameUpdate {
            player1_id: uuid_text(1),
            player1_placement: Some(proto::ShipPlacement { ships: vec![] }),
            player2_id: uuid_text(2),
            player2_placement: Some(proto::ShipPlacement { ships: vec![] }),
            status: 1,
            player1_shots: vec![],
            player2_shots: vec![],
        })),
    };
    let out = bf.handle_engine_message(&msg).unwrap();
    assert_eq!(out.len(), 1);
    match &out[0].message {
        Outgoing::GameState(v) => {
            assert_eq!(v.game_id, 9);
            assert!(v.your_turn);
        }
        _ => panic!("expected a game view"),
    }
    let failure = proto::FromGameFn {
        game_id: uuid_text(9),
        response: Some(proto::Response::Failure(proto::Failure { message: "no".to_string() })),
    };
    assert!(matches!(bf.handle_engine_message(&failure), Err(Error::ErrorFromStatefun(_))));
}

#[test]
fn acknowledgments() {
    assert!(GenericResponse::success().success);
    let s = AuthenticationResponse::success();
    assert!(s.success);
    assert_eq!(s.response_type, "authentication_response");
    let f = AuthenticationResponse::failure();
    assert!(!f.success);
    assert_eq!(f.response_type, "authentication_response");
}
