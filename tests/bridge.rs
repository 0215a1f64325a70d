use battlefun::bridge::{decode_game_event, placement_from_proto, placement_to_proto, shots_from_proto, StatefunKafkaClient};
use battlefun::error::Error;
use battlefun::game::{Ship, Shot};
use battlefun::proto;

const GAME: u128 = 0xa1a2a3a4_b1b2_c1c2_d1d2_d3d4d5d6d7d8;
const GAME_TEXT: &str = "a1a2a3a4-b1b2-c1c2-d1d2-d3d4d5d6d7d8";
const PLAYER_ONE: u128 = 0x550e8400_e29b_41d4_a716_446655440000;
const PLAYER_ONE_TEXT: &str = "550e8400-e29b-41d4-a716-446655440000";
const PLAYER_TWO: u128 = 1;
const PLAYER_TWO_TEXT: &str = "00000000-0000-0000-0000-000000000001";

fn client() -> StatefunKafkaClient {
    StatefunKafkaClient::new("broker:9092", "to-statefun".to_string())
}

fn wire_ships(label: &str, cells: &[i64]) -> proto::ShipPlacement {
    proto::ShipPlacement { ships: vec![proto::Ship { ship_type: label.to_string(), cells: cells.to_vec() }] }
}

fn update(first: &str, second: &str, cells: &[i64], shot: i64) -> proto::GameUpdate {
    proto::GameUpdate {
        player1_id: first.to_string(),
        player1_placement: Some(wire_ships("boat", cells)),
        player2_id: second.to_string(),
        player2_placement: Some(wire_ships("raft", &[9])),
        status: 2,
        player1_shots: vec![proto::Shot { cell_id: shot, shot: false }],
        player2_shots: vec![],
    }
}

#[test]
fn create_game_record_is_keyed_by_game() {
    let ships1 = vec![Ship { ship_type: "boat".to_string(), cells: vec![3, 4] }];
    let ships2 = vec![Ship { ship_type: "raft".to_string(), cells: vec![255] }];
    let r = client().send_create_game(GAME, PLAYER_ONE, ships1, PLAYER_TWO, ships2);
    assert_eq!(r.topic, "to-statefun");
    assert_eq!(r.key, GAME_TEXT);
    assert_eq!(r.message.game_id, GAME_TEXT);
    match r.message.msg {
        proto::Msg::CreateGame(c) => {
            assert_eq!(c.game_id, GAME_TEXT);
            assert_eq!(c.player1_id, PLAYER_ONE_TEXT);
            assert_eq!(c.player2_id, PLAYER_TWO_TEXT);
            assert_eq!(c.player1_placement.ships[0].ship_type, "boat");
            assert_eq!(c.player1_placement.ships[0].cells, vec![3, 4]);
            assert_eq!(c.player2_placement.ships[0].cells, vec![255]);
        }
        _ => panic!("expected a create-game intent"),
    }
}

#[test]
fn turn_record_is_keyed_by_game() {
    let r = client().send_turn(GAME, PLAYER_ONE, 5);
    assert_eq!(r.key, GAME_TEXT);
    assert_eq!(r.message.game_id, GAME_TEXT);
    match r.message.msg {
        proto::Msg::Turn(t) => {
            assert_eq!(t.game_id, GAME_TEXT);
            assert_eq!(t.player_id, PLAYER_ONE_TEXT);
            assert_eq!(t.shot, 5);
        }
        _ => panic!("expected a turn intent"),
    }
}

#[test]
fn status_query_record_is_keyed_by_game() {
    let r = client().send_get_game_status(&GAME);
    assert_eq!(r.topic, "to-statefun");
    assert_eq!(r.key, GAME_TEXT);
    match r.message.msg {
        proto::Msg::GetGameStatus(q) => assert_eq!(q.game_id, GAME_TEXT),
        _ => panic!("expected a status query"),
    }
}

#[test]
fn placement_round_trips_through_schema() {
    let p = vec![
        Ship { ship_type: "a".to_string(), cells: vec![0, 200] },
        Ship { ship_type: "b".to_string(), cells: vec![] },
    ];
    let wire = placement_to_proto(&p);
    assert_eq!(wire.ships[0].cells, vec![0i64, 200]);
    let back = placement_from_proto(&wire).unwrap();
    assert_eq!(back.len(), 2);
    assert_eq!(back[0].ship_type, "a");
    assert_eq!(back[0].cells, vec![0u8, 200]);
    assert!(back[1].cells.is_empty());
}

#[test]
fn placement_with_off_board_cell_is_refused() {
    assert!(placement_from_proto(&wire_ships("a", &[1, 256])).is_none());
    assert!(placement_from_proto(&wire_ships("a", &[-1])).is_none());
    assert!(shots_from_proto(&vec![proto::Shot { cell_id: 300, shot: true }]).is_none());
    let s = shots_from_proto(&vec![proto::Shot { cell_id: 255, shot: true }]).unwrap();
    assert_eq!(s, vec![Shot { cell: 255, hit: true }]);
}

#[test]
fn game_update_decodes_to_record() {
    let msg = proto::FromGameFn {
        game_id: GAME_TEXT.to_string(),
        response: Some(proto::Response::GameUpdate(update(PLAYER_ONE_TEXT, PLAYER_TWO_TEXT, &[4, 5], 9))),
    };
    let g = decode_game_event(&msg).unwrap();
    assert_eq!(g.game_id, GAME);
    assert_eq!(g.player1_id, PLAYER_ONE);
    assert_eq!(g.player2_id, PLAYER_TWO);
    assert_eq!(g.status, 2);
    assert_eq!(g.player1_ships[0].cells, vec![4, 5]);
    assert_eq!(g.player1_shots, vec![Shot { cell: 9, hit: false }]);
    let v = g.get_player_game_state(PLAYER_ONE).unwrap();
    assert_eq!(v.destroyed_opponent_ships, vec!["raft".to_string()]);
    assert!(!v.your_turn);
    assert!(g.get_player_game_state(PLAYER_TWO).unwrap().your_turn);
}

#[test]
fn malformed_events_are_reported() {
    let bad_game = proto::FromGameFn {
        game_id: "not-a-uuid".to_string(),
        response: Some(proto::Response::GameUpdate(update(PLAYER_ONE_TEXT, PLAYER_TWO_TEXT, &[4], 9))),
    };
    assert!(matches!(decode_game_event(&bad_game), Err(Error::MalformedEvent)));
    let bad_player = proto::FromGameFn {
        game_id: GAME_TEXT.to_string(),
        response: Some(proto::Response::GameUpdate(update(PLAYER_ONE_TEXT, "xyz", &[4], 9))),
    };
    assert!(matches!(decode_game_event(&bad_player), Err(Error::MalformedEvent)));
    let bad_cell = proto::FromGameFn {
        game_id: GAME_TEXT.to_string(),
        response: Some(proto::Response::GameUpdate(update(PLAYER_ONE_TEXT, PLAYER_TWO_TEXT, &[400], 9))),
    };
    assert!(matches!(decode_game_event(&bad_cell), Err(Error::MalformedEvent)));
    let bad_shot = proto::FromGameFn {
        game_id: GAME_TEXT.to_string(),
        response: Some(proto::Response::GameUpdate(update(PLAYER_ONE_TEXT, PLAYER_TWO_TEXT, &[4], -3))),
    };
    assert!(matches!(decode_game_event(&bad_shot), Err(Error::MalformedEvent)));
    let mut missing = update(PLAYER_ONE_TEXT, PLAYER_TWO_TEXT, &[4], 9);
    missing.player2_placement = None;
    let no_placement = proto::FromGameFn {
        game_id: GAME_TEXT.to_string(),
        response: Some(proto::Response::GameUpdate(missing)),
    };
    assert!(matches!(decode_game_event(&no_placement), Err(Error::MalformedEvent)));
    let empty = proto::FromGameFn { game_id: GAME_TEXT.to_string(), response: None };
    assert!(matches!(decode_game_event(&empty), Err(Error::MalformedEvent)));
}

#[test]
fn engine_failure_is_reported() {
    let msg = proto::FromGameFn {
        game_id: GAME_TEXT.to_string(),
        response: Some(proto::Response::Failure(proto::Failure { message: "boom".to_string() })),
    };
    match decode_game_event(&msg) {
        Err(Error::ErrorFromStatefun(m)) => assert_eq!(m, "boom"),
        other => panic!("expected an engine failure, got {:?}", other),
    }
}

#[test]
fn other_uuid_forms_parse_too() {
    let msg = proto::FromGameFn {
        game_id: "A1A2A3A4B1B2C1C2D1D2D3D4D5D6D7D8".to_string(),
        response: Some(proto::Response::GameUpdate(update(PLAYER_ONE_TEXT, PLAYER_TWO_TEXT, &[4], 9))),
    };
    assert_eq!(decode_game_event(&msg).unwrap().game_id, GAME);
}
