use battlefun::error::Error;
use battlefun::game::{get_destroyed_ships, GameState, Ship, Shot};

fn fleet() -> Vec<Ship> {
    vec![
        Ship { ship_type: "destroyer".to_string(), cells: vec![1, 2] },
        Ship { ship_type: "submarine".to_string(), cells: vec![10, 11, 12] },
        Ship { ship_type: "boat".to_string(), cells: vec![20] },
    ]
}

fn shots(cells: &[u8]) -> Vec<Shot> {
    cells.iter().map(|&c| Shot { cell: c, hit: false }).collect()
}

#[test]
fn destroyed_ships_need_every_cell() {
    let r = get_destroyed_ships(&fleet(), &shots(&[1, 2, 10, 11, 20, 30]));
    assert_eq!(r, vec!["destroyer".to_string(), "boat".to_string()]);
}

#[test]
fn no_shots_destroy_nothing() {
    assert!(get_destroyed_ships(&fleet(), &shots(&[])).is_empty());
    assert!(get_destroyed_ships(&Vec::new(), &shots(&[1, 2])).is_empty());
}

#[test]
fn ship_without_cells_counts_as_destroyed() {
    let p = vec![Ship { ship_type: "ghost".to_string(), cells: vec![] }];
    assert_eq!(get_destroyed_ships(&p, &shots(&[])), vec!["ghost".to_string()]);
}

#[test]
fn new_game_starts_with_player_one_to_move() {
    let g = GameState::new(9, 1, fleet(), 2, fleet());
    assert_eq!(g.status, 1);
    let v1 = g.get_player_game_state(1).unwrap();
    let v2 = g.get_player_game_state(2).unwrap();
    assert!(v1.your_turn);
    assert!(!v2.your_turn);
    assert_eq!(v1.game_id, 9);
    assert_eq!(v1.opponent_id, 2);
    assert_eq!(v2.opponent_id, 1);
    assert!(v1.your_shots.is_empty());
    assert_eq!(v1.your_ships.len(), 3);
}

#[test]
fn views_follow_status_code() {
    let mut g = GameState::new(9, 1, fleet(), 2, fleet());
    g.status = 2;
    assert!(!g.get_player_game_state(1).unwrap().your_turn);
    assert!(g.get_player_game_state(2).unwrap().your_turn);
    g.status = 3;
    assert!(!g.get_player_game_state(1).unwrap().your_turn);
    assert!(!g.get_player_game_state(2).unwrap().your_turn);
    assert_eq!(g.get_player_game_state(1).unwrap().current_state, 3);
}

#[test]
fn view_of_unknown_player_is_invalid() {
    let g = GameState::new(9, 1, fleet(), 2, fleet());
    assert!(matches!(g.get_player_game_state(3), Err(Error::InvalidArgument(_))));
}

#[test]
fn register_shot_marks_hits_and_misses() {
    let mut g = GameState::new(9, 1, fleet(), 2, vec![Ship { ship_type: "boat".to_string(), cells: vec![7] }]);
    g.register_shot(1, 7).unwrap();
    g.register_shot(1, 8).unwrap();
    g.register_shot(2, 1).unwrap();
    assert_eq!(g.player1_shots, vec![Shot { cell: 7, hit: true }, Shot { cell: 8, hit: false }]);
    assert_eq!(g.player2_shots, vec![Shot { cell: 1, hit: true }]);
    let v1 = g.get_player_game_state(1).unwrap();
    assert_eq!(v1.destroyed_opponent_ships, vec!["boat".to_string()]);
    assert_eq!(v1.opponent_shots, vec![Shot { cell: 1, hit: true }]);
    let v2 = g.get_player_game_state(2).unwrap();
    assert!(v2.destroyed_opponent_ships.is_empty());
}

#[test]
fn register_shot_by_stranger_changes_nothing() {
    let mut g = GameState::new(9, 1, fleet(), 2, fleet());
    assert!(matches!(g.register_shot(3, 1), Err(Error::InvalidArgument(_))));
    assert!(g.player1_shots.is_empty());
    assert!(g.player2_shots.is_empty());
}

#[test]
fn destroyed_ships_only_grow_as_shots_arrive() {
    let mut g = GameState::new(9, 1, fleet(), 2, fleet());
    let mut before: Vec<String> = Vec::new();
    for cell in [1u8, 20, 2, 5, 10, 11, 12, 1] {
        g.register_shot(1, cell).unwrap();
        let now = g.get_player_game_state(1).unwrap().destroyed_opponent_ships;
        for label in &before {
            assert!(now.contains(label));
        }
        before = now;
    }
    assert_eq!(before, vec!["destroyer".to_string(), "submarine".to_string(), "boat".to_string()]);
}
