//! The bridge to the game engine: intents become records keyed by their
//! game, and the engine's reports become game records.

use vstd::prelude::*;
use crate::error::Error;
use crate::game::{placement_view, GameState, GameStateView, Ship, ShipPlacement, Shot};
use crate::ids::{parse_uuid, parsed_uuid, uuid_string, uuid_text, CellIndex, GameId, PlayerId};
use crate::proto;

verus! {

/// An intent ready for the event bus: the topic, the partition key, and the
/// envelope.
#[derive(Debug)]
pub struct OutboundRecord {
    pub topic: String,
    pub key: String,
    pub message: proto::ToGameFn,
}

/// A placement with its cells widened to the schema's integers.
pub open spec fn wire_placement(ships: Seq<(Seq<char>, Seq<CellIndex>)>) -> Seq<
    (Seq<char>, Seq<i64>),
> {
    ships.map_values(
        |s: (Seq<char>, Seq<CellIndex>)| (s.0, s.1.map_values(|c: CellIndex| c as i64)),
    )
}

/// Whether every cell of a placement of the schema is a board cell.
pub open spec fn cells_in_range(ships: Seq<(Seq<char>, Seq<i64>)>) -> bool {
    forall|i: int, j: int|
        0 <= i < ships.len() && 0 <= j < ships[i].1.len() ==> 0 <= #[trigger] ships[i].1[j] <= 255
}

/// A placement of the schema with its cells narrowed to board cells.
pub open spec fn board_placement(ships: Seq<(Seq<char>, Seq<i64>)>) -> Seq<
    (Seq<char>, Seq<CellIndex>),
> {
    ships.map_values(|s: (Seq<char>, Seq<i64>)| (s.0, s.1.map_values(|c: i64| c as CellIndex)))
}

/// Whether every shot of the schema fired upon a board cell.
pub open spec fn shots_in_range(shots: Seq<proto::Shot>) -> bool {
    forall|i: int| 0 <= i < shots.len() ==> 0 <= #[trigger] shots[i].cell_id <= 255
}

/// Shots of the schema as board shots.
pub open spec fn board_shots(shots: Seq<proto::Shot>) -> Seq<Shot> {
    shots.map_values(|s: proto::Shot| Shot { cell: s.cell_id as CellIndex, hit: s.shot })
}

/// Whether a record carries its message on `topic`, keyed by the game, with
/// the game named in its envelope.
pub open spec fn keyed_by_game(r: OutboundRecord, topic: Seq<char>, game_id: GameId) -> bool {
    &&& r.topic@ == topic
    &&& r.key@ == uuid_text(game_id)
    &&& r.message.game_id@ == uuid_text(game_id)
}

/// Whether a message asks the engine to set up the game between the two
/// players with their ships.
pub open spec fn is_create_game(
    m: proto::Msg,
    game_id: GameId,
    player1_id: PlayerId,
    player1_ships: Seq<(Seq<char>, Seq<CellIndex>)>,
    player2_id: PlayerId,
    player2_ships: Seq<(Seq<char>, Seq<CellIndex>)>,
) -> bool {
    &&& m is CreateGame
    &&& m->CreateGame_0.game_id@ == uuid_text(game_id)
    &&& m->CreateGame_0.player1_id@ == uuid_text(player1_id)
    &&& m->CreateGame_0.player2_id@ == uuid_text(player2_id)
    &&& proto::ships_view(m->CreateGame_0.player1_placement) == wire_placement(player1_ships)
    &&& proto::ships_view(m->CreateGame_0.player2_placement) == wire_placement(player2_ships)
}

/// Whether a message reports that the player fired upon the cell.
pub open spec fn is_turn(m: proto::Msg, game_id: GameId, player_id: PlayerId, cell: CellIndex) -> bool {
    &&& m is Turn
    &&& m->Turn_0.game_id@ == uuid_text(game_id)
    &&& m->Turn_0.player_id@ == uuid_text(player_id)
    &&& m->Turn_0.shot == cell as i64
}

/// Whether a message asks for the record of the game.
pub open spec fn is_status_query(m: proto::Msg, game_id: GameId) -> bool {
    &&& m is GetGameStatus
    &&& m->GetGameStatus_0.game_id@ == uuid_text(game_id)
}

/// A placement in the schema's form.
pub fn placement_to_proto(placement: &ShipPlacement) -> (r: proto::ShipPlacement)
    ensures
        proto::ships_view(r) == wire_placement(placement_view(placement@)),
{
    let mut ships: Vec<proto::Ship> = Vec::new();
    let mut i: usize = 0;
    while i < placement.len()
        invariant
            i <= placement.len(),
            ships@.map_values(|s: proto::Ship| s@) == wire_placement(
                placement_view(placement@),
            ).take(i as int),
        decreases placement.len() - i,
    {
        let ship = &placement[i];
        let mut cells: Vec<i64> = Vec::new();
        let mut j: usize = 0;
        while j < ship.cells.len()
            invariant
                j <= ship.cells.len(),
                cells@ == ship.cells@.map_values(|c: CellIndex| c as i64).take(j as int),
            decreases ship.cells.len() - j,
        {
            cells.push(ship.cells[j] as i64);
            j += 1;
            assert(cells@ =~= ship.cells@.map_values(|c: CellIndex| c as i64).take(j as int));
        }
        assert(ship.cells@.map_values(|c: CellIndex| c as i64).take(j as int) =~= ship.cells@.map_values(
            |c: CellIndex| c as i64,
        ));
        let ghost before = ships@;
        let wire = proto::Ship { ship_type: ship.ship_type.clone(), cells };
        let ghost wv = wire@;
        ships.push(wire);
        assert(ships@.map_values(|s: proto::Ship| s@) =~= before.map_values(|s: proto::Ship| s@).push(wv));
        i += 1;
        assert(ships@.map_values(|s: proto::Ship| s@) =~= wire_placement(
            placement_view(placement@),
        ).take(i as int));
    }
    assert(wire_placement(placement_view(placement@)).take(i as int) =~= wire_placement(
        placement_view(placement@),
    ));
    proto::ShipPlacement { ships }
}

/// A placement of the schema as board ships; None when a cell lies outside
/// the board's cell range.
pub fn placement_from_proto(placement: &proto::ShipPlacement) -> (r: Option<ShipPlacement>)
    ensures
        cells_in_range(proto::ships_view(*placement)) ==> r is Some && placement_view(r.unwrap()@)
            == board_placement(proto::ships_view(*placement)),
        !cells_in_range(proto::ships_view(*placement)) ==> r is None,
{
    let ghost wire = proto::ships_view(*placement);
    let mut ships: ShipPlacement = Vec::new();
    let mut i: usize = 0;
    while i < placement.ships.len()
        invariant
            i <= placement.ships.len(),
            wire == proto::ships_view(*placement),
            placement_view(ships@) == board_placement(wire).take(i as int),
            forall|a: int, b: int|
                0 <= a < i && 0 <= b < wire[a].1.len() ==> 0 <= #[trigger] wire[a].1[b] <= 255,
        decreases placement.ships.len() - i,
    {
        let ship = &placement.ships[i];
        let mut cells: Vec<CellIndex> = Vec::new();
        let mut j: usize = 0;
        while j < ship.cells.len()
            invariant
                i < placement.ships.len(),
                ship == &placement.ships@[i as int],
                wire == proto::ships_view(*placement),
                j <= ship.cells.len(),
                cells@ == ship.cells@.map_values(|c: i64| c as CellIndex).take(j as int),
                forall|b: int| 0 <= b < j ==> 0 <= #[trigger] wire[i as int].1[b] <= 255,
            decreases ship.cells.len() - j,
        {
            let c = ship.cells[j];
            if c < 0 || c > 255 {
                assert(wire[i as int].1[j as int] == c);
                return None;
            }
            cells.push(c as CellIndex);
            j += 1;
            assert(cells@ =~= ship.cells@.map_values(|c: i64| c as CellIndex).take(j as int));
        }
        assert(ship.cells@.map_values(|c: i64| c as CellIndex).take(j as int) =~= ship.cells@.map_values(
            |c: i64| c as CellIndex,
        ));
        let ghost before = ships@;
        let board = Ship { ship_type: ship.ship_type.clone(), cells };
        let ghost bv = board@;
        ships.push(board);
        assert(placement_view(ships@) =~= placement_view(before).push(bv));
        i += 1;
        assert(placement_view(ships@) =~= board_placement(wire).take(i as int));
    }
    assert(board_placement(wire).take(i as int) =~= board_placement(wire));
    Some(ships)
}

/// Shots of the schema as board shots; None when a shot lies outside the
/// board's cell range.
pub fn shots_from_proto(shots: &Vec<proto::Shot>) -> (r: Option<Vec<Shot>>)
    ensures
        shots_in_range(shots@) ==> r is Some && r.unwrap()@ == board_shots(shots@),
        !shots_in_range(shots@) ==> r is None,
{
    let mut out: Vec<Shot> = Vec::new();
    let mut i: usize = 0;
    while i < shots.len()
        invariant
            i <= shots.len(),
            out@ == board_shots(shots@).take(i as int),
            forall|k: int| 0 <= k < i ==> 0 <= #[trigger] shots@[k].cell_id <= 255,
        decreases shots.len() - i,
    {
        let s = shots[i];
        if s.cell_id < 0 || s.cell_id > 255 {
            return None;
        }
        out.push(Shot { cell: s.cell_id as CellIndex, hit: s.shot });
        i += 1;
        assert(out@ =~= board_shots(shots@).take(i as int));
    }
    assert(board_shots(shots@).take(i as int) =~= board_shots(shots@));
    Some(out)
}

/// What a report of the engine amounts to.
pub enum EngineEvent {
    /// The record of a game.
    Update(GameStateView),
    /// A failure, with the engine's message.
    Failed(Seq<char>),
    /// A report that lacks a part or holds a value out of range.
    Malformed,
}

/// The game record of an update of the engine, if its identities parse
/// and its placements and shots are present and on the board.
pub open spec fn update_record(game_id: GameId, u: proto::GameUpdate) -> Option<GameStateView> {
    if parsed_uuid(u.player1_id@) is Some && parsed_uuid(u.player2_id@) is Some
        && u.player1_placement is Some && u.player2_placement is Some && cells_in_range(
        proto::ships_view(u.player1_placement.unwrap()),
    ) && cells_in_range(proto::ships_view(u.player2_placement.unwrap())) && shots_in_range(
        u.player1_shots@,
    ) && shots_in_range(u.player2_shots@) {
        Some(
            GameStateView {
                game_id,
                status: u.status,
                player1_id: parsed_uuid(u.player1_id@).unwrap(),
                player1_ships: board_placement(proto::ships_view(u.player1_placement.unwrap())),
                player1_shots: board_shots(u.player1_shots@),
                player2_id: parsed_uuid(u.player2_id@).unwrap(),
                player2_ships: board_placement(proto::ships_view(u.player2_placement.unwrap())),
                player2_shots: board_shots(u.player2_shots@),
            },
        )
    } else {
        None
    }
}

/// What a report of the engine amounts to: malformed when its game
/// identity does not parse or it carries no response.
pub open spec fn engine_event(msg: proto::FromGameFn) -> EngineEvent {
    match parsed_uuid(msg.game_id@) {
        None => EngineEvent::Malformed,
        Some(game_id) => match msg.response {
            None => EngineEvent::Malformed,
            Some(proto::Response::Failure(f)) => EngineEvent::Failed(f.message@),
            Some(proto::Response::GameUpdate(u)) => match update_record(game_id, u) {
                Some(g) => EngineEvent::Update(g),
                None => EngineEvent::Malformed,
            },
        },
    }
}

/// The game record that a report of the engine carries; the engine's
/// failure, or a malformed event, otherwise.
pub fn decode_game_event(msg: &proto::FromGameFn) -> (r: Result<GameState, Error>)
    ensures
        match engine_event(*msg) {
            EngineEvent::Update(g) => r is Ok && r.unwrap()@ == g,
            EngineEvent::Failed(m) => r matches Err(Error::ErrorFromStatefun(e)) && e@ == m,
            EngineEvent::Malformed => r matches Err(Error::MalformedEvent),
        },
{
    let game_id = match parse_uuid(msg.game_id.as_str()) {
        Some(g) => g,
        None => return Err(Error::MalformedEvent),
    };
    let u = match &msg.response {
        None => return Err(Error::MalformedEvent),
        Some(proto::Response::Failure(f)) => return Err(Error::ErrorFromStatefun(f.message.clone())),
        Some(proto::Response::GameUpdate(u)) => u,
    };
    let player1_id = match parse_uuid(u.player1_id.as_str()) {
        Some(id) => id,
        None => return Err(Error::MalformedEvent),
    };
    let player2_id = match parse_uuid(u.player2_id.as_str()) {
        Some(id) => id,
        None => return Err(Error::MalformedEvent),
    };
    let player1_ships = match &u.player1_placement {
        Some(p) => match placement_from_proto(p) {
            Some(s) => s,
            None => return Err(Error::MalformedEvent),
        },
        None => return Err(Error::MalformedEvent),
    };
    let player2_ships = match &u.player2_placement {
        Some(p) => match placement_from_proto(p) {
            Some(s) => s,
            None => return Err(Error::MalformedEvent),
        },
        None => return Err(Error::MalformedEvent),
    };
    let player1_shots = match shots_from_proto(&u.player1_shots) {
        Some(s) => s,
        None => return Err(Error::MalformedEvent),
    };
    let player2_shots = match shots_from_proto(&u.player2_shots) {
        Some(s) => s,
        None => return Err(Error::MalformedEvent),
    };
    Ok(
        GameState {
            game_id,
            status: u.status,
            player1_id,
            player1_ships,
            player1_shots,
            player2_id,
            player2_ships,
            player2_shots,
        },
    )
}

/// Where intents for the engine go: the brokers of the event bus and the
/// topic that the engine reads.
#[derive(Debug)]
pub struct StatefunKafkaClient {
    pub brokers: String,
    pub to_statefun_topic: String,
}

impl StatefunKafkaClient {
    /// A client for the given brokers and topic.
    pub fn new(brokers: &str, to_statefun_topic: String) -> (r: Self)
        ensures
            r.brokers@ == brokers@,
            r.to_statefun_topic@ == to_statefun_topic@,
    {
        Self { brokers: brokers.to_owned(), to_statefun_topic }
    }

    /// The record that asks the engine to set up a game between two players
    /// with their ships, keyed by the game.
    pub fn send_create_game(
        &self,
        game_id: GameId,
        player1_id: PlayerId,
        player1_ships: ShipPlacement,
        player2_id: PlayerId,
        player2_ships: ShipPlacement,
    ) -> (r: OutboundRecord)
        ensures
            keyed_by_game(r, self.to_statefun_topic@, game_id),
            is_create_game(
                r.message.msg,
                game_id,
                player1_id,
                placement_view(player1_ships@),
                player2_id,
                placement_view(player2_ships@),
            ),
    {
        let create_game_msg = proto::CreateGame {
            game_id: uuid_string(game_id),
            player1_id: uuid_string(player1_id),
            player2_id: uuid_string(player2_id),
            player1_placement: placement_to_proto(&player1_ships),
            player2_placement: placement_to_proto(&player2_ships),
        };
        let message = proto::ToGameFn {
            game_id: uuid_string(game_id),
            msg: proto::Msg::CreateGame(create_game_msg),
        };
        OutboundRecord { topic: self.to_statefun_topic.clone(), key: uuid_string(game_id), message }
    }

    /// The record that tells the engine that a player fired upon a cell,
    /// keyed by the game.
    pub fn send_turn(&self, game_id: GameId, player_id: PlayerId, cell: CellIndex) -> (r:
        OutboundRecord)
        ensures
            keyed_by_game(r, self.to_statefun_topic@, game_id),
            is_turn(r.message.msg, game_id, player_id, cell),
    {
        let turn_msg = proto::Turn {
            game_id: uuid_string(game_id),
            player_id: uuid_string(player_id),
            shot: cell as i64,
        };
        let message = proto::ToGameFn { game_id: uuid_string(game_id), msg: proto::Msg::Turn(turn_msg) };
        OutboundRecord { topic: self.to_statefun_topic.clone(), key: uuid_string(game_id), message }
    }

    /// The record that asks the engine for the record of a game, keyed by
    /// the game.
    pub fn send_get_game_status(&self, game_id: &GameId) -> (r: OutboundRecord)
        ensures
            keyed_by_game(r, self.to_statefun_topic@, *game_id),
            is_status_query(r.message.msg, *game_id),
    {
        let get_game_status_msg = proto::GetGameStatus { game_id: uuid_string(*game_id) };
        let message = proto::ToGameFn {
            game_id: uuid_string(*game_id),
            msg: proto::Msg::GetGameStatus(get_game_status_msg),
        };
        OutboundRecord { topic: self.to_statefun_topic.clone(), key: uuid_string(*game_id), message }
    }
}

} // verus!
