//! The messages exchanged with the game engine, field for field as its
//! schema defines them. Identities travel as text, cells as 64-bit integers.

use vstd::prelude::*;

verus! {

/// A ship: its type label and the cells it occupies.
#[derive(Debug)]
pub struct Ship {
    pub ship_type: String,
    pub cells: Vec<i64>,
}

impl View for Ship {
    type V = (Seq<char>, Seq<i64>);

    open spec fn view(&self) -> (Seq<char>, Seq<i64>) {
        (self.ship_type@, self.cells@)
    }
}

/// The ships of one player.
#[derive(Debug)]
pub struct ShipPlacement {
    pub ships: Vec<Ship>,
}

/// A placement as a sequence of (label, cells).
pub open spec fn ships_view(p: ShipPlacement) -> Seq<(Seq<char>, Seq<i64>)> {
    p.ships@.map_values(|s: Ship| s@)
}

/// A shot: the cell fired upon and whether it hit.
#[derive(Debug, Clone, Copy, PartialEq, Eq, Structural)]
pub struct Shot {
    pub cell_id: i64,
    pub shot: bool,
}

/// Asks the engine to set up a game between two players.
#[derive(Debug)]
pub struct CreateGame {
    pub game_id: String,
    pub player1_id: String,
    pub player2_id: String,
    pub player1_placement: ShipPlacement,
    pub player2_placement: ShipPlacement,
}

/// A shot that a player of a game fires.
#[derive(Debug)]
pub struct Turn {
    pub game_id: String,
    pub player_id: String,
    pub shot: i64,
}

/// Asks the engine for the current record of a game.
#[derive(Debug)]
pub struct GetGameStatus {
    pub game_id: String,
}

/// The three intents that go to the engine.
#[derive(Debug)]
pub enum Msg {
    CreateGame(CreateGame),
    Turn(Turn),
    GetGameStatus(GetGameStatus),
}

/// The envelope of an intent, with the game it concerns.
#[derive(Debug)]
pub struct ToGameFn {
    pub game_id: String,
    pub msg: Msg,
}

/// The record of a game as the engine reports it.
#[derive(Debug)]
pub struct GameUpdate {
    pub player1_id: String,
    pub player1_placement: Option<ShipPlacement>,
    pub player2_id: String,
    pub player2_placement: Option<ShipPlacement>,
    pub status: i32,
    pub player1_shots: Vec<Shot>,
    pub player2_shots: Vec<Shot>,
}

/// A failure that the engine reports for a game.
#[derive(Debug)]
pub struct Failure {
    pub message: String,
}

/// What the engine reports.
#[derive(Debug)]
pub enum Response {
    GameUpdate(GameUpdate),
    Failure(Failure),
}

/// The envelope of a report of the engine.
#[derive(Debug)]
pub struct FromGameFn {
    pub game_id: String,
    pub response: Option<Response>,
}

} // verus!
