//! The shared record of a game and the view that each player gets of it.

use vstd::prelude::*;
use crate::error::Error;
use crate::ids::{CellIndex, GameId, PlayerId};

verus! {

/// A ship: its type label and the cells it occupies.
#[derive(Debug)]
pub struct Ship {
    pub ship_type: String,
    pub cells: Vec<CellIndex>,
}

impl View for Ship {
    type V = (Seq<char>, Seq<CellIndex>);

    open spec fn view(&self) -> (Seq<char>, Seq<CellIndex>) {
        (self.ship_type@, self.cells@)
    }
}

/// The ships of one player.
pub type ShipPlacement = Vec<Ship>;

/// A shot: the cell fired upon and whether it hit a ship.
#[derive(Debug, Clone, Copy, PartialEq, Eq, Structural)]
pub struct Shot {
    pub cell: CellIndex,
    pub hit: bool,
}

/// A placement as a sequence of (label, cells).
pub open spec fn placement_view(p: Seq<Ship>) -> Seq<(Seq<char>, Seq<CellIndex>)> {
    p.map_values(|s: Ship| s@)
}

/// The cells that a list of shots has fired upon.
pub open spec fn shot_cells(shots: Seq<Shot>) -> Set<CellIndex> {
    Set::new(|c: CellIndex| exists|i: int| 0 <= i < shots.len() && shots[i].cell == c)
}

/// A ship is destroyed when every one of its cells has been fired upon.
pub open spec fn is_destroyed(cells: Seq<CellIndex>, fired: Set<CellIndex>) -> bool {
    forall|j: int| 0 <= j < cells.len() ==> fired.contains(cells[j])
}

/// The labels of the destroyed ships, in placement order.
pub open spec fn destroyed(ships: Seq<(Seq<char>, Seq<CellIndex>)>, fired: Set<CellIndex>) -> Seq<
    Seq<char>,
>
    decreases ships.len(),
{
    if ships.len() == 0 {
        seq![]
    } else {
        let rest = destroyed(ships.drop_last(), fired);
        if is_destroyed(ships.last().1, fired) {
            rest.push(ships.last().0)
        } else {
            rest
        }
    }
}

/// Whether some ship of the placement occupies `cell`.
pub open spec fn occupies(ships: Seq<(Seq<char>, Seq<CellIndex>)>, cell: CellIndex) -> bool {
    exists|i: int, j: int| 0 <= i < ships.len() && 0 <= j < ships[i].1.len() && ships[i].1[j] == cell
}

/// The labels of strings, as sequences of characters.
pub open spec fn labels_view(v: Seq<String>) -> Seq<Seq<char>> {
    v.map_values(|s: String| s@)
}

/// A destroyed ship stays destroyed when more cells are fired upon.
pub proof fn lemma_destroyed_monotonic(
    ships: Seq<(Seq<char>, Seq<CellIndex>)>,
    fired: Set<CellIndex>,
    more: Set<CellIndex>,
)
    requires
        fired.subset_of(more),
    ensures
        forall|label: Seq<char>|
            destroyed(ships, fired).contains(label) ==> #[trigger] destroyed(ships, more).contains(
                label,
            ),
    decreases ships.len(),
{
    if ships.len() > 0 {
        lemma_destroyed_monotonic(ships.drop_last(), fired, more);
        let rest = destroyed(ships.drop_last(), fired);
        let rest_more = destroyed(ships.drop_last(), more);
        if is_destroyed(ships.last().1, fired) {
            assert(is_destroyed(ships.last().1, more));
        }
        assert forall|label: Seq<char>|
            destroyed(ships, fired).contains(label) implies #[trigger] destroyed(
                ships,
                more,
            ).contains(label) by {
            if rest.contains(label) {
                assert(rest_more.contains(label));
                if is_destroyed(ships.last().1, more) {
                    let k = choose|k: int| 0 <= k < rest_more.len() && rest_more[k] == label;
                    assert(rest_more.push(ships.last().0)[k] == label);
                }
            } else {
                assert(label == ships.last().0);
                assert(rest_more.push(ships.last().0)[rest_more.len() as int] == label);
            }
        }
    }
}

/// Whether some shot of the list fired upon `cell`.
fn fired_upon(shots: &Vec<Shot>, cell: CellIndex) -> (r: bool)
    ensures
        r == shot_cells(shots@).contains(cell),
{
    let mut i: usize = 0;
    while i < shots.len()
        invariant
            i <= shots.len(),
            forall|k: int| 0 <= k < i ==> shots@[k].cell != cell,
        decreases shots.len() - i,
    {
        if shots[i].cell == cell {
            return true;
        }
        i += 1;
    }
    false
}

/// Whether every cell of the ship has been fired upon.
fn ship_destroyed(ship: &Ship, shots: &Vec<Shot>) -> (r: bool)
    ensures
        r == is_destroyed(ship.cells@, shot_cells(shots@)),
{
    let mut j: usize = 0;
    while j < ship.cells.len()
        invariant
            j <= ship.cells.len(),
            forall|k: int| 0 <= k < j ==> shot_cells(shots@).contains(#[trigger] ship.cells@[k]),
        decreases ship.cells.len() - j,
    {
        if !fired_upon(shots, ship.cells[j]) {
            return false;
        }
        j += 1;
    }
    true
}

/// The type labels of the ships of `ship_placement` whose every cell is
/// among the cells of `shots`, in placement order.
pub fn get_destroyed_ships(ship_placement: &ShipPlacement, shots: &Vec<Shot>) -> (r: Vec<String>)
    ensures
        labels_view(r@) == destroyed(placement_view(ship_placement@), shot_cells(shots@)),
{
    let ghost ships = placement_view(ship_placement@);
    let ghost fired = shot_cells(shots@);
    let mut destroyed_ships: Vec<String> = Vec::new();
    let mut i: usize = 0;
    while i < ship_placement.len()
        invariant
            i <= ship_placement.len(),
            ships == placement_view(ship_placement@),
            fired == shot_cells(shots@),
            labels_view(destroyed_ships@) == destroyed(ships.take(i as int), fired),
        decreases ship_placement.len() - i,
    {
        let ghost before = destroyed_ships@;
        assert(ships.take(i as int + 1).drop_last() == ships.take(i as int));
        assert(ships.take(i as int + 1).last() == ship_placement@[i as int]@);
        if ship_destroyed(&ship_placement[i], shots) {
            destroyed_ships.push(ship_placement[i].ship_type.clone());
            assert(labels_view(destroyed_ships@) =~= labels_view(before).push(
                ship_placement@[i as int].ship_type@,
            ));
        }
        i += 1;
    }
    assert(ships.take(ship_placement.len() as int) == ships);
    destroyed_ships
}

/// A copy of a list of shots.
fn copy_shots(shots: &Vec<Shot>) -> (r: Vec<Shot>)
    ensures
        r@ == shots@,
{
    let mut out: Vec<Shot> = Vec::new();
    let mut i: usize = 0;
    while i < shots.len()
        invariant
            i <= shots.len(),
            out@ == shots@.take(i as int),
        decreases shots.len() - i,
    {
        out.push(shots[i]);
        i += 1;
        assert(out@ =~= shots@.take(i as int));
    }
    assert(shots@.take(shots.len() as int) =~= shots@);
    out
}

/// A copy of a ship.
pub fn copy_ship(ship: &Ship) -> (r: Ship)
    ensures
        r@ == ship@,
{
    let mut cells: Vec<CellIndex> = Vec::new();
    let mut j: usize = 0;
    while j < ship.cells.len()
        invariant
            j <= ship.cells.len(),
            cells@ == ship.cells@.take(j as int),
        decreases ship.cells.len() - j,
    {
        cells.push(ship.cells[j]);
        j += 1;
        assert(cells@ =~= ship.cells@.take(j as int));
    }
    assert(ship.cells@.take(ship.cells.len() as int) =~= ship.cells@);
    Ship { ship_type: ship.ship_type.clone(), cells }
}

/// A copy of a placement.
pub fn copy_placement(placement: &ShipPlacement) -> (r: ShipPlacement)
    ensures
        placement_view(r@) == placement_view(placement@),
{
    let mut out: ShipPlacement = Vec::new();
    let mut i: usize = 0;
    while i < placement.len()
        invariant
            i <= placement.len(),
            placement_view(out@) == placement_view(placement@).take(i as int),
        decreases placement.len() - i,
    {
        let ghost before = out@;
        let ship = copy_ship(&placement[i]);
        let ghost sv = ship@;
        out.push(ship);
        assert(placement_view(out@) =~= placement_view(before).push(sv));
        i += 1;
        assert(placement_view(out@) =~= placement_view(placement@).take(i as int));
    }
    assert(placement_view(placement@).take(placement.len() as int) =~= placement_view(
        placement@,
    ));
    out
}

/// The shared record of a game: both placements, the shots of each player,
/// and the engine's status code (1: player one to move; 2: player two to
/// move; any other value: no one to move).
#[derive(Debug)]
pub struct GameState {
    pub game_id: GameId,
    pub status: i32,
    pub player1_id: PlayerId,
    pub player1_ships: ShipPlacement,
    pub player1_shots: Vec<Shot>,
    pub player2_id: PlayerId,
    pub player2_ships: ShipPlacement,
    pub player2_shots: Vec<Shot>,
}

/// The record of a game, over sequences.
pub struct GameStateView {
    pub game_id: GameId,
    pub status: i32,
    pub player1_id: PlayerId,
    pub player1_ships: Seq<(Seq<char>, Seq<CellIndex>)>,
    pub player1_shots: Seq<Shot>,
    pub player2_id: PlayerId,
    pub player2_ships: Seq<(Seq<char>, Seq<CellIndex>)>,
    pub player2_shots: Seq<Shot>,
}

impl View for GameState {
    type V = GameStateView;

    open spec fn view(&self) -> GameStateView {
        GameStateView {
            game_id: self.game_id,
            status: self.status,
            player1_id: self.player1_id,
            player1_ships: placement_view(self.player1_ships@),
            player1_shots: self.player1_shots@,
            player2_id: self.player2_id,
            player2_ships: placement_view(self.player2_ships@),
            player2_shots: self.player2_shots@,
        }
    }
}

/// What one player sees of a game.
#[derive(Debug)]
pub struct PlayerGameState {
    pub game_id: GameId,
    pub opponent_id: PlayerId,
    pub current_state: i32,
    pub your_turn: bool,
    pub your_shots: Vec<Shot>,
    pub opponent_shots: Vec<Shot>,
    pub destroyed_opponent_ships: Vec<String>,
    pub your_ships: ShipPlacement,
}

/// What one player sees of a game, over sequences.
pub struct PlayerGameStateView {
    pub game_id: GameId,
    pub opponent_id: PlayerId,
    pub current_state: i32,
    pub your_turn: bool,
    pub your_shots: Seq<Shot>,
    pub opponent_shots: Seq<Shot>,
    pub destroyed_opponent_ships: Seq<Seq<char>>,
    pub your_ships: Seq<(Seq<char>, Seq<CellIndex>)>,
}

impl View for PlayerGameState {
    type V = PlayerGameStateView;

    open spec fn view(&self) -> PlayerGameStateView {
        PlayerGameStateView {
            game_id: self.game_id,
            opponent_id: self.opponent_id,
            current_state: self.current_state,
            your_turn: self.your_turn,
            your_shots: self.your_shots@,
            opponent_shots: self.opponent_shots@,
            destroyed_opponent_ships: labels_view(self.destroyed_opponent_ships@),
            your_ships: placement_view(self.your_ships@),
        }
    }
}

/// The view of `player` on the game: its own ships and shots, the
/// opponent's shots, the opponent's ships that its shots destroyed, and
/// whether the status code says it is to move. None for a player who is not
/// in the game; player one's view where both seats hold the same player.
pub open spec fn project(g: GameStateView, player: PlayerId) -> Option<PlayerGameStateView> {
    if player == g.player1_id {
        Some(
            PlayerGameStateView {
                game_id: g.game_id,
                opponent_id: g.player2_id,
                current_state: g.status,
                your_turn: g.status == 1,
                your_shots: g.player1_shots,
                opponent_shots: g.player2_shots,
                destroyed_opponent_ships: destroyed(g.player2_ships, shot_cells(g.player1_shots)),
                your_ships: g.player1_ships,
            },
        )
    } else if player == g.player2_id {
        Some(
            PlayerGameStateView {
                game_id: g.game_id,
                opponent_id: g.player1_id,
                current_state: g.status,
                your_turn: g.status == 2,
                your_shots: g.player2_shots,
                opponent_shots: g.player1_shots,
                destroyed_opponent_ships: destroyed(g.player1_ships, shot_cells(g.player2_shots)),
                your_ships: g.player2_ships,
            },
        )
    } else {
        None
    }
}

/// The record after `player` fired upon `cell`: the shot is appended to its
/// list, and hits when a ship of the opponent occupies the cell. None for a
/// player who is not in the game.
pub open spec fn with_shot(g: GameStateView, player: PlayerId, cell: CellIndex) -> Option<
    GameStateView,
> {
    if player == g.player1_id {
        Some(
            GameStateView {
                player1_shots: g.player1_shots.push(
                    Shot { cell, hit: occupies(g.player2_ships, cell) },
                ),
                ..g
            },
        )
    } else if player == g.player2_id {
        Some(
            GameStateView {
                player2_shots: g.player2_shots.push(
                    Shot { cell, hit: occupies(g.player1_ships, cell) },
                ),
                ..g
            },
        )
    } else {
        None
    }
}

/// Whether some ship of the placement occupies `cell`.
fn placement_occupies(placement: &ShipPlacement, cell: CellIndex) -> (r: bool)
    ensures
        r == occupies(placement_view(placement@), cell),
{
    let ghost ships = placement_view(placement@);
    let mut i: usize = 0;
    while i < placement.len()
        invariant
            i <= placement.len(),
            ships == placement_view(placement@),
            forall|a: int, b: int|
                0 <= a < i && 0 <= b < ships[a].1.len() ==> ships[a].1[b] != cell,
        decreases placement.len() - i,
    {
        let mut j: usize = 0;
        while j < placement[i].cells.len()
            invariant
                i < placement.len(),
                j <= placement@[i as int].cells.len(),
                ships == placement_view(placement@),
                forall|a: int, b: int|
                    0 <= a < i && 0 <= b < ships[a].1.len() ==> ships[a].1[b] != cell,
                forall|b: int| 0 <= b < j ==> ships[i as int].1[b] != cell,
            decreases placement@[i as int].cells.len() - j,
        {
            if placement[i].cells[j] == cell {
                assert(ships[i as int].1[j as int] == cell);
                return true;
            }
            j += 1;
        }
        i += 1;
    }
    false
}

impl GameState {
    /// A fresh game between two players: no shots yet, player one to move.
    pub fn new(
        game_id: GameId,
        player1_id: PlayerId,
        player1_ships: ShipPlacement,
        player2_id: PlayerId,
        player2_ships: ShipPlacement,
    ) -> (r: Self)
        ensures
            r@ == (GameStateView {
                game_id,
                status: 1,
                player1_id,
                player1_ships: placement_view(player1_ships@),
                player1_shots: seq![],
                player2_id,
                player2_ships: placement_view(player2_ships@),
                player2_shots: seq![],
            }),
    {
        let r = GameState {
            game_id,
            status: 1,
            player1_id,
            player1_ships,
            player1_shots: Vec::new(),
            player2_id,
            player2_ships,
            player2_shots: Vec::new(),
        };
        assert(r@.player1_shots =~= seq![]);
        assert(r@.player2_shots =~= seq![]);
        r
    }

    /// The view of `player_id` on this game; an invalid argument for a
    /// player who is not in it.
    pub fn get_player_game_state(&self, player_id: PlayerId) -> (r: Result<PlayerGameState, Error>)
        ensures
            match r {
                Ok(v) => project(self@, player_id) == Some(v@),
                Err(e) => project(self@, player_id) is None && e is InvalidArgument,
            },
    {
        if self.player1_id == player_id {
            let v = PlayerGameState {
                game_id: self.game_id,
                opponent_id: self.player2_id,
                current_state: self.status,
                your_turn: self.status == 1,
                your_shots: copy_shots(&self.player1_shots),
                opponent_shots: copy_shots(&self.player2_shots),
                destroyed_opponent_ships: get_destroyed_ships(
                    &self.player2_ships,
                    &self.player1_shots,
                ),
                your_ships: copy_placement(&self.player1_ships),
            };
            return Ok(v);
        }
        if self.player2_id == player_id {
            let v = PlayerGameState {
                game_id: self.game_id,
                opponent_id: self.player1_id,
                current_state: self.status,
                your_turn: self.status == 2,
                your_shots: copy_shots(&self.player2_shots),
                opponent_shots: copy_shots(&self.player1_shots),
                destroyed_opponent_ships: get_destroyed_ships(
                    &self.player1_ships,
                    &self.player2_shots,
                ),
                your_ships: copy_placement(&self.player2_ships),
            };
            return Ok(v);
        }
        Err(Error::InvalidArgument(String::from_str("Invalid player ID")))
    }

    /// Records that `player_id` fired upon `cell`; an invalid argument, and
    /// no change, for a player who is not in the game.
    pub fn register_shot(&mut self, player_id: PlayerId, cell: CellIndex) -> (r: Result<(), Error>)
        ensures
            match with_shot(old(self)@, player_id, cell) {
                Some(g) => r is Ok && final(self)@ == g,
                None => r matches Err(Error::InvalidArgument(_)) && final(self)@ == old(self)@,
            },
    {
        if self.player1_id == player_id {
            let hit = placement_occupies(&self.player2_ships, cell);
            self.player1_shots.push(Shot { cell, hit });
            return Ok(());
        }
        if self.player2_id == player_id {
            let hit = placement_occupies(&self.player1_ships, cell);
            self.player2_shots.push(Shot { cell, hit });
            return Ok(());
        }
        Err(Error::InvalidArgument(String::from_str("Invalid player ID")))
    }
}

/// The set of ships that a player sees destroyed only grows as shots are
/// registered: after any shot, every ship destroyed in a player's view is
/// still destroyed in that player's new view.
pub proof fn lemma_projection_destroyed_monotonic(
    g: GameStateView,
    shooter: PlayerId,
    cell: CellIndex,
    viewer: PlayerId,
)
    requires
        with_shot(g, shooter, cell) is Some,
        project(g, viewer) is Some,
    ensures
        forall|label: Seq<char>|
            project(g, viewer).unwrap().destroyed_opponent_ships.contains(label)
                ==> #[trigger] project(
                with_shot(g, shooter, cell).unwrap(),
                viewer,
            ).unwrap().destroyed_opponent_ships.contains(label),
{
    let g2 = with_shot(g, shooter, cell).unwrap();
    assert(shot_cells(g.player1_shots).subset_of(shot_cells(g2.player1_shots))) by {
        assert forall|c: CellIndex| shot_cells(g.player1_shots).contains(c) implies shot_cells(
            g2.player1_shots,
        ).contains(c) by {
            let i = choose|i: int| 0 <= i < g.player1_shots.len() && g.player1_shots[i].cell == c;
            if shooter == g.player1_id {
                assert(g2.player1_shots[i] == g.player1_shots[i]);
            }
        }
    }
    assert(shot_cells(g.player2_shots).subset_of(shot_cells(g2.player2_shots))) by {
        assert forall|c: CellIndex| shot_cells(g.player2_shots).contains(c) implies shot_cells(
            g2.player2_shots,
        ).contains(c) by {
            let i = choose|i: int| 0 <= i < g.player2_shots.len() && g.player2_shots[i].cell == c;
            if shooter != g.player1_id {
                assert(g2.player2_shots[i] == g.player2_shots[i]);
            }
        }
    }
    lemma_destroyed_monotonic(g.player2_ships, shot_cells(g.player1_shots), shot_cells(g2.player1_shots));
    lemma_destroyed_monotonic(g.player1_ships, shot_cells(g.player2_shots), shot_cells(g2.player2_shots));
}

} // verus!
