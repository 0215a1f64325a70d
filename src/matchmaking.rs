//! The single-slot queue that pairs players for a game.

use vstd::prelude::*;
use crate::game::{placement_view, ShipPlacement};
use crate::ids::PlayerId;

verus! {

/// A player and its ships, as the queue sees them.
pub type Entrant = (PlayerId, Seq<(Seq<char>, Seq<u8>)>);

/// Two players paired for a game: the one that waited, then the one that
/// arrived. The first moves first.
#[derive(Debug)]
pub struct Pairing {
    pub player1_id: PlayerId,
    pub player1_ships: ShipPlacement,
    pub player2_id: PlayerId,
    pub player2_ships: ShipPlacement,
}

impl View for Pairing {
    type V = (Entrant, Entrant);

    open spec fn view(&self) -> (Entrant, Entrant) {
        (
            (self.player1_id, placement_view(self.player1_ships@)),
            (self.player2_id, placement_view(self.player2_ships@)),
        )
    }
}

/// An arrival at the queue: with the slot empty, the arrival waits and no
/// pair is formed; with the slot taken, the waiting player and the arrival
/// are paired in that order and the slot is cleared.
pub open spec fn enqueue(slot: Option<Entrant>, arrival: Entrant) -> (Option<Entrant>, Option<
    (Entrant, Entrant),
>) {
    match slot {
        None => (Some(arrival), None),
        Some(waiting) => (None, Some((waiting, arrival))),
    }
}

/// Pairing is exactly-once and keeps arrival order: after A then B arrive
/// at an empty queue, A and B are paired once, A first, and the slot is
/// empty; a third arrival C then waits alone.
pub proof fn lemma_pairs_in_arrival_order(a: Entrant, b: Entrant, c: Entrant)
    ensures
        enqueue(None, a) == (Some(a), None::<(Entrant, Entrant)>),
        enqueue(enqueue(None, a).0, b) == (None::<Entrant>, Some((a, b))),
        enqueue(enqueue(enqueue(None, a).0, b).0, c) == (Some(c), None::<(Entrant, Entrant)>),
{
}

#[derive(Debug)]
struct WaitingPlayer {
    id: PlayerId,
    ships: ShipPlacement,
}

/// The queue of players who asked for a game: at most one waits.
#[derive(Debug)]
pub struct Matchmaker {
    waiting_player: Option<WaitingPlayer>,
}

impl Matchmaker {
    /// The player who waits, if any.
    pub closed spec fn waiting(&self) -> Option<Entrant> {
        match self.waiting_player {
            Some(w) => Some((w.id, placement_view(w.ships@))),
            None => None,
        }
    }

    /// An empty queue.
    pub fn new() -> (r: Self)
        ensures
            r.waiting() is None,
    {
        Self { waiting_player: None }
    }

    /// A player arrives with its ships: it waits if no one does, else it is
    /// paired with the one who waits.
    pub fn play(&mut self, new_player_id: PlayerId, new_player_ships: ShipPlacement) -> (r: Option<
        Pairing,
    >)
        ensures
            (final(self).waiting(), match r {
                Some(p) => Some(p@),
                None => None,
            }) == enqueue(old(self).waiting(), (new_player_id, placement_view(new_player_ships@))),
    {
        match self.waiting_player.take() {
            Some(waiting_player) => Some(
                Pairing {
                    player1_id: waiting_player.id,
                    player1_ships: waiting_player.ships,
                    player2_id: new_player_id,
                    player2_ships: new_player_ships,
                },
            ),
            None => {
                self.waiting_player = Some(WaitingPlayer { id: new_player_id, ships: new_player_ships });
                None
            },
        }
    }
}

} // verus!
