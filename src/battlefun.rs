//! The gateway: players, the queue, the games, and the traffic between
//! them and the engine.

use vstd::prelude::*;
use crate::bridge::{decode_game_event, engine_event, is_create_game, is_turn, keyed_by_game, EngineEvent, OutboundRecord, StatefunKafkaClient};
use crate::error::Error;
use crate::game::{placement_view, project, GameState, GameStateView, ShipPlacement};
use crate::gamemaster::{invalid_player_message, GameInfo, GameMaster};
use crate::ids::{CellIndex, GameId, PlayerId, PlayerToken};
use crate::matchmaking::{enqueue, Matchmaker};
use crate::messages::{Delivery, Outgoing};
use crate::registry::{Player, PlayerRegistry};
use crate::proto;

verus! {

/// Whether a player is registered, connected and authenticated.
pub open spec fn reachable(players: Map<PlayerId, Player>, id: PlayerId) -> bool {
    &&& players.contains_key(id)
    &&& players[id].connection.authenticated
    &&& players[id].connection.sender is Some
}

/// The players of a game that its record is pushed to: player one, then
/// player two, each when reachable.
pub open spec fn update_targets(players: Map<PlayerId, Player>, g: GameStateView) -> Seq<PlayerId> {
    (if reachable(players, g.player1_id) {
        seq![g.player1_id]
    } else {
        seq![]
    }) + (if reachable(players, g.player2_id) {
        seq![g.player2_id]
    } else {
        seq![]
    })
}

/// Whether a delivery carries the player's view of the game to its channel.
pub open spec fn is_view_delivery(
    d: Delivery,
    players: Map<PlayerId, Player>,
    g: GameStateView,
    id: PlayerId,
) -> bool {
    &&& d.channel == players[id].connection.sender.unwrap()
    &&& d.message matches Outgoing::GameState(v) && project(g, id) == Some(v@)
}

/// Whether the deliveries carry the game's record, as each player sees it,
/// to each reachable player of the game.
pub open spec fn update_deliveries(
    players: Map<PlayerId, Player>,
    g: GameStateView,
    ds: Seq<Delivery>,
) -> bool {
    let targets = update_targets(players, g);
    &&& ds.len() == targets.len()
    &&& forall|k: int|
        0 <= k < ds.len() ==> #[trigger] is_view_delivery(ds[k], players, g, targets[k])
}

/// The gateway's state: the registry of players and their connections, the
/// games in progress, and the queue of players who wait for a game.
pub struct BattleFun {
    pub players: PlayerRegistry,
    pub gamemaster: GameMaster,
    pub matchmaker: Matchmaker,
}

impl BattleFun {
    /// The registry is consistent.
    pub open spec fn wf(&self) -> bool {
        self.players.wf()
    }

    /// A gateway with no players, no games and no one waiting, whose intents
    /// go to the engine's topic on the event bus.
    pub fn new() -> (r: Self)
        ensures
            r.wf(),
            r.players.players() == Map::<PlayerId, Player>::empty(),
            r.gamemaster.games() == Map::<GameId, GameInfo>::empty(),
            r.matchmaker.waiting() is None,
            r.gamemaster.topic() == "to-statefun"@,
    {
        let statefun_kafka_client = StatefunKafkaClient::new(
            "kafka-broker:9092",
            String::from_str("to-statefun"),
        );
        Self {
            players: PlayerRegistry::new(),
            gamemaster: GameMaster::new(statefun_kafka_client),
            matchmaker: Matchmaker::new(),
        }
    }

    /// The player holding `token` asks for a game with its ships. It waits
    /// if no one does; else it is paired with the one who waits, that one
    /// first, the game is started, and its identity is returned with the
    /// record that asks the engine to set it up. No such player for an
    /// unknown token.
    pub fn new_game(&mut self, token: PlayerToken, ships: ShipPlacement) -> (r: Result<
        Option<(GameId, OutboundRecord)>,
        Error,
    >)
        requires
            old(self).wf(),
        ensures
            final(self).wf(),
            final(self).players == old(self).players,
            final(self).gamemaster.topic() == old(self).gamemaster.topic(),
            !old(self).players.tokens().contains_key(token) ==> (r matches Err(Error::NoSuchPlayer)
                && *final(self) == *old(self)),
            old(self).players.tokens().contains_key(token) ==> {
                let id = old(self).players.tokens()[token];
                let (slot, pairing) = enqueue(
                    old(self).matchmaker.waiting(),
                    (id, placement_view(ships@)),
                );
                &&& final(self).matchmaker.waiting() == slot
                &&& match pairing {
                    None => {
                        &&& r matches Ok(None)
                        &&& final(self).gamemaster.games() == old(self).gamemaster.games()
                    },
                    Some((first, second)) => {
                        &&& r matches Ok(Some(_))
                        &&& final(self).gamemaster.games() == old(self).gamemaster.games().insert(
                            r.unwrap().unwrap().0,
                            GameInfo { player1_id: first.0, player2_id: second.0 },
                        )
                        &&& keyed_by_game(
                            r.unwrap().unwrap().1,
                            old(self).gamemaster.topic(),
                            r.unwrap().unwrap().0,
                        )
                        &&& is_create_game(
                            r.unwrap().unwrap().1.message.msg,
                            r.unwrap().unwrap().0,
                            first.0,
                            first.1,
                            second.0,
                            second.1,
                        )
                    },
                }
            },
    {
        let player_id = match self.players.lookup_by_token(token) {
            Ok(id) => id,
            Err(e) => return Err(e),
        };
        match self.matchmaker.play(player_id, ships) {
            Some(pairing) => {
                let started = self.gamemaster.start_game(
                    pairing.player1_id,
                    pairing.player1_ships,
                    pairing.player2_id,
                    pairing.player2_ships,
                );
                Ok(Some(started))
            },
            None => Ok(None),
        }
    }

    /// The player holding `token` fires upon `cell` in a game: the one
    /// record that reports it to the engine, keyed by the game. No such
    /// player for an unknown token; no such game for an unknown game; an
    /// invalid argument for a player who is not one of its two.
    pub fn turn(&self, token: PlayerToken, game_id: GameId, cell: CellIndex) -> (r: Result<
        OutboundRecord,
        Error,
    >)
        ensures
            !self.players.tokens().contains_key(token) ==> (r matches Err(Error::NoSuchPlayer)),
            self.players.tokens().contains_key(token) ==> {
                let id = self.players.tokens()[token];
                let games = self.gamemaster.games();
                &&& !games.contains_key(game_id) ==> (r matches Err(Error::NoSuchGame(g)) && g
                    == game_id)
                &&& games.contains_key(game_id) && id != games[game_id].player1_id && id
                    != games[game_id].player2_id ==> (r matches Err(Error::InvalidArgument(m))
                    && m@ == invalid_player_message())
                &&& games.contains_key(game_id) && (id == games[game_id].player1_id || id
                    == games[game_id].player2_id) ==> (r is Ok && keyed_by_game(
                    r.unwrap(),
                    self.gamemaster.topic(),
                    game_id,
                ) && is_turn(r.unwrap().message.msg, game_id, id, cell))
            },
    {
        let player_id = match self.players.lookup_by_token(token) {
            Ok(id) => id,
            Err(e) => return Err(e),
        };
        self.gamemaster.turn(game_id, player_id, cell)
    }

    /// The player's view of the game, for its channel, when it is reachable.
    fn view_delivery(&self, game: &GameState, player_id: PlayerId) -> (r: Option<Delivery>)
        requires
            player_id == game.player1_id || player_id == game.player2_id,
        ensures
            reachable(self.players.players(), player_id) ==> (r is Some && is_view_delivery(
                r.unwrap(),
                self.players.players(),
                game@,
                player_id,
            )),
            !reachable(self.players.players(), player_id) ==> r is None,
    {
        let player = match self.players.player(player_id) {
            Some(p) => p,
            None => return None,
        };
        if !player.connection.authenticated {
            return None;
        }
        match game.get_player_game_state(player_id) {
            Ok(view) => self.players.push(player_id, Outgoing::GameState(view)),
            Err(_) => None,
        }
    }

    /// The record of a game, as each player sees it, for each reachable
    /// player of the game: player one's view, then player two's.
    pub fn handle_game_update(&self, game: &GameState) -> (r: Vec<Delivery>)
        ensures
            update_deliveries(self.players.players(), game@, r@),
    {
        let ghost players = self.players.players();
        let mut out: Vec<Delivery> = Vec::new();
        match self.view_delivery(game, game.player1_id) {
            Some(d) => out.push(d),
            None => {},
        }
        let ghost first = out@;
        match self.view_delivery(game, game.player2_id) {
            Some(d) => out.push(d),
            None => {},
        }
        let ghost targets = update_targets(players, game@);
        assert forall|k: int| 0 <= k < out@.len() implies #[trigger] is_view_delivery(
            out@[k],
            players,
            game@,
            targets[k],
        ) by {
            if k < first.len() {
                assert(out@[k] == first[k]);
            }
        }
        out
    }

    /// Handles a report of the engine: a game's record goes to its
    /// reachable players, each as that player sees it; the engine's failure,
    /// or a malformed event, is returned.
    pub fn handle_engine_message(&self, msg: &proto::FromGameFn) -> (r: Result<Vec<Delivery>, Error>)
        ensures
            match engine_event(*msg) {
                EngineEvent::Update(g) => r is Ok && update_deliveries(
                    self.players.players(),
                    g,
                    r.unwrap()@,
                ),
                EngineEvent::Failed(m) => r matches Err(Error::ErrorFromStatefun(e)) && e@ == m,
                EngineEvent::Malformed => r matches Err(Error::MalformedEvent),
            },
    {
        match decode_game_event(msg) {
            Ok(game) => Ok(self.handle_game_update(&game)),
            Err(e) => Err(e),
        }
    }
}

} // verus!
