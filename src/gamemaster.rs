//! The games in progress and the validation of turns.

use std::collections::HashMap;
use vstd::prelude::*;
use crate::bridge::{is_create_game, is_turn, keyed_by_game, OutboundRecord, StatefunKafkaClient};
use crate::error::Error;
use crate::game::{placement_view, ShipPlacement};
use crate::ids::{random_uuid, CellIndex, GameId, PlayerId};

verus! {

broadcast use vstd::std_specs::hash::group_hash_axioms;

/// The two players of a game.
#[derive(Debug, Clone, Copy, PartialEq, Eq, Structural)]
pub struct GameInfo {
    pub player1_id: PlayerId,
    pub player2_id: PlayerId,
}

impl GameInfo {
    /// The record of a game between two players.
    pub fn new(player1_id: PlayerId, player2_id: PlayerId) -> (r: Self)
        ensures
            r == (GameInfo { player1_id, player2_id }),
    {
        Self { player1_id, player2_id }
    }
}

/// The message of the error for a turn by a player who is not in the game.
pub open spec fn invalid_player_message() -> Seq<char> {
    "Invalid player"@
}

/// The games that were started, and the bridge that intents go out by.
pub struct GameMaster {
    statefun_kafka_client: StatefunKafkaClient,
    games: HashMap<GameId, GameInfo>,
}

impl GameMaster {
    /// The games, by identity.
    pub closed spec fn games(&self) -> Map<GameId, GameInfo> {
        self.games@
    }

    /// The topic that intents go to.
    pub closed spec fn topic(&self) -> Seq<char> {
        self.statefun_kafka_client.to_statefun_topic@
    }

    /// No games yet.
    pub fn new(statefun_kafka_client: StatefunKafkaClient) -> (r: Self)
        ensures
            r.games() == Map::<GameId, GameInfo>::empty(),
            r.topic() == statefun_kafka_client.to_statefun_topic@,
    {
        Self { statefun_kafka_client, games: HashMap::new() }
    }

    /// The client that intents go out by.
    pub fn statefun_kafka_client(&self) -> (r: &StatefunKafkaClient)
        ensures
            r.to_statefun_topic@ == self.topic(),
    {
        &self.statefun_kafka_client
    }

    /// Starts a game under a fresh random identity: the game is recorded,
    /// and the record that asks the engine to set it up is returned with
    /// the identity.
    pub fn start_game(
        &mut self,
        player1_id: PlayerId,
        player1_ships: ShipPlacement,
        player2_id: PlayerId,
        player2_ships: ShipPlacement,
    ) -> (r: (GameId, OutboundRecord))
        ensures
            final(self).games() == old(self).games().insert(r.0, GameInfo { player1_id, player2_id }),
            final(self).topic() == old(self).topic(),
            keyed_by_game(r.1, old(self).topic(), r.0),
            is_create_game(
                r.1.message.msg,
                r.0,
                player1_id,
                placement_view(player1_ships@),
                player2_id,
                placement_view(player2_ships@),
            ),
    {
        let game_id = random_uuid();
        self.games.insert(game_id, GameInfo::new(player1_id, player2_id));
        let record = self.statefun_kafka_client.send_create_game(
            game_id,
            player1_id,
            player1_ships,
            player2_id,
            player2_ships,
        );
        (game_id, record)
    }

    /// Validates a turn and returns the one record that reports it to the
    /// engine, keyed by the game. No such game for an unknown game; an
    /// invalid argument for a player who is not one of its two.
    pub fn turn(&self, game_id: GameId, player_id: PlayerId, cell: CellIndex) -> (r: Result<
        OutboundRecord,
        Error,
    >)
        ensures
            !self.games().contains_key(game_id) ==> (r matches Err(Error::NoSuchGame(g)) && g
                == game_id),
            self.games().contains_key(game_id) && player_id != self.games()[game_id].player1_id
                && player_id != self.games()[game_id].player2_id ==> (r matches Err(
                Error::InvalidArgument(m),
            ) && m@ == invalid_player_message()),
            self.games().contains_key(game_id) && (player_id == self.games()[game_id].player1_id
                || player_id == self.games()[game_id].player2_id) ==> (r is Ok && keyed_by_game(
                r.unwrap(),
                self.topic(),
                game_id,
            ) && is_turn(r.unwrap().message.msg, game_id, player_id, cell)),
    {
        match self.games.get(&game_id) {
            Some(game_info) => {
                if player_id != game_info.player1_id && player_id != game_info.player2_id {
                    return Err(Error::InvalidArgument(String::from_str("Invalid player")));
                }
            },
            None => return Err(Error::NoSuchGame(game_id)),
        }
        Ok(self.statefun_kafka_client.send_turn(game_id, player_id, cell))
    }
}

} // verus!
