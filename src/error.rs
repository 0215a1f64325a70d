//! The errors of the gateway.

use vstd::prelude::*;
use crate::ids::GameId;

verus! {

/// What can go wrong while serving a request or an engine event.
#[derive(Debug)]
pub enum Error {
    /// The game is not known.
    NoSuchGame(GameId),
    /// The player or token is not known.
    NoSuchPlayer,
    /// The request names a player that has no part in the game.
    InvalidArgument(String),
    /// A freshly drawn identity or token is already in use.
    IdentityTaken,
    /// An event from the engine lacks a part or holds a value out of range.
    MalformedEvent,
    /// An event from the engine could not be decoded.
    ProtobufDecodeError(String),
    /// An outbound event could not be handed to the event bus.
    KafkaError(String),
    /// The engine reported a failure for a game.
    ErrorFromStatefun(String),
}

} // verus!
