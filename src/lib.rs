//! Matchmaking and session coordination for a two-player game whose rules
//! engine runs behind an event bus.

pub mod battlefun;
pub mod bridge;
pub mod error;
pub mod game;
pub mod gamemaster;
pub mod ids;
pub mod matchmaking;
pub mod messages;
pub mod proto;
pub mod registry;
