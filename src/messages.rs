//! Requests from clients and what the gateway sends back over their live
//! connections.

use vstd::prelude::*;
use crate::game::{PlayerGameState, ShipPlacement};
use crate::ids::{parse_uuid, parsed_uuid, CellIndex, PlayerId, PlayerToken};

verus! {

/// Handle of a live connection; the transport keeps the sender behind it.
pub type ChannelId = u64;

/// A registration: the name to take, and the token of an earlier
/// registration to register anew.
#[derive(Debug)]
pub struct RegisterRequest {
    pub name: Option<String>,
    pub token: Option<PlayerToken>,
}

/// The answer to a registration.
#[derive(Debug)]
pub struct RegisterResponse {
    pub player_id: PlayerId,
    pub name: String,
    pub token: PlayerToken,
}

/// A frame by which a client proves ownership of its token.
#[derive(Debug)]
pub struct AuthenticationRequest {
    pub request_type: String,
    pub token: PlayerToken,
}

/// A request to be paired for a game, with the player's ships.
#[derive(Debug)]
pub struct NewGameRequest {
    pub ships: ShipPlacement,
}

/// A request to fire upon a cell.
#[derive(Debug, Clone, Copy)]
pub struct TurnRequest {
    pub cell: CellIndex,
}

/// A text to be sent to every authenticated connection.
#[derive(Debug)]
pub struct TestMessage {
    pub message: String,
}

/// A subscription request of a client.
#[derive(Debug)]
pub struct TopicsRequest {
    pub topics: Vec<String>,
}

/// The acknowledgment of a request that has nothing else to return.
#[derive(Debug, Clone, Copy)]
pub struct GenericResponse {
    pub success: bool,
}

impl GenericResponse {
    /// The acknowledgment of a request that succeeded.
    pub fn success() -> (r: Self)
        ensures
            r.success,
    {
        Self { success: true }
    }
}

/// The kind tag that authentication acknowledgments carry.
pub open spec fn authentication_response_type() -> Seq<char> {
    "authentication_response"@
}

/// The answer to an authentication frame.
#[derive(Debug)]
pub struct AuthenticationResponse {
    pub response_type: String,
    pub success: bool,
}

impl AuthenticationResponse {
    /// The answer when the presented token is the player's.
    pub fn success() -> (r: AuthenticationResponse)
        ensures
            r.response_type@ == authentication_response_type(),
            r.success,
    {
        AuthenticationResponse {
            response_type: String::from_str("authentication_response"),
            success: true,
        }
    }

    /// The answer when the presented token is not the player's.
    pub fn failure() -> (r: AuthenticationResponse)
        ensures
            r.response_type@ == authentication_response_type(),
            !r.success,
    {
        AuthenticationResponse {
            response_type: String::from_str("authentication_response"),
            success: false,
        }
    }
}

/// What the gateway pushes over a live connection.
#[derive(Debug)]
pub enum Outgoing {
    Authentication(AuthenticationResponse),
    GameState(PlayerGameState),
    Text(String),
}

/// A message to be written to one live connection.
#[derive(Debug)]
pub struct Delivery {
    pub channel: ChannelId,
    pub message: Outgoing,
}

/// The token of an authorization header: what follows its seven-character
/// scheme prefix (`Bearer `), as an identity. None when the header is
/// shorter or the rest does not parse.
pub open spec fn bearer_token(value: Seq<char>) -> Option<PlayerToken> {
    if value.len() < 7 {
        None
    } else {
        parsed_uuid(value.subrange(7, value.len() as int))
    }
}

/// The token that an authorization header carries.
pub fn token_from_authorization(value: &str) -> (r: Option<PlayerToken>)
    ensures
        r == bearer_token(value@),
{
    let n = value.unicode_len();
    if n < 7 {
        return None;
    }
    parse_uuid(value.substring_char(7, n))
}

/// Whether a frame from a client is a keep-alive ping, which is ignored.
pub fn is_keepalive(text: &str) -> (r: bool)
    ensures
        r == (text@ == "ping"@ || text@ == "ping\n"@),
{
    proof {
        reveal_strlit("ping");
        reveal_strlit("ping\n");
    }
    let n = text.unicode_len();
    if n != 4 && n != 5 {
        return false;
    }
    if text.get_char(0) != 'p' || text.get_char(1) != 'i' || text.get_char(2) != 'n'
        || text.get_char(3) != 'g' {
        return false;
    }
    if n == 5 {
        if text.get_char(4) != '\n' {
            return false;
        }
        assert(text@ =~= "ping\n"@);
        return true;
    }
    assert(text@ =~= "ping"@);
    true
}

} // verus!
