//! Registered players, their tokens, and the state of their live
//! connections.

use std::collections::HashMap;
use vstd::prelude::*;
use crate::error::Error;
use crate::ids::{anonymous_name, generate_name, random_uuid, PlayerId, PlayerToken};
use crate::messages::{authentication_response_type, AuthenticationResponse, ChannelId, Delivery, Outgoing};

verus! {

broadcast use vstd::std_specs::hash::group_hash_axioms;

/// The live connection of a player: the channel to push to, if one is
/// open, and whether the player proved ownership of its token over it.
#[derive(Debug, Clone, Copy, PartialEq, Eq, Structural)]
pub struct PlayerConnection {
    pub sender: Option<ChannelId>,
    pub authenticated: bool,
}

/// The connection state of a player with no open channel.
pub open spec fn disconnected() -> PlayerConnection {
    PlayerConnection { sender: None, authenticated: false }
}

/// A registered player.
#[derive(Debug)]
pub struct Player {
    pub id: PlayerId,
    pub name: String,
    pub token: PlayerToken,
    pub connection: PlayerConnection,
}

/// A copy of a player record.
pub fn copy_player(p: &Player) -> (r: Player)
    ensures
        r == *p,
{
    Player { id: p.id, name: p.name.clone(), token: p.token, connection: p.connection }
}

/// The name a registration gives: the one asked for, or the generated one.
pub open spec fn name_for(name: Option<String>, id: PlayerId) -> Seq<char> {
    match name {
        Some(n) => n@,
        None => anonymous_name(id),
    }
}

/// The player with its connection replaced.
pub open spec fn with_connection(p: Player, c: PlayerConnection) -> Player {
    Player { connection: c, ..p }
}

/// The channels that a broadcast reaches: those of the listed players that
/// are registered, connected and authenticated, in list order.
pub open spec fn broadcast_channels(players: Map<PlayerId, Player>, ids: Seq<PlayerId>) -> Seq<
    ChannelId,
>
    decreases ids.len(),
{
    if ids.len() == 0 {
        seq![]
    } else {
        let rest = broadcast_channels(players, ids.drop_last());
        let id = ids.last();
        if players.contains_key(id) && players[id].connection.authenticated
            && players[id].connection.sender is Some {
            rest.push(players[id].connection.sender.unwrap())
        } else {
            rest
        }
    }
}

/// Whether a delivery carries `text` to `channel`.
pub open spec fn is_text_delivery(d: Delivery, channel: ChannelId, text: Seq<char>) -> bool {
    &&& d.channel == channel
    &&& d.message matches Outgoing::Text(s) && s@ == text
}

/// The registry of players: each identity maps to its record, each token
/// to the identity it was issued to, and the roster lists the identities in
/// order of registration.
pub struct PlayerRegistry {
    players: HashMap<PlayerId, Player>,
    player_tokens: HashMap<PlayerToken, PlayerId>,
    roster: Vec<PlayerId>,
}

impl PlayerRegistry {
    /// The records, by identity.
    pub closed spec fn players(&self) -> Map<PlayerId, Player> {
        self.players@
    }

    /// The identities, by token.
    pub closed spec fn tokens(&self) -> Map<PlayerToken, PlayerId> {
        self.player_tokens@
    }

    /// The identities in order of registration.
    pub closed spec fn roster(&self) -> Seq<PlayerId> {
        self.roster@
    }

    /// The two maps agree: every record is found under its own identity and
    /// its token names it; every token names a record that holds it; the
    /// roster lists each identity once.
    pub open spec fn wf(&self) -> bool {
        &&& forall|id: PlayerId| #[trigger]
            self.players().contains_key(id) ==> {
                &&& self.players()[id].id == id
                &&& self.tokens().contains_key(self.players()[id].token)
                &&& self.tokens()[self.players()[id].token] == id
            }
        &&& forall|t: PlayerToken| #[trigger]
            self.tokens().contains_key(t) ==> {
                &&& self.players().contains_key(self.tokens()[t])
                &&& self.players()[self.tokens()[t]].token == t
            }
        &&& self.roster().no_duplicates()
        &&& forall|id: PlayerId| #[trigger]
            self.roster().contains(id) <==> self.players().contains_key(id)
    }

    /// What a registration does. With a known token: the record of that
    /// token's identity keeps identity, token and connection and takes the
    /// name; with an unknown token: nothing, and no such player. Without a
    /// token: a new player under the fresh identity and token, unless either
    /// is already in use.
    pub open spec fn registration(
        old_reg: PlayerRegistry,
        new_reg: PlayerRegistry,
        token: Option<PlayerToken>,
        name: Option<String>,
        fresh_id: PlayerId,
        fresh_token: PlayerToken,
        r: Result<Player, Error>,
    ) -> bool {
        match token {
            Some(t) => if old_reg.tokens().contains_key(t) {
                let id = old_reg.tokens()[t];
                &&& r is Ok
                &&& r.unwrap().id == id
                &&& r.unwrap().token == t
                &&& r.unwrap().name@ == name_for(name, id)
                &&& r.unwrap().connection == old_reg.players()[id].connection
                &&& new_reg.players() == old_reg.players().insert(id, r.unwrap())
                &&& new_reg.tokens() == old_reg.tokens()
                &&& new_reg.roster() == old_reg.roster()
            } else {
                &&& r matches Err(Error::NoSuchPlayer)
                &&& new_reg == old_reg
            },
            None => if old_reg.players().contains_key(fresh_id) || old_reg.tokens().contains_key(
                fresh_token,
            ) {
                &&& r matches Err(Error::IdentityTaken)
                &&& new_reg == old_reg
            } else {
                &&& r is Ok
                &&& r.unwrap().id == fresh_id
                &&& r.unwrap().token == fresh_token
                &&& r.unwrap().name@ == name_for(name, fresh_id)
                &&& r.unwrap().connection == disconnected()
                &&& new_reg.players() == old_reg.players().insert(fresh_id, r.unwrap())
                &&& new_reg.tokens() == old_reg.tokens().insert(fresh_token, fresh_id)
                &&& new_reg.roster() == old_reg.roster().push(fresh_id)
            },
        }
    }

    /// A registration without a token that succeeds yields an identity
    /// that differs from every identity registered before it, and keeps
    /// those registered; so any sequence of such registrations yields
    /// pairwise distinct identities.
    pub proof fn lemma_fresh_identity_is_new(
        old_reg: PlayerRegistry,
        new_reg: PlayerRegistry,
        name: Option<String>,
        fresh_id: PlayerId,
        fresh_token: PlayerToken,
        r: Result<Player, Error>,
    )
        requires
            Self::registration(old_reg, new_reg, None, name, fresh_id, fresh_token, r),
            r is Ok,
        ensures
            forall|id: PlayerId| #[trigger]
                old_reg.players().contains_key(id) ==> id != r.unwrap().id && new_reg.players().contains_key(id),
            new_reg.players().contains_key(r.unwrap().id),
            new_reg.players().len() == old_reg.players().len() + 1,
    {
    }

    /// Across a sequence of registrations without a token that all succeed,
    /// an identity yielded by one is still registered after each later one.
    proof fn lemma_fresh_identity_stays(
        regs: Seq<PlayerRegistry>,
        names: Seq<Option<String>>,
        fresh_ids: Seq<PlayerId>,
        fresh_tokens: Seq<PlayerToken>,
        results: Seq<Result<Player, Error>>,
        i: int,
        k: int,
    )
        requires
            regs.len() == results.len() + 1,
            names.len() == results.len(),
            fresh_ids.len() == results.len(),
            fresh_tokens.len() == results.len(),
            forall|n: int|
                #![trigger results[n]]
                0 <= n < results.len() ==> Self::registration(
                    regs[n],
                    regs[n + 1],
                    None,
                    names[n],
                    fresh_ids[n],
                    fresh_tokens[n],
                    results[n],
                ) && results[n] is Ok,
            0 <= i < k <= results.len(),
        ensures
            regs[k].players().contains_key(results[i].unwrap().id),
        decreases k - i,
    {
        assert(Self::registration(regs[k - 1], regs[k], None, names[k - 1], fresh_ids[k - 1], fresh_tokens[k - 1], results[k - 1]));
        if k - 1 > i {
            Self::lemma_fresh_identity_stays(regs, names, fresh_ids, fresh_tokens, results, i, k - 1);
        }
    }

    /// Any sequence of registrations without a token that all succeed
    /// yields pairwise distinct identities.
    pub proof fn lemma_fresh_identities_distinct(
        regs: Seq<PlayerRegistry>,
        names: Seq<Option<String>>,
        fresh_ids: Seq<PlayerId>,
        fresh_tokens: Seq<PlayerToken>,
        results: Seq<Result<Player, Error>>,
    )
        requires
            regs.len() == results.len() + 1,
            names.len() == results.len(),
            fresh_ids.len() == results.len(),
            fresh_tokens.len() == results.len(),
            forall|n: int|
                #![trigger results[n]]
                0 <= n < results.len() ==> Self::registration(
                    regs[n],
                    regs[n + 1],
                    None,
                    names[n],
                    fresh_ids[n],
                    fresh_tokens[n],
                    results[n],
                ) && results[n] is Ok,
        ensures
            forall|i: int, j: int|
                0 <= i < j < results.len() ==> results[i].unwrap().id != results[j].unwrap().id,
    {
        assert forall|i: int, j: int| 0 <= i < j < results.len() implies results[i].unwrap().id
            != results[j].unwrap().id by {
            Self::lemma_fresh_identity_stays(regs, names, fresh_ids, fresh_tokens, results, i, j);
            assert(Self::registration(regs[j], regs[j + 1], None, names[j], fresh_ids[j], fresh_tokens[j], results[j]));
        }
    }

    /// Registering again with a token that was issued yields the identity
    /// it was issued to and leaves the number of players unchanged.
    pub proof fn lemma_reregistration_keeps_identity(
        old_reg: PlayerRegistry,
        new_reg: PlayerRegistry,
        token: PlayerToken,
        name: Option<String>,
        fresh_id: PlayerId,
        fresh_token: PlayerToken,
        r: Result<Player, Error>,
    )
        requires
            old_reg.wf(),
            old_reg.tokens().contains_key(token),
            Self::registration(old_reg, new_reg, Some(token), name, fresh_id, fresh_token, r),
        ensures
            r is Ok,
            r.unwrap().id == old_reg.tokens()[token],
            new_reg.players().dom() == old_reg.players().dom(),
            new_reg.players().len() == old_reg.players().len(),
    {
        assert(new_reg.players().dom() =~= old_reg.players().dom());
    }

    /// An empty registry.
    pub fn new() -> (r: Self)
        ensures
            r.wf(),
            r.players() == Map::<PlayerId, Player>::empty(),
            r.tokens() == Map::<PlayerToken, PlayerId>::empty(),
            r.roster() == Seq::<PlayerId>::empty(),
    {
        let r = PlayerRegistry { players: HashMap::new(), player_tokens: HashMap::new(), roster: Vec::new() };
        assert(r.roster@ =~= Seq::<PlayerId>::empty());
        r
    }

    /// Registers a player, with `fresh_id` and `fresh_token` as the identity
    /// and token of a new one.
    pub fn register_with(
        &mut self,
        token: Option<PlayerToken>,
        name: Option<String>,
        fresh_id: PlayerId,
        fresh_token: PlayerToken,
    ) -> (r: Result<Player, Error>)
        requires
            old(self).wf(),
        ensures
            final(self).wf(),
            Self::registration(*old(self), *final(self), token, name, fresh_id, fresh_token, r),
    {
        match token {
            Some(t) => {
                let id = match self.player_tokens.get(&t) {
                    Some(id) => *id,
                    None => return Err(Error::NoSuchPlayer),
                };
                let connection = match self.players.get(&id) {
                    Some(p) => p.connection,
                    None => PlayerConnection { sender: None, authenticated: false },
                };
                let name = match name {
                    Some(n) => n,
                    None => generate_name(id),
                };
                let player = Player { id, name, token: t, connection };
                let r = copy_player(&player);
                self.players.insert(id, player);
                proof {
                    assert(self.players@.dom() == old(self).players@.dom());
                }
                Ok(r)
            },
            None => {
                if self.players.contains_key(&fresh_id) || self.player_tokens.contains_key(
                    &fresh_token,
                ) {
                    return Err(Error::IdentityTaken);
                }
                let name = match name {
                    Some(n) => n,
                    None => generate_name(fresh_id),
                };
                let player = Player {
                    id: fresh_id,
                    name,
                    token: fresh_token,
                    connection: PlayerConnection { sender: None, authenticated: false },
                };
                let r = copy_player(&player);
                self.players.insert(fresh_id, player);
                self.player_tokens.insert(fresh_token, fresh_id);
                self.roster.push(fresh_id);
                proof {
                    assert(self.roster@.no_duplicates()) by {
                        assert forall|a: int, b: int|
                            0 <= a < self.roster@.len() && 0 <= b < self.roster@.len() && a
                                != b implies self.roster@[a] != self.roster@[b] by {
                            if a == self.roster@.len() - 1 {
                                assert(old(self).roster@.contains(self.roster@[b]));
                            }
                            if b == self.roster@.len() - 1 {
                                assert(old(self).roster@.contains(self.roster@[a]));
                            }
                        }
                    }
                    assert forall|id: PlayerId| #[trigger]
                        self.roster@.contains(id) <==> self.players@.contains_key(id) by {
                        if self.roster@.contains(id) && id != fresh_id {
                            let k = choose|k: int| 0 <= k < self.roster@.len() && self.roster@[k] == id;
                            assert(old(self).roster@[k] == id);
                        }
                        if old(self).roster@.contains(id) {
                            let k = choose|k: int| 0 <= k < old(self).roster@.len() && old(self).roster@[k] == id;
                            assert(self.roster@[k] == id);
                        }
                        assert(self.roster@[self.roster@.len() - 1] == fresh_id);
                    }
                }
                Ok(r)
            },
        }
    }

    /// Registers a player. Without a token, a new identity and token are
    /// drawn at random; with a token, the player that holds it is
    /// registered anew.
    pub fn register_client(&mut self, token: Option<PlayerToken>, name: Option<String>) -> (r: Result<
        Player,
        Error,
    >)
        requires
            old(self).wf(),
        ensures
            final(self).wf(),
            token is Some ==> Self::registration(*old(self), *final(self), token, name, 0, 0, r),
            token is None ==> match r {
                Ok(p) => Self::registration(*old(self), *final(self), token, name, p.id, p.token, r),
                Err(e) => e is IdentityTaken && *final(self) == *old(self),
            },
    {
        match token {
            Some(_) => self.register_with(token, name, 0, 0),
            None => {
                let fresh_id = random_uuid();
                let fresh_token = random_uuid();
                self.register_with(token, name, fresh_id, fresh_token)
            },
        }
    }

    /// Removes a player and its token; no such player if the identity is
    /// not registered.
    pub fn deregister(&mut self, player_id: PlayerId) -> (r: Result<(), Error>)
        requires
            old(self).wf(),
        ensures
            final(self).wf(),
            old(self).players().contains_key(player_id) ==> {
                &&& r is Ok
                &&& final(self).players() == old(self).players().remove(player_id)
                &&& final(self).tokens() == old(self).tokens().remove(
                    old(self).players()[player_id].token,
                )
                &&& exists|k: int|
                    0 <= k < old(self).roster().len() && old(self).roster()[k] == player_id
                        && final(self).roster() == old(self).roster().remove(k)
            },
            !old(self).players().contains_key(player_id) ==> (r matches Err(Error::NoSuchPlayer)
                && *final(self) == *old(self)),
    {
        let token = match self.players.get(&player_id) {
            Some(p) => p.token,
            None => return Err(Error::NoSuchPlayer),
        };
        proof {
            assert(self.roster@.contains(player_id));
        }
        let mut k: usize = 0;
        while k < self.roster.len() && self.roster[k] != player_id
            invariant
                k <= self.roster@.len(),
                self.roster@ == old(self).roster@,
                self.roster@.contains(player_id),
                forall|j: int| 0 <= j < k ==> self.roster@[j] != player_id,
            decreases self.roster@.len() - k,
        {
            k += 1;
        }
        proof {
            if k == self.roster@.len() {
                let j = choose|j: int| 0 <= j < self.roster@.len() && self.roster@[j] == player_id;
                assert(false);
            }
        }
        self.roster.remove(k);
        self.players.remove(&player_id);
        self.player_tokens.remove(&token);
        proof {
            let old_roster = old(self).roster@;
            assert(self.roster@ == old_roster.remove(k as int));
            assert forall|a: int, b: int|
                0 <= a < self.roster@.len() && 0 <= b < self.roster@.len() && a
                    != b implies self.roster@[a] != self.roster@[b] by {
                let oa = if a < k { a } else { a + 1 };
                let ob = if b < k { b } else { b + 1 };
                assert(self.roster@[a] == old_roster[oa]);
                assert(self.roster@[b] == old_roster[ob]);
            }
            assert forall|id: PlayerId| #[trigger]
                self.roster@.contains(id) <==> self.players@.contains_key(id) by {
                if self.roster@.contains(id) {
                    let a = choose|a: int| 0 <= a < self.roster@.len() && self.roster@[a] == id;
                    let oa = if a < k { a } else { a + 1 };
                    assert(old_roster[oa] == id);
                    assert(old_roster[k as int] == player_id);
                    assert(old_roster[oa] != old_roster[k as int]);
                    assert(old(self).roster().contains(id));
                }
                if self.players@.contains_key(id) {
                    assert(old(self).players().contains_key(id));
                    assert(old(self).roster().contains(id));
                    let oa = choose|oa: int| 0 <= oa < old_roster.len() && old_roster[oa] == id;
                    assert(oa != k);
                    let a = if oa < k { oa } else { oa - 1 };
                    assert(self.roster@[a] == id);
                }
            }
        }
        Ok(())
    }

    /// The identity that a token was issued to; no such player for an
    /// unknown token.
    pub fn lookup_by_token(&self, token: PlayerToken) -> (r: Result<PlayerId, Error>)
        ensures
            self.tokens().contains_key(token) ==> r == Ok::<PlayerId, Error>(self.tokens()[token]),
            !self.tokens().contains_key(token) ==> r matches Err(Error::NoSuchPlayer),
    {
        match self.player_tokens.get(&token) {
            Some(id) => Ok(*id),
            None => Err(Error::NoSuchPlayer),
        }
    }

    /// The number of registered players.
    pub fn player_count(&self) -> (r: usize)
        ensures
            r == self.players().len(),
    {
        self.players.len()
    }

    /// A copy of the record of a player, if it is registered.
    pub fn player(&self, player_id: PlayerId) -> (r: Option<Player>)
        ensures
            self.players().contains_key(player_id) ==> r == Some(self.players()[player_id]),
            !self.players().contains_key(player_id) ==> r is None,
    {
        match self.players.get(&player_id) {
            Some(p) => Some(copy_player(p)),
            None => None,
        }
    }

    /// Replaces the connection of a registered player; does nothing for an
    /// identity that is not registered.
    fn set_connection(&mut self, player_id: PlayerId, connection: PlayerConnection)
        requires
            old(self).wf(),
        ensures
            final(self).wf(),
            final(self).tokens() == old(self).tokens(),
            final(self).roster() == old(self).roster(),
            old(self).players().contains_key(player_id) ==> final(self).players()
                == old(self).players().insert(
                player_id,
                with_connection(old(self).players()[player_id], connection),
            ),
            !old(self).players().contains_key(player_id) ==> *final(self) == *old(self),
    {
        let updated = match self.players.get(&player_id) {
            Some(p) => Player { id: p.id, name: p.name.clone(), token: p.token, connection },
            None => return,
        };
        self.players.insert(player_id, updated);
        proof {
            assert(self.players@.dom() == old(self).players@.dom());
        }
    }

    /// Opens a channel for a player: the sender is replaced and the
    /// connection is unauthenticated until the token is presented over it.
    /// Returns whether the player is registered; nothing changes otherwise.
    pub fn attach(&mut self, player_id: PlayerId, channel: ChannelId) -> (r: bool)
        requires
            old(self).wf(),
        ensures
            final(self).wf(),
            r == old(self).players().contains_key(player_id),
            final(self).tokens() == old(self).tokens(),
            final(self).roster() == old(self).roster(),
            r ==> final(self).players() == old(self).players().insert(
                player_id,
                with_connection(
                    old(self).players()[player_id],
                    PlayerConnection { sender: Some(channel), authenticated: false },
                ),
            ),
            !r ==> *final(self) == *old(self),
    {
        let known = self.players.contains_key(&player_id);
        self.set_connection(player_id, PlayerConnection { sender: Some(channel), authenticated: false });
        known
    }

    /// Closes the channel of a player: no sender, not authenticated. Does
    /// nothing for an identity that is not registered.
    pub fn detach(&mut self, player_id: PlayerId)
        requires
            old(self).wf(),
        ensures
            final(self).wf(),
            final(self).tokens() == old(self).tokens(),
            final(self).roster() == old(self).roster(),
            old(self).players().contains_key(player_id) ==> final(self).players()
                == old(self).players().insert(
                player_id,
                with_connection(old(self).players()[player_id], disconnected()),
            ),
            !old(self).players().contains_key(player_id) ==> *final(self) == *old(self),
    {
        self.set_connection(player_id, PlayerConnection { sender: None, authenticated: false });
    }

    /// Checks a token presented over a player's channel. When it is the
    /// player's, the connection becomes authenticated and a success
    /// acknowledgment goes to the channel; otherwise nothing changes and a
    /// failure acknowledgment goes to it. Nothing at all happens for an
    /// identity that is not registered. Returns whether the token matched,
    /// and the acknowledgment to write, if a channel is open.
    pub fn authenticate(&mut self, player_id: PlayerId, token: PlayerToken) -> (r: (
        bool,
        Option<Delivery>,
    ))
        requires
            old(self).wf(),
        ensures
            final(self).wf(),
            final(self).tokens() == old(self).tokens(),
            final(self).roster() == old(self).roster(),
            !old(self).players().contains_key(player_id) ==> !r.0 && r.1 is None && *final(self)
                == *old(self),
            old(self).players().contains_key(player_id) ==> {
                let p = old(self).players()[player_id];
                &&& r.0 == (p.token == token)
                &&& r.0 ==> final(self).players() == old(self).players().insert(
                    player_id,
                    with_connection(
                        p,
                        PlayerConnection { sender: p.connection.sender, authenticated: true },
                    ),
                )
                &&& !r.0 ==> *final(self) == *old(self)
                &&& p.connection.sender is None ==> r.1 is None
                &&& p.connection.sender is Some ==> (r.1 matches Some(d) && d.channel
                    == p.connection.sender.unwrap() && (d.message matches Outgoing::Authentication(
                    a,
                ) && a.success == r.0 && a.response_type@ == authentication_response_type()))
            },
    {
        let (matches, sender) = match self.players.get(&player_id) {
            Some(p) => (p.token == token, p.connection.sender),
            None => return (false, None),
        };
        if matches {
            self.set_connection(player_id, PlayerConnection { sender, authenticated: true });
        }
        let ack = match sender {
            Some(c) => {
                let response = if matches {
                    AuthenticationResponse::success()
                } else {
                    AuthenticationResponse::failure()
                };
                Some(Delivery { channel: c, message: Outgoing::Authentication(response) })
            },
            None => None,
        };
        (matches, ack)
    }

    /// Hands a message to a player's open channel: exactly that message,
    /// once, when a channel is open; nothing, and no error, otherwise.
    pub fn push(&self, player_id: PlayerId, message: Outgoing) -> (r: Option<Delivery>)
        ensures
            self.players().contains_key(player_id) && self.players()[player_id].connection.sender
                is Some ==> r == Some(
                Delivery {
                    channel: self.players()[player_id].connection.sender.unwrap(),
                    message,
                },
            ),
            !(self.players().contains_key(player_id)
                && self.players()[player_id].connection.sender is Some) ==> r is None,
    {
        match self.players.get(&player_id) {
            Some(p) => match p.connection.sender {
                Some(c) => Some(Delivery { channel: c, message }),
                None => None,
            },
            None => None,
        }
    }

    /// The text, once for each authenticated player with an open channel,
    /// in order of registration.
    pub fn publish(&self, text: &String) -> (r: Vec<Delivery>)
        requires
            self.wf(),
        ensures
            r@.len() == broadcast_channels(self.players(), self.roster()).len(),
            forall|k: int|
                0 <= k < r@.len() ==> #[trigger] is_text_delivery(
                    r@[k],
                    broadcast_channels(self.players(), self.roster())[k],
                    text@,
                ),
    {
        let mut out: Vec<Delivery> = Vec::new();
        let mut i: usize = 0;
        while i < self.roster.len()
            invariant
                i <= self.roster@.len(),
                out@.len() == broadcast_channels(self.players@, self.roster@.take(i as int)).len(),
                forall|k: int|
                    0 <= k < out@.len() ==> #[trigger] is_text_delivery(
                        out@[k],
                        broadcast_channels(self.players@, self.roster@.take(i as int))[k],
                        text@,
                    ),
            decreases self.roster@.len() - i,
        {
            let id = self.roster[i];
            let ghost before = out@;
            assert(self.roster@.take(i as int + 1).drop_last() == self.roster@.take(i as int));
            assert(self.roster@.take(i as int + 1).last() == id);
            let ghost prev = broadcast_channels(self.players@, self.roster@.take(i as int));
            let ghost next = broadcast_channels(self.players@, self.roster@.take(i as int + 1));
            match self.players.get(&id) {
                Some(p) => {
                    if p.connection.authenticated {
                        match p.connection.sender {
                            Some(c) => {
                                assert(next == prev.push(c));
                                let copy = text.clone();
                                out.push(Delivery { channel: c, message: Outgoing::Text(copy) });
                                assert(is_text_delivery(out@[before.len() as int], next[before.len() as int], text@));
                            },
                            None => {
                                assert(next == prev);
                            },
                        }
                    } else {
                        assert(next == prev);
                    }
                },
                None => {
                    assert(next == prev);
                },
            }
            assert forall|k: int| 0 <= k < before.len() implies #[trigger] is_text_delivery(
                out@[k],
                next[k],
                text@,
            ) by {
                assert(out@[k] == before[k]);
                assert(is_text_delivery(before[k], prev[k], text@));
            }
            i += 1;
            assert(broadcast_channels(self.players@, self.roster@.take(i as int)) == next);
        }
        assert(self.roster@.take(self.roster@.len() as int) == self.roster@);
        out
    }
}

} // verus!
