//! Identities of players, tokens and games, held as 128-bit values, and the
//! text forms in which they travel.

use vstd::prelude::*;

verus! {

/// Identity of a registered player.
pub type PlayerId = u128;

/// Secret that a player presents to prove ownership of an identity.
pub type PlayerToken = u128;

/// Identity of a paired match.
pub type GameId = u128;

/// Index of a board cell.
pub type CellIndex = u8;

/// The lowercase hexadecimal digits, by value.
pub open spec fn hex_digits() -> Seq<char> {
    seq!['0', '1', '2', '3', '4', '5', '6', '7', '8', '9', 'a', 'b', 'c', 'd', 'e', 'f']
}

/// The `k`-th hexadecimal digit of `u`, counted from the most significant.
pub open spec fn nibble(u: u128, k: int) -> int {
    ((u >> ((4 * (31 - k)) as u128)) & 0xfu128) as int
}

/// Which hexadecimal digit stands at position `i` of the hyphenated text.
pub open spec fn digit_at(i: int) -> int {
    if i < 8 {
        i
    } else if i < 13 {
        i - 1
    } else if i < 18 {
        i - 2
    } else if i < 23 {
        i - 3
    } else {
        i - 4
    }
}

/// The hyphenated lowercase text of a 128-bit identity: groups of 8, 4, 4,
/// 4 and 12 hexadecimal digits, most significant first.
pub open spec fn uuid_text(u: u128) -> Seq<char> {
    Seq::new(
        36,
        |i: int|
            if i == 8 || i == 13 || i == 18 || i == 23 {
                '-'
            } else {
                hex_digits()[nibble(u, digit_at(i))]
            },
    )
}

/// What `Uuid::parse_str` makes of a text, as a 128-bit value.
pub uninterp spec fn parsed_uuid(s: Seq<char>) -> Option<u128>;

/// Relies on uuid::Uuid::new_v4: a random identity with the version-4 and
/// RFC 4122 variant bits set.
#[verifier::external_body]
pub(crate) fn random_uuid() -> (r: u128)
    ensures
        (r >> 76u128) & 0xfu128 == 4u128,
        (r >> 62u128) & 3u128 == 2u128,
{
    uuid::Uuid::new_v4().as_u128()
}

/// Relies on uuid::Uuid's `Display`: the hyphenated lowercase form.
#[verifier::external_body]
pub(crate) fn uuid_string(u: u128) -> (r: String)
    ensures
        r@ == uuid_text(u),
{
    uuid::Uuid::from_u128(u).to_string()
}

/// Relies on uuid::Uuid::parse_str: the result depends on the text alone,
/// and the hyphenated form parses back to the value it was written from.
#[verifier::external_body]
pub(crate) fn parse_uuid(s: &str) -> (r: Option<u128>)
    ensures
        r == parsed_uuid(s@),
        forall|u: u128| s@ == uuid_text(u) ==> r == Some(u),
{
    match uuid::Uuid::parse_str(s) {
        Ok(u) => Some(u.as_u128()),
        Err(_) => None,
    }
}

/// The second field of an identity, as `Uuid::as_fields` reads it: bytes 4
/// and 5, big-endian.
pub open spec fn second_field(id: u128) -> u16 {
    ((id >> 80u128) & 0xffffu128) as u16
}

/// The ten decimal digits, by value.
pub open spec fn decimal_digits() -> Seq<char> {
    seq!['0', '1', '2', '3', '4', '5', '6', '7', '8', '9']
}

/// The decimal text of `n`, without leading zeros.
pub open spec fn decimal(n: nat) -> Seq<char>
    decreases n,
{
    if n < 10 {
        seq![decimal_digits()[n as int]]
    } else {
        decimal(n / 10).push(decimal_digits()[(n % 10) as int])
    }
}

/// The name given to a player who registers without one.
pub open spec fn anonymous_name(id: PlayerId) -> Seq<char> {
    "Anonymous_coward#"@ + decimal(second_field(id) as nat)
}

fn second_field_of(id: u128) -> (r: u16)
    ensures
        r == second_field(id),
{
    assert((id >> 80u128) & 0xffffu128 <= 0xffffu128) by (bit_vector);
    ((id >> 80u128) & 0xffffu128) as u16
}

fn digit_str(d: u16) -> (r: &'static str)
    requires
        d < 10,
    ensures
        r@ == seq![decimal_digits()[d as int]],
{
    proof {
        reveal_strlit("0");
        reveal_strlit("1");
        reveal_strlit("2");
        reveal_strlit("3");
        reveal_strlit("4");
        reveal_strlit("5");
        reveal_strlit("6");
        reveal_strlit("7");
        reveal_strlit("8");
        reveal_strlit("9");
    }
    if d == 0 {
        "0"
    } else if d == 1 {
        "1"
    } else if d == 2 {
        "2"
    } else if d == 3 {
        "3"
    } else if d == 4 {
        "4"
    } else if d == 5 {
        "5"
    } else if d == 6 {
        "6"
    } else if d == 7 {
        "7"
    } else if d == 8 {
        "8"
    } else {
        "9"
    }
}

/// Appends the decimal text of `n` to `s`.
fn push_decimal(s: &mut String, n: u16)
    ensures
        final(s)@ == old(s)@ + decimal(n as nat),
    decreases n,
{
    if n < 10 {
        s.append(digit_str(n));
    } else {
        push_decimal(s, n / 10);
        s.append(digit_str(n % 10));
        assert(final(s)@ =~= old(s)@ + decimal(n as nat));
    }
}

/// The generated display name of a player: `Anonymous_coward#` followed by
/// the second field of the identity in decimal.
pub fn generate_name(player_id: PlayerId) -> (r: String)
    ensures
        r@ == anonymous_name(player_id),
{
    let mut s = String::from_str("Anonymous_coward#");
    push_decimal(&mut s, second_field_of(player_id));
    s
}

} // verus!
