//! Project identifiers and creation instants, held as plain integers, and
//! their text forms as the manifest stores them.

use vstd::prelude::*;

verus! {

/// An instant: whole seconds since 1970-01-01T00:00:00Z, and the
/// nanoseconds past that second. Instants are ordered by `secs`, then by
/// `nanos`.
#[derive(Clone, Copy, Debug, PartialEq, Eq, Structural)]
pub struct Timestamp {
    pub secs: i64,
    pub nanos: u32,
}

/// The lowercase hexadecimal digit for `v`, where `0 <= v < 16`.
pub open spec fn hex_digit(v: int) -> char {
    seq!['0', '1', '2', '3', '4', '5', '6', '7', '8', '9', 'a', 'b', 'c', 'd', 'e', 'f'][v]
}

/// The `j`-th of the 32 four-bit groups of `id`, counted from the most
/// significant one.
pub open spec fn nibble(id: u128, j: int) -> int {
    ((id >> ((4 * (31 - j)) as u128)) & 0xf) as int
}

/// How many of the four hyphens stand before position `i` of the
/// hyphenated form.
pub open spec fn hyphens_before(i: int) -> int {
    if i < 8 {
        0
    } else if i < 13 {
        1
    } else if i < 18 {
        2
    } else if i < 23 {
        3
    } else {
        4
    }
}

/// The hyphenated form of an identifier: 32 lowercase hexadecimal digits in
/// groups of 8, 4, 4, 4 and 12.
pub open spec fn hyphenated(id: u128) -> Seq<char> {
    Seq::new(
        36,
        |i: int|
            if i == 8 || i == 13 || i == 18 || i == 23 {
                '-'
            } else {
                hex_digit(nibble(id, i - hyphens_before(i)))
            },
    )
}

/// What `uuid::Uuid::parse_str` makes of a text: the identifier it reads,
/// or `None` where it rejects the text.
pub uninterp spec fn parsed_id(text: Seq<char>) -> Option<u128>;

/// The text that `chrono` writes for an instant in RFC 3339 form with a
/// `Z` suffix, or `None` where `chrono` cannot represent the instant.
pub uninterp spec fn instant_text(secs: int, nanos: int) -> Option<Seq<char>>;

/// What `chrono` reads from a text as an instant in UTC, or `None` where it
/// rejects the text.
pub uninterp spec fn parsed_instant(text: Seq<char>) -> Option<Timestamp>;

/// Calls `uuid::Uuid::new_v4`. The identifier is random; all that is known
/// of it is that the version field reads 4 and the variant field reads
/// binary 10. The call panics if the system has no random bytes to give.
#[verifier::external_body]
pub(crate) fn fresh_id() -> (id: u128)
    ensures
        id & 0x0000_0000_0000_f000_c000_0000_0000_0000 == 0x0000_0000_0000_4000_8000_0000_0000_0000,
{
    uuid::Uuid::new_v4().as_u128()
}

/// Calls `uuid::Uuid::from_u128` and formats the value with its `Display`
/// impl, which writes the hyphenated lowercase form.
#[verifier::external_body]
pub(crate) fn id_text(id: u128) -> (r: String)
    ensures
        r@ == hyphenated(id),
{
    uuid::Uuid::from_u128(id).to_string()
}

/// Calls `uuid::Uuid::parse_str`, keeping the value and dropping the error.
#[verifier::external_body]
pub(crate) fn parse_id(text: &str) -> (r: Option<u128>)
    ensures
        r == parsed_id(text@),
{
    uuid::Uuid::parse_str(text).ok().map(|id| id.as_u128())
}

/// Calls `chrono::Utc::now` and reads the instant with `timestamp` and
/// `timestamp_subsec_nanos`. The clock is read after 1970 (the call panics
/// otherwise), never inside a leap second, and the instant is one that
/// `chrono` can write back.
#[verifier::external_body]
pub(crate) fn clock_now() -> (at: Timestamp)
    ensures
        at.secs >= 0,
        at.nanos < 1_000_000_000,
        instant_text(at.secs as int, at.nanos as int) is Some,
{
    let now = chrono::Utc::now();
    Timestamp { secs: now.timestamp(), nanos: now.timestamp_subsec_nanos() }
}

/// Calls `chrono::DateTime::from_timestamp` and, where that gives an
/// instant, `to_rfc3339_opts` with automatic sub-second digits and `Z`.
#[verifier::external_body]
pub(crate) fn render_instant(at: Timestamp) -> (r: Option<String>)
    ensures
        r.deep_view() == instant_text(at.secs as int, at.nanos as int),
{
    chrono::DateTime::from_timestamp(at.secs, at.nanos).map(
        |t| t.to_rfc3339_opts(chrono::SecondsFormat::AutoSi, true),
    )
}

/// Parses a text with the `FromStr` impl of `chrono::DateTime<Utc>` and
/// reads the instant with `timestamp` and `timestamp_subsec_nanos`.
#[verifier::external_body]
pub(crate) fn parse_instant(text: &str) -> (r: Option<Timestamp>)
    ensures
        r == parsed_instant(text@),
{
    text.parse::<chrono::DateTime<chrono::Utc>>().ok().map(
        |t| Timestamp { secs: t.timestamp(), nanos: t.timestamp_subsec_nanos() },
    )
}

/// The rank by which instants are ordered.
pub open spec fn instant_rank(at: Timestamp) -> Seq<int> {
    seq![at.secs as int, at.nanos as int]
}

} // verus!
