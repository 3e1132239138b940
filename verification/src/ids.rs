//! Identifiers and the clock.

use vstd::prelude::*;
use crate::json::digit;

verus! {

/// The hyphenated form of a UUID: lower-case digits in groups of eight, four, four, four and
/// twelve.
pub open spec fn uuid_text(bits: u128) -> Seq<char> {
    Seq::new(
        36,
        |i: int|
            if i == 8 || i == 13 || i == 18 || i == 23 {
                '-'
            } else if i < 8 {
                uuid_digit(bits, i)
            } else if i < 13 {
                uuid_digit(bits, i - 1)
            } else if i < 18 {
                uuid_digit(bits, i - 2)
            } else if i < 23 {
                uuid_digit(bits, i - 3)
            } else {
                uuid_digit(bits, i - 4)
            },
    )
}

/// The digit at `place` of thirty-two, the most significant first.
pub open spec fn uuid_digit(bits: u128, place: int) -> char {
    digit(((bits >> ((124 - 4 * place) as u128)) & 0xf) as int)
}

/// The UUID that a text stands for, in any of the forms that are recognized.
pub uninterp spec fn parsed_uuid(text: Seq<char>) -> Option<u128>;

/// `uuid::Uuid::now_v7`: a UUID of the present time and random bits, of version seven and of the
/// variant that RFC 9562 defines. It panics where the system clock is before 1970 or the system
/// has no random bytes to give.
#[verifier::external_body]
pub(crate) fn fresh_uuid() -> (bits: u128)
    ensures
        (bits >> 76u128) & 0xf == 7,
        (bits >> 62u128) & 0x3 == 2,
{
    uuid::Uuid::now_v7().as_u128()
}

/// `to_string` of a `uuid::Uuid`: its hyphenated form, which `uuid::Uuid::parse_str` reads back.
#[verifier::external_body]
pub(crate) fn uuid_to_text(bits: u128) -> (text: String)
    ensures
        text@ == uuid_text(bits),
        parsed_uuid(text@) == Some(bits),
{
    uuid::Uuid::from_u128(bits).to_string()
}

/// `uuid::Uuid::parse_str`. The contract only says that the outcome depends on the text alone.
#[verifier::external_body]
pub(crate) fn parse_uuid(text: &str) -> (bits: Option<u128>)
    ensures
        bits == parsed_uuid(text@),
{
    uuid::Uuid::parse_str(text).ok().map(|uuid| uuid.as_u128())
}

/// `chrono::Utc::now`, as milliseconds since 1970. Nothing is known of the time. It panics where
/// the system clock is before 1970.
#[verifier::external_body]
pub(crate) fn now_millis() -> (millis: i64)
{
    chrono::Utc::now().timestamp_millis()
}

/// Identity of a thread of conversation.
#[derive(Clone, Copy, Debug, PartialEq, Eq, Structural)]
pub struct ThreadId {
    pub uuid: u128,
}

/// A text that identifies no thread.
#[derive(Clone, Copy, Debug, PartialEq, Eq, Structural)]
pub struct InvalidThreadId;

impl ThreadId {
    /// An identity that was not used before, as far as time and chance go.
    pub fn new() -> (id: Self)
        ensures
            (id.uuid >> 76u128) & 0xf == 7,
            (id.uuid >> 62u128) & 0x3 == 2,
    {
        ThreadId { uuid: fresh_uuid() }
    }

    pub fn from_string(text: &str) -> (id: Result<Self, InvalidThreadId>)
        ensures
            match parsed_uuid(text@) {
                Some(uuid) => id == Ok::<_, InvalidThreadId>(ThreadId { uuid }),
                None => id == Err::<ThreadId, _>(InvalidThreadId),
            },
    {
        match parse_uuid(text) {
            Some(uuid) => Ok(ThreadId { uuid }),
            None => Err(InvalidThreadId),
        }
    }

    pub fn to_string(&self) -> (text: String)
        ensures
            text@ == uuid_text(self.uuid),
            parsed_uuid(text@) == Some(self.uuid),
    {
        uuid_to_text(self.uuid)
    }
}

} // verus!
