//! Record identifiers and points in time, as plain values.

use crate::error::Error;
use vstd::prelude::*;

verus! {

/// The identifier of a record: a UUID, held as its 128-bit value.
#[derive(Clone, Copy, Debug, PartialEq, Eq, Structural)]
pub struct Uuid {
    pub value: u128,
}

/// A point in time: nanoseconds since the Unix epoch, in UTC.
#[derive(Clone, Copy, Debug, PartialEq, Eq, Structural)]
pub struct Timestamp {
    pub nanos: i128,
}

/// The 128-bit value that `uuid::Uuid::parse_str` reads from a text, or `None`
/// where it rejects the text.
pub uninterp spec fn uuid_of_text(text: Seq<char>) -> Option<u128>;

/// Calls `uuid::Uuid::parse_str` and takes the value of the UUID it returns
/// with `as_u128`. The contract names that value `uuid_of_text` and claims
/// nothing beyond: the same text always parses to the same outcome.
#[verifier::external_body]
fn parse_uuid_text(text: &str) -> (parsed: Option<u128>)
    ensures
        parsed == uuid_of_text(text@),
{
    match uuid::Uuid::parse_str(text) {
        Ok(id) => Some(id.as_u128()),
        Err(_) => None,
    }
}

impl Uuid {
    /// What a parse outcome means for the caller: the identifier, or a
    /// validation error where the text was no UUID.
    pub open spec fn of_parsed(parsed: Option<u128>) -> Result<Uuid, Error> {
        match parsed {
            Some(value) => Ok(Uuid { value }),
            None => Err(Error::ValidationError),
        }
    }

    /// Turns the outcome of parsing into an identifier or a validation error.
    pub fn from_parsed(parsed: Option<u128>) -> (id: Result<Uuid, Error>)
        ensures
            id == Uuid::of_parsed(parsed),
    {
        match parsed {
            Some(value) => Ok(Uuid { value }),
            None => Err(Error::ValidationError),
        }
    }

    /// Reads an identifier from a text in any of the usual UUID notations.
    pub fn parse_str(text: &str) -> (id: Result<Uuid, Error>)
        ensures
            id == Uuid::of_parsed(uuid_of_text(text@)),
    {
        Uuid::from_parsed(parse_uuid_text(text))
    }
}

} // verus!
