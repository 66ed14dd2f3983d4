//! The text codec of the exchange format: amounts and timestamps travel as
//! canonical strings, never as native numbers.
//!
//! Reading is [`Decimal::parse`] and [`Timestamp::parse_rfc3339`]; writing is
//! [`Decimal::to_text`] and [`Timestamp::to_rfc3339`]. This module holds the
//! failure they share and the two round trips from text to canonical text.

use crate::decimal::Decimal;
use crate::timestamp::{rfc3339_text, Timestamp};
use vstd::prelude::*;

verus! {

/// Why a text could not be read. Each failure carries the offending text.
#[derive(Debug)]
pub enum CodecError {
    /// The text is not a decimal number, or its scale is beyond
    /// [`crate::decimal::SCALE_LIMIT`].
    MalformedNumber(String),
    /// The text is not a date and time with a numeric offset.
    MalformedTimestamp(String),
}

impl CodecError {
    /// The text that was rejected.
    pub open spec fn raw(self) -> Seq<char> {
        match self {
            CodecError::MalformedNumber(raw) => raw@,
            CodecError::MalformedTimestamp(raw) => raw@,
        }
    }

    /// The text that was rejected.
    pub fn offending_text(&self) -> (r: &str)
        ensures
            r@ == self.raw(),
    {
        match self {
            CodecError::MalformedNumber(raw) => raw.as_str(),
            CodecError::MalformedTimestamp(raw) => raw.as_str(),
        }
    }
}

/// Reads a decimal text and writes it in canonical form. The canonical text
/// can be read again, and it denotes the same number as the text given:
/// the form may change, the magnitude does not.
pub fn canonical_decimal(text: &str) -> (r: Result<String, CodecError>)
    ensures
        r is Ok <==> Decimal::parses(text@),
        r matches Ok(canonical) ==> {
            &&& canonical@ == Decimal::parsed(text@).plain_text()
            &&& Decimal::parses(canonical@)
            &&& Decimal::parsed(canonical@).same_value(Decimal::parsed(text@))
        },
        r matches Err(e) ==> e is MalformedNumber && e.raw() == text@,
{
    match Decimal::parse(text) {
        Ok(amount) => Ok(amount.to_text()),
        Err(e) => Err(e),
    }
}

/// Reads an RFC 3339 text and writes it in canonical form. The canonical
/// text can be read again, and it denotes the same instant, at the same
/// offset, as the text given.
pub fn canonical_timestamp(text: &str) -> (r: Result<String, CodecError>)
    ensures
        r is Ok <==> Timestamp::parses(text@),
        r matches Ok(canonical) ==> {
            let t = Timestamp::parsed(text@);
            &&& canonical@ == rfc3339_text(t.seconds, t.nanos, t.offset)
            &&& Timestamp::parses(canonical@)
            &&& Timestamp::parsed(canonical@) == t
            &&& Timestamp::parsed(canonical@).same_instant(t)
        },
        r matches Err(e) ==> e is MalformedTimestamp && e.raw() == text@,
{
    match Timestamp::parse_rfc3339(text) {
        Ok(t) => Ok(t.to_rfc3339()),
        Err(e) => Err(e),
    }
}

} // verus!
