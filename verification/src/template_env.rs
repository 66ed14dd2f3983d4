//! The two text filters that the invoice template applies: a timestamp
//! shortened to its calendar date, and an amount shown as a price.

use crate::decimal::{two_place_text, Decimal};
use crate::timestamp::{ymd_text, Timestamp};
use vstd::prelude::*;
use vstd::string::StringExecFns;

verus! {

/// The date shown for a text that may be a timestamp.
pub open spec fn ymd_or_na(raw: Seq<char>) -> Seq<char> {
    if Timestamp::parses(raw) {
        let t = Timestamp::parsed(raw);
        ymd_text(t.seconds, t.nanos, t.offset)
    } else {
        "N/A"@
    }
}

/// The price shown for a text that may be an amount.
pub open spec fn price_or_nan(raw: Seq<char>) -> Seq<char> {
    if Decimal::parses(raw) {
        let amount = Decimal::parsed(raw);
        "$"@ + two_place_text(amount.unscaled, amount.scale)
    } else {
        "NaN"@
    }
}

/// The calendar date of a timestamp that was read, or `"N/A"` where none
/// was.
pub fn date_label(parsed: Option<Timestamp>) -> (r: String)
    ensures
        parsed matches Some(t) ==> r@ == ymd_text(t@.seconds, t@.nanos, t@.offset),
        parsed is None ==> r@ == "N/A"@,
{
    match parsed {
        Some(t) => t.to_ymd(),
        None => "N/A".to_owned(),
    }
}

/// A dollar sign followed by `digits`.
pub fn dollar_prefixed(digits: &str) -> (r: String)
    ensures
        r@ == "$"@ + digits@,
{
    String::from_str("$").concat(digits)
}

/// The price of an amount that was read: a dollar sign and the amount with
/// two fractional digits, or `"NaN"` where none was read.
pub fn price_label(parsed: Option<Decimal>) -> (r: String)
    ensures
        parsed matches Some(amount) ==> r@ == "$"@ + two_place_text(
            amount@.unscaled,
            amount@.scale,
        ),
        parsed is None ==> r@ == "NaN"@,
{
    match parsed {
        Some(amount) => dollar_prefixed(amount.to_two_place_text().as_str()),
        None => "NaN".to_owned(),
    }
}

/// Shortens an RFC 3339 timestamp to its local calendar date, as year, month
/// and day joined by hyphens. A text that is no such timestamp gives
/// `"N/A"`.
pub fn format_ymd(raw: &str) -> (r: String)
    ensures
        r@ == ymd_or_na(raw@),
{
    date_label(Timestamp::parse_rfc3339(raw).ok())
}

/// Shows a decimal text as a dollar amount with two fractional digits. A
/// text that is no amount gives `"NaN"`.
pub fn pretty_price(raw: &str) -> (r: String)
    ensures
        r@ == price_or_nan(raw@),
{
    price_label(Decimal::parse(raw).ok())
}

} // verus!
