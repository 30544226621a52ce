//! The failures that the library reports.

use vstd::prelude::*;
use vstd::string::*;
use crate::trade::AbstractOrder;
use crate::trading_pair::TradingPair;

verus! {

#[derive(Clone, Debug, PartialEq, Eq)]
pub enum Error {
    /// An asset or pair has no counterpart, or a converted value cannot be
    /// written as a fraction of two 64-bit numbers. The caller may fall back.
    ConversionError,
    /// A numeric field of the venue's answer is not text that this library
    /// reads as a number, or the answer is not of the shape that was asked
    /// for. The library reads plain decimal text only: digits with at most
    /// one point among them. So a sign, an exponent, `inf` and `nan` are
    /// malformed here, and so is decimal text that is too long to hold
    /// exactly: more than 19 digits behind the point, or digits that, read
    /// as one whole number, do not fit in 64 bits. Where a price or an amount
    /// is asked for, zero is malformed too. No value is ever put in the place
    /// of such a field.
    MalformedVenueResponse,
    /// The venue or the transport failed. The text is theirs, unchanged.
    VenueError(String),
    /// No resting order matches. Holds the order that was attempted, where
    /// there was one.
    OrderNotFound(Option<AbstractOrder>),
}

impl Error {
    /// The text of the failure.
    pub open spec fn spec_message(self) -> Seq<char> {
        match self {
            Error::ConversionError => "value or asset cannot be converted"@,
            Error::MalformedVenueResponse => "malformed numeric field in the venue's response"@,
            Error::VenueError(text) => text@,
            Error::OrderNotFound(None) => "no matching order"@,
            Error::OrderNotFound(Some(order)) => "no matching order for "@ + order.spec_describe(),
        }
    }

    /// A text for people. Of a venue failure it is the venue's own text,
    /// unchanged; of an order not found it names the order that was
    /// attempted.
    pub fn message(&self) -> (s: String)
        ensures
            s@ == self.spec_message(),
    {
        match self {
            Error::ConversionError => String::from_str("value or asset cannot be converted"),
            Error::MalformedVenueResponse => String::from_str(
                "malformed numeric field in the venue's response",
            ),
            Error::VenueError(text) => text.clone(),
            Error::OrderNotFound(None) => String::from_str("no matching order"),
            Error::OrderNotFound(Some(order)) => {
                let mut s = String::from_str("no matching order for ");
                let order = order.describe();
                s.append(order.as_str());
                s
            },
        }
    }
}

/// The text of a failed trade: the text of the failure, and the order that
/// was attempted.
pub open spec fn spec_failure_message(error: Error, attempted: AbstractOrder) -> Seq<char> {
    error.spec_message() + " (attempted: "@ + attempted.spec_describe() + ")"@
}

/// The text of a failed trade: the text of the failure, with the venue's
/// own words unchanged in it, and the order that was attempted.
pub fn failure_message(error: &Error, attempted: &AbstractOrder) -> (s: String)
    ensures
        s@ == spec_failure_message(*error, *attempted),
{
    let mut s = error.message();
    s.append(" (attempted: ");
    let order = attempted.describe();
    s.append(order.as_str());
    s.append(")");
    s
}

/// The text of a failed reading of the book: the text of the failure, and
/// the trading pair that was asked about.
pub open spec fn spec_pair_failure_message(error: Error, trading_pair: TradingPair) -> Seq<char> {
    error.spec_message() + " (attempted: "@ + trading_pair.spec_describe() + ")"@
}

/// The text of a failed reading of the book: the text of the failure, with
/// the venue's own words unchanged in it, and the trading pair that was
/// asked about.
pub fn pair_failure_message(error: &Error, trading_pair: &TradingPair) -> (s: String)
    ensures
        s@ == spec_pair_failure_message(*error, *trading_pair),
{
    let mut s = error.message();
    s.append(" (attempted: ");
    let pair = trading_pair.describe();
    s.append(pair.as_str());
    s.append(")");
    s
}

} // verus!
