//! Orders and trades in the caller's vocabulary.

use vstd::prelude::*;
use vstd::string::*;
use crate::decimal::{ratio_text, write_ratio};
use crate::price::{Amount, Price};
use crate::trading_pair::TradingPair;

verus! {

/// An order in the caller's vocabulary: a trade that the caller asks for,
/// or a resting order of the book seen from the caller's side.
#[derive(Clone, Copy, Debug, PartialEq, Eq)]
pub struct AbstractOrder {
    pub trading_pair: TradingPair,
    pub price: Price,
    pub amount: Amount,
}

impl AbstractOrder {
    /// The order in words: its trading pair, its price and its amount.
    pub open spec fn spec_describe(self) -> Seq<char> {
        self.trading_pair.spec_describe() + " price "@ + ratio_text(self.price.spec_value())
            + " amount "@ + ratio_text(self.amount.spec_value())
    }

    /// The order in words: its trading pair, its price and its amount.
    pub fn describe(&self) -> (s: String)
        ensures
            s@ == self.spec_describe(),
    {
        let mut s = self.trading_pair.describe();
        s.append(" price ");
        let price = write_ratio(&self.price.value());
        s.append(price.as_str());
        s.append(" amount ");
        let amount = write_ratio(&self.amount.value());
        s.append(amount.as_str());
        s
    }
}

/// A resting order that the venue has acknowledged.
#[derive(Clone, Copy, Debug, PartialEq, Eq)]
pub struct OrderWithId {
    pub id: u32,
    pub trading_pair: TradingPair,
    pub price: Price,
    pub amount: Amount,
}

/// An executed trade: the fill's id, and the realised amount and price.
#[derive(Clone, Copy, Debug, PartialEq, Eq)]
pub struct TradeResult {
    pub id: u32,
    pub trading_pair: TradingPair,
    pub price: Price,
    pub amount: Amount,
}

/// What came of a request to trade.
#[derive(Clone, Copy, Debug, PartialEq, Eq)]
pub enum Trade {
    /// The trade was executed against a resting order.
    Market(TradeResult),
    /// A new order rests in the book.
    Limit(OrderWithId),
}

} // verus!
