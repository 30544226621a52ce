//! Orders on the venue's side, and the conversion between the venue's
//! text fields and typed values in the caller's vocabulary.

use vstd::prelude::*;
use crate::coin::CoinPair;
use crate::converter::{venue_pair, TradingPairConverter};
use crate::decimal::{decimal_value, is_readable, parse_decimal};
use crate::error::Error;
use crate::price::{
    convert_amount,
    convert_price,
    normalize_amount,
    normalize_price,
    Amount,
    Price,
};
use crate::ratio::representable;
use crate::trade::AbstractOrder;
use crate::trading_pair::TradingPair;
use crate::venue::{RawOrder, RawTrade};

verus! {

/// Whether `text` writes a price or an amount: decimal text that
/// `parse_decimal` reads, of a value above zero. Decimal text with more
/// digits than `parse_decimal` reads does not count, whatever it writes.
pub open spec fn is_positive_decimal(text: Seq<char>) -> bool {
    is_readable(text) && decimal_value(text) > 0real
}

/// Why a rate and an amount of the venue cannot be converted, if they
/// cannot: a field that `is_positive_decimal` does not admit is a malformed
/// response, be it no decimal text, too long, or zero; an amount that,
/// converted, has no fraction of two 64-bit numbers is a conversion error.
pub open spec fn conversion_error(trading_pair: TradingPair, rate: Seq<char>, amount: Seq<char>)
    -> Option<Error> {
    if !is_positive_decimal(rate) || !is_positive_decimal(amount) {
        Some(Error::MalformedVenueResponse)
    } else if !representable(
        normalize_amount(
            trading_pair.side,
            trading_pair.target,
            decimal_value(rate),
            decimal_value(amount),
        ),
    ) {
        Some(Error::ConversionError)
    } else {
        None
    }
}

/// An order of the venue's book for a trading pair, with its price and
/// amount on the other side of the conversion from where they came.
#[derive(Clone, Debug, PartialEq, Eq)]
pub struct Order {
    /// `None` until the venue has acknowledged the order.
    pub id: Option<u32>,
    pub pair: CoinPair,
    pub rate: Price,
    pub amount: Amount,
}

impl Order {
    /// Whether the order is the conversion, for `trading_pair`, of the price
    /// `price` and the amount `amount`, under the id `id`.
    pub open spec fn is_conversion_of(
        self,
        id: Option<u32>,
        trading_pair: TradingPair,
        price: real,
        amount: real,
    ) -> bool {
        &&& self.id == id
        &&& self.pair == venue_pair(trading_pair)
        &&& self.rate@ == normalize_price(trading_pair.side, trading_pair.target, price)
        &&& self.amount@ == normalize_amount(
            trading_pair.side,
            trading_pair.target,
            price,
            amount,
        )
    }

    /// The venue's report of an executed trade, in the caller's vocabulary:
    /// the fill's id and amount, at the rate of the order that was filled.
    pub fn from_trade(trading_pair: &TradingPair, trade: RawTrade) -> (r: Result<Order, Error>)
        ensures
            conversion_error(*trading_pair, trade.order.rate@, trade.amount@) matches Some(e)
                ==> r == Err::<Order, Error>(e),
            conversion_error(*trading_pair, trade.order.rate@, trade.amount@) is None ==> r is Ok
                && r->Ok_0.is_conversion_of(
                Some(trade.id),
                *trading_pair,
                decimal_value(trade.order.rate@),
                decimal_value(trade.amount@),
            ),
    {
        Self::from(trade.id, trading_pair, trade.order.rate.as_str(), trade.amount.as_str())
    }

    /// The venue's report of a resting order, in the caller's vocabulary.
    pub fn from_raw(trading_pair: &TradingPair, order: &RawOrder) -> (r: Result<Order, Error>)
        ensures
            conversion_error(*trading_pair, order.rate@, order.amount@) matches Some(e) ==> r
                == Err::<Order, Error>(e),
            conversion_error(*trading_pair, order.rate@, order.amount@) is None ==> r is Ok
                && r->Ok_0.is_conversion_of(
                Some(order.id),
                *trading_pair,
                decimal_value(order.rate@),
                decimal_value(order.amount@),
            ),
    {
        Self::from(order.id, trading_pair, order.rate.as_str(), order.amount.as_str())
    }

    fn from(id: u32, trading_pair: &TradingPair, price: &str, amount: &str) -> (r: Result<
        Order,
        Error,
    >)
        ensures
            conversion_error(*trading_pair, price@, amount@) matches Some(e) ==> r == Err::<
                Order,
                Error,
            >(e),
            conversion_error(*trading_pair, price@, amount@) is None ==> r is Ok
                && r->Ok_0.is_conversion_of(
                Some(id),
                *trading_pair,
                decimal_value(price@),
                decimal_value(amount@),
            ),
    {
        let price = match parse_price(price) {
            Some(price) => price,
            None => return Err(Error::MalformedVenueResponse),
        };
        let amount = match parse_amount(amount) {
            Some(amount) => amount,
            None => return Err(Error::MalformedVenueResponse),
        };
        let converter = TradingPairConverter::default();
        let pair = converter.to_pair(*trading_pair);
        let rate = convert_price(trading_pair.target, trading_pair.side, &price);
        match convert_amount(trading_pair.target, trading_pair.side, &price, &amount) {
            Some(amount) => Ok(Order { id: Some(id), pair, rate, amount }),
            None => Err(Error::ConversionError),
        }
    }

    /// The caller's order on the venue's side, not yet placed.
    pub fn from_order(order: &AbstractOrder) -> (r: Result<Order, Error>)
        ensures
            r is Ok <==> representable(
                normalize_amount(
                    order.trading_pair.side,
                    order.trading_pair.target,
                    order.price@,
                    order.amount@,
                ),
            ),
            r matches Ok(o) ==> o.is_conversion_of(
                None,
                order.trading_pair,
                order.price@,
                order.amount@,
            ),
            r matches Err(e) ==> e == Error::ConversionError,
    {
        let converter = TradingPairConverter::default();
        let pair = converter.to_pair(order.trading_pair);
        let rate = convert_price(order.trading_pair.target, order.trading_pair.side, &order.price);
        match convert_amount(
            order.trading_pair.target,
            order.trading_pair.side,
            &order.price,
            &order.amount,
        ) {
            Some(amount) => Ok(Order { id: None, pair, rate, amount }),
            None => Err(Error::ConversionError),
        }
    }
}

/// Reads the text of a price.
pub fn parse_price(text: &str) -> (r: Option<Price>)
    ensures
        r is Some <==> is_positive_decimal(text@),
        r matches Some(p) ==> p@ == decimal_value(text@),
{
    match parse_decimal(text) {
        Some(value) => Price::new(value),
        None => None,
    }
}

/// Reads the text of an amount.
pub fn parse_amount(text: &str) -> (r: Option<Amount>)
    ensures
        r is Some <==> is_positive_decimal(text@),
        r matches Some(a) ==> a@ == decimal_value(text@),
{
    match parse_decimal(text) {
        Some(value) => Amount::new(value),
        None => None,
    }
}

} // verus!
