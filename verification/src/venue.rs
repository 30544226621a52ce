//! What passes between this library and the venue: the shapes of the
//! venue's answers, with their numeric fields still in text, and the
//! requests that the library asks its caller to send.

use vstd::prelude::*;
use crate::coin::CoinPair;
use crate::price::{Amount, Price};

verus! {

/// A resting order as the venue reports it.
#[derive(Clone, Debug, PartialEq, Eq)]
pub struct RawOrder {
    pub id: u32,
    pub rate: String,
    pub amount: String,
}

/// An executed trade as the venue reports it: the fill's id and amount,
/// and the order that was filled.
#[derive(Clone, Debug, PartialEq, Eq)]
pub struct RawTrade {
    pub id: u32,
    pub amount: String,
    pub order: RawOrder,
}

/// One line of the venue's balance summary.
#[derive(Clone, Debug, PartialEq, Eq)]
pub struct RawCurrency {
    pub coin: String,
    pub amount: String,
    pub held: String,
}

/// A request to the venue.
#[derive(Clone, Debug, PartialEq, Eq)]
pub enum VenueRequest {
    /// The resting orders of `pair`, at most `limit` of them.
    GetAllOrders { pair: CoinPair, limit: u32 },
    /// The caller's own resting orders of `pair`.
    GetMyOrders { pair: CoinPair },
    /// A new resting order.
    CreateOrder { pair: CoinPair, amount: Amount, price: Price },
    /// A trade against the resting order `order_id`.
    CreateTradeForOrder { order_id: u32, amount: Amount, rate: Price },
}

/// The venue's answer to a request.
#[derive(Clone, Debug, PartialEq, Eq)]
pub enum VenueReply {
    Orders(Vec<RawOrder>),
    Order(RawOrder),
    Trade(RawTrade),
    /// The venue or the transport failed; the text is theirs.
    Failure(String),
}

} // verus!
