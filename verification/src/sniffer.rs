//! Reading the venue's book: what to ask the venue for, and what its
//! answer means in the caller's vocabulary.

use vstd::prelude::*;
use crate::converter::{venue_pair, TradingPairConverter};
use crate::decimal::decimal_value;
use crate::error::Error;
use crate::order::{conversion_error, is_positive_decimal, Order};
use crate::price::{normalize_amount, normalize_price};
use crate::trade::{AbstractOrder, OrderWithId};
use crate::trading_pair::TradingPair;
use crate::venue::{RawOrder, VenueRequest};

verus! {

/// Why one resting order of the venue cannot be converted, if it cannot.
pub open spec fn entry_error(trading_pair: TradingPair, raw: RawOrder) -> Option<Error> {
    conversion_error(trading_pair, raw.rate@, raw.amount@)
}

/// Whether some order of the batch has a field that is not the text of a
/// number above zero.
pub open spec fn has_malformed(trading_pair: TradingPair, raws: Seq<RawOrder>) -> bool {
    exists|i: int|
        0 <= i < raws.len() && #[trigger] entry_error(trading_pair, raws[i]) == Some(
            Error::MalformedVenueResponse,
        )
}

/// Whether some order of the batch has an amount that cannot be converted.
pub open spec fn has_unconvertible(trading_pair: TradingPair, raws: Seq<RawOrder>) -> bool {
    exists|i: int|
        0 <= i < raws.len() && #[trigger] entry_error(trading_pair, raws[i]) == Some(
            Error::ConversionError,
        )
}

/// Why a batch of resting orders cannot be converted, if it cannot. One
/// bad order fails the whole batch, and a malformed field anywhere in it
/// comes before any other failure.
pub open spec fn batch_error(trading_pair: TradingPair, raws: Seq<RawOrder>) -> Option<Error> {
    if has_malformed(trading_pair, raws) {
        Some(Error::MalformedVenueResponse)
    } else if has_unconvertible(trading_pair, raws) {
        Some(Error::ConversionError)
    } else {
        None
    }
}

/// One resting order with a rate or an amount that is not the text of a
/// number above zero fails the whole batch as a malformed response, whatever
/// the other orders hold.
pub proof fn lemma_malformed_field_fails_batch(
    trading_pair: TradingPair,
    raws: Seq<RawOrder>,
    i: int,
)
    requires
        0 <= i < raws.len(),
        !is_positive_decimal(raws[i].rate@) || !is_positive_decimal(raws[i].amount@),
    ensures
        batch_error(trading_pair, raws) == Some(Error::MalformedVenueResponse),
{
    assert(entry_error(trading_pair, raws[i]) == Some(Error::MalformedVenueResponse));
}

/// The price of a resting order of the venue, in the caller's direction.
pub open spec fn entry_price(trading_pair: TradingPair, raw: RawOrder) -> real {
    normalize_price(trading_pair.side, trading_pair.target, decimal_value(raw.rate@))
}

/// The amount of a resting order of the venue, in the caller's direction.
pub open spec fn entry_amount(trading_pair: TradingPair, raw: RawOrder) -> real {
    normalize_amount(
        trading_pair.side,
        trading_pair.target,
        decimal_value(raw.rate@),
        decimal_value(raw.amount@),
    )
}

/// Whether `order` is the resting order `raw` in the caller's vocabulary.
pub open spec fn is_book_entry(order: AbstractOrder, trading_pair: TradingPair, raw: RawOrder)
    -> bool {
    &&& order.trading_pair == trading_pair
    &&& order.price@ == entry_price(trading_pair, raw)
    &&& order.amount@ == entry_amount(trading_pair, raw)
}

/// Whether `order` is the caller's own resting order `raw` in the caller's
/// vocabulary.
pub open spec fn is_own_order(order: OrderWithId, trading_pair: TradingPair, raw: RawOrder)
    -> bool {
    &&& order.id == raw.id
    &&& order.trading_pair == trading_pair
    &&& order.price@ == entry_price(trading_pair, raw)
    &&& order.amount@ == entry_amount(trading_pair, raw)
}

/// The first `count` orders of an answer, or all of them where there are
/// fewer.
pub open spec fn first_orders(raws: Seq<RawOrder>, count: u32) -> Seq<RawOrder> {
    if raws.len() <= count {
        raws
    } else {
        raws.take(count as int)
    }
}

/// Converts a batch of resting orders, all or none.
fn convert_batch(trading_pair: &TradingPair, raws: &Vec<RawOrder>) -> (r: Result<Vec<Order>, Error>)
    ensures
        batch_error(*trading_pair, raws@) matches Some(e) ==> r == Err::<Vec<Order>, Error>(e),
        batch_error(*trading_pair, raws@) is None ==> r is Ok && r->Ok_0.len() == raws.len()
            && forall|i: int|
            0 <= i < raws.len() ==> (#[trigger] r->Ok_0[i]).is_conversion_of(
                Some(raws[i].id),
                *trading_pair,
                decimal_value(raws[i].rate@),
                decimal_value(raws[i].amount@),
            ),
{
    let mut orders: Vec<Order> = Vec::new();
    let mut unconvertible = false;
    let mut i: usize = 0;
    while i < raws.len()
        invariant
            i <= raws.len(),
            forall|j: int|
                0 <= j < i ==> #[trigger] entry_error(*trading_pair, raws[j]) != Some(
                    Error::MalformedVenueResponse,
                ),
            unconvertible <==> exists|j: int|
                0 <= j < i && #[trigger] entry_error(*trading_pair, raws[j]) == Some(
                    Error::ConversionError,
                ),
            !unconvertible ==> orders.len() == i && forall|j: int|
                0 <= j < i ==> (#[trigger] orders[j]).is_conversion_of(
                    Some(raws[j].id),
                    *trading_pair,
                    decimal_value(raws[j].rate@),
                    decimal_value(raws[j].amount@),
                ),
        decreases raws.len() - i,
    {
        match Order::from_raw(trading_pair, &raws[i]) {
            Ok(order) => {
                if !unconvertible {
                    orders.push(order);
                }
            },
            Err(Error::ConversionError) => {
                assert(entry_error(*trading_pair, raws[i as int]) == Some(
                    Error::ConversionError,
                ));
                unconvertible = true;
            },
            Err(e) => {
                assert(entry_error(*trading_pair, raws[i as int]) == Some(
                    Error::MalformedVenueResponse,
                ));
                return Err(Error::MalformedVenueResponse);
            },
        }
        i = i + 1;
    }
    if unconvertible {
        Err(Error::ConversionError)
    } else {
        Ok(orders)
    }
}

/// Reads the venue's book for trading pairs. It holds no state.
#[derive(Clone, Copy, Debug)]
pub struct ChatexSniffer {}

impl ChatexSniffer {
    pub fn new() -> (sniffer: ChatexSniffer)
        ensures
            sniffer == (ChatexSniffer {  }),
    {
        ChatexSniffer {  }
    }

    /// The request for the best resting orders of `trading_pair`, at most
    /// `count` of them.
    pub fn all_the_best_orders_request(&self, trading_pair: TradingPair, count: u32) -> (r:
        VenueRequest)
        ensures
            r == (VenueRequest::GetAllOrders { pair: venue_pair(trading_pair), limit: count }),
    {
        let converter = TradingPairConverter::default();
        VenueRequest::GetAllOrders { pair: converter.to_pair(trading_pair), limit: count }
    }

    /// The best resting orders of `trading_pair` in the caller's vocabulary,
    /// from the venue's answer `reply` to `all_the_best_orders_request`: the
    /// first `count` orders of the answer, in the venue's order. A failure of
    /// the venue is passed on with its text. Every order of the answer is
    /// converted, also one behind the first `count`: a single order that
    /// cannot be converted fails the whole answer, and no shorter list is
    /// given in its place.
    pub fn all_the_best_orders(
        &self,
        trading_pair: TradingPair,
        count: u32,
        reply: Result<Vec<RawOrder>, String>,
    ) -> (r: Result<Vec<AbstractOrder>, Error>)
        ensures
            reply matches Err(text) ==> r == Err::<Vec<AbstractOrder>, Error>(
                Error::VenueError(text),
            ),
            reply matches Ok(raws) ==> {
                &&& batch_error(trading_pair, raws@) matches Some(e) ==> r == Err::<
                    Vec<AbstractOrder>,
                    Error,
                >(e)
                &&& batch_error(trading_pair, raws@) is None ==> r is Ok && r->Ok_0.len()
                    == first_orders(raws@, count).len() && forall|i: int|
                    0 <= i < r->Ok_0.len() ==> is_book_entry(
                        #[trigger] r->Ok_0[i],
                        trading_pair,
                        raws[i],
                    )
            },
    {
        let raws = match reply {
            Ok(raws) => raws,
            Err(text) => return Err(Error::VenueError(text)),
        };
        let orders = match convert_batch(&trading_pair, &raws) {
            Ok(orders) => orders,
            Err(e) => return Err(e),
        };
        let limit: usize = if raws.len() <= count as usize {
            raws.len()
        } else {
            count as usize
        };
        let mut result: Vec<AbstractOrder> = Vec::new();
        let mut i: usize = 0;
        while i < limit
            invariant
                i <= limit <= raws.len(),
                orders.len() == raws.len(),
                result.len() == i,
                forall|j: int|
                    0 <= j < raws.len() ==> (#[trigger] orders[j]).is_conversion_of(
                        Some(raws[j].id),
                        trading_pair,
                        decimal_value(raws[j].rate@),
                        decimal_value(raws[j].amount@),
                    ),
                forall|j: int|
                    0 <= j < i ==> is_book_entry(#[trigger] result[j], trading_pair, raws[j]),
            decreases limit - i,
        {
            let order = &orders[i];
            assert(orders[i as int].is_conversion_of(
                Some(raws[i as int].id),
                trading_pair,
                decimal_value(raws[i as int].rate@),
                decimal_value(raws[i as int].amount@),
            ));
            result.push(AbstractOrder { trading_pair, price: order.rate, amount: order.amount });
            i = i + 1;
        }
        Ok(result)
    }

    /// The request for the best resting order of `trading_pair`.
    pub fn the_best_order_request(&self, trading_pair: TradingPair) -> (r: VenueRequest)
        ensures
            r == (VenueRequest::GetAllOrders { pair: venue_pair(trading_pair), limit: 1 }),
    {
        let converter = TradingPairConverter::default();
        VenueRequest::GetAllOrders { pair: converter.to_pair(trading_pair), limit: 1 }
    }

    /// The best resting order of `trading_pair` in the caller's vocabulary,
    /// from the venue's answer `reply` to `the_best_order_request`: the first
    /// order of the answer. An empty book is no order found.
    pub fn the_best_order(&self, trading_pair: TradingPair, reply: Result<Vec<RawOrder>, String>)
        -> (r: Result<AbstractOrder, Error>)
        ensures
            reply matches Err(text) ==> r == Err::<AbstractOrder, Error>(Error::VenueError(text)),
            reply matches Ok(raws) ==> {
                &&& raws.len() == 0 ==> r == Err::<AbstractOrder, Error>(
                    Error::OrderNotFound(None),
                )
                &&& raws.len() > 0 ==> {
                    &&& entry_error(trading_pair, raws[0]) matches Some(e) ==> r == Err::<
                        AbstractOrder,
                        Error,
                    >(e)
                    &&& entry_error(trading_pair, raws[0]) is None ==> r is Ok && is_book_entry(
                        r->Ok_0,
                        trading_pair,
                        raws[0],
                    )
                }
            },
    {
        let raws = match reply {
            Ok(raws) => raws,
            Err(text) => return Err(Error::VenueError(text)),
        };
        if raws.len() == 0 {
            return Err(Error::OrderNotFound(None));
        }
        match Order::from_raw(&trading_pair, &raws[0]) {
            Ok(order) => Ok(
                AbstractOrder { trading_pair, price: order.rate, amount: order.amount },
            ),
            Err(e) => Err(e),
        }
    }

    /// The request for the caller's own resting orders of `trading_pair`.
    pub fn get_my_orders_request(&self, trading_pair: TradingPair) -> (r: VenueRequest)
        ensures
            r == (VenueRequest::GetMyOrders { pair: venue_pair(trading_pair) }),
    {
        let converter = TradingPairConverter::default();
        VenueRequest::GetMyOrders { pair: converter.to_pair(trading_pair) }
    }

    /// The caller's own resting orders of `trading_pair` in the caller's
    /// vocabulary, from the venue's answer `reply` to `get_my_orders_request`:
    /// every order of the answer, in the venue's order, under the venue's id.
    pub fn get_my_orders(&self, trading_pair: TradingPair, reply: Result<Vec<RawOrder>, String>)
        -> (r: Result<Vec<OrderWithId>, Error>)
        ensures
            reply matches Err(text) ==> r == Err::<Vec<OrderWithId>, Error>(
                Error::VenueError(text),
            ),
            reply matches Ok(raws) ==> {
                &&& batch_error(trading_pair, raws@) matches Some(e) ==> r == Err::<
                    Vec<OrderWithId>,
                    Error,
                >(e)
                &&& batch_error(trading_pair, raws@) is None ==> r is Ok && r->Ok_0.len()
                    == raws.len() && forall|i: int|
                    0 <= i < raws.len() ==> is_own_order(
                        #[trigger] r->Ok_0[i],
                        trading_pair,
                        raws[i],
                    )
            },
    {
        let raws = match reply {
            Ok(raws) => raws,
            Err(text) => return Err(Error::VenueError(text)),
        };
        let limit = raws.len();
        let orders = match convert_batch(&trading_pair, &raws) {
            Ok(orders) => orders,
            Err(e) => return Err(e),
        };
        let mut result: Vec<OrderWithId> = Vec::new();
        let mut i: usize = 0;
        while i < limit
            invariant
                i <= limit,
                limit == orders.len(),
                limit == raws.len(),
                result.len() == i,
                forall|j: int|
                    0 <= j < limit ==> (#[trigger] orders[j]).is_conversion_of(
                        Some(raws[j].id),
                        trading_pair,
                        decimal_value(raws[j].rate@),
                        decimal_value(raws[j].amount@),
                    ),
                forall|j: int|
                    0 <= j < i ==> is_own_order(#[trigger] result[j], trading_pair, raws[j]),
            decreases limit - i,
        {
            let order = &orders[i];
            assert(orders[i as int].is_conversion_of(
                Some(raws[i as int].id),
                trading_pair,
                decimal_value(raws[i as int].rate@),
                decimal_value(raws[i as int].amount@),
            ));
            result.push(
                OrderWithId {
                    id: raws[i].id,
                    trading_pair,
                    price: order.rate,
                    amount: order.amount,
                },
            );
            i = i + 1;
        }
        Ok(result)
    }
}

} // verus!
