//! The trade execution engine. It decides; its caller talks to the venue.
//!
//! A trade starts with `ChatexTrader::create_order`, which answers with the
//! first request to send. Each answer of the venue goes to
//! `ChatexTrader::step`, which answers with the next request, with the
//! finished trade, or with the failure. A market trade fetches the book,
//! searches it for a resting order at the wanted price, and executes against
//! the first match; a limit trade places a new resting order at once.
//!
//! So a trade that has not ended is in one of three states, each waiting for
//! one answer of the venue: `FetchBook`, `Execute` or `Rest`. The search
//! needs nothing from the venue and is part of the step that takes the book.
//! A trade ends as `Done` or as `Failed`, and every step can fail. Nothing
//! is tried twice: a failure of the venue ends the trade with the venue's
//! text. Between the book and the trade the book may change; then the venue
//! refuses the trade, and the trade fails like any other.
//!
//! The removal of a resting order is no part of a trade: `delete_order`
//! reads the venue's answer to it.

use vstd::prelude::*;
use crate::converter::venue_pair;
use crate::decimal::{decimal_value, is_readable, parse_decimal};
use crate::error::Error;
use crate::order::{conversion_error, Order};
use crate::price::{lemma_epsilon_matching, normalize_amount, normalize_price, Amount, Price};
use crate::ratio::{ratio_value, representable, within_epsilon, Ratio};
use crate::trade::{AbstractOrder, OrderWithId, Trade, TradeResult};
use crate::trading_pair::Target;
use crate::venue::{RawOrder, VenueReply, VenueRequest};

verus! {

/// What a trade under way is waiting for.
#[derive(Clone, Debug, PartialEq, Eq)]
pub enum TraderState {
    /// The book has been asked for. `rate` and `amount` are those of
    /// `order`, converted to the venue's side.
    FetchBook { order: AbstractOrder, rate: Price, amount: Amount },
    /// The trade against the matched resting order has been asked for.
    Execute { order: AbstractOrder },
    /// The placement of a new resting order has been asked for.
    Rest { order: AbstractOrder },
}

/// What the engine answers: go on, done, or failed.
#[derive(Clone, Debug, PartialEq, Eq)]
pub enum TraderStep {
    /// Send `request`, and bring the venue's answer to `step` with `state`.
    Continue { state: TraderState, request: VenueRequest },
    /// The trade is made.
    Done(Trade),
    /// The trade has failed; `order` is the order that was attempted.
    Failed { error: Error, order: AbstractOrder },
}

/// How the search of a book ended.
#[derive(Clone, Copy, Debug, PartialEq, Eq)]
pub enum SearchOutcome {
    /// The resting order at this index is the first that matches.
    Found(usize),
    /// No resting order matches.
    NotFound,
    /// A resting order that comes before any match has a rate that
    /// `parse_decimal` does not read: no decimal text, or too long.
    Malformed,
}

/// Whether the rate of a resting order is closer to `target` than `epsilon`.
pub open spec fn is_match(raw: RawOrder, target: real, epsilon: real) -> bool {
    is_readable(raw.rate@) && within_epsilon(decimal_value(raw.rate@), target, epsilon)
}

/// The outcome of searching `book` from index `from` on: the first resting
/// order that matches wins, unless an unreadable rate comes before it.
pub open spec fn search_from(book: Seq<RawOrder>, target: real, epsilon: real, from: int)
    -> SearchOutcome
    decreases book.len() - from,
{
    if from < 0 || from >= book.len() {
        SearchOutcome::NotFound
    } else if !is_readable(book[from].rate@) {
        SearchOutcome::Malformed
    } else if is_match(book[from], target, epsilon) {
        SearchOutcome::Found(from as usize)
    } else {
        search_from(book, target, epsilon, from + 1)
    }
}

/// The outcome of searching the whole of `book`.
pub open spec fn search_book(book: Seq<RawOrder>, target: real, epsilon: real) -> SearchOutcome {
    search_from(book, target, epsilon, 0)
}

/// What the outcome of a search says of the book: a found order matches and
/// nothing before it does; where none is found, none matches; and before an
/// unreadable rate that ends the search, nothing matches.
pub proof fn lemma_search_from(book: Seq<RawOrder>, target: real, epsilon: real, from: int)
    requires
        0 <= from,
        book.len() <= usize::MAX,
    ensures
        match search_from(book, target, epsilon, from) {
            SearchOutcome::Found(i) => from <= i < book.len() && is_match(
                book[i as int],
                target,
                epsilon,
            ) && forall|j: int| from <= j < i ==> !is_match(#[trigger] book[j], target, epsilon),
            SearchOutcome::NotFound => forall|j: int|
                from <= j < book.len() ==> !is_match(#[trigger] book[j], target, epsilon),
            SearchOutcome::Malformed => exists|i: int|
                from <= i < book.len() && !is_readable((#[trigger] book[i]).rate@) && forall|j: int|
                    from <= j < i ==> !is_match(#[trigger] book[j], target, epsilon),
        },
    decreases book.len() - from,
{
    if from >= book.len() {
    } else if !is_readable(book[from].rate@) {
        assert(!is_readable(book[from].rate@) && forall|j: int|
            from <= j < from ==> !is_match(#[trigger] book[j], target, epsilon));
    } else if is_match(book[from], target, epsilon) {
    } else {
        lemma_search_from(book, target, epsilon, from + 1);
        match search_from(book, target, epsilon, from + 1) {
            SearchOutcome::Found(i) => {
                assert forall|j: int| from <= j < i implies !is_match(
                    #[trigger] book[j],
                    target,
                    epsilon,
                ) by {}
            },
            SearchOutcome::NotFound => {
                assert forall|j: int| from <= j < book.len() implies !is_match(
                    #[trigger] book[j],
                    target,
                    epsilon,
                ) by {}
            },
            SearchOutcome::Malformed => {
                let i = choose|i: int|
                    from + 1 <= i < book.len() && !is_readable((#[trigger] book[i]).rate@)
                        && forall|j: int|
                        from + 1 <= j < i ==> !is_match(#[trigger] book[j], target, epsilon);
                assert(from <= i < book.len() && !is_readable(book[i].rate@) && forall|j: int|
                    from <= j < i ==> !is_match(#[trigger] book[j], target, epsilon));
            },
        }
    }
}

/// In an empty book nothing is found.
pub proof fn lemma_empty_book_not_found(target: real, epsilon: real)
    ensures
        search_book(Seq::<RawOrder>::empty(), target, epsilon) == SearchOutcome::NotFound,
{
}

/// A resting order at the rate `p` matches a wanted price half the
/// tolerance away from `p`, on either side, and does not match one that is
/// twice the tolerance away.
pub proof fn lemma_resting_order_matching(raw: RawOrder, epsilon: real)
    requires
        is_readable(raw.rate@),
        epsilon > 0real,
    ensures
        is_match(raw, decimal_value(raw.rate@) + epsilon / 2real, epsilon),
        is_match(raw, decimal_value(raw.rate@) - epsilon / 2real, epsilon),
        !is_match(raw, decimal_value(raw.rate@) + 2real * epsilon, epsilon),
        !is_match(raw, decimal_value(raw.rate@) - 2real * epsilon, epsilon),
{
    lemma_epsilon_matching(decimal_value(raw.rate@), epsilon);
}

/// The trade execution engine for one venue. It keeps nothing between
/// trades: what a trade under way needs is in its `TraderState`.
#[derive(Clone, Copy, Debug)]
pub struct ChatexTrader {
    epsilon: Ratio,
    book_limit: u32,
}

impl ChatexTrader {
    /// The tolerance within which a resting order's rate matches the wanted
    /// price.
    pub closed spec fn epsilon(self) -> real {
        self.epsilon@
    }

    /// How many resting orders a market trade asks the venue for.
    pub closed spec fn book_limit(self) -> u32 {
        self.book_limit
    }

    /// An engine with a tolerance of one twenty-thousandth, which asks for 30
    /// resting orders.
    pub fn new() -> (trader: ChatexTrader)
        ensures
            trader.epsilon() == ratio_value(1, 20_000),
            trader.book_limit() == 30,
    {
        ChatexTrader { epsilon: Ratio::fraction(1, 20_000), book_limit: 30 }
    }

    /// An engine with the tolerance `epsilon`.
    pub fn with_epsilon(epsilon: Ratio) -> (trader: ChatexTrader)
        ensures
            trader.epsilon() == epsilon@,
            trader.book_limit() == 30,
    {
        ChatexTrader { epsilon, book_limit: 30 }
    }

    /// The tolerance within which a resting order's rate matches the wanted
    /// price.
    pub fn tolerance(&self) -> (r: Ratio)
        ensures
            r@ == self.epsilon(),
    {
        self.epsilon
    }

    /// How many resting orders a market trade asks the venue for.
    pub fn limit(&self) -> (r: u32)
        ensures
            r == self.book_limit(),
    {
        self.book_limit
    }

    /// Searches the book for the first resting order whose rate is within
    /// the tolerance of `target`. The amounts of the resting orders play no
    /// part in the search, and a rate behind the first match is not read.
    pub fn search(&self, book: &Vec<RawOrder>, target: &Price) -> (r: SearchOutcome)
        ensures
            r == search_book(book@, target@, self.epsilon()),
    {
        let target_value = target.value();
        let mut i: usize = 0;
        while i < book.len()
            invariant
                i <= book.len(),
                target_value@ == target@,
                search_book(book@, target@, self.epsilon()) == search_from(
                    book@,
                    target@,
                    self.epsilon(),
                    i as int,
                ),
            decreases book.len() - i,
        {
            match parse_decimal(book[i].rate.as_str()) {
                None => {
                    return SearchOutcome::Malformed;
                },
                Some(rate) => {
                    if rate.within(&target_value, &self.epsilon) {
                        return SearchOutcome::Found(i);
                    }
                },
            }
            i = i + 1;
        }
        SearchOutcome::NotFound
    }

    /// Whether `step` is the engine's answer to the caller's order `order`:
    /// a failure where the order's amount cannot be converted, else the
    /// request for the book for a market order, and the request to place the
    /// converted order for a limit order.
    pub open spec fn is_first_step(self, order: AbstractOrder, step: TraderStep) -> bool {
        let pair = order.trading_pair;
        let rate = normalize_price(pair.side, pair.target, order.price@);
        let amount = normalize_amount(pair.side, pair.target, order.price@, order.amount@);
        if !representable(amount) {
            step == (TraderStep::Failed { error: Error::ConversionError, order })
        } else {
            match pair.target {
                Target::Market => {
                    &&& step matches TraderStep::Continue {
                        state: TraderState::FetchBook { order: o, rate: r, amount: a },
                        request: VenueRequest::GetAllOrders { pair: p, limit },
                    }
                    &&& o == order
                    &&& r@ == rate
                    &&& a@ == amount
                    &&& p == venue_pair(pair)
                    &&& limit == self.book_limit()
                },
                Target::Limit => {
                    &&& step matches TraderStep::Continue {
                        state: TraderState::Rest { order: o },
                        request: VenueRequest::CreateOrder { pair: p, amount: a, price: r },
                    }
                    &&& o == order
                    &&& r@ == rate
                    &&& a@ == amount
                    &&& p == venue_pair(pair)
                },
            }
        }
    }

    /// Starts a trade: converts the caller's order to the venue's side and
    /// says what to ask the venue first.
    pub fn create_order(&self, order: AbstractOrder) -> (step: TraderStep)
        ensures
            self.is_first_step(order, step),
    {
        let converted = match Order::from_order(&order) {
            Ok(converted) => converted,
            Err(_) => {
                return TraderStep::Failed { error: Error::ConversionError, order };
            },
        };
        match order.trading_pair.target {
            Target::Market => TraderStep::Continue {
                state: TraderState::FetchBook {
                    order,
                    rate: converted.rate,
                    amount: converted.amount,
                },
                request: VenueRequest::GetAllOrders {
                    pair: converted.pair,
                    limit: self.book_limit,
                },
            },
            Target::Limit => TraderStep::Continue {
                state: TraderState::Rest { order },
                request: VenueRequest::CreateOrder {
                    pair: converted.pair,
                    amount: converted.amount,
                    price: converted.rate,
                },
            },
        }
    }

    /// Whether `step` is the engine's answer to the book `book`, for the
    /// order `order` whose converted rate and amount are `rate` and
    /// `amount`: the trade against the first match, at the converted rate
    /// and amount, or the failure of the search.
    pub open spec fn is_search_step(
        self,
        order: AbstractOrder,
        rate: Price,
        amount: Amount,
        book: Seq<RawOrder>,
        step: TraderStep,
    ) -> bool {
        match search_book(book, rate@, self.epsilon()) {
            SearchOutcome::Found(i) => step == (TraderStep::Continue {
                state: TraderState::Execute { order },
                request: VenueRequest::CreateTradeForOrder {
                    order_id: book[i as int].id,
                    amount,
                    rate,
                },
            }),
            SearchOutcome::NotFound => step == (TraderStep::Failed {
                error: Error::OrderNotFound(Some(order)),
                order,
            }),
            SearchOutcome::Malformed => step == (TraderStep::Failed {
                error: Error::MalformedVenueResponse,
                order,
            }),
        }
    }

    /// Whether `step` is the engine's answer to the venue's report of a
    /// fill: the executed trade in the caller's vocabulary, under the fill's
    /// id, or the failure of the conversion.
    pub open spec fn is_fill_step(
        order: AbstractOrder,
        id: u32,
        rate: Seq<char>,
        amount: Seq<char>,
        step: TraderStep,
    ) -> bool {
        let pair = order.trading_pair;
        match conversion_error(pair, rate, amount) {
            Some(error) => step == (TraderStep::Failed { error, order }),
            None => {
                &&& step matches TraderStep::Done(Trade::Market(result))
                &&& result.id == id
                &&& result.trading_pair == pair
                &&& result.price@ == normalize_price(pair.side, pair.target, decimal_value(rate))
                &&& result.amount@ == normalize_amount(
                    pair.side,
                    pair.target,
                    decimal_value(rate),
                    decimal_value(amount),
                )
            },
        }
    }

    /// Whether `step` is the engine's answer to the venue's report of a
    /// placed order: the resting order in the caller's vocabulary, under the
    /// venue's id, or the failure of the conversion.
    pub open spec fn is_placement_step(order: AbstractOrder, raw: RawOrder, step: TraderStep)
        -> bool {
        let pair = order.trading_pair;
        match conversion_error(pair, raw.rate@, raw.amount@) {
            Some(error) => step == (TraderStep::Failed { error, order }),
            None => {
                &&& step matches TraderStep::Done(Trade::Limit(placed))
                &&& placed.id == raw.id
                &&& placed.trading_pair == pair
                &&& placed.price@ == normalize_price(
                    pair.side,
                    pair.target,
                    decimal_value(raw.rate@),
                )
                &&& placed.amount@ == normalize_amount(
                    pair.side,
                    pair.target,
                    decimal_value(raw.rate@),
                    decimal_value(raw.amount@),
                )
            },
        }
    }

    /// The order that a trade under way is for.
    pub open spec fn order_of(state: TraderState) -> AbstractOrder {
        match state {
            TraderState::FetchBook { order, .. } => order,
            TraderState::Execute { order } => order,
            TraderState::Rest { order } => order,
        }
    }

    /// Whether `step` is the engine's answer to the venue's answer `reply`
    /// in the state `state`. A failure of the venue fails the trade with the
    /// venue's text. An answer of another shape than the one that the state
    /// waits for fails it as a malformed response.
    pub open spec fn is_next_step(self, state: TraderState, reply: VenueReply, step: TraderStep)
        -> bool {
        match (state, reply) {
            (_, VenueReply::Failure(text)) => step == (TraderStep::Failed {
                error: Error::VenueError(text),
                order: Self::order_of(state),
            }),
            (TraderState::FetchBook { order, rate, amount }, VenueReply::Orders(book)) => {
                self.is_search_step(order, rate, amount, book@, step)
            },
            (TraderState::Execute { order }, VenueReply::Trade(trade)) => Self::is_fill_step(
                order,
                trade.id,
                trade.order.rate@,
                trade.amount@,
                step,
            ),
            (TraderState::Rest { order }, VenueReply::Order(raw)) => Self::is_placement_step(
                order,
                raw,
                step,
            ),
            _ => step == (TraderStep::Failed {
                error: Error::MalformedVenueResponse,
                order: Self::order_of(state),
            }),
        }
    }

    /// Takes a trade one step on: from the state it was in and the venue's
    /// answer to the request that led there.
    pub fn step(&self, state: TraderState, reply: VenueReply) -> (step: TraderStep)
        ensures
            self.is_next_step(state, reply, step),
    {
        match (state, reply) {
            (state, VenueReply::Failure(text)) => {
                let order = match state {
                    TraderState::FetchBook { order, .. } => order,
                    TraderState::Execute { order } => order,
                    TraderState::Rest { order } => order,
                };
                TraderStep::Failed { error: Error::VenueError(text), order }
            },
            (TraderState::FetchBook { order, rate, amount }, VenueReply::Orders(book)) => {
                match self.search(&book, &rate) {
                    SearchOutcome::Found(i) => {
                        proof {
                            lemma_search_from(book@, rate@, self.epsilon(), 0);
                        }
                        TraderStep::Continue {
                            state: TraderState::Execute { order },
                            request: VenueRequest::CreateTradeForOrder {
                                order_id: book[i].id,
                                amount,
                                rate,
                            },
                        }
                    },
                    SearchOutcome::NotFound => TraderStep::Failed {
                        error: Error::OrderNotFound(Some(order)),
                        order,
                    },
                    SearchOutcome::Malformed => TraderStep::Failed {
                        error: Error::MalformedVenueResponse,
                        order,
                    },
                }
            },
            (TraderState::Execute { order }, VenueReply::Trade(trade)) => {
                let id = trade.id;
                match Order::from_trade(&order.trading_pair, trade) {
                    Ok(filled) => TraderStep::Done(
                        Trade::Market(
                            TradeResult {
                                id,
                                trading_pair: order.trading_pair,
                                price: filled.rate,
                                amount: filled.amount,
                            },
                        ),
                    ),
                    Err(error) => TraderStep::Failed { error, order },
                }
            },
            (TraderState::Rest { order }, VenueReply::Order(raw)) => {
                match Order::from_raw(&order.trading_pair, &raw) {
                    Ok(placed) => TraderStep::Done(
                        Trade::Limit(
                            OrderWithId {
                                id: raw.id,
                                trading_pair: order.trading_pair,
                                price: placed.rate,
                                amount: placed.amount,
                            },
                        ),
                    ),
                    Err(error) => TraderStep::Failed { error, order },
                }
            },
            (TraderState::FetchBook { order, .. }, _) => TraderStep::Failed {
                error: Error::MalformedVenueResponse,
                order,
            },
            (TraderState::Execute { order }, _) => TraderStep::Failed {
                error: Error::MalformedVenueResponse,
                order,
            },
            (TraderState::Rest { order }, _) => TraderStep::Failed {
                error: Error::MalformedVenueResponse,
                order,
            },
        }
    }

    /// What the venue's answer to a removal means: the venue's
    /// acknowledgement is success, and its failure is passed on with its text.
    pub fn delete_order(&self, reply: Result<RawOrder, String>) -> (r: Result<(), Error>)
        ensures
            reply is Ok ==> r == Ok::<(), Error>(()),
            reply matches Err(text) ==> r == Err::<(), Error>(Error::VenueError(text)),
    {
        match reply {
            Ok(_) => Ok(()),
            Err(text) => Err(Error::VenueError(text)),
        }
    }
}

} // verus!
