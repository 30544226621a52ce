//! Reading the venue's balance summary: which of its lines stand for the
//! assets that the caller asks about.

use vstd::prelude::*;
use vstd::string::*;
use crate::coin::symbol_of;
use crate::converter::{venue_coin, TradingPairConverter};
use crate::decimal::{decimal_value, is_readable, parse_decimal};
use crate::error::Error;
use crate::ratio::{ratio_value, representable, Ratio};
use crate::trading_pair::{Coin, TradingPair};
use crate::venue::RawCurrency;

verus! {

/// The balance of one asset: what is free and what is held by resting
/// orders. Either may be zero.
#[derive(Clone, Copy, Debug, PartialEq, Eq)]
pub struct Currency {
    pub coin: Coin,
    pub amount: Ratio,
    pub held: Ratio,
}

/// Whether a line of the summary is the line of `coin`.
pub open spec fn is_line_of(entry: RawCurrency, coin: Coin) -> bool {
    entry.coin@ == symbol_of(venue_coin(coin))
}

/// Whether both numeric fields of a line are text that `parse_decimal` reads.
pub open spec fn is_balance_line(entry: RawCurrency) -> bool {
    is_readable(entry.amount@) && is_readable(entry.held@)
}

/// Whether `currency` is the balance of `coin` that the line `entry` states.
pub open spec fn is_currency_of(currency: Currency, coin: Coin, entry: RawCurrency) -> bool {
    &&& currency.coin == coin
    &&& currency.amount@ == decimal_value(entry.amount@)
    &&& currency.held@ == decimal_value(entry.held@)
}

/// The lines of the summary that are the line of `left` or of `right`, in
/// the venue's order.
pub open spec fn wanted_lines(balance: Seq<RawCurrency>, left: Coin, right: Coin) -> Seq<
    RawCurrency,
> {
    balance.filter(|entry: RawCurrency| is_line_of(entry, left) || is_line_of(entry, right))
}

/// The asset, of `left` and `right`, that a wanted line is the line of.
pub open spec fn coin_of_line(entry: RawCurrency, left: Coin, right: Coin) -> Coin {
    if is_line_of(entry, left) {
        left
    } else {
        right
    }
}

/// Whether `i` is the first line of `coin` in the summary.
pub open spec fn is_first_line_of(balance: Seq<RawCurrency>, coin: Coin, i: int) -> bool {
    &&& 0 <= i < balance.len()
    &&& is_line_of(balance[i], coin)
    &&& forall|j: int| 0 <= j < i ==> !is_line_of(#[trigger] balance[j], coin)
}

/// Filtering a sequence with one more element at its end.
proof fn lemma_filter_push(
    s: Seq<RawCurrency>,
    entry: RawCurrency,
    pred: spec_fn(RawCurrency) -> bool,
)
    ensures
        s.push(entry).filter(pred) == if pred(entry) {
            s.filter(pred).push(entry)
        } else {
            s.filter(pred)
        },
{
    reveal(Seq::filter);
    assert(s.push(entry).drop_last() =~= s);
}

/// Reads one line of the summary as the balance of `coin`.
fn read_line(coin: Coin, entry: &RawCurrency) -> (r: Option<Currency>)
    ensures
        r is Some <==> is_balance_line(*entry),
        r matches Some(c) ==> is_currency_of(c, coin, *entry),
{
    let amount = match parse_decimal(entry.amount.as_str()) {
        Some(amount) => amount,
        None => return None,
    };
    let held = match parse_decimal(entry.held.as_str()) {
        Some(held) => held,
        None => return None,
    };
    Some(Currency { coin, amount, held })
}

/// Reads the venue's balance summary. It holds the tolerance by which a
/// price is moved to the nearest other price.
#[derive(Clone, Copy, Debug)]
pub struct ChatexAccountant {
    price_epsilon: Ratio,
}

impl ChatexAccountant {
    /// The step between a price and the nearest price below it.
    pub closed spec fn price_epsilon(self) -> real {
        self.price_epsilon@
    }

    /// An accountant with a price step of one ten-thousandth.
    pub fn new() -> (accountant: ChatexAccountant)
        ensures
            accountant.price_epsilon() == ratio_value(1, 10_000),
    {
        ChatexAccountant { price_epsilon: Ratio::fraction(1, 10_000) }
    }

    /// The step between a price and the nearest price below it.
    pub fn price_step(&self) -> (r: Ratio)
        ensures
            r@ == self.price_epsilon(),
    {
        self.price_epsilon
    }

    /// The balance of `coin`, from the venue's balance summary `reply`: the
    /// first line of the summary that is the line of `coin`. A failure of
    /// the venue is passed on with its text; a summary without a line of
    /// `coin` is a conversion error; a line whose numbers cannot be read is a
    /// malformed response.
    pub fn ask(&self, coin: Coin, reply: Result<Vec<RawCurrency>, String>) -> (r: Result<
        Currency,
        Error,
    >)
        ensures
            reply matches Err(text) ==> r == Err::<Currency, Error>(Error::VenueError(text)),
            reply matches Ok(balance) ==> {
                &&& (forall|i: int|
                    0 <= i < balance.len() ==> !is_line_of(#[trigger] balance[i], coin)) ==> r
                    == Err::<Currency, Error>(Error::ConversionError)
                &&& forall|i: int|
                    is_first_line_of(balance@, coin, i) && is_balance_line(balance[i]) ==> r is Ok
                        && is_currency_of(r->Ok_0, coin, balance[i])
                &&& forall|i: int|
                    is_first_line_of(balance@, coin, i) && !is_balance_line(balance[i]) ==> r
                        == Err::<Currency, Error>(Error::MalformedVenueResponse)
            },
    {
        let balance = match reply {
            Ok(balance) => balance,
            Err(text) => return Err(Error::VenueError(text)),
        };
        let converter = TradingPairConverter::default();
        let symbol = converter.from_agnostic_coin(coin).symbol();
        let mut i: usize = 0;
        while i < balance.len()
            invariant
                i <= balance.len(),
                reply == Ok::<Vec<RawCurrency>, String>(balance),
                symbol@ == symbol_of(venue_coin(coin)),
                forall|j: int| 0 <= j < i ==> !is_line_of(#[trigger] balance[j], coin),
            decreases balance.len() - i,
        {
            if balance[i].coin == symbol {
                assert(is_first_line_of(balance@, coin, i as int));
                assert forall|k: int| is_first_line_of(balance@, coin, k) implies k == i by {
                    if k < i {
                        assert(!is_line_of(balance[k], coin));
                    } else if k > i {
                        assert(!is_line_of(balance[i as int], coin));
                    }
                }
                assert(is_line_of(reply->Ok_0[i as int], coin));
                return match read_line(coin, &balance[i]) {
                    Some(currency) => Ok(currency),
                    None => Err(Error::MalformedVenueResponse),
                };
            }
            i = i + 1;
        }
        Err(Error::ConversionError)
    }

    /// The balances of `left` and of `right`, in that order, from the
    /// venue's balance summary `reply`. The summary must hold two lines for
    /// the two assets, no more and no fewer; else it is a conversion error. A
    /// wanted line whose numbers cannot be read is a malformed response. A
    /// failure of the venue is passed on with its text.
    pub fn ask_both(&self, left: Coin, right: Coin, reply: Result<Vec<RawCurrency>, String>) -> (r:
        Result<(Currency, Currency), Error>)
        ensures
            reply matches Err(text) ==> r == Err::<(Currency, Currency), Error>(
                Error::VenueError(text),
            ),
            reply matches Ok(balance) ==> {
                let lines = wanted_lines(balance@, left, right);
                if exists|i: int| 0 <= i < lines.len() && !is_balance_line(#[trigger] lines[i]) {
                    r == Err::<(Currency, Currency), Error>(Error::MalformedVenueResponse)
                } else if lines.len() != 2 {
                    r == Err::<(Currency, Currency), Error>(Error::ConversionError)
                } else if coin_of_line(lines[0], left, right) == left {
                    &&& r is Ok
                    &&& is_currency_of(r->Ok_0.0, left, lines[0])
                    &&& is_currency_of(r->Ok_0.1, coin_of_line(lines[1], left, right), lines[1])
                } else {
                    &&& r is Ok
                    &&& is_currency_of(r->Ok_0.0, coin_of_line(lines[1], left, right), lines[1])
                    &&& is_currency_of(r->Ok_0.1, coin_of_line(lines[0], left, right), lines[0])
                }
            },
    {
        let balance = match reply {
            Ok(balance) => balance,
            Err(text) => return Err(Error::VenueError(text)),
        };
        let converter = TradingPairConverter::default();
        let left_symbol = converter.from_agnostic_coin(left).symbol();
        let right_symbol = converter.from_agnostic_coin(right).symbol();
        let ghost wanted = |entry: RawCurrency| is_line_of(entry, left) || is_line_of(entry, right);
        let ghost lines = wanted_lines(balance@, left, right);
        let mut currencies: Vec<Currency> = Vec::new();
        let mut i: usize = 0;
        while i < balance.len()
            invariant
                i <= balance.len(),
                reply == Ok::<Vec<RawCurrency>, String>(balance),
                left_symbol@ == symbol_of(venue_coin(left)),
                right_symbol@ == symbol_of(venue_coin(right)),
                wanted == |entry: RawCurrency| is_line_of(entry, left) || is_line_of(entry, right),
                lines == balance@.filter(wanted),
                currencies.len() == balance@.take(i as int).filter(wanted).len(),
                forall|k: int|
                    0 <= k < currencies.len() ==> is_balance_line(
                        #[trigger] balance@.take(i as int).filter(wanted)[k],
                    ) && is_currency_of(
                        currencies[k],
                        coin_of_line(balance@.take(i as int).filter(wanted)[k], left, right),
                        balance@.take(i as int).filter(wanted)[k],
                    ),
            decreases balance.len() - i,
        {
            let entry = &balance[i];
            let ghost before = balance@.take(i as int);
            let ghost after = balance@.take(i + 1);
            let ghost rest = balance@.skip(i + 1);
            proof {
                assert(after =~= before.push(*entry));
                assert(balance@ =~= after + rest);
                lemma_filter_push(before, *entry, wanted);
                Seq::filter_distributes_over_add(after, rest, wanted);
            }
            let is_left = entry.coin == left_symbol;
            if is_left || entry.coin == right_symbol {
                assert(wanted(*entry));
                assert(after.filter(wanted) =~= before.filter(wanted).push(*entry));
                let coin = if is_left {
                    left
                } else {
                    right
                };
                match read_line(coin, entry) {
                    Some(currency) => {
                        currencies.push(currency);
                    },
                    None => {
                        proof {
                            let k = before.filter(wanted).len() as int;
                            assert(lines[k] == *entry);
                            assert(0 <= k < lines.len() && !is_balance_line(lines[k]));
                        }
                        return Err(Error::MalformedVenueResponse);
                    },
                }
            } else {
                assert(!wanted(*entry));
                assert(after.filter(wanted) =~= before.filter(wanted));
            }
            i = i + 1;
        }
        assert(balance@.take(i as int) =~= balance@);
        if currencies.len() == 2 {
            let first = currencies[0];
            let second = currencies[1];
            assert(is_balance_line(lines[0]) && is_balance_line(lines[1]));
            if first.coin == left {
                Ok((first, second))
            } else {
                Ok((second, first))
            }
        } else {
            Err(Error::ConversionError)
        }
    }

    /// The volume of a trade: the price times the amount. `None` where the
    /// product cannot be written as a fraction of two 64-bit numbers.
    pub fn calculate_volume(&self, _trading_pair: TradingPair, price: &Ratio, amount: &Ratio) -> (r:
        Option<Ratio>)
        ensures
            r is Some <==> representable(price@ * amount@),
            r matches Some(volume) ==> volume@ == price@ * amount@,
    {
        price.checked_mul(amount)
    }

    /// The nearest price below `price`: the price less the price step.
    /// `None` where that would be below zero, or cannot be written as a
    /// fraction of two 64-bit numbers.
    pub fn nearest_price(&self, _trading_pair: TradingPair, price: &Ratio) -> (r: Option<Ratio>)
        ensures
            r is Some <==> price@ >= self.price_epsilon() && representable(
                price@ - self.price_epsilon(),
            ),
            r matches Some(nearest) ==> nearest@ == price@ - self.price_epsilon(),
    {
        price.checked_sub(&self.price_epsilon)
    }
}

} // verus!
