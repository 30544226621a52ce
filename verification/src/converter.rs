//! The direction converter: from the abstract trading pair to the venue's
//! ordered pair, and between abstract and venue assets.

use vstd::prelude::*;
use crate::coin::{CoinPair, VenueCoin};
use crate::price::{normalize_amount, normalize_price};
use crate::trading_pair::{is_reversed, reversed, Coin, Coins, TradingPair};

verus! {

/// The order in which the venue itself lists the assets of `coins`.
pub open spec fn direct_pair(coins: Coins) -> CoinPair {
    match coins {
        Coins::TonUsdt => CoinPair { base: VenueCoin::TON, quote: VenueCoin::USDT },
    }
}

/// The venue's pair for a trading pair: the direct pair, reversed where
/// `is_reversed` says so.
pub open spec fn venue_pair(trading_pair: TradingPair) -> CoinPair {
    if is_reversed(trading_pair.target, trading_pair.side) {
        direct_pair(trading_pair.coins).spec_reversed()
    } else {
        direct_pair(trading_pair.coins)
    }
}

/// The venue's asset for an abstract asset.
pub open spec fn venue_coin(coin: Coin) -> VenueCoin {
    match coin {
        Coin::TON => VenueCoin::TON,
        Coin::USDT => VenueCoin::USDT,
    }
}

/// The abstract asset for a venue's asset, where there is one.
pub open spec fn agnostic_coin(coin: VenueCoin) -> Option<Coin> {
    match coin {
        VenueCoin::TON => Some(Coin::TON),
        VenueCoin::USDT => Some(Coin::USDT),
        VenueCoin::Unknown(_) => None,
    }
}

/// Converts between the abstract vocabulary and the venue's. It holds no
/// state.
#[derive(Clone, Copy, Debug)]
pub struct TradingPairConverter {}

impl Default for TradingPairConverter {
    fn default() -> (converter: TradingPairConverter)
        ensures
            converter == (TradingPairConverter {  }),
    {
        TradingPairConverter {  }
    }
}

impl TradingPairConverter {
    /// The name of the venue's pair for `trading_pair`.
    pub fn to_string(&self, trading_pair: TradingPair) -> (s: String)
        ensures
            s@ == venue_pair(trading_pair).spec_name(),
    {
        self.to_pair(trading_pair).name()
    }

    /// The venue's pair for `trading_pair`.
    pub fn to_pair(&self, trading_pair: TradingPair) -> (pair: CoinPair)
        ensures
            pair == venue_pair(trading_pair),
    {
        let direct = match trading_pair.coins {
            Coins::TonUsdt => CoinPair::new(VenueCoin::TON, VenueCoin::USDT),
        };
        if reversed(trading_pair.target, trading_pair.side) {
            direct.reversed()
        } else {
            direct
        }
    }

    /// The venue's asset for an abstract asset.
    pub fn from_agnostic_coin(&self, coin: Coin) -> (r: VenueCoin)
        ensures
            r == venue_coin(coin),
    {
        match coin {
            Coin::TON => VenueCoin::TON,
            Coin::USDT => VenueCoin::USDT,
        }
    }

    /// The abstract asset for a venue's asset; `None` for an asset that the
    /// abstract model does not know.
    pub fn to_agnostic_coin(&self, coin: VenueCoin) -> (r: Option<Coin>)
        ensures
            r == agnostic_coin(coin),
    {
        match coin {
            VenueCoin::USDT => Some(Coin::USDT),
            VenueCoin::TON => Some(Coin::TON),
            _other => None,
        }
    }
}

/// The pair conversion and the price conversion agree: the venue's pair is
/// the reversed one exactly where the price is converted to its reciprocal
/// and the amount to the other asset.
pub proof fn lemma_pair_and_price_agree(trading_pair: TradingPair, price: real, amount: real)
    ensures
        venue_pair(trading_pair) == direct_pair(trading_pair.coins).spec_reversed() <==> is_reversed(
            trading_pair.target,
            trading_pair.side,
        ),
        is_reversed(trading_pair.target, trading_pair.side) ==> normalize_price(
            trading_pair.side,
            trading_pair.target,
            price,
        ) == 1real / price && normalize_amount(
            trading_pair.side,
            trading_pair.target,
            price,
            amount,
        ) == amount * price,
        !is_reversed(trading_pair.target, trading_pair.side) ==> normalize_price(
            trading_pair.side,
            trading_pair.target,
            price,
        ) == price && normalize_amount(trading_pair.side, trading_pair.target, price, amount)
            == amount,
{
}

/// An abstract asset, taken to the venue and back, is the same asset.
pub proof fn lemma_coin_round_trip(coin: Coin)
    ensures
        agnostic_coin(venue_coin(coin)) == Some(coin),
{
}

/// A venue's asset that has an abstract counterpart is the venue's asset
/// for that counterpart.
pub proof fn lemma_venue_coin_round_trip(coin: VenueCoin)
    ensures
        agnostic_coin(coin) matches Some(c) ==> venue_coin(c) == coin,
{
}

/// The two opposite directions of a trade, on the same target, are served by
/// the two orders of the same pair of assets.
pub proof fn lemma_opposite_sides_reverse(trading_pair: TradingPair, other: TradingPair)
    requires
        other.coins == trading_pair.coins,
        other.target == trading_pair.target,
        other.side != trading_pair.side,
    ensures
        venue_pair(other) == venue_pair(trading_pair).spec_reversed(),
{
}

} // verus!
