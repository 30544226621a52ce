//! The exchange-agnostic vocabulary in which a caller states a trade.

use vstd::prelude::*;
use vstd::string::*;

verus! {

/// The assets that the abstract model knows.
#[derive(Clone, Copy, Debug, PartialEq, Eq, Structural)]
pub enum Coin {
    TON,
    USDT,
}

/// An abstract trading relationship between two assets, base first.
#[derive(Clone, Copy, Debug, PartialEq, Eq, Structural)]
pub enum Coins {
    TonUsdt,
}

/// What the caller wants to do with the base asset of the pair.
#[derive(Clone, Copy, Debug, PartialEq, Eq, Structural)]
pub enum Side {
    Buy,
    Sell,
}

/// Whether a trade is to execute against resting liquidity at once
/// (`Market`) or to rest in the book (`Limit`).
#[derive(Clone, Copy, Debug, PartialEq, Eq, Structural)]
pub enum Target {
    Market,
    Limit,
}

/// The full description of a trade's direction.
#[derive(Clone, Copy, Debug, PartialEq, Eq, Structural)]
pub struct TradingPair {
    pub coins: Coins,
    pub side: Side,
    pub target: Target,
}

/// Whether the venue's book for this side and target is the one of the
/// reversed pair, quoted in reciprocal prices. This table is the one rule
/// that the pair conversion and the price conversion both follow.
pub open spec fn is_reversed(target: Target, side: Side) -> bool {
    match (target, side) {
        (Target::Market, Side::Buy) => false,
        (Target::Market, Side::Sell) => true,
        (Target::Limit, Side::Buy) => true,
        (Target::Limit, Side::Sell) => false,
    }
}

/// Computes `is_reversed`.
pub fn reversed(target: Target, side: Side) -> (b: bool)
    ensures
        b == is_reversed(target, side),
{
    match (target, side) {
        (Target::Market, Side::Buy) => false,
        (Target::Market, Side::Sell) => true,
        (Target::Limit, Side::Buy) => true,
        (Target::Limit, Side::Sell) => false,
    }
}

/// Of the four combinations of side and target, two are reversed: changing
/// the side alone, or the target alone, changes the answer.
pub proof fn lemma_reversal_is_symmetric(target: Target, side: Side)
    ensures
        is_reversed(target, Side::Buy) != is_reversed(target, Side::Sell),
        is_reversed(Target::Market, side) != is_reversed(Target::Limit, side),
{
}

impl TradingPair {
    /// The trading pair in words: the side, the target and the two assets.
    pub open spec fn spec_describe(self) -> Seq<char> {
        (match self.side {
            Side::Buy => "Buy"@,
            Side::Sell => "Sell"@,
        }) + (match self.target {
            Target::Market => " Market "@,
            Target::Limit => " Limit "@,
        }) + (match self.coins {
            Coins::TonUsdt => "TON/USDT"@,
        })
    }

    /// The trading pair in words: the side, the target and the two assets.
    pub fn describe(&self) -> (s: String)
        ensures
            s@ == self.spec_describe(),
    {
        let mut s = match self.side {
            Side::Buy => String::from_str("Buy"),
            Side::Sell => String::from_str("Sell"),
        };
        match self.target {
            Target::Market => s.append(" Market "),
            Target::Limit => s.append(" Limit "),
        }
        match self.coins {
            Coins::TonUsdt => s.append("TON/USDT"),
        }
        s
    }
}

} // verus!
