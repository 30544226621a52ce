//! The venue's own asset identifiers and its ordered pairs.

use vstd::prelude::*;
use vstd::string::*;

verus! {

/// An asset as the venue names it. `Unknown` keeps the venue's symbol of an
/// asset that the abstract model does not know, as it was received;
/// `from_symbol` puts no symbol of a known asset there.
#[derive(Clone, Debug, PartialEq, Eq)]
pub enum VenueCoin {
    TON,
    USDT,
    Unknown(String),
}

/// The symbol under which the venue lists the asset.
pub open spec fn symbol_of(coin: VenueCoin) -> Seq<char> {
    match coin {
        VenueCoin::TON => "TON"@,
        VenueCoin::USDT => "USDT"@,
        VenueCoin::Unknown(raw) => raw@,
    }
}

/// Whether `coin` is the asset that the venue lists under `symbol`.
pub open spec fn is_coin_of_symbol(symbol: Seq<char>, coin: VenueCoin) -> bool {
    if symbol == "TON"@ {
        coin == VenueCoin::TON
    } else if symbol == "USDT"@ {
        coin == VenueCoin::USDT
    } else {
        coin matches VenueCoin::Unknown(raw) && raw@ == symbol
    }
}

impl VenueCoin {
    /// The symbol under which the venue lists the asset.
    pub fn symbol(&self) -> (s: String)
        ensures
            s@ == symbol_of(*self),
    {
        match self {
            VenueCoin::TON => String::from_str("TON"),
            VenueCoin::USDT => String::from_str("USDT"),
            VenueCoin::Unknown(raw) => raw.clone(),
        }
    }

    /// Reads a symbol of the venue. A symbol that names no known asset is
    /// kept, unchanged, in `Unknown`.
    pub fn from_symbol(symbol: &str) -> (coin: VenueCoin)
        ensures
            is_coin_of_symbol(symbol@, coin),
            symbol_of(coin) == symbol@,
    {
        let owned = String::from_str(symbol);
        if owned == String::from_str("TON") {
            VenueCoin::TON
        } else if owned == String::from_str("USDT") {
            VenueCoin::USDT
        } else {
            VenueCoin::Unknown(owned)
        }
    }

    /// A copy of the asset identifier.
    pub fn duplicate(&self) -> (coin: VenueCoin)
        ensures
            coin == *self,
    {
        match self {
            VenueCoin::TON => VenueCoin::TON,
            VenueCoin::USDT => VenueCoin::USDT,
            VenueCoin::Unknown(raw) => VenueCoin::Unknown(raw.clone()),
        }
    }
}

/// An ordered pair of venue assets: the book in which `base` is priced in
/// `quote`.
#[derive(Clone, Debug, PartialEq, Eq)]
pub struct CoinPair {
    pub base: VenueCoin,
    pub quote: VenueCoin,
}

impl CoinPair {
    pub fn new(base: VenueCoin, quote: VenueCoin) -> (pair: CoinPair)
        ensures
            pair == (CoinPair { base, quote }),
    {
        CoinPair { base, quote }
    }

    /// The same two assets in the other order.
    pub open spec fn spec_reversed(self) -> CoinPair {
        CoinPair { base: self.quote, quote: self.base }
    }

    /// The same two assets in the other order.
    pub fn reversed(self) -> (pair: CoinPair)
        ensures
            pair == self.spec_reversed(),
    {
        CoinPair { base: self.quote, quote: self.base }
    }

    /// The name of the pair: the two symbols with a slash between them.
    pub open spec fn spec_name(self) -> Seq<char> {
        symbol_of(self.base) + "/"@ + symbol_of(self.quote)
    }

    /// The name of the pair: the two symbols with a slash between them.
    pub fn name(&self) -> (s: String)
        ensures
            s@ == self.spec_name(),
    {
        let mut s = self.base.symbol();
        s.append("/");
        let quote = self.quote.symbol();
        s.append(quote.as_str());
        s
    }

    /// A copy of the pair.
    pub fn duplicate(&self) -> (pair: CoinPair)
        ensures
            pair == *self,
    {
        CoinPair { base: self.base.duplicate(), quote: self.quote.duplicate() }
    }
}

/// Reversing a pair twice gives the pair back.
pub proof fn lemma_reversed_twice(pair: CoinPair)
    ensures
        pair.spec_reversed().spec_reversed() == pair,
{
}

} // verus!
