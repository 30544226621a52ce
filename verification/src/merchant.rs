//! The three roles of a venue, under one roof.

use vstd::prelude::*;
use crate::accountant::ChatexAccountant;
use crate::ratio::ratio_value;
use crate::sniffer::ChatexSniffer;
use crate::trader::ChatexTrader;

verus! {

/// The number under which this venue is known among merchants.
pub const MERCHANT_ID: u8 = 1;

/// One venue's accountant, sniffer and trader.
#[derive(Clone, Copy, Debug)]
pub struct ChatexMerchant {
    pub accountant: ChatexAccountant,
    pub sniffer: ChatexSniffer,
    pub trader: ChatexTrader,
}

impl ChatexMerchant {
    /// A merchant whose three roles have their usual settings.
    pub fn new() -> (merchant: ChatexMerchant)
        ensures
            merchant.accountant.price_epsilon() == ratio_value(1, 10_000),
            merchant.trader.epsilon() == ratio_value(1, 20_000),
            merchant.trader.book_limit() == 30,
    {
        ChatexMerchant {
            accountant: ChatexAccountant::new(),
            sniffer: ChatexSniffer::new(),
            trader: ChatexTrader::new(),
        }
    }

    /// The number under which this venue is known among merchants.
    pub fn id(&self) -> (id: u8)
        ensures
            id == MERCHANT_ID,
    {
        MERCHANT_ID
    }

    pub fn accountant(&self) -> (accountant: ChatexAccountant)
        ensures
            accountant == self.accountant,
    {
        self.accountant
    }

    pub fn trader(&self) -> (trader: ChatexTrader)
        ensures
            trader == self.trader,
    {
        self.trader
    }

    pub fn sniffer(&self) -> (sniffer: ChatexSniffer)
        ensures
            sniffer == self.sniffer,
    {
        self.sniffer
    }
}

} // verus!
