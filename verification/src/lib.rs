//! The normalisation and execution layer between an exchange-agnostic
//! trading vocabulary and one venue, which keeps a single book per pair of
//! assets and quotes prices and amounts in that book's direction.
//!
//! The library decides and computes; it performs no I/O. Its caller sends
//! the requests that the library names and hands the venue's answers back.
//! Prices and amounts are exact fractions.

pub mod accountant;
pub mod coin;
pub mod converter;
pub mod decimal;
pub mod error;
pub mod gcd;
pub mod merchant;
pub mod order;
pub mod price;
pub mod ratio;
pub mod sniffer;
pub mod trade;
pub mod trader;
pub mod trading_pair;
pub mod venue;

pub use converter::TradingPairConverter;
