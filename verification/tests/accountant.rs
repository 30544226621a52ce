use chatex_merchant::accountant::{ChatexAccountant, Currency};
use chatex_merchant::error::Error;
use chatex_merchant::ratio::Ratio;
use chatex_merchant::trading_pair::{Coin, Coins, Side, Target, TradingPair};
use chatex_merchant::venue::RawCurrency;

fn ratio(num: u64, den: u64) -> Ratio {
    Ratio::new(num, den).expect("denominator is not zero")
}

fn line(coin: &str, amount: &str, held: &str) -> RawCurrency {
    RawCurrency { coin: coin.to_string(), amount: amount.to_string(), held: held.to_string() }
}

fn summary() -> Vec<RawCurrency> {
    vec![
        line("BTC", "0.1", "0"),
        line("USDT", "100.5", "10"),
        line("ETH", "bad", "bad"),
        line("TON", "7", "0.25"),
    ]
}

fn pair() -> TradingPair {
    TradingPair { coins: Coins::TonUsdt, side: Side::Buy, target: Target::Market }
}

fn ton() -> Currency {
    Currency { coin: Coin::TON, amount: ratio(7, 1), held: ratio(1, 4) }
}

fn usdt() -> Currency {
    Currency { coin: Coin::USDT, amount: ratio(201, 2), held: ratio(10, 1) }
}

#[test]
fn ask_finds_the_line_of_the_coin() {
    let accountant = ChatexAccountant::new();
    assert_eq!(accountant.ask(Coin::TON, Ok(summary())), Ok(ton()));
    assert_eq!(accountant.ask(Coin::USDT, Ok(summary())), Ok(usdt()));
}

#[test]
fn ask_takes_the_first_line_of_the_coin() {
    let accountant = ChatexAccountant::new();
    let balance = vec![line("TON", "1", "0"), line("TON", "2", "0")];
    assert_eq!(
        accountant.ask(Coin::TON, Ok(balance)),
        Ok(Currency { coin: Coin::TON, amount: ratio(1, 1), held: Ratio::zero() })
    );
    let balance = vec![line("TON", "?", "0"), line("TON", "2", "0")];
    assert_eq!(accountant.ask(Coin::TON, Ok(balance)), Err(Error::MalformedVenueResponse));
}

#[test]
fn ask_without_a_line_of_the_coin() {
    let accountant = ChatexAccountant::new();
    assert_eq!(accountant.ask(Coin::TON, Ok(vec![])), Err(Error::ConversionError));
    assert_eq!(
        accountant.ask(Coin::TON, Ok(vec![line("ton", "1", "1"), line("USDT", "1", "1")])),
        Err(Error::ConversionError)
    );
}

#[test]
fn ask_passes_a_venue_failure_on() {
    let accountant = ChatexAccountant::new();
    assert_eq!(
        accountant.ask(Coin::TON, Err("401".to_string())),
        Err(Error::VenueError("401".to_string()))
    );
    assert_eq!(
        accountant.ask_both(Coin::TON, Coin::USDT, Err("401".to_string())),
        Err(Error::VenueError("401".to_string()))
    );
}

#[test]
fn ask_both_orders_the_pair_as_asked() {
    let accountant = ChatexAccountant::new();
    assert_eq!(accountant.ask_both(Coin::TON, Coin::USDT, Ok(summary())), Ok((ton(), usdt())));
    assert_eq!(accountant.ask_both(Coin::USDT, Coin::TON, Ok(summary())), Ok((usdt(), ton())));
}

#[test]
fn ask_both_needs_two_lines() {
    let accountant = ChatexAccountant::new();
    assert_eq!(
        accountant.ask_both(Coin::TON, Coin::USDT, Ok(vec![line("TON", "1", "1")])),
        Err(Error::ConversionError)
    );
    assert_eq!(accountant.ask_both(Coin::TON, Coin::USDT, Ok(vec![])), Err(Error::ConversionError));
    let three = vec![line("TON", "1", "1"), line("USDT", "1", "1"), line("TON", "1", "1")];
    assert_eq!(accountant.ask_both(Coin::TON, Coin::USDT, Ok(three)), Err(Error::ConversionError));
}

#[test]
fn ask_both_reads_only_the_wanted_lines() {
    let accountant = ChatexAccountant::new();
    // the line of ETH in the summary is unreadable and is not wanted
    assert!(accountant.ask_both(Coin::TON, Coin::USDT, Ok(summary())).is_ok());
    let mut balance = summary();
    balance[3].held = "a quarter".to_string();
    assert_eq!(
        accountant.ask_both(Coin::TON, Coin::USDT, Ok(balance)),
        Err(Error::MalformedVenueResponse)
    );
    // an unreadable wanted line comes before the count of lines
    let balance = vec![line("TON", "1", "1"), line("TON", "1", "1"), line("USDT", "", "1")];
    assert_eq!(
        accountant.ask_both(Coin::TON, Coin::USDT, Ok(balance)),
        Err(Error::MalformedVenueResponse)
    );
}

#[test]
fn ask_both_of_the_same_coin() {
    let accountant = ChatexAccountant::new();
    let balance = vec![line("TON", "1", "0"), line("USDT", "5", "0"), line("TON", "2", "0")];
    let first = Currency { coin: Coin::TON, amount: ratio(1, 1), held: Ratio::zero() };
    let second = Currency { coin: Coin::TON, amount: ratio(2, 1), held: Ratio::zero() };
    assert_eq!(accountant.ask_both(Coin::TON, Coin::TON, Ok(balance)), Ok((first, second)));
}

#[test]
fn volume_is_price_times_amount() {
    let accountant = ChatexAccountant::new();
    assert_eq!(
        accountant.calculate_volume(pair(), &ratio(5, 2), &ratio(4, 1)),
        Some(ratio(10, 1))
    );
    assert_eq!(
        accountant.calculate_volume(pair(), &ratio(u64::MAX, 1), &ratio(2, 1)),
        None
    );
}

#[test]
fn nearest_price_is_one_step_below() {
    let accountant = ChatexAccountant::new();
    assert_eq!(accountant.nearest_price(pair(), &ratio(1, 2)), Some(ratio(4_999, 10_000)));
    assert_eq!(accountant.nearest_price(pair(), &ratio(1, 10_000)), Some(Ratio::zero()));
    assert_eq!(accountant.nearest_price(pair(), &ratio(1, 10_001)), None);
    assert_eq!(accountant.nearest_price(pair(), &Ratio::zero()), None);
}
