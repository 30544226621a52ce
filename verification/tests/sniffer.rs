use chatex_merchant::coin::{CoinPair, VenueCoin};
use chatex_merchant::error::Error;
use chatex_merchant::ratio::Ratio;
use chatex_merchant::sniffer::ChatexSniffer;
use chatex_merchant::trading_pair::{Coins, Side, Target, TradingPair};
use chatex_merchant::venue::{RawOrder, VenueRequest};

fn ratio(num: u64, den: u64) -> Ratio {
    Ratio::new(num, den).expect("denominator is not zero")
}

fn raw(id: u32, rate: &str, amount: &str) -> RawOrder {
    RawOrder { id, rate: rate.to_string(), amount: amount.to_string() }
}

fn market_buy() -> TradingPair {
    TradingPair { coins: Coins::TonUsdt, side: Side::Buy, target: Target::Market }
}

fn market_sell() -> TradingPair {
    TradingPair { coins: Coins::TonUsdt, side: Side::Sell, target: Target::Market }
}

fn test_trading_pair(
    trading_pair: TradingPair,
    input_price: &str,
    expected_price: Ratio,
    input_amount: &str,
    expected_amount: Ratio,
) {
    let sniffer = ChatexSniffer::new();
    let body = vec![raw(0, input_price, input_amount)];
    let orders = sniffer.all_the_best_orders(trading_pair, 10, Ok(body));
    assert!(orders.is_ok(), "Failed to get orders from server: {:#?}", orders.err());
    let orders = orders.unwrap();
    assert_eq!(orders.len(), 1);
    let first_order = orders.get(0);
    assert!(first_order.is_some(), "Failed to get the first order");
    let first_order = first_order.unwrap();
    assert_eq!(first_order.trading_pair, trading_pair);
    assert_eq!(first_order.price.value(), expected_price, "Invlaid price");
    assert_eq!(first_order.amount.value(), expected_amount, "Invalid amount");
}

#[test]
fn all_the_best_orders() {
    let trading_pair = TradingPair {
        coins: Coins::TonUsdt,
        side: Side::Buy,
        target: Target::Market,
    };
    let input_price = "2.0";
    let input_amount = "2.0";
    test_trading_pair(trading_pair, input_price, ratio(2, 1), input_amount, ratio(2, 1));
    let trading_pair = TradingPair {
        coins: Coins::TonUsdt,
        side: Side::Sell,
        target: Target::Market,
    };
    test_trading_pair(trading_pair, input_price, ratio(1, 2), input_amount, ratio(4, 1));
    let trading_pair = TradingPair {
        coins: Coins::TonUsdt,
        side: Side::Buy,
        target: Target::Limit,
    };
    test_trading_pair(trading_pair, input_price, ratio(1, 2), input_amount, ratio(4, 1));
    let trading_pair = TradingPair {
        coins: Coins::TonUsdt,
        side: Side::Sell,
        target: Target::Limit,
    };
    test_trading_pair(trading_pair, input_price, ratio(2, 1), input_amount, ratio(2, 1));
}

#[test]
fn get_my_orders() {
    let trading_pair = TradingPair {
        coins: Coins::TonUsdt,
        side: Side::Buy,
        target: Target::Market,
    };
    let input_price = "2.0";
    let input_amount = "2.0";
    let body = vec![raw(0, input_price, input_amount)];
    let sniffer = ChatexSniffer::new();
    let my_orders = sniffer.get_my_orders(trading_pair, Ok(body));
    assert!(my_orders.is_ok(), "Failed to get my orders: {:#?}", my_orders.err());
    let my_orders = my_orders.unwrap();
    assert_eq!(my_orders.len(), 1, "Invalid amount of orders");
}

#[test]
fn requests_name_the_venue_pair() {
    let sniffer = ChatexSniffer::new();
    let reversed = CoinPair::new(VenueCoin::USDT, VenueCoin::TON);
    let direct = CoinPair::new(VenueCoin::TON, VenueCoin::USDT);
    assert_eq!(
        sniffer.all_the_best_orders_request(market_sell(), 10),
        VenueRequest::GetAllOrders { pair: reversed.clone(), limit: 10 }
    );
    assert_eq!(
        sniffer.the_best_order_request(market_buy()),
        VenueRequest::GetAllOrders { pair: direct, limit: 1 }
    );
    assert_eq!(
        sniffer.get_my_orders_request(market_sell()),
        VenueRequest::GetMyOrders { pair: reversed }
    );
}

#[test]
fn all_the_best_orders_keeps_the_venue_order_and_the_count() {
    let sniffer = ChatexSniffer::new();
    let body = vec![raw(1, "1", "10"), raw(2, "2", "20"), raw(3, "4", "40")];
    let orders = sniffer.all_the_best_orders(market_sell(), 2, Ok(body.clone())).unwrap();
    assert_eq!(orders.len(), 2);
    assert_eq!(orders[0].price.value(), ratio(1, 1));
    assert_eq!(orders[0].amount.value(), ratio(10, 1));
    assert_eq!(orders[1].price.value(), ratio(1, 2));
    assert_eq!(orders[1].amount.value(), ratio(40, 1));
    let orders = sniffer.all_the_best_orders(market_sell(), 3, Ok(body.clone())).unwrap();
    assert_eq!(orders.len(), 3);
    assert_eq!(orders[2].price.value(), ratio(1, 4));
    assert_eq!(orders[2].amount.value(), ratio(160, 1));
    let orders = sniffer.all_the_best_orders(market_sell(), 0, Ok(body)).unwrap();
    assert!(orders.is_empty());
}

#[test]
fn all_the_best_orders_on_an_empty_book_is_empty() {
    let sniffer = ChatexSniffer::new();
    assert_eq!(sniffer.all_the_best_orders(market_buy(), 10, Ok(vec![])), Ok(vec![]));
}

#[test]
fn malformed_rate_fails_the_whole_batch() {
    let sniffer = ChatexSniffer::new();
    for bad in 0..3usize {
        let mut body = vec![raw(1, "1", "10"), raw(2, "2", "20"), raw(3, "4", "40")];
        body[bad].rate = "not a number".to_string();
        assert_eq!(
            sniffer.all_the_best_orders(market_sell(), 10, Ok(body.clone())),
            Err(Error::MalformedVenueResponse)
        );
        assert_eq!(
            sniffer.get_my_orders(market_sell(), Ok(body)),
            Err(Error::MalformedVenueResponse)
        );
    }
}

#[test]
fn malformed_field_beyond_the_count_fails_the_batch() {
    let sniffer = ChatexSniffer::new();
    let body = vec![raw(1, "1", "10"), raw(2, "oops", "20")];
    for count in [0u32, 1, 2, 10] {
        assert_eq!(
            sniffer.all_the_best_orders(market_buy(), count, Ok(body.clone())),
            Err(Error::MalformedVenueResponse)
        );
    }
    let body = vec![raw(1, "2", "abc"), raw(2, "abc", "3"), raw(3, "3", "1")];
    assert_eq!(
        sniffer.all_the_best_orders(market_sell(), 1, Ok(body)),
        Err(Error::MalformedVenueResponse)
    );
}

#[test]
fn unconvertible_order_beyond_the_count_fails_the_batch() {
    let sniffer = ChatexSniffer::new();
    let body = vec![raw(1, "2", "1"), raw(2, "18446744073709551615", "3")];
    assert_eq!(
        sniffer.all_the_best_orders(market_sell(), 1, Ok(body.clone())),
        Err(Error::ConversionError)
    );
    // in the book that is not reversed the same order converts
    let orders = sniffer.all_the_best_orders(market_buy(), 1, Ok(body)).unwrap();
    assert_eq!(orders.len(), 1);
    assert_eq!(orders[0].price.value(), ratio(2, 1));
}

#[test]
fn numeric_text_that_is_not_read_is_malformed() {
    let sniffer = ChatexSniffer::new();
    for rate in ["+1", "1e3", "-1", "inf", "nan", "0", "0.00000000000000000001", "18446744073709551616"] {
        assert_eq!(
            sniffer.all_the_best_orders(market_buy(), 10, Ok(vec![raw(1, rate, "1")])),
            Err(Error::MalformedVenueResponse),
            "{:?}",
            rate
        );
    }
}

#[test]
fn malformed_field_comes_before_a_conversion_error() {
    let sniffer = ChatexSniffer::new();
    let body = vec![raw(1, "18446744073709551615", "3"), raw(2, "2", "x")];
    assert_eq!(
        sniffer.all_the_best_orders(market_sell(), 10, Ok(body.clone())),
        Err(Error::MalformedVenueResponse)
    );
    let body = vec![raw(1, "18446744073709551615", "3"), raw(2, "2", "1")];
    assert_eq!(
        sniffer.all_the_best_orders(market_sell(), 10, Ok(body)),
        Err(Error::ConversionError)
    );
}

#[test]
fn venue_failure_is_passed_on_verbatim() {
    let sniffer = ChatexSniffer::new();
    let text = "503 Service Unavailable\n{\"detail\": \"try later\"}".to_string();
    assert_eq!(
        sniffer.all_the_best_orders(market_buy(), 10, Err(text.clone())),
        Err(Error::VenueError(text.clone()))
    );
    assert_eq!(
        sniffer.the_best_order(market_buy(), Err(text.clone())),
        Err(Error::VenueError(text.clone()))
    );
    assert_eq!(
        sniffer.get_my_orders(market_buy(), Err(text.clone())),
        Err(Error::VenueError(text))
    );
}

#[test]
fn the_best_order_on_an_empty_book_is_order_not_found() {
    let sniffer = ChatexSniffer::new();
    assert_eq!(
        sniffer.the_best_order(market_buy(), Ok(vec![])),
        Err(Error::OrderNotFound(None))
    );
}

#[test]
fn the_best_order_is_the_first_of_the_answer() {
    let sniffer = ChatexSniffer::new();
    let body = vec![raw(5, "0.5", "4.0"), raw(6, "garbage", "garbage")];
    let order = sniffer.the_best_order(market_sell(), Ok(body)).unwrap();
    assert_eq!(order.trading_pair, market_sell());
    assert_eq!(order.price.value(), ratio(2, 1));
    assert_eq!(order.amount.value(), ratio(2, 1));
    assert_eq!(
        sniffer.the_best_order(market_sell(), Ok(vec![raw(5, "0.5", "many")])),
        Err(Error::MalformedVenueResponse)
    );
}

#[test]
fn get_my_orders_keeps_the_ids() {
    let sniffer = ChatexSniffer::new();
    let body = vec![raw(41, "2", "2"), raw(42, "4", "1")];
    let orders = sniffer.get_my_orders(market_sell(), Ok(body)).unwrap();
    assert_eq!(orders.len(), 2);
    assert_eq!(orders[0].id, 41);
    assert_eq!(orders[0].price.value(), ratio(1, 2));
    assert_eq!(orders[0].amount.value(), ratio(4, 1));
    assert_eq!(orders[1].id, 42);
    assert_eq!(orders[1].trading_pair, market_sell());
    assert_eq!(orders[1].price.value(), ratio(1, 4));
    assert_eq!(orders[1].amount.value(), ratio(4, 1));
}
