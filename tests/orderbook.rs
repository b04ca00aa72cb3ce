use orderbook::book::{Orderbook, OrderbookError, OrderbookUpdate, OrderbookUpdateType};
use orderbook::level::Level;
use orderbook::units::{decimal_to_units, parse_units};

fn cents(text: &str) -> i64 {
    parse_units(text, 2).unwrap()
}

fn upd(price: i64, quantity: i64, order_type: OrderbookUpdateType) -> OrderbookUpdate {
    OrderbookUpdate { price, quantity, order_type }
}

#[test]
#[allow(non_snake_case)]
fn test_Orderbook_create() {
    let bid = cents("123.00");
    let ask = cents("123.06");
    let min_step = cents("0.01");

    let mut some_market = Orderbook::new(bid, ask, min_step).unwrap();

    assert_eq!(some_market.bid_pointer(), 12);
    assert_eq!(some_market.ask_pointer(), 18);

    assert_eq!(some_market.spread_steps(), 6);
    assert_eq!(some_market.spread_cost(), cents("0.06"));

    assert_eq!(some_market.levels()[0].price(), cents("122.88"));
    assert_eq!(some_market.start_price(), cents("122.88"));

    assert_eq!(some_market.price_index(cents("122.89")).unwrap(), 1);
    assert_eq!(some_market.price_index(cents("123.17")).unwrap(), 29);

    let q = parse_units("1234.5566778899", 10).unwrap();
    some_market.update(upd(cents("123.17"), q, OrderbookUpdateType::SetLevel)).unwrap();
    assert_eq!(some_market.price_quantity(cents("123.17")), Ok(q as u64));

    assert!(!some_market.rebalance());
}

#[test]
fn test_new_level() {
    let level = Level::new("10000.32", "0.00032800", 2, 8).unwrap();
    assert_eq!(level.price(), 1000032);
    assert_eq!(level.quantity(), 32800);
}

#[test]
fn worked_scenario() {
    let mut book = Orderbook::new(10000, 10050, 10).unwrap();
    assert_eq!(book.spread_steps(), 5);
    assert_eq!(book.ask_pointer(), 17);
    assert_eq!(book.bid_pointer(), 12);
    assert_eq!(book.start_price(), 9880);
    assert_eq!(book.levels()[12].price(), 10000);
    assert_eq!(book.levels()[17].price(), 10050);
    assert_eq!(book.spread_cost(), 50);

    let out = book.update(upd(10000, 32, OrderbookUpdateType::SetLevel)).unwrap();
    assert_eq!(out.update_id, 1);
    assert_eq!(book.price_quantity(10000), Ok(32));
    assert_eq!(book.update_id(), 1);

    let out = book.update(upd(10000, -100, OrderbookUpdateType::LimitOrder)).unwrap();
    assert!(out.underflow);
    assert_eq!(out.update_id, 2);
    assert_eq!(book.price_quantity(10000), Ok(0));
}

#[test]
fn new_book_is_empty_with_grid_prices() {
    let book = Orderbook::new(10000, 10050, 10).unwrap();
    assert_eq!(book.levels().len(), 32);
    for (i, level) in book.levels().iter().enumerate() {
        assert_eq!(level.price(), 9880 + 10 * i as i64);
        assert_eq!(level.quantity(), 0);
    }
    assert_eq!(book.min_step(), 10);
    assert_eq!(book.min_depth(), 6);
    assert_eq!(book.update_id(), 0);
}

#[test]
fn construction_errors() {
    assert!(matches!(Orderbook::new(100, 100, 1), Err(OrderbookError::InvalidSpread)));
    assert!(matches!(Orderbook::new(101, 100, 1), Err(OrderbookError::InvalidSpread)));
    assert!(matches!(Orderbook::new(100, 110, 0), Err(OrderbookError::InvalidSpread)));
    assert!(matches!(Orderbook::new(100, 110, -5), Err(OrderbookError::InvalidSpread)));
    assert!(matches!(Orderbook::new(10000, 10055, 10), Err(OrderbookError::NonAlignedSpread)));
    assert!(matches!(Orderbook::new(10000, 10310, 10), Err(OrderbookError::WindowOverflow)));
    assert!(matches!(Orderbook::new(i64::MIN + 5, i64::MIN + 10, 1), Err(OrderbookError::WindowOverflow)));
    assert!(matches!(Orderbook::new(i64::MAX - 10, i64::MAX - 5, 1), Err(OrderbookError::WindowOverflow)));
}

#[test]
fn widest_spread_fits() {
    let book = Orderbook::new(10000, 10300, 10).unwrap();
    assert_eq!(book.bid_pointer(), 0);
    assert_eq!(book.ask_pointer(), 30);
    assert_eq!(book.start_price(), 10000);
}

#[test]
fn even_and_odd_spreads_centre_on_the_middle() {
    let even = Orderbook::new(100, 104, 1).unwrap();
    assert_eq!((even.bid_pointer(), even.ask_pointer()), (13, 17));
    let odd = Orderbook::new(100, 101, 1).unwrap();
    assert_eq!((odd.bid_pointer(), odd.ask_pointer()), (14, 15));
}

#[test]
fn price_index_round_trip_and_off_grid() {
    let book = Orderbook::new(10000, 10050, 10).unwrap();
    for k in 0..32usize {
        let price = book.levels()[k].price();
        assert_eq!(book.price_index(price), Some(k));
    }
    assert_eq!(book.price_index(10005), None);
    assert_eq!(book.price_index(9870), None);
    assert_eq!(book.price_index(9880 + 320), None);
    assert_eq!(book.price_quantity(10005), Err(OrderbookError::OutOfWindow));
}

#[test]
fn update_out_of_window_changes_nothing() {
    let mut book = Orderbook::new(10000, 10050, 10).unwrap();
    let r = book.update(upd(10005, 5, OrderbookUpdateType::SetLevel));
    assert_eq!(r, Err(OrderbookError::OutOfWindow));
    assert_eq!(book.update_id(), 0);
}

#[test]
fn set_level_rejects_negative() {
    let mut book = Orderbook::new(10000, 10050, 10).unwrap();
    let r = book.update(upd(10000, -1, OrderbookUpdateType::SetLevel));
    assert_eq!(r, Err(OrderbookError::InvalidQuantity));
    assert_eq!(book.update_id(), 0);
}

#[test]
fn set_level_twice_is_set_level_once() {
    let mut once = Orderbook::new(10000, 10050, 10).unwrap();
    let mut twice = Orderbook::new(10000, 10050, 10).unwrap();
    once.update(upd(9990, 7, OrderbookUpdateType::SetLevel)).unwrap();
    twice.update(upd(9990, 7, OrderbookUpdateType::SetLevel)).unwrap();
    twice.update(upd(9990, 7, OrderbookUpdateType::SetLevel)).unwrap();
    assert_eq!(once.levels(), twice.levels());
    assert_eq!(twice.price_quantity(9990), Ok(7));
}

#[test]
fn limit_orders_add_and_overflow() {
    let mut book = Orderbook::new(10000, 10050, 10).unwrap();
    let out = book.limit_order(10060, 5).unwrap();
    assert!(!out.underflow);
    book.limit_order(10060, 4).unwrap();
    book.limit_order(10060, -3).unwrap();
    assert_eq!(book.price_quantity(10060), Ok(6));
    book.update(upd(10060, i64::MAX, OrderbookUpdateType::SetLevel)).unwrap();
    book.limit_order(10060, i64::MAX).unwrap();
    assert_eq!(book.price_quantity(10060), Ok(2 * (i64::MAX as u64)));
    let r = book.limit_order(10060, 2);
    assert_eq!(r, Err(OrderbookError::QuantityOverflow));
    assert_eq!(book.price_quantity(10060), Ok(2 * (i64::MAX as u64)));
    assert_eq!(book.update_id(), 5);
}

#[test]
fn market_buy_walks_up_from_the_ask() {
    let mut book = Orderbook::new(10000, 10050, 10).unwrap();
    book.limit_order(10050, 5).unwrap();
    book.limit_order(10060, 3).unwrap();
    book.limit_order(10000, 9).unwrap();
    let out = book.update(upd(10050, 6, OrderbookUpdateType::MarketOrder)).unwrap();
    assert_eq!(out.unfilled, 0);
    assert_eq!(book.price_quantity(10050), Ok(0));
    assert_eq!(book.price_quantity(10060), Ok(2));
    assert_eq!(book.price_quantity(10000), Ok(9));
    let out = book.update(upd(10050, 10, OrderbookUpdateType::MarketOrder)).unwrap();
    assert_eq!(out.unfilled, 8);
    assert_eq!(book.price_quantity(10060), Ok(0));
    assert_eq!(book.price_quantity(10000), Ok(9));
}

#[test]
fn market_sell_walks_down_from_the_bid() {
    let mut book = Orderbook::new(10000, 10050, 10).unwrap();
    book.limit_order(10000, 2).unwrap();
    book.limit_order(9980, 4).unwrap();
    book.limit_order(10050, 9).unwrap();
    let out = book.update(upd(10000, -5, OrderbookUpdateType::MarketOrder)).unwrap();
    assert_eq!(out.unfilled, 0);
    assert_eq!(book.price_quantity(10000), Ok(0));
    assert_eq!(book.price_quantity(9990), Ok(0));
    assert_eq!(book.price_quantity(9980), Ok(1));
    assert_eq!(book.price_quantity(10050), Ok(9));
}

#[test]
fn fill_or_kill_all_or_nothing() {
    let mut book = Orderbook::new(10000, 10050, 10).unwrap();
    book.limit_order(10050, 5).unwrap();
    book.limit_order(10070, 3).unwrap();
    let before: Vec<Level> = book.levels().clone();
    let r = book.update(upd(10050, 9, OrderbookUpdateType::FillOrKillOrder));
    assert_eq!(r, Err(OrderbookError::InsufficientDepth));
    assert_eq!(book.levels(), &before);
    assert_eq!(book.update_id(), 2);
    let out = book.update(upd(10050, 8, OrderbookUpdateType::FillOrKillOrder)).unwrap();
    assert_eq!(out.unfilled, 0);
    assert_eq!(out.update_id, 3);
    assert_eq!(book.price_quantity(10050), Ok(0));
    assert_eq!(book.price_quantity(10070), Ok(0));
}

#[test]
fn rebalance_when_stable_changes_nothing() {
    let mut book = Orderbook::new(10000, 10050, 10).unwrap();
    book.limit_order(9900, 4).unwrap();
    let before: Vec<Level> = book.levels().clone();
    assert!(!book.rebalance());
    assert_eq!(book.levels(), &before);
    assert_eq!(book.start_price(), 9880);
    assert_eq!((book.bid_pointer(), book.ask_pointer()), (12, 17));
}

#[test]
fn rebalance_when_margin_is_thin_keeps_quantities() {
    let mut book = Orderbook::new(10000, 10200, 10).unwrap();
    assert_eq!((book.bid_pointer(), book.ask_pointer()), (5, 25));
    book.limit_order(10000, 4).unwrap();
    book.limit_order(10200, 6).unwrap();
    assert!(book.rebalance());
    assert_eq!(book.price_quantity(10000), Ok(4));
    assert_eq!(book.price_quantity(10200), Ok(6));
    assert_eq!(book.levels()[book.bid_pointer() as usize].price(), 10000);
    assert_eq!(book.levels()[book.ask_pointer() as usize].price(), 10200);
    assert_eq!(book.update_id(), 2);
}

#[test]
fn decimal_text_to_units() {
    assert_eq!(parse_units("12.34", 2), Some(1234));
    assert_eq!(parse_units("1.5", 2), Some(150));
    assert_eq!(parse_units("-0.5", 1), Some(-5));
    assert_eq!(parse_units("1.234", 2), None);
    assert_eq!(parse_units("1.230", 2), Some(123));
    assert_eq!(parse_units("abc", 2), None);
    assert_eq!(parse_units("99999999999999999999", 0), None);
    assert_eq!(parse_units("9223372036854775807", 0), Some(i64::MAX));
    assert_eq!(parse_units("-9223372036854775808", 0), Some(i64::MIN));
    assert_eq!(parse_units("0.000", 0), Some(0));
}

#[test]
fn mantissa_and_scale_to_units() {
    assert_eq!(decimal_to_units(1234, 2, 4), Some(123400));
    assert_eq!(decimal_to_units(-1234, 2, 0), None);
    assert_eq!(decimal_to_units(-1200, 2, 0), Some(-12));
    assert_eq!(decimal_to_units(5, 0, 30), None);
    assert_eq!(decimal_to_units(0, 0, 30), Some(0));
    assert_eq!(decimal_to_units(1, 40, 0), None);
    assert_eq!(decimal_to_units(i128::MIN, 0, 0), None);
}

#[test]
fn level_rejects_negative_quantity() {
    assert!(Level::new("1.00", "-1", 2, 0).is_none());
    assert!(Level::new("x", "1", 2, 0).is_none());
}
