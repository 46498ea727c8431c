use lock_free_logger::event::{push_quoted_level, EventTypes, Formattable, LogMsg, NormalizedEventTypes};
use lock_free_logger::owned::{
    format_limits, ExampleErrorMsg, ExampleOB, OwnedEventType, OwnedLogMsg, ToLogMsg,
};
use lock_free_logger::text::{push_i32, push_i64, push_u64};
use lock_free_logger::work::{Payload, RawFunc};

#[test]
fn warning_record() {
    let unit = RawFunc::new(Payload::Msg(LogMsg::Warning { warning_message: "test" }));
    assert_eq!(unit.invoke(), "Warning:  test\n");
}

#[test]
fn error_record() {
    let m = LogMsg::Error { error_code: 42, error_message: "boom" };
    assert_eq!(m.format(), "Error 42: boom");
    let unit = RawFunc::new(Payload::Msg(m));
    assert_eq!(unit.invoke(), "Error 42: boom\n");
}

#[test]
fn negative_error_code() {
    let m = LogMsg::Error { error_code: i32::MIN, error_message: "x" };
    assert_eq!(m.format(), "Error -2147483648: x");
}

#[test]
fn info_record() {
    let m = LogMsg::Info { timestamp: "2024-01-01T00:00:00Z", details: "hello" };
    let unit = RawFunc::new(Payload::Msg(m));
    assert_eq!(unit.invoke(), "[2024-01-01T00:00:00Z] Info: hello\n");
}

#[test]
fn order_book_record() {
    let m = LogMsg::Event(NormalizedEventTypes::MarketOrderBookUpdate {
        symbol: "BTCUSDT",
        bids: vec![[100, 75]],
        asks: vec![[101, 255]],
        event_timestamp: 1629382400000,
    });
    let unit = RawFunc::new(Payload::Msg(m));
    assert_eq!(
        unit.invoke(),
        "MarketOrderBookUpdate - symbol: BTCUSDT, bids [[100, 75]], asks [[101, 255]], event_timestamp 1629382400000\n"
    );
}

#[test]
fn order_book_levels_empty_and_many() {
    let m = LogMsg::Event(NormalizedEventTypes::MarketOrderBookUpdate {
        symbol: "ETH",
        bids: vec![],
        asks: vec![[-1, 0], [2, 3], [i64::MAX, i64::MIN]],
        event_timestamp: -7,
    });
    assert_eq!(
        m.format(),
        "MarketOrderBookUpdate - symbol: ETH, bids [], asks [[-1, 0], [2, 3], [9223372036854775807, -9223372036854775808]], event_timestamp -7"
    );
}

#[test]
fn market_trade_record() {
    let m = LogMsg::Event(NormalizedEventTypes::MarketTrade {
        symbol: "BTCUSDT",
        side: "buy",
        qty: "1",
        fill_price: "46030.50",
        timestamp: 1700000000000,
    });
    assert_eq!(
        m.format(),
        "MarketTrade - symbol: BTCUSDT, side: buy, qty: 1, fill_price: 46030.50, timestamp: 1700000000000"
    );
}

#[test]
fn partial_maker_fill_record() {
    let m = LogMsg::Event(NormalizedEventTypes::AccountPartialMakerFill {
        symbol: "BTCUSDT",
        side: "sell",
        price: "100.5",
        size_filled: "3",
        size_unfilled: "7",
        timestamp: "t0",
    });
    assert_eq!(
        m.format(),
        "AccountPartialMakerFill - symbol: BTCUSDT, side: sell, price: 100.5, size_filled: 3, size_unfilled: 7, timestamp: t0"
    );
}

#[test]
fn maker_and_taker_fill_records() {
    let maker = LogMsg::Event(NormalizedEventTypes::AccountMakerFill {
        symbol: "S",
        side: "buy",
        fill_price: "10",
        qty: "2",
        timestamp: "t1",
    });
    assert_eq!(
        maker.format(),
        "AccountMakerFill - symbol: S, side: buy, fill_price: 10, qty: 2, timestamp: t1"
    );
    let taker = LogMsg::Event(NormalizedEventTypes::AccountTakerFill {
        symbol: "S",
        side: "sell",
        qty: "4",
        fill_price: "11",
        timestamp: "t2",
    });
    assert_eq!(
        taker.format(),
        "AccountTakerFill - symbol: S, side: sell, qty: 4, fill_price: 11, timestamp: t2"
    );
}

#[test]
fn position_status_record() {
    let m = LogMsg::Event(NormalizedEventTypes::AccountPositionStatus {
        symbol: "S",
        side: "long",
        pnl: "-3.2",
        leverage: "5",
        fill_timestamp: "t3",
        time_since_fill: "12s",
    });
    assert_eq!(
        m.format(),
        "AccountPositionStatus - symbol: S, side: long, pnl: -3.2, leverage: 5, fill_timestamp: t3, time_since_fill: 12s "
    );
}

#[test]
fn format_is_deterministic_and_leaves_event_intact() {
    let m = LogMsg::Info { timestamp: "t", details: "d" };
    let first = m.format();
    let second = m.format();
    assert_eq!(first, second);
    assert_eq!(m.formatting(), first);
    match m {
        LogMsg::Info { timestamp, details } => {
            assert_eq!(timestamp, "t");
            assert_eq!(details, "d");
        }
        _ => panic!("variant changed"),
    }
}

#[test]
fn decimal_digits() {
    let mut s = String::new();
    push_u64(&mut s, 0);
    s.push(' ');
    push_u64(&mut s, u64::MAX);
    s.push(' ');
    push_i64(&mut s, i64::MIN);
    s.push(' ');
    push_i32(&mut s, -905);
    assert_eq!(s, "0 18446744073709551615 -9223372036854775808 -905");
}

#[test]
fn limits_text() {
    assert_eq!(format_limits(&vec![]), "");
    assert_eq!(format_limits(&vec![[100, 75]]), "[Price: 100, Amount: 75]");
    assert_eq!(
        format_limits(&vec![[100, 75], [-1, 2]]),
        "[Price: 100, Amount: 75], [Price: -1, Amount: 2]"
    );
}

#[test]
fn example_order_book_formatting() {
    let ob = ExampleOB { symbol: 7, bids: vec![[100, 75]], asks: vec![[101, 5], [102, 6]], timestamp: 99 };
    assert_eq!(
        ob.formatting(),
        "OrderBook - Symbol: 7, Timestamp: 99\nBids: [Price: 100, Amount: 75]\nAsks: [Price: 101, Amount: 5], [Price: 102, Amount: 6]"
    );
}

#[test]
fn example_order_book_to_log_msg() {
    let ob = ExampleOB { symbol: -12, bids: vec![[1, 2]], asks: vec![], timestamp: 5 };
    match ob.to_log_msg() {
        OwnedLogMsg::Event(OwnedEventType::MarketOrderBookUpdate { symbol, bids, asks, event_timestamp }) => {
            assert_eq!(symbol, "-12");
            assert_eq!(bids, vec![[1, 2]]);
            assert!(asks.is_empty());
            assert_eq!(event_timestamp, 5);
        }
        other => panic!("unexpected {:?}", other),
    }
}

#[test]
fn example_error_to_log_msg_and_formats() {
    let e = ExampleErrorMsg { error_code: 500, error_message: "down".to_string() };
    let m = e.to_log_msg();
    assert_eq!(m.format(), "Error 500: down");
    assert_eq!(m.formatting(), "Error 500: down");
}

#[test]
fn owned_messages_format() {
    let w = OwnedLogMsg::Warning { warning_message: "careful".to_string() };
    assert_eq!(w.format(), "Warning:  careful");
    assert_eq!(w.formatting(), "Warning:  careful");
    let ob = OwnedLogMsg::Event(OwnedEventType::MarketOrderBookUpdate {
        symbol: "BTC".to_string(),
        bids: vec![[1, 2]],
        asks: vec![[3, 4], [5, 6]],
        event_timestamp: 10,
    });
    assert_eq!(
        ob.format(),
        "MarketOrderBookUpdate - symbol: BTC, bids [[1, 2]], asks [[3, 4], [5, 6]], event_timestamp 10"
    );
    assert_eq!(ob.formatting(), ob.format());
}

#[test]
fn payload_kinds_render_through_units() {
    let owned = OwnedLogMsg::Warning { warning_message: "w".to_string() };
    assert_eq!(RawFunc::new(Payload::Owned(owned)).invoke(), "Warning:  w\n");
    let ob = ExampleOB { symbol: 1, bids: vec![], asks: vec![], timestamp: 2 };
    assert_eq!(
        RawFunc::new(Payload::OrderBook(ob)).invoke(),
        "OrderBook - Symbol: 1, Timestamp: 2\nBids: \nAsks: \n"
    );
}

#[test]
fn owned_and_borrowed_events_render_alike() {
    let owned = OwnedLogMsg::Error { error_code: 42, error_message: "boom".to_string() };
    let borrowed = LogMsg::Error { error_code: 42, error_message: "boom" };
    assert_eq!(owned.formatting(), "Error 42: boom");
    assert_eq!(owned.formatting(), borrowed.format());
    let owned_book = OwnedLogMsg::Event(OwnedEventType::MarketOrderBookUpdate {
        symbol: "BTCUSDT".to_string(),
        bids: vec![[100, 75]],
        asks: vec![[101, 255]],
        event_timestamp: 1629382400000,
    });
    let book = LogMsg::Event(NormalizedEventTypes::MarketOrderBookUpdate {
        symbol: "BTCUSDT",
        bids: vec![[100, 75]],
        asks: vec![[101, 255]],
        event_timestamp: 1629382400000,
    });
    assert_eq!(owned_book.format(), book.format());
    let owned_warning = OwnedLogMsg::Warning { warning_message: "test".to_string() };
    assert_eq!(owned_warning.format(), LogMsg::Warning { warning_message: "test" }.format());
}

#[test]
fn events_compare_by_value() {
    let a = LogMsg::Warning { warning_message: "x" };
    assert_eq!(a.clone(), a);
    assert_ne!(a, LogMsg::Warning { warning_message: "y" });
}

#[test]
fn string_level_order_book_record() {
    let e = EventTypes::MarketOrderBookUpdate {
        symbol: "BTCUSDT",
        bids: vec![["100.5".to_string(), "2".to_string()], ["99".to_string(), "1".to_string()]],
        asks: vec![],
        event_timestamp: "1629382400000",
    };
    assert_eq!(
        e.format(),
        "MarketOrderBookUpdate - symbol: BTCUSDT, bids [[\"100.5\", \"2\"], [\"99\", \"1\"]], asks [], event_timestamp 1629382400000"
    );
}

#[test]
fn string_levels_are_escaped() {
    let e = EventTypes::MarketOrderBookUpdate {
        symbol: "X",
        bids: vec![["a\"b".to_string(), "c\\d".to_string()]],
        asks: vec![["\n".to_string(), "".to_string()]],
        event_timestamp: "t",
    };
    assert_eq!(
        e.format(),
        "MarketOrderBookUpdate - symbol: X, bids [[\"a\\\"b\", \"c\\\\d\"]], asks [[\"\\n\", \"\"]], event_timestamp t"
    );
}

#[test]
fn quoted_level_assembly() {
    let mut out = String::from(">");
    push_quoted_level(&mut out, "\"1\"", "\"2\"");
    assert_eq!(out, ">[\"1\", \"2\"]");
}

#[test]
fn string_event_records() {
    let trade = EventTypes::MarketTradesUpdate {
        symbol: "BTCUSDT",
        side: "buy",
        qty: "1",
        fill_price: "46030.50",
        timestamp: -3,
    };
    assert_eq!(
        trade.format(),
        "MarketTradesUpdate - symbol: BTCUSDT, side: buy, qty: 1, fill_price: 46030.50, timestamp: -3"
    );
    let partial = EventTypes::AccountPartialLimitFill {
        symbol: "S",
        side: "sell",
        price: "10",
        size_filled: "3",
        size_unfilled: "7",
        timestamp: "t",
    };
    assert_eq!(
        partial.format(),
        "AccountPartialLimitFill - symbol: S, side: sell, price: 10, size_filled: 3, size_unfilled: 7, timestamp: t"
    );
    let limit = EventTypes::AccountLimitFill { symbol: "S", side: "buy", fill_price: "9", qty: "2", timestamp: "u" };
    assert_eq!(limit.format(), "AccountLimitFill - symbol: S, side: buy, fill_price: 9, qty: 2, timestamp: u");
    let market = EventTypes::AccountMarketFill { symbol: "S", side: "buy", qty: "2", fill_price: "9", timestamp: "v" };
    assert_eq!(market.format(), "AccountMarketFill - symbol: S, side: buy, qty: 2, fill_price: 9, timestamp: v");
    let status = EventTypes::AccountPositionStatus {
        symbol: "S",
        side: "long",
        pnl: "1",
        leverage: "2",
        fill_timestamp: "w",
        time_since_fill: "5s",
    };
    assert_eq!(
        status.formatting(),
        "AccountPositionStatus - symbol: S, side: long, pnl: 1, leverage: 2, fill_timestamp: w, time_since_fill: 5s "
    );
}
