//! How the bot dispatches what a connector sends.
use std::cell::RefCell;
use std::rc::Rc;

use live_bot::depth::MarketDepth;
use live_bot::types::{
    ErrorKind, Event, LiveError, LiveEvent, OrdType, Order, Real, Side, StateValues, Status,
    TimeInForce, WaitOrderResponse, BUY_EVENT, DEPTH_EVENT, LOCAL_ASK_DEPTH_EVENT,
    LOCAL_BID_DEPTH_EVENT, LOCAL_BUY_TRADE_EVENT, LOCAL_EVENT, LOCAL_SELL_TRADE_EVENT, SELL_EVENT,
    TRADE_EVENT,
};
use live_bot::{BotError, Instrument, LiveBot};

#[derive(Debug, Default, PartialEq)]
struct Book {
    bids: Vec<(u64, u64, i64)>,
    asks: Vec<(u64, u64, i64)>,
}

impl MarketDepth for Book {
    fn update_bid_depth(&mut self, px: Real, qty: Real, timestamp: i64) {
        self.bids.push((px.to_bits(), qty.to_bits(), timestamp));
    }

    fn update_ask_depth(&mut self, px: Real, qty: Real, timestamp: i64) {
        self.asks.push((px.to_bits(), qty.to_bits(), timestamp));
    }
}

fn num(x: f64) -> Real {
    Real::from_bits(x.to_bits())
}

fn slot(connector: &str, symbol: &str, trade_capacity: usize) -> Instrument<Book> {
    Instrument::new(connector, symbol, num(0.5), num(0.001), Book::default(), trade_capacity)
}

fn event(ev: u64, exch_ts: i64) -> Event {
    Event { ev, exch_ts, local_ts: exch_ts + 1, px: Real::from_bits(11), qty: Real::from_bits(22) }
}

fn feed(symbol: &str, event: Event) -> LiveEvent {
    LiveEvent::Feed { symbol: symbol.to_string(), event }
}

fn update(order_id: u64, status: Status, exch_ts: i64) -> Order {
    Order {
        qty: num(5.0),
        leaves_qty: num(4.0),
        exec_qty: num(1.0),
        exec_price_tick: 7,
        price_tick: 7,
        tick_size: num(0.5),
        exch_timestamp: exch_ts,
        local_timestamp: 2,
        order_id,
        maker: false,
        order_type: OrdType::Limit,
        req: Status::Unset,
        status,
        side: Side::Sell,
        time_in_force: TimeInForce::GTC,
    }
}

fn order_event(symbol: &str, order: Order) -> LiveEvent {
    LiveEvent::Order { symbol: symbol.to_string(), order }
}

#[test]
fn composite_flags_are_made_of_their_parts() {
    assert_eq!(LOCAL_BID_DEPTH_EVENT, DEPTH_EVENT | BUY_EVENT | LOCAL_EVENT);
    assert_eq!(LOCAL_ASK_DEPTH_EVENT, DEPTH_EVENT | SELL_EVENT | LOCAL_EVENT);
    assert_eq!(LOCAL_BUY_TRADE_EVENT, TRADE_EVENT | BUY_EVENT | LOCAL_EVENT);
    assert_eq!(LOCAL_SELL_TRADE_EVENT, TRADE_EVENT | SELL_EVENT | LOCAL_EVENT);
    assert_eq!(BUY_EVENT, 1 << 29);
    assert_eq!(SELL_EVENT, 1 << 28);
    assert_eq!(LOCAL_EVENT, 1 << 30);
}

#[test]
fn event_is_of_a_kind_by_flags_and_low_byte() {
    let bid = event(LOCAL_BID_DEPTH_EVENT, 1);
    assert!(bid.is(LOCAL_BID_DEPTH_EVENT));
    assert!(bid.is(BUY_EVENT));
    assert!(bid.is(LOCAL_EVENT));
    assert!(bid.is(DEPTH_EVENT));
    assert!(!bid.is(LOCAL_ASK_DEPTH_EVENT));
    assert!(!bid.is(LOCAL_BUY_TRADE_EVENT));
    assert!(!bid.is(TRADE_EVENT));
    let clear = event(3 | BUY_EVENT | LOCAL_EVENT, 1);
    assert!(!clear.is(LOCAL_BID_DEPTH_EVENT));
    assert!(!clear.is(LOCAL_BUY_TRADE_EVENT));
    assert!(clear.is(BUY_EVENT | LOCAL_EVENT));
    let remote = event(DEPTH_EVENT | BUY_EVENT, 1);
    assert!(!remote.is(LOCAL_BID_DEPTH_EVENT));
    assert!(event(0, 1).is(0));
}

#[test]
fn depth_events_update_their_side_of_the_book() {
    let mut bot = LiveBot::builder().add(slot("x", "BTC", 4)).build().unwrap();
    assert_eq!(bot.feed_latency(0), None);
    let hit = bot.process_event(feed("BTC", event(LOCAL_BID_DEPTH_EVENT, 10)), WaitOrderResponse::Any);
    assert_eq!(hit, Ok(false));
    assert_eq!(bot.feed_latency(0), Some((10, 11)));
    bot.process_event(feed("BTC", event(LOCAL_ASK_DEPTH_EVENT, 20)), WaitOrderResponse::Any).unwrap();
    bot.process_event(feed("BTC", event(LOCAL_ASK_DEPTH_EVENT, 30)), WaitOrderResponse::Any).unwrap();
    assert_eq!(bot.depth(0).bids, vec![(11, 22, 10)]);
    assert_eq!(bot.depth(0).asks, vec![(11, 22, 20), (11, 22, 30)]);
    assert_eq!(bot.feed_latency(0), Some((30, 31)));
    assert!(bot.last_trades(0).is_empty());
}

#[test]
fn event_with_both_sides_counts_as_a_bid() {
    let mut bot = LiveBot::builder().add(slot("x", "BTC", 4)).build().unwrap();
    let both = event(DEPTH_EVENT | BUY_EVENT | SELL_EVENT | LOCAL_EVENT, 5);
    bot.process_event(feed("BTC", both), WaitOrderResponse::NoWait).unwrap();
    assert_eq!(bot.depth(0).bids.len(), 1);
    assert!(bot.depth(0).asks.is_empty());
}

#[test]
fn trades_are_kept_where_the_slot_has_room_for_them() {
    let mut bot =
        LiveBot::builder().add(slot("x", "KEEP", 2)).add(slot("x", "DROP", 0)).build().unwrap();
    let buy = event(LOCAL_BUY_TRADE_EVENT, 1);
    let sell = event(LOCAL_SELL_TRADE_EVENT, 2);
    let third = event(LOCAL_BUY_TRADE_EVENT, 3);
    for symbol in ["KEEP", "DROP"] {
        for trade in [buy, sell, third] {
            bot.process_event(feed(symbol, trade), WaitOrderResponse::NoWait).unwrap();
        }
    }
    assert_eq!(bot.last_trades(0), &[buy, sell, third]);
    assert!(bot.last_trades(1).is_empty());
    assert_eq!(bot.feed_latency(1), Some((3, 4)));
    assert_eq!(bot.depth(0), &Book::default());

    bot.process_event(feed("KEEP", event(TRADE_EVENT | LOCAL_EVENT, 9)), WaitOrderResponse::NoWait)
        .unwrap();
    assert_eq!(bot.last_trades(0).len(), 3);
    assert_eq!(bot.feed_latency(0), Some((9, 10)));
}

#[test]
fn clear_last_trades_of_one_or_of_all() {
    let mut bot =
        LiveBot::builder().add(slot("x", "A", 2)).add(slot("x", "B", 2)).add(slot("y", "C", 2)).build().unwrap();
    for symbol in ["A", "B", "C"] {
        bot.process_event(feed(symbol, event(LOCAL_BUY_TRADE_EVENT, 1)), WaitOrderResponse::NoWait)
            .unwrap();
    }
    bot.clear_last_trades(Some(1));
    assert_eq!(bot.last_trades(0).len(), 1);
    assert!(bot.last_trades(1).is_empty());
    assert_eq!(bot.last_trades(2).len(), 1);
    bot.clear_last_trades(None);
    assert!(bot.last_trades(0).is_empty());
    assert!(bot.last_trades(2).is_empty());
    assert_eq!(bot.feed_latency(0), Some((1, 2)));
}

#[test]
fn event_for_an_unknown_symbol_is_absorbed() {
    let mut bot = LiveBot::builder().add(slot("x", "BTC", 4)).build().unwrap();
    let events = [
        feed("ETH", event(LOCAL_BID_DEPTH_EVENT, 10)),
        order_event("ETH", update(1, Status::New, 1)),
        LiveEvent::Position { symbol: "btc".to_string(), qty: num(3.0) },
        order_event("", update(1, Status::New, 1)),
    ];
    for ev in events {
        assert_eq!(bot.process_event(ev, WaitOrderResponse::Any), Ok(false));
    }
    assert!(bot.orders(0).is_empty());
    assert_eq!(bot.depth(0), &Book::default());
    assert_eq!(bot.feed_latency(0), None);
    assert_eq!(bot.order_latency(0), None);
    assert_eq!(bot.state_values(0), &StateValues::zeroed());
}

#[test]
fn symbol_of_two_connectors_goes_to_the_later_instrument() {
    let mut bot = LiveBot::builder()
        .add(slot("x", "BTC", 1))
        .add(slot("y", "ETH", 1))
        .add(slot("y", "BTC", 1))
        .build()
        .unwrap();
    assert_eq!(bot.asset_no(&"BTC".to_string()), Some(2));
    assert_eq!(bot.asset_no(&"ETH".to_string()), Some(1));
    assert_eq!(bot.asset_no(&"XRP".to_string()), None);
    bot.process_event(order_event("BTC", update(1, Status::New, 1)), WaitOrderResponse::NoWait).unwrap();
    assert!(bot.orders(0).is_empty());
    assert!(bot.orders(2).contains_key(&1));
}

#[test]
fn position_overwrites_the_position_only() {
    let mut bot = LiveBot::builder().add(slot("x", "BTC", 4)).add(slot("x", "ETH", 4)).build().unwrap();
    assert_eq!(bot.position(0), num(0.0));
    let hit = bot.process_event(
        LiveEvent::Position { symbol: "BTC".to_string(), qty: num(-2.5) },
        WaitOrderResponse::Any,
    );
    assert_eq!(hit, Ok(false));
    assert_eq!(bot.position(0), num(-2.5));
    assert_eq!(f64::from_bits(bot.position(0).to_bits()), -2.5);
    assert_eq!(bot.position(1), num(0.0));
    assert_eq!(*bot.state_values(0), StateValues { position: num(-2.5), ..StateValues::zeroed() });
    bot.process_event(
        LiveEvent::Position { symbol: "BTC".to_string(), qty: num(1.0) },
        WaitOrderResponse::Any,
    )
    .unwrap();
    assert_eq!(bot.position(0), num(1.0));
}

#[test]
fn order_response_satisfies_the_wait_it_matches() {
    let mut bot = LiveBot::builder().add(slot("x", "BTC", 0)).add(slot("x", "ETH", 0)).build().unwrap();
    let cases = [
        (WaitOrderResponse::NoWait, false),
        (WaitOrderResponse::Any, true),
        (WaitOrderResponse::Specified { asset_no: 1, order_id: 4 }, true),
        (WaitOrderResponse::Specified { asset_no: 1, order_id: 5 }, false),
        (WaitOrderResponse::Specified { asset_no: 0, order_id: 4 }, false),
    ];
    for (wait, expected) in cases {
        assert_eq!(wait.satisfied_by(1, 4), expected);
        assert_eq!(bot.process_event(order_event("ETH", update(4, Status::New, 1)), wait), Ok(expected));
    }
}

#[test]
fn order_latency_is_refreshed_by_every_update() {
    let mut bot = LiveBot::builder().add(slot("x", "BTC", 0)).build().unwrap();
    let before = bot.current_timestamp();
    bot.process_event(order_event("BTC", update(1, Status::Filled, 50)), WaitOrderResponse::NoWait)
        .unwrap();
    let after = bot.current_timestamp();
    let (requested, exchange, received) = bot.order_latency(0).unwrap();
    assert_eq!((requested, exchange), (2, 50));
    assert!(before <= received && received <= after);
    let mut stale = update(1, Status::New, 40);
    stale.local_timestamp = 3;
    bot.process_event(order_event("BTC", stale), WaitOrderResponse::NoWait).unwrap();
    let (requested, exchange, _) = bot.order_latency(0).unwrap();
    assert_eq!((requested, exchange), (3, 40));
}

#[test]
fn order_hook_sees_the_entry_and_the_raw_update() {
    let seen: Rc<RefCell<Vec<(Order, Order)>>> = Rc::new(RefCell::new(Vec::new()));
    let log = seen.clone();
    let mut bot = LiveBot::builder()
        .add(slot("x", "BTC", 0))
        .order_recv_hook(move |existing: &Order, update: &Order| {
            log.borrow_mut().push((*existing, *update));
            Ok(())
        })
        .build()
        .unwrap();
    let first = update(1, Status::PartiallyFilled, 10);
    bot.process_event(order_event("BTC", first), WaitOrderResponse::NoWait).unwrap();
    assert!(seen.borrow().is_empty());
    let stale = update(1, Status::New, 9);
    bot.process_event(order_event("BTC", stale), WaitOrderResponse::NoWait).unwrap();
    let second = update(1, Status::Filled, 11);
    bot.process_event(order_event("BTC", second), WaitOrderResponse::NoWait).unwrap();
    assert_eq!(*seen.borrow(), vec![(first, stale), (first, second)]);
    assert_eq!(bot.orders(0).get(&1).unwrap().status, Status::Filled);
}

#[test]
fn order_hook_can_veto_an_update() {
    let mut bot = LiveBot::builder()
        .add(slot("x", "BTC", 0))
        .order_recv_hook(|_existing: &Order, update: &Order| {
            if update.status == Status::Filled {
                Err(BotError::Custom("no fills".to_string()))
            } else {
                Ok(())
            }
        })
        .build()
        .unwrap();
    let unknown = update(1, Status::Filled, 5);
    assert_eq!(bot.process_event(order_event("BTC", unknown), WaitOrderResponse::Any), Ok(true));
    bot.process_event(order_event("BTC", update(2, Status::New, 5)), WaitOrderResponse::Any).unwrap();
    let before = bot.orders(0).clone();
    let vetoed = bot.process_event(order_event("BTC", update(2, Status::Filled, 6)), WaitOrderResponse::Any);
    assert_eq!(vetoed, Err(BotError::Custom("no fills".to_string())));
    assert_eq!(bot.orders(0), &before);
    let (_, exchange, _) = bot.order_latency(0).unwrap();
    assert_eq!(exchange, 6);
}

#[test]
fn error_handler_decides_on_connector_errors() {
    let seen: Rc<RefCell<Vec<LiveError>>> = Rc::new(RefCell::new(Vec::new()));
    let log = seen.clone();
    let mut bot = LiveBot::builder()
        .add(slot("x", "BTC", 0))
        .error_handler(move |error: LiveError| {
            log.borrow_mut().push(error.clone());
            match error.kind {
                ErrorKind::CriticalConnectionError => Err(BotError::Custom(error.message)),
                _ => Ok(()),
            }
        })
        .build()
        .unwrap();
    let mild = LiveError { kind: ErrorKind::ConnectionInterrupted, message: "again".to_string() };
    assert_eq!(bot.process_event(LiveEvent::Error(mild.clone()), WaitOrderResponse::Any), Ok(false));
    let grave = LiveError { kind: ErrorKind::CriticalConnectionError, message: "lost".to_string() };
    assert_eq!(
        bot.process_event(LiveEvent::Error(grave.clone()), WaitOrderResponse::Any),
        Err(BotError::Custom("lost".to_string()))
    );
    assert_eq!(*seen.borrow(), vec![mild, grave]);
}

#[test]
fn connector_error_without_a_handler_is_ignored() {
    let mut bot = LiveBot::builder().add(slot("x", "BTC", 0)).build().unwrap();
    let error = LiveError { kind: ErrorKind::Custom(-4), message: String::new() };
    assert_eq!(bot.process_event(LiveEvent::Error(error), WaitOrderResponse::Any), Ok(false));
}

#[test]
fn later_hook_replaces_the_earlier_one() {
    let mut bot = LiveBot::builder()
        .add(slot("x", "BTC", 0))
        .order_recv_hook(|_: &Order, _: &Order| Err(BotError::Custom("first".to_string())))
        .order_recv_hook(|_: &Order, _: &Order| Err(BotError::Custom("second".to_string())))
        .error_handler(|_| Err(BotError::Timeout))
        .error_handler(|_| Err(BotError::Interrupted))
        .build()
        .unwrap();
    bot.process_event(order_event("BTC", update(1, Status::New, 1)), WaitOrderResponse::NoWait).unwrap();
    assert_eq!(
        bot.process_event(order_event("BTC", update(1, Status::New, 2)), WaitOrderResponse::NoWait),
        Err(BotError::Custom("second".to_string()))
    );
    let error = LiveError { kind: ErrorKind::OrderError, message: String::new() };
    assert_eq!(
        bot.process_event(LiveEvent::Error(error), WaitOrderResponse::NoWait),
        Err(BotError::Interrupted)
    );
}

#[test]
fn fresh_instrument_holds_nothing() {
    let slot: Instrument<Book> = Instrument::new("conn", "SYM", num(0.5), num(0.001), Book::default(), 3);
    assert_eq!(slot.connector_name(), "conn");
    assert_eq!(slot.symbol(), "SYM");
    assert_eq!(slot.tick_size(), num(0.5));
    assert_eq!(slot.lot_size(), num(0.001));
    assert_eq!(slot.trade_capacity(), 3);
    assert!(slot.orders().is_empty());
    assert!(slot.last_trades().is_empty());
    assert_eq!(slot.position(), Real::zero());
    assert_eq!(Real::zero().to_bits(), 0.0f64.to_bits());
    assert_eq!(slot.state_values(), &StateValues::zeroed());
    assert_eq!(slot.feed_latency(), None);
    assert_eq!(slot.order_latency(), None);
    assert_eq!(slot.depth(), &Book::default());
    assert_eq!(slot.lookup(1), None);
}

#[test]
fn slot_operations_on_their_own() {
    let mut slot: Instrument<Book> = Instrument::new("conn", "SYM", num(0.5), num(0.001), Book::default(), 1);
    let open = update(3, Status::New, 1);
    slot.open_order(open);
    assert_eq!(slot.lookup(3), Some(open));
    assert_eq!(slot.receive_order(update(3, Status::Filled, 2), 100, Err(BotError::Timeout)), Err(BotError::Timeout));
    assert_eq!(slot.lookup(3), Some(open));
    assert_eq!(slot.order_latency(), Some((2, 2, 100)));
    assert_eq!(slot.receive_order(update(4, Status::New, 2), 101, Err(BotError::Timeout)), Ok(()));
    assert!(slot.lookup(4).is_some());
    assert_eq!(slot.request_cancel(9, 5), Err(BotError::OrderNotFound));
    let asked = slot.request_cancel(3, 5).unwrap();
    assert_eq!(asked, Order { req: Status::Canceled, local_timestamp: 5, ..open });
    assert_eq!(slot.lookup(3), Some(asked));
    assert_eq!(slot.receive_order(update(3, Status::Canceled, 2), 102, Ok(())), Ok(()));
    assert_eq!(slot.request_cancel(3, 6), Err(BotError::InvalidOrderStatus));
    slot.remove_if_inactive();
    assert_eq!(slot.lookup(3), None);
    assert!(slot.lookup(4).is_some());
    slot.apply_position(num(8.0));
    assert_eq!(slot.position(), num(8.0));
    slot.apply_feed(event(LOCAL_SELL_TRADE_EVENT, 7));
    assert_eq!(slot.last_trades().len(), 1);
    slot.clear_last_trades();
    assert!(slot.last_trades().is_empty());
}
