//! What holds of the order mirror and of the endpoints, on chosen values.
use live_bot::depth::MarketDepth;
use live_bot::types::{
    LiveEvent, OrdType, Order, OrderRequest, Real, Request, Side, Status, TimeInForce,
    WaitOrderResponse,
};
use live_bot::{BotError, BuildError, Instrument, LiveBot};

#[derive(Debug, Default)]
struct NoBook;

impl MarketDepth for NoBook {
    fn update_bid_depth(&mut self, _px: Real, _qty: Real, _timestamp: i64) {}

    fn update_ask_depth(&mut self, _px: Real, _qty: Real, _timestamp: i64) {}
}

fn num(x: f64) -> Real {
    Real::from_bits(x.to_bits())
}

fn slot(connector: &str, symbol: &str, tick_size: f64) -> Instrument<NoBook> {
    Instrument::new(connector, symbol, num(tick_size), num(1.0), NoBook, 0)
}

fn bot_of(pairs: &[(&str, &str)]) -> LiveBot<NoBook> {
    let mut builder = LiveBot::builder().id(1);
    for (connector, symbol) in pairs {
        builder = builder.add(slot(connector, symbol, 0.01));
    }
    builder.build().unwrap()
}

fn update(order_id: u64, status: Status, exch_ts: i64) -> Order {
    Order {
        qty: num(5.0),
        leaves_qty: num(4.0),
        exec_qty: num(1.0),
        exec_price_tick: 9995,
        price_tick: 9995,
        tick_size: num(0.01),
        exch_timestamp: exch_ts,
        local_timestamp: 2,
        order_id,
        maker: false,
        order_type: OrdType::Limit,
        req: Status::Unset,
        status,
        side: Side::Sell,
        time_in_force: TimeInForce::GTX,
    }
}

fn receive(bot: &mut LiveBot<NoBook>, symbol: &str, order: Order) -> bool {
    bot.process_event(
        LiveEvent::Order { symbol: symbol.to_string(), order },
        WaitOrderResponse::NoWait,
    )
    .unwrap()
}

#[test]
fn submitted_order_is_mirrored_as_new() {
    let mut bot = bot_of(&[("x", "ETH")]);
    let tick = (99.95f64 / 0.01).round() as i64;
    assert_eq!(tick, 9995);
    let before = bot.current_timestamp();
    bot.submit_sell_order(0, 42, tick, num(5.0), TimeInForce::GTX, OrdType::Limit, false).unwrap();
    let after = bot.current_timestamp();
    assert_eq!(bot.orders(0).len(), 1);
    let order = *bot.orders(0).get(&42).unwrap();
    assert_eq!(order.status, Status::New);
    assert_eq!(order.req, Status::New);
    assert_eq!(order.price_tick, 9995);
    assert_eq!(order.order_id, 42);
    assert_eq!(order.side, Side::Sell);
    assert_eq!(order.qty, num(5.0));
    assert_eq!(order.leaves_qty, num(5.0));
    assert_eq!(order.exec_qty, num(0.0));
    assert_eq!(order.exec_price_tick, 0);
    assert_eq!(order.exch_timestamp, 0);
    assert_eq!(order.tick_size, num(0.01));
    assert_eq!(order.time_in_force, TimeInForce::GTX);
    assert_eq!(order.order_type, OrdType::Limit);
    assert!(!order.maker);
    assert!(before <= order.local_timestamp && order.local_timestamp <= after);
}

#[test]
fn submit_buy_and_submit_by_request_set_the_side() {
    let mut bot = bot_of(&[("x", "ETH")]);
    bot.submit_buy_order(0, 1, 10, num(1.0), TimeInForce::GTC, OrdType::Market, false).unwrap();
    assert_eq!(bot.orders(0).get(&1).unwrap().side, Side::Buy);
    assert_eq!(bot.orders(0).get(&1).unwrap().order_type, OrdType::Market);
    let request = OrderRequest {
        order_id: 2,
        price_tick: -3,
        qty: num(0.5),
        side: Side::Sell,
        time_in_force: TimeInForce::IOC,
        order_type: OrdType::Limit,
    };
    let out = bot.submit(0, request, true).unwrap();
    let order = *bot.orders(0).get(&2).unwrap();
    assert_eq!(order.side, Side::Sell);
    assert_eq!(order.price_tick, -3);
    assert_eq!(order.time_in_force, TimeInForce::IOC);
    assert_eq!(
        out.wait.unwrap().wait_order_response,
        WaitOrderResponse::Specified { asset_no: 0, order_id: 2 }
    );
}

#[test]
fn exchange_timestamp_never_decreases() {
    let mut bot = bot_of(&[("x", "ETH")]);
    bot.submit_sell_order(0, 1, 9995, num(5.0), TimeInForce::GTC, OrdType::Limit, false).unwrap();
    let mut last = bot.orders(0).get(&1).unwrap().exch_timestamp;
    for exch_ts in [5, 3, 9, 9, 1, 12, 11, 0, 30] {
        receive(&mut bot, "ETH", update(1, Status::PartiallyFilled, exch_ts));
        let now = bot.orders(0).get(&1).unwrap().exch_timestamp;
        assert!(now >= last);
        assert_eq!(now, exch_ts.max(last));
        last = now;
    }
    assert_eq!(last, 30);
}

#[test]
fn update_with_the_same_timestamp_is_taken_over() {
    let mut bot = bot_of(&[("x", "ETH")]);
    receive(&mut bot, "ETH", update(1, Status::New, 10));
    receive(&mut bot, "ETH", update(1, Status::PartiallyFilled, 10));
    assert_eq!(bot.orders(0).get(&1).unwrap().status, Status::PartiallyFilled);
}

#[test]
fn terminal_order_never_changes() {
    for terminal in [Status::Filled, Status::Canceled, Status::Expired, Status::Rejected] {
        let mut bot = bot_of(&[("x", "ETH")]);
        bot.submit_sell_order(0, 1, 9995, num(5.0), TimeInForce::GTC, OrdType::Limit, false)
            .unwrap();
        receive(&mut bot, "ETH", update(1, terminal, 10));
        let settled = *bot.orders(0).get(&1).unwrap();
        assert_eq!(settled.status, terminal);

        receive(&mut bot, "ETH", update(1, Status::New, 11));
        receive(&mut bot, "ETH", update(1, Status::PartiallyFilled, 10));
        receive(&mut bot, "ETH", update(1, Status::Canceled, 99));
        receive(&mut bot, "ETH", update(1, Status::Filled, 5));
        assert_eq!(bot.cancel(0, 1, false), Err(BotError::InvalidOrderStatus));
        assert_eq!(
            bot.submit_sell_order(0, 1, 1, num(1.0), TimeInForce::GTC, OrdType::Limit, false),
            Err(BotError::OrderIdExist)
        );
        assert_eq!(*bot.orders(0).get(&1).unwrap(), settled);
    }
}

#[test]
fn status_that_is_not_terminal_keeps_the_order_open() {
    for open in [Status::Unset, Status::New, Status::PartiallyFilled, Status::Unsupported] {
        assert!(!open.is_terminal());
        let mut order = update(1, open, 1);
        assert!(order.active());
        assert!(order.cancellable());
        assert!(!order.is_terminal());
        order.update(&update(1, Status::Filled, 7));
        assert!(order.is_terminal());
        assert!(!order.active());
        assert!(!order.cancellable());
    }
}

#[test]
fn clear_inactive_orders_keeps_exactly_the_active() {
    let mut bot = bot_of(&[("x", "ETH"), ("x", "BTC")]);
    let statuses = [
        Status::New,
        Status::PartiallyFilled,
        Status::Filled,
        Status::Canceled,
        Status::Expired,
        Status::Rejected,
        Status::Unset,
        Status::Unsupported,
    ];
    for (n, status) in statuses.iter().enumerate() {
        receive(&mut bot, "ETH", update(n as u64, *status, 1));
        receive(&mut bot, "BTC", update(n as u64, *status, 1));
    }
    let eth_before = bot.orders(0).clone();
    let btc_before = bot.orders(1).clone();
    assert_eq!(eth_before.len(), 8);

    bot.clear_inactive_orders(Some(0));
    let mut kept: Vec<u64> = bot.orders(0).keys().copied().collect();
    kept.sort();
    assert_eq!(kept, vec![0, 1, 6, 7]);
    for id in kept {
        assert_eq!(bot.orders(0).get(&id), eth_before.get(&id));
    }
    assert_eq!(bot.orders(1), &btc_before);

    bot.clear_inactive_orders(Some(5));
    assert_eq!(bot.orders(1), &btc_before);

    bot.clear_inactive_orders(None);
    assert_eq!(bot.orders(0).len(), 4);
    assert_eq!(bot.orders(1).len(), 4);
    assert!(bot.orders(1).values().all(|order| order.active()));

    bot.clear_inactive_orders(None);
    assert_eq!(bot.orders(1).len(), 4);
}

#[test]
fn identical_pairs_fail_the_build() {
    let built = LiveBot::builder()
        .add(slot("x", "ETH", 0.01))
        .add(slot("y", "ETH", 0.01))
        .add(slot("x", "BTC", 0.01))
        .add(slot("y", "ETH", 0.5))
        .add(slot("x", "ETH", 0.01))
        .build();
    match built {
        Err(error) => {
            assert_eq!(error, BuildError::Duplicate("y".to_string(), "ETH".to_string()))
        }
        Ok(_) => panic!("the fourth instrument repeats the second"),
    }
}

#[test]
fn pairs_that_only_look_alike_when_joined_are_distinct() {
    let bot = bot_of(&[("a/b", "c"), ("a", "b/c"), ("a", "c"), ("", "a"), ("a", "")]);
    assert_eq!(bot.num_assets(), 5);
}

#[test]
fn build_without_instruments_gives_an_empty_bot() {
    let bot = LiveBot::<NoBook>::builder().id(9).build().unwrap();
    assert_eq!(bot.num_assets(), 0);
    assert_eq!(bot.id(), 9);
    assert!(bot.channels().is_empty());
    assert!(bot.add_instrument_requests().is_empty());
}

#[test]
fn instruments_of_one_connector_share_its_endpoint() {
    let mut bot = bot_of(&[("x", "A"), ("y", "B"), ("x", "C"), ("z", "D"), ("y", "E")]);
    assert_eq!(bot.channels(), &vec!["x".to_string(), "y".to_string(), "z".to_string()]);
    let endpoints: Vec<usize> = (0..bot.num_assets()).map(|asset_no| bot.endpoint(asset_no)).collect();
    assert_eq!(endpoints, vec![0, 1, 0, 2, 1]);

    let requests = bot.add_instrument_requests();
    assert_eq!(requests.len(), 5);
    for (asset_no, out) in requests.iter().enumerate() {
        assert_eq!(out.asset_no, asset_no);
        assert_eq!(out.endpoint, endpoints[asset_no]);
        assert!(out.wait.is_none());
    }
    assert_eq!(
        requests[2].request,
        Request::AddInstrument { symbol: "C".to_string(), tick_size: num(0.01) }
    );

    let out = bot.submit_buy_order(4, 1, 5, num(1.0), TimeInForce::GTC, OrdType::Limit, false).unwrap();
    assert_eq!((out.asset_no, out.endpoint), (4, 1));
    let out = bot.cancel(4, 1, false).unwrap();
    assert_eq!((out.asset_no, out.endpoint), (4, 1));
}

#[test]
fn same_update_twice_is_as_once() {
    for first in [Status::New, Status::PartiallyFilled, Status::Filled] {
        let mut once = bot_of(&[("x", "ETH")]);
        let mut twice = bot_of(&[("x", "ETH")]);
        for bot in [&mut once, &mut twice] {
            bot.submit_sell_order(0, 1, 9995, num(5.0), TimeInForce::GTC, OrdType::Limit, false)
                .unwrap();
            receive(bot, "ETH", update(2, Status::New, 4));
        }
        let submitted_at = once.orders(0).get(&1).unwrap().local_timestamp;
        for id in [1, 2, 3] {
            receive(&mut once, "ETH", update(id, first, 8));
            receive(&mut twice, "ETH", update(id, first, 8));
            receive(&mut twice, "ETH", update(id, first, 8));
        }
        let mut expected = once.orders(0).clone();
        let mut found = twice.orders(0).clone();
        for orders in [&mut expected, &mut found] {
            for order in orders.values_mut() {
                if order.local_timestamp != 2 {
                    order.local_timestamp = submitted_at;
                }
            }
        }
        assert_eq!(found, expected);
        assert_eq!(found.len(), 3);
    }
}

#[test]
fn older_update_after_a_newer_one_is_dropped() {
    let mut bot = bot_of(&[("x", "ETH")]);
    receive(&mut bot, "ETH", update(1, Status::PartiallyFilled, 20));
    let newer = bot.orders(0).clone();
    let mut older = update(1, Status::New, 19);
    older.leaves_qty = num(5.0);
    older.exec_qty = num(0.0);
    older.local_timestamp = 77;
    receive(&mut bot, "ETH", older);
    assert_eq!(bot.orders(0), &newer);
    let latency = bot.order_latency(0).unwrap();
    assert_eq!((latency.0, latency.1), (77, 19));
}

#[test]
fn update_takes_over_only_what_the_connector_reports() {
    let mut bot = bot_of(&[("x", "ETH")]);
    bot.submit_buy_order(0, 1, 123, num(7.0), TimeInForce::FOK, OrdType::Market, false).unwrap();
    let submitted = *bot.orders(0).get(&1).unwrap();
    let mut reported = update(1, Status::PartiallyFilled, 6);
    reported.maker = true;
    receive(&mut bot, "ETH", reported);
    let merged = *bot.orders(0).get(&1).unwrap();
    assert_eq!(merged.status, Status::PartiallyFilled);
    assert_eq!(merged.exch_timestamp, 6);
    assert_eq!(merged.local_timestamp, 2);
    assert_eq!(merged.leaves_qty, num(4.0));
    assert_eq!(merged.exec_qty, num(1.0));
    assert_eq!(merged.exec_price_tick, 9995);
    assert!(merged.maker);
    assert_eq!(merged.qty, submitted.qty);
    assert_eq!(merged.price_tick, 123);
    assert_eq!(merged.side, Side::Buy);
    assert_eq!(merged.time_in_force, TimeInForce::FOK);
    assert_eq!(merged.order_type, OrdType::Market);
    assert_eq!(merged.req, Status::New);
    assert_eq!(merged.tick_size, submitted.tick_size);
}

#[test]
fn unknown_order_is_mirrored_as_it_comes() {
    let mut bot = bot_of(&[("x", "ETH")]);
    let reported = update(5, Status::Filled, 3);
    receive(&mut bot, "ETH", reported);
    assert_eq!(*bot.orders(0).get(&5).unwrap(), reported);
}

#[test]
fn cancel_records_the_request_and_publishes_the_order() {
    let mut bot = bot_of(&[("x", "ETH")]);
    bot.submit_buy_order(0, 1, 123, num(7.0), TimeInForce::GTC, OrdType::Limit, false).unwrap();
    receive(&mut bot, "ETH", update(1, Status::PartiallyFilled, 6));
    let open = *bot.orders(0).get(&1).unwrap();
    let before = bot.current_timestamp();
    let out = bot.cancel(0, 1, true).unwrap();
    let after = bot.current_timestamp();
    let asked = *bot.orders(0).get(&1).unwrap();
    assert_eq!(asked.req, Status::Canceled);
    assert_eq!(asked.status, Status::PartiallyFilled);
    assert!(before <= asked.local_timestamp && asked.local_timestamp <= after);
    assert_eq!(Order { req: open.req, local_timestamp: open.local_timestamp, ..asked }, open);
    assert_eq!(out.request, Request::Order { symbol: "ETH".to_string(), order: asked });
    let run = out.wait.unwrap();
    assert_eq!(run.duration, 60_000_000_000);
    assert_eq!(run.wait_order_response, WaitOrderResponse::Specified { asset_no: 0, order_id: 1 });
}
