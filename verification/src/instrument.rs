//! The slot of one instrument: its book, the mirror of its orders, its position,
//! its recent trades and the last latencies seen.
use std::collections::HashMap;
use vstd::prelude::*;
use vstd::std_specs::iter::IteratorSpec;
use vstd::string::StringExecFns;
use crate::depth::MarketDepth;
use crate::error::BotError;
use crate::types::{
    Event, Order, Real, StateValues, Status, LOCAL_ASK_DEPTH_EVENT, LOCAL_BID_DEPTH_EVENT,
    LOCAL_BUY_TRADE_EVENT, LOCAL_SELL_TRADE_EVENT,
};

verus! {

broadcast use vstd::std_specs::hash::group_hash_axioms;

/// Whether the mirror takes over the connector's `update` of `entry`: the update
/// is not older than what the mirror has, and the entry is not final yet.
pub open spec fn accepts(entry: Order, update: Order) -> bool {
    update.exch_timestamp >= entry.exch_timestamp && !entry.spec_is_terminal()
}

/// What the mirror holds under an order's id once the connector's `update` of that
/// order has been reconciled with what it held before.
///
/// An unknown order is taken as it comes. A known one takes over the update's
/// fields if it accepts the update, and stays as it is otherwise.
pub open spec fn reconcile(existing: Option<Order>, update: Order) -> Order {
    match existing {
        None => update,
        Some(entry) => if accepts(entry, update) {
            entry.merged(update)
        } else {
            entry
        },
    }
}

/// The orders of `orders` that are still active.
pub open spec fn active_orders(orders: Map<u64, Order>) -> Map<u64, Order> {
    Map::new(|id: u64| orders.contains_key(id) && orders[id].spec_active(), |id: u64| orders[id])
}

/// What an instrument slot holds, but for its book.
#[verifier::ext_equal]
pub struct InstrumentView {
    pub connector_name: Seq<char>,
    pub symbol: Seq<char>,
    pub tick_size: Real,
    pub lot_size: Real,
    /// The mirror: each order under its id.
    pub orders: Map<u64, Order>,
    pub state: StateValues,
    /// The trades seen since they were last cleared, oldest first.
    pub last_trades: Seq<Event>,
    /// The capacity the slot was made with; with 0 no trade is kept.
    pub trade_capacity: usize,
    /// Exchange and local timestamp of the last market-data event.
    pub last_feed_latency: Option<(i64, i64)>,
    /// Request, exchange and receipt timestamp of the last order update.
    pub last_order_latency: Option<(i64, i64, i64)>,
}

impl InstrumentView {
    /// Every order is mirrored under its own id, and a slot that keeps no trades
    /// holds none.
    pub open spec fn wf(self) -> bool {
        &&& forall|id: u64| #[trigger]
            self.orders.contains_key(id) ==> self.orders[id].order_id == id
        &&& self.trade_capacity == 0 ==> self.last_trades.len() == 0
    }

    /// A fresh slot: no orders, no trades, nothing seen yet.
    pub open spec fn fresh(
        connector_name: Seq<char>,
        symbol: Seq<char>,
        tick_size: Real,
        lot_size: Real,
        trade_capacity: usize,
    ) -> InstrumentView {
        InstrumentView {
            connector_name,
            symbol,
            tick_size,
            lot_size,
            orders: Map::empty(),
            state: StateValues::spec_zeroed(),
            last_trades: Seq::empty(),
            trade_capacity,
            last_feed_latency: None,
            last_order_latency: None,
        }
    }

    /// The slot after the market-data event `event`: the feed latency is that of
    /// the event, and a trade is appended if the slot keeps trades.
    pub open spec fn fed(self, event: Event) -> InstrumentView {
        InstrumentView {
            last_feed_latency: Some((event.exch_ts, event.local_ts)),
            last_trades: if event.is_trade() && self.trade_capacity > 0 {
                self.last_trades.push(event)
            } else {
                self.last_trades
            },
            ..self
        }
    }

    /// The slot after the connector reported the position `qty`.
    pub open spec fn positioned(self, qty: Real) -> InstrumentView {
        InstrumentView { state: StateValues { position: qty, ..self.state }, ..self }
    }

    /// The slot with `order` mirrored under its id.
    pub open spec fn opened(self, order: Order) -> InstrumentView {
        InstrumentView { orders: self.orders.insert(order.order_id, order), ..self }
    }

    /// What receiving `update` returns when the order hook, asked about it, gave
    /// `verdict`: the hook is asked only about an order that is mirrored already.
    pub open spec fn receive_result(self, update: Order, verdict: Result<(), BotError>) -> Result<
        (),
        BotError,
    > {
        if self.orders.contains_key(update.order_id) {
            verdict
        } else {
            Ok(())
        }
    }

    /// The slot after the connector's `update` of an order was received at `now`
    /// and the order hook gave `verdict`.
    ///
    /// The order latency is refreshed in any case. The mirror is reconciled
    /// unless the hook objected.
    pub open spec fn received(
        self,
        update: Order,
        now: i64,
        verdict: Result<(), BotError>,
    ) -> InstrumentView {
        let latency = Some((update.local_timestamp, update.exch_timestamp, now));
        if self.receive_result(update, verdict) is Err {
            InstrumentView { last_order_latency: latency, ..self }
        } else {
            InstrumentView {
                last_order_latency: latency,
                orders: self.orders.insert(
                    update.order_id,
                    reconcile(self.orders.get(update.order_id), update),
                ),
                ..self
            }
        }
    }

    /// Whether a cancel of order `order_id` may be requested, and why not.
    pub open spec fn cancel_result(self, order_id: u64) -> Result<(), BotError> {
        if !self.orders.contains_key(order_id) {
            Err(BotError::OrderNotFound)
        } else if !self.orders[order_id].spec_cancellable() {
            Err(BotError::InvalidOrderStatus)
        } else {
            Ok(())
        }
    }

    /// The slot after a cancel of order `order_id` was asked for at `now`: where
    /// the cancel may be requested the order records the request, else nothing
    /// changes.
    pub open spec fn cancel_requested(self, order_id: u64, now: i64) -> InstrumentView {
        if self.cancel_result(order_id) is Ok {
            InstrumentView {
                orders: self.orders.insert(order_id, self.orders[order_id].cancel_requested(now)),
                ..self
            }
        } else {
            self
        }
    }

    /// The slot with only its active orders left.
    pub open spec fn without_inactive(self) -> InstrumentView {
        InstrumentView { orders: active_orders(self.orders), ..self }
    }

    /// The slot with its recent trades cleared.
    pub open spec fn without_trades(self) -> InstrumentView {
        InstrumentView { last_trades: Seq::empty(), ..self }
    }
}

/// What a market-data event makes of a book: a bid event updates the bid side, an
/// ask event the ask side, and any other event leaves the book alone.
pub open spec fn depth_fed<MD: MarketDepth>(pre: MD, event: Event, post: MD) -> bool {
    if event.is_bid_depth() {
        MD::bid_updated(pre, event.px, event.qty, event.exch_ts, post)
    } else if event.is_ask_depth() {
        MD::ask_updated(pre, event.px, event.qty, event.exch_ts, post)
    } else {
        post == pre
    }
}

/// One instrument of the bot.
pub struct Instrument<MD> {
    connector_name: String,
    symbol: String,
    tick_size: Real,
    lot_size: Real,
    depth: MD,
    last_trades: Vec<Event>,
    trade_capacity: usize,
    orders: HashMap<u64, Order>,
    last_feed_latency: Option<(i64, i64)>,
    last_order_latency: Option<(i64, i64, i64)>,
    state: StateValues,
}

impl<MD: MarketDepth> View for Instrument<MD> {
    type V = InstrumentView;

    closed spec fn view(&self) -> InstrumentView {
        InstrumentView {
            connector_name: self.connector_name@,
            symbol: self.symbol@,
            tick_size: self.tick_size,
            lot_size: self.lot_size,
            orders: self.orders@,
            state: self.state,
            last_trades: self.last_trades@,
            trade_capacity: self.trade_capacity,
            last_feed_latency: self.last_feed_latency,
            last_order_latency: self.last_order_latency,
        }
    }
}

/// The ids under which `orders` holds an order.
fn order_ids(orders: &HashMap<u64, Order>) -> (ids: Vec<u64>)
    ensures
        ids@.to_set() == orders@.dom(),
{
    let mut ids: Vec<u64> = Vec::new();
    let ghost keys = vstd::std_specs::hash::spec_keys_iter(orders).remaining().unref();
    for id in it: orders.keys()
        invariant
            it.seq().unref() == keys,
            ids@.len() == it.index(),
            ids@ == keys.take(it.index()),
    {
        ids.push(*id);
    }
    assert(keys.take(keys.len() as int) == keys);
    ids
}

/// Removes from `orders` every order that is no longer active.
fn retain_active(orders: &mut HashMap<u64, Order>)
    ensures
        final(orders)@ == active_orders(old(orders)@),
{
    let ids = order_ids(orders);
    let ghost before = orders@;
    let mut i: usize = 0;
    while i < ids.len()
        invariant
            i <= ids.len(),
            ids@.to_set() == before.dom(),
            orders@ == Map::new(
                |id: u64|
                    before.contains_key(id) && (before[id].spec_active() || !ids@.take(
                        i as int,
                    ).contains(id)),
                |id: u64| before[id],
            ),
        decreases ids.len() - i,
    {
        let id: u64 = ids[i];
        let ghost done = ids@.take(i as int);
        assert(ids@.take(i as int + 1) == done.push(id));
        assert(forall|k: u64| done.push(id).contains(k) <==> done.contains(k) || k == id) by {
            assert(done.push(id).last() == id);
        }
        let inactive = match orders.get(&id) {
            Some(order) => !order.active(),
            None => false,
        };
        if inactive {
            orders.remove(&id);
        }
        i += 1;
    }
    assert(ids@.take(ids@.len() as int) == ids@);
}

impl<MD: MarketDepth> Instrument<MD> {
    /// The book of the slot.
    pub closed spec fn depth_view(&self) -> MD {
        self.depth
    }

    /// The slot is well formed when what it holds is.
    pub open spec fn wf(&self) -> bool {
        self@.wf()
    }

    /// A fresh slot for `symbol` as traded through the connector `connector_name`.
    /// With `last_trades_capacity` 0 the slot keeps no trades.
    pub fn new(
        connector_name: &str,
        symbol: &str,
        tick_size: Real,
        lot_size: Real,
        depth: MD,
        last_trades_capacity: usize,
    ) -> (slot: Self)
        ensures
            slot.wf(),
            slot@ == InstrumentView::fresh(
                connector_name@,
                symbol@,
                tick_size,
                lot_size,
                last_trades_capacity,
            ),
            slot.depth_view() == depth,
    {
        Instrument {
            connector_name: String::from_str(connector_name),
            symbol: String::from_str(symbol),
            tick_size,
            lot_size,
            depth,
            last_trades: Vec::with_capacity(last_trades_capacity),
            trade_capacity: last_trades_capacity,
            orders: HashMap::new(),
            last_feed_latency: None,
            last_order_latency: None,
            state: StateValues::zeroed(),
        }
    }

    /// The name of the connector through which the instrument is traded.
    pub fn connector_name(&self) -> (name: &String)
        ensures
            name@ == self@.connector_name,
    {
        &self.connector_name
    }

    /// The symbol of the instrument.
    pub fn symbol(&self) -> (symbol: &String)
        ensures
            symbol@ == self@.symbol,
    {
        &self.symbol
    }

    /// The minimum price increment.
    pub fn tick_size(&self) -> (tick_size: Real)
        ensures
            tick_size == self@.tick_size,
    {
        self.tick_size
    }

    /// The minimum quantity increment.
    pub fn lot_size(&self) -> (lot_size: Real)
        ensures
            lot_size == self@.lot_size,
    {
        self.lot_size
    }

    /// The book.
    pub fn depth(&self) -> (depth: &MD)
        ensures
            *depth == self.depth_view(),
    {
        &self.depth
    }

    /// The mirror of the instrument's orders.
    pub fn orders(&self) -> (orders: &HashMap<u64, Order>)
        ensures
            orders@ == self@.orders,
    {
        &self.orders
    }

    /// The running values.
    pub fn state_values(&self) -> (state: &StateValues)
        ensures
            *state == self@.state,
    {
        &self.state
    }

    /// The position.
    pub fn position(&self) -> (position: Real)
        ensures
            position == self@.state.position,
    {
        self.state.position
    }

    /// The trades seen since they were last cleared, oldest first.
    pub fn last_trades(&self) -> (trades: &[Event])
        ensures
            trades@ == self@.last_trades,
    {
        self.last_trades.as_slice()
    }

    /// The capacity for recent trades that the slot was made with.
    pub fn trade_capacity(&self) -> (capacity: usize)
        ensures
            capacity == self@.trade_capacity,
    {
        self.trade_capacity
    }

    /// Exchange and local timestamp of the last market-data event.
    pub fn feed_latency(&self) -> (latency: Option<(i64, i64)>)
        ensures
            latency == self@.last_feed_latency,
    {
        self.last_feed_latency
    }

    /// Request, exchange and receipt timestamp of the last order update.
    pub fn order_latency(&self) -> (latency: Option<(i64, i64, i64)>)
        ensures
            latency == self@.last_order_latency,
    {
        self.last_order_latency
    }

    /// Applies one market-data event: a depth event updates its side of the book,
    /// a trade is appended to the recent trades if the slot keeps any, and the
    /// feed latency becomes that of the event.
    pub fn apply_feed(&mut self, event: Event)
        requires
            old(self).wf(),
        ensures
            final(self).wf(),
            final(self)@ == old(self)@.fed(event),
            depth_fed(old(self).depth_view(), event, final(self).depth_view()),
    {
        self.last_feed_latency = Some((event.exch_ts, event.local_ts));
        if event.is(LOCAL_BID_DEPTH_EVENT) {
            self.depth.update_bid_depth(event.px, event.qty, event.exch_ts);
        } else if event.is(LOCAL_ASK_DEPTH_EVENT) {
            self.depth.update_ask_depth(event.px, event.qty, event.exch_ts);
        } else if event.is(LOCAL_BUY_TRADE_EVENT) || event.is(LOCAL_SELL_TRADE_EVENT) {
            if self.trade_capacity > 0 {
                self.last_trades.push(event);
            }
        }
    }

    /// Overwrites the position with what the connector reports.
    pub fn apply_position(&mut self, qty: Real)
        requires
            old(self).wf(),
        ensures
            final(self).wf(),
            final(self)@ == old(self)@.positioned(qty),
            final(self).depth_view() == old(self).depth_view(),
    {
        self.state.position = qty;
    }

    /// The mirrored order with this id, if there is one.
    pub fn lookup(&self, order_id: u64) -> (order: Option<Order>)
        ensures
            order == self@.orders.get(order_id),
    {
        match self.orders.get(&order_id) {
            Some(order) => Some(*order),
            None => None,
        }
    }

    /// Mirrors `order` under its id, in place of what was there.
    pub fn open_order(&mut self, order: Order)
        requires
            old(self).wf(),
        ensures
            final(self).wf(),
            final(self)@ == old(self)@.opened(order),
            final(self).depth_view() == old(self).depth_view(),
    {
        self.orders.insert(order.order_id, order);
    }

    /// Reconciles the mirror with the connector's `update` of an order, received
    /// at `now`, where the order hook gave `verdict` on it.
    ///
    /// The order latency is refreshed first. An order that is not mirrored yet is
    /// taken as it comes. For one that is, an `Err` of the hook is returned and the
    /// mirror stays; otherwise an update older than the mirror's entry, or one of
    /// an order that is final, is dropped, and any other is taken over.
    pub fn receive_order(&mut self, update: Order, now: i64, verdict: Result<(), BotError>) -> (r:
        Result<(), BotError>)
        requires
            old(self).wf(),
        ensures
            final(self).wf(),
            final(self)@ == old(self)@.received(update, now, verdict),
            r == old(self)@.receive_result(update, verdict),
            final(self).depth_view() == old(self).depth_view(),
    {
        self.last_order_latency = Some((update.local_timestamp, update.exch_timestamp, now));
        match self.lookup(update.order_id) {
            Some(existing) => match verdict {
                Err(error) => Err(error),
                Ok(accepted) => {
                    let mut entry = existing;
                    if update.exch_timestamp >= entry.exch_timestamp {
                        if !entry.is_terminal() {
                            entry.update(&update);
                            self.orders.insert(update.order_id, entry);
                        }
                    }
                    Ok(accepted)
                },
            },
            None => {
                self.orders.insert(update.order_id, update);
                Ok(())
            },
        }
    }

    /// Records at `now` that a cancel of order `order_id` is requested, and returns
    /// the order as it then stands.
    ///
    /// Fails with `OrderNotFound` if no such order is mirrored and with
    /// `InvalidOrderStatus` if it cannot be cancelled; the slot is then unchanged.
    pub fn request_cancel(&mut self, order_id: u64, now: i64) -> (r: Result<Order, BotError>)
        requires
            old(self).wf(),
        ensures
            final(self).wf(),
            final(self)@ == old(self)@.cancel_requested(order_id, now),
            final(self).depth_view() == old(self).depth_view(),
            (match r {
                Ok(order) => old(self)@.cancel_result(order_id) is Ok && order == old(
                    self,
                )@.orders[order_id].cancel_requested(now),
                Err(error) => old(self)@.cancel_result(order_id) == Err::<(), BotError>(error)
                    && *final(self) == *old(self),
            }),
    {
        match self.lookup(order_id) {
            None => Err(BotError::OrderNotFound),
            Some(existing) => {
                if !existing.cancellable() {
                    return Err(BotError::InvalidOrderStatus);
                }
                let mut order = existing;
                order.req = Status::Canceled;
                order.local_timestamp = now;
                self.orders.insert(order_id, order);
                Ok(order)
            },
        }
    }

    /// Drops every order that is no longer active from the mirror.
    pub fn remove_if_inactive(&mut self)
        requires
            old(self).wf(),
        ensures
            final(self).wf(),
            final(self)@ == old(self)@.without_inactive(),
            final(self).depth_view() == old(self).depth_view(),
    {
        retain_active(&mut self.orders);
    }

    /// Forgets the recent trades.
    pub fn clear_last_trades(&mut self)
        requires
            old(self).wf(),
        ensures
            final(self).wf(),
            final(self)@ == old(self)@.without_trades(),
            final(self).depth_view() == old(self).depth_view(),
    {
        self.last_trades.clear();
    }
}

} // verus!
