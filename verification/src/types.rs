//! Plain data exchanged between a strategy, the bot and its connectors.
use vstd::prelude::*;

verus! {

/// A real quantity (a price, a size, a position) carried as the 64-bit pattern of
/// an IEEE-754 double.
///
/// The bot never computes with such a value, it only stores it and hands it on, so
/// the pattern is all it needs. Two values are equal when their patterns are.
#[derive(Clone, Copy, Debug, PartialEq, Eq, Structural)]
pub struct Real {
    pub bits: u64,
}

impl Real {
    /// The value with the given bit pattern.
    pub fn from_bits(bits: u64) -> (r: Real)
        ensures
            r.bits == bits,
    {
        Real { bits }
    }

    /// The bit pattern of this value.
    pub fn to_bits(self) -> (bits: u64)
        ensures
            bits == self.bits,
    {
        self.bits
    }

    /// Positive zero, whose pattern is all zeros.
    pub open spec fn spec_zero() -> Real {
        Real { bits: 0 }
    }

    /// Positive zero.
    #[verifier::when_used_as_spec(spec_zero)]
    pub fn zero() -> (r: Real)
        ensures
            r == Real::spec_zero(),
    {
        Real { bits: 0 }
    }
}

/// The side of an order.
#[derive(Clone, Copy, Debug, PartialEq, Eq, Structural)]
pub enum Side {
    Buy,
    Sell,
}

/// How long an order stays in force. The bot only carries it.
#[derive(Clone, Copy, Debug, PartialEq, Eq, Structural)]
pub enum TimeInForce {
    GTC,
    GTX,
    FOK,
    IOC,
    Unsupported,
}

/// The type of an order. The bot only carries it.
#[derive(Clone, Copy, Debug, PartialEq, Eq, Structural)]
pub enum OrdType {
    Limit,
    Market,
    Unsupported,
}

/// The status of an order, or the status that a request asks for.
#[derive(Clone, Copy, Debug, PartialEq, Eq, Structural)]
pub enum Status {
    /// No status: nothing was requested.
    Unset,
    New,
    PartiallyFilled,
    Filled,
    Canceled,
    Expired,
    Rejected,
    Unsupported,
}

impl Status {
    /// A terminal status is final: `Filled`, `Canceled`, `Expired` or `Rejected`.
    pub open spec fn spec_is_terminal(self) -> bool {
        self == Status::Filled || self == Status::Canceled || self == Status::Expired || self
            == Status::Rejected
    }

    /// Whether this status is terminal.
    #[verifier::when_used_as_spec(spec_is_terminal)]
    pub fn is_terminal(self) -> (r: bool)
        ensures
            r == self.spec_is_terminal(),
    {
        match self {
            Status::Filled | Status::Canceled | Status::Expired | Status::Rejected => true,
            Status::Unset | Status::New | Status::PartiallyFilled | Status::Unsupported => false,
        }
    }
}

/// An order as the bot mirrors it and as it travels to and from a connector.
#[derive(Clone, Copy, Debug, PartialEq, Eq, Structural)]
pub struct Order {
    pub qty: Real,
    pub leaves_qty: Real,
    pub exec_qty: Real,
    pub exec_price_tick: i64,
    pub price_tick: i64,
    pub tick_size: Real,
    /// Nanoseconds, as stamped by the exchange.
    pub exch_timestamp: i64,
    /// Nanoseconds, as stamped on this side.
    pub local_timestamp: i64,
    pub order_id: u64,
    pub maker: bool,
    pub order_type: OrdType,
    /// The status that the last local request asked for.
    pub req: Status,
    pub status: Status,
    pub side: Side,
    pub time_in_force: TimeInForce,
}

impl Order {
    /// The order that a submission puts into the mirror: status and request `New`,
    /// everything still to be executed, nothing heard from the exchange.
    pub open spec fn spec_submission(
        order_id: u64,
        price_tick: i64,
        qty: Real,
        tick_size: Real,
        side: Side,
        time_in_force: TimeInForce,
        order_type: OrdType,
        now: i64,
    ) -> Order {
        Order {
            qty,
            leaves_qty: qty,
            exec_qty: Real::spec_zero(),
            exec_price_tick: 0,
            price_tick,
            tick_size,
            exch_timestamp: 0,
            local_timestamp: now,
            order_id,
            maker: false,
            order_type,
            req: Status::New,
            status: Status::New,
            side,
            time_in_force,
        }
    }

    /// Builds the mirror entry of a new submission made at `now`.
    #[verifier::when_used_as_spec(spec_submission)]
    pub fn submission(
        order_id: u64,
        price_tick: i64,
        qty: Real,
        tick_size: Real,
        side: Side,
        time_in_force: TimeInForce,
        order_type: OrdType,
        now: i64,
    ) -> (order: Order)
        ensures
            order == Order::spec_submission(
                order_id,
                price_tick,
                qty,
                tick_size,
                side,
                time_in_force,
                order_type,
                now,
            ),
    {
        Order {
            qty,
            leaves_qty: qty,
            exec_qty: Real::zero(),
            exec_price_tick: 0,
            price_tick,
            tick_size,
            exch_timestamp: 0,
            local_timestamp: now,
            order_id,
            maker: false,
            order_type,
            req: Status::New,
            status: Status::New,
            side,
            time_in_force,
        }
    }

    /// An order is terminal when its status is.
    pub open spec fn spec_is_terminal(&self) -> bool {
        self.status.spec_is_terminal()
    }

    /// Whether the order has reached a final status.
    #[verifier::when_used_as_spec(spec_is_terminal)]
    pub fn is_terminal(&self) -> (r: bool)
        ensures
            r == self.spec_is_terminal(),
    {
        self.status.is_terminal()
    }

    /// An order is active until its status is terminal.
    pub open spec fn spec_active(&self) -> bool {
        !self.status.spec_is_terminal()
    }

    /// Whether the order is still open.
    #[verifier::when_used_as_spec(spec_active)]
    pub fn active(&self) -> (r: bool)
        ensures
            r == self.spec_active(),
    {
        !self.status.is_terminal()
    }

    /// An order can be cancelled as long as it is active.
    pub open spec fn spec_cancellable(&self) -> bool {
        self.spec_active()
    }

    /// Whether a cancel request may be sent for the order.
    #[verifier::when_used_as_spec(spec_cancellable)]
    pub fn cancellable(&self) -> (r: bool)
        ensures
            r == self.spec_cancellable(),
    {
        self.active()
    }

    /// This order with the fields that a connector's update overwrites taken from
    /// `update`: status, both timestamps, the remaining and executed quantities, the
    /// execution price and the maker flag. What was asked for stays as it is.
    pub open spec fn merged(self, update: Order) -> Order {
        Order {
            status: update.status,
            exch_timestamp: update.exch_timestamp,
            local_timestamp: update.local_timestamp,
            leaves_qty: update.leaves_qty,
            exec_qty: update.exec_qty,
            exec_price_tick: update.exec_price_tick,
            maker: update.maker,
            ..self
        }
    }

    /// Takes over the fields that a connector's update overwrites.
    pub fn update(&mut self, update: &Order)
        ensures
            *final(self) == old(self).merged(*update),
    {
        self.status = update.status;
        self.exch_timestamp = update.exch_timestamp;
        self.local_timestamp = update.local_timestamp;
        self.leaves_qty = update.leaves_qty;
        self.exec_qty = update.exec_qty;
        self.exec_price_tick = update.exec_price_tick;
        self.maker = update.maker;
    }

    /// This order after a cancel was requested for it at `now`.
    pub open spec fn cancel_requested(self, now: i64) -> Order {
        Order { req: Status::Canceled, local_timestamp: now, ..self }
    }
}

/// What a strategy asks for when it submits an order.
#[derive(Clone, Copy, Debug, PartialEq, Eq, Structural)]
pub struct OrderRequest {
    pub order_id: u64,
    pub price_tick: i64,
    pub qty: Real,
    pub side: Side,
    pub time_in_force: TimeInForce,
    pub order_type: OrdType,
}

/// The kind of a market-depth event, in the low byte of an event's flags.
pub const DEPTH_EVENT: u64 = 1;

/// The kind of a trade event, in the low byte of an event's flags.
pub const TRADE_EVENT: u64 = 2;

/// Set on an event of the buy side.
pub const BUY_EVENT: u64 = 0x2000_0000;

/// Set on an event of the sell side.
pub const SELL_EVENT: u64 = 0x1000_0000;

/// Set on an event as the local side sees it.
pub const LOCAL_EVENT: u64 = 0x4000_0000;

/// A change of the bid side of the book: `DEPTH_EVENT`, `BUY_EVENT` and `LOCAL_EVENT`.
pub const LOCAL_BID_DEPTH_EVENT: u64 = 0x6000_0001;

/// A change of the ask side of the book: `DEPTH_EVENT`, `SELL_EVENT` and `LOCAL_EVENT`.
pub const LOCAL_ASK_DEPTH_EVENT: u64 = 0x5000_0001;

/// A trade initiated by a buyer: `TRADE_EVENT`, `BUY_EVENT` and `LOCAL_EVENT`.
pub const LOCAL_BUY_TRADE_EVENT: u64 = 0x6000_0002;

/// A trade initiated by a seller: `TRADE_EVENT`, `SELL_EVENT` and `LOCAL_EVENT`.
pub const LOCAL_SELL_TRADE_EVENT: u64 = 0x5000_0002;

/// One market-data event.
#[derive(Clone, Copy, Debug, PartialEq, Eq, Structural)]
pub struct Event {
    /// The kind of the event in the low byte, flags above it.
    pub ev: u64,
    /// Nanoseconds, as stamped by the exchange.
    pub exch_ts: i64,
    /// Nanoseconds, as stamped when it was received.
    pub local_ts: i64,
    pub px: Real,
    pub qty: Real,
}

impl Event {
    /// An event is of the given kind when it carries every bit of `event` and, where
    /// `event` names a kind in its low byte, is of exactly that kind.
    pub open spec fn spec_is(&self, event: u64) -> bool {
        (self.ev & event) == event && ((event & 0xff) == 0 || (self.ev & 0xff) == (event & 0xff))
    }

    /// Whether the event is of the given kind.
    #[verifier::when_used_as_spec(spec_is)]
    pub fn is(&self, event: u64) -> (r: bool)
        ensures
            r == self.spec_is(event),
    {
        if (self.ev & event) != event {
            false
        } else {
            let kind: u64 = event & 0xff;
            if kind == 0 {
                true
            } else {
                (self.ev & 0xff) == kind
            }
        }
    }

    /// The event changes the bid side of the book.
    pub open spec fn is_bid_depth(&self) -> bool {
        self.spec_is(LOCAL_BID_DEPTH_EVENT)
    }

    /// The event changes the ask side of the book and is no bid event.
    pub open spec fn is_ask_depth(&self) -> bool {
        !self.is_bid_depth() && self.spec_is(LOCAL_ASK_DEPTH_EVENT)
    }

    /// The event is a trade and changes neither side of the book.
    pub open spec fn is_trade(&self) -> bool {
        !self.spec_is(LOCAL_BID_DEPTH_EVENT) && !self.spec_is(LOCAL_ASK_DEPTH_EVENT) && (
        self.spec_is(LOCAL_BUY_TRADE_EVENT) || self.spec_is(LOCAL_SELL_TRADE_EVENT))
    }
}

/// The running values of one instrument. Only the position is maintained; the
/// others are kept for accumulators still to come.
#[derive(Clone, Copy, Debug, PartialEq, Eq, Structural)]
pub struct StateValues {
    pub position: Real,
    pub balance: Real,
    pub fee: Real,
    pub num_trades: i64,
    pub trading_volume: Real,
    pub trading_value: Real,
}

impl StateValues {
    /// All values at zero.
    pub open spec fn spec_zeroed() -> StateValues {
        StateValues {
            position: Real::spec_zero(),
            balance: Real::spec_zero(),
            fee: Real::spec_zero(),
            num_trades: 0,
            trading_volume: Real::spec_zero(),
            trading_value: Real::spec_zero(),
        }
    }

    /// The values of an instrument that has not traded.
    #[verifier::when_used_as_spec(spec_zeroed)]
    pub fn zeroed() -> (s: StateValues)
        ensures
            s == StateValues::spec_zeroed(),
    {
        StateValues {
            position: Real::zero(),
            balance: Real::zero(),
            fee: Real::zero(),
            num_trades: 0,
            trading_volume: Real::zero(),
            trading_value: Real::zero(),
        }
    }
}

/// The kind of an error that a connector reports.
#[derive(Clone, Copy, Debug, PartialEq, Eq, Structural)]
pub enum ErrorKind {
    ConnectionInterrupted,
    CriticalConnectionError,
    OrderError,
    Custom(i64),
}

/// An error that a connector reports. The bot hands it to the error handler.
#[derive(Clone, Debug, PartialEq, Eq)]
pub struct LiveError {
    pub kind: ErrorKind,
    pub message: String,
}

/// What a connector sends to the bot.
#[derive(Clone, Debug, PartialEq, Eq)]
pub enum LiveEvent {
    /// A market-data event of the named symbol.
    Feed { symbol: String, event: Event },
    /// The connector's view of one order of the named symbol.
    Order { symbol: String, order: Order },
    /// The position in the named symbol, in full.
    Position { symbol: String, qty: Real },
    /// An error of the connector itself.
    Error(LiveError),
}

impl LiveEvent {
    /// Whether this is market data.
    pub open spec fn spec_is_feed(&self) -> bool {
        self is Feed
    }

    /// Whether this is market data.
    #[verifier::when_used_as_spec(spec_is_feed)]
    pub fn is_feed(&self) -> (r: bool)
        ensures
            r == self.spec_is_feed(),
    {
        match self {
            LiveEvent::Feed { .. } => true,
            _ => false,
        }
    }
}

/// An event as the transport frames it. Events of one batch belong together: a
/// strategy sees either all of them applied or none.
#[derive(Clone, Debug, PartialEq, Eq)]
pub enum LiveEventExt {
    /// An event on its own.
    Normal(LiveEvent),
    /// An event of a batch that is still open.
    Batch(LiveEvent),
    /// The end of the open batch.
    EndOfBatch,
}

/// What the bot sends to a connector.
#[derive(Clone, Debug, PartialEq, Eq)]
pub enum Request {
    /// Prepares a symbol for trading; the connector answers with its open orders.
    AddInstrument { symbol: String, tick_size: Real },
    /// The mirror's snapshot of an order: a submission where its status is `New`, a
    /// cancellation where its request is `Canceled`.
    Order { symbol: String, order: Order },
}

impl Request {
    /// This request prepares `symbol` with `tick_size`.
    pub open spec fn adds_instrument(self, symbol: Seq<char>, tick_size: Real) -> bool {
        self matches Request::AddInstrument { symbol: s, tick_size: t } && s@ == symbol && t
            == tick_size
    }

    /// This request carries `order` for `symbol`.
    pub open spec fn carries_order(self, symbol: Seq<char>, order: Order) -> bool {
        self matches Request::Order { symbol: s, order: o } && s@ == symbol && o == order
    }
}

/// Which order response ends a wait.
#[derive(Clone, Copy, Debug, PartialEq, Eq, Structural)]
pub enum WaitOrderResponse {
    /// No order response does.
    NoWait,
    /// Any order response does.
    Any,
    /// Only a response for this order of this instrument does.
    Specified { asset_no: usize, order_id: u64 },
}

impl WaitOrderResponse {
    /// A response for order `order_id` of instrument `asset_no` ends the wait.
    pub open spec fn spec_satisfied_by(self, asset_no: usize, order_id: u64) -> bool {
        match self {
            WaitOrderResponse::NoWait => false,
            WaitOrderResponse::Any => true,
            WaitOrderResponse::Specified { asset_no: a, order_id: id } => id == order_id && a
                == asset_no,
        }
    }

    /// Whether a response for order `order_id` of instrument `asset_no` ends the wait.
    #[verifier::when_used_as_spec(spec_satisfied_by)]
    pub fn satisfied_by(self, asset_no: usize, order_id: u64) -> (r: bool)
        ensures
            r == self.spec_satisfied_by(asset_no, order_id),
    {
        match self {
            WaitOrderResponse::NoWait => false,
            WaitOrderResponse::Any => true,
            WaitOrderResponse::Specified { asset_no: a, order_id: id } => id == order_id && a
                == asset_no,
        }
    }
}

} // verus!
