//! The bot and its builder.
use rand::Rng;
use std::collections::HashMap;
use vstd::prelude::*;
use crate::clock::current_timestamp;
use crate::depth::MarketDepth;
use crate::elapse::{Elapse, Frame};
use crate::error::{BotError, BuildError};
use crate::hooks::{ErrorHandler, FnErrorHandler, FnOrderRecvHook, OrderRecvHook};
use crate::instrument::{depth_fed, Instrument};
use crate::plan::{
    asset_of, assign_endpoints, connector_names, distinct_names, first_repeat, has_repeat,
    repeats_at, symbols, texts,
};
use crate::types::{
    Event, LiveError, LiveEvent, LiveEventExt, OrdType, Order, OrderRequest, Real, Request, Side,
    StateValues, Status, TimeInForce, WaitOrderResponse,
};

verus! {

/// Draws the id of a bot: `rand::thread_rng()`, and `Rng::gen::<u64>()` on the
/// generator it returns, which gives a number drawn uniformly from all 64-bit
/// numbers. Nothing is claimed of the number.
#[verifier::external_body]
fn generate_random_id() -> (id: u64) {
    let mut rng = rand::thread_rng();
    rng.gen::<u64>()
}

/// Builds a [`LiveBot`].
pub struct LiveBotBuilder<MD> {
    id: u64,
    instruments: Vec<Instrument<MD>>,
    error_handler: Option<Box<dyn ErrorHandler>>,
    order_hook: Option<Box<dyn OrderRecvHook>>,
}

impl<MD: MarketDepth> LiveBotBuilder<MD> {
    /// The id that the bot will have.
    pub closed spec fn spec_id(&self) -> u64 {
        self.id
    }

    /// The instruments added so far, in the order in which they were added.
    pub closed spec fn slots(&self) -> Seq<Instrument<MD>> {
        self.instruments@
    }

    /// The error handler registered, if any.
    pub closed spec fn error_handler_spec(&self) -> Option<Box<dyn ErrorHandler>> {
        self.error_handler
    }

    /// The order hook registered, if any.
    pub closed spec fn order_hook_spec(&self) -> Option<Box<dyn OrderRecvHook>> {
        self.order_hook
    }

    /// Every instrument added is well formed.
    pub open spec fn wf(&self) -> bool {
        forall|i: int| 0 <= i < self.slots().len() ==> (#[trigger] self.slots()[i]).wf()
    }

    /// Adds an instrument. Its number in the bot is the number of instruments
    /// added before it.
    pub fn add(self, instrument: Instrument<MD>) -> (r: Self)
        requires
            self.wf(),
            instrument.wf(),
        ensures
            r.wf(),
            r.slots() == self.slots().push(instrument),
            r.spec_id() == self.spec_id(),
            r.error_handler_spec() == self.error_handler_spec(),
            r.order_hook_spec() == self.order_hook_spec(),
    {
        let mut instruments = self.instruments;
        instruments.push(instrument);
        assert forall|i: int| 0 <= i < instruments@.len() implies (#[trigger] instruments@[i]).wf() by {
            if i < self.slots().len() {
                assert(instruments@[i] == self.slots()[i]);
            }
        }
        LiveBotBuilder {
            id: self.id,
            instruments,
            error_handler: self.error_handler,
            order_hook: self.order_hook,
        }
    }

    /// Registers the handler for errors that connectors report, in place of one
    /// registered before.
    pub fn error_handler<Handler>(self, handler: Handler) -> (r: Self) where
        Handler: Fn(LiveError) -> Result<(), BotError> + 'static,

        requires
            forall|error: LiveError| call_requires(handler, (error,)),
        ensures
            r.error_handler_spec() matches Some(registered) && forall|
                error: LiveError,
                verdict: Result<(), BotError>,
            | #[trigger]
                registered.may_return(error, verdict) <==> call_ensures(handler, (error,), verdict),
            r.slots() == self.slots(),
            r.spec_id() == self.spec_id(),
            r.order_hook_spec() == self.order_hook_spec(),
    {
        LiveBotBuilder {
            id: self.id,
            instruments: self.instruments,
            error_handler: Some(Box::new(FnErrorHandler::new(handler))),
            order_hook: self.order_hook,
        }
    }

    /// Registers the hook that sees each update of a mirrored order, in place of
    /// one registered before.
    pub fn order_recv_hook<Hook>(self, hook: Hook) -> (r: Self) where
        Hook: Fn(&Order, &Order) -> Result<(), BotError> + 'static,

        requires
            forall|existing: &Order, update: &Order| call_requires(hook, (existing, update)),
        ensures
            r.order_hook_spec() matches Some(registered) && forall|
                existing: Order,
                update: Order,
                verdict: Result<(), BotError>,
            | #[trigger]
                registered.may_return(existing, update, verdict) <==> call_ensures(
                    hook,
                    (&existing, &update),
                    verdict,
                ),
            r.slots() == self.slots(),
            r.spec_id() == self.spec_id(),
            r.error_handler_spec() == self.error_handler_spec(),
    {
        LiveBotBuilder {
            id: self.id,
            instruments: self.instruments,
            error_handler: self.error_handler,
            order_hook: Some(Box::new(FnOrderRecvHook::new(hook))),
        }
    }

    /// Sets the id of the bot. It has to differ from that of every other bot on
    /// the same connector.
    pub fn id(self, id: u64) -> (r: Self)
        ensures
            r.spec_id() == id,
            r.slots() == self.slots(),
            r.error_handler_spec() == self.error_handler_spec(),
            r.order_hook_spec() == self.order_hook_spec(),
    {
        LiveBotBuilder {
            id,
            instruments: self.instruments,
            error_handler: self.error_handler,
            order_hook: self.order_hook,
        }
    }

    /// Builds the bot from the instruments added.
    ///
    /// Fails if a pair of connector and symbol was added twice, and then reports
    /// the first instrument that repeats an earlier one. Otherwise the bot holds
    /// the instruments as added, each with the endpoint of its connector:
    /// instruments of one connector share one endpoint.
    pub fn build(self) -> (r: Result<LiveBot<MD>, BuildError>)
        requires
            self.wf(),
        ensures
            (match r {
                Ok(bot) => {
                    &&& !has_repeat(self.slots())
                    &&& bot.wf()
                    &&& bot.slots() == self.slots()
                    &&& bot.spec_id() == self.spec_id()
                    &&& bot.error_handler_spec() == self.error_handler_spec()
                    &&& bot.order_hook_spec() == self.order_hook_spec()
                },
                Err(error) => exists|j: int|
                    {
                        &&& 0 <= j < self.slots().len()
                        &&& #[trigger] repeats_at(self.slots(), j)
                        &&& forall|k: int| 0 <= k < j ==> !#[trigger] repeats_at(self.slots(), k)
                        &&& error.is_duplicate_of(
                            self.slots()[j]@.connector_name,
                            self.slots()[j]@.symbol,
                        )
                    },
            }),
    {
        match first_repeat(&self.instruments) {
            Some(j) => {
                let connector = self.instruments[j].connector_name().clone();
                let symbol = self.instruments[j].symbol().clone();
                Err(BuildError::Duplicate(connector, symbol))
            },
            None => {
                let (connectors, endpoints) = assign_endpoints(&self.instruments);
                let bot = LiveBot {
                    id: self.id,
                    instruments: self.instruments,
                    connectors,
                    endpoints,
                    error_handler: self.error_handler,
                    order_hook: self.order_hook,
                };
                Ok(bot)
            },
        }
    }
}

/// A request for the transport, and what to do once it is published.
#[derive(Clone, Debug, PartialEq, Eq)]
pub struct Outbound {
    /// The instrument that the request is about.
    pub asset_no: usize,
    /// The endpoint to publish on: that of the instrument's connector.
    pub endpoint: usize,
    /// What to publish.
    pub request: Request,
    /// The wait to run once the request is published, if any.
    pub wait: Option<Elapse>,
}

/// A live trading bot: for each of its instruments a book, a mirror of the orders,
/// the position and the recent trades, kept up to date from what the connectors
/// send.
///
/// The bot decides; it does not talk to the transport. Its operations return what
/// is to be published, and take what was received.
pub struct LiveBot<MD> {
    id: u64,
    instruments: Vec<Instrument<MD>>,
    connectors: Vec<String>,
    endpoints: Vec<usize>,
    error_handler: Option<Box<dyn ErrorHandler>>,
    order_hook: Option<Box<dyn OrderRecvHook>>,
}

impl<MD: MarketDepth> LiveBot<MD> {
    /// The id under which the bot publishes and receives.
    pub closed spec fn spec_id(&self) -> u64 {
        self.id
    }

    /// The instruments; the number of an instrument is its place here.
    pub closed spec fn slots(&self) -> Seq<Instrument<MD>> {
        self.instruments@
    }

    /// The connector name of each endpoint.
    pub closed spec fn channel_names(&self) -> Seq<Seq<char>> {
        texts(self.connectors@)
    }

    /// The number of the endpoint of each instrument.
    pub closed spec fn endpoint_numbers(&self) -> Seq<usize> {
        self.endpoints@
    }

    /// The error handler, if one is registered.
    pub closed spec fn error_handler_spec(&self) -> Option<Box<dyn ErrorHandler>> {
        self.error_handler
    }

    /// The order hook, if one is registered.
    pub closed spec fn order_hook_spec(&self) -> Option<Box<dyn OrderRecvHook>> {
        self.order_hook
    }

    /// Every slot is well formed, no pair of connector and symbol occurs twice,
    /// there is one endpoint for each connector name, in the order in which the
    /// names first occur, and each instrument has the endpoint of its connector.
    pub open spec fn wf(&self) -> bool {
        &&& forall|i: int| 0 <= i < self.slots().len() ==> (#[trigger] self.slots()[i]).wf()
        &&& !has_repeat(self.slots())
        &&& self.channel_names() == distinct_names(connector_names(self.slots()))
        &&& self.endpoint_numbers().len() == self.slots().len()
        &&& forall|i: int|
            0 <= i < self.slots().len() ==> (#[trigger] self.endpoint_numbers()[i])
                < self.channel_names().len() && self.channel_names()[self.endpoint_numbers()[i] as int]
                == self.slots()[i]@.connector_name
    }

    /// `self` has the setup of `pre`: its id, its endpoints, its hooks, and as many
    /// instruments.
    pub open spec fn same_setup(&self, pre: &Self) -> bool {
        &&& self.spec_id() == pre.spec_id()
        &&& self.channel_names() == pre.channel_names()
        &&& self.endpoint_numbers() == pre.endpoint_numbers()
        &&& self.error_handler_spec() == pre.error_handler_spec()
        &&& self.order_hook_spec() == pre.order_hook_spec()
        &&& self.slots().len() == pre.slots().len()
    }

    /// `self` is `pre` in everything.
    pub open spec fn unchanged(&self, pre: &Self) -> bool {
        self.same_setup(pre) && self.slots() == pre.slots()
    }

    /// `self` is `pre` in everything but, at most, the slot of instrument
    /// `asset_no`.
    pub open spec fn changed_only(&self, pre: &Self, asset_no: int) -> bool {
        &&& self.same_setup(pre)
        &&& forall|j: int|
            0 <= j < pre.slots().len() && j != asset_no ==> #[trigger] self.slots()[j]
                == pre.slots()[j]
    }

    /// The number of the instrument that events for `symbol` go to.
    pub open spec fn asset_no_of(&self, symbol: Seq<char>) -> Option<usize> {
        asset_of(symbols(self.slots()), symbol)
    }

    /// A builder with a random id, no instruments and no hooks.
    pub fn builder() -> (r: LiveBotBuilder<MD>)
        ensures
            r.wf(),
            r.slots() == Seq::<Instrument<MD>>::empty(),
            r.error_handler_spec() is None,
            r.order_hook_spec() is None,
    {
        LiveBotBuilder {
            id: generate_random_id(),
            instruments: Vec::new(),
            error_handler: None,
            order_hook: None,
        }
    }

    /// The id under which the bot publishes and receives.
    pub fn id(&self) -> (id: u64)
        ensures
            id == self.spec_id(),
    {
        self.id
    }

    /// The number of instruments.
    pub fn num_assets(&self) -> (n: usize)
        ensures
            n == self.slots().len(),
    {
        self.instruments.len()
    }

    /// The channel of each endpoint that the bot needs, in the order of their
    /// numbers: the channel of an endpoint is named as its connector is.
    pub fn channels(&self) -> (names: &Vec<String>)
        ensures
            texts(names@) == self.channel_names(),
    {
        &self.connectors
    }

    /// The number of the endpoint of instrument `asset_no`.
    pub fn endpoint(&self, asset_no: usize) -> (endpoint: usize)
        requires
            self.wf(),
            asset_no < self.slots().len(),
        ensures
            endpoint == self.endpoint_numbers()[asset_no as int],
            endpoint < self.channel_names().len(),
    {
        self.endpoints[asset_no]
    }

    /// The number of the instrument that events for `symbol` go to: the last
    /// instrument with that symbol, if there is one.
    pub fn asset_no(&self, symbol: &String) -> (found: Option<usize>)
        ensures
            found == self.asset_no_of(symbol@),
            found matches Some(asset_no) ==> asset_no < self.slots().len()
                && self.slots()[asset_no as int]@.symbol == symbol@,
    {
        let ghost all = symbols(self.slots());
        let mut n: usize = self.instruments.len();
        assert(all.take(n as int) =~= all);
        while n > 0
            invariant
                n <= self.instruments.len(),
                all == symbols(self.slots()),
                asset_of(all, symbol@) == asset_of(all.take(n as int), symbol@),
            decreases n,
        {
            n -= 1;
            assert(all.take(n as int + 1).drop_last() =~= all.take(n as int));
            if *self.instruments[n].symbol() == *symbol {
                return Some(n);
            }
        }
        None
    }

    /// The requests that prepare each instrument for trading, in the order of the
    /// instruments, each for the endpoint of its instrument. They are to be
    /// published before anything else.
    pub fn add_instrument_requests(&self) -> (requests: Vec<Outbound>)
        requires
            self.wf(),
        ensures
            requests@.len() == self.slots().len(),
            forall|i: int|
                0 <= i < self.slots().len() ==> ({
                    let out = #[trigger] requests@[i];
                    &&& out.asset_no == i
                    &&& out.endpoint == self.endpoint_numbers()[i]
                    &&& out.request.adds_instrument(
                        self.slots()[i]@.symbol,
                        self.slots()[i]@.tick_size,
                    )
                    &&& out.wait is None
                }),
    {
        let mut requests: Vec<Outbound> = Vec::new();
        let mut i: usize = 0;
        while i < self.instruments.len()
            invariant
                self.wf(),
                i <= self.instruments.len(),
                requests@.len() == i,
                forall|k: int|
                    0 <= k < i ==> {
                        let out = #[trigger] requests@[k];
                        &&& out.asset_no == k
                        &&& out.endpoint == self.endpoint_numbers()[k]
                        &&& out.request.adds_instrument(
                            self.slots()[k]@.symbol,
                            self.slots()[k]@.tick_size,
                        )
                        &&& out.wait is None
                    },
            decreases self.instruments.len() - i,
        {
            let request = Request::AddInstrument {
                symbol: self.instruments[i].symbol().clone(),
                tick_size: self.instruments[i].tick_size(),
            };
            requests.push(
                Outbound { asset_no: i, endpoint: self.endpoints[i], request, wait: None },
            );
            i += 1;
        }
        requests
    }

    /// The slot of instrument `asset_no`, if there is such an instrument.
    pub fn instrument(&self, asset_no: usize) -> (slot: Option<&Instrument<MD>>)
        ensures
            (match slot {
                Some(slot) => asset_no < self.slots().len() && *slot == self.slots()[asset_no as int],
                None => asset_no >= self.slots().len(),
            }),
    {
        if asset_no < self.instruments.len() {
            Some(&self.instruments[asset_no])
        } else {
            None
        }
    }

    /// The wall-clock time in nanoseconds since the Unix epoch.
    pub fn current_timestamp(&self) -> (nanos: i64) {
        current_timestamp()
    }

    /// The position in instrument `asset_no`.
    pub fn position(&self, asset_no: usize) -> (position: Real)
        requires
            asset_no < self.slots().len(),
        ensures
            position == self.slots()[asset_no as int]@.state.position,
    {
        self.instruments[asset_no].position()
    }

    /// The running values of instrument `asset_no`.
    pub fn state_values(&self, asset_no: usize) -> (state: &StateValues)
        requires
            asset_no < self.slots().len(),
        ensures
            *state == self.slots()[asset_no as int]@.state,
    {
        self.instruments[asset_no].state_values()
    }

    /// The book of instrument `asset_no`.
    pub fn depth(&self, asset_no: usize) -> (depth: &MD)
        requires
            asset_no < self.slots().len(),
        ensures
            *depth == self.slots()[asset_no as int].depth_view(),
    {
        self.instruments[asset_no].depth()
    }

    /// The recent trades of instrument `asset_no`, oldest first.
    pub fn last_trades(&self, asset_no: usize) -> (trades: &[Event])
        requires
            asset_no < self.slots().len(),
        ensures
            trades@ == self.slots()[asset_no as int]@.last_trades,
    {
        self.instruments[asset_no].last_trades()
    }

    /// The mirror of the orders of instrument `asset_no`.
    pub fn orders(&self, asset_no: usize) -> (orders: &HashMap<u64, Order>)
        requires
            asset_no < self.slots().len(),
        ensures
            orders@ == self.slots()[asset_no as int]@.orders,
    {
        self.instruments[asset_no].orders()
    }

    /// Exchange and local timestamp of the last market-data event of instrument
    /// `asset_no`.
    pub fn feed_latency(&self, asset_no: usize) -> (latency: Option<(i64, i64)>)
        requires
            asset_no < self.slots().len(),
        ensures
            latency == self.slots()[asset_no as int]@.last_feed_latency,
    {
        self.instruments[asset_no].feed_latency()
    }

    /// Request, exchange and receipt timestamp of the last order update of
    /// instrument `asset_no`.
    pub fn order_latency(&self, asset_no: usize) -> (latency: Option<(i64, i64, i64)>)
        requires
            asset_no < self.slots().len(),
        ensures
            latency == self.slots()[asset_no as int]@.last_order_latency,
    {
        self.instruments[asset_no].order_latency()
    }
}

/// How long a wait for the response to a submission or a cancellation lasts: 60
/// seconds, in nanoseconds.
pub const ORDER_RESPONSE_TIMEOUT: i64 = 60_000_000_000;

/// What the order hook may answer about `update` where the mirror holds
/// `existing` under the update's id: the hook is asked only where there is a hook
/// and an order, and nothing objects otherwise.
pub open spec fn hook_may_answer(
    hook: Option<Box<dyn OrderRecvHook>>,
    existing: Option<Order>,
    update: Order,
    verdict: Result<(), BotError>,
) -> bool {
    match (hook, existing) {
        (Some(registered), Some(entry)) => registered.may_return(entry, update, verdict),
        _ => verdict is Ok,
    }
}

/// What the error handler may answer about `error`: nothing objects where there is
/// no handler.
pub open spec fn handler_may_answer(
    handler: Option<Box<dyn ErrorHandler>>,
    error: LiveError,
    verdict: Result<(), BotError>,
) -> bool {
    match handler {
        Some(registered) => registered.may_return(error, verdict),
        None => verdict is Ok,
    }
}

/// What dispatching an event returns once a hook gave `verdict` on it: the hook's
/// error, or whether the awaited order response has come.
pub open spec fn reply(verdict: Result<(), BotError>, hit: bool) -> Result<bool, BotError> {
    match verdict {
        Ok(_) => Ok(hit),
        Err(error) => Err(error),
    }
}

impl<MD: MarketDepth> LiveBot<MD> {
    /// A bot stays well formed when one slot changes what it holds but not which
    /// instrument it is.
    proof fn lemma_slot_changed(pre: &Self, post: &Self, asset_no: int)
        requires
            pre.wf(),
            0 <= asset_no < pre.slots().len(),
            post.changed_only(pre, asset_no),
            post.slots()[asset_no].wf(),
            post.slots()[asset_no]@.connector_name == pre.slots()[asset_no]@.connector_name,
            post.slots()[asset_no]@.symbol == pre.slots()[asset_no]@.symbol,
        ensures
            post.wf(),
            symbols(post.slots()) == symbols(pre.slots()),
    {
        assert(connector_names(post.slots()) =~= connector_names(pre.slots()));
        if has_repeat(post.slots()) {
            let j = choose|j: int| 0 <= j < post.slots().len() && #[trigger] repeats_at(post.slots(), j);
            let i = choose|i: int|
                0 <= i < j && (#[trigger] post.slots()[i])@.connector_name
                    == post.slots()[j]@.connector_name && post.slots()[i]@.symbol
                    == post.slots()[j]@.symbol;
            assert(repeats_at(pre.slots(), j));
        }
    }

    /// What dispatching the event `ev` may make of the bot `pre` while the order
    /// response `wait` is awaited: the bot `post`, and the result `r`.
    ///
    /// An event for a symbol that no instrument has changes nothing and gives
    /// `Ok(false)`. Market data is applied to its slot and to the book. An order
    /// update is reconciled with the mirror of its slot, at some time of receipt
    /// and with some answer of the order hook, and gives whether it is the awaited
    /// response, or the hook's error. A position overwrites that of its slot. An
    /// error of the connector changes nothing and gives the error handler's error,
    /// if it has one.
    pub open spec fn dispatched(
        pre: Self,
        ev: LiveEvent,
        wait: WaitOrderResponse,
        post: Self,
        r: Result<bool, BotError>,
    ) -> bool {
        match ev {
            LiveEvent::Feed { symbol, event } => r == Ok::<bool, BotError>(false)
                && match pre.asset_no_of(symbol@) {
                None => post.unchanged(&pre),
                Some(asset_no) => {
                    let a = asset_no as int;
                    &&& post.changed_only(&pre, a)
                    &&& post.slots()[a]@ == pre.slots()[a]@.fed(event)
                    &&& depth_fed(pre.slots()[a].depth_view(), event, post.slots()[a].depth_view())
                },
            },
            LiveEvent::Order { symbol, order } => match pre.asset_no_of(symbol@) {
                None => r == Ok::<bool, BotError>(false) && post.unchanged(&pre),
                Some(asset_no) => {
                    let a = asset_no as int;
                    exists|now: i64, verdict: Result<(), BotError>|
                        {
                            &&& hook_may_answer(
                                pre.order_hook_spec(),
                                pre.slots()[a]@.orders.get(order.order_id),
                                order,
                                verdict,
                            )
                            &&& post.changed_only(&pre, a)
                            &&& post.slots()[a]@ == #[trigger] pre.slots()[a]@.received(
                                order,
                                now,
                                verdict,
                            )
                            &&& post.slots()[a].depth_view() == pre.slots()[a].depth_view()
                            &&& r == reply(
                                pre.slots()[a]@.receive_result(order, verdict),
                                wait.spec_satisfied_by(asset_no, order.order_id),
                            )
                        }
                },
            },
            LiveEvent::Position { symbol, qty } => r == Ok::<bool, BotError>(false)
                && match pre.asset_no_of(symbol@) {
                None => post.unchanged(&pre),
                Some(asset_no) => {
                    let a = asset_no as int;
                    &&& post.changed_only(&pre, a)
                    &&& post.slots()[a]@ == pre.slots()[a]@.positioned(qty)
                    &&& post.slots()[a].depth_view() == pre.slots()[a].depth_view()
                },
            },
            LiveEvent::Error(error) => post.unchanged(&pre) && exists|
                verdict: Result<(), BotError>,
            |
                handler_may_answer(pre.error_handler_spec(), error, verdict) && r == #[trigger] reply(
                    verdict,
                    false,
                ),
        }
    }

    /// Dispatches one event of a connector: applies it to the slot of its symbol,
    /// and says whether it is the order response that `wait_order_response` asks
    /// for.
    pub fn process_event(&mut self, ev: LiveEvent, wait_order_response: WaitOrderResponse) -> (r:
        Result<bool, BotError>)
        requires
            old(self).wf(),
        ensures
            final(self).wf(),
            Self::dispatched(*old(self), ev, wait_order_response, *final(self), r),
    {
        match ev {
            LiveEvent::Feed { symbol, event } => {
                match self.asset_no(&symbol) {
                    None => {},
                    Some(asset_no) => {
                        self.instruments[asset_no].apply_feed(event);
                        proof {
                            Self::lemma_slot_changed(old(self), self, asset_no as int);
                        }
                    },
                }
                Ok(false)
            },
            LiveEvent::Order { symbol, order } => {
                match self.asset_no(&symbol) {
                    None => Ok(false),
                    Some(asset_no) => {
                        let hit = wait_order_response.satisfied_by(asset_no, order.order_id);
                        let now = current_timestamp();
                        let verdict = match self.instruments[asset_no].lookup(order.order_id) {
                            Some(existing) => match &self.order_hook {
                                Some(hook) => hook.on_order(&existing, &order),
                                None => Ok(()),
                            },
                            None => Ok(()),
                        };
                        let received = self.instruments[asset_no].receive_order(order, now, verdict);
                        proof {
                            Self::lemma_slot_changed(old(self), self, asset_no as int);
                        }
                        match received {
                            Ok(_) => Ok(hit),
                            Err(error) => Err(error),
                        }
                    },
                }
            },
            LiveEvent::Position { symbol, qty } => {
                match self.asset_no(&symbol) {
                    None => {},
                    Some(asset_no) => {
                        self.instruments[asset_no].apply_position(qty);
                        proof {
                            Self::lemma_slot_changed(old(self), self, asset_no as int);
                        }
                    },
                }
                Ok(false)
            },
            LiveEvent::Error(error) => {
                let verdict = match &self.error_handler {
                    Some(handler) => handler.on_error(error),
                    None => Ok(()),
                };
                let ghost answer = verdict;
                let r = match verdict {
                    Ok(_) => Ok(false),
                    Err(error) => Err(error),
                };
                assert(r == reply(answer, false));
                r
            },
        }
    }

    /// What one turn of a wait may make of the bot `pre` and the wait `run`, where
    /// the transport answered `received` and `elapsed` nanoseconds of the wait
    /// have passed: the bot `post`, the wait `after`, and the result `r`.
    ///
    /// `Ok(Some(b))` ends the wait with `b`, `Ok(None)` asks the transport again,
    /// for at most `after.remaining` nanoseconds, and `Err` ends the wait with an
    /// error. A timeout of the transport ends the wait with `true`, an
    /// interruption with `false`, any other failure with itself. An event is
    /// dispatched; its error ends the wait, and otherwise the wait decides.
    pub open spec fn elapsed_turn(
        pre: Self,
        run: Elapse,
        received: Result<LiveEventExt, BotError>,
        elapsed: u64,
        post: Self,
        after: Elapse,
        r: Result<Option<bool>, BotError>,
    ) -> bool {
        match received {
            Err(BotError::Timeout) => post.unchanged(&pre) && after == run && r == Ok::<
                Option<bool>,
                BotError,
            >(Some(true)),
            Err(BotError::Interrupted) => post.unchanged(&pre) && after == run && r == Ok::<
                Option<bool>,
                BotError,
            >(Some(false)),
            Err(error) => post.unchanged(&pre) && after == run && r == Err::<
                Option<bool>,
                BotError,
            >(error),
            Ok(LiveEventExt::Normal(ev)) => exists|hit: Result<bool, BotError>| #[trigger]
                Self::dispatched(pre, ev, run.wait_order_response, post, hit) && Self::turn_decided(
                    run,
                    Frame::Normal,
                    hit,
                    ev.spec_is_feed(),
                    elapsed,
                    after,
                    r,
                ),
            Ok(LiveEventExt::Batch(ev)) => exists|hit: Result<bool, BotError>| #[trigger]
                Self::dispatched(pre, ev, run.wait_order_response, post, hit) && Self::turn_decided(
                    run,
                    Frame::Batch,
                    hit,
                    ev.spec_is_feed(),
                    elapsed,
                    after,
                    r,
                ),
            Ok(LiveEventExt::EndOfBatch) => post.unchanged(&pre) && Self::turn_decided(
                run,
                Frame::EndOfBatch,
                Ok(false),
                false,
                elapsed,
                after,
                r,
            ),
        }
    }

    /// What a turn of the wait `run` decides once the delivery, framed as
    /// `frame`, was dispatched with the result `hit`.
    pub open spec fn turn_decided(
        run: Elapse,
        frame: Frame,
        hit: Result<bool, BotError>,
        is_feed: bool,
        elapsed: u64,
        after: Elapse,
        r: Result<Option<bool>, BotError>,
    ) -> bool {
        match hit {
            Err(error) => after == run && r == Err::<Option<bool>, BotError>(error),
            Ok(hit) => after == run.advanced(frame, hit, is_feed, elapsed) && r == Ok::<
                Option<bool>,
                BotError,
            >(run.decision(frame, hit, is_feed, elapsed)),
        }
    }

    /// Takes one turn of the wait `run`: `received` is what the transport
    /// answered when it was asked for an event for at most `run.remaining`
    /// nanoseconds, and `elapsed` is the time since the wait began.
    ///
    /// Returns `Ok(Some(true))` when the wait is over, `Ok(Some(false))` when it
    /// was interrupted, and `Ok(None)` when the transport is to be asked again.
    /// On an event the wait never ends while a batch is open.
    pub fn elapse_(
        &mut self,
        run: &mut Elapse,
        received: Result<LiveEventExt, BotError>,
        elapsed: u64,
    ) -> (r: Result<Option<bool>, BotError>)
        requires
            old(self).wf(),
        ensures
            final(self).wf(),
            Self::elapsed_turn(
                *old(self),
                *old(run),
                received,
                elapsed,
                *final(self),
                *final(run),
                r,
            ),
            (received is Ok && r is Ok && r->Ok_0 is Some) ==> !final(run).in_batch,
    {
        match received {
            Err(BotError::Timeout) => Ok(Some(true)),
            Err(BotError::Interrupted) => Ok(Some(false)),
            Err(error) => Err(error),
            Ok(LiveEventExt::Normal(ev)) => {
                let is_feed = ev.is_feed();
                match self.process_event(ev, run.wait_order_response) {
                    Err(error) => Err(error),
                    Ok(hit) => Ok(run.advance(Frame::Normal, hit, is_feed, elapsed)),
                }
            },
            Ok(LiveEventExt::Batch(ev)) => {
                let is_feed = ev.is_feed();
                match self.process_event(ev, run.wait_order_response) {
                    Err(error) => Err(error),
                    Ok(hit) => Ok(run.advance(Frame::Batch, hit, is_feed, elapsed)),
                }
            },
            Ok(LiveEventExt::EndOfBatch) => Ok(run.advance(Frame::EndOfBatch, false, false, elapsed)),
        }
    }

    /// Why the order `order_id` cannot be submitted for instrument `asset_no`, if
    /// it cannot: there is no such instrument, or the id is taken.
    pub open spec fn submit_refusal(&self, asset_no: usize, order_id: u64) -> Option<BotError> {
        if asset_no >= self.slots().len() {
            Some(BotError::InstrumentNotFound)
        } else if self.slots()[asset_no as int]@.orders.contains_key(order_id) {
            Some(BotError::OrderIdExist)
        } else {
            None
        }
    }

    /// Why the order `order_id` of instrument `asset_no` cannot be cancelled, if
    /// it cannot: there is no such instrument, no such order, or the order is no
    /// longer cancellable.
    pub open spec fn cancel_refusal(&self, asset_no: usize, order_id: u64) -> Option<BotError> {
        if asset_no >= self.slots().len() {
            Some(BotError::InstrumentNotFound)
        } else {
            match self.slots()[asset_no as int]@.cancel_result(order_id) {
                Err(error) => Some(error),
                Ok(_) => None,
            }
        }
    }

    /// `out` asks to publish the snapshot `order` of an order of instrument
    /// `asset_no` of the bot `pre` on the endpoint of that instrument, and then,
    /// if `wait` is set, to wait for the response to that order.
    pub open spec fn publishes(pre: Self, asset_no: usize, order: Order, wait: bool, out: Outbound) -> bool {
        &&& out.asset_no == asset_no
        &&& out.endpoint == pre.endpoint_numbers()[asset_no as int]
        &&& out.request.carries_order(pre.slots()[asset_no as int]@.symbol, order)
        &&& out.wait == if wait {
            Some(
                Elapse::spec_new(
                    ORDER_RESPONSE_TIMEOUT,
                    WaitOrderResponse::Specified { asset_no, order_id: order.order_id },
                    false,
                ),
            )
        } else {
            None
        }
    }

    /// The mirror entry of an order submitted for instrument `asset_no` at `now`:
    /// it carries the tick size of the instrument.
    pub open spec fn submission(
        &self,
        asset_no: usize,
        order_id: u64,
        price_tick: i64,
        qty: Real,
        side: Side,
        time_in_force: TimeInForce,
        order_type: OrdType,
        now: i64,
    ) -> Order {
        Order::spec_submission(
            order_id,
            price_tick,
            qty,
            self.slots()[asset_no as int]@.tick_size,
            side,
            time_in_force,
            order_type,
            now,
        )
    }

    /// What submitting `order` for instrument `asset_no` makes of the bot `pre`:
    /// in `post` the mirror of that instrument holds the order, and `r` asks to
    /// publish it.
    pub open spec fn placed(
        pre: Self,
        asset_no: usize,
        order: Order,
        wait: bool,
        post: Self,
        r: Result<Outbound, BotError>,
    ) -> bool {
        let a = asset_no as int;
        &&& post.changed_only(&pre, a)
        &&& post.slots()[a]@ == pre.slots()[a]@.opened(order)
        &&& post.slots()[a].depth_view() == pre.slots()[a].depth_view()
        &&& r matches Ok(out) && Self::publishes(pre, asset_no, order, wait, out)
    }

    /// What requesting at `now` to cancel order `order_id` of instrument
    /// `asset_no` makes of the bot `pre`: in `post` the order records the request,
    /// and `r` asks to publish the order as it then stands.
    pub open spec fn cancel_placed(
        pre: Self,
        asset_no: usize,
        order_id: u64,
        now: i64,
        wait: bool,
        post: Self,
        r: Result<Outbound, BotError>,
    ) -> bool {
        let a = asset_no as int;
        &&& post.changed_only(&pre, a)
        &&& post.slots()[a]@ == pre.slots()[a]@.cancel_requested(order_id, now)
        &&& post.slots()[a].depth_view() == pre.slots()[a].depth_view()
        &&& r matches Ok(out) && Self::publishes(
            pre,
            asset_no,
            pre.slots()[a]@.orders[order_id].cancel_requested(now),
            wait,
            out,
        )
    }

    /// What submitting an order for instrument `asset_no` makes of the bot `pre`.
    ///
    /// A refused submission gives the refusal and leaves the bot as it is. Any
    /// other puts the order into the mirror, stamped with some time of the call,
    /// and asks to publish it.
    pub open spec fn submitted(
        pre: Self,
        asset_no: usize,
        order_id: u64,
        price_tick: i64,
        qty: Real,
        side: Side,
        time_in_force: TimeInForce,
        order_type: OrdType,
        wait: bool,
        post: Self,
        r: Result<Outbound, BotError>,
    ) -> bool {
        match pre.submit_refusal(asset_no, order_id) {
            Some(error) => r == Err::<Outbound, BotError>(error) && post.unchanged(&pre),
            None => exists|now: i64|
                Self::placed(
                    pre,
                    asset_no,
                    #[trigger] pre.submission(
                        asset_no,
                        order_id,
                        price_tick,
                        qty,
                        side,
                        time_in_force,
                        order_type,
                        now,
                    ),
                    wait,
                    post,
                    r,
                ),
        }
    }

    /// What asking to cancel order `order_id` of instrument `asset_no` makes of
    /// the bot `pre`.
    ///
    /// A refused cancellation gives the refusal and leaves the bot as it is. Any
    /// other records the request in the order, stamped with some time of the
    /// call, and asks to publish the order.
    pub open spec fn cancelled(
        pre: Self,
        asset_no: usize,
        order_id: u64,
        wait: bool,
        post: Self,
        r: Result<Outbound, BotError>,
    ) -> bool {
        match pre.cancel_refusal(asset_no, order_id) {
            Some(error) => r == Err::<Outbound, BotError>(error) && post.unchanged(&pre),
            None => exists|now: i64| #[trigger]
                Self::cancel_placed(pre, asset_no, order_id, now, wait, post, r),
        }
    }

    /// The request for the snapshot `order` of an order of instrument `asset_no`.
    fn outbound(&self, asset_no: usize, order: Order, wait: bool) -> (out: Outbound)
        requires
            self.wf(),
            asset_no < self.slots().len(),
        ensures
            Self::publishes(*self, asset_no, order, wait, out),
    {
        let request = Request::Order { symbol: self.instruments[asset_no].symbol().clone(), order };
        let wait = if wait {
            Some(self.wait_order_response(asset_no, order.order_id, ORDER_RESPONSE_TIMEOUT))
        } else {
            None
        };
        Outbound { asset_no, endpoint: self.endpoints[asset_no], request, wait }
    }

    /// Submits an order for instrument `asset_no` at the price of `price_tick`
    /// ticks.
    ///
    /// Fails with `InstrumentNotFound` if there is no such instrument and with
    /// `OrderIdExist` if the mirror holds an order with this id; the bot is then
    /// unchanged. Otherwise the mirror takes the new order, stamped with the time
    /// of the call, and the result asks to publish it and, if `wait` is set, to
    /// wait up to 60 seconds for the response to it.
    pub fn submit_order(
        &mut self,
        asset_no: usize,
        order_id: u64,
        price_tick: i64,
        qty: Real,
        time_in_force: TimeInForce,
        order_type: OrdType,
        wait: bool,
        side: Side,
    ) -> (r: Result<Outbound, BotError>)
        requires
            old(self).wf(),
        ensures
            final(self).wf(),
            Self::submitted(
                *old(self),
                asset_no,
                order_id,
                price_tick,
                qty,
                side,
                time_in_force,
                order_type,
                wait,
                *final(self),
                r,
            ),
            r is Ok ==> ({
                let orders = final(self).slots()[asset_no as int]@.orders;
                &&& orders.contains_key(order_id)
                &&& orders[order_id].status == Status::New
                &&& orders[order_id].price_tick == price_tick
            }),
    {
        if asset_no >= self.instruments.len() {
            return Err(BotError::InstrumentNotFound);
        }
        if self.instruments[asset_no].lookup(order_id).is_some() {
            return Err(BotError::OrderIdExist);
        }
        let now = current_timestamp();
        let order = Order::submission(
            order_id,
            price_tick,
            qty,
            self.instruments[asset_no].tick_size(),
            side,
            time_in_force,
            order_type,
            now,
        );
        self.instruments[asset_no].open_order(order);
        proof {
            Self::lemma_slot_changed(old(self), self, asset_no as int);
        }
        let r = Ok(self.outbound(asset_no, order, wait));
        assert(Self::placed(
            *old(self),
            asset_no,
            old(self).submission(
                asset_no,
                order_id,
                price_tick,
                qty,
                side,
                time_in_force,
                order_type,
                now,
            ),
            wait,
            *self,
            r,
        ));
        r
    }

    /// Submits a buy order.
    pub fn submit_buy_order(
        &mut self,
        asset_no: usize,
        order_id: u64,
        price_tick: i64,
        qty: Real,
        time_in_force: TimeInForce,
        order_type: OrdType,
        wait: bool,
    ) -> (r: Result<Outbound, BotError>)
        requires
            old(self).wf(),
        ensures
            final(self).wf(),
            Self::submitted(
                *old(self),
                asset_no,
                order_id,
                price_tick,
                qty,
                Side::Buy,
                time_in_force,
                order_type,
                wait,
                *final(self),
                r,
            ),
    {
        self.submit_order(
            asset_no,
            order_id,
            price_tick,
            qty,
            time_in_force,
            order_type,
            wait,
            Side::Buy,
        )
    }

    /// Submits a sell order.
    pub fn submit_sell_order(
        &mut self,
        asset_no: usize,
        order_id: u64,
        price_tick: i64,
        qty: Real,
        time_in_force: TimeInForce,
        order_type: OrdType,
        wait: bool,
    ) -> (r: Result<Outbound, BotError>)
        requires
            old(self).wf(),
        ensures
            final(self).wf(),
            Self::submitted(
                *old(self),
                asset_no,
                order_id,
                price_tick,
                qty,
                Side::Sell,
                time_in_force,
                order_type,
                wait,
                *final(self),
                r,
            ),
    {
        self.submit_order(
            asset_no,
            order_id,
            price_tick,
            qty,
            time_in_force,
            order_type,
            wait,
            Side::Sell,
        )
    }

    /// Submits the order that `order` describes.
    pub fn submit(&mut self, asset_no: usize, order: OrderRequest, wait: bool) -> (r: Result<
        Outbound,
        BotError,
    >)
        requires
            old(self).wf(),
        ensures
            final(self).wf(),
            Self::submitted(
                *old(self),
                asset_no,
                order.order_id,
                order.price_tick,
                order.qty,
                order.side,
                order.time_in_force,
                order.order_type,
                wait,
                *final(self),
                r,
            ),
    {
        self.submit_order(
            asset_no,
            order.order_id,
            order.price_tick,
            order.qty,
            order.time_in_force,
            order.order_type,
            wait,
            order.side,
        )
    }

    /// Asks to cancel the order `order_id` of instrument `asset_no`.
    ///
    /// Fails with `InstrumentNotFound` if there is no such instrument, with
    /// `OrderNotFound` if the mirror holds no such order and with
    /// `InvalidOrderStatus` if the order cannot be cancelled; the bot is then
    /// unchanged. Otherwise the order records the request, stamped with the time
    /// of the call, and the result asks to publish the order as it then stands
    /// and, if `wait` is set, to wait up to 60 seconds for the response to it.
    pub fn cancel(&mut self, asset_no: usize, order_id: u64, wait: bool) -> (r: Result<
        Outbound,
        BotError,
    >)
        requires
            old(self).wf(),
        ensures
            final(self).wf(),
            Self::cancelled(*old(self), asset_no, order_id, wait, *final(self), r),
    {
        if asset_no >= self.instruments.len() {
            return Err(BotError::InstrumentNotFound);
        }
        let now = current_timestamp();
        match self.instruments[asset_no].request_cancel(order_id, now) {
            Err(error) => {
                assert(self.slots() =~= old(self).slots());
                Err(error)
            },
            Ok(order) => {
                proof {
                    Self::lemma_slot_changed(old(self), self, asset_no as int);
                }
                let r = Ok(self.outbound(asset_no, order, wait));
                assert(Self::cancel_placed(*old(self), asset_no, order_id, now, wait, *self, r));
                r
            },
        }
    }

    /// Forgets the recent trades of instrument `asset_no`, or of every instrument
    /// where none is named.
    pub fn clear_last_trades(&mut self, asset_no: Option<usize>)
        requires
            old(self).wf(),
            asset_no matches Some(a) ==> a < old(self).slots().len(),
        ensures
            final(self).wf(),
            final(self).same_setup(old(self)),
            forall|i: int|
                0 <= i < old(self).slots().len() ==> ({
                    let cleared = asset_no matches Some(a) ==> a == i;
                    &&& (#[trigger] final(self).slots()[i])@ == if cleared {
                        old(self).slots()[i]@.without_trades()
                    } else {
                        old(self).slots()[i]@
                    }
                    &&& final(self).slots()[i].depth_view() == old(self).slots()[i].depth_view()
                }),
    {
        match asset_no {
            Some(a) => {
                self.instruments[a].clear_last_trades();
                proof {
                    Self::lemma_slot_changed(old(self), self, a as int);
                }
            },
            None => {
                let mut i: usize = 0;
                while i < self.instruments.len()
                    invariant
                        self.wf(),
                        self.same_setup(old(self)),
                        i <= self.slots().len(),
                        forall|k: int|
                            0 <= k < self.slots().len() ==> {
                                &&& (#[trigger] self.slots()[k])@ == if k < i {
                                    old(self).slots()[k]@.without_trades()
                                } else {
                                    old(self).slots()[k]@
                                }
                                &&& self.slots()[k].depth_view() == old(self).slots()[k].depth_view()
                            },
                    decreases self.instruments.len() - i,
                {
                    let ghost before = *self;
                    self.instruments[i].clear_last_trades();
                    proof {
                        Self::lemma_slot_changed(&before, self, i as int);
                    }
                    i += 1;
                }
            },
        }
    }

    /// Drops the orders that are no longer active from the mirror of instrument
    /// `asset_no`, or of every instrument where none is named. Naming an
    /// instrument that does not exist changes nothing.
    pub fn clear_inactive_orders(&mut self, asset_no: Option<usize>)
        requires
            old(self).wf(),
        ensures
            final(self).wf(),
            final(self).same_setup(old(self)),
            forall|i: int|
                0 <= i < old(self).slots().len() ==> ({
                    let cleared = asset_no matches Some(a) ==> a == i;
                    &&& (#[trigger] final(self).slots()[i])@ == if cleared {
                        old(self).slots()[i]@.without_inactive()
                    } else {
                        old(self).slots()[i]@
                    }
                    &&& final(self).slots()[i].depth_view() == old(self).slots()[i].depth_view()
                }),
    {
        match asset_no {
            Some(a) => {
                if a < self.instruments.len() {
                    self.instruments[a].remove_if_inactive();
                    proof {
                        Self::lemma_slot_changed(old(self), self, a as int);
                    }
                }
            },
            None => {
                let mut i: usize = 0;
                while i < self.instruments.len()
                    invariant
                        self.wf(),
                        self.same_setup(old(self)),
                        i <= self.slots().len(),
                        forall|k: int|
                            0 <= k < self.slots().len() ==> {
                                &&& (#[trigger] self.slots()[k])@ == if k < i {
                                    old(self).slots()[k]@.without_inactive()
                                } else {
                                    old(self).slots()[k]@
                                }
                                &&& self.slots()[k].depth_view() == old(self).slots()[k].depth_view()
                            },
                    decreases self.instruments.len() - i,
                {
                    let ghost before = *self;
                    self.instruments[i].remove_if_inactive();
                    proof {
                        Self::lemma_slot_changed(&before, self, i as int);
                    }
                    i += 1;
                }
            },
        }
    }

    /// The wait for the response to order `order_id` of instrument `asset_no`,
    /// for at most `timeout` nanoseconds.
    pub fn wait_order_response(&self, asset_no: usize, order_id: u64, timeout: i64) -> (run: Elapse)
        ensures
            run == Elapse::spec_new(
                timeout,
                WaitOrderResponse::Specified { asset_no, order_id },
                false,
            ),
    {
        Elapse::new(timeout, WaitOrderResponse::Specified { asset_no, order_id }, false)
    }

    /// The wait for the next market data, and for any order response too if
    /// `include_order_resp` is set, for at most `timeout` nanoseconds.
    pub fn wait_next_feed(&self, include_order_resp: bool, timeout: i64) -> (run: Elapse)
        ensures
            run == Elapse::spec_new(
                timeout,
                if include_order_resp {
                    WaitOrderResponse::Any
                } else {
                    WaitOrderResponse::NoWait
                },
                true,
            ),
    {
        if include_order_resp {
            Elapse::new(timeout, WaitOrderResponse::Any, true)
        } else {
            Elapse::new(timeout, WaitOrderResponse::NoWait, true)
        }
    }

    /// The wait that lets `duration` nanoseconds pass, whatever arrives.
    pub fn elapse(&self, duration: i64) -> (run: Elapse)
        ensures
            run == Elapse::spec_new(duration, WaitOrderResponse::NoWait, false),
    {
        Elapse::new(duration, WaitOrderResponse::NoWait, false)
    }

    /// Lets time pass in a backtest. A live bot has nothing to do for it.
    pub fn elapse_bt(&mut self, _duration: i64) -> (r: Result<bool, BotError>)
        ensures
            r == Ok::<bool, BotError>(true),
            *final(self) == *old(self),
    {
        Ok(true)
    }

    /// Closes the bot. The bot holds nothing to release, so this changes nothing
    /// and can be repeated.
    pub fn close(&mut self) -> (r: Result<(), BotError>)
        ensures
            r is Ok,
            *final(self) == *old(self),
    {
        Ok(())
    }
}

} // verus!
