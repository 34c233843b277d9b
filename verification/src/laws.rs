//! Laws of the order mirror and of the endpoints, stated over what the bot's
//! operations are specified by.
use vstd::prelude::*;
use crate::bot::{LiveBot, Outbound};
use crate::depth::MarketDepth;
use crate::error::BotError;
use crate::instrument::{reconcile, InstrumentView};
use crate::plan::{asset_of, connector_names, lemma_distinct_names};
use crate::rotation::Rotation;
use crate::types::{
    Event, LiveEvent, OrdType, Order, Real, Side, TimeInForce, WaitOrderResponse,
    LOCAL_ASK_DEPTH_EVENT, LOCAL_BID_DEPTH_EVENT, LOCAL_BUY_TRADE_EVENT,
    LOCAL_SELL_TRADE_EVENT,
};

verus! {

/// One change of an instrument slot, as the bot's operations make them.
pub enum SlotStep {
    /// A market-data event was applied.
    Fed(Event),
    /// The connector reported a position.
    Positioned(Real),
    /// A strategy submitted this order. A submission under an id that the mirror
    /// holds is refused and changes nothing.
    Submitted(Order),
    /// The connector's update of an order was received at `now`, and the order
    /// hook gave `verdict` on it.
    Received { update: Order, now: i64, verdict: Result<(), BotError> },
    /// A strategy asked at `now` to cancel an order.
    CancelRequested { order_id: u64, now: i64 },
    /// A strategy cleared the recent trades.
    TradesCleared,
}

/// The slot after one step.
pub open spec fn stepped(slot: InstrumentView, step: SlotStep) -> InstrumentView {
    match step {
        SlotStep::Fed(event) => slot.fed(event),
        SlotStep::Positioned(qty) => slot.positioned(qty),
        SlotStep::Submitted(order) => if slot.orders.contains_key(order.order_id) {
            slot
        } else {
            slot.opened(order)
        },
        SlotStep::Received { update, now, verdict } => slot.received(update, now, verdict),
        SlotStep::CancelRequested { order_id, now } => slot.cancel_requested(order_id, now),
        SlotStep::TradesCleared => slot.without_trades(),
    }
}

/// The slot after a run of steps, first to last.
pub open spec fn ran(slot: InstrumentView, steps: Seq<SlotStep>) -> InstrumentView
    decreases steps.len(),
{
    if steps.len() == 0 {
        slot
    } else {
        stepped(ran(slot, steps.drop_last()), steps.last())
    }
}

/// No step takes an order out of the mirror or moves its exchange timestamp
/// backwards, and no step changes an order that is final.
pub proof fn law_step_keeps_orders(slot: InstrumentView, step: SlotStep, order_id: u64)
    requires
        slot.orders.contains_key(order_id),
    ensures
        stepped(slot, step).orders.contains_key(order_id),
        stepped(slot, step).orders[order_id].exch_timestamp >= slot.orders[order_id].exch_timestamp,
        slot.orders[order_id].spec_is_terminal() ==> stepped(slot, step).orders[order_id]
            == slot.orders[order_id],
{
}

/// Whatever is submitted, received, cancelled or fed, in whatever order: as long
/// as the mirror is not cleared, an order that it holds stays in it, the exchange
/// timestamp of the order never decreases from one step to a later one, and once
/// the order is final none of its fields changes again.
pub proof fn law_orders_over_any_run(
    slot: InstrumentView,
    steps: Seq<SlotStep>,
    earlier: int,
    later: int,
    order_id: u64,
)
    requires
        slot.orders.contains_key(order_id),
        0 <= earlier <= later <= steps.len(),
    ensures
        ran(slot, steps.take(earlier)).orders.contains_key(order_id),
        ran(slot, steps.take(later)).orders.contains_key(order_id),
        ran(slot, steps.take(earlier)).orders[order_id].exch_timestamp <= ran(
            slot,
            steps.take(later),
        ).orders[order_id].exch_timestamp,
        ran(slot, steps.take(earlier)).orders[order_id].spec_is_terminal() ==> ran(
            slot,
            steps.take(later),
        ).orders[order_id] == ran(slot, steps.take(earlier)).orders[order_id],
    decreases later,
{
    if later == 0 {
        assert(steps.take(0) =~= Seq::<SlotStep>::empty());
    } else if earlier == later {
        law_orders_over_any_run(slot, steps, 0, later - 1, order_id);
        assert(steps.take(later).drop_last() =~= steps.take(later - 1));
        law_step_keeps_orders(ran(slot, steps.take(later - 1)), steps[later - 1], order_id);
    } else {
        law_orders_over_any_run(slot, steps, earlier, later - 1, order_id);
        assert(steps.take(later).drop_last() =~= steps.take(later - 1));
        law_step_keeps_orders(ran(slot, steps.take(later - 1)), steps[later - 1], order_id);
    }
}

/// Dispatching an event changes each slot of the bot by one step at most.
pub proof fn law_dispatch_is_a_step<MD: MarketDepth>(
    pre: LiveBot<MD>,
    ev: LiveEvent,
    wait: WaitOrderResponse,
    post: LiveBot<MD>,
    r: Result<bool, BotError>,
    asset_no: int,
)
    requires
        LiveBot::dispatched(pre, ev, wait, post, r),
        0 <= asset_no < pre.slots().len(),
    ensures
        post.slots()[asset_no]@ == pre.slots()[asset_no]@ || exists|step: SlotStep|
            post.slots()[asset_no]@ == #[trigger] stepped(pre.slots()[asset_no]@, step),
{
    let slot = pre.slots()[asset_no]@;
    match ev {
        LiveEvent::Feed { symbol, event } => {
            if pre.asset_no_of(symbol@) matches Some(a) && a == asset_no {
                assert(post.slots()[asset_no]@ == stepped(slot, SlotStep::Fed(event)));
            }
        },
        LiveEvent::Order { symbol, order } => {
            if pre.asset_no_of(symbol@) matches Some(a) && a == asset_no {
                let (now, verdict) = choose|now: i64, verdict: Result<(), BotError>|
                    post.slots()[asset_no]@ == #[trigger] slot.received(order, now, verdict);
                assert(post.slots()[asset_no]@ == stepped(
                    slot,
                    SlotStep::Received { update: order, now, verdict },
                ));
            }
        },
        LiveEvent::Position { symbol, qty } => {
            if pre.asset_no_of(symbol@) matches Some(a) && a == asset_no {
                assert(post.slots()[asset_no]@ == stepped(slot, SlotStep::Positioned(qty)));
            }
        },
        LiveEvent::Error(_) => {},
    }
}

/// Submitting an order changes each slot of the bot by one step at most.
pub proof fn law_submission_is_a_step<MD: MarketDepth>(
    pre: LiveBot<MD>,
    asset_no: usize,
    order_id: u64,
    price_tick: i64,
    qty: Real,
    side: Side,
    time_in_force: TimeInForce,
    order_type: OrdType,
    wait: bool,
    post: LiveBot<MD>,
    r: Result<Outbound, BotError>,
    slot_no: int,
)
    requires
        LiveBot::submitted(
            pre,
            asset_no,
            order_id,
            price_tick,
            qty,
            side,
            time_in_force,
            order_type,
            wait,
            post,
            r,
        ),
        0 <= slot_no < pre.slots().len(),
    ensures
        post.slots()[slot_no]@ == pre.slots()[slot_no]@ || exists|step: SlotStep|
            post.slots()[slot_no]@ == #[trigger] stepped(pre.slots()[slot_no]@, step),
{
    if pre.submit_refusal(asset_no, order_id) is None && slot_no == asset_no {
        let now = choose|now: i64|
            LiveBot::placed(
                pre,
                asset_no,
                #[trigger] pre.submission(
                    asset_no,
                    order_id,
                    price_tick,
                    qty,
                    side,
                    time_in_force,
                    order_type,
                    now,
                ),
                wait,
                post,
                r,
            );
        let order = pre.submission(
            asset_no,
            order_id,
            price_tick,
            qty,
            side,
            time_in_force,
            order_type,
            now,
        );
        assert(post.slots()[slot_no]@ == stepped(pre.slots()[slot_no]@, SlotStep::Submitted(order)));
    }
}

/// Asking to cancel an order changes each slot of the bot by one step at most.
pub proof fn law_cancellation_is_a_step<MD: MarketDepth>(
    pre: LiveBot<MD>,
    asset_no: usize,
    order_id: u64,
    wait: bool,
    post: LiveBot<MD>,
    r: Result<Outbound, BotError>,
    slot_no: int,
)
    requires
        LiveBot::cancelled(pre, asset_no, order_id, wait, post, r),
        0 <= slot_no < pre.slots().len(),
    ensures
        post.slots()[slot_no]@ == pre.slots()[slot_no]@ || exists|step: SlotStep|
            post.slots()[slot_no]@ == #[trigger] stepped(pre.slots()[slot_no]@, step),
{
    if pre.cancel_refusal(asset_no, order_id) is None && slot_no == asset_no {
        let now = choose|now: i64| #[trigger]
            LiveBot::cancel_placed(pre, asset_no, order_id, now, wait, post, r);
        assert(post.slots()[slot_no]@ == stepped(
            pre.slots()[slot_no]@,
            SlotStep::CancelRequested { order_id, now },
        ));
    }
}

/// An update that the mirror takes over leaves the order with the update's
/// exchange timestamp, which is not before the one it had.
pub proof fn law_accepted_update_sets_exchange_time(entry: Order, update: Order)
    ensures
        reconcile(Some(entry), update).exch_timestamp == update.exch_timestamp || reconcile(
            Some(entry),
            update,
        ) == entry,
        reconcile(Some(entry), update).exch_timestamp >= entry.exch_timestamp,
{
}

/// Receiving the same update twice leaves the slot as receiving it once does: the
/// mirror is the same after the first receipt as after the second, and all that
/// differs is the time of receipt in the order latency.
pub proof fn law_same_update_twice(slot: InstrumentView, update: Order, first: i64, second: i64)
    ensures
        slot.received(update, first, Ok(())).received(update, second, Ok(())) == slot.received(
            update,
            second,
            Ok(()),
        ),
        slot.received(update, first, Ok(())).received(update, second, Ok(())).orders
            == slot.received(update, first, Ok(())).orders,
{
}

/// Receiving an update of an order that is older than an update of the same order
/// received before it leaves the mirror as it is.
pub proof fn law_older_update_after_newer(
    slot: InstrumentView,
    newer: Order,
    older: Order,
    first: i64,
    second: i64,
    verdict: Result<(), BotError>,
)
    requires
        older.order_id == newer.order_id,
        older.exch_timestamp < newer.exch_timestamp,
    ensures
        slot.received(newer, first, Ok(())).received(older, second, verdict).orders
            == slot.received(newer, first, Ok(())).orders,
{
}

/// Clearing the inactive orders keeps exactly the orders whose status is not
/// terminal, each as it was.
pub proof fn law_clear_keeps_the_active(slot: InstrumentView, order_id: u64)
    ensures
        slot.without_inactive().orders.contains_key(order_id) <==> slot.orders.contains_key(
            order_id,
        ) && !slot.orders[order_id].status.spec_is_terminal(),
        slot.without_inactive().orders.contains_key(order_id) ==> slot.without_inactive().orders[order_id]
            == slot.orders[order_id],
{
}

/// Two instruments of a bot have the same endpoint exactly when they have the same
/// connector name, and the endpoint of an instrument is that of its connector.
pub proof fn law_one_endpoint_for_each_connector<MD: MarketDepth>(bot: &LiveBot<MD>, i: int, j: int)
    requires
        bot.wf(),
        0 <= i < bot.slots().len(),
        0 <= j < bot.slots().len(),
    ensures
        bot.endpoint_numbers()[i] == bot.endpoint_numbers()[j] <==> bot.slots()[i]@.connector_name
            == bot.slots()[j]@.connector_name,
        bot.channel_names()[bot.endpoint_numbers()[i] as int] == bot.slots()[i]@.connector_name,
        bot.channel_names().no_duplicates(),
{
    lemma_distinct_names(connector_names(bot.slots()));
}

/// Events for a symbol go to the last instrument with that symbol, and to none
/// if no instrument has it.
pub proof fn law_events_go_to_the_last_instrument(symbols: Seq<Seq<char>>, symbol: Seq<char>)
    requires
        symbols.len() <= usize::MAX,
    ensures
        (match asset_of(symbols, symbol) {
            Some(asset_no) => asset_no < symbols.len() && symbols[asset_no as int] == symbol
                && forall|j: int| asset_no < j < symbols.len() ==> symbols[j] != symbol,
            None => forall|j: int| 0 <= j < symbols.len() ==> symbols[j] != symbol,
        }),
    decreases symbols.len(),
{
    if symbols.len() > 0 && symbols.last() != symbol {
        let head = symbols.drop_last();
        law_events_go_to_the_last_instrument(head, symbol);
        assert forall|j: int| 0 <= j < head.len() implies head[j] == symbols[j] by {}
    }
}

/// Where the turn is after fewer turns than there are endpoints: that many
/// endpoints further, counting on from the first after the last.
proof fn lemma_turns(rotation: Rotation, turns: nat)
    requires
        rotation.wf(),
        turns < rotation.endpoints,
    ensures
        rotation.turned_times(turns).endpoints == rotation.endpoints,
        rotation.turned_times(turns).next == (if rotation.next + turns < rotation.endpoints {
            rotation.next + turns
        } else {
            rotation.next + turns - rotation.endpoints
        }),
    decreases turns,
{
    if turns > 0 {
        lemma_turns(rotation, (turns - 1) as nat);
    }
}

/// The rotation is fair: among as many turns in a row as there are endpoints,
/// every endpoint has its turn.
pub proof fn law_every_endpoint_has_its_turn(rotation: Rotation, endpoint: usize)
    requires
        rotation.wf(),
        endpoint < rotation.endpoints,
    ensures
        exists|turns: nat|
            turns < rotation.endpoints && (#[trigger] rotation.turned_times(turns)).next == endpoint,
{
    let turns: nat = if endpoint >= rotation.next {
        (endpoint - rotation.next) as nat
    } else {
        (endpoint + rotation.endpoints - rotation.next) as nat
    };
    lemma_turns(rotation, turns);
    assert(rotation.turned_times(turns).next == endpoint);
}

/// The four kinds of local market data are told apart: an event that carries
/// exactly the flags of one kind is of that kind.
pub proof fn law_local_events_are_told_apart(event: Event)
    ensures
        event.ev == LOCAL_BID_DEPTH_EVENT ==> event.is_bid_depth(),
        event.ev == LOCAL_ASK_DEPTH_EVENT ==> event.is_ask_depth(),
        event.ev == LOCAL_BUY_TRADE_EVENT || event.ev == LOCAL_SELL_TRADE_EVENT
            ==> event.is_trade(),
{
    let ev = event.ev;
    assert(ev == 0x6000_0001u64 ==> (ev & 0x6000_0001) == 0x6000_0001 && (ev & 0xff) == (0x6000_0001u64
        & 0xff)) by (bit_vector);
    assert(ev == 0x5000_0001u64 ==> (ev & 0x5000_0001) == 0x5000_0001 && (ev & 0xff) == (0x5000_0001u64
        & 0xff) && (ev & 0x6000_0001) != 0x6000_0001) by (bit_vector);
    assert(ev == 0x6000_0002u64 ==> (ev & 0x6000_0002) == 0x6000_0002 && (ev & 0xff) == (0x6000_0002u64
        & 0xff) && (ev & 0xff) != (0x6000_0001u64 & 0xff) && (ev & 0xff) != (0x5000_0001u64 & 0xff))
        by (bit_vector);
    assert(ev == 0x5000_0002u64 ==> (ev & 0x5000_0002) == 0x5000_0002 && (ev & 0xff) == (0x5000_0002u64
        & 0xff) && (ev & 0xff) != (0x6000_0001u64 & 0xff) && (ev & 0xff) != (0x5000_0001u64 & 0xff))
        by (bit_vector);
    assert((0x6000_0001u64 & 0xff) != 0 && (0x5000_0001u64 & 0xff) != 0 && (0x6000_0002u64 & 0xff)
        != 0 && (0x5000_0002u64 & 0xff) != 0) by (bit_vector);
}

} // verus!
