//! Routing of exchange websocket messages and reconnection pacing.
use vstd::prelude::*;
use crate::text::str_eq;
use crate::types::TradeSide;

verus! {

/// What the market-data client does with the entries of a message.
#[derive(Debug, Clone, Copy, PartialEq, Eq, Structural)]
pub enum FeedRoute {
    /// Heartbeats and status messages: the message is skipped.
    Skip,
    /// Each entry is a ticker update.
    Ticker,
    /// Each entry is a public trade.
    Trade,
    /// Each entry is a full order-book snapshot.
    BookSnapshot,
    /// Each entry is an incremental order-book update.
    BookUpdate,
    /// No event is made from the entries.
    Unhandled,
}

/// The route of a message on `channel` of type `msg_type`.
pub open spec fn feed_route_spec(channel: Seq<char>, msg_type: Seq<char>) -> FeedRoute {
    if msg_type == "heartbeat"@ || channel == "heartbeat"@ || channel == "status"@ {
        FeedRoute::Skip
    } else if channel == "ticker"@ && (msg_type == "update"@ || msg_type == "snapshot"@) {
        FeedRoute::Ticker
    } else if channel == "trade"@ && (msg_type == "update"@ || msg_type == "snapshot"@) {
        FeedRoute::Trade
    } else if channel == "book"@ {
        if msg_type == "snapshot"@ {
            FeedRoute::BookSnapshot
        } else {
            FeedRoute::BookUpdate
        }
    } else {
        FeedRoute::Unhandled
    }
}

/// Classifies a market-data message by its channel and type.
pub fn feed_route(channel: &str, msg_type: &str) -> (r: FeedRoute)
    ensures
        r == feed_route_spec(channel@, msg_type@),
{
    if str_eq(msg_type, "heartbeat") || str_eq(channel, "heartbeat") || str_eq(channel, "status") {
        return FeedRoute::Skip;
    }
    let is_data = str_eq(msg_type, "update") || str_eq(msg_type, "snapshot");
    if str_eq(channel, "ticker") && is_data {
        FeedRoute::Ticker
    } else if str_eq(channel, "trade") && is_data {
        FeedRoute::Trade
    } else if str_eq(channel, "book") {
        if str_eq(msg_type, "snapshot") {
            FeedRoute::BookSnapshot
        } else {
            FeedRoute::BookUpdate
        }
    } else {
        FeedRoute::Unhandled
    }
}

impl TradeSide {
    /// The side named on the wire: "buy" is a buy, anything else a sell.
    pub fn from_wire(side: &str) -> (r: TradeSide)
        ensures
            r == (if side@ == "buy"@ {
                TradeSide::Buy
            } else {
                TradeSide::Sell
            }),
    {
        if str_eq(side, "buy") {
            TradeSide::Buy
        } else {
            TradeSide::Sell
        }
    }
}

/// Whether a private-feed message carries executions to look at.
pub fn is_execution_message(channel: &str, msg_type: &str) -> (r: bool)
    ensures
        r == (channel@ == "executions"@ && msg_type@ != "heartbeat"@),
{
    str_eq(channel, "executions") && !str_eq(msg_type, "heartbeat")
}

/// Whether an execution entry is reported: fills, cancellations and expiries.
pub fn is_reported_execution(exec_type: &str) -> (r: bool)
    ensures
        r == (exec_type@ == "trade"@ || exec_type@ == "canceled"@ || exec_type@ == "expired"@),
{
    str_eq(exec_type, "trade") || str_eq(exec_type, "canceled") || str_eq(exec_type, "expired")
}

/// Whether an execution is the fill of a sell stop-loss order.
pub fn is_stop_loss_fill(side: &str, order_type: &str, ord_status: &str, exec_type: &str) -> (r: bool)
    ensures
        r == (side@ == "sell"@ && order_type@ == "stop-loss"@ && (ord_status@ == "filled"@
            || exec_type@ == "trade"@)),
{
    str_eq(side, "sell") && str_eq(order_type, "stop-loss") && (str_eq(ord_status, "filled")
        || str_eq(exec_type, "trade"))
}

/// The first position (in the given order) whose stop-loss order is
/// `order_id`, if any. `stop_orders[i]` is the tracked stop-loss order of
/// position `i`.
pub fn find_stop_owner(stop_orders: &Vec<Option<String>>, order_id: &str) -> (r: Option<usize>)
    ensures
        match r {
            Some(i) => {
                &&& i < stop_orders@.len()
                &&& stop_orders@[i as int] matches Some(t) && t@ == order_id@
                &&& forall|k: int|
                    0 <= k < i ==> !(#[trigger] stop_orders@[k] matches Some(t) && t@ == order_id@)
            },
            None => forall|k: int|
                0 <= k < stop_orders@.len() ==> !(#[trigger] stop_orders@[k] matches Some(t) && t@
                    == order_id@),
        },
{
    let n = stop_orders.len();
    for i in 0..n
        invariant
            n == stop_orders@.len(),
            forall|k: int|
                0 <= k < i ==> !(#[trigger] stop_orders@[k] matches Some(t) && t@ == order_id@),
    {
        match &stop_orders[i] {
            Some(t) => {
                if str_eq(t.as_str(), order_id) {
                    return Some(i);
                }
            },
            None => {},
        }
    }
    None
}

/// Seconds to wait before reconnecting: back to 1 after a clean close,
/// doubled after an error, never more than 30.
pub fn next_backoff(backoff: u64, closed_cleanly: bool) -> (r: u64)
    requires
        backoff <= u64::MAX / 2,
    ensures
        r == (if closed_cleanly {
            1
        } else if backoff * 2 < 30 {
            backoff * 2
        } else {
            30
        }),
{
    if closed_cleanly {
        1
    } else {
        let doubled = backoff * 2;
        if doubled < 30 {
            doubled
        } else {
            30
        }
    }
}

/// Starting from 1, the reconnect delay always stays between 1 and 30 seconds.
pub proof fn lemma_backoff_bounded(backoff: u64, closed_cleanly: bool)
    requires
        1 <= backoff <= 30,
    ensures
        ({
            let r = if closed_cleanly {
                1
            } else if backoff * 2 < 30 {
                backoff * 2
            } else {
                30
            };
            1 <= r <= 30
        }),
{
}

} // verus!
