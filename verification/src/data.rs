//! Data model of the relay.
//!
//! A subscription descriptor identifies one logical stream; its market key is
//! the opaque string that routes callback payloads back to a channel the
//! caller recognizes.  Inbound protocol messages are normalized into relay
//! events, the unit of information flowing from the I/O worker to the
//! dispatch worker; the dispatch worker translates each relay event into
//! exactly one host call.

use vstd::prelude::*;
use crate::errors::ErrorKind;

verus! {

/// A subscription descriptor: which logical stream of a market is requested.
/// Immutable once submitted.
#[derive(Clone, PartialEq, Eq, Debug)]
pub enum Subscription {
    /// Price ticker updates for a market.
    Ticker(String),
    /// Order-book updates for a market.
    OrderBookUpdates(String),
    /// Executed trades for a market.
    Trades(String),
}

/// The market key a descriptor routes by.
pub open spec fn spec_market_key(s: Subscription) -> String {
    match s {
        Subscription::Ticker(m) => m,
        Subscription::OrderBookUpdates(m) => m,
        Subscription::Trades(m) => m,
    }
}

/// Extracts the market key of a descriptor.
pub fn market_key(s: Subscription) -> (key: String)
    ensures
        key == spec_market_key(s),
{
    match s {
        Subscription::Ticker(m) => m,
        Subscription::OrderBookUpdates(m) => m,
        Subscription::Trades(m) => m,
    }
}

/// Reads a subscription descriptor out of its tagged form: the tag says
/// which stream is wanted, the market key says for which market.  A tag
/// outside the two that can be requested is rejected.
pub fn subscription_from_parts(tag: &String, market: String) -> (r: Option<Subscription>)
    ensures
        tag@ == "OrderBook"@ ==> r == Some(Subscription::OrderBookUpdates(market)),
        tag@ == "Trade"@ ==> r == Some(Subscription::Trades(market)),
        tag@ != "OrderBook"@ && tag@ != "Trade"@ ==> r is None,
{
    proof {
        reveal_strlit("OrderBook");
        reveal_strlit("Trade");
        assert("OrderBook"@.len() != "Trade"@.len());
    }
    let order_book_tag = String::from_str("OrderBook");
    if *tag == order_book_tag {
        return Some(Subscription::OrderBookUpdates(market));
    }
    let trade_tag = String::from_str("Trade");
    if *tag == trade_tag {
        return Some(Subscription::Trades(market));
    }
    None
}

/// One executed trade, as the host sees it.  Amounts travel as decimal
/// strings; the relay routes them untouched.
#[derive(Clone, PartialEq, Eq, Debug)]
pub struct Trade {
    pub id: String,
    pub price: String,
    pub qty: String,
}

/// One price level of an order book: a price and the quantity resting there.
#[derive(Clone, PartialEq, Eq, Debug)]
pub struct BookLevel {
    pub price: String,
    pub qty: String,
}

/// An order book, either a full snapshot or the levels of a diff.
#[derive(Clone, PartialEq, Eq, Debug)]
pub struct OrderBook {
    pub asks: Vec<BookLevel>,
    pub bids: Vec<BookLevel>,
    pub last_update_id: u64,
    pub update_id: u64,
}

/// A normalized market-data message: what the client decoded from the wire.
#[derive(Clone, PartialEq, Eq, Debug)]
pub enum WsMessage {
    /// A batch of executed trades.
    Trades(Vec<Trade>),
    /// A full order-book snapshot.
    OrderBook(OrderBook),
    /// An incremental order-book update.
    OrderBookDiff(OrderBook),
    /// A keep-alive ping.
    Ping,
}

/// What the client hands a subscription's message callback: either a
/// normalized message or a raw exchange-specific frame, which the relay
/// does not forward.
#[derive(Clone, PartialEq, Eq, Debug)]
pub enum ClientMessage {
    Generic(WsMessage),
    Raw,
}

/// A command a caller enqueues for the I/O worker.
#[derive(Clone, PartialEq, Eq, Debug)]
pub enum Command {
    /// Request a subscription; the caller blocks for its one-shot reply.
    Subscribe(Subscription),
    /// Push a terminal disconnect through the relay and stop both workers.
    Disconnect,
    /// Diagnostic: synthesize a socket-error event without touching the
    /// network, to validate the error-delivery path deterministically.
    SimulateError,
}

/// The unit of information flowing from the I/O worker to the dispatch
/// worker.
#[derive(Clone, PartialEq, Eq, Debug)]
pub enum RelayEvent {
    /// A normalized message, tagged with the market key it belongs to.
    Message(WsMessage, String),
    /// A recoverable failure, delivered to the sink without ending the
    /// stream.
    Error(ErrorKind),
    /// The terminal event; nothing is delivered after it.
    Disconnect,
}

/// One host callback invocation: what the dispatch worker delivers to the
/// callback sink for one relay event.
#[derive(Clone, PartialEq, Eq, Debug)]
pub enum HostCall {
    /// Deliver a trade batch for a market.
    OnTrades(String, Vec<Trade>),
    /// Deliver an order book (snapshot or diff) for a market.
    OnOrderbook(String, OrderBook),
    /// Deliver a typed error; the stream continues.
    OnError(ErrorKind),
    /// Deliver a keep-alive.
    OnPing,
    /// Deliver the terminal disconnect.
    OnDisconnect,
}

} // verus!
