use market_relay::data::{
    subscription_from_parts, market_key, BookLevel, ClientMessage, HostCall, OrderBook, RelayEvent,
    Subscription, Trade, WsMessage,
};
use market_relay::dispatch::{dispatch_drain, dispatch_event, should_continue};
use market_relay::errors::{error_class, error_name, normalize_error, ClientError, ErrorClass, ErrorKind};
use market_relay::handle::{settle_disconnect, settle_subscribe};
use market_relay::data::Command;
use market_relay::io_worker::{
    command_action, forward_message, settle_subscription, CommandAction, IoInput, IoWorker,
};
use market_relay::lifecycle::{lifecycle_next, LifecycleEvent, LifecycleState};
use market_relay::queue::{EventQueue, EVENT_QUEUE_CAPACITY};

fn trade(id: &str) -> Trade {
    Trade { id: id.to_string(), price: "100.5".to_string(), qty: "0.25".to_string() }
}

fn book(update_id: u64) -> OrderBook {
    OrderBook {
        asks: vec![BookLevel { price: "101".to_string(), qty: "1".to_string() }],
        bids: vec![BookLevel { price: "99".to_string(), qty: "2".to_string() }],
        last_update_id: update_id,
        update_id,
    }
}

#[test]
fn error_class_covers_taxonomy() {
    assert_eq!(error_class(ErrorKind::Socket), ErrorClass::Transport);
    assert_eq!(error_class(ErrorKind::NotParsableResponse), ErrorClass::Protocol);
    assert_eq!(error_class(ErrorKind::UnknownResponse), ErrorClass::Protocol);
    assert_eq!(error_class(ErrorKind::MissingParameter), ErrorClass::Protocol);
    assert_eq!(error_class(ErrorKind::SymbolNotFound), ErrorClass::Business);
    assert_eq!(error_class(ErrorKind::AssetNotFound), ErrorClass::Business);
    assert_eq!(error_class(ErrorKind::Unauthorized), ErrorClass::Business);
    assert_eq!(error_class(ErrorKind::RateLimited), ErrorClass::Business);
    assert_eq!(error_class(ErrorKind::InternalServerError), ErrorClass::Business);
    assert_eq!(error_class(ErrorKind::ServiceUnavailable), ErrorClass::Business);
    assert_eq!(error_class(ErrorKind::QueueClosed), ErrorClass::HostBoundary);
    assert_eq!(error_class(ErrorKind::HostAttachFailed), ErrorClass::HostBoundary);
}

#[test]
fn normalize_keeps_taxonomy_members() {
    assert_eq!(normalize_error(ClientError::Socket), ErrorKind::Socket);
    assert_eq!(normalize_error(ClientError::NotParsableResponse), ErrorKind::NotParsableResponse);
    assert_eq!(normalize_error(ClientError::UnknownResponse), ErrorKind::UnknownResponse);
    assert_eq!(normalize_error(ClientError::MissingParameter), ErrorKind::MissingParameter);
    assert_eq!(normalize_error(ClientError::SymbolNotFound), ErrorKind::SymbolNotFound);
    assert_eq!(normalize_error(ClientError::AssetNotFound), ErrorKind::AssetNotFound);
    assert_eq!(normalize_error(ClientError::Unauthorized), ErrorKind::Unauthorized);
    assert_eq!(normalize_error(ClientError::RateLimited), ErrorKind::RateLimited);
    assert_eq!(normalize_error(ClientError::InternalServerError), ErrorKind::InternalServerError);
    assert_eq!(normalize_error(ClientError::ServiceUnavailable), ErrorKind::ServiceUnavailable);
}

#[test]
fn normalize_collapses_foreign_failures_to_socket() {
    assert_eq!(normalize_error(ClientError::Other), ErrorKind::Socket);
    assert_eq!(normalize_error(ClientError::HardDisconnect), ErrorKind::Socket);
}

#[test]
fn error_names_are_stable() {
    assert_eq!(error_name(ErrorKind::Socket), "SocketError");
    assert_eq!(error_name(ErrorKind::NotParsableResponse), "NotParsableResponse");
    assert_eq!(error_name(ErrorKind::UnknownResponse), "UnknownResponse");
    assert_eq!(error_name(ErrorKind::MissingParameter), "MissingParameter");
    assert_eq!(error_name(ErrorKind::SymbolNotFound), "SymbolNotFound");
    assert_eq!(error_name(ErrorKind::AssetNotFound), "AssetNotFound");
    assert_eq!(error_name(ErrorKind::Unauthorized), "Unauthorized");
    assert_eq!(error_name(ErrorKind::RateLimited), "RateLimited");
    assert_eq!(error_name(ErrorKind::InternalServerError), "InternalServerError");
    assert_eq!(error_name(ErrorKind::ServiceUnavailable), "ServiceUnavailable");
    assert_eq!(error_name(ErrorKind::QueueClosed), "QueueClosed");
    assert_eq!(error_name(ErrorKind::HostAttachFailed), "HostAttachFailed");
}

#[test]
fn market_key_of_each_descriptor() {
    assert_eq!(market_key(Subscription::Ticker("ETH-USD".to_string())), "ETH-USD");
    assert_eq!(market_key(Subscription::OrderBookUpdates("BTC-USD".to_string())), "BTC-USD");
    assert_eq!(market_key(Subscription::Trades("LTC-USD".to_string())), "LTC-USD");
}

#[test]
fn subscription_parts_order_book_tag() {
    let r = subscription_from_parts(&"OrderBook".to_string(), "BTC-USD".to_string());
    assert_eq!(r, Some(Subscription::OrderBookUpdates("BTC-USD".to_string())));
}

#[test]
fn subscription_parts_trade_tag() {
    let r = subscription_from_parts(&"Trade".to_string(), "BTC-USD".to_string());
    assert_eq!(r, Some(Subscription::Trades("BTC-USD".to_string())));
}

#[test]
fn subscription_parts_rejects_unknown_tags() {
    assert_eq!(subscription_from_parts(&"Ticker".to_string(), "BTC-USD".to_string()), None);
    assert_eq!(subscription_from_parts(&"".to_string(), "BTC-USD".to_string()), None);
    assert_eq!(subscription_from_parts(&"trade".to_string(), "BTC-USD".to_string()), None);
}

#[test]
fn queue_keeps_fifo_order() {
    let mut q = EventQueue::new();
    assert!(q.is_empty());
    assert!(q.try_push(RelayEvent::Error(ErrorKind::Socket)));
    assert!(q.try_push(RelayEvent::Message(WsMessage::Ping, "M".to_string())));
    assert!(q.try_push(RelayEvent::Disconnect));
    assert_eq!(q.len(), 3);
    assert_eq!(q.pop(), Some(RelayEvent::Error(ErrorKind::Socket)));
    assert_eq!(q.pop(), Some(RelayEvent::Message(WsMessage::Ping, "M".to_string())));
    assert_eq!(q.pop(), Some(RelayEvent::Disconnect));
    assert_eq!(q.pop(), None);
}

#[test]
fn queue_backpressure_stalls_at_capacity_and_drops_nothing() {
    let mut q = EventQueue::new();
    for i in 0..EVENT_QUEUE_CAPACITY {
        let e = RelayEvent::Message(WsMessage::Trades(vec![trade(&format!("t{}", i))]), "M".to_string());
        assert!(q.try_push(e), "push {} refused below capacity", i);
    }
    assert!(q.is_full());
    // A stalled consumer: the producer is refused, the queue is unchanged.
    let overflow = RelayEvent::Message(WsMessage::Ping, "M".to_string());
    assert!(!q.try_push(overflow.clone()));
    assert_eq!(q.len(), EVENT_QUEUE_CAPACITY);
    // The consumer resumes: one slot frees, the refused event goes through,
    // and everything comes out in submission order.
    let first = q.pop();
    assert_eq!(
        first,
        Some(RelayEvent::Message(WsMessage::Trades(vec![trade("t0")]), "M".to_string()))
    );
    assert!(q.try_push(overflow));
    for i in 1..EVENT_QUEUE_CAPACITY {
        let expected = RelayEvent::Message(WsMessage::Trades(vec![trade(&format!("t{}", i))]), "M".to_string());
        assert_eq!(q.pop(), Some(expected));
    }
    assert_eq!(q.pop(), Some(RelayEvent::Message(WsMessage::Ping, "M".to_string())));
    assert_eq!(q.pop(), None);
}

#[test]
fn settle_subscription_passes_verdict_through() {
    assert_eq!(settle_subscription(Ok(7)), Ok(7));
    assert_eq!(settle_subscription(Err(ClientError::RateLimited)), Err(ErrorKind::RateLimited));
    assert_eq!(settle_subscription(Err(ClientError::Other)), Err(ErrorKind::Socket));
}

#[test]
fn settle_subscribe_reports_closed_queue() {
    assert_eq!(settle_subscribe(false, None), Err(ErrorKind::QueueClosed));
    assert_eq!(settle_subscribe(false, Some(Ok(1))), Err(ErrorKind::QueueClosed));
    assert_eq!(settle_subscribe(true, None), Err(ErrorKind::QueueClosed));
}

#[test]
fn settle_subscribe_unwraps_worker_reply() {
    assert_eq!(settle_subscribe(true, Some(Ok(3))), Ok(()));
    assert_eq!(settle_subscribe(true, Some(Err(ErrorKind::SymbolNotFound))), Err(ErrorKind::SymbolNotFound));
}

#[test]
fn settle_disconnect_has_no_error_path() {
    assert_eq!(settle_disconnect(true), Ok(()));
    assert_eq!(settle_disconnect(false), Ok(()));
}

#[test]
fn lifecycle_happy_path() {
    let s = LifecycleState::Initializing;
    let s = lifecycle_next(s, LifecycleEvent::WorkersReady);
    assert_eq!(s, LifecycleState::Running);
    let s = lifecycle_next(s, LifecycleEvent::DisconnectProcessed);
    assert_eq!(s, LifecycleState::Draining);
    let s = lifecycle_next(s, LifecycleEvent::DrainCompleted);
    assert_eq!(s, LifecycleState::Terminated);
}

#[test]
fn lifecycle_init_failure_short_circuits() {
    let s = lifecycle_next(LifecycleState::Initializing, LifecycleEvent::InitFailed);
    assert_eq!(s, LifecycleState::Terminated);
}

#[test]
fn lifecycle_unrelated_events_stutter() {
    assert_eq!(
        lifecycle_next(LifecycleState::Initializing, LifecycleEvent::DrainCompleted),
        LifecycleState::Initializing
    );
    assert_eq!(
        lifecycle_next(LifecycleState::Running, LifecycleEvent::WorkersReady),
        LifecycleState::Running
    );
    assert_eq!(
        lifecycle_next(LifecycleState::Draining, LifecycleEvent::DisconnectProcessed),
        LifecycleState::Draining
    );
}

#[test]
fn lifecycle_terminated_is_absorbing() {
    for e in [
        LifecycleEvent::WorkersReady,
        LifecycleEvent::InitFailed,
        LifecycleEvent::DisconnectProcessed,
        LifecycleEvent::DrainCompleted,
    ] {
        assert_eq!(lifecycle_next(LifecycleState::Terminated, e), LifecycleState::Terminated);
    }
}

#[test]
fn dispatch_routes_each_event_kind() {
    let t = vec![trade("a")];
    assert_eq!(
        dispatch_event(RelayEvent::Message(WsMessage::Trades(t.clone()), "BTC-USD".to_string())),
        HostCall::OnTrades("BTC-USD".to_string(), t)
    );
    assert_eq!(
        dispatch_event(RelayEvent::Message(WsMessage::OrderBook(book(5)), "M".to_string())),
        HostCall::OnOrderbook("M".to_string(), book(5))
    );
    assert_eq!(
        dispatch_event(RelayEvent::Message(WsMessage::OrderBookDiff(book(6)), "M".to_string())),
        HostCall::OnOrderbook("M".to_string(), book(6))
    );
    assert_eq!(
        dispatch_event(RelayEvent::Message(WsMessage::Ping, "M".to_string())),
        HostCall::OnPing
    );
    assert_eq!(
        dispatch_event(RelayEvent::Error(ErrorKind::Unauthorized)),
        HostCall::OnError(ErrorKind::Unauthorized)
    );
    assert_eq!(dispatch_event(RelayEvent::Disconnect), HostCall::OnDisconnect);
}

#[test]
fn dispatch_stops_on_disconnect_or_host_failure() {
    let ping = RelayEvent::Message(WsMessage::Ping, "M".to_string());
    assert!(should_continue(&ping, true));
    assert!(!should_continue(&ping, false));
    assert!(!should_continue(&RelayEvent::Disconnect, true));
    assert!(!should_continue(&RelayEvent::Disconnect, false));
    assert!(should_continue(&RelayEvent::Error(ErrorKind::Socket), true));
}

#[test]
fn forward_tags_message_with_market_key() {
    let sub = Subscription::Trades("BTC-USD".to_string());
    let msg = WsMessage::Trades(vec![trade("a")]);
    assert_eq!(
        forward_message(sub, Ok(ClientMessage::Generic(msg.clone()))),
        Some(RelayEvent::Message(msg, "BTC-USD".to_string()))
    );
}

#[test]
fn forward_skips_raw_frames() {
    let sub = Subscription::Trades("BTC-USD".to_string());
    assert_eq!(forward_message(sub, Ok(ClientMessage::Raw)), None);
}

#[test]
fn forward_normalizes_client_failures() {
    let sub = Subscription::OrderBookUpdates("BTC-USD".to_string());
    assert_eq!(
        forward_message(sub, Err(ClientError::Other)),
        Some(RelayEvent::Error(ErrorKind::Socket))
    );
}

#[test]
fn commands_decide_the_right_worker_action() {
    let d = Subscription::Trades("BTC-USD".to_string());
    assert_eq!(
        command_action(Command::Subscribe(d.clone())),
        CommandAction::StartSubscription(d)
    );
    assert_eq!(command_action(Command::SimulateError), CommandAction::InjectError);
    assert_eq!(command_action(Command::Disconnect), CommandAction::Shutdown);
}

#[test]
fn forward_hard_disconnect_is_terminal() {
    let sub = Subscription::Trades("BTC-USD".to_string());
    assert_eq!(
        forward_message(sub, Err(ClientError::HardDisconnect)),
        Some(RelayEvent::Disconnect)
    );
}

#[test]
fn io_step_hard_disconnect_stops_the_worker() {
    let mut w = IoWorker::new();
    let out = w.step(IoInput::Inbound(
        Subscription::Trades("M".to_string()),
        Err(ClientError::HardDisconnect),
    ));
    assert_eq!(out.events, vec![RelayEvent::Disconnect]);
    assert!(!w.is_running());
    let out = w.step(IoInput::SimulateError);
    assert!(out.events.is_empty());
}

#[test]
fn io_step_simulate_error_synthesizes_one_socket_error() {
    let mut w = IoWorker::new();
    let out = w.step(IoInput::SimulateError);
    assert_eq!(out.events, vec![RelayEvent::Error(ErrorKind::Socket)]);
    assert_eq!(out.reply, None);
    assert!(w.is_running());
}

#[test]
fn io_step_disconnect_emits_terminal_event_and_stops() {
    let mut w = IoWorker::new();
    let out = w.step(IoInput::Disconnect);
    assert_eq!(out.events, vec![RelayEvent::Disconnect]);
    assert_eq!(out.reply, None);
    assert!(!w.is_running());
}

#[test]
fn io_step_drops_everything_after_disconnect() {
    let mut w = IoWorker::new();
    let _ = w.step(IoInput::Disconnect);
    let out = w.step(IoInput::SimulateError);
    assert!(out.events.is_empty());
    assert_eq!(out.reply, None);
    let out = w.step(IoInput::Subscribe(Subscription::Trades("M".to_string()), Ok(1)));
    assert!(out.events.is_empty());
    assert_eq!(out.reply, None);
    let out = w.step(IoInput::Disconnect);
    assert!(out.events.is_empty());
}

#[test]
fn io_step_subscribe_replies_and_emits_nothing() {
    let mut w = IoWorker::new();
    let out = w.step(IoInput::Subscribe(Subscription::Trades("M".to_string()), Ok(42)));
    assert!(out.events.is_empty());
    assert_eq!(out.reply, Some(Ok(42)));
    let out = w.step(IoInput::Subscribe(
        Subscription::Trades("M".to_string()),
        Err(ClientError::SymbolNotFound),
    ));
    assert!(out.events.is_empty());
    assert_eq!(out.reply, Some(Err(ErrorKind::SymbolNotFound)));
}

#[test]
fn drain_stops_after_disconnect_and_keeps_the_rest() {
    let mut q = EventQueue::new();
    assert!(q.try_push(RelayEvent::Message(WsMessage::Ping, "M".to_string())));
    assert!(q.try_push(RelayEvent::Disconnect));
    assert!(q.try_push(RelayEvent::Error(ErrorKind::Socket)));
    let calls = dispatch_drain(&mut q);
    assert_eq!(calls, vec![HostCall::OnPing, HostCall::OnDisconnect]);
    // What followed the disconnect stays undelivered.
    assert_eq!(q.len(), 1);
    assert_eq!(q.pop(), Some(RelayEvent::Error(ErrorKind::Socket)));
}
