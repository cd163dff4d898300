//! The dispatch worker: one host callback per relay event, in order.
//!
//! The dispatch worker is the only thread permitted to invoke host
//! callbacks.  It drains the event queue and translates each relay event
//! into exactly one host call; a message routes by its payload kind, an
//! error is delivered without ending the stream, and the disconnect event is
//! terminal: it becomes the final callback and nothing is delivered after
//! it.

use vstd::prelude::*;
use crate::data::{HostCall, RelayEvent, WsMessage};
use crate::queue::EventQueue;

verus! {

/// The host call a relay event translates to.
pub open spec fn spec_dispatch(e: RelayEvent) -> HostCall {
    match e {
        RelayEvent::Message(m, key) => match m {
            WsMessage::Trades(t) => HostCall::OnTrades(key, t),
            WsMessage::OrderBook(b) => HostCall::OnOrderbook(key, b),
            WsMessage::OrderBookDiff(b) => HostCall::OnOrderbook(key, b),
            WsMessage::Ping => HostCall::OnPing,
        },
        RelayEvent::Error(k) => HostCall::OnError(k),
        RelayEvent::Disconnect => HostCall::OnDisconnect,
    }
}

/// Whether a sequence of events holds the terminal disconnect event.
pub open spec fn has_disconnect(events: Seq<RelayEvent>) -> bool
    decreases events.len(),
{
    if events.len() == 0 {
        false
    } else {
        events.first() is Disconnect || has_disconnect(events.skip(1))
    }
}

/// The host calls the dispatch worker delivers for a sequence of events: one
/// call per event, in order, stopping right after the first disconnect
/// event.
pub open spec fn spec_dispatched(events: Seq<RelayEvent>) -> Seq<HostCall>
    decreases events.len(),
{
    if events.len() == 0 {
        Seq::empty()
    } else if events.first() is Disconnect {
        seq![HostCall::OnDisconnect]
    } else {
        seq![spec_dispatch(events.first())] + spec_dispatched(events.skip(1))
    }
}

/// The events left undelivered after the dispatch worker stops: whatever
/// followed the first disconnect event, or nothing.
pub open spec fn spec_undelivered(events: Seq<RelayEvent>) -> Seq<RelayEvent>
    decreases events.len(),
{
    if events.len() == 0 {
        Seq::empty()
    } else if events.first() is Disconnect {
        events.skip(1)
    } else {
        spec_undelivered(events.skip(1))
    }
}

/// Translates one relay event into its host call.
pub fn dispatch_event(e: RelayEvent) -> (c: HostCall)
    ensures
        c == spec_dispatch(e),
{
    match e {
        RelayEvent::Message(m, key) => match m {
            WsMessage::Trades(t) => HostCall::OnTrades(key, t),
            WsMessage::OrderBook(b) => HostCall::OnOrderbook(key, b),
            WsMessage::OrderBookDiff(b) => HostCall::OnOrderbook(key, b),
            WsMessage::Ping => HostCall::OnPing,
        },
        RelayEvent::Error(k) => HostCall::OnError(k),
        RelayEvent::Disconnect => HostCall::OnDisconnect,
    }
}

/// Whether the dispatch loop goes on after delivering an event: it stops on
/// the terminal disconnect event, and it stops defensively when the host
/// reported that the callback itself failed, rather than risk further calls
/// into an inconsistent host runtime.
pub fn should_continue(e: &RelayEvent, callback_ok: bool) -> (r: bool)
    ensures
        r == (callback_ok && !(e is Disconnect)),
{
    match e {
        RelayEvent::Disconnect => false,
        _ => callback_ok,
    }
}

/// Drains the event queue the way the dispatch worker does: every pending
/// event becomes one host call in order, until the queue is empty or the
/// disconnect event was delivered; whatever followed a disconnect stays in
/// the queue undelivered.
pub fn dispatch_drain(q: &mut EventQueue) -> (calls: Vec<HostCall>)
    requires
        old(q).well_formed(),
    ensures
        final(q).well_formed(),
        calls@ == spec_dispatched(old(q)@),
        final(q)@ == spec_undelivered(old(q)@),
{
    let ghost orig: Seq<RelayEvent> = q@;
    let mut calls: Vec<HostCall> = Vec::new();
    proof {
        assert(calls@ + spec_dispatched(q@) =~= spec_dispatched(orig));
    }
    loop
        invariant_except_break
            q.well_formed(),
            calls@ + spec_dispatched(q@) == spec_dispatched(orig),
            spec_undelivered(q@) == spec_undelivered(orig),
        ensures
            q.well_formed(),
            calls@ == spec_dispatched(orig),
            q@ == spec_undelivered(orig),
        decreases q@.len(),
    {
        let ghost before: Seq<RelayEvent> = q@;
        match q.pop() {
            None => {
                proof {
                    assert(calls@ =~= spec_dispatched(orig));
                }
                break;
            },
            Some(e) => {
                let terminal = match &e {
                    RelayEvent::Disconnect => true,
                    _ => false,
                };
                let c = dispatch_event(e);
                calls.push(c);
                if terminal {
                    proof {
                        assert(spec_dispatched(before) =~= seq![HostCall::OnDisconnect]);
                        assert(calls@ =~= spec_dispatched(orig));
                    }
                    break;
                }
                proof {
                    assert(spec_dispatched(before) =~= seq![c] + spec_dispatched(q@));
                    assert(calls@ + spec_dispatched(q@) =~= spec_dispatched(orig));
                }
            },
        }
    }
    calls
}

/// Delivery composes over concatenation: the calls for `s + t` are the calls
/// for `s`, followed by the calls for `t` unless `s` already held the
/// terminal disconnect.
pub proof fn lemma_dispatched_append(s: Seq<RelayEvent>, t: Seq<RelayEvent>)
    ensures
        spec_dispatched(s + t) == spec_dispatched(s) + (if has_disconnect(s) {
            Seq::<HostCall>::empty()
        } else {
            spec_dispatched(t)
        }),
        has_disconnect(s + t) == (has_disconnect(s) || has_disconnect(t)),
    decreases s.len(),
{
    if s.len() == 0 {
        assert(s + t =~= t);
        assert(spec_dispatched(s) + spec_dispatched(t) =~= spec_dispatched(t));
    } else {
        assert((s + t).first() == s.first());
        assert((s + t).skip(1) =~= s.skip(1) + t);
        lemma_dispatched_append(s.skip(1), t);
        if s.first() is Disconnect {
            assert(spec_dispatched(s + t) =~= spec_dispatched(s) + Seq::<HostCall>::empty());
        } else {
            assert(spec_dispatched(s + t) =~= spec_dispatched(s) + (if has_disconnect(s) {
                Seq::<HostCall>::empty()
            } else {
                spec_dispatched(t)
            }));
        }
    }
}

/// While no disconnect event occurs, delivery is exactly the order-keeping
/// one-to-one image of the events: nothing reordered, coalesced or dropped.
pub proof fn lemma_dispatched_is_map(s: Seq<RelayEvent>)
    requires
        !has_disconnect(s),
    ensures
        spec_dispatched(s) == s.map_values(|e: RelayEvent| spec_dispatch(e)),
    decreases s.len(),
{
    let f = |e: RelayEvent| spec_dispatch(e);
    if s.len() == 0 {
        assert(spec_dispatched(s) =~= s.map_values(f));
    } else {
        lemma_dispatched_is_map(s.skip(1));
        assert(spec_dispatched(s) =~= s.map_values(f));
    }
}

} // verus!
