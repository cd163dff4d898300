//! The relay end to end, and the laws that hold of it.
//!
//! `run_relay` wires a fresh I/O worker, the bounded event queue and the
//! dispatch worker together over one script of stimuli, the single-threaded
//! image of the two-worker pipeline: every event the I/O worker produces
//! goes through the queue and comes out as host calls, in order.  The proof
//! functions state the relay's guarantees: one reply per subscription
//! request, mirroring what the client accepted; exactly one synthesized
//! socket error per injection; exactly one terminal disconnect callback,
//! strictly after everything enqueued before it; order preservation; and
//! idempotent shutdown.

use vstd::prelude::*;
use crate::data::{HostCall, RelayEvent};
use crate::dispatch::{
    has_disconnect, lemma_dispatched_append, lemma_dispatched_is_map, spec_dispatch,
    spec_dispatched, spec_undelivered, dispatch_drain,
};
use crate::errors::{ClientError, ErrorKind};
use crate::io_worker::{
    IoInput, IoWorker, spec_input_stops, spec_io_events, spec_io_events_upto, spec_io_replies,
    spec_io_replies_upto, spec_io_running_upto, spec_io_step_events, spec_settle,
    spec_subscribe_verdicts, spec_subscribe_verdicts_upto,
};
use crate::queue::EventQueue;

verus! {

/// The host calls a whole script of I/O-worker stimuli ends up delivering.
pub open spec fn spec_relay_calls(inputs: Seq<IoInput>) -> Seq<HostCall> {
    spec_dispatched(spec_io_events(inputs))
}

/// One step pushes at most one event: the event queue is filled one event
/// at a time.
proof fn lemma_step_events_short(running: bool, input: IoInput)
    ensures
        spec_io_step_events(running, input).len() <= 1,
{
}

/// The I/O worker produces the disconnect event exactly when it stops: the
/// events of a script hold a disconnect if and only if the worker is no
/// longer running afterwards.
pub proof fn lemma_disconnect_iff_stopped(inputs: Seq<IoInput>, n: int)
    requires
        0 <= n <= inputs.len(),
    ensures
        has_disconnect(spec_io_events_upto(inputs, n)) <==> !spec_io_running_upto(inputs, n),
    decreases n,
{
    if n > 0 {
        lemma_disconnect_iff_stopped(inputs, n - 1);
        let pre = spec_io_events_upto(inputs, n - 1);
        let running = spec_io_running_upto(inputs, n - 1);
        let step = spec_io_step_events(running, inputs[n - 1]);
        lemma_dispatched_append(pre, step);
        if running {
            if spec_input_stops(inputs[n - 1]) {
                assert(step == seq![RelayEvent::Disconnect]);
                assert(has_disconnect(step));
            } else {
                assert(!has_disconnect(step)) by {
                    if step.len() > 0 {
                        assert(!(step.first() is Disconnect));
                        assert(step.skip(1).len() == 0);
                        assert(!has_disconnect(step.skip(1)));
                    }
                }
            }
        } else {
            assert(step.len() == 0);
            assert(!has_disconnect(step));
        }
    }
}

/// A worker that has stopped stays stopped, and produces nothing more:
/// events and replies are unchanged from the moment it stopped.
pub proof fn lemma_stopped_is_stable(inputs: Seq<IoInput>, n: int, m: int)
    requires
        0 <= n <= m <= inputs.len(),
        !spec_io_running_upto(inputs, n),
    ensures
        !spec_io_running_upto(inputs, m),
        spec_io_events_upto(inputs, m) == spec_io_events_upto(inputs, n),
        spec_io_replies_upto(inputs, m) == spec_io_replies_upto(inputs, n),
    decreases m - n,
{
    if m > n {
        lemma_stopped_is_stable(inputs, n, m - 1);
        assert(spec_io_events_upto(inputs, m) =~= spec_io_events_upto(inputs, m - 1));
        assert(spec_io_replies_upto(inputs, m) =~= spec_io_replies_upto(inputs, m - 1));
    }
}

/// A worker that has seen no terminal stimulus — no disconnect command and
/// no hard disconnect from the client — is still running.
pub proof fn lemma_no_disconnect_keeps_running(inputs: Seq<IoInput>, n: int)
    requires
        0 <= n <= inputs.len(),
        forall|k: int| 0 <= k < n ==> !spec_input_stops(#[trigger] inputs[k]),
    ensures
        spec_io_running_upto(inputs, n),
    decreases n,
{
    if n > 0 {
        lemma_no_disconnect_keeps_running(inputs, n - 1);
    }
}

/// Runs the relay over a whole script: a fresh I/O worker reacts to each
/// stimulus, its events pass through the bounded event queue, and the
/// dispatch worker turns them into host calls.
pub fn run_relay(inputs: Vec<IoInput>) -> (calls: Vec<HostCall>)
    ensures
        calls@ == spec_relay_calls(inputs@),
{
    let ghost orig: Seq<IoInput> = inputs@;
    let mut inputs = inputs;
    let mut worker = IoWorker::new();
    let mut q = EventQueue::new();
    let mut calls: Vec<HostCall> = Vec::new();
    proof {
        assert(calls@ =~= spec_dispatched(spec_io_events_upto(orig, 0)));
    }
    while inputs.len() > 0
        invariant
            inputs@ == orig.skip(orig.len() - inputs@.len()),
            inputs@.len() <= orig.len(),
            q.well_formed(),
            q@ == Seq::<RelayEvent>::empty(),
            worker.spec_running() == spec_io_running_upto(orig, orig.len() - inputs@.len()),
            calls@ == spec_dispatched(spec_io_events_upto(orig, orig.len() - inputs@.len())),
        decreases inputs@.len(),
    {
        let ghost i: int = orig.len() - inputs@.len();
        let input = inputs.remove(0);
        proof {
            assert(input == orig[i]);
            assert(inputs@ =~= orig.skip(i + 1));
        }
        let ghost running_i: bool = worker.spec_running();
        let ghost pre: Seq<RelayEvent> = spec_io_events_upto(orig, i);
        let mut out = worker.step(input);
        let ghost step_events: Seq<RelayEvent> = out.events@;
        proof {
            lemma_step_events_short(running_i, input);
            lemma_disconnect_iff_stopped(orig, i);
            lemma_dispatched_append(pre, step_events);
        }
        if out.events.len() > 0 {
            let e = out.events.remove(0);
            let accepted = q.try_push(e);
            proof {
                assert(accepted);
                assert(q@ =~= step_events);
            }
            let mut fresh_calls = dispatch_drain(&mut q);
            proof {
                assert(step_events.skip(1).len() == 0);
                assert(spec_undelivered(step_events.skip(1)) =~= Seq::<RelayEvent>::empty());
                assert(spec_undelivered(step_events) =~= Seq::<RelayEvent>::empty());
            }
            calls.append(&mut fresh_calls);
        } else {
            proof {
                assert(step_events =~= Seq::<RelayEvent>::empty());
                assert(spec_dispatched(step_events) =~= Seq::<HostCall>::empty());
            }
        }
        proof {
            if has_disconnect(pre) {
                assert(!running_i);
                assert(step_events =~= Seq::<RelayEvent>::empty());
                assert(spec_dispatched(step_events) =~= Seq::<HostCall>::empty());
            }
            assert(spec_io_events_upto(orig, i + 1) == pre + step_events);
            assert(calls@ =~= spec_dispatched(spec_io_events_upto(orig, i + 1)));
        }
    }
    proof {
        assert(spec_io_events_upto(orig, orig.len() as int) == spec_io_events(orig));
    }
    calls
}

/// Every subscription request reaching the worker is answered exactly once,
/// and the successful replies are exactly the subscriptions the client
/// accepted, in request order.
pub proof fn lemma_each_subscribe_gets_one_reply(inputs: Seq<IoInput>)
    requires
        forall|k: int| 0 <= k < inputs.len() ==> !spec_input_stops(#[trigger] inputs[k]),
    ensures
        spec_io_replies(inputs) == spec_subscribe_verdicts(inputs).map_values(
            |v: Result<u64, ClientError>| spec_settle(v),
        ),
{
    lemma_replies_match_verdicts_upto(inputs, inputs.len() as int);
}

proof fn lemma_replies_match_verdicts_upto(inputs: Seq<IoInput>, n: int)
    requires
        0 <= n <= inputs.len(),
        forall|k: int| 0 <= k < n ==> !spec_input_stops(#[trigger] inputs[k]),
    ensures
        spec_io_replies_upto(inputs, n) == spec_subscribe_verdicts_upto(inputs, n).map_values(
            |v: Result<u64, ClientError>| spec_settle(v),
        ),
    decreases n,
{
    let f = |v: Result<u64, ClientError>| spec_settle(v);
    if n <= 0 {
        assert(spec_io_replies_upto(inputs, n) =~= spec_subscribe_verdicts_upto(
            inputs,
            n,
        ).map_values(f));
    } else {
        lemma_replies_match_verdicts_upto(inputs, n - 1);
        lemma_no_disconnect_keeps_running(inputs, n - 1);
        assert(spec_io_replies_upto(inputs, n) =~= spec_subscribe_verdicts_upto(
            inputs,
            n,
        ).map_values(f));
    }
}

/// Even when the relay shuts down concurrently, no subscription request is
/// half-answered: every request the worker processed before the terminal
/// stimulus got exactly one reply mirroring the client's verdict, and none
/// after it got a worker reply — those callers see the queue-closed error
/// instead, which `settle_subscribe` owes them whenever no reply arrives.
pub proof fn lemma_replies_stop_at_shutdown(inputs: Seq<IoInput>, k: int)
    requires
        0 <= k < inputs.len(),
        spec_input_stops(inputs[k]),
        forall|j: int| 0 <= j < k ==> !spec_input_stops(#[trigger] inputs[j]),
    ensures
        spec_io_replies(inputs) == spec_subscribe_verdicts_upto(inputs, k).map_values(
            |v: Result<u64, ClientError>| spec_settle(v),
        ),
{
    let f = |v: Result<u64, ClientError>| spec_settle(v);
    lemma_replies_match_verdicts_upto(inputs, k);
    lemma_no_disconnect_keeps_running(inputs, k);
    assert(spec_io_replies_upto(inputs, k + 1) =~= spec_io_replies_upto(inputs, k));
    assert(!spec_io_running_upto(inputs, k + 1));
    lemma_stopped_is_stable(inputs, k + 1, inputs.len() as int);
}

/// Injecting an error produces exactly one socket-error event, delivered as
/// exactly one error callback, and no disconnect.
pub proof fn lemma_simulate_error_delivers_one_socket_error()
    ensures
        spec_io_step_events(true, IoInput::SimulateError) == seq![
            RelayEvent::Error(ErrorKind::Socket),
        ],
        spec_dispatched(seq![RelayEvent::Error(ErrorKind::Socket)]) == seq![
            HostCall::OnError(ErrorKind::Socket),
        ],
        !has_disconnect(seq![RelayEvent::Error(ErrorKind::Socket)]),
{
    let s = seq![RelayEvent::Error(ErrorKind::Socket)];
    assert(s.skip(1).len() == 0);
    assert(!has_disconnect(s.skip(1)));
    assert(spec_dispatched(s.skip(1)) =~= Seq::<HostCall>::empty());
    assert(spec_dispatched(s) =~= seq![HostCall::OnError(ErrorKind::Socket)]);
}

/// A terminal stimulus — the disconnect command, or a hard disconnect from
/// the client — ends the relay: it delivers the calls for everything
/// produced before it, then exactly one terminal disconnect callback,
/// strictly last, and nothing after it.
pub proof fn lemma_disconnect_is_terminal(inputs: Seq<IoInput>, k: int)
    requires
        0 <= k < inputs.len(),
        spec_input_stops(inputs[k]),
        forall|j: int| 0 <= j < k ==> !spec_input_stops(#[trigger] inputs[j]),
    ensures
        spec_io_events(inputs) == spec_io_events_upto(inputs, k) + seq![RelayEvent::Disconnect],
        !has_disconnect(spec_io_events_upto(inputs, k)),
        spec_relay_calls(inputs) == spec_dispatched(spec_io_events_upto(inputs, k)) + seq![
            HostCall::OnDisconnect,
        ],
        spec_relay_calls(inputs).len() > 0,
        spec_relay_calls(inputs).last() == HostCall::OnDisconnect,
        forall|i: int|
            0 <= i < spec_relay_calls(inputs).len() - 1 ==> spec_relay_calls(inputs)[i]
                != HostCall::OnDisconnect,
{
    let pre = spec_io_events_upto(inputs, k);
    let disc = seq![RelayEvent::Disconnect];
    lemma_no_disconnect_keeps_running(inputs, k);
    lemma_disconnect_iff_stopped(inputs, k);
    assert(spec_io_events_upto(inputs, k + 1) == pre + spec_io_step_events(
        spec_io_running_upto(inputs, k),
        inputs[k],
    ));
    assert(spec_io_events_upto(inputs, k + 1) == pre + disc);
    assert(!spec_io_running_upto(inputs, k + 1));
    lemma_stopped_is_stable(inputs, k + 1, inputs.len() as int);
    assert(spec_io_events(inputs) == pre + disc);
    lemma_dispatched_append(pre, disc);
    assert(spec_dispatched(disc) =~= seq![HostCall::OnDisconnect]);
    let calls = spec_relay_calls(inputs);
    assert(calls == spec_dispatched(pre) + seq![HostCall::OnDisconnect]);
    lemma_dispatched_is_map(pre);
    assert(calls.last() == HostCall::OnDisconnect);
    assert forall|i: int| 0 <= i < calls.len() - 1 implies calls[i] != HostCall::OnDisconnect by {
        lemma_has_disconnect_index(pre);
        assert(calls[i] == spec_dispatch(pre[i]));
        assert(!(pre[i] is Disconnect));
    }
}

/// A sequence holds a disconnect event exactly when some position holds
/// one.
pub proof fn lemma_has_disconnect_index(s: Seq<RelayEvent>)
    ensures
        has_disconnect(s) <==> exists|i: int| 0 <= i < s.len() && s[i] is Disconnect,
    decreases s.len(),
{
    if s.len() > 0 {
        lemma_has_disconnect_index(s.skip(1));
        if s.first() is Disconnect {
            assert(s[0] is Disconnect);
        } else if has_disconnect(s.skip(1)) {
            let j = choose|j: int| 0 <= j < s.skip(1).len() && s.skip(1)[j] is Disconnect;
            assert(s[j + 1] is Disconnect);
        } else {
            assert forall|i: int| 0 <= i < s.len() implies !(s[i] is Disconnect) by {
                if i > 0 {
                    assert(s[i] == s.skip(1)[i - 1]);
                }
            }
        }
    }
}

/// While no disconnect is requested, delivery is the order-keeping
/// one-to-one image of the events the I/O worker produced: for a scripted
/// sequence of inbound messages the sink sees their callbacks in exactly
/// that order.
pub proof fn lemma_order_preserved(inputs: Seq<IoInput>)
    requires
        forall|k: int| 0 <= k < inputs.len() ==> !spec_input_stops(#[trigger] inputs[k]),
    ensures
        spec_relay_calls(inputs) == spec_io_events(inputs).map_values(
            |e: RelayEvent| spec_dispatch(e),
        ),
{
    lemma_no_disconnect_keeps_running(inputs, inputs.len() as int);
    lemma_disconnect_iff_stopped(inputs, inputs.len() as int);
    lemma_dispatched_is_map(spec_io_events(inputs));
}

/// Shutdown is idempotent: nothing following a terminal stimulus — a second
/// disconnect included — changes what the worker produced or what the relay
/// delivers.
pub proof fn lemma_shutdown_idempotent(inputs: Seq<IoInput>, k: int)
    requires
        0 <= k < inputs.len(),
        spec_input_stops(inputs[k]),
    ensures
        spec_io_events(inputs) == spec_io_events_upto(inputs, k + 1),
        spec_io_replies(inputs) == spec_io_replies_upto(inputs, k + 1),
        spec_relay_calls(inputs) == spec_dispatched(spec_io_events_upto(inputs, k + 1)),
{
    assert(!spec_io_running_upto(inputs, k + 1));
    lemma_stopped_is_stable(inputs, k + 1, inputs.len() as int);
}

} // verus!
