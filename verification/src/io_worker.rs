//! The I/O worker: commands in, relay events and replies out.
//!
//! The I/O worker is the only thread permitted to drive the market-data
//! client.  It waits on the command queue: a subscription request is put to
//! the client and answered once on its one-shot reply; the error-injection
//! command synthesizes a socket-error event without touching the network;
//! the disconnect command pushes the terminal disconnect event and stops the
//! worker, after which any command still queued is dropped.  Every message a
//! live subscription delivers is forwarded as a relay event tagged with the
//! subscription's market key; a client failure while delivering is
//! normalized and forwarded as an error event rather than ending the
//! stream, unless it is a hard disconnect, which ends the relay the same
//! way the disconnect command does.

use vstd::prelude::*;
use crate::data::{Command, ClientMessage, RelayEvent, Subscription, spec_market_key, market_key};
use crate::errors::{ClientError, ErrorKind, spec_normalize_error, normalize_error};

verus! {

/// What the I/O worker does with one command: only a subscription request
/// needs the market-data client; the other two are answered from the relay
/// itself.
#[derive(PartialEq, Eq, Debug)]
pub enum CommandAction {
    /// Put the descriptor to the client, with a forwarding callback, and
    /// reply with its verdict.
    StartSubscription(Subscription),
    /// Synthesize the socket-error event without touching the network.
    InjectError,
    /// Push the terminal disconnect event and stop reading commands.
    Shutdown,
}

/// The action a command asks of the worker.
pub open spec fn spec_command_action(c: Command) -> CommandAction {
    match c {
        Command::Subscribe(d) => CommandAction::StartSubscription(d),
        Command::SimulateError => CommandAction::InjectError,
        Command::Disconnect => CommandAction::Shutdown,
    }
}

/// Decides what the worker does with one command read from the command
/// queue.
pub fn command_action(c: Command) -> (a: CommandAction)
    ensures
        a == spec_command_action(c),
{
    match c {
        Command::Subscribe(d) => CommandAction::StartSubscription(d),
        Command::SimulateError => CommandAction::InjectError,
        Command::Disconnect => CommandAction::Shutdown,
    }
}

/// One stimulus the I/O worker reacts to: a command read from the command
/// queue — a subscription request paired with the client's verdict on it —
/// or a message a subscription's callback delivered.
#[derive(PartialEq, Eq, Debug)]
pub enum IoInput {
    /// A subscription request, with the client's verdict on the attempt: an
    /// opaque handle if it accepted, its failure if not.
    Subscribe(Subscription, Result<u64, ClientError>),
    /// The diagnostic request for a synthesized socket error.
    SimulateError,
    /// The request to shut the relay down.
    Disconnect,
    /// The client delivered something for a subscription: a message, or a
    /// failure that arose while delivering one.
    Inbound(Subscription, Result<ClientMessage, ClientError>),
}

/// What one worker step produces: the relay events to push onto the event
/// queue, and the reply owed on a subscription's one-shot channel.
pub struct IoOutput {
    pub events: Vec<RelayEvent>,
    pub reply: Option<Result<u64, ErrorKind>>,
}

/// The relay event an inbound delivery is forwarded as: a normalized
/// message is tagged with its subscription's market key; a raw
/// exchange-specific frame is skipped; a failure is mapped into the
/// taxonomy and forwarded as an error event, never ending the stream —
/// unless the failure is a hard disconnect, which becomes the terminal
/// disconnect event.
pub open spec fn spec_forward(
    sub: Subscription,
    incoming: Result<ClientMessage, ClientError>,
) -> Option<RelayEvent> {
    match incoming {
        Ok(ClientMessage::Generic(m)) => Some(RelayEvent::Message(m, spec_market_key(sub))),
        Ok(ClientMessage::Raw) => None,
        Err(ClientError::HardDisconnect) => Some(RelayEvent::Disconnect),
        Err(e) => Some(RelayEvent::Error(spec_normalize_error(e))),
    }
}

/// Forwards one inbound delivery; this is the body of the callback a
/// subscription request hands to the client.
pub fn forward_message(sub: Subscription, incoming: Result<ClientMessage, ClientError>) -> (r:
    Option<RelayEvent>)
    ensures
        r == spec_forward(sub, incoming),
{
    match incoming {
        Ok(ClientMessage::Generic(m)) => Some(RelayEvent::Message(m, market_key(sub))),
        Ok(ClientMessage::Raw) => None,
        Err(ClientError::HardDisconnect) => Some(RelayEvent::Disconnect),
        Err(e) => Some(RelayEvent::Error(normalize_error(e))),
    }
}

/// The reply a subscription request is answered with: the client's verdict,
/// with a failure mapped into the taxonomy.
pub open spec fn spec_settle(v: Result<u64, ClientError>) -> Result<u64, ErrorKind> {
    match v {
        Ok(h) => Ok(h),
        Err(e) => Err(spec_normalize_error(e)),
    }
}

/// Settles a subscription attempt into its reply.  The reply succeeds
/// exactly when the client accepted the subscription.
pub fn settle_subscription(v: Result<u64, ClientError>) -> (r: Result<u64, ErrorKind>)
    ensures
        r == spec_settle(v),
        r is Ok <==> v is Ok,
{
    match v {
        Ok(h) => Ok(h),
        Err(e) => Err(normalize_error(e)),
    }
}

/// The events one step pushes onto the event queue.  A stopped worker
/// produces nothing: commands queued behind a disconnect are dropped, and a
/// callback firing after shutdown reaches nobody.
pub open spec fn spec_io_step_events(running: bool, input: IoInput) -> Seq<RelayEvent> {
    if !running {
        Seq::empty()
    } else {
        match input {
            IoInput::Subscribe(_, _) => Seq::empty(),
            IoInput::SimulateError => seq![RelayEvent::Error(ErrorKind::Socket)],
            IoInput::Disconnect => seq![RelayEvent::Disconnect],
            IoInput::Inbound(s, r) => match spec_forward(s, r) {
                Some(e) => seq![e],
                None => Seq::empty(),
            },
        }
    }
}

/// The reply one step owes: exactly one, on a subscription request reaching
/// a live worker; none otherwise.
pub open spec fn spec_io_step_reply(running: bool, input: IoInput) -> Option<
    Result<u64, ErrorKind>,
> {
    if running {
        match input {
            IoInput::Subscribe(_, v) => Some(spec_settle(v)),
            _ => None,
        }
    } else {
        None
    }
}

/// Whether a stimulus ends the relay: the disconnect command does, and so
/// does a hard disconnect surfaced by the client, since nothing can be
/// delivered after either.
pub open spec fn spec_input_stops(input: IoInput) -> bool {
    match input {
        IoInput::Disconnect => true,
        IoInput::Inbound(_, Err(ClientError::HardDisconnect)) => true,
        _ => false,
    }
}

/// Whether the worker is still running after a step: it stops on a
/// terminal stimulus and never starts again.
pub open spec fn spec_io_running_after(running: bool, input: IoInput) -> bool {
    running && !spec_input_stops(input)
}

/// The I/O worker's own state: whether its loop is still reading commands.
pub struct IoWorker {
    running: bool,
}

impl IoWorker {
    /// Whether the worker's loop is still reading commands.
    pub closed spec fn spec_running(&self) -> bool {
        self.running
    }

    /// A worker that has just confirmed readiness.
    pub fn new() -> (w: IoWorker)
        ensures
            w.spec_running(),
    {
        IoWorker { running: true }
    }

    /// Whether the worker is still running.
    pub fn is_running(&self) -> (r: bool)
        ensures
            r == self.spec_running(),
    {
        self.running
    }

    /// Reacts to one stimulus: the returned events belong on the event
    /// queue in this order, and the returned reply on the subscription's
    /// one-shot channel.
    pub fn step(&mut self, input: IoInput) -> (out: IoOutput)
        ensures
            out.events@ == spec_io_step_events(old(self).spec_running(), input),
            out.reply == spec_io_step_reply(old(self).spec_running(), input),
            final(self).spec_running() == spec_io_running_after(old(self).spec_running(), input),
    {
        if !self.running {
            let out = IoOutput { events: Vec::new(), reply: None };
            proof {
                assert(out.events@ =~= spec_io_step_events(false, input));
            }
            return out;
        }
        match input {
            IoInput::Subscribe(_, v) => {
                let out = IoOutput { events: Vec::new(), reply: Some(settle_subscription(v)) };
                proof {
                    assert(out.events@ =~= Seq::<RelayEvent>::empty());
                }
                out
            },
            IoInput::SimulateError => {
                let mut events: Vec<RelayEvent> = Vec::new();
                events.push(RelayEvent::Error(ErrorKind::Socket));
                proof {
                    assert(events@ =~= seq![RelayEvent::Error(ErrorKind::Socket)]);
                }
                IoOutput { events, reply: None }
            },
            IoInput::Disconnect => {
                self.running = false;
                let mut events: Vec<RelayEvent> = Vec::new();
                events.push(RelayEvent::Disconnect);
                proof {
                    assert(events@ =~= seq![RelayEvent::Disconnect]);
                }
                IoOutput { events, reply: None }
            },
            IoInput::Inbound(s, r) => {
                let halt = match &r {
                    Err(ClientError::HardDisconnect) => true,
                    _ => false,
                };
                if halt {
                    self.running = false;
                }
                let ghost gs = s;
                let ghost gr = r;
                let mut events: Vec<RelayEvent> = Vec::new();
                match forward_message(s, r) {
                    Some(e) => {
                        events.push(e);
                        proof {
                            assert(events@ =~= seq![spec_forward(gs, gr)->Some_0]);
                        }
                    },
                    None => {
                        proof {
                            assert(events@ =~= Seq::<RelayEvent>::empty());
                        }
                    },
                }
                IoOutput { events, reply: None }
            },
        }
    }
}

/// Whether the worker is still running after the first `n` inputs.
pub open spec fn spec_io_running_upto(inputs: Seq<IoInput>, n: int) -> bool
    decreases n,
{
    if n <= 0 {
        true
    } else {
        spec_io_running_after(spec_io_running_upto(inputs, n - 1), inputs[n - 1])
    }
}

/// The events the worker pushes for the first `n` inputs, in order.
pub open spec fn spec_io_events_upto(inputs: Seq<IoInput>, n: int) -> Seq<RelayEvent>
    decreases n,
{
    if n <= 0 {
        Seq::empty()
    } else {
        spec_io_events_upto(inputs, n - 1) + spec_io_step_events(
            spec_io_running_upto(inputs, n - 1),
            inputs[n - 1],
        )
    }
}

/// The replies the worker sends for the first `n` inputs, in order.
pub open spec fn spec_io_replies_upto(inputs: Seq<IoInput>, n: int) -> Seq<Result<u64, ErrorKind>>
    decreases n,
{
    if n <= 0 {
        Seq::empty()
    } else {
        spec_io_replies_upto(inputs, n - 1) + (match spec_io_step_reply(
            spec_io_running_upto(inputs, n - 1),
            inputs[n - 1],
        ) {
            Some(r) => seq![r],
            None => Seq::empty(),
        })
    }
}

/// The client verdicts carried by the subscription requests among the
/// first `n` inputs, in order.
pub open spec fn spec_subscribe_verdicts_upto(inputs: Seq<IoInput>, n: int) -> Seq<
    Result<u64, ClientError>,
>
    decreases n,
{
    if n <= 0 {
        Seq::empty()
    } else {
        spec_subscribe_verdicts_upto(inputs, n - 1) + (match inputs[n - 1] {
            IoInput::Subscribe(_, v) => seq![v],
            _ => Seq::empty(),
        })
    }
}

/// The client verdicts carried by all subscription requests of a script.
pub open spec fn spec_subscribe_verdicts(inputs: Seq<IoInput>) -> Seq<Result<u64, ClientError>> {
    spec_subscribe_verdicts_upto(inputs, inputs.len() as int)
}

/// The events the worker pushes for a whole input script.
pub open spec fn spec_io_events(inputs: Seq<IoInput>) -> Seq<RelayEvent> {
    spec_io_events_upto(inputs, inputs.len() as int)
}

/// The replies the worker sends for a whole input script.
pub open spec fn spec_io_replies(inputs: Seq<IoInput>) -> Seq<Result<u64, ErrorKind>> {
    spec_io_replies_upto(inputs, inputs.len() as int)
}

/// Runs a fresh worker over a whole input script, collecting the events and
/// the replies it produces.
pub fn io_run(inputs: Vec<IoInput>) -> (out: (Vec<RelayEvent>, Vec<Result<u64, ErrorKind>>))
    ensures
        out.0@ == spec_io_events(inputs@),
        out.1@ == spec_io_replies(inputs@),
{
    let ghost orig: Seq<IoInput> = inputs@;
    let mut inputs = inputs;
    let mut worker = IoWorker::new();
    let mut events: Vec<RelayEvent> = Vec::new();
    let mut replies: Vec<Result<u64, ErrorKind>> = Vec::new();
    proof {
        assert(events@ =~= spec_io_events_upto(orig, 0));
        assert(replies@ =~= spec_io_replies_upto(orig, 0));
    }
    while inputs.len() > 0
        invariant
            inputs@ =~= orig.skip(orig.len() - inputs@.len()),
            inputs@.len() <= orig.len(),
            worker.spec_running() == spec_io_running_upto(orig, orig.len() - inputs@.len()),
            events@ == spec_io_events_upto(orig, orig.len() - inputs@.len()),
            replies@ == spec_io_replies_upto(orig, orig.len() - inputs@.len()),
        decreases inputs@.len(),
    {
        let ghost i: int = orig.len() - inputs@.len();
        let input = inputs.remove(0);
        proof {
            assert(input == orig[i]);
            assert(inputs@ =~= orig.skip(i + 1));
        }
        let mut out = worker.step(input);
        events.append(&mut out.events);
        match out.reply {
            Some(r) => replies.push(r),
            None => {},
        }
        proof {
            assert(events@ =~= spec_io_events_upto(orig, i + 1));
            assert(replies@ =~= spec_io_replies_upto(orig, i + 1));
        }
    }
    (events, replies)
}

} // verus!
