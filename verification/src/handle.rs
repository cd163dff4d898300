//! The caller-facing side of the client handle.
//!
//! A caller's `subscribe` enqueues a command and blocks on a one-shot reply;
//! `disconnect` is fire-and-forget.  These functions settle what the caller
//! sees once the channel operations came back, so that a worker that died
//! concurrently surfaces as a queue-closed error and never as a crash.

use vstd::prelude::*;
use crate::errors::ErrorKind;

verus! {

/// What a caller's `subscribe` returns, given whether its command reached
/// the command queue and what, if anything, came back on the one-shot
/// reply.
pub open spec fn spec_subscribe_outcome(
    sent: bool,
    reply: Option<Result<u64, ErrorKind>>,
) -> Result<(), ErrorKind> {
    if !sent {
        Err(ErrorKind::QueueClosed)
    } else {
        match reply {
            None => Err(ErrorKind::QueueClosed),
            Some(Err(k)) => Err(k),
            Some(Ok(_)) => Ok(()),
        }
    }
}

/// Settles a caller's `subscribe`.  Every call returns exactly one result:
/// success exactly when the command was sent and the worker replied with an
/// accepted subscription; a command queue or reply channel whose worker has
/// terminated surfaces as a queue-closed error, and a worker's error reply
/// is returned as it is.
pub fn settle_subscribe(sent: bool, reply: Option<Result<u64, ErrorKind>>) -> (r: Result<
    (),
    ErrorKind,
>)
    ensures
        r == spec_subscribe_outcome(sent, reply),
        r is Ok <==> sent && reply is Some && reply->0 is Ok,
{
    if !sent {
        Err(ErrorKind::QueueClosed)
    } else {
        match reply {
            None => Err(ErrorKind::QueueClosed),
            Some(Err(k)) => Err(k),
            Some(Ok(_)) => Ok(()),
        }
    }
}

/// Settles a caller's `disconnect`: it has no error path.  A command queue
/// already closed means the relay is already shut down, which is what the
/// caller asked for.
pub fn settle_disconnect(sent: bool) -> (r: Result<(), ErrorKind>)
    ensures
        r is Ok,
{
    let _ = sent;
    Ok(())
}

} // verus!
