//! Streaming event relay for market-data subscriptions.
//!
//! The relay turns a long-lived, multiplexed market-data subscription into a
//! synchronous, ordered, back-pressured stream of host callbacks.  Callers
//! enqueue commands (subscribe, disconnect, error injection) for an I/O
//! worker; the worker normalizes every inbound protocol message or failure
//! into a relay event and pushes it onto a bounded event queue; a dispatch
//! worker drains that queue and translates each event into exactly one host
//! callback, in order, ending with a single terminal disconnect callback.
//!
//! This crate holds the verified core: the data model, the error taxonomy,
//! the bounded queue, both workers' decision logic, the lifecycle state
//! machine, and the proofs that tie them together.  The threads, channels and
//! the network client that drive these decisions live outside the library.

pub mod data;
pub mod dispatch;
pub mod errors;
pub mod handle;
pub mod io_worker;
pub mod lifecycle;
pub mod queue;
pub mod relay;
