//! Framed s-expression messaging over channels and pipelined transports: the
//! request host state machine, the sender/receiver pair it reads from, and the
//! frame encoding of the wire protocol.
use vstd::prelude::*;

pub mod errors;
pub mod mpsc;
pub mod host;
pub mod laws;
pub mod sexp_proto;
pub mod demo;

pub use errors::Error;

verus! {

/// A type with no values: the error type of operations that cannot fail.
pub type Empty = core::convert::Infallible;

/// Readiness of a polled operation: its value, or not yet.
#[derive(Debug)]
pub enum Async<T> {
    Ready(T),
    NotReady,
}

} // verus!
