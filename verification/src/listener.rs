//! The accept loop, as a state machine.
//!
//! The listener never touches the transport either: the program binds,
//! accepts, and reports each outcome with [`Listener::on_accept`]. For an
//! accepted connection it gets a fresh [`Handler`] to run beside all the
//! others; the next accept does not wait for any of them.

use crate::handler::{Handler, HandlerView};
use vstd::prelude::*;

verus! {

/// How an attempt to accept the next connection ended.
#[derive(Debug, Clone, Copy, PartialEq, Eq)]
pub enum AcceptOutcome {
    /// A client connected.
    Connection,
    /// The transport will yield no more connections.
    EndOfTransport,
    /// The transport failed.
    IoError,
}

/// The state of the accept loop.
#[derive(Debug, Clone, Copy, PartialEq, Eq)]
pub enum Listener {
    /// Accepting connections.
    Accepting,
    /// Stopped for good: no further connection is accepted.
    Stopped,
}

/// The state after an accept: a listener goes on accepting after each
/// connection, and stops at the end of the transport and at any failure. A
/// stopped listener stays stopped.
pub open spec fn after_accept(state: Listener, outcome: AcceptOutcome) -> Listener {
    if state is Accepting && outcome is Connection {
        Listener::Accepting
    } else {
        Listener::Stopped
    }
}

impl Listener {
    /// The listener of a server that was just bound.
    pub fn new() -> (listener: Listener)
        ensures
            listener is Accepting,
    {
        Listener::Accepting
    }

    /// True while connections are accepted.
    pub fn is_accepting(&self) -> (accepting: bool)
        ensures
            accepting == (*self is Accepting),
    {
        match self {
            Listener::Accepting => true,
            Listener::Stopped => false,
        }
    }

    /// Takes in the outcome of an accept. Where an accepting listener got a
    /// connection, the result holds the handler to start for it; in every
    /// other case it holds none and the listener has stopped.
    pub fn on_accept(self, outcome: AcceptOutcome) -> (next: (Listener, Option<Handler>))
        ensures
            next.0 == after_accept(self, outcome),
            match next.1 {
                Some(handler) => next.0 is Accepting && handler@ == HandlerView::Reading,
                None => next.0 is Stopped,
            },
    {
        match self {
            Listener::Accepting => match outcome {
                AcceptOutcome::Connection => (Listener::Accepting, Some(Handler::new())),
                AcceptOutcome::EndOfTransport => (Listener::Stopped, None),
                AcceptOutcome::IoError => (Listener::Stopped, None),
            },
            Listener::Stopped => (Listener::Stopped, None),
        }
    }
}

} // verus!
