//! The core of a small in-memory key-value server: the shared store, the
//! command protocol, and the state machines that drive one client connection
//! and the accept loop. Sockets, framing and task spawning stay with the
//! program that embeds this crate.

pub mod message;
pub mod reply;
pub mod command;
pub mod store;
pub mod handler;
pub mod listener;
