//! The sending and receiving side of an actor that talks through a framed
//! transport.
//!
//! [`cell::ActorFramedCell`] buffers outgoing items, remembers which half of the
//! transport is closed and decides what has to happen next;
//! [`context::FramedContext`] is what the actor itself works with. Neither of them
//! reads or writes: each step names the operation to carry out on the transport,
//! or the call to make on the actor, and takes back what came of it.

pub mod flags;

pub mod signal;
pub mod model;
pub mod cell;
pub mod context;
pub mod session;
pub mod laws;
pub mod conduct;
