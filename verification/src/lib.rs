//! The decision core of a relay node for a peer-to-peer overlay network.
//!
//! The crate holds the rules of the node as functions on plain values: how the
//! node's identity follows from its seed, which address it listens on, how a
//! connection becomes usable, what the relay, liveness and identification
//! behaviours answer, and what the event loop does with each event. Sockets,
//! timers and the process around them belong to the program that uses it.

pub mod address;
pub mod behaviour;
pub mod bytes;
pub mod event_loop;
pub mod external;
pub mod identify;
pub mod identity;
pub mod liveness;
pub mod relay;
pub mod session;
pub mod transport;
