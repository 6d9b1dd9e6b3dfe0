//! A presence-and-rendezvous relay.
//!
//! Peers register under a nickname, ask who else is present and hand one
//! another an opaque ticket. This library holds the rules of that exchange:
//! the protocol messages and their wire text, the registry of nicknames,
//! the router that turns an inbound command into registry changes and
//! deliveries, and the decisions of a connection's reading and writing
//! halves. Sockets, tasks and mailboxes belong to the program around it.

pub mod connection;
pub mod laws;
pub mod message;
pub mod registry;
pub mod response;
pub mod router;
pub mod wire;
