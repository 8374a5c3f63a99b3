//! Core of a room-based chat hub: the wire message carried on each room's
//! broadcast bus, the codec that frames it for transport, the registry of
//! live rooms, the per-connection pipeline decisions (outbound sender,
//! inbound receiver, durable writer), and the decision logic of the
//! room-administration routes.
//!
//! Everything here is plain data and decisions; sockets, the broadcast
//! channels themselves and the database live outside and hand this crate
//! plain values.

pub mod codec;
pub mod errors;
pub mod lobby;
pub mod pipeline;
pub mod records;
pub mod routes;
pub mod wire;
