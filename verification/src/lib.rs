//! Event relay hub for synchronized group viewing.
//!
//! Viewers join a session, and every playback or chat event one of them
//! sends is fanned out to the outbound queues of the others. The crate holds
//! the event model, the wire codec, the registry of live connections with
//! their queues, the steps in the life of one connection, and what holds of
//! them together.

pub mod events;
pub mod wire;
pub mod json;
pub mod registry;
pub mod viewer_connection;
pub mod laws;
