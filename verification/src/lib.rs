//! Control-plane core of an anonymous overlay network.
//!
//! Every connection-facing component is written as a state machine that takes
//! typed events and hands back the frames to send, so that the protocol rules
//! are checked by Verus while sockets, timers and encoders stay with the caller.

pub mod mcp;
pub mod meet;
pub mod onion_transport;
pub mod p2p;
pub mod registry;
pub mod shims;
pub mod signaling;
pub mod swarm_controller;
pub mod text;
pub mod transport;
