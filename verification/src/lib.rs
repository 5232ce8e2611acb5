//! A peer-to-peer tunneling bridge: it exposes a local TCP service to remote
//! peers over an encrypted, NAT-traversing transport, authenticates incoming
//! tunnel streams with a fixed preamble, and forwards bytes in both directions
//! between the remote stream and the local socket.
//!
//! The library holds the bridge's decision logic: identity handling, the
//! handshake check, the per-connection and accept-loop state machines, and the
//! rules the forwarder follows on completion or cancellation. The surrounding
//! binary performs the actual network and filesystem work and feeds plain
//! values in and out.

pub mod bridge;
pub mod connection;
pub mod errors;
pub mod forwarder;
pub mod handshake;
pub mod identity;
pub mod status;
pub mod supervisor;
