//! Protocol engine for a wearable fitness tracker that speaks a fixed-size
//! 20-byte frame protocol over a short-range wireless link.
//!
//! The engine encodes outgoing commands, validates and decodes incoming
//! response frames, reassembles multi-packet data blocks into a contiguous
//! flash image, and drives the pairing / readiness / bulk-download sequence
//! through an explicit state machine. The wireless transport and the storage
//! sink stay outside: they hand the engine plain 20-byte frames and receive
//! plain byte buffers back.

pub mod block;
pub mod crc;
pub mod datainfo;
pub mod errors;
pub mod frame;
pub mod orchestrator;
