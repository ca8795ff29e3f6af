//! A client-side core for a length-prefixed, request/response remote-console
//! protocol: a verified packet codec (binary framing, encode/decode,
//! packet-type disambiguation) and a verified connection state machine
//! (authentication handshake, request/response correlation, multi-part
//! response reassembly, per-dialect quirk configuration).
//!
//! The core is pure: it turns packets into byte buffers and byte buffers back
//! into packets, and it decides, packet by packet, how a session advances.
//! Opening sockets, reading and writing bytes, and all other I/O belong to the
//! caller, which feeds complete frames in and writes produced buffers out.

pub mod error;
pub mod packet;
pub mod session;
pub mod wire;
