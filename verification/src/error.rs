//! The failure kinds that the protocol core distinguishes, so that a caller
//! can tell a bad credential from a broken stream or a desynchronized peer.

use vstd::prelude::*;

verus! {

/// A protocol-level failure. Every variant is fatal to the session that
/// produced it: the core never retries internally, and the safe recovery is
/// to close the stream and reconnect.
#[derive(Debug, Clone, Copy, PartialEq, Eq, Structural)]
pub enum Error {
    /// The stream ended before a whole packet was available (a short read).
    Io,
    /// A structurally inconsistent header, or a packet body that is not
    /// well-formed UTF-8. Indicates framing desynchronization.
    Decode,
    /// The server rejected the credential: its reply to the authentication
    /// request carried a negative id.
    Auth,
    /// A response id that matches no outstanding request: the stream is
    /// desynchronized.
    Protocol,
    /// A command was issued on a session that is not authenticated.
    NotConnected,
}

} // verus!
