//! Error taxonomy of the transport layer.
//!
//! "Address not supported" is not represented here: a transport reports it by
//! handing the unconsumed address (and itself) back in the `Err` arm of
//! `dial` / `listen_on`, so that a fallback combinator can retry.

use vstd::prelude::*;

verus! {

/// Failure of the underlying connect/accept or byte-level I/O.
#[derive(Clone, Copy, Debug, PartialEq, Eq, Structural)]
pub struct IoFailure;

/// Terminal failure of one dial or of one accepted connection, after the
/// transport accepted the address.
#[derive(Clone, Copy, Debug, PartialEq, Eq, Structural)]
pub enum ConnectError {
    /// The underlying connect/accept I/O failed.
    TransportIo,
    /// No mutually acceptable protocol name was found, or the negotiation
    /// exchange itself failed. Fatal to the current connection only.
    Negotiation,
    /// The chosen upgrade's own handshake failed.
    Upgrade,
}

} // verus!
