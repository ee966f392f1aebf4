//! Why a connection died.

use vstd::prelude::*;

verus! {

/// The first failure of a connection; each one ends it.
#[derive(Debug, Clone, Copy, PartialEq, Eq, Structural)]
pub enum ConsumeError {
    /// The address was refused, the host unreachable or the upgrade failed.
    Connect,
    /// Writing the subscription or a keep-alive message failed.
    Send,
    /// Reading the next inbound frame failed.
    Receive,
    /// An inbound frame was not a well-formed JSON text.
    Decode,
    /// The consuming side of the outbound queue is gone.
    DownstreamClosed,
}

} // verus!
