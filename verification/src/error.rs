//! The ways in which a tracker session fails.

use vstd::prelude::*;

verus! {

/// Why a call on a tracker session failed.
#[derive(Debug, Clone, Copy, PartialEq, Eq, Structural)]
pub enum Error {
    /// The transport could not be opened, or it refused a datagram.
    TrackerSocket,
    /// No candidate host completed the connect handshake.
    TrackerNoHosts,
    /// An announce was asked for before any connect had succeeded.
    TrackerNoConnectionId,
    /// No datagram arrived within the deadline of any attempt.
    TrackerNoResponse,
    /// A datagram arrived that is not the answer to the outstanding request.
    TrackerResponse,
    /// The peer list of an announce response is not a whole number of records.
    TrackerCompactPeerList,
}

} // verus!
