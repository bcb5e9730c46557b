//! Client side of the connectionless (UDP) tracker protocol.
//!
//! A session finds a tracker that answers among candidate hosts
//! ([`walk`]), obtains a connection id from it in the connect handshake and
//! presents that id in announces, which the tracker answers with a list of
//! peers ([`exchange`], [`tracker`]). Requests are sent again when no answer
//! arrives in time, a bounded number of times ([`retry`]). The messages and
//! the peer list have a fixed binary layout ([`connect`], [`announce`],
//! [`peer`], [`wire`]).
//!
//! The library performs no I/O. Whoever owns the socket performs the actions
//! that the session hands out and reports back what the transport did.

pub mod announce;
pub mod connect;
pub mod entropy;
pub mod error;
pub mod exchange;
pub mod peer;
pub mod retry;
pub mod tracker;
pub mod walk;
pub mod wire;
