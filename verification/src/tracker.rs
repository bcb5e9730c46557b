//! The session with one tracker.

use crate::announce;
use crate::connect;
use crate::error::Error;
use crate::exchange::{AnnounceExchange, ConnectExchange};
use crate::peer::{spec_parse_compact_peer_list, spec_peer, spec_stride, IpAddress, Peer, SocketAddress};
use crate::retry::Retry;
use crate::walk::{spec_start, Connect, Resolving};
use vstd::prelude::*;
use vstd::slice::slice_subrange;

verus! {

/// What a session knows of itself and of its tracker.
#[derive(Debug, Clone, Copy, PartialEq, Eq)]
pub struct TrackerCtx {
    /// Our id towards this tracker.
    pub peer_id: [u8; 20],
    /// The address of the tracker.
    pub tracker_addr: SocketAddress,
    /// The token that the tracker issued in the connect handshake, once it
    /// has succeeded.
    pub connection_id: Option<u64>,
}

impl Default for TrackerCtx {
    /// A context that names no tracker: an all-zero peer id, the address
    /// `0.0.0.0:0`, and no connection id.
    fn default() -> (ctx: Self)
        ensures
            ctx.peer_id@ == Seq::new(20, |i: int| 0u8),
            ctx.tracker_addr == (SocketAddress { ip: IpAddress::V4([0u8, 0u8, 0u8, 0u8]), port: 0 }),
            ctx.connection_id is None,
    {
        TrackerCtx {
            peer_id: [0u8; 20],
            tracker_addr: SocketAddress { ip: IpAddress::V4([0u8, 0u8, 0u8, 0u8]), port: 0 },
            connection_id: None,
        }
    }
}

/// A session with one tracker. The socket itself is the caller's; the
/// session keeps the local address that the socket is bound to.
#[derive(Debug, Clone, Copy, PartialEq, Eq)]
pub struct Tracker {
    /// The local address of the socket that is connected to the tracker.
    /// Peers that learn of us through an announce send their handshakes here.
    pub local_addr: SocketAddress,
    pub ctx: TrackerCtx,
}

/// The local port of an IPv4 session.
pub const LOCAL_PORT_V4: u16 = 6881;

/// Seconds between two heartbeats of the listen loop.
pub const LISTEN_TICK_SECS: u64 = 1;

/// Bytes of a datagram that the listen loop reads.
pub const LISTEN_BUF_LEN: usize = 1024;

/// What woke the listen loop.
#[derive(Debug, PartialEq, Eq)]
pub enum ListenEvent {
    /// The heartbeat timer fired.
    Tick,
    /// A datagram arrived on the session's socket.
    Datagram(Vec<u8>),
}

/// What the listen loop does about an event, before it listens on.
#[derive(Debug, PartialEq, Eq)]
pub enum ListenAction {
    /// Note that the loop is alive.
    Heartbeat,
    /// Note that the other side sent an empty datagram.
    PeerClosed,
    /// Note the bytes that arrived.
    Datagram(Vec<u8>),
}

/// The local address that a socket towards a tracker is bound to: the
/// IPv4 wildcard with port 6881, or the unspecified IPv6 address with a
/// port of the system's choice.
pub open spec fn spec_local_addr(is_ipv6: bool) -> SocketAddress {
    if is_ipv6 {
        SocketAddress {
            ip: IpAddress::V6(
                [0u8, 0u8, 0u8, 0u8, 0u8, 0u8, 0u8, 0u8, 0u8, 0u8, 0u8, 0u8, 0u8, 0u8, 0u8, 0u8],
            ),
            port: 0,
        }
    } else {
        SocketAddress { ip: IpAddress::V4([0u8, 0u8, 0u8, 0u8]), port: LOCAL_PORT_V4 }
    }
}

impl Tracker {
    /// A session towards `tracker_addr` on a socket bound to `local_addr`,
    /// under a peer id drawn at random. It is not yet connected.
    pub fn new(local_addr: SocketAddress, tracker_addr: SocketAddress) -> (tracker: Tracker)
        ensures
            tracker == Tracker::spec_with_peer_id(tracker.ctx.peer_id, local_addr, tracker_addr),
    {
        Tracker::with_peer_id(rand::random::<[u8; 20]>(), local_addr, tracker_addr)
    }

    /// A session towards `tracker_addr` on a socket bound to `local_addr`,
    /// under the given peer id. It is not yet connected.
    pub fn with_peer_id(
        peer_id: [u8; 20],
        local_addr: SocketAddress,
        tracker_addr: SocketAddress,
    ) -> (tracker: Tracker)
        ensures
            tracker == Tracker::spec_with_peer_id(peer_id, local_addr, tracker_addr),
    {
        Tracker { local_addr, ctx: TrackerCtx { peer_id, tracker_addr, connection_id: None } }
    }

    /// The unconnected session that [`Tracker::with_peer_id`] makes.
    pub open spec fn spec_with_peer_id(
        peer_id: [u8; 20],
        local_addr: SocketAddress,
        tracker_addr: SocketAddress,
    ) -> Tracker {
        Tracker { local_addr, ctx: TrackerCtx { peer_id, tracker_addr, connection_id: None } }
    }

    /// Starts the search for a tracker among `candidates` hosts, which are
    /// known by their index: the first is due to be resolved. With no
    /// candidate the search has failed.
    pub fn connect(candidates: usize) -> (next: Connect)
        ensures
            next@ == spec_start(candidates),
    {
        if candidates > 0 {
            Connect::Resolve(Resolving { candidates, candidate: 0 })
        } else {
            Connect::Fail(Error::TrackerNoHosts)
        }
    }

    /// Starts the connect handshake: a request under a fresh transaction id,
    /// due for its first send.
    pub fn connect_exchange(&self) -> (exchange: ConnectExchange)
        ensures
            exchange.retry == Retry::spec_first(),
            exchange.request == connect::Request::spec_with_transaction_id(
                exchange.request.transaction_id,
            ),
    {
        ConnectExchange::new(connect::Request::new())
    }

    /// Starts an announce for `infohash`: a request under a fresh
    /// transaction id, due for its first send. It carries the connection id
    /// and the peer id of the session and the port of its socket.
    ///
    /// A session that has not been connected has no connection id to
    /// present: the announce fails here, before anything is sent.
    pub fn announce_exchange(&self, infohash: [u8; 20]) -> (r: Result<AnnounceExchange, Error>)
        ensures
            match r {
                Ok(exchange) => {
                    &&& self.ctx.connection_id matches Some(connection_id)
                    &&& exchange.retry == Retry::spec_first()
                    &&& exchange.is_ipv6 == (self.local_addr.ip is V6)
                    &&& exchange.request == announce::Request::spec_with_transaction_id(
                        exchange.request.transaction_id,
                        connection_id,
                        infohash,
                        self.ctx.peer_id,
                        self.local_addr.port,
                    )
                },
                Err(e) => self.ctx.connection_id is None && e == Error::TrackerNoConnectionId,
            },
    {
        let connection_id = match self.ctx.connection_id {
            Some(x) => x,
            None => return Err(Error::TrackerNoConnectionId),
        };
        let request = announce::Request::new(
            connection_id,
            infohash,
            self.ctx.peer_id,
            self.local_addr.port,
        );
        Ok(AnnounceExchange::new(request, self.local_addr.is_ipv6()))
    }

    /// The local address to bind a socket to before it is connected to the
    /// tracker at `addr`: one of the family of `addr`.
    pub fn new_udp_socket(addr: &SocketAddress) -> (local: SocketAddress)
        ensures
            local == spec_local_addr(addr.ip is V6),
    {
        if addr.is_ipv6() {
            SocketAddress {
                ip: IpAddress::V6(
                    [0u8, 0u8, 0u8, 0u8, 0u8, 0u8, 0u8, 0u8, 0u8, 0u8, 0u8, 0u8, 0u8, 0u8, 0u8, 0u8],
                ),
                port: 0,
            }
        } else {
            SocketAddress { ip: IpAddress::V4([0u8, 0u8, 0u8, 0u8]), port: LOCAL_PORT_V4 }
        }
    }

    /// One turn of the listen loop, which wakes on a timer and on datagrams
    /// that arrive outside of any exchange. Every event is noted and none
    /// ends the loop: an empty datagram is noted as the other side closing,
    /// any other with its bytes.
    pub fn run(&self, event: ListenEvent) -> (action: ListenAction)
        ensures
            action == match event {
                ListenEvent::Tick => ListenAction::Heartbeat,
                ListenEvent::Datagram(bytes) => if bytes@.len() == 0 {
                    ListenAction::PeerClosed
                } else {
                    ListenAction::Datagram(bytes)
                },
            },
    {
        match event {
            ListenEvent::Tick => ListenAction::Heartbeat,
            ListenEvent::Datagram(bytes) => {
                if bytes.len() == 0 {
                    ListenAction::PeerClosed
                } else {
                    ListenAction::Datagram(bytes)
                }
            },
        }
    }

    /// Decodes the compact peer list of an announce response: records of 6
    /// bytes for IPv4 and of 18 for IPv6, each the octets of an address and a
    /// big-endian port. A list with a partial record at its end is refused
    /// as a whole.
    pub fn parse_compact_peer_list(buf: &[u8], is_ipv6: bool) -> (r: Result<Vec<Peer>, Error>)
        ensures
            match r {
                Ok(peers) => {
                    &&& buf@.len() % (spec_stride(is_ipv6) as nat) == 0
                    &&& peers@.len() * spec_stride(is_ipv6) == buf@.len()
                    &&& forall|i: int|
                        0 <= i < peers@.len() ==> #[trigger] peers@[i] == spec_peer(
                            buf@.subrange(i * spec_stride(is_ipv6), (i + 1) * spec_stride(is_ipv6)),
                            is_ipv6,
                        )
                    &&& spec_parse_compact_peer_list(buf@, is_ipv6) == Some(peers@)
                },
                Err(e) => {
                    &&& buf@.len() % (spec_stride(is_ipv6) as nat) != 0
                    &&& e == Error::TrackerCompactPeerList
                    &&& spec_parse_compact_peer_list(buf@, is_ipv6) is None
                },
            },
    {
        let stride: usize = if is_ipv6 {
            18
        } else {
            6
        };
        if buf.len() % stride != 0 {
            return Err(Error::TrackerCompactPeerList);
        }
        let count: usize = buf.len() / stride;
        let mut peers: Vec<Peer> = Vec::new();
        let mut i: usize = 0;
        while i < count
            invariant
                stride == spec_stride(is_ipv6),
                count * stride == buf@.len(),
                buf@.len() == buf.len(),
                i <= count,
                peers@.len() == i,
                forall|k: int|
                    0 <= k < i ==> #[trigger] peers@[k] == spec_peer(
                        buf@.subrange(k * stride, k * stride + stride),
                        is_ipv6,
                    ),
            decreases count - i,
        {
            assert(i * stride + stride <= count * stride) by (nonlinear_arith)
                requires
                    i < count,
                    stride > 0,
            ;
            let record = slice_subrange(buf, i * stride, i * stride + stride);
            peers.push(Peer::from_record(record, is_ipv6));
            i += 1;
        }
        proof {
            let s = spec_stride(is_ipv6);
            assert forall|k: int| 0 <= k < peers@.len() implies #[trigger] peers@[k] == spec_peer(
                buf@.subrange(k * s, (k + 1) * s),
                is_ipv6,
            ) by {
                assert((k + 1) * s == k * s + s) by (nonlinear_arith);
            }
        }
        Ok(peers)
    }
}

} // verus!
