//! The announce exchange: a request of 98 bytes, and a response whose header
//! of 20 bytes is followed by a compact peer list.
//!
//! | message         | layout, all big-endian                               |
//! |-----------------|------------------------------------------------------|
//! | request         | connection_id: u64, action: u32 = 1, transaction_id: u32, infohash: 20 bytes, peer_id: 20 bytes, downloaded: u64, left: u64, uploaded: u64, event: u32, ip: u32, key: u32, num_want: i32, port: u16 |
//! | response header | action: u32 = 1, transaction_id: u32, interval: u32, leechers: u32, seeders: u32 |

use crate::wire::{
    i32_bits, put_bytes, put_u16, put_u32, put_u64, read_u32, spec_i32_bits, spec_u16_bytes,
    spec_u32_be, spec_u32_bytes, spec_u64_bytes,
};
use vstd::prelude::*;
use vstd::slice::slice_subrange;

verus! {

/// The action code of the announce exchange.
pub const ACTION_ANNOUNCE: u32 = 1;

/// What the client reports of its download with an announce.
#[derive(Debug, Clone, Copy, PartialEq, Eq, Structural)]
pub enum Event {
    /// Nothing to report: an announce at the regular interval.
    NoEvent,
    Completed,
    Started,
    Stopped,
}

impl Event {
    /// The number that stands for the event on the wire.
    pub open spec fn spec_code(self) -> u32 {
        match self {
            Event::NoEvent => 0,
            Event::Completed => 1,
            Event::Started => 2,
            Event::Stopped => 3,
        }
    }

    /// The number that stands for the event on the wire.
    pub fn code(&self) -> (code: u32)
        ensures
            code == self.spec_code(),
    {
        match self {
            Event::NoEvent => 0,
            Event::Completed => 1,
            Event::Started => 2,
            Event::Stopped => 3,
        }
    }
}

/// The request that reports our participation and asks for peers.
#[derive(Debug, Clone, Copy, PartialEq, Eq)]
pub struct Request {
    /// The token of the connect handshake.
    pub connection_id: u64,
    pub action: u32,
    /// Chosen by us; the tracker echoes it.
    pub transaction_id: u32,
    /// The hash that names the content.
    pub infohash: [u8; 20],
    pub peer_id: [u8; 20],
    pub downloaded: u64,
    pub left: u64,
    pub uploaded: u64,
    pub event: Event,
    /// The address to report for us; zero leaves it to the tracker.
    pub ip: u32,
    pub key: u32,
    /// How many peers we ask for; a negative number leaves it to the tracker.
    pub num_want: i32,
    /// The port on which we listen for peers.
    pub port: u16,
}

/// The fixed part of the tracker's answer to an announce.
#[derive(Debug, Clone, Copy, PartialEq, Eq, Structural)]
pub struct Response {
    pub action: u32,
    /// The transaction id of the request that this answers.
    pub transaction_id: u32,
    /// Seconds that the tracker asks us to wait before the next announce.
    pub interval: u32,
    pub leechers: u32,
    pub seeders: u32,
}

impl Request {
    /// Bytes in an encoded request.
    pub const LENGTH: usize = 98;

    /// An announce under a transaction id drawn at random. The counters are
    /// zero, no event is reported, the address and the number of peers are
    /// left to the tracker.
    pub fn new(connection_id: u64, infohash: [u8; 20], peer_id: [u8; 20], port: u16) -> (req:
        Request)
        ensures
            req == Request::spec_with_transaction_id(
                req.transaction_id,
                connection_id,
                infohash,
                peer_id,
                port,
            ),
    {
        Request::with_transaction_id(
            rand::random::<u32>(),
            connection_id,
            infohash,
            peer_id,
            port,
        )
    }

    /// The announce under the given transaction id, with the defaults of
    /// [`Request::new`].
    pub fn with_transaction_id(
        transaction_id: u32,
        connection_id: u64,
        infohash: [u8; 20],
        peer_id: [u8; 20],
        port: u16,
    ) -> (req: Request)
        ensures
            req == Request::spec_with_transaction_id(
                transaction_id,
                connection_id,
                infohash,
                peer_id,
                port,
            ),
    {
        Request {
            connection_id,
            action: ACTION_ANNOUNCE,
            transaction_id,
            infohash,
            peer_id,
            downloaded: 0,
            left: 0,
            uploaded: 0,
            event: Event::NoEvent,
            ip: 0,
            key: 0,
            num_want: -1i32,
            port,
        }
    }

    /// The request that [`Request::with_transaction_id`] makes.
    pub open spec fn spec_with_transaction_id(
        transaction_id: u32,
        connection_id: u64,
        infohash: [u8; 20],
        peer_id: [u8; 20],
        port: u16,
    ) -> Request {
        Request {
            connection_id,
            action: ACTION_ANNOUNCE,
            transaction_id,
            infohash,
            peer_id,
            downloaded: 0,
            left: 0,
            uploaded: 0,
            event: Event::NoEvent,
            ip: 0,
            key: 0,
            num_want: -1i32,
            port,
        }
    }

    /// The 98 bytes of the request on the wire.
    pub open spec fn spec_serialize(self) -> Seq<u8> {
        spec_u64_bytes(self.connection_id) + spec_u32_bytes(self.action) + spec_u32_bytes(
            self.transaction_id,
        ) + self.infohash@ + self.peer_id@ + spec_u64_bytes(self.downloaded) + spec_u64_bytes(
            self.left,
        ) + spec_u64_bytes(self.uploaded) + spec_u32_bytes(self.event.spec_code())
            + spec_u32_bytes(self.ip) + spec_u32_bytes(self.key) + spec_u32_bytes(
            spec_i32_bits(self.num_want),
        ) + spec_u16_bytes(self.port)
    }

    /// Encodes the request.
    pub fn serialize(&self) -> (bytes: Vec<u8>)
        ensures
            bytes@ == self.spec_serialize(),
            bytes@.len() == Request::LENGTH,
    {
        let mut bytes: Vec<u8> = Vec::new();
        put_u64(&mut bytes, self.connection_id);
        put_u32(&mut bytes, self.action);
        put_u32(&mut bytes, self.transaction_id);
        put_bytes(&mut bytes, self.infohash.as_slice());
        put_bytes(&mut bytes, self.peer_id.as_slice());
        put_u64(&mut bytes, self.downloaded);
        put_u64(&mut bytes, self.left);
        put_u64(&mut bytes, self.uploaded);
        put_u32(&mut bytes, self.event.code());
        put_u32(&mut bytes, self.ip);
        put_u32(&mut bytes, self.key);
        put_u32(&mut bytes, i32_bits(self.num_want));
        put_u16(&mut bytes, self.port);
        bytes
    }
}

impl Response {
    /// Bytes in the header of a response.
    pub const LENGTH: usize = 20;

    /// The header that the first twenty bytes of `buf` hold, and the bytes
    /// after them, which are the peer list. A shorter buffer holds no
    /// response.
    pub open spec fn spec_deserialize(buf: Seq<u8>) -> Option<(Response, Seq<u8>)> {
        if buf.len() < 20 {
            None
        } else {
            Some(
                (
                    Response {
                        action: spec_u32_be(buf.subrange(0, 4)),
                        transaction_id: spec_u32_be(buf.subrange(4, 8)),
                        interval: spec_u32_be(buf.subrange(8, 12)),
                        leechers: spec_u32_be(buf.subrange(12, 16)),
                        seeders: spec_u32_be(buf.subrange(16, 20)),
                    },
                    buf.subrange(20, buf.len() as int),
                ),
            )
        }
    }

    /// Decodes the header from the front of `buf` and hands back the peer
    /// list that follows it.
    pub fn deserialize(buf: &[u8]) -> (r: Option<(Response, &[u8])>)
        ensures
            r is Some <==> buf@.len() >= Response::LENGTH,
            match r {
                Some((res, payload)) => Response::spec_deserialize(buf@) == Some((res, payload@)),
                None => Response::spec_deserialize(buf@) is None,
            },
    {
        if buf.len() < Response::LENGTH {
            return None;
        }
        let res = Response {
            action: read_u32(buf, 0),
            transaction_id: read_u32(buf, 4),
            interval: read_u32(buf, 8),
            leechers: read_u32(buf, 12),
            seeders: read_u32(buf, 16),
        };
        Some((res, slice_subrange(buf, Response::LENGTH, buf.len())))
    }
}

} // verus!
