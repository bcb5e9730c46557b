//! The connect handshake: sixteen bytes each way.
//!
//! | message  | layout, all big-endian                                |
//! |----------|-------------------------------------------------------|
//! | request  | magic: u64, action: u32 = 0, transaction_id: u32      |
//! | response | action: u32 = 0, transaction_id: u32, connection_id: u64 |

use crate::wire::{
    lemma_decode_encode_u32, lemma_decode_encode_u64, put_u32, put_u64, read_u32, read_u64, spec_u32_be, spec_u32_bytes,
    spec_u64_be, spec_u64_bytes,
};
use vstd::prelude::*;
use vstd::slice::slice_subrange;

verus! {

/// The constant that opens every connect request.
pub const PROTOCOL_MAGIC: u64 = 0x0417_2710_1980;

/// The action code of the connect handshake.
pub const ACTION_CONNECT: u32 = 0;

/// The request that opens a session.
#[derive(Debug, Clone, Copy, PartialEq, Eq, Structural)]
pub struct Request {
    pub protocol_magic: u64,
    pub action: u32,
    /// Chosen by us; the tracker echoes it.
    pub transaction_id: u32,
}

/// The tracker's answer to a connect request.
#[derive(Debug, Clone, Copy, PartialEq, Eq, Structural)]
pub struct Response {
    pub action: u32,
    /// The transaction id of the request that this answers.
    pub transaction_id: u32,
    /// The token to present in later announces.
    pub connection_id: u64,
}

impl Request {
    /// Bytes in an encoded request.
    pub const LENGTH: usize = 16;

    /// A connect request under a transaction id drawn at random.
    pub fn new() -> (req: Request)
        ensures
            req == Request::with_transaction_id(req.transaction_id),
    {
        Request::with_transaction_id(rand::random::<u32>())
    }

    /// The connect request under the given transaction id.
    #[verifier::when_used_as_spec(spec_with_transaction_id)]
    pub fn with_transaction_id(transaction_id: u32) -> (req: Request)
        ensures
            req == Request::spec_with_transaction_id(transaction_id),
    {
        Request { protocol_magic: PROTOCOL_MAGIC, action: ACTION_CONNECT, transaction_id }
    }

    /// The request that [`Request::with_transaction_id`] makes.
    pub open spec fn spec_with_transaction_id(transaction_id: u32) -> Request {
        Request { protocol_magic: PROTOCOL_MAGIC, action: ACTION_CONNECT, transaction_id }
    }

    /// The sixteen bytes of the request on the wire.
    pub open spec fn spec_serialize(self) -> Seq<u8> {
        spec_u64_bytes(self.protocol_magic) + spec_u32_bytes(self.action) + spec_u32_bytes(
            self.transaction_id,
        )
    }

    /// The request that the first sixteen bytes of `buf` hold, and the bytes
    /// after them. A shorter buffer holds no request.
    pub open spec fn spec_deserialize(buf: Seq<u8>) -> Option<(Request, Seq<u8>)> {
        if buf.len() < 16 {
            None
        } else {
            Some(
                (
                    Request {
                        protocol_magic: spec_u64_be(buf.subrange(0, 8)),
                        action: spec_u32_be(buf.subrange(8, 12)),
                        transaction_id: spec_u32_be(buf.subrange(12, 16)),
                    },
                    buf.subrange(16, buf.len() as int),
                ),
            )
        }
    }

    /// Encodes the request.
    pub fn serialize(&self) -> (bytes: Vec<u8>)
        ensures
            bytes@ == self.spec_serialize(),
            bytes@.len() == Request::LENGTH,
    {
        let mut bytes: Vec<u8> = Vec::new();
        put_u64(&mut bytes, self.protocol_magic);
        put_u32(&mut bytes, self.action);
        put_u32(&mut bytes, self.transaction_id);
        bytes
    }

    /// Decodes a request from the front of `buf` and hands back the rest.
    pub fn deserialize(buf: &[u8]) -> (r: Option<(Request, &[u8])>)
        ensures
            r is Some <==> buf@.len() >= Request::LENGTH,
            match r {
                Some((req, rest)) => Request::spec_deserialize(buf@) == Some((req, rest@)),
                None => Request::spec_deserialize(buf@) is None,
            },
    {
        if buf.len() < Request::LENGTH {
            return None;
        }
        let req = Request {
            protocol_magic: read_u64(buf, 0),
            action: read_u32(buf, 8),
            transaction_id: read_u32(buf, 12),
        };
        Some((req, slice_subrange(buf, Request::LENGTH, buf.len())))
    }
}

impl Response {
    /// Bytes in an encoded response.
    pub const LENGTH: usize = 16;

    /// The sixteen bytes of the response on the wire.
    pub open spec fn spec_serialize(self) -> Seq<u8> {
        spec_u32_bytes(self.action) + spec_u32_bytes(self.transaction_id) + spec_u64_bytes(
            self.connection_id,
        )
    }

    /// The response that the first sixteen bytes of `buf` hold, and the bytes
    /// after them. A shorter buffer holds no response.
    pub open spec fn spec_deserialize(buf: Seq<u8>) -> Option<(Response, Seq<u8>)> {
        if buf.len() < 16 {
            None
        } else {
            Some(
                (
                    Response {
                        action: spec_u32_be(buf.subrange(0, 4)),
                        transaction_id: spec_u32_be(buf.subrange(4, 8)),
                        connection_id: spec_u64_be(buf.subrange(8, 16)),
                    },
                    buf.subrange(16, buf.len() as int),
                ),
            )
        }
    }

    /// Encodes the response.
    pub fn serialize(&self) -> (bytes: Vec<u8>)
        ensures
            bytes@ == self.spec_serialize(),
            bytes@.len() == Response::LENGTH,
    {
        let mut bytes: Vec<u8> = Vec::new();
        put_u32(&mut bytes, self.action);
        put_u32(&mut bytes, self.transaction_id);
        put_u64(&mut bytes, self.connection_id);
        bytes
    }

    /// Decodes a response from the front of `buf` and hands back the rest.
    pub fn deserialize(buf: &[u8]) -> (r: Option<(Response, &[u8])>)
        ensures
            r is Some <==> buf@.len() >= Response::LENGTH,
            match r {
                Some((res, rest)) => Response::spec_deserialize(buf@) == Some((res, rest@)),
                None => Response::spec_deserialize(buf@) is None,
            },
    {
        if buf.len() < Response::LENGTH {
            return None;
        }
        let res = Response {
            action: read_u32(buf, 0),
            transaction_id: read_u32(buf, 4),
            connection_id: read_u64(buf, 8),
        };
        Some((res, slice_subrange(buf, Response::LENGTH, buf.len())))
    }
}

/// Decoding undoes encoding: the bytes of a request, whatever follows them,
/// decode to that request and to what follows.
pub proof fn lemma_request_round_trip(req: Request, rest: Seq<u8>)
    ensures
        Request::spec_deserialize(req.spec_serialize() + rest) == Some((req, rest)),
{
    lemma_decode_encode_u64(req.protocol_magic);
    lemma_decode_encode_u32(req.action);
    lemma_decode_encode_u32(req.transaction_id);
}

/// Decoding undoes encoding: the bytes of a response, whatever follows them,
/// decode to that response and to what follows.
pub proof fn lemma_response_round_trip(res: Response, rest: Seq<u8>)
    ensures
        Response::spec_deserialize(res.spec_serialize() + rest) == Some((res, rest)),
{
    lemma_decode_encode_u32(res.action);
    lemma_decode_encode_u32(res.transaction_id);
    lemma_decode_encode_u64(res.connection_id);
}

} // verus!
