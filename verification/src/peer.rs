//! Addresses, and the peers that a tracker reports.

use vstd::prelude::*;

verus! {

/// An IP address, as its octets in network byte order.
#[derive(Debug, Clone, Copy, PartialEq, Eq)]
pub enum IpAddress {
    V4([u8; 4]),
    V6([u8; 16]),
}

impl IpAddress {
    /// The octets of the address: four of them, or sixteen.
    pub open spec fn octets(self) -> Seq<u8> {
        match self {
            IpAddress::V4(a) => a@,
            IpAddress::V6(a) => a@,
        }
    }

    /// Whether this is an IPv6 address.
    pub fn is_ipv6(&self) -> (v6: bool)
        ensures
            v6 == (*self is V6),
    {
        match self {
            IpAddress::V4(_) => false,
            IpAddress::V6(_) => true,
        }
    }
}

/// An IP address together with a port.
#[derive(Debug, Clone, Copy, PartialEq, Eq)]
pub struct SocketAddress {
    pub ip: IpAddress,
    pub port: u16,
}

impl SocketAddress {
    /// Whether the address is an IPv6 one.
    pub fn is_ipv6(&self) -> (v6: bool)
        ensures
            v6 == (self.ip is V6),
    {
        self.ip.is_ipv6()
    }
}

/// A participant that a tracker reported, by the address it can be reached at.
#[derive(Debug, Clone, Copy, PartialEq, Eq)]
pub struct Peer {
    pub addr: SocketAddress,
}

/// Bytes per record of a compact peer list: the octets of the address and
/// two bytes of port.
pub open spec fn spec_stride(is_ipv6: bool) -> int {
    if is_ipv6 {
        18
    } else {
        6
    }
}

/// The peer that one record of a compact peer list denotes.
pub open spec fn spec_peer(record: Seq<u8>, is_ipv6: bool) -> Peer
    recommends
        record.len() == spec_stride(is_ipv6),
{
    let ip = if is_ipv6 {
        IpAddress::V6(
            [
                record[0],
                record[1],
                record[2],
                record[3],
                record[4],
                record[5],
                record[6],
                record[7],
                record[8],
                record[9],
                record[10],
                record[11],
                record[12],
                record[13],
                record[14],
                record[15],
            ],
        )
    } else {
        IpAddress::V4([record[0], record[1], record[2], record[3]])
    };
    let port = crate::wire::spec_u16_be(record.subrange(spec_stride(is_ipv6) - 2, spec_stride(is_ipv6)));
    Peer { addr: SocketAddress { ip, port } }
}

/// What a compact peer list denotes: one peer per record, in the order of
/// the records. A list that is not a whole number of records denotes nothing.
pub open spec fn spec_parse_compact_peer_list(buf: Seq<u8>, is_ipv6: bool) -> Option<Seq<Peer>> {
    let stride = spec_stride(is_ipv6);
    if buf.len() % (stride as nat) != 0 {
        None
    } else {
        Some(
            Seq::new(
                buf.len() / (stride as nat),
                |i: int| spec_peer(buf.subrange(i * stride, i * stride + stride), is_ipv6),
            ),
        )
    }
}

impl Peer {
    /// Decodes one record of a compact peer list.
    pub fn from_record(record: &[u8], is_ipv6: bool) -> (peer: Peer)
        requires
            record@.len() == spec_stride(is_ipv6),
        ensures
            peer == spec_peer(record@, is_ipv6),
    {
        if is_ipv6 {
            let octets: [u8; 16] = [
                record[0],
                record[1],
                record[2],
                record[3],
                record[4],
                record[5],
                record[6],
                record[7],
                record[8],
                record[9],
                record[10],
                record[11],
                record[12],
                record[13],
                record[14],
                record[15],
            ];
            let port = crate::wire::read_u16(record, 16);
            Peer { addr: SocketAddress { ip: IpAddress::V6(octets), port } }
        } else {
            let octets: [u8; 4] = [record[0], record[1], record[2], record[3]];
            let port = crate::wire::read_u16(record, 4);
            Peer { addr: SocketAddress { ip: IpAddress::V4(octets), port } }
        }
    }
}

/// A list that is a whole number of records denotes one peer per record, in
/// the order of the records, each with the octets and the port of its
/// record.
pub proof fn lemma_whole_list(buf: Seq<u8>, is_ipv6: bool)
    requires
        buf.len() % (spec_stride(is_ipv6) as nat) == 0,
    ensures
        spec_parse_compact_peer_list(buf, is_ipv6) matches Some(peers) && {
            &&& peers.len() == buf.len() / (spec_stride(is_ipv6) as nat)
            &&& forall|i: int|
                0 <= i < peers.len() ==> {
                    let at = i * spec_stride(is_ipv6);
                    let end = at + spec_stride(is_ipv6);
                    &&& (#[trigger] peers[i]).addr.ip is V6 == is_ipv6
                    &&& peers[i].addr.ip.octets() == buf.subrange(at, end - 2)
                    &&& peers[i].addr.port == crate::wire::spec_u16_be(buf.subrange(end - 2, end))
                }
        },
{
    let stride = spec_stride(is_ipv6);
    let peers = spec_parse_compact_peer_list(buf, is_ipv6).unwrap();
    assert forall|i: int| 0 <= i < peers.len() implies {
        let at = i * stride;
        let end = at + stride;
        &&& (#[trigger] peers[i]).addr.ip is V6 == is_ipv6
        &&& peers[i].addr.ip.octets() == buf.subrange(at, end - 2)
        &&& peers[i].addr.port == crate::wire::spec_u16_be(buf.subrange(end - 2, end))
    } by {
        let at = i * stride;
        let end = at + stride;
        assert(0 <= at && end <= buf.len()) by (nonlinear_arith)
            requires
                0 <= i < (buf.len() as int) / stride,
                (buf.len() as int) % stride == 0,
                stride > 0,
                at == i * stride,
                end == at + stride,
        ;
    }
}

/// A list with a partial record at its end denotes nothing, not even the
/// records before it.
pub proof fn lemma_partial_list(buf: Seq<u8>, is_ipv6: bool)
    requires
        buf.len() % (spec_stride(is_ipv6) as nat) != 0,
    ensures
        spec_parse_compact_peer_list(buf, is_ipv6) is None,
{
}

} // verus!
