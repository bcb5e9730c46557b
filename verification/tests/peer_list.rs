use udp_tracker::error::Error;
use udp_tracker::peer::{IpAddress, Peer, SocketAddress};
use udp_tracker::tracker::Tracker;

fn v4(octets: [u8; 4], port: u16) -> Peer {
    Peer { addr: SocketAddress { ip: IpAddress::V4(octets), port } }
}

#[test]
fn twelve_bytes_are_two_ipv4_peers() {
    let payload = [1, 2, 3, 4, 0, 80, 5, 6, 7, 8, 1, 187];
    let peers = Tracker::parse_compact_peer_list(&payload, false).unwrap();
    assert_eq!(peers, vec![v4([1, 2, 3, 4], 80), v4([5, 6, 7, 8], 443)]);
}

#[test]
fn empty_payload_is_an_empty_list() {
    assert_eq!(Tracker::parse_compact_peer_list(&[], false), Ok(vec![]));
    assert_eq!(Tracker::parse_compact_peer_list(&[], true), Ok(vec![]));
}

#[test]
fn ipv6_records_have_eighteen_bytes() {
    let mut payload = Vec::new();
    let first: [u8; 16] = [0x20, 0x01, 0x0d, 0xb8, 0, 0, 0, 0, 0, 0, 0, 0, 0, 0, 0, 1];
    let second: [u8; 16] = [0xfe, 0x80, 1, 2, 3, 4, 5, 6, 7, 8, 9, 10, 11, 12, 13, 14];
    payload.extend_from_slice(&first);
    payload.extend_from_slice(&[0x1a, 0xe1]);
    payload.extend_from_slice(&second);
    payload.extend_from_slice(&[0xff, 0xff]);
    let peers = Tracker::parse_compact_peer_list(&payload, true).unwrap();
    assert_eq!(
        peers,
        vec![
            Peer { addr: SocketAddress { ip: IpAddress::V6(first), port: 6881 } },
            Peer { addr: SocketAddress { ip: IpAddress::V6(second), port: 65535 } },
        ]
    );
}

#[test]
fn the_family_decides_the_stride() {
    // 18 bytes are three IPv4 records and one IPv6 record.
    let payload: Vec<u8> = (1..=18).collect();
    let as_v4 = Tracker::parse_compact_peer_list(&payload, false).unwrap();
    assert_eq!(
        as_v4,
        vec![
            v4([1, 2, 3, 4], 0x0506),
            v4([7, 8, 9, 10], 0x0b0c),
            v4([13, 14, 15, 16], 0x1112),
        ]
    );
    let as_v6 = Tracker::parse_compact_peer_list(&payload, true).unwrap();
    assert_eq!(
        as_v6,
        vec![Peer {
            addr: SocketAddress {
                ip: IpAddress::V6([1, 2, 3, 4, 5, 6, 7, 8, 9, 10, 11, 12, 13, 14, 15, 16]),
                port: 0x1112,
            },
        }]
    );
}

#[test]
fn a_partial_record_spoils_the_list() {
    for len in 1..40usize {
        let payload = vec![7u8; len];
        let v4_result = Tracker::parse_compact_peer_list(&payload, false);
        if len % 6 == 0 {
            assert_eq!(v4_result.unwrap().len(), len / 6);
        } else {
            assert_eq!(v4_result, Err(Error::TrackerCompactPeerList));
        }
        let v6_result = Tracker::parse_compact_peer_list(&payload, true);
        if len % 18 == 0 {
            assert_eq!(v6_result.unwrap().len(), len / 18);
        } else {
            assert_eq!(v6_result, Err(Error::TrackerCompactPeerList));
        }
    }
}

#[test]
fn records_come_out_in_input_order() {
    let mut payload = Vec::new();
    for i in 0..50u8 {
        payload.extend_from_slice(&[10, 0, i, i + 1, i, 2 * i]);
    }
    let peers = Tracker::parse_compact_peer_list(&payload, false).unwrap();
    assert_eq!(peers.len(), 50);
    for (i, peer) in peers.iter().enumerate() {
        let i = i as u8;
        assert_eq!(*peer, v4([10, 0, i, i + 1], u16::from(i) * 256 + 2 * u16::from(i)));
    }
}

#[test]
fn one_record_is_decoded_by_itself() {
    assert_eq!(Peer::from_record(&[192, 168, 0, 1, 0x1a, 0xe1], false), v4([192, 168, 0, 1], 6881));
    let record: Vec<u8> = (0..18).collect();
    assert_eq!(
        Peer::from_record(&record, true),
        Peer {
            addr: SocketAddress {
                ip: IpAddress::V6([0, 1, 2, 3, 4, 5, 6, 7, 8, 9, 10, 11, 12, 13, 14, 15]),
                port: 0x1011,
            },
        }
    );
}

#[test]
fn addresses_know_their_family() {
    assert!(!IpAddress::V4([127, 0, 0, 1]).is_ipv6());
    assert!(IpAddress::V6([0; 16]).is_ipv6());
    assert!(!SocketAddress { ip: IpAddress::V4([0; 4]), port: 1 }.is_ipv6());
    assert!(SocketAddress { ip: IpAddress::V6([1; 16]), port: 1 }.is_ipv6());
}
