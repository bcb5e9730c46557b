use udp_tracker::announce;
use udp_tracker::connect;
use udp_tracker::error::Error;
use udp_tracker::exchange::{
    announce_answer, connect_answer, AnnounceExchange, AnnounceStep, ConnectExchange, ConnectStep,
    ANNOUNCE_RES_BUF_LEN,
};
use udp_tracker::peer::{IpAddress, Peer, SocketAddress};
use udp_tracker::retry::{Reply, Retry};
use udp_tracker::tracker::Tracker;

fn addr(octets: [u8; 4], port: u16) -> SocketAddress {
    SocketAddress { ip: IpAddress::V4(octets), port }
}

fn session() -> Tracker {
    Tracker::with_peer_id([9; 20], addr([0, 0, 0, 0], 6881), addr([10, 0, 0, 1], 80))
}

fn announce_datagram(action: u32, transaction_id: u32, payload: &[u8]) -> Vec<u8> {
    let mut datagram = Vec::new();
    datagram.extend_from_slice(&action.to_be_bytes());
    datagram.extend_from_slice(&transaction_id.to_be_bytes());
    datagram.extend_from_slice(&1800u32.to_be_bytes());
    datagram.extend_from_slice(&2u32.to_be_bytes());
    datagram.extend_from_slice(&5u32.to_be_bytes());
    datagram.extend_from_slice(payload);
    datagram
}

fn announce_request(transaction_id: u32) -> announce::Request {
    announce::Request::with_transaction_id(transaction_id, 0xc0ffee, [1; 20], [2; 20], 6881)
}

#[test]
fn announce_buffer_length() {
    assert_eq!(ANNOUNCE_RES_BUF_LEN, 8192);
}

#[test]
fn connect_answer_gives_the_connection_id() {
    let req = connect::Request::with_transaction_id(0x0102_0304);
    for connection_id in [0u64, 1, 0x1122_3344_5566_7788, u64::MAX] {
        let res = connect::Response { action: 0, transaction_id: 0x0102_0304, connection_id };
        assert_eq!(connect_answer(&req, &res.serialize()), Ok(connection_id));
    }
}

#[test]
fn connect_answer_ignores_what_follows_the_response() {
    let req = connect::Request::with_transaction_id(8);
    let mut datagram = connect::Response { action: 0, transaction_id: 8, connection_id: 55 }.serialize();
    datagram.extend_from_slice(&[1, 2, 3]);
    assert_eq!(connect_answer(&req, &datagram), Ok(55));
}

#[test]
fn connect_answer_refuses_another_transaction() {
    let req = connect::Request::with_transaction_id(8);
    let res = connect::Response { action: 0, transaction_id: 9, connection_id: 55 };
    assert_eq!(connect_answer(&req, &res.serialize()), Err(Error::TrackerResponse));
}

#[test]
fn connect_answer_refuses_another_action() {
    let req = connect::Request::with_transaction_id(8);
    let res = connect::Response { action: 1, transaction_id: 8, connection_id: 55 };
    assert_eq!(connect_answer(&req, &res.serialize()), Err(Error::TrackerResponse));
    let res = connect::Response { action: 3, transaction_id: 8, connection_id: 55 };
    assert_eq!(connect_answer(&req, &res.serialize()), Err(Error::TrackerResponse));
}

#[test]
fn connect_answer_refuses_a_short_datagram() {
    let req = connect::Request::with_transaction_id(0);
    let res = connect::Response { action: 0, transaction_id: 0, connection_id: 0 };
    let bytes = res.serialize();
    for len in 0..16 {
        assert_eq!(connect_answer(&req, &bytes[..len]), Err(Error::TrackerResponse));
    }
    assert_eq!(connect_answer(&req, &bytes), Ok(0));
}

#[test]
fn announce_answer_gives_the_peers() {
    let req = announce_request(42);
    let datagram = announce_datagram(1, 42, &[1, 2, 3, 4, 0, 80, 5, 6, 7, 8, 1, 187]);
    assert_eq!(
        announce_answer(&req, &datagram, false),
        Ok(vec![
            Peer { addr: addr([1, 2, 3, 4], 80) },
            Peer { addr: addr([5, 6, 7, 8], 443) },
        ])
    );
}

#[test]
fn announce_answer_without_peers() {
    let req = announce_request(42);
    let datagram = announce_datagram(1, 42, &[]);
    assert_eq!(announce_answer(&req, &datagram, false), Ok(vec![]));
    assert_eq!(announce_answer(&req, &datagram, true), Ok(vec![]));
}

#[test]
fn announce_answer_reads_ipv6_peers_on_an_ipv6_session() {
    let req = announce_request(42);
    let mut payload = vec![0u8; 15];
    payload.push(1);
    payload.extend_from_slice(&[0x1a, 0xe1]);
    let datagram = announce_datagram(1, 42, &payload);
    let mut loopback = [0u8; 16];
    loopback[15] = 1;
    assert_eq!(
        announce_answer(&req, &datagram, true),
        Ok(vec![Peer { addr: SocketAddress { ip: IpAddress::V6(loopback), port: 6881 } }])
    );
    assert_eq!(
        announce_answer(&req, &datagram, false).map(|peers| peers.len()),
        Ok(3)
    );
}

#[test]
fn announce_answer_refuses_another_transaction() {
    let req = announce_request(42);
    let datagram = announce_datagram(1, 43, &[1, 2, 3, 4, 0, 80]);
    assert_eq!(announce_answer(&req, &datagram, false), Err(Error::TrackerResponse));
}

#[test]
fn announce_answer_refuses_another_action() {
    let req = announce_request(42);
    let datagram = announce_datagram(0, 42, &[1, 2, 3, 4, 0, 80]);
    assert_eq!(announce_answer(&req, &datagram, false), Err(Error::TrackerResponse));
    let datagram = announce_datagram(3, 42, &[1, 2, 3, 4, 0, 80]);
    assert_eq!(announce_answer(&req, &datagram, false), Err(Error::TrackerResponse));
}

#[test]
fn announce_answer_refuses_a_short_datagram() {
    let req = announce_request(0);
    let datagram = announce_datagram(1, 0, &[]);
    for len in 0..20 {
        assert_eq!(announce_answer(&req, &datagram[..len], false), Err(Error::TrackerResponse));
    }
}

#[test]
fn announce_answer_refuses_a_partial_record() {
    let req = announce_request(42);
    let datagram = announce_datagram(1, 42, &[1, 2, 3, 4, 0, 80, 5]);
    assert_eq!(announce_answer(&req, &datagram, false), Err(Error::TrackerCompactPeerList));
    let datagram = announce_datagram(1, 42, &[1, 2, 3, 4, 0, 80]);
    assert_eq!(announce_answer(&req, &datagram, true), Err(Error::TrackerCompactPeerList));
}

#[test]
fn a_foreign_transaction_is_refused_before_the_peer_list_is_looked_at() {
    let req = announce_request(42);
    let datagram = announce_datagram(1, 7, &[1, 2, 3]);
    assert_eq!(announce_answer(&req, &datagram, false), Err(Error::TrackerResponse));
}

#[test]
fn an_announce_datagram_is_cut_off_at_the_buffer() {
    let req = announce_request(42);
    // 20 bytes of header and 1362 records fill the 8192 bytes exactly.
    let mut payload = Vec::new();
    for i in 0..1400u32 {
        payload.extend_from_slice(&[10, 1, (i / 256) as u8, (i % 256) as u8, 0x1a, 0xe1]);
    }
    let datagram = announce_datagram(1, 42, &payload);
    assert!(datagram.len() > ANNOUNCE_RES_BUF_LEN);
    let peers = announce_answer(&req, &datagram, false).unwrap();
    assert_eq!(peers.len(), 1362);
    assert_eq!(peers[1361], Peer { addr: addr([10, 1, 5, 81], 6881) });
    // One byte less than the buffer leaves a partial record behind.
    assert_eq!(
        announce_answer(&req, &datagram[..ANNOUNCE_RES_BUF_LEN - 1], false),
        Err(Error::TrackerCompactPeerList)
    );
    assert_eq!(
        announce_answer(&req, &datagram[..ANNOUNCE_RES_BUF_LEN], false).map(|peers| peers.len()),
        Ok(1362)
    );
}

#[test]
fn a_new_exchange_is_due_for_its_first_send() {
    let req = connect::Request::with_transaction_id(3);
    let exchange = ConnectExchange::new(req);
    assert_eq!(exchange, ConnectExchange { request: req, retry: Retry { sends: 1 } });
    assert_eq!(exchange.datagram(), req.serialize());
    let req = announce_request(3);
    let exchange = AnnounceExchange::new(req, true);
    assert_eq!(exchange, AnnounceExchange { request: req, is_ipv6: true, retry: Retry { sends: 1 } });
    assert_eq!(exchange.datagram(), req.serialize());
}

#[test]
fn connect_exchange_resends_the_same_bytes() {
    let mut tracker = session();
    let exchange = ConnectExchange::new(connect::Request::with_transaction_id(3));
    let first = exchange.datagram();
    match exchange.reply(&mut tracker, Reply::TimedOut) {
        ConnectStep::Resend(next) => {
            assert_eq!(next.retry, Retry { sends: 2 });
            assert_eq!(next.request, exchange.request);
            assert_eq!(next.datagram(), first);
        }
        other => panic!("{:?}", other),
    }
    assert_eq!(tracker, session());
}

#[test]
fn connect_exchange_gives_up_after_three_sends() {
    let mut tracker = session();
    let req = connect::Request::with_transaction_id(3);
    let first = ConnectExchange::new(req);
    let second = match first.reply(&mut tracker, Reply::TimedOut) {
        ConnectStep::Resend(next) => next,
        other => panic!("{:?}", other),
    };
    let third = match second.reply(&mut tracker, Reply::RecvFailed) {
        ConnectStep::Resend(next) => next,
        other => panic!("{:?}", other),
    };
    assert_eq!(third, ConnectExchange { request: req, retry: Retry { sends: 3 } });
    assert_eq!(
        third.reply(&mut tracker, Reply::TimedOut),
        ConnectStep::Failed(Error::TrackerNoResponse)
    );
    assert_eq!(
        third.reply(&mut tracker, Reply::RecvFailed),
        ConnectStep::Failed(Error::TrackerNoResponse)
    );
    assert_eq!(tracker, session());
}

#[test]
fn connect_exchange_stores_the_connection_id() {
    let mut tracker = session();
    let exchange = ConnectExchange::new(connect::Request::with_transaction_id(3));
    let res = connect::Response { action: 0, transaction_id: 3, connection_id: 0xfeed_f00d };
    assert_eq!(exchange.reply(&mut tracker, Reply::Datagram(res.serialize())), ConnectStep::Connected);
    let mut expected = session();
    expected.ctx.connection_id = Some(0xfeed_f00d);
    assert_eq!(tracker, expected);
}

#[test]
fn connect_exchange_accepts_a_late_answer() {
    // The answer to the first send may arrive after the second: it carries
    // the transaction id of the request all the same.
    let mut tracker = session();
    let first = ConnectExchange::new(connect::Request::with_transaction_id(3));
    let second = match first.reply(&mut tracker, Reply::TimedOut) {
        ConnectStep::Resend(next) => next,
        other => panic!("{:?}", other),
    };
    let res = connect::Response { action: 0, transaction_id: 3, connection_id: 12 };
    assert_eq!(second.reply(&mut tracker, Reply::Datagram(res.serialize())), ConnectStep::Connected);
    assert_eq!(tracker.ctx.connection_id, Some(12));
}

#[test]
fn connect_exchange_does_not_wait_out_an_invalid_answer() {
    let mut tracker = session();
    let exchange = ConnectExchange::new(connect::Request::with_transaction_id(3));
    let res = connect::Response { action: 0, transaction_id: 4, connection_id: 12 };
    assert_eq!(
        exchange.reply(&mut tracker, Reply::Datagram(res.serialize())),
        ConnectStep::Failed(Error::TrackerResponse)
    );
    assert_eq!(
        exchange.reply(&mut tracker, Reply::Datagram(vec![])),
        ConnectStep::Failed(Error::TrackerResponse)
    );
    assert_eq!(tracker, session());
}

#[test]
fn connect_exchange_keeps_an_earlier_connection_id_on_failure() {
    let mut tracker = session();
    tracker.ctx.connection_id = Some(1);
    let exchange = ConnectExchange { request: connect::Request::with_transaction_id(3), retry: Retry { sends: 3 } };
    assert_eq!(
        exchange.reply(&mut tracker, Reply::TimedOut),
        ConnectStep::Failed(Error::TrackerNoResponse)
    );
    assert_eq!(tracker.ctx.connection_id, Some(1));
    let res = connect::Response { action: 0, transaction_id: 3, connection_id: 2 };
    assert_eq!(exchange.reply(&mut tracker, Reply::Datagram(res.serialize())), ConnectStep::Connected);
    assert_eq!(tracker.ctx.connection_id, Some(2));
}

#[test]
fn a_failed_send_ends_the_exchange() {
    let mut tracker = session();
    let exchange = ConnectExchange::new(connect::Request::with_transaction_id(3));
    assert_eq!(
        exchange.reply(&mut tracker, Reply::SendFailed),
        ConnectStep::Failed(Error::TrackerSocket)
    );
    let exchange = AnnounceExchange::new(announce_request(3), false);
    assert_eq!(exchange.reply(Reply::SendFailed), AnnounceStep::Failed(Error::TrackerSocket));
}

#[test]
fn three_timeouts_fail_the_announce() {
    let req = announce_request(42);
    let mut exchange = AnnounceExchange::new(req, false);
    let mut sends = 0;
    let end = loop {
        assert_eq!(exchange.datagram(), req.serialize());
        sends += 1;
        match exchange.reply(Reply::TimedOut) {
            AnnounceStep::Resend(next) => exchange = next,
            other => break other,
        }
    };
    assert_eq!(sends, 3);
    assert_eq!(end, AnnounceStep::Failed(Error::TrackerNoResponse));
}

#[test]
fn announce_exchange_yields_the_peers() {
    let exchange = AnnounceExchange::new(announce_request(42), false);
    let datagram = announce_datagram(1, 42, &[1, 2, 3, 4, 0, 80, 5, 6, 7, 8, 1, 187]);
    assert_eq!(
        exchange.reply(Reply::Datagram(datagram)),
        AnnounceStep::Peers(vec![
            Peer { addr: addr([1, 2, 3, 4], 80) },
            Peer { addr: addr([5, 6, 7, 8], 443) },
        ])
    );
}

#[test]
fn announce_exchange_yields_the_peers_after_a_resend() {
    let first = AnnounceExchange::new(announce_request(42), false);
    let second = match first.reply(Reply::RecvFailed) {
        AnnounceStep::Resend(next) => next,
        other => panic!("{:?}", other),
    };
    assert_eq!(second, AnnounceExchange { request: announce_request(42), is_ipv6: false, retry: Retry { sends: 2 } });
    let datagram = announce_datagram(1, 42, &[]);
    assert_eq!(second.reply(Reply::Datagram(datagram)), AnnounceStep::Peers(vec![]));
}

#[test]
fn announce_exchange_does_not_wait_out_an_invalid_answer() {
    let exchange = AnnounceExchange::new(announce_request(42), false);
    assert_eq!(
        exchange.reply(Reply::Datagram(announce_datagram(1, 41, &[]))),
        AnnounceStep::Failed(Error::TrackerResponse)
    );
    assert_eq!(
        exchange.reply(Reply::Datagram(vec![])),
        AnnounceStep::Failed(Error::TrackerResponse)
    );
    assert_eq!(
        exchange.reply(Reply::Datagram(announce_datagram(1, 42, &[1, 2, 3, 4, 0]))),
        AnnounceStep::Failed(Error::TrackerCompactPeerList)
    );
}

#[test]
fn announce_exchange_reads_the_peer_list_by_the_family_of_the_session() {
    let payload: Vec<u8> = (1..=18).collect();
    let datagram = announce_datagram(1, 42, &payload);
    let v4 = AnnounceExchange::new(announce_request(42), false);
    match v4.reply(Reply::Datagram(datagram.clone())) {
        AnnounceStep::Peers(peers) => assert_eq!(peers.len(), 3),
        other => panic!("{:?}", other),
    }
    let v6 = AnnounceExchange::new(announce_request(42), true);
    match v6.reply(Reply::Datagram(datagram)) {
        AnnounceStep::Peers(peers) => assert_eq!(peers.len(), 1),
        other => panic!("{:?}", other),
    }
}
