//! The two exchanges with a tracker: the connect handshake and the
//! announce.
//!
//! Each is a request that is sent under the policy of [`crate::retry`], and
//! an answer that must echo the action and the transaction id of the
//! request. The first datagram that arrives ends the exchange, whether it is
//! a valid answer or not: an invalid one is an error and is not waited out.
//!
//! The caller sends [`ConnectExchange::datagram`] (or
//! [`AnnounceExchange::datagram`]), waits, and reports what happened as a
//! [`Reply`]; the exchange says what follows.

use crate::announce;
use crate::connect;
use crate::error::Error;
use crate::peer::{spec_parse_compact_peer_list, Peer};
use crate::retry::{Reply, Retry, Verdict, VerdictView};
use crate::tracker::Tracker;
use vstd::prelude::*;
use vstd::slice::slice_subrange;

verus! {

/// Bytes of an announce response that are read; a longer datagram is cut
/// off there.
pub const ANNOUNCE_RES_BUF_LEN: usize = 8192;

/// The connection id that `datagram` grants as the answer to `req`: the
/// datagram must hold a connect response that echoes the action and the
/// transaction id of the request. What follows the response in the
/// datagram is not looked at.
pub open spec fn spec_connect_answer(req: connect::Request, datagram: Seq<u8>) -> Result<
    u64,
    Error,
> {
    match connect::Response::spec_deserialize(datagram) {
        Some((res, _)) => if res.transaction_id == req.transaction_id && res.action == req.action {
            Ok(res.connection_id)
        } else {
            Err(Error::TrackerResponse)
        },
        None => Err(Error::TrackerResponse),
    }
}

/// The part of an announce datagram that is read.
pub open spec fn spec_announce_received(datagram: Seq<u8>) -> Seq<u8> {
    if datagram.len() > ANNOUNCE_RES_BUF_LEN {
        datagram.subrange(0, ANNOUNCE_RES_BUF_LEN as int)
    } else {
        datagram
    }
}

/// The peers that `datagram` reports as the answer to `req`: the datagram
/// must hold an announce header that echoes the action and the transaction
/// id of the request, and after it a well-formed compact peer list for the
/// address family in use.
pub open spec fn spec_announce_answer(
    req: announce::Request,
    datagram: Seq<u8>,
    is_ipv6: bool,
) -> Result<Seq<Peer>, Error> {
    match announce::Response::spec_deserialize(spec_announce_received(datagram)) {
        Some((res, payload)) => if res.transaction_id == req.transaction_id && res.action
            == req.action {
            match spec_parse_compact_peer_list(payload, is_ipv6) {
                Some(peers) => Ok(peers),
                None => Err(Error::TrackerCompactPeerList),
            }
        } else {
            Err(Error::TrackerResponse)
        },
        None => Err(Error::TrackerResponse),
    }
}

/// Reads `datagram` as the answer to the connect request `req`.
pub fn connect_answer(req: &connect::Request, datagram: &[u8]) -> (r: Result<u64, Error>)
    ensures
        r == spec_connect_answer(*req, datagram@),
{
    match connect::Response::deserialize(datagram) {
        Some((res, _)) => {
            if res.transaction_id != req.transaction_id || res.action != req.action {
                Err(Error::TrackerResponse)
            } else {
                Ok(res.connection_id)
            }
        },
        None => Err(Error::TrackerResponse),
    }
}

/// Reads `datagram` as the answer to the announce request `req`, on a
/// session whose socket has the given address family.
pub fn announce_answer(req: &announce::Request, datagram: &[u8], is_ipv6: bool) -> (r: Result<
    Vec<Peer>,
    Error,
>)
    ensures
        match r {
            Ok(peers) => spec_announce_answer(*req, datagram@, is_ipv6) == Ok::<Seq<Peer>, Error>(
                peers@,
            ),
            Err(e) => spec_announce_answer(*req, datagram@, is_ipv6) == Err::<Seq<Peer>, Error>(e),
        },
{
    let received = if datagram.len() > ANNOUNCE_RES_BUF_LEN {
        slice_subrange(datagram, 0, ANNOUNCE_RES_BUF_LEN)
    } else {
        datagram
    };
    match announce::Response::deserialize(received) {
        Some((res, payload)) => {
            if res.transaction_id != req.transaction_id || res.action != req.action {
                return Err(Error::TrackerResponse);
            }
            Tracker::parse_compact_peer_list(payload, is_ipv6)
        },
        None => Err(Error::TrackerResponse),
    }
}

/// A connect request that awaits its answer.
#[derive(Debug, Clone, Copy, PartialEq, Eq)]
pub struct ConnectExchange {
    /// The request, the same for every send.
    pub request: connect::Request,
    /// How far the sending of it has come.
    pub retry: Retry,
}

/// What follows a reply in a connect exchange.
#[derive(Debug, Clone, Copy, PartialEq, Eq)]
pub enum ConnectStep {
    /// Send the datagram of this exchange and wait again.
    Resend(ConnectExchange),
    /// The tracker answered; the session now holds its connection id.
    Connected,
    /// The exchange is over and the session is as it was.
    Failed(Error),
}

/// An announce request that awaits its answer.
#[derive(Debug, Clone, Copy, PartialEq, Eq)]
pub struct AnnounceExchange {
    /// The request, the same for every send.
    pub request: announce::Request,
    /// Whether the session's socket is an IPv6 one, which decides how the
    /// peer list is laid out.
    pub is_ipv6: bool,
    /// How far the sending of it has come.
    pub retry: Retry,
}

/// What follows a reply in an announce exchange.
#[derive(Debug, PartialEq, Eq)]
pub enum AnnounceStep {
    /// Send the datagram of this exchange and wait again.
    Resend(AnnounceExchange),
    /// The tracker answered with these peers.
    Peers(Vec<Peer>),
    /// The exchange is over.
    Failed(Error),
}

/// An [`AnnounceStep`] with the peers as a sequence.
pub enum AnnounceStepView {
    Resend(AnnounceExchange),
    Peers(Seq<Peer>),
    Failed(Error),
}

impl View for AnnounceStep {
    type V = AnnounceStepView;

    open spec fn view(&self) -> AnnounceStepView {
        match self {
            AnnounceStep::Resend(exchange) => AnnounceStepView::Resend(*exchange),
            AnnounceStep::Peers(peers) => AnnounceStepView::Peers(peers@),
            AnnounceStep::Failed(e) => AnnounceStepView::Failed(*e),
        }
    }
}

/// The session `tracker` once the tracker has issued `connection_id`.
pub open spec fn spec_connected(tracker: Tracker, connection_id: u64) -> Tracker {
    Tracker {
        local_addr: tracker.local_addr,
        ctx: crate::tracker::TrackerCtx {
            peer_id: tracker.ctx.peer_id,
            tracker_addr: tracker.ctx.tracker_addr,
            connection_id: Some(connection_id),
        },
    }
}

impl ConnectExchange {
    /// The exchange of `request`, which is now due for its first send.
    pub fn new(request: connect::Request) -> (exchange: ConnectExchange)
        ensures
            exchange == (ConnectExchange { request, retry: Retry::spec_first() }),
    {
        ConnectExchange { request, retry: Retry::first() }
    }

    /// The bytes to send: those of the request, at every send.
    pub fn datagram(&self) -> (bytes: Vec<u8>)
        ensures
            bytes@ == self.request.spec_serialize(),
    {
        self.request.serialize()
    }

    /// What follows `reply`, and the session after it.
    ///
    /// The first datagram decides: a valid answer stores its connection id
    /// in the session, an invalid one fails the exchange. Without a
    /// datagram, the same request is due again, or the exchange has failed,
    /// as [`Retry::spec_reply`] says. Only a valid answer changes the
    /// session.
    pub open spec fn spec_reply(self, tracker: Tracker, reply: Reply) -> (ConnectStep, Tracker) {
        match self.retry.spec_reply(reply) {
            VerdictView::Resend(retry) => (
                ConnectStep::Resend(ConnectExchange { request: self.request, retry }),
                tracker,
            ),
            VerdictView::Received(bytes) => match spec_connect_answer(self.request, bytes) {
                Ok(id) => (ConnectStep::Connected, spec_connected(tracker, id)),
                Err(e) => (ConnectStep::Failed(e), tracker),
            },
            VerdictView::GaveUp(e) => (ConnectStep::Failed(e), tracker),
        }
    }

    /// Takes what the transport reported for the last send, and says what
    /// follows. A valid answer sets the connection id of `tracker`.
    pub fn reply(self, tracker: &mut Tracker, reply: Reply) -> (step: ConnectStep)
        ensures
            (step, *final(tracker)) == self.spec_reply(*old(tracker), reply),
    {
        match self.retry.reply(reply) {
            Verdict::Resend(retry) => ConnectStep::Resend(
                ConnectExchange { request: self.request, retry },
            ),
            Verdict::Received(bytes) => match connect_answer(&self.request, bytes.as_slice()) {
                Ok(id) => {
                    tracker.ctx.connection_id = Some(id);
                    ConnectStep::Connected
                },
                Err(e) => ConnectStep::Failed(e),
            },
            Verdict::GaveUp(e) => ConnectStep::Failed(e),
        }
    }
}

impl AnnounceExchange {
    /// The exchange of `request`, which is now due for its first send.
    pub fn new(request: announce::Request, is_ipv6: bool) -> (exchange: AnnounceExchange)
        ensures
            exchange == (AnnounceExchange { request, is_ipv6, retry: Retry::spec_first() }),
    {
        AnnounceExchange { request, is_ipv6, retry: Retry::first() }
    }

    /// The bytes to send: those of the request, at every send.
    pub fn datagram(&self) -> (bytes: Vec<u8>)
        ensures
            bytes@ == self.request.spec_serialize(),
    {
        self.request.serialize()
    }

    /// What follows `reply`.
    ///
    /// The first datagram decides: it yields the peers that it reports, or
    /// fails the exchange if it is no valid answer. Without a datagram, the
    /// same request is due again, or the exchange has failed, as
    /// [`Retry::spec_reply`] says.
    pub open spec fn spec_reply(self, reply: Reply) -> AnnounceStepView {
        match self.retry.spec_reply(reply) {
            VerdictView::Resend(retry) => AnnounceStepView::Resend(
                AnnounceExchange { request: self.request, is_ipv6: self.is_ipv6, retry },
            ),
            VerdictView::Received(bytes) => match spec_announce_answer(
                self.request,
                bytes,
                self.is_ipv6,
            ) {
                Ok(peers) => AnnounceStepView::Peers(peers),
                Err(e) => AnnounceStepView::Failed(e),
            },
            VerdictView::GaveUp(e) => AnnounceStepView::Failed(e),
        }
    }

    /// Takes what the transport reported for the last send, and says what
    /// follows.
    pub fn reply(self, reply: Reply) -> (step: AnnounceStep)
        ensures
            step@ == self.spec_reply(reply),
    {
        match self.retry.reply(reply) {
            Verdict::Resend(retry) => AnnounceStep::Resend(
                AnnounceExchange { request: self.request, is_ipv6: self.is_ipv6, retry },
            ),
            Verdict::Received(bytes) => match announce_answer(
                &self.request,
                bytes.as_slice(),
                self.is_ipv6,
            ) {
                Ok(peers) => AnnounceStep::Peers(peers),
                Err(e) => AnnounceStep::Failed(e),
            },
            Verdict::GaveUp(e) => AnnounceStep::Failed(e),
        }
    }
}

/// The answer to a connect request yields the connection id that the
/// tracker put into it: for a response that echoes the action and the
/// transaction id of the request, decoding its encoding gives back its
/// connection id, whatever follows it in the datagram.
pub proof fn lemma_connect_round_trip(
    req: connect::Request,
    res: connect::Response,
    trailing: Seq<u8>,
)
    requires
        res.action == req.action,
        res.transaction_id == req.transaction_id,
    ensures
        spec_connect_answer(req, res.spec_serialize() + trailing) == Ok::<u64, Error>(
            res.connection_id,
        ),
{
    connect::lemma_response_round_trip(res, trailing);
}

/// A datagram that holds a connect response under another transaction id
/// than that of the request is refused, whatever else it holds and whenever
/// it arrives: the exchange fails, and the session is as it was.
pub proof fn lemma_connect_refuses_foreign_transaction(
    exchange: ConnectExchange,
    tracker: Tracker,
    datagram: Vec<u8>,
)
    requires
        connect::Response::spec_deserialize(datagram@) matches Some((res, _))
            && res.transaction_id != exchange.request.transaction_id,
    ensures
        spec_connect_answer(exchange.request, datagram@) == Err::<u64, Error>(
            Error::TrackerResponse,
        ),
        exchange.spec_reply(tracker, Reply::Datagram(datagram)) == (
            ConnectStep::Failed(Error::TrackerResponse),
            tracker,
        ),
{
}

/// A datagram that holds an announce header under another transaction id
/// than that of the request is refused, whatever else it holds.
pub proof fn lemma_announce_refuses_foreign_transaction(
    req: announce::Request,
    datagram: Seq<u8>,
    is_ipv6: bool,
)
    requires
        announce::Response::spec_deserialize(spec_announce_received(datagram)) matches Some(
            (res, _),
        ) && res.transaction_id != req.transaction_id,
    ensures
        spec_announce_answer(req, datagram, is_ipv6) == Err::<Seq<Peer>, Error>(
            Error::TrackerResponse,
        ),
{
}

} // verus!
