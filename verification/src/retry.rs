//! Sending a request until it is answered, a bounded number of times.
//!
//! The request is sent, and an answer awaited until a deadline. When the
//! deadline passes, the same request is sent again, up to [`MAX_SENDS`]
//! times in all. The first datagram that arrives ends the waiting; whether
//! it is a valid answer is for the exchange to say, not for this policy.
//!
//! The caller owns the socket and the clock. After each send it reports
//! what the transport did as a [`Reply`], and is told what follows.

use crate::error::Error;
use vstd::prelude::*;

verus! {

/// How many times a request is sent before it is given up.
pub const MAX_SENDS: u8 = 3;

/// Seconds to wait for an answer after each send.
pub const RECV_TIMEOUT_SECS: u64 = 3;

/// What the transport did with one send and the wait that followed it.
#[derive(Debug, PartialEq, Eq)]
pub enum Reply {
    /// A datagram arrived before the deadline.
    Datagram(Vec<u8>),
    /// The deadline passed.
    TimedOut,
    /// Receiving failed before the deadline.
    RecvFailed,
    /// The request could not be sent.
    SendFailed,
}

/// A request that is out: sent, and not yet answered or given up.
#[derive(Debug, Clone, Copy, PartialEq, Eq, Structural)]
pub struct Retry {
    /// How many times the request has been handed out for sending.
    pub sends: u8,
}

/// What follows a reply.
#[derive(Debug, PartialEq, Eq)]
pub enum Verdict {
    /// Send the same request again and wait again.
    Resend(Retry),
    /// A datagram arrived: the waiting is over.
    Received(Vec<u8>),
    /// The request is given up.
    GaveUp(Error),
}

/// A [`Verdict`] with the datagram as a sequence of bytes.
pub enum VerdictView {
    Resend(Retry),
    Received(Seq<u8>),
    GaveUp(Error),
}

impl View for Verdict {
    type V = VerdictView;

    open spec fn view(&self) -> VerdictView {
        match self {
            Verdict::Resend(retry) => VerdictView::Resend(*retry),
            Verdict::Received(bytes) => VerdictView::Received(bytes@),
            Verdict::GaveUp(e) => VerdictView::GaveUp(*e),
        }
    }
}

/// Whether a reply brought nothing: no datagram, and no failure to send.
pub open spec fn spec_silent(reply: Reply) -> bool {
    reply is TimedOut || reply is RecvFailed
}

impl Retry {
    /// A request that is due for its first send.
    pub fn first() -> (retry: Retry)
        ensures
            retry == Retry::spec_first(),
    {
        Retry { sends: 1 }
    }

    /// A request that is due for its first send.
    pub open spec fn spec_first() -> Retry {
        Retry { sends: 1 }
    }

    /// What follows `reply`. A datagram ends the waiting. A wait that
    /// brought nothing asks for the request again until it has been sent
    /// [`MAX_SENDS`] times, and then gives it up as unanswered. A request
    /// that could not be sent is given up at once.
    pub open spec fn spec_reply(self, reply: Reply) -> VerdictView {
        match reply {
            Reply::Datagram(bytes) => VerdictView::Received(bytes@),
            Reply::SendFailed => VerdictView::GaveUp(Error::TrackerSocket),
            Reply::TimedOut | Reply::RecvFailed => if self.sends < MAX_SENDS {
                VerdictView::Resend(Retry { sends: (self.sends + 1) as u8 })
            } else {
                VerdictView::GaveUp(Error::TrackerNoResponse)
            },
        }
    }

    /// Takes what the transport reported for the last send, and says what
    /// follows.
    pub fn reply(self, reply: Reply) -> (verdict: Verdict)
        ensures
            verdict@ == self.spec_reply(reply),
    {
        match reply {
            Reply::Datagram(bytes) => Verdict::Received(bytes),
            Reply::SendFailed => Verdict::GaveUp(Error::TrackerSocket),
            Reply::TimedOut | Reply::RecvFailed => {
                if self.sends < MAX_SENDS {
                    Verdict::Resend(Retry { sends: self.sends + 1 })
                } else {
                    Verdict::GaveUp(Error::TrackerNoResponse)
                }
            },
        }
    }

    /// How the request fares when the sends bring `replies` in turn: the
    /// verdict that ends the waiting and the number of sends it took, or
    /// `None` while the replies ask for more.
    pub open spec fn spec_run(self, replies: Seq<Reply>) -> Option<(VerdictView, u8)>
        decreases replies.len(),
    {
        if replies.len() == 0 {
            None
        } else {
            match self.spec_reply(replies[0]) {
                VerdictView::Resend(next) => next.spec_run(replies.drop_first()),
                verdict => Some((verdict, self.sends)),
            }
        }
    }
}

/// The first reply that brings something decides, if it comes in time: when
/// reply `k` is the first that is not silence, and the request has not been
/// sent [`MAX_SENDS`] times before it, the waiting ends with the verdict on
/// that reply, after `k + 1` sends.
pub proof fn lemma_first_reply_decides(replies: Seq<Reply>, k: int)
    requires
        0 <= k < replies.len(),
        k < MAX_SENDS,
        forall|j: int| 0 <= j < k ==> spec_silent(#[trigger] replies[j]),
        !spec_silent(replies[k]),
    ensures
        Retry::spec_first().spec_run(replies) == Some(
            ((Retry { sends: (k + 1) as u8 }).spec_reply(replies[k]), (k + 1) as u8),
        ),
        replies[k] matches Reply::Datagram(bytes) ==> Retry::spec_first().spec_run(replies)
            == Some((VerdictView::Received(bytes@), (k + 1) as u8)),
{
    reveal_with_fuel(Retry::spec_run, 4);
}

/// A request is sent [`MAX_SENDS`] times and no more: when the first
/// `MAX_SENDS` replies are silence, the request is given up as unanswered
/// after that many sends, whatever comes later.
pub proof fn lemma_silence_gives_up(replies: Seq<Reply>)
    requires
        replies.len() >= MAX_SENDS,
        forall|j: int| 0 <= j < MAX_SENDS ==> spec_silent(#[trigger] replies[j]),
    ensures
        Retry::spec_first().spec_run(replies) == Some(
            (VerdictView::GaveUp(Error::TrackerNoResponse), MAX_SENDS),
        ),
{
    reveal_with_fuel(Retry::spec_run, 4);
}

} // verus!
