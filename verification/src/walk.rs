//! Finding a tracker that answers, among candidate hosts.
//!
//! The candidates are tried in the order given. A candidate is resolved to
//! socket addresses, and each address is tried in turn: a socket is opened
//! towards it and the connect handshake run. The first address whose
//! handshake succeeds ends the walk. A candidate that does not resolve, an
//! address that cannot be reached and a handshake that fails each move the
//! walk on; it fails only when nothing is left to try.
//!
//! The caller resolves, opens and runs the handshake; each value of
//! [`Connect`] says which of these is due, and the caller answers it through
//! the state that the value carries.

use crate::error::Error;
use crate::peer::SocketAddress;
use crate::tracker::Tracker;
use vstd::prelude::*;

verus! {

/// A candidate that is due to be resolved.
#[derive(Debug, Clone, Copy, PartialEq, Eq, Structural)]
pub struct Resolving {
    /// How many candidates there are.
    pub candidates: usize,
    /// The index of the candidate to resolve.
    pub candidate: usize,
}

/// An address that is due to be tried.
#[derive(Debug, PartialEq, Eq)]
pub struct Attempting {
    /// How many candidates there are.
    pub candidates: usize,
    /// The index of the candidate that resolved to this address.
    pub candidate: usize,
    /// The address to try.
    pub remote: SocketAddress,
    /// The addresses of the same candidate that come after it.
    pub rest: Vec<SocketAddress>,
}

/// What is due next in the search for a tracker.
#[derive(Debug, PartialEq, Eq)]
pub enum Connect {
    /// Resolve a candidate, and answer with [`Resolving::resolved`] or
    /// [`Resolving::failed`].
    Resolve(Resolving),
    /// Open a socket towards an address, run the handshake on it, and answer
    /// with [`Attempting::finished`].
    Attempt(Attempting),
    /// The search is over: this session is connected.
    Done(Tracker),
    /// The search is over: nothing is left to try.
    Fail(Error),
}

/// An [`Attempting`] with its addresses as a sequence.
pub struct AttemptingView {
    pub candidates: usize,
    pub candidate: usize,
    pub remote: SocketAddress,
    pub rest: Seq<SocketAddress>,
}

/// A [`Connect`] with its addresses as a sequence.
pub enum ConnectView {
    Resolve(Resolving),
    Attempt(AttemptingView),
    Done(Tracker),
    Fail(Error),
}

impl View for Attempting {
    type V = AttemptingView;

    open spec fn view(&self) -> AttemptingView {
        AttemptingView {
            candidates: self.candidates,
            candidate: self.candidate,
            remote: self.remote,
            rest: self.rest@,
        }
    }
}

impl View for Connect {
    type V = ConnectView;

    open spec fn view(&self) -> ConnectView {
        match self {
            Connect::Resolve(resolving) => ConnectView::Resolve(*resolving),
            Connect::Attempt(attempting) => ConnectView::Attempt(attempting@),
            Connect::Done(tracker) => ConnectView::Done(*tracker),
            Connect::Fail(e) => ConnectView::Fail(*e),
        }
    }
}

/// What is due at the start of a search among `candidates` hosts.
pub open spec fn spec_start(candidates: usize) -> ConnectView {
    if candidates > 0 {
        ConnectView::Resolve(Resolving { candidates, candidate: 0 })
    } else {
        ConnectView::Fail(Error::TrackerNoHosts)
    }
}

/// What is due when the addresses `addrs` of candidate `candidate` are left
/// to try: the first of them; with none left, the next candidate; after the
/// last candidate, failure.
pub open spec fn spec_next_address(
    candidates: usize,
    candidate: usize,
    addrs: Seq<SocketAddress>,
) -> ConnectView {
    if addrs.len() > 0 {
        ConnectView::Attempt(
            AttemptingView { candidates, candidate, remote: addrs[0], rest: addrs.drop_first() },
        )
    } else if candidate + 1 < candidates {
        ConnectView::Resolve(Resolving { candidates, candidate: (candidate + 1) as usize })
    } else {
        ConnectView::Fail(Error::TrackerNoHosts)
    }
}

/// Whether an attempt ended with a session that can be used: one was
/// opened, and its handshake gave it a connection id.
pub open spec fn spec_usable(session: Option<Tracker>) -> bool {
    session matches Some(tracker) && tracker.ctx.connection_id is Some
}

/// What is due when the attempt `attempting` ended with `session`: nothing
/// more if the session can be used, else whatever comes after the address.
pub open spec fn spec_finished(attempting: AttemptingView, session: Option<Tracker>) -> ConnectView {
    if spec_usable(session) {
        ConnectView::Done(session.unwrap())
    } else {
        spec_next_address(attempting.candidates, attempting.candidate, attempting.rest)
    }
}

/// What is due when the addresses `addrs` of candidate `candidate` are left
/// to try.
fn next_address(candidates: usize, candidate: usize, addrs: Vec<SocketAddress>) -> (next: Connect)
    ensures
        next@ == spec_next_address(candidates, candidate, addrs@),
{
    let mut rest = addrs;
    if rest.len() > 0 {
        let remote = rest.remove(0);
        Connect::Attempt(Attempting { candidates, candidate, remote, rest })
    } else if candidates > 0 && candidate < candidates - 1 {
        Connect::Resolve(Resolving { candidates, candidate: candidate + 1 })
    } else {
        Connect::Fail(Error::TrackerNoHosts)
    }
}

impl Resolving {
    /// The candidate resolved to `addrs`: the first of them is tried next.
    /// A candidate that resolved to no address is passed over.
    pub fn resolved(self, addrs: Vec<SocketAddress>) -> (next: Connect)
        ensures
            next@ == spec_next_address(self.candidates, self.candidate, addrs@),
    {
        next_address(self.candidates, self.candidate, addrs)
    }

    /// The candidate did not resolve: it is passed over.
    pub fn failed(self) -> (next: Connect)
        ensures
            next@ == spec_next_address(self.candidates, self.candidate, Seq::empty()),
    {
        next_address(self.candidates, self.candidate, Vec::new())
    }
}

impl Attempting {
    /// The attempt on this address is over. `session` is the session that
    /// was opened and taken through the handshake, or `None` if no socket
    /// could be opened.
    ///
    /// A session that holds a connection id ends the search. Otherwise the
    /// next address of the candidate is tried, then the next candidate.
    pub fn finished(self, session: Option<Tracker>) -> (next: Connect)
        ensures
            next@ == spec_finished(self@, session),
    {
        match session {
            Some(tracker) => {
                if tracker.ctx.connection_id.is_some() {
                    return Connect::Done(tracker);
                }
            },
            None => {},
        }
        next_address(self.candidates, self.candidate, self.rest)
    }
}

/// What trying one address comes to: the session that was opened and taken
/// through the handshake, if a socket could be opened.
pub struct Trial {
    pub addr: SocketAddress,
    pub session: Option<Tracker>,
}

/// The addresses of `trials`, in order.
pub open spec fn spec_addrs(trials: Seq<Trial>) -> Seq<SocketAddress> {
    Seq::new(trials.len(), |k: int| trials[k].addr)
}

/// The index of the candidate that `state` is about, or the number of
/// candidates once the search is over.
pub open spec fn spec_candidate(state: ConnectView, candidates: nat) -> int {
    match state {
        ConnectView::Resolve(resolving) => resolving.candidate as int,
        ConnectView::Attempt(attempting) => attempting.candidate as int,
        _ => candidates as int,
    }
}

/// How many answers `state` may still take before its candidate is done
/// with.
pub open spec fn spec_answers_left(state: ConnectView, script: Seq<Option<Seq<Trial>>>) -> nat {
    match state {
        ConnectView::Resolve(resolving) => if resolving.candidate < script.len() {
            match script[resolving.candidate as int] {
                Some(trials) => trials.len() + 1,
                None => 1,
            }
        } else {
            0
        },
        ConnectView::Attempt(attempting) => attempting.rest.len() + 1,
        _ => 0,
    }
}

/// Where the search ends from `state` when the hosts behave as `script`
/// says: candidate `i` does not resolve where `script[i]` is `None`, and
/// else resolves to the addresses of `script[i]`, each of which, when
/// tried, comes to the session beside it.
///
/// Each state is answered as its variant of [`Connect`] asks, with what the
/// script holds for it.
pub open spec fn spec_walk(state: ConnectView, script: Seq<Option<Seq<Trial>>>) -> Result<
    Tracker,
    Error,
>
    decreases script.len() - spec_candidate(state, script.len()), spec_answers_left(state, script),
{
    match state {
        ConnectView::Done(tracker) => Ok(tracker),
        ConnectView::Fail(e) => Err(e),
        ConnectView::Resolve(resolving) => {
            if resolving.candidates == script.len() && resolving.candidate < script.len() {
                let addrs = match script[resolving.candidate as int] {
                    Some(trials) => spec_addrs(trials),
                    None => Seq::empty(),
                };
                spec_walk(
                    spec_next_address(resolving.candidates, resolving.candidate, addrs),
                    script,
                )
            } else {
                Err(Error::TrackerNoHosts)
            }
        },
        ConnectView::Attempt(attempting) => {
            if attempting.candidates == script.len() && attempting.candidate < script.len() {
                match script[attempting.candidate as int] {
                    Some(trials) => if attempting.rest.len() < trials.len() {
                        let k = trials.len() - 1 - attempting.rest.len();
                        spec_walk(spec_finished(attempting, trials[k].session), script)
                    } else {
                        Err(Error::TrackerNoHosts)
                    },
                    None => Err(Error::TrackerNoHosts),
                }
            } else {
                Err(Error::TrackerNoHosts)
            }
        },
    }
}

/// Whether `script` holds a trial `k` for candidate `i`.
pub open spec fn spec_has_trial(script: Seq<Option<Seq<Trial>>>, i: int, k: int) -> bool {
    &&& 0 <= i < script.len()
    &&& script[i] matches Some(trials)
    &&& 0 <= k < trials.len()
}

/// Whether trial `k` of candidate `i` in `script` ends with a session that
/// can be used.
pub open spec fn spec_succeeds(script: Seq<Option<Seq<Trial>>>, i: int, k: int) -> bool {
    spec_has_trial(script, i, k) && spec_usable(script[i].unwrap()[k].session)
}

/// Whether trial `k` of candidate `i` comes before trial `l` of candidate
/// `j` in the order of the search.
pub open spec fn spec_before(i: int, k: int, j: int, l: int) -> bool {
    i < j || (i == j && k < l)
}

/// Whether `end` is where a search over `script` must end: with the session
/// of the first trial that succeeds, in the order of the search, or in
/// failure where no trial succeeds.
pub open spec fn spec_first_wins(
    end: Result<Tracker, Error>,
    script: Seq<Option<Seq<Trial>>>,
) -> bool {
    match end {
        Ok(tracker) => exists|i: int, k: int|
            {
                &&& #[trigger] spec_succeeds(script, i, k)
                &&& script[i].unwrap()[k].session == Some(tracker)
                &&& forall|j: int, l: int|
                    spec_before(j, l, i, k) ==> !#[trigger] spec_succeeds(script, j, l)
            },
        Err(e) => {
            &&& e == Error::TrackerNoHosts
            &&& forall|j: int, l: int| !#[trigger] spec_succeeds(script, j, l)
        },
    }
}

/// Whether `state` is what is due when the search over `script` has come
/// to trial `k` of candidate `i`.
spec fn spec_at(state: ConnectView, script: Seq<Option<Seq<Trial>>>, i: int, k: int) -> bool {
    match state {
        ConnectView::Resolve(resolving) => {
            &&& resolving.candidates == script.len()
            &&& resolving.candidate == i
            &&& i < script.len()
            &&& k == 0
        },
        ConnectView::Attempt(attempting) => {
            &&& attempting.candidates == script.len()
            &&& attempting.candidate == i
            &&& spec_has_trial(script, i, k)
            &&& attempting.remote == script[i].unwrap()[k].addr
            &&& attempting.rest == spec_addrs(script[i].unwrap()).subrange(
                k + 1,
                script[i].unwrap().len() as int,
            )
        },
        _ => false,
    }
}

/// From a state that the search has come to without a success so far, the
/// search ends as [`spec_first_wins`] says.
proof fn lemma_walk_from(state: ConnectView, script: Seq<Option<Seq<Trial>>>, i: int, k: int)
    requires
        spec_at(state, script, i, k),
        forall|j: int, l: int| spec_before(j, l, i, k) ==> !#[trigger] spec_succeeds(script, j, l),
    ensures
        spec_first_wins(spec_walk(state, script), script),
    decreases script.len() - spec_candidate(state, script.len()), spec_answers_left(state, script),
{
    match state {
        ConnectView::Resolve(resolving) => {
            let addrs = match script[i] {
                Some(trials) => spec_addrs(trials),
                None => Seq::empty(),
            };
            let next = spec_next_address(resolving.candidates, resolving.candidate, addrs);
            if addrs.len() > 0 {
                lemma_walk_from(next, script, i, 0);
            } else {
                lemma_walk_past(script, i, next);
            }
        },
        ConnectView::Attempt(attempting) => {
            let trials = script[i].unwrap();
            let next = spec_finished(attempting, trials[k].session);
            assert(spec_walk(state, script) == spec_walk(next, script));
            if spec_usable(trials[k].session) {
                assert(spec_succeeds(script, i, k));
            } else if attempting.rest.len() > 0 {
                assert(attempting.rest.drop_first() =~= spec_addrs(trials).subrange(
                    k + 2,
                    trials.len() as int,
                ));
                lemma_walk_from(next, script, i, k + 1);
            } else {
                lemma_walk_past(script, i, next);
            }
        },
        _ => {},
    }
}

/// The same, for the state that follows the last trial of candidate `i`.
proof fn lemma_walk_past(script: Seq<Option<Seq<Trial>>>, i: int, next: ConnectView)
    requires
        0 <= i < script.len() <= usize::MAX,
        next == spec_next_address(script.len() as usize, i as usize, Seq::empty()),
        forall|j: int, l: int| j <= i ==> !#[trigger] spec_succeeds(script, j, l),
    ensures
        spec_first_wins(spec_walk(next, script), script),
    decreases script.len() - i, 0nat,
{
    if i + 1 < script.len() {
        lemma_walk_from(next, script, i + 1, 0);
    }
}

/// The first address whose handshake succeeds becomes the session, and the
/// search fails only where none does: whatever the candidates resolve to
/// and whatever comes of trying their addresses, a search that is answered
/// accordingly ends with the session of the first trial that yields a
/// connected session, in the order of the candidates and of their
/// addresses, and in [`Error::TrackerNoHosts`] where no trial does.
pub proof fn lemma_first_usable_session_wins(script: Seq<Option<Seq<Trial>>>)
    requires
        script.len() <= usize::MAX,
    ensures
        spec_first_wins(spec_walk(spec_start(script.len() as usize), script), script),
{
    if script.len() > 0 {
        lemma_walk_from(spec_start(script.len() as usize), script, 0, 0);
    }
}

} // verus!
