//! The life cycle of a peer: the requests it waits on, how it answers what
//! its transport brings in, and how it shuts down.
//!
//! [`PeerState`] decides; whoever drives a peer performs what it decides
//! (sending on the transport, waking the task that waits on a request,
//! running the registered handlers) and feeds back what happened. A waiter
//! `W` is whatever that driver wakes a waiting request with.

use vstd::prelude::*;

use std::collections::HashMap;
use vstd::std_specs::iter::IteratorSpec;

use crate::error::{PeerError, RequestError, TransportError};
use crate::json::json_text_of;
use crate::message::{payload_from, Message, MessageHead, Notification, Request, Response};

verus! {

broadcast use vstd::std_specs::hash::group_hash_axioms;

/// What the transport of a peer reports.
pub enum LinkEvent {
    /// A message came in.
    Message(Message),
    /// The transport closed.
    Closed,
    /// Some events were missed because the peer fell behind.
    Lagged,
}

/// What a peer does with what its transport reported.
pub enum PeerStep<W> {
    /// Answer this request: see [`plan_request`].
    HandleRequest(Request),
    /// Wake this waiter with the outcome of the request it waits on.
    Deliver(W, Result<serde_json::Value, PeerError>),
    /// A response came for no pending request; it carried this identifier.
    Unmatched(u64),
    /// Hand this notification to the notification handlers.
    HandleNotification(Notification),
    /// Nothing to do; keep listening.
    Continue,
    /// The peer has just closed: wake each of these waiters with
    /// [`PeerError::Closed`], run the close handlers, and stop listening.
    Shutdown(Vec<(u64, W)>),
    /// The peer was closed already: stop listening.
    Stop,
}

/// How to answer an incoming request.
pub enum RequestPlan {
    /// No handler is registered: send back this rejection.
    Reject(Message),
    /// Give this request to each registered handler.
    Dispatch(Request),
}

/// How the wait of a request of ours ended.
pub enum RequestProgress {
    /// The transport refused to send the request.
    SendFailed(TransportError),
    /// The waiter was woken with this outcome.
    Answered(Result<serde_json::Value, PeerError>),
    /// The waiter was dropped without being woken.
    Dropped,
    /// No outcome came in time.
    TimedOut,
}

/// The view of a [`PeerState`].
pub struct PeerView<W> {
    pub id: Seq<char>,
    pub closed: bool,
    /// The requests that wait for a response, by identifier.
    pub pending: Map<u64, W>,
}

/// The state of a peer.
pub struct PeerState<W> {
    id: String,
    closed: bool,
    pending: HashMap<u64, W>,
}

impl<W> View for PeerState<W> {
    type V = PeerView<W>;

    closed spec fn view(&self) -> PeerView<W> {
        PeerView { id: self.id@, closed: self.closed, pending: self.pending@ }
    }
}

/// The reason a rejection carries: the one the response gives, else
/// "Unknown error".
pub open spec fn rejection_reason(response: Response) -> Seq<char> {
    match response.error_reason {
        Some(reason) => reason@,
        None => "Unknown error"@,
    }
}

/// The code a rejection carries: the one the response gives, else 500.
pub open spec fn rejection_code(response: Response) -> u16 {
    match response.error_code {
        Some(code) => code,
        None => 500,
    }
}

/// Whether `outcome` is what a request gets back from `response`: its
/// payload when the response is a success, else a rejection with the
/// response's code and reason.
pub open spec fn is_outcome_of(
    response: Response,
    outcome: Result<serde_json::Value, PeerError>,
) -> bool {
    if response.ok {
        outcome == Ok::<serde_json::Value, PeerError>(response.data)
    } else {
        outcome matches Err(PeerError::Rejected(e)) && e.code == rejection_code(response)
            && e.reason@ == rejection_reason(response)
    }
}

/// Whether `drained` lists each entry of `pending` once, in some order.
pub open spec fn lists_entries<W>(drained: Seq<(u64, W)>, pending: Map<u64, W>) -> bool {
    &&& drained.len() == pending.len()
    &&& drained.map_values(|e: (u64, W)| e.0).no_duplicates()
    &&& drained.map_values(|e: (u64, W)| e.0).to_set() == pending.dom()
    &&& forall|i: int| 0 <= i < drained.len() ==> #[trigger] pending[drained[i].0] == drained[i].1
}

/// The outcome that `response` gives the request it answers.
pub fn response_outcome(response: Response) -> (outcome: Result<serde_json::Value, PeerError>)
    ensures
        is_outcome_of(response, outcome),
        response.ok ==> outcome == Ok::<serde_json::Value, PeerError>(response.data),
        !response.ok ==> (outcome matches Err(PeerError::Rejected(e)) && (response.error_code matches Some(
            c,
        ) ==> e.code == c) && (response.error_code is None ==> e.code == 500) && (
        response.error_reason matches Some(r) ==> e.reason@ == r@) && (response.error_reason is None
            ==> e.reason@ == "Unknown error"@)),
{
    if response.ok {
        Ok(response.data)
    } else {
        let code: u16 = match response.error_code {
            Some(code) => code,
            None => 500,
        };
        let reason = match response.error_reason {
            Some(reason) => reason,
            None => "Unknown error".to_string(),
        };
        Err(PeerError::Rejected(RequestError::new(code, reason)))
    }
}

/// How to answer `request` when `handlers` request handlers are registered:
/// with none, reject it with code 500; else hand it to each of them.
pub fn plan_request(request: Request, handlers: usize) -> (plan: RequestPlan)
    ensures
        handlers == 0 ==> (plan matches RequestPlan::Reject(m) && m.head() == (MessageHead::Response {
            flag: true,
            id: request.id,
            ok: false,
            error_code: Some(500u16),
            error_reason: Some("no request handler registered"@),
        }) && json_text_of(m.payload()) == "{}"@),
        handlers > 0 ==> plan == RequestPlan::Dispatch(request),
{
    if handlers == 0 {
        RequestPlan::Reject(
            Message::create_error_response(&request, 500, "no request handler registered".to_string()),
        )
    } else {
        RequestPlan::Dispatch(request)
    }
}

impl<W> PeerState<W> {
    /// A new open peer named `peer_id`, with no pending request.
    pub fn new(peer_id: String) -> (peer: Self)
        ensures
            peer@.id == peer_id@,
            !peer@.closed,
            peer@.pending == Map::<u64, W>::empty(),
    {
        PeerState { id: peer_id, closed: false, pending: HashMap::new() }
    }

    pub fn id(&self) -> (id: &String)
        ensures
            id@ == self@.id,
    {
        &self.id
    }

    pub fn closed(&self) -> (closed: bool)
        ensures
            closed == self@.closed,
    {
        self.closed
    }

    /// The number of requests that wait for a response.
    pub fn pending_len(&self) -> (len: usize)
        ensures
            len == self@.pending.len(),
    {
        self.pending.len()
    }

    /// The message of a new request for `method`, unless the peer is closed.
    /// Its identifier is random, unless that one is pending already: then it
    /// is the smallest identifier that is not, so that each pending request
    /// waits under its own identifier.
    pub fn prepare_request(&self, method: String, data: Option<serde_json::Value>) -> (message:
        Result<Message, PeerError>)
        ensures
            self@.closed ==> message matches Err(PeerError::Closed),
            !self@.closed ==> (message matches Ok(m) && m matches Message::Request(r) && r.request
                && r.method == method && 1 <= r.id <= 10_000_000 && payload_from(data, r.data)),
            !self@.closed && self@.pending.len() < 10_000_000 ==> (message matches Ok(
                Message::Request(r),
            ) && !self@.pending.contains_key(r.id)),
    {
        if self.closed {
            return Err(PeerError::Closed);
        }
        match Message::create_request(method, data) {
            Message::Request(mut r) => {
                if self.pending.len() < 10_000_000 && self.pending.contains_key(&r.id) {
                    r.id = self.free_id();
                }
                Ok(Message::Request(r))
            },
            other => Ok(other),
        }
    }

    /// The smallest positive identifier that no pending request has.
    fn free_id(&self) -> (id: u64)
        requires
            self@.pending.len() < 10_000_000,
        ensures
            1 <= id <= 10_000_000,
            !self@.pending.contains_key(id),
            forall|x: u64| 1 <= x < id ==> self@.pending.contains_key(x),
    {
        let mut id: u64 = 1;
        while self.pending.contains_key(&id)
            invariant
                self@.pending.len() < 10_000_000,
                1 <= id <= self@.pending.len() + 1,
                forall|x: u64| 1 <= x < id ==> self@.pending.contains_key(x),
            decreases self@.pending.len() + 1 - id,
        {
            proof {
                lemma_prefix_count(self@.pending.dom(), id);
            }
            id = id + 1;
        }
        id
    }

    /// The message of a new notification for `method`, unless the peer is
    /// closed.
    pub fn prepare_notification(&self, method: String, data: Option<serde_json::Value>) -> (message:
        Result<Message, TransportError>)
        ensures
            self@.closed ==> message matches Err(TransportError::Closed),
            !self@.closed ==> (message matches Ok(m) && m.head() == (MessageHead::Notification {
                flag: true,
                method: method@,
            }) && payload_from(data, m.payload())),
    {
        if self.closed {
            Err(TransportError::Closed)
        } else {
            Ok(Message::create_notification(method, data))
        }
    }

    /// Records that the request `request_id` waits with `waiter`. Gives the
    /// number of pending requests after that, and the waiter that this one
    /// displaced if the identifier was pending already.
    pub fn register_pending(&mut self, request_id: u64, waiter: W) -> (res: (usize, Option<W>))
        ensures
            final(self)@.pending == old(self)@.pending.insert(request_id, waiter),
            final(self)@.id == old(self)@.id,
            final(self)@.closed == old(self)@.closed,
            res.0 == final(self)@.pending.len(),
            closing_move(old(self)@, final(self)@, false),
            match res.1 {
                Some(w) => old(self)@.pending.contains_key(request_id) && w == old(self)@.pending[request_id],
                None => !old(self)@.pending.contains_key(request_id),
            },
    {
        let displaced = self.pending.insert(request_id, waiter);
        (self.pending.len(), displaced)
    }

    /// Stops waiting on the request `request_id`; gives its waiter if it was
    /// pending.
    pub fn remove_pending(&mut self, request_id: u64) -> (waiter: Option<W>)
        ensures
            closing_move(old(self)@, final(self)@, false),
            final(self)@.pending == old(self)@.pending.remove(request_id),
            final(self)@.id == old(self)@.id,
            final(self)@.closed == old(self)@.closed,
            match waiter {
                Some(w) => old(self)@.pending.contains_key(request_id) && w == old(self)@.pending[request_id],
                None => !old(self)@.pending.contains_key(request_id),
            },
    {
        self.pending.remove(&request_id)
    }

    /// Matches `response` with the request it answers.
    pub fn settle_response(&mut self, response: Response) -> (step: PeerStep<W>)
        ensures
            closing_move(old(self)@, final(self)@, false),
            final(self)@.pending == old(self)@.pending.remove(response.id),
            final(self)@.id == old(self)@.id,
            final(self)@.closed == old(self)@.closed,
            old(self)@.pending.contains_key(response.id) ==> (step matches PeerStep::Deliver(w, outcome)
                && w == old(self)@.pending[response.id] && is_outcome_of(response, outcome)),
            !old(self)@.pending.contains_key(response.id) ==> step == PeerStep::<W>::Unmatched(
                response.id,
            ),
    {
        let id: u64 = response.id;
        match self.remove_pending(id) {
            Some(waiter) => PeerStep::Deliver(waiter, response_outcome(response)),
            None => PeerStep::Unmatched(id),
        }
    }

    /// Closes the peer, unless it was closed already, and hands back every
    /// pending request with its waiter.
    pub fn shut_down(&mut self) -> (drained: Option<Vec<(u64, W)>>)
        ensures
            closing_move(old(self)@, final(self)@, drained is Some),
            old(self)@.closed ==> drained is None && final(self)@ == old(self)@,
            !old(self)@.closed ==> (drained matches Some(d) && lists_entries(d@, old(self)@.pending)),
            final(self)@.closed,
            final(self)@.id == old(self)@.id,
            !old(self)@.closed ==> final(self)@.pending == Map::<u64, W>::empty(),
    {
        if self.closed {
            return None;
        }
        self.closed = true;
        let ghost start = self.pending@;
        let ghost table = self.pending;
        let mut ids: Vec<u64> = Vec::new();
        for k in it: self.pending.keys()
            invariant
                it.seq() == vstd::std_specs::hash::spec_keys_iter(&table).remaining(),
                ids@ == it.seq().take(it.index()).map_values(|r: &u64| *r),
        {
            ids.push(*k);
        }
        proof {
            let all = vstd::std_specs::hash::spec_keys_iter(&table).remaining();
            assert(ids@ =~= all.map_values(|r: &u64| *r));
            assert(all.unref() =~= all.map_values(|r: &u64| *r));
        }
        let mut drained: Vec<(u64, W)> = Vec::new();
        let n: usize = ids.len();
        for i in 0..n
            invariant
                n == ids@.len(),
                self.closed,
                self.id@ == old(self)@.id,
                ids@.no_duplicates(),
                ids@.to_set() == start.dom(),
                drained@.len() == i,
                forall|j: int| 0 <= j < i ==> #[trigger] drained@[j].0 == ids@[j],
                forall|j: int| 0 <= j < i ==> start[ids@[j]] == #[trigger] drained@[j].1,
                forall|k: u64| #[trigger] self.pending@.contains_key(k) <==> (start.contains_key(k)
                    && !ids@.take(i as int).contains(k)),
                forall|k: u64| #[trigger] self.pending@.contains_key(k) ==> self.pending@[k] == start[k],
        {
            let id: u64 = ids[i];
            proof {
                assert(ids@.take(i + 1) =~= ids@.take(i as int).push(id));
                assert(ids@.to_set().contains(id));
                if ids@.take(i as int).contains(id) {
                    let j: int = choose|j: int| 0 <= j < i && ids@.take(i as int)[j] == id;
                    assert(ids@[j] == ids@[i as int]);
                }
            }
            let ghost before = self.pending@;
            let w = self.pending.remove(&id);
            match w {
                Some(w) => drained.push((id, w)),
                None => {},
            }
            proof {
                assert forall|k: u64| #[trigger] self.pending@.contains_key(k) <==> (start.contains_key(k)
                    && !ids@.take(i + 1).contains(k)) by {
                    vstd::seq_lib::lemma_seq_contains_after_push(ids@.take(i as int), id, k);
                    assert(self.pending@.contains_key(k) <==> (before.contains_key(k) && k != id));
                }
            }
        }
        proof {
            assert(drained@.map_values(|e: (u64, W)| e.0) =~= ids@);
            ids@.unique_seq_to_set();
            assert(self.pending@.dom() =~= Set::<u64>::empty()) by {
                assert(ids@.take(n as int) =~= ids@);
                assert forall|k: u64| !self.pending@.contains_key(k) by {
                    if start.contains_key(k) {
                        assert(ids@.to_set().contains(k));
                    }
                }
            }
            assert(self.pending@ =~= Map::<u64, W>::empty());
        }
        Some(drained)
    }

    /// Takes what the transport reported and says what to do.
    pub fn step(&mut self, event: LinkEvent) -> (step: PeerStep<W>)
        ensures
            closing_move(old(self)@, final(self)@, step is Shutdown),
            match event {
                LinkEvent::Message(Message::Request(r)) => final(self)@ == old(self)@ && step == PeerStep::<W>::HandleRequest(
                    Request { id: r.id, method: r.method, data: r.data },
                ),
                LinkEvent::Message(Message::Response(r)) => {
                    let response = Response {
                        id: r.id,
                        ok: r.ok,
                        data: r.data,
                        error_code: r.error_code,
                        error_reason: r.error_reason,
                    };
                    &&& final(self)@.pending == old(self)@.pending.remove(r.id)
                    &&& final(self)@.id == old(self)@.id
                    &&& final(self)@.closed == old(self)@.closed
                    &&& old(self)@.pending.contains_key(r.id) ==> (step matches PeerStep::Deliver(w, outcome)
                        && w == old(self)@.pending[r.id] && is_outcome_of(response, outcome))
                    &&& !old(self)@.pending.contains_key(r.id) ==> step == PeerStep::<W>::Unmatched(r.id)
                },
                LinkEvent::Message(Message::Notification(n)) => final(self)@ == old(self)@ && step
                    == PeerStep::<W>::HandleNotification(Notification { method: n.method, data: n.data }),
                LinkEvent::Lagged => final(self)@ == old(self)@ && step == PeerStep::<W>::Continue,
                LinkEvent::Closed => {
                    &&& final(self)@.closed
                    &&& final(self)@.id == old(self)@.id
                    &&& old(self)@.closed ==> final(self)@ == old(self)@ && step == PeerStep::<W>::Stop
                    &&& !old(self)@.closed ==> final(self)@.pending == Map::<u64, W>::empty()
                    &&& !old(self)@.closed ==> (step matches PeerStep::Shutdown(d) && lists_entries(d@, old(self)@.pending))
                },
            },
    {
        match event {
            LinkEvent::Message(message) => match message {
                Message::Request(r) => PeerStep::HandleRequest(
                    Request { id: r.id, method: r.method, data: r.data },
                ),
                Message::Response(r) => self.settle_response(
                    Response {
                        id: r.id,
                        ok: r.ok,
                        data: r.data,
                        error_code: r.error_code,
                        error_reason: r.error_reason,
                    },
                ),
                Message::Notification(n) => PeerStep::HandleNotification(
                    Notification { method: n.method, data: n.data },
                ),
            },
            LinkEvent::Lagged => PeerStep::Continue,
            LinkEvent::Closed => match self.shut_down() {
                Some(drained) => PeerStep::Shutdown(drained),
                None => PeerStep::Stop,
            },
        }
    }

    /// The outcome of our request `request_id`, given how its wait ended.
    /// Where no waiter was woken, the request stops being pending.
    pub fn finish_request(&mut self, request_id: u64, progress: RequestProgress) -> (outcome:
        Result<serde_json::Value, PeerError>)
        ensures
            closing_move(old(self)@, final(self)@, false),
            final(self)@.id == old(self)@.id,
            final(self)@.closed == old(self)@.closed,
            match progress {
                RequestProgress::SendFailed(e) => outcome == Err::<serde_json::Value, PeerError>(
                    PeerError::Transport(e),
                ) && final(self)@.pending == old(self)@.pending.remove(request_id),
                RequestProgress::Answered(r) => outcome == r && final(self)@ == old(self)@,
                RequestProgress::Dropped => outcome == Err::<serde_json::Value, PeerError>(
                    PeerError::Closed,
                ) && final(self)@ == old(self)@,
                RequestProgress::TimedOut => outcome == Err::<serde_json::Value, PeerError>(
                    PeerError::Timeout,
                ) && final(self)@.pending == old(self)@.pending.remove(request_id),
            },
    {
        match progress {
            RequestProgress::SendFailed(e) => {
                self.remove_pending(request_id);
                Err(PeerError::Transport(e))
            },
            RequestProgress::Answered(r) => r,
            RequestProgress::Dropped => Err(PeerError::Closed),
            RequestProgress::TimedOut => {
                self.remove_pending(request_id);
                Err(PeerError::Timeout)
            },
        }
    }
}

/// A response settles the request it answers once: once settled, that
/// request is no longer pending, so a second response with its identifier
/// finds nothing to settle.
pub proof fn lemma_response_settles_once<W>(before: PeerView<W>, after: PeerView<W>, id: u64)
    requires
        after.pending == before.pending.remove(id),
    ensures
        !after.pending.contains_key(id),
{
}

/// How one operation of a peer may change its closed flag: it closes the
/// peer, and fires the close handlers exactly when the peer was open before;
/// or it leaves the flag as it was and fires nothing.
pub open spec fn closing_move<W>(before: PeerView<W>, after: PeerView<W>, fired: bool) -> bool {
    ||| (after.closed && fired == !before.closed)
    ||| (after.closed == before.closed && !fired)
}

/// How many of the moves in `fired` fired the close handlers.
pub open spec fn times_fired(fired: Seq<bool>) -> nat
    decreases fired.len(),
{
    if fired.len() == 0 {
        0
    } else {
        times_fired(fired.drop_last()) + if fired.last() {
            1nat
        } else {
            0nat
        }
    }
}

/// Over any run of operations on a peer, in any interleaving of closes and
/// transport closures, the close handlers fire exactly once if the peer went
/// from open to closed, and never otherwise; and a closed peer stays closed.
pub proof fn lemma_close_fires_once<W>(states: Seq<PeerView<W>>, fired: Seq<bool>)
    requires
        states.len() == fired.len() + 1,
        forall|i: int| 0 <= i < fired.len() ==> closing_move(states[i], states[i + 1], #[trigger] fired[i]),
    ensures
        times_fired(fired) == (if !states[0].closed && states.last().closed {
            1nat
        } else {
            0nat
        }),
        forall|i: int, j: int| 0 <= i <= j < states.len() && #[trigger] states[i].closed ==> #[trigger] states[j].closed,
    decreases fired.len(),
{
    if fired.len() > 0 {
        let n: int = fired.len() as int;
        let shorter = states.drop_last();
        assert forall|i: int| 0 <= i < fired.drop_last().len() implies closing_move(
            shorter[i],
            shorter[i + 1],
            #[trigger] fired.drop_last()[i],
        ) by {
            assert(closing_move(states[i], states[i + 1], fired[i]));
        }
        lemma_close_fires_once(shorter, fired.drop_last());
        assert(closing_move(states[n - 1], states[n], fired[n - 1]));
        assert forall|i: int, j: int| 0 <= i <= j < states.len() && #[trigger] states[i].closed implies #[trigger] states[j].closed by {
            if j < n {
                assert(shorter[i].closed);
                assert(shorter[j].closed);
            } else if i < n {
                assert(shorter[i].closed);
                assert(shorter[n - 1].closed);
                assert(states[n - 1].closed);
            }
        }
    }
}

/// A finite set that holds every identifier from 1 to `k` has at least `k`
/// elements.
proof fn lemma_prefix_count(ids: Set<u64>, k: u64)
    requires
        ids.finite(),
        forall|x: u64| 1 <= x <= k ==> ids.contains(x),
    ensures
        ids.len() >= k,
    decreases k,
{
    if k > 0 {
        let rest = ids.remove(k);
        assert forall|x: u64| 1 <= x <= (k - 1) as u64 implies rest.contains(x) by {
            assert(ids.contains(x));
        }
        lemma_prefix_count(rest, (k - 1) as u64);
        assert(ids.contains(k));
    }
}

/// A rejection carries the code of the response it comes from, and 500
/// only when the response gives none; likewise its reason, with "Unknown
/// error" only when the response gives none.
pub proof fn lemma_rejection_keeps_code_and_reason(response: Response)
    ensures
        response.error_code matches Some(c) ==> rejection_code(response) == c,
        response.error_code is None ==> rejection_code(response) == 500,
        response.error_reason matches Some(r) ==> rejection_reason(response) == r@,
        response.error_reason is None ==> rejection_reason(response) == "Unknown error"@,
{
}

/// Whatever a success response or a rejection carries reaches the request:
/// a success gives its payload, a rejection its own code when it has one.
pub proof fn lemma_outcome_of_response(
    response: Response,
    outcome: Result<serde_json::Value, PeerError>,
)
    requires
        is_outcome_of(response, outcome),
    ensures
        response.ok ==> outcome == Ok::<serde_json::Value, PeerError>(response.data),
        !response.ok && response.error_code is Some ==> (outcome matches Err(PeerError::Rejected(e))
            && Some(e.code) == response.error_code),
{
}

} // verus!
