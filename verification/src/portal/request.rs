//! The legal order of one portal request: subscribe, send, verify the returned
//! handle, then either take the response or close the request.

use vstd::prelude::*;
use super::contract::Failure;

verus! {

/// States of a single portal request.
#[derive(Clone, Copy, Debug, PartialEq, Eq, Structural)]
pub enum RequestState {
    Prepared,
    Subscribed,
    Requested,
    HandleVerified,
    Responded,
    Closed,
}

/// The completions a request can report, one per machine method.
#[derive(Clone, Copy, Debug, PartialEq, Eq, Structural)]
pub enum RequestEvent {
    Subscribe,
    Request,
    VerifyHandle,
    Respond,
    Close,
}

/// The state each event must start from.
pub open spec fn event_source(e: RequestEvent) -> RequestState {
    match e {
        RequestEvent::Subscribe => RequestState::Prepared,
        RequestEvent::Request => RequestState::Subscribed,
        RequestEvent::VerifyHandle => RequestState::Requested,
        RequestEvent::Respond => RequestState::HandleVerified,
        RequestEvent::Close => RequestState::HandleVerified,
    }
}

/// The state each event leads to.
pub open spec fn event_target(e: RequestEvent) -> RequestState {
    match e {
        RequestEvent::Subscribe => RequestState::Subscribed,
        RequestEvent::Request => RequestState::Requested,
        RequestEvent::VerifyHandle => RequestState::HandleVerified,
        RequestEvent::Respond => RequestState::Responded,
        RequestEvent::Close => RequestState::Closed,
    }
}

/// One step: the event is accepted only from its source state.
pub open spec fn step(s: RequestState, e: RequestEvent) -> Option<RequestState> {
    if s == event_source(e) { Some(event_target(e)) } else { None }
}

/// A request machine bound to the stage that it reports failures under.
#[derive(Clone, Copy, Debug, PartialEq, Eq)]
pub struct RequestMachine {
    pub state: RequestState,
    pub stage: &'static str,
}

/// Whether `r` is the protocol failure of `stage`.
pub open spec fn is_protocol_failure(r: Result<(), Failure>, stage: &'static str) -> bool {
    r matches Err(f) && f.code@ == "PORTAL_PROTOCOL_ERROR"@ && f.stage == stage
}

/// What applying `e` does to a machine: the new state on success, the
/// unchanged state and a protocol failure otherwise.
pub open spec fn applied(old: RequestMachine, new: RequestMachine, e: RequestEvent, r: Result<(), Failure>) -> bool {
    &&& new.stage == old.stage
    &&& match step(old.state, e) {
        Some(t) => r is Ok && new.state == t,
        None => is_protocol_failure(r, old.stage) && new.state == old.state,
    }
}

impl RequestMachine {
    /// A machine that has prepared its request token and nothing more.
    pub fn new(stage: &'static str) -> (r: Self)
        ensures
            r.state == RequestState::Prepared,
            r.stage == stage,
    {
        RequestMachine { state: RequestState::Prepared, stage }
    }

    /// Moves from `expected` to `next`, or fails without moving.
    pub fn transition(&mut self, expected: RequestState, next: RequestState) -> (r: Result<(), Failure>)
        ensures
            final(self).stage == old(self).stage,
            old(self).state == expected ==> r is Ok && final(self).state == next,
            old(self).state != expected ==> is_protocol_failure(r, old(self).stage)
                && final(self).state == old(self).state,
    {
        if self.state != expected {
            return Err(Failure::new("PORTAL_PROTOCOL_ERROR", self.stage));
        }
        self.state = next;
        Ok(())
    }

    /// The response signal was subscribed before the call.
    pub fn subscribed(&mut self) -> (r: Result<(), Failure>)
        ensures
            applied(*old(self), *final(self), RequestEvent::Subscribe, r),
    {
        self.transition(RequestState::Prepared, RequestState::Subscribed)
    }

    /// The portal method was called.
    pub fn requested(&mut self) -> (r: Result<(), Failure>)
        ensures
            applied(*old(self), *final(self), RequestEvent::Request, r),
    {
        self.transition(RequestState::Subscribed, RequestState::Requested)
    }

    /// The returned request handle matched the expected path.
    pub fn handle_verified(&mut self) -> (r: Result<(), Failure>)
        ensures
            applied(*old(self), *final(self), RequestEvent::VerifyHandle, r),
    {
        self.transition(RequestState::Requested, RequestState::HandleVerified)
    }

    /// The response signal arrived.
    pub fn responded(&mut self) -> (r: Result<(), Failure>)
        ensures
            applied(*old(self), *final(self), RequestEvent::Respond, r),
    {
        self.transition(RequestState::HandleVerified, RequestState::Responded)
    }

    /// The request was closed before any response.
    pub fn closed(&mut self) -> (r: Result<(), Failure>)
        ensures
            applied(*old(self), *final(self), RequestEvent::Close, r),
    {
        self.transition(RequestState::HandleVerified, RequestState::Closed)
    }
}

/// How waiting for a request's response ended.
pub enum ResponseWait {
    /// No time was left to wait: the deadline's failure.
    NoBudget(Failure),
    /// The response arrived; its numeric code, or `None` when its body did not decode.
    Response(Option<u32>),
    /// The portal's bus owner changed while waiting.
    OwnerChanged,
    /// The deadline passed while waiting.
    Timeout,
}

impl RequestMachine {
    /// Checks the request handle the portal returned against the expected
    /// path. A mismatch is a protocol failure and the returned request is to
    /// be closed; a match moves the request to its verified handle.
    pub fn accept_returned_handle(&mut self, returned: &str, expected: &str) -> (r: Result<(), Failure>)
        ensures
            final(self).stage == old(self).stage,
            returned@ != expected@ ==> is_protocol_failure(r, old(self).stage) && final(self).state == old(self).state,
            returned@ == expected@ ==> applied(*old(self), *final(self), RequestEvent::VerifyHandle, r),
    {
        if !crate::text::str_eq(returned, expected) {
            return Err(Failure::new("PORTAL_PROTOCOL_ERROR", self.stage));
        }
        self.handle_verified()
    }

    /// Concludes a verified request from how the wait ended. Returns the
    /// request's result and whether the expected request is to be closed: it
    /// is when no budget was left or the wait timed out, and then the request
    /// is closed before the failure is reported; an owner change disconnects;
    /// an undecodable response is a protocol failure; a decoded response is
    /// taken and its code decides.
    pub fn conclude(&mut self, outcome: ResponseWait) -> (r: (Result<(), Failure>, bool))
        requires
            old(self).state == RequestState::HandleVerified,
        ensures
            final(self).stage == old(self).stage,
            match outcome {
                ResponseWait::NoBudget(f) => r.1 && r.0 == Err::<(), Failure>(f)
                    && final(self).state == RequestState::Closed,
                ResponseWait::Timeout => r.1 && final(self).state == RequestState::Closed
                    && (r.0 matches Err(f) && f.code@ == "TIMEOUT"@ && f.stage == old(self).stage),
                ResponseWait::OwnerChanged => !r.1 && final(self).state == old(self).state
                    && (r.0 matches Err(f) && f.code@ == "PORTAL_OWNER_DISCONNECTED"@ && f.stage == old(self).stage),
                ResponseWait::Response(None) => !r.1 && final(self).state == old(self).state
                    && is_protocol_failure(r.0, old(self).stage),
                ResponseWait::Response(Some(code)) => !r.1 && final(self).state == RequestState::Responded
                    && (code == 0 <==> r.0 is Ok)
                    && (r.0 matches Err(f) ==> f.stage == old(self).stage && f.code@ == (if code == 1 {
                        "PORTAL_CANCELLED"@
                    } else if code == 2 {
                        "PORTAL_DISMISSED"@
                    } else {
                        "PORTAL_PROTOCOL_ERROR"@
                    })),
            },
    {
        match outcome {
            ResponseWait::NoBudget(f) => {
                let _ = self.closed();
                (Err(f), true)
            },
            ResponseWait::Timeout => {
                let _ = self.closed();
                (Err(Failure::new("TIMEOUT", self.stage)), true)
            },
            ResponseWait::OwnerChanged => (Err(Failure::new("PORTAL_OWNER_DISCONNECTED", self.stage)), false),
            ResponseWait::Response(None) => (Err(Failure::new("PORTAL_PROTOCOL_ERROR", self.stage)), false),
            ResponseWait::Response(Some(code)) => {
                let _ = self.responded();
                (crate::portal::start::response_outcome(code, self.stage), false)
            },
        }
    }
}

/// The state after a sequence of events; rejected events change nothing.
pub open spec fn run(s: RequestState, events: Seq<RequestEvent>) -> RequestState
    decreases events.len(),
{
    if events.len() == 0 {
        s
    } else {
        match step(s, events[0]) {
            Some(t) => run(t, events.drop_first()),
            None => run(s, events.drop_first()),
        }
    }
}

/// The events of a sequence that the machine accepted, in order.
pub open spec fn accepted(s: RequestState, events: Seq<RequestEvent>) -> Seq<RequestEvent>
    decreases events.len(),
{
    if events.len() == 0 {
        Seq::empty()
    } else {
        match step(s, events[0]) {
            Some(t) => seq![events[0]] + accepted(t, events.drop_first()),
            None => accepted(s, events.drop_first()),
        }
    }
}

/// Position of a state along the request order.
pub open spec fn rank(s: RequestState) -> nat {
    match s {
        RequestState::Prepared => 0,
        RequestState::Subscribed => 1,
        RequestState::Requested => 2,
        RequestState::HandleVerified => 3,
        RequestState::Responded => 4,
        RequestState::Closed => 4,
    }
}

/// The only chain of accepted events that leads from `s` to `t`.
pub open spec fn chain(s: RequestState, t: RequestState) -> Seq<RequestEvent>
    decreases 4 - rank(s),
{
    if s == t {
        Seq::empty()
    } else {
        match s {
            RequestState::Prepared => seq![RequestEvent::Subscribe] + chain(RequestState::Subscribed, t),
            RequestState::Subscribed => seq![RequestEvent::Request] + chain(RequestState::Requested, t),
            RequestState::Requested => seq![RequestEvent::VerifyHandle] + chain(RequestState::HandleVerified, t),
            RequestState::HandleVerified => if t == RequestState::Responded {
                seq![RequestEvent::Respond]
            } else {
                seq![RequestEvent::Close]
            },
            _ => Seq::empty(),
        }
    }
}

proof fn lemma_accepted_is_chain(s: RequestState, events: Seq<RequestEvent>)
    ensures
        s == run(s, events) || rank(s) < rank(run(s, events)),
        accepted(s, events) == chain(s, run(s, events)),
    decreases events.len(),
{
    if events.len() > 0 {
        let rest = events.drop_first();
        match step(s, events[0]) {
            Some(t) => {
                lemma_accepted_is_chain(t, rest);
                let u = run(t, rest);
                assert(rank(s) < rank(t));
                if t == RequestState::Responded || t == RequestState::Closed {
                    assert(run(t, rest) == t) by { lemma_terminal_run(t, rest); }
                }
                assert(s != u);
                assert(accepted(s, events) =~= seq![events[0]] + chain(t, u));
            }
            None => {
                lemma_accepted_is_chain(s, rest);
            }
        }
    }
}

proof fn lemma_terminal_run(t: RequestState, events: Seq<RequestEvent>)
    requires
        t == RequestState::Responded || t == RequestState::Closed,
    ensures
        run(t, events) == t,
        accepted(t, events) == Seq::<RequestEvent>::empty(),
    decreases events.len(),
{
    if events.len() > 0 {
        lemma_terminal_run(t, events.drop_first());
    }
}

/// Once a request has responded or been closed, no event is accepted any more.
pub proof fn lemma_terminal_states_absorb(t: RequestState, events: Seq<RequestEvent>)
    requires
        t == RequestState::Responded || t == RequestState::Closed,
    ensures
        run(t, events) == t,
        accepted(t, events).len() == 0,
{
    lemma_terminal_run(t, events);
}

/// Whatever order the completions arrive in, a fresh request ends up responded
/// only if it accepted exactly subscribe, request, handle check and response,
/// in that order; likewise a closed request accepted exactly subscribe,
/// request, handle check and close.
pub proof fn lemma_response_requires_full_order(events: Seq<RequestEvent>)
    ensures
        run(RequestState::Prepared, events) == RequestState::Responded ==>
            accepted(RequestState::Prepared, events) == seq![
                RequestEvent::Subscribe,
                RequestEvent::Request,
                RequestEvent::VerifyHandle,
                RequestEvent::Respond,
            ],
        run(RequestState::Prepared, events) == RequestState::Closed ==>
            accepted(RequestState::Prepared, events) == seq![
                RequestEvent::Subscribe,
                RequestEvent::Request,
                RequestEvent::VerifyHandle,
                RequestEvent::Close,
            ],
{
    lemma_accepted_is_chain(RequestState::Prepared, events);
    let c = chain(RequestState::Prepared, RequestState::Responded);
    assert(chain(RequestState::HandleVerified, RequestState::Responded) =~= seq![RequestEvent::Respond]);
    assert(chain(RequestState::Requested, RequestState::Responded) =~= seq![RequestEvent::VerifyHandle, RequestEvent::Respond]);
    assert(chain(RequestState::Subscribed, RequestState::Responded) =~= seq![RequestEvent::Request, RequestEvent::VerifyHandle, RequestEvent::Respond]);
    assert(c =~= seq![RequestEvent::Subscribe, RequestEvent::Request, RequestEvent::VerifyHandle, RequestEvent::Respond]);
    assert(chain(RequestState::HandleVerified, RequestState::Closed) =~= seq![RequestEvent::Close]);
    assert(chain(RequestState::Requested, RequestState::Closed) =~= seq![RequestEvent::VerifyHandle, RequestEvent::Close]);
    assert(chain(RequestState::Subscribed, RequestState::Closed) =~= seq![RequestEvent::Request, RequestEvent::VerifyHandle, RequestEvent::Close]);
    assert(chain(RequestState::Prepared, RequestState::Closed) =~= seq![RequestEvent::Subscribe, RequestEvent::Request, RequestEvent::VerifyHandle, RequestEvent::Close]);
}

} // verus!
