//! The exchange as a state machine: the transport performs each action and
//! reports what it produced; the machine decides what comes next.

use vstd::prelude::*;
use crate::broker::protocol::{broker_unavailable, is_command, is_token, is_token_text, protocol_failure_text};
use crate::broker::request::{BrowserSessionBrokerRequestFrame, BrowserSessionExchange, build_request_frame,
    build_failure, exchange_operation, semantic_fingerprint_of,
    request_text};
use crate::broker::response::{BrowserSessionBrokerResponse, binds, outcome_unknown_message, safety_details,
    post_dispatch_outcome_unknown, response_binds};
use crate::error::{AppControlError, plain_error};
use crate::ipc::write::{BoundedTextWriteAttempt, BoundedTextWriteFailure};
use crate::text::str_eq;

verus! {

/// Starts the exchange of `command`: the machine and its first action.
pub fn exchange_request<'a>(command: BrowserSessionExchange<'a>) -> (r: (ExchangeMachine<'a>, ExchangeAction))
    ensures
        r.0.inv(),
        r.0.command == command,
        r.0.phase == ExchangePhase::Connect,
        !r.0.recovering,
        r.0.nonce is None,
        r.1 is ConnectCertified,
{
    (ExchangeMachine::new(command), ExchangeAction::ConnectCertified)
}

/// Where the exchange stands.
#[derive(Clone, Copy, Debug, PartialEq, Eq, Structural)]
pub enum ExchangePhase {
    /// Waiting for a certified connection.
    Connect,
    /// Waiting for the connection's ready frame.
    ReadReady,
    /// Waiting for the request nonce, drawn once after the first ready frame.
    GenerateNonce,
    /// Waiting for the budget of the next write attempt.
    Budget,
    /// Waiting for the outcome of a write attempt.
    Write,
    /// Waiting for the first frame after a write: accepted or final.
    ReadFirst,
    /// Waiting for the final that follows an accepted frame.
    ReadFinal,
    /// Waiting out back-pressure before rebuilding the frame.
    BackoffRetryWrite,
    /// Back-pressure outlasted the deadline before any delivery: waiting for
    /// the budget check that names the error.
    FinalBudget,
    /// Waiting before reconnecting to recover a possibly delivered request.
    BackoffReconnect,
    /// The exchange has ended.
    Finished,
}

/// What the transport reports back.
pub enum ExchangeEvent {
    Connected,
    ConnectFailed(AppControlError),
    ReadyEpoch(String),
    ReadyFailed(AppControlError),
    NonceGenerated(String),
    NonceFailed(AppControlError),
    Budget(Result<u32, AppControlError>),
    WriteResult(Result<BoundedTextWriteAttempt, BoundedTextWriteFailure>),
    /// A frame that was read and decoded; `None` when reading or decoding failed.
    FrameRead(Option<BrowserSessionBrokerResponse>),
    /// Whether a bounded pause happened before the deadline.
    Slept(bool),
}

/// What the transport does next.
pub enum ExchangeAction {
    /// Drop any connection; connect to the broker and authenticate it.
    ConnectCertified,
    /// Read the connection's ready frame.
    ReadReady,
    /// Draw a fresh request nonce.
    GenerateNonce,
    /// Compute the budget left for a write attempt.
    CheckBudget,
    /// Write this frame once, without blocking.
    Write(String),
    /// Read and decode the next frame.
    ReadFrame,
    /// Pause briefly without passing the deadline.
    SleepRetry,
    /// The exchange's result.
    Finish(Result<BrowserSessionBrokerResponse, AppControlError>),
}

/// The exchange of one request.
pub struct ExchangeMachine<'a> {
    pub command: BrowserSessionExchange<'a>,
    pub phase: ExchangePhase,
    /// Whether a write may have delivered the request.
    pub recovering: bool,
    pub nonce: Option<String>,
    /// The epoch of the first ready frame; recovery accepts no other.
    pub epoch: Option<String>,
    /// The frame of the last write attempt.
    pub frame: Option<BrowserSessionBrokerRequestFrame>,
}

/// Whether the phase comes after the nonce was drawn.
pub open spec fn after_nonce(p: ExchangePhase) -> bool {
    match p {
        ExchangePhase::Budget | ExchangePhase::Write | ExchangePhase::ReadFirst | ExchangePhase::ReadFinal
        | ExchangePhase::BackoffRetryWrite | ExchangePhase::FinalBudget | ExchangePhase::BackoffReconnect => true,
        _ => false,
    }
}

/// Whether a frame, when there is one, carries the nonce and the epoch.
pub open spec fn frame_bound(frame: Option<BrowserSessionBrokerRequestFrame>, nonce: Option<String>,
    epoch: Option<String>) -> bool
{
    match frame {
        Some(f) => match (nonce, epoch) {
            (Some(n), Some(ep)) => f.request.request_nonce@ == n@ && f.request.broker_epoch@ == ep@,
            _ => false,
        },
        None => true,
    }
}

/// Whether `t` is the text of the last frame and the text of this exchange's
/// request under the nonce, the epoch and the frame's budget.
pub open spec fn writes_request(frame: Option<BrowserSessionBrokerRequestFrame>, nonce: Option<String>,
    epoch: Option<String>, c: BrowserSessionExchange, t: Seq<char>) -> bool
{
    match (frame, nonce, epoch) {
        (Some(f), Some(n), Some(ep)) => f.text@ == t
            && t == request_text(c, n@, ep@, Some(f.request.remaining_timeout_ms)),
        _ => false,
    }
}

/// Whether a response is a final answering the last frame on its epoch.
pub open spec fn answers_frame(frame: Option<BrowserSessionBrokerRequestFrame>, epoch: Option<String>,
    resp: BrowserSessionBrokerResponse) -> bool
{
    match (frame, epoch) {
        (Some(f), Some(ep)) => binds(resp, f.request, ep@) && resp.outcome is Some,
        _ => false,
    }
}

/// What an action promises: a write is of this request, a successful finish
/// answers the last frame, and (during recovery) a failed finish is unknown.
pub open spec fn action_ok(a: ExchangeAction, old_frame: Option<BrowserSessionBrokerRequestFrame>,
    new_frame: Option<BrowserSessionBrokerRequestFrame>, nonce: Option<String>, epoch: Option<String>,
    c: BrowserSessionExchange, recovering: bool) -> bool
{
    match a {
        ExchangeAction::Write(t) => writes_request(new_frame, nonce, epoch, c, t@),
        ExchangeAction::Finish(Ok(resp)) => answers_frame(old_frame, epoch, resp),
        ExchangeAction::Finish(Err(e)) => recovering ==> is_unknown_outcome(e, c),
        _ => true,
    }
}

/// Whether a finished exchange's error is the conservative unknown outcome of
/// `c`: accepted for all the caller can tell, not completed, not safe to
/// retry, and possibly mutating exactly when `c` is a command.
pub open spec fn is_unknown_outcome(e: AppControlError, c: BrowserSessionExchange) -> bool {
    &&& e.code@ == "OUTCOME_UNKNOWN"@
    &&& e.message@ == outcome_unknown_message()
    &&& safety_details(e.details, true, true, false, false, true, is_command(exchange_operation(c)))
}

/// The exchange ended with `result`.
pub open spec fn ends_with(after: ExchangeMachine, a: ExchangeAction,
    result: Result<BrowserSessionBrokerResponse, AppControlError>) -> bool {
    after.phase == ExchangePhase::Finished && a == ExchangeAction::Finish(result)
}

/// The exchange ended with an error of this code and message and no details.
pub open spec fn ends_with_plain(after: ExchangeMachine, a: ExchangeAction, code: Seq<char>, message: Seq<char>) -> bool {
    after.phase == ExchangePhase::Finished && (a matches ExchangeAction::Finish(Err(e)) && plain_error(e, code, message))
}

/// The exchange ended with the unknown outcome of its request.
pub open spec fn ends_unknown(before: ExchangeMachine, after: ExchangeMachine, a: ExchangeAction) -> bool {
    after.phase == ExchangePhase::Finished
        && (a matches ExchangeAction::Finish(Err(e)) && is_unknown_outcome(e, before.command))
}

/// The exchange moved on to phase `p`.
pub open spec fn moves(after: ExchangeMachine, p: ExchangePhase) -> bool {
    after.phase == p
}

/// An event that does not belong to the phase: the unknown outcome once a
/// write may have happened, otherwise the request was not dispatched.
pub open spec fn ends_unexpected(before: ExchangeMachine, after: ExchangeMachine, a: ExchangeAction) -> bool {
    if before.recovering || before.phase == ExchangePhase::ReadFirst || before.phase == ExchangePhase::ReadFinal {
        ends_unknown(before, after, a)
    } else {
        ends_with_plain(after, a, "BROKER_UNAVAILABLE"@, "The browser session broker request could not be dispatched."@)
    }
}

/// A write may have delivered the request: the first time, recovery starts
/// on a new connection; during recovery, a pause comes before reconnecting.
pub open spec fn recovers(before: ExchangeMachine, after: ExchangeMachine, a: ExchangeAction) -> bool {
    &&& after.recovering
    &&& after.frame == before.frame
    &&& !before.recovering ==> (after.phase == ExchangePhase::Connect && a is ConnectCertified)
    &&& before.recovering ==> (after.phase == ExchangePhase::BackoffReconnect && a is SleepRetry)
}

/// Nothing was dispatched: before any delivery the exchange ends with `e`;
/// during recovery a pause comes before reconnecting.
pub open spec fn undispatched(before: ExchangeMachine, after: ExchangeMachine, a: ExchangeAction, e: AppControlError) -> bool {
    &&& after.frame == before.frame
    &&& !before.recovering ==> ends_with(after, a, Err(e))
    &&& before.recovering ==> (after.phase == ExchangePhase::BackoffReconnect && a is SleepRetry)
}

/// Like [`undispatched`], with an error of this code and message and no details.
pub open spec fn undispatched_plain(before: ExchangeMachine, after: ExchangeMachine, a: ExchangeAction,
    code: Seq<char>, message: Seq<char>) -> bool {
    &&& after.frame == before.frame
    &&& !before.recovering ==> ends_with_plain(after, a, code, message)
    &&& before.recovering ==> (after.phase == ExchangePhase::BackoffReconnect && a is SleepRetry)
}

/// The request was built under the nonce, the epoch and budget `ms`, and its
/// text is written.
pub open spec fn writes_frame(after: ExchangeMachine, a: ExchangeAction, c: BrowserSessionExchange,
    n: Seq<char>, ep: Seq<char>, ms: u32) -> bool {
    &&& after.phase == ExchangePhase::Write
    &&& after.frame matches Some(f)
    &&& f.request.operation == exchange_operation(c)
    &&& f.request.request_nonce@ == n
    &&& f.request.broker_epoch@ == ep
    &&& f.request.remaining_timeout_ms == ms
    &&& f.request.semantic_fingerprint@ == semantic_fingerprint_of(c, n, ep)
    &&& f.text@ == request_text(c, n, ep, Some(ms))
    &&& a matches ExchangeAction::Write(t) && t@ == f.text@
}

/// What a frame read in phase `phase` does: a frame that does not answer the
/// last write, or breaks the accepted-then-final order, may mean delivery; a
/// final answering it ends the exchange; an accepted frame waits for the final.
pub open spec fn reads_frame(before: ExchangeMachine, after: ExchangeMachine, a: ExchangeAction,
    decoded: Option<BrowserSessionBrokerResponse>) -> bool {
    match decoded {
        None => recovers(before, after, a),
        Some(resp) => if !(before.frame matches Some(f) && before.epoch matches Some(ep) && binds(resp, f.request, ep@)) {
            recovers(before, after, a)
        } else if before.phase == ExchangePhase::ReadFirst {
            if resp.outcome is Some {
                ends_with(after, a, Ok(resp))
            } else if resp.request_revision != 0 {
                recovers(before, after, a)
            } else {
                moves(after, ExchangePhase::ReadFinal) && a is ReadFrame
            }
        } else if resp.outcome is None || resp.request_revision != 1 {
            recovers(before, after, a)
        } else {
            ends_with(after, a, Ok(resp))
        },
    }
}

/// One step of the exchange: from `before`, on `event`, to `after` with action `a`.
pub open spec fn exchange_step(before: ExchangeMachine, event: ExchangeEvent, after: ExchangeMachine,
    a: ExchangeAction) -> bool {
    let p = before.phase;
    match event {
        ExchangeEvent::Connected => if p == ExchangePhase::Connect {
            moves(after, ExchangePhase::ReadReady) && a is ReadReady
        } else {
            ends_unexpected(before, after, a)
        },
        ExchangeEvent::ConnectFailed(e) => if p == ExchangePhase::Connect {
            if before.recovering { ends_unknown(before, after, a) } else { ends_with(after, a, Err(e)) }
        } else {
            ends_unexpected(before, after, a)
        },
        ExchangeEvent::ReadyEpoch(ep) => if p != ExchangePhase::ReadReady {
            ends_unexpected(before, after, a)
        } else if !before.recovering {
            after.epoch == Some(ep) && moves(after, ExchangePhase::GenerateNonce) && a is GenerateNonce
        } else if before.epoch matches Some(x) && ep@ == x@ && is_token(ep@) {
            moves(after, ExchangePhase::Budget) && a is CheckBudget
        } else {
            ends_unknown(before, after, a)
        },
        ExchangeEvent::ReadyFailed(e) => if p == ExchangePhase::ReadReady {
            if before.recovering { ends_unknown(before, after, a) } else { ends_with(after, a, Err(e)) }
        } else {
            ends_unexpected(before, after, a)
        },
        ExchangeEvent::NonceGenerated(n) => if p != ExchangePhase::GenerateNonce {
            ends_unexpected(before, after, a)
        } else if !(before.epoch matches Some(ep) && is_token(ep@)) {
            ends_with_plain(after, a, "BROKER_UNAVAILABLE"@, "The browser session broker epoch is invalid."@)
        } else {
            after.nonce == Some(n) && moves(after, ExchangePhase::Budget) && a is CheckBudget
        },
        ExchangeEvent::NonceFailed(e) => if p == ExchangePhase::GenerateNonce {
            ends_with(after, a, Err(e))
        } else {
            ends_unexpected(before, after, a)
        },
        ExchangeEvent::Budget(budget) => if p == ExchangePhase::FinalBudget {
            match budget {
                Err(e) => ends_with(after, a, Err(e)),
                Ok(_) => ends_with_plain(after, a, "TIMEOUT"@,
                    "The browser session broker handshake exhausted the request deadline."@),
            }
        } else if p != ExchangePhase::Budget {
            ends_unexpected(before, after, a)
        } else {
            match budget {
                Err(e) => undispatched(before, after, a, e),
                Ok(ms) => match build_failure(before.command, before.nonce->0@, before.epoch->0@, ms) {
                    None => writes_frame(after, a, before.command, before.nonce->0@, before.epoch->0@, ms),
                    Some(code) => undispatched_plain(before, after, a, protocol_failure_text(code),
                        protocol_failure_text(code)),
                },
            }
        },
        ExchangeEvent::WriteResult(result) => if p != ExchangePhase::Write {
            ends_unexpected(before, after, a)
        } else {
            match result {
                Ok(BoundedTextWriteAttempt::Written) => if before.frame is None {
                    ends_unexpected(before, after, a)
                } else {
                    moves(after, ExchangePhase::ReadFirst) && a is ReadFrame
                },
                Ok(BoundedTextWriteAttempt::BackpressureZero) =>
                    moves(after, ExchangePhase::BackoffRetryWrite) && a is SleepRetry,
                Ok(BoundedTextWriteAttempt::DeliveryUncertain) => recovers(before, after, a),
                Err(f) => if f.delivery_may_have_occurred {
                    recovers(before, after, a)
                } else {
                    undispatched(before, after, a, f.error)
                },
            }
        },
        ExchangeEvent::FrameRead(decoded) => if p != ExchangePhase::ReadFirst && p != ExchangePhase::ReadFinal {
            ends_unexpected(before, after, a)
        } else {
            reads_frame(before, after, a, decoded)
        },
        ExchangeEvent::Slept(slept) => if p == ExchangePhase::BackoffRetryWrite {
            if slept {
                moves(after, ExchangePhase::Budget) && a is CheckBudget
            } else if before.recovering {
                ends_unknown(before, after, a)
            } else {
                moves(after, ExchangePhase::FinalBudget) && a is CheckBudget
            }
        } else if p == ExchangePhase::BackoffReconnect {
            if slept {
                moves(after, ExchangePhase::Connect) && a is ConnectCertified
            } else {
                ends_unknown(before, after, a)
            }
        } else {
            ends_unexpected(before, after, a)
        },
    }
}

impl<'a> ExchangeMachine<'a> {
    /// The machine's invariant.
    pub open spec fn inv(&self) -> bool {
        &&& (after_nonce(self.phase) || self.recovering) ==> (self.nonce is Some && self.epoch is Some)
        &&& self.phase == ExchangePhase::GenerateNonce ==> (self.epoch is Some && self.nonce is None && self.frame is None)
        &&& (!self.recovering && (self.phase == ExchangePhase::Connect || self.phase == ExchangePhase::ReadReady))
            ==> (self.epoch is None && self.nonce is None && self.frame is None)
        &&& (self.phase == ExchangePhase::ReadFirst || self.phase == ExchangePhase::ReadFinal) ==> self.frame is Some
        &&& frame_bound(self.frame, self.nonce, self.epoch)
        &&& self.recovering ==> (self.phase != ExchangePhase::GenerateNonce && self.phase != ExchangePhase::FinalBudget)
        &&& !self.recovering ==> self.phase != ExchangePhase::BackoffReconnect
    }

    /// A new exchange; its first action is [`ExchangeAction::ConnectCertified`].
    pub fn new(command: BrowserSessionExchange<'a>) -> (r: Self)
        ensures
            r.inv(),
            r.command == command,
            r.phase == ExchangePhase::Connect,
            !r.recovering,
            r.nonce is None,
            r.epoch is None,
            r.frame is None,
    {
        ExchangeMachine { command, phase: ExchangePhase::Connect, recovering: false, nonce: None, epoch: None, frame: None }
    }

    /// Ends the exchange.
    fn finish(&mut self, result: Result<BrowserSessionBrokerResponse, AppControlError>) -> (a: ExchangeAction)
        requires
            old(self).inv(),
        ensures
            final(self).inv(),
            final(self).phase == ExchangePhase::Finished,
            final(self).recovering == old(self).recovering,
            final(self).nonce == old(self).nonce,
            final(self).epoch == old(self).epoch,
            final(self).frame == old(self).frame,
            final(self).command == old(self).command,
            a == ExchangeAction::Finish(result),
    {
        self.phase = ExchangePhase::Finished;
        ExchangeAction::Finish(result)
    }

    /// Ends with the unknown outcome.
    fn finish_unknown(&mut self) -> (a: ExchangeAction)
        requires
            old(self).inv(),
        ensures
            final(self).inv(),
            final(self).phase == ExchangePhase::Finished,
            final(self).recovering == old(self).recovering,
            final(self).nonce == old(self).nonce,
            final(self).epoch == old(self).epoch,
            final(self).frame == old(self).frame,
            final(self).command == old(self).command,
            ends_unknown(*old(self), *final(self), a),
    {
        let e = post_dispatch_outcome_unknown(&self.command);
        self.finish(Err(e))
    }

    /// A write may have delivered the request: the first time, start recovery
    /// on a new connection; during recovery, pause before reconnecting.
    fn delivery_may_have_occurred(&mut self) -> (a: ExchangeAction)
        requires
            old(self).inv(),
            old(self).nonce is Some,
            old(self).epoch is Some,
        ensures
            final(self).inv(),
            final(self).recovering,
            final(self).nonce == old(self).nonce,
            final(self).epoch == old(self).epoch,
            final(self).frame == old(self).frame,
            final(self).command == old(self).command,
            recovers(*old(self), *final(self), a),
    {
        if self.recovering {
            self.phase = ExchangePhase::BackoffReconnect;
            ExchangeAction::SleepRetry
        } else {
            self.recovering = true;
            self.phase = ExchangePhase::Connect;
            ExchangeAction::ConnectCertified
        }
    }

    /// Nothing was dispatched: before any delivery the error is the caller's;
    /// during recovery it only costs a pause before reconnecting.
    fn not_dispatched(&mut self, error: AppControlError) -> (a: ExchangeAction)
        requires
            old(self).inv(),
            old(self).nonce is Some,
            old(self).epoch is Some,
        ensures
            final(self).inv(),
            final(self).recovering == old(self).recovering,
            final(self).nonce == old(self).nonce,
            final(self).epoch == old(self).epoch,
            final(self).frame == old(self).frame,
            final(self).command == old(self).command,
            undispatched(*old(self), *final(self), a, error),
    {
        if self.recovering {
            self.phase = ExchangePhase::BackoffReconnect;
            ExchangeAction::SleepRetry
        } else {
            self.finish(Err(error))
        }
    }

    /// An event that does not belong to the current phase: the exchange ends,
    /// as unknown once a write may have happened.
    fn unexpected(&mut self) -> (a: ExchangeAction)
        requires
            old(self).inv(),
        ensures
            final(self).inv(),
            final(self).phase == ExchangePhase::Finished,
            final(self).recovering == old(self).recovering,
            final(self).nonce == old(self).nonce,
            final(self).epoch == old(self).epoch,
            final(self).frame == old(self).frame,
            final(self).command == old(self).command,
            ends_unexpected(*old(self), *final(self), a),
    {
        if self.recovering || self.phase == ExchangePhase::ReadFirst || self.phase == ExchangePhase::ReadFinal {
            self.finish_unknown()
        } else {
            self.finish(Err(broker_unavailable("The browser session broker request could not be dispatched.")))
        }
    }

    /// A recovery connection announced `announced`: recovery goes on only on
    /// the epoch of the first ready frame, so that the broker can attach to or
    /// replay the same request; any other epoch leaves the outcome unknown.
    pub fn recover_same_epoch(&mut self, announced: String) -> (a: ExchangeAction)
        requires
            old(self).inv(),
            old(self).recovering,
            old(self).phase == ExchangePhase::ReadReady,
        ensures
            final(self).inv(),
            final(self).recovering,
            final(self).command == old(self).command,
            final(self).nonce == old(self).nonce,
            final(self).epoch == old(self).epoch,
            final(self).frame == old(self).frame,
            match old(self).epoch {
                Some(x) => if announced@ == x@ && is_token(announced@) {
                    final(self).phase == ExchangePhase::Budget && a is CheckBudget
                } else {
                    ends_unknown(*old(self), *final(self), a)
                },
                None => false,
            },
    {
        let same = match &self.epoch {
            Some(expected) => str_eq(announced.as_str(), expected.as_str()),
            None => false,
        };
        if !same || !is_token_text(announced.as_str()) {
            return self.finish_unknown();
        }
        self.phase = ExchangePhase::Budget;
        ExchangeAction::CheckBudget
    }

    /// Takes what the last action produced and returns the next action.
    ///
    /// Every step keeps the request nonce and the first epoch once they are
    /// known, never leaves recovery once entered, writes only frames of this
    /// request bound to that nonce and epoch, returns only a final that
    /// answers the frame last written, and ends a recovery that fails with the
    /// unknown outcome.
    #[verifier::rlimit(40)]
    pub fn step(&mut self, event: ExchangeEvent) -> (a: ExchangeAction)
        requires
            old(self).inv(),
        ensures
            final(self).inv(),
            final(self).command == old(self).command,
            old(self).nonce is Some ==> final(self).nonce == old(self).nonce,
            old(self).epoch is Some ==> final(self).epoch == old(self).epoch,
            old(self).recovering ==> final(self).recovering,
            (a is Finish) <==> final(self).phase == ExchangePhase::Finished,
            old(self).phase == ExchangePhase::Finished ==> a is Finish,
            action_ok(a, old(self).frame, final(self).frame, final(self).nonce, final(self).epoch,
                old(self).command, final(self).recovering),
            exchange_step(*old(self), event, *final(self), a),
            old(self).phase == ExchangePhase::Connect && !old(self).recovering ==> match event {
                ExchangeEvent::ConnectFailed(e) => a == ExchangeAction::Finish(Err(e)),
                _ => true,
            },
            old(self).phase == ExchangePhase::ReadReady && old(self).recovering ==> match (event, old(self).epoch) {
                (ExchangeEvent::ReadyEpoch(ep), Some(x)) => ep@ != x@ ==> a is Finish,
                _ => true,
            },
    {
        let phase = self.phase;
        match event {
            ExchangeEvent::Connected => {
                if phase == ExchangePhase::Connect {
                    self.phase = ExchangePhase::ReadReady;
                    ExchangeAction::ReadReady
                } else {
                    self.unexpected()
                }
            },
            ExchangeEvent::ConnectFailed(e) => {
                if phase == ExchangePhase::Connect {
                    if self.recovering { self.finish_unknown() } else { self.finish(Err(e)) }
                } else {
                    self.unexpected()
                }
            },
            ExchangeEvent::ReadyEpoch(ep) => {
                if phase != ExchangePhase::ReadReady {
                    return self.unexpected();
                }
                if !self.recovering {
                    self.epoch = Some(ep);
                    self.phase = ExchangePhase::GenerateNonce;
                    return ExchangeAction::GenerateNonce;
                }
                self.recover_same_epoch(ep)
            },
            ExchangeEvent::ReadyFailed(e) => {
                if phase == ExchangePhase::ReadReady {
                    if self.recovering { self.finish_unknown() } else { self.finish(Err(e)) }
                } else {
                    self.unexpected()
                }
            },
            ExchangeEvent::NonceGenerated(n) => {
                if phase != ExchangePhase::GenerateNonce {
                    return self.unexpected();
                }
                let valid_epoch = match &self.epoch {
                    Some(ep) => is_token_text(ep.as_str()),
                    None => false,
                };
                if !valid_epoch {
                    return self.finish(Err(broker_unavailable("The browser session broker epoch is invalid.")));
                }
                self.nonce = Some(n);
                self.phase = ExchangePhase::Budget;
                ExchangeAction::CheckBudget
            },
            ExchangeEvent::NonceFailed(e) => {
                if phase == ExchangePhase::GenerateNonce {
                    self.finish(Err(e))
                } else {
                    self.unexpected()
                }
            },
            ExchangeEvent::Budget(budget) => {
                if phase == ExchangePhase::FinalBudget {
                    return match budget {
                        Err(e) => self.finish(Err(e)),
                        Ok(_) => {
                            proof { reveal_strlit("TIMEOUT"); }
                            self.finish(Err(AppControlError::new(
                                "TIMEOUT",
                                "The browser session broker handshake exhausted the request deadline.",
                            )))
                        },
                    };
                }
                if phase != ExchangePhase::Budget {
                    return self.unexpected();
                }
                let ms = match budget {
                    Ok(ms) => ms,
                    Err(e) => { return self.not_dispatched(e); },
                };
                let built = match (&self.nonce, &self.epoch) {
                    (Some(n), Some(ep)) => build_request_frame(&self.command, n.as_str(), ep.as_str(), ms),
                    _ => { return self.unexpected(); },
                };
                match built {
                    Ok(frame) => {
                        let text = frame.text.clone();
                        self.frame = Some(frame);
                        self.phase = ExchangePhase::Write;
                        ExchangeAction::Write(text)
                    },
                    Err(failure) => {
                        let e = AppControlError::new(failure.code().as_str(), failure.code().as_str());
                        self.not_dispatched(e)
                    },
                }
            },
            ExchangeEvent::WriteResult(result) => {
                if phase != ExchangePhase::Write {
                    return self.unexpected();
                }
                match result {
                    Ok(BoundedTextWriteAttempt::Written) => {
                        if self.frame.is_none() {
                            return self.unexpected();
                        }
                        self.phase = ExchangePhase::ReadFirst;
                        ExchangeAction::ReadFrame
                    },
                    Ok(BoundedTextWriteAttempt::BackpressureZero) => {
                        self.phase = ExchangePhase::BackoffRetryWrite;
                        ExchangeAction::SleepRetry
                    },
                    Ok(BoundedTextWriteAttempt::DeliveryUncertain) => self.delivery_may_have_occurred(),
                    Err(failure) => {
                        if failure.delivery_may_have_occurred() {
                            self.delivery_may_have_occurred()
                        } else {
                            self.not_dispatched(failure.into_error())
                        }
                    },
                }
            },
            ExchangeEvent::FrameRead(decoded) => {
                if phase != ExchangePhase::ReadFirst && phase != ExchangePhase::ReadFinal {
                    return self.unexpected();
                }
                let resp = match decoded {
                    Some(resp) => resp,
                    None => { return self.delivery_may_have_occurred(); },
                };
                let bound = match (&self.frame, &self.epoch) {
                    (Some(f), Some(ep)) => response_binds(&resp, &f.request, ep.as_str()),
                    _ => false,
                };
                if !bound {
                    return self.delivery_may_have_occurred();
                }
                if phase == ExchangePhase::ReadFirst {
                    if resp.outcome().is_some() {
                        return self.finish(Ok(resp));
                    }
                    if resp.request_revision() != 0 {
                        return self.delivery_may_have_occurred();
                    }
                    self.phase = ExchangePhase::ReadFinal;
                    ExchangeAction::ReadFrame
                } else {
                    if resp.outcome().is_none() || resp.request_revision() != 1 {
                        return self.delivery_may_have_occurred();
                    }
                    self.finish(Ok(resp))
                }
            },
            ExchangeEvent::Slept(slept) => {
                if phase == ExchangePhase::BackoffRetryWrite {
                    if slept {
                        self.phase = ExchangePhase::Budget;
                        ExchangeAction::CheckBudget
                    } else if self.recovering {
                        self.finish_unknown()
                    } else {
                        self.phase = ExchangePhase::FinalBudget;
                        ExchangeAction::CheckBudget
                    }
                } else if phase == ExchangePhase::BackoffReconnect {
                    if slept {
                        self.phase = ExchangePhase::Connect;
                        ExchangeAction::ConnectCertified
                    } else {
                        self.finish_unknown()
                    }
                } else {
                    self.unexpected()
                }
            },
        }
    }
}

} // verus!
