//! Reaching a certified broker: try the fixed endpoint; when nobody answers,
//! start the fixed broker once and keep trying until the handshake deadline,
//! sleeping a short slice between tries. The transport performs each action
//! and reports what happened; this sequence decides what comes next.

use vstd::prelude::*;
use crate::error::{AppControlError, plain_error};

verus! {

/// What the transport does next.
#[derive(Debug)]
pub enum ConnectAction {
    /// Try to connect to the fixed endpoint.
    TryConnect,
    /// Check that the handshake may go on (deadline and cancellation).
    CheckActive,
    /// Start the fixed broker process.
    StartBroker,
    /// Sleep one retry slice, or less when the deadline is nearer.
    Sleep,
    /// Authenticate the connected peer; the sequence is over.
    Authenticate,
    /// The attempt failed with this error; the sequence is over.
    Fail(AppControlError),
}

/// What an action produced.
#[derive(Debug)]
pub enum ConnectEvent {
    /// The result of a connection try.
    Connected(bool),
    /// The result of the active check.
    Active(Result<(), AppControlError>),
    /// The result of starting the broker.
    Started(Result<(), AppControlError>),
    /// Whether a retry slice was slept (`false`: the deadline had passed).
    Slept(bool),
}

/// Where the sequence stands.
#[derive(Clone, Copy, Debug, PartialEq, Eq, Structural)]
pub enum ConnectPhase {
    /// The first try, before the broker was started.
    FirstTry,
    /// The check before starting the broker.
    CheckBeforeStart,
    /// Starting the broker.
    Starting,
    /// An extra check after a slice could not be slept.
    CheckAfterExpiredSleep,
    /// The check at the top of each retry.
    CheckBeforeRetry,
    /// A retry.
    Retry,
    /// Sleeping between retries.
    Sleeping,
    /// Over: authenticate or fail.
    Done,
}

/// The connection sequence of one handshake.
pub struct BrokerConnect {
    pub phase: ConnectPhase,
    /// Whether the broker was started.
    pub started: bool,
    /// Whether some try connected.
    pub connected: bool,
}

/// Whether the broker has been started by the time of `phase`.
pub open spec fn started_by(phase: ConnectPhase) -> bool {
    !(phase == ConnectPhase::FirstTry || phase == ConnectPhase::CheckBeforeStart)
}

/// One move of the sequence: from `phase`, on `event`, to `after` with
/// action `a`. A failed first try checks the deadline and then starts the
/// broker; after the start each retry checks the deadline, tries, and
/// sleeps a slice when nobody answered; a connection authenticates; a failed
/// check or start ends with its error; any other event ends the sequence.
pub open spec fn connect_transition(phase: ConnectPhase, event: ConnectEvent, after: ConnectPhase, a: ConnectAction) -> bool {
    match (phase, event) {
        (ConnectPhase::Done, _) => after == ConnectPhase::Done && (a matches ConnectAction::Fail(e)
            && plain_error(e, "BROKER_UNAVAILABLE"@, "The browser session broker connection already ended."@)),
        (ConnectPhase::FirstTry, ConnectEvent::Connected(true)) => after == ConnectPhase::Done && a is Authenticate,
        (ConnectPhase::Retry, ConnectEvent::Connected(true)) => after == ConnectPhase::Done && a is Authenticate,
        (ConnectPhase::FirstTry, ConnectEvent::Connected(false)) =>
            after == ConnectPhase::CheckBeforeStart && a is CheckActive,
        (ConnectPhase::CheckBeforeStart, ConnectEvent::Active(Ok(()))) =>
            after == ConnectPhase::Starting && a is StartBroker,
        (ConnectPhase::Starting, ConnectEvent::Started(Ok(()))) =>
            after == ConnectPhase::CheckBeforeRetry && a is CheckActive,
        (ConnectPhase::CheckBeforeRetry, ConnectEvent::Active(Ok(()))) =>
            after == ConnectPhase::Retry && a is TryConnect,
        (ConnectPhase::Retry, ConnectEvent::Connected(false)) =>
            after == ConnectPhase::Sleeping && a is Sleep,
        (ConnectPhase::Sleeping, ConnectEvent::Slept(true)) =>
            after == ConnectPhase::CheckBeforeRetry && a is CheckActive,
        (ConnectPhase::Sleeping, ConnectEvent::Slept(false)) =>
            after == ConnectPhase::CheckAfterExpiredSleep && a is CheckActive,
        (ConnectPhase::CheckAfterExpiredSleep, ConnectEvent::Active(Ok(()))) =>
            after == ConnectPhase::CheckBeforeRetry && a is CheckActive,
        (ConnectPhase::CheckBeforeStart, ConnectEvent::Active(Err(e))) =>
            after == ConnectPhase::Done && a == ConnectAction::Fail(e),
        (ConnectPhase::CheckAfterExpiredSleep, ConnectEvent::Active(Err(e))) =>
            after == ConnectPhase::Done && a == ConnectAction::Fail(e),
        (ConnectPhase::CheckBeforeRetry, ConnectEvent::Active(Err(e))) =>
            after == ConnectPhase::Done && a == ConnectAction::Fail(e),
        (ConnectPhase::Starting, ConnectEvent::Started(Err(e))) =>
            after == ConnectPhase::Done && a == ConnectAction::Fail(e),
        _ => after == ConnectPhase::Done && (a matches ConnectAction::Fail(e)
            && plain_error(e, "BROKER_UNAVAILABLE"@, "The browser session broker connection sequence was violated."@)),
    }
}

impl BrokerConnect {
    /// The sequence's invariant: the broker is started exactly when the
    /// sequence has gone past starting it, and is over only when it ended.
    pub open spec fn inv(&self) -> bool {
        &&& self.phase != ConnectPhase::Done ==> self.started == started_by(self.phase)
        &&& self.phase != ConnectPhase::Done ==> !self.connected
    }

    /// A new sequence and its first action: try the endpoint.
    pub fn new() -> (r: (Self, ConnectAction))
        ensures
            r.0.inv(),
            r.0.phase == ConnectPhase::FirstTry,
            !r.0.started,
            r.1 is TryConnect,
    {
        (BrokerConnect { phase: ConnectPhase::FirstTry, started: false, connected: false }, ConnectAction::TryConnect)
    }

    /// Takes what the last action produced and returns the next action.
    pub fn step(&mut self, event: ConnectEvent) -> (a: ConnectAction)
        requires
            old(self).inv(),
        ensures
            final(self).inv(),
            connect_transition(old(self).phase, event, final(self).phase, a),
            old(self).phase == ConnectPhase::Done ==> a is Fail,
            a is StartBroker ==> !old(self).started && final(self).started,
            old(self).started ==> final(self).started,
            a is Authenticate <==> (old(self).phase != ConnectPhase::Done
                && (old(self).phase == ConnectPhase::FirstTry || old(self).phase == ConnectPhase::Retry)
                && event == ConnectEvent::Connected(true)),
            a is Authenticate ==> final(self).connected,
            (old(self).phase == ConnectPhase::CheckBeforeStart || old(self).phase == ConnectPhase::CheckAfterExpiredSleep
                || old(self).phase == ConnectPhase::CheckBeforeRetry) ==> match event {
                ConnectEvent::Active(Err(e)) => a == ConnectAction::Fail(e),
                _ => true,
            },
            old(self).phase == ConnectPhase::Starting ==> match event {
                ConnectEvent::Started(Err(e)) => a == ConnectAction::Fail(e),
                _ => true,
            },
            (a is Authenticate || a is Fail) ==> final(self).phase == ConnectPhase::Done,
    {
        if self.phase == ConnectPhase::Done {
            return ConnectAction::Fail(AppControlError::new(
                "BROKER_UNAVAILABLE",
                "The browser session broker connection already ended.",
            ));
        }
        match (self.phase, event) {
            (ConnectPhase::FirstTry, ConnectEvent::Connected(true)) | (ConnectPhase::Retry, ConnectEvent::Connected(true)) => {
                self.connected = true;
                self.phase = ConnectPhase::Done;
                ConnectAction::Authenticate
            },
            (ConnectPhase::FirstTry, ConnectEvent::Connected(false)) => {
                self.phase = ConnectPhase::CheckBeforeStart;
                ConnectAction::CheckActive
            },
            (ConnectPhase::CheckBeforeStart, ConnectEvent::Active(Ok(()))) => {
                self.phase = ConnectPhase::Starting;
                self.started = true;
                ConnectAction::StartBroker
            },
            (ConnectPhase::Starting, ConnectEvent::Started(Ok(()))) => {
                self.phase = ConnectPhase::CheckBeforeRetry;
                ConnectAction::CheckActive
            },
            (ConnectPhase::CheckBeforeRetry, ConnectEvent::Active(Ok(()))) => {
                self.phase = ConnectPhase::Retry;
                ConnectAction::TryConnect
            },
            (ConnectPhase::Retry, ConnectEvent::Connected(false)) => {
                self.phase = ConnectPhase::Sleeping;
                ConnectAction::Sleep
            },
            (ConnectPhase::Sleeping, ConnectEvent::Slept(true)) => {
                self.phase = ConnectPhase::CheckBeforeRetry;
                ConnectAction::CheckActive
            },
            (ConnectPhase::Sleeping, ConnectEvent::Slept(false)) => {
                self.phase = ConnectPhase::CheckAfterExpiredSleep;
                ConnectAction::CheckActive
            },
            (ConnectPhase::CheckAfterExpiredSleep, ConnectEvent::Active(Ok(()))) => {
                self.phase = ConnectPhase::CheckBeforeRetry;
                ConnectAction::CheckActive
            },
            (ConnectPhase::CheckBeforeStart, ConnectEvent::Active(Err(e)))
            | (ConnectPhase::CheckAfterExpiredSleep, ConnectEvent::Active(Err(e)))
            | (ConnectPhase::CheckBeforeRetry, ConnectEvent::Active(Err(e)))
            | (ConnectPhase::Starting, ConnectEvent::Started(Err(e))) => {
                self.phase = ConnectPhase::Done;
                ConnectAction::Fail(e)
            },
            _ => {
                self.phase = ConnectPhase::Done;
                ConnectAction::Fail(AppControlError::new(
                    "BROKER_UNAVAILABLE",
                    "The browser session broker connection sequence was violated.",
                ))
            },
        }
    }
}

} // verus!
