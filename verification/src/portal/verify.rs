//! The portal connectivity check as a sequence of steps: preflight checks,
//! creating a remote-desktop session, establishing live input and screen-cast
//! evidence, and closing the session. The transport performs each step and
//! reports its result; the sequence decides what comes next.
//!
//! Once the session exists, every path goes through closing it, and a run is
//! reported as closed or successful only when the close was confirmed.

use vstd::prelude::*;
use crate::portal::contract::{Failure, Verification};
use crate::portal::deadline::RunFailure;
use crate::portal::start::{StartResponse, project_start, start_projection};

verus! {

/// The steps of a check, in order.
#[derive(Clone, Copy, Debug, PartialEq, Eq, Structural)]
pub enum VerifyStep {
    CheckWayland,
    ConnectBus,
    SubscribeOwnerChanges,
    EnsurePortalOwner,
    OpenPortals,
    ReadVersions,
    CheckDevices,
    CreateSession,
    SelectDevices,
    SelectSources,
    StartSession,
    ConnectEis,
    EisHandshake,
    OpenPipeWireRemote,
    CloseSession,
}

/// What a step produced.
pub enum VerifyEvent {
    /// A step without data succeeded or failed.
    Done(Result<(), Failure>),
    /// The portal versions were read (and checked) or failed.
    Versions(Result<(u32, u32), Failure>),
    /// The session started with this response, or failed.
    Started(Result<StartResponse, Failure>),
    /// Whether the close of the session was confirmed.
    Closed(bool),
}

/// What the transport does next.
pub enum VerifyAction {
    Perform(VerifyStep),
    Finish(Result<Verification, RunFailure>),
}

/// Starts a check: the machine and its first action.
pub fn verify() -> (r: (VerifyMachine, VerifyAction))
    ensures
        r.0.inv(),
        r.0.step == VerifyStep::CheckWayland,
        !r.0.finished,
        r.1 == VerifyAction::Perform(VerifyStep::CheckWayland),
{
    (VerifyMachine::new(), VerifyAction::Perform(VerifyStep::CheckWayland))
}

/// Whether a step runs while the session exists.
pub open spec fn in_session(s: VerifyStep) -> bool {
    match s {
        VerifyStep::SelectDevices | VerifyStep::SelectSources | VerifyStep::StartSession | VerifyStep::ConnectEis
        | VerifyStep::EisHandshake | VerifyStep::OpenPipeWireRemote | VerifyStep::CloseSession => true,
        _ => false,
    }
}

/// The step after a successful step.
pub open spec fn next_step(s: VerifyStep) -> VerifyStep {
    match s {
        VerifyStep::CheckWayland => VerifyStep::ConnectBus,
        VerifyStep::ConnectBus => VerifyStep::SubscribeOwnerChanges,
        VerifyStep::SubscribeOwnerChanges => VerifyStep::EnsurePortalOwner,
        VerifyStep::EnsurePortalOwner => VerifyStep::OpenPortals,
        VerifyStep::OpenPortals => VerifyStep::ReadVersions,
        VerifyStep::ReadVersions => VerifyStep::CheckDevices,
        VerifyStep::CheckDevices => VerifyStep::CreateSession,
        VerifyStep::CreateSession => VerifyStep::SelectDevices,
        VerifyStep::SelectDevices => VerifyStep::SelectSources,
        VerifyStep::SelectSources => VerifyStep::StartSession,
        VerifyStep::StartSession => VerifyStep::ConnectEis,
        VerifyStep::ConnectEis => VerifyStep::EisHandshake,
        VerifyStep::EisHandshake => VerifyStep::OpenPipeWireRemote,
        VerifyStep::OpenPipeWireRemote => VerifyStep::CloseSession,
        VerifyStep::CloseSession => VerifyStep::CloseSession,
    }
}

/// A step failed with `f`: before the session exists the run ends with `f`
/// and no session; afterwards the run goes on to close the session,
/// remembering `f`.
pub open spec fn fails_with(before: VerifyMachine, after: VerifyMachine, a: VerifyAction, f: Failure) -> bool {
    if in_session(before.step) {
        &&& !after.finished
        &&& after.step == VerifyStep::CloseSession
        &&& after.failure == Some(f)
        &&& a == VerifyAction::Perform(VerifyStep::CloseSession)
    } else {
        &&& after.finished
        &&& a == VerifyAction::Finish(Err(RunFailure { failure: f, session_closed: false }))
    }
}

/// A step failed with a failure of this code and stage, as [`fails_with`].
pub open spec fn fails_with_code(before: VerifyMachine, after: VerifyMachine, a: VerifyAction,
    code: Seq<char>, stage: Seq<char>) -> bool {
    if in_session(before.step) {
        &&& !after.finished
        &&& after.step == VerifyStep::CloseSession
        &&& after.failure matches Some(f) && f.code@ == code && f.stage@ == stage
        &&& a == VerifyAction::Perform(VerifyStep::CloseSession)
    } else {
        &&& after.finished
        &&& a matches VerifyAction::Finish(Err(rf)) && rf.failure.code@ == code && rf.failure.stage@ == stage
            && !rf.session_closed
    }
}

/// The run moved on to step `s`.
pub open spec fn moves_to(after: VerifyMachine, a: VerifyAction, s: VerifyStep) -> bool {
    &&& !after.finished
    &&& after.step == s
    &&& a == VerifyAction::Perform(s)
}

/// The check of one run.
pub struct VerifyMachine {
    pub step: VerifyStep,
    pub finished: bool,
    /// The checked (remote desktop, screen cast) versions.
    pub versions: Option<(u32, u32)>,
    /// The evidence projected from the start response.
    pub verification: Option<Verification>,
    /// The failure that sent the run to close the session.
    pub failure: Option<Failure>,
}

impl VerifyMachine {
    /// The machine's invariant.
    pub open spec fn inv(&self) -> bool {
        !self.finished ==> {
            &&& (self.step == VerifyStep::SelectDevices || self.step == VerifyStep::SelectSources
                || self.step == VerifyStep::StartSession) ==> self.versions is Some
            &&& (in_session(self.step) && self.step != VerifyStep::CloseSession) ==> self.failure is None
            &&& !in_session(self.step) ==> self.failure is None
            &&& (in_session(self.step) && !(self.step == VerifyStep::SelectDevices
                || self.step == VerifyStep::SelectSources || self.step == VerifyStep::StartSession)
                && self.failure is None) ==> self.verification is Some
        }
    }

    /// A new run; its first action is to check the Wayland session.
    pub fn new() -> (r: Self)
        ensures
            r.inv(),
            r.step == VerifyStep::CheckWayland,
            !r.finished,
    {
        VerifyMachine { step: VerifyStep::CheckWayland, finished: false, versions: None, verification: None, failure: None }
    }

    /// Ends the run.
    fn finish(&mut self, result: Result<Verification, RunFailure>) -> (a: VerifyAction)
        ensures
            final(self).inv(),
            final(self).finished,
            final(self).step == old(self).step,
            a == VerifyAction::Finish(result),
    {
        self.finished = true;
        VerifyAction::Finish(result)
    }

    /// Goes on with the next step after a success.
    fn advance(&mut self) -> (a: VerifyAction)
        requires
            old(self).inv(),
            old(self).step != VerifyStep::CloseSession,
            old(self).step != VerifyStep::StartSession,
            old(self).step != VerifyStep::ReadVersions,
            !old(self).finished,
            old(self).step == VerifyStep::CreateSession ==> old(self).versions is Some,
        ensures
            final(self).inv(),
            final(self).step == next_step(old(self).step),
            final(self).finished == old(self).finished,
            a == VerifyAction::Perform(next_step(old(self).step)),
    {
        let next = match self.step {
            VerifyStep::CheckWayland => VerifyStep::ConnectBus,
            VerifyStep::ConnectBus => VerifyStep::SubscribeOwnerChanges,
            VerifyStep::SubscribeOwnerChanges => VerifyStep::EnsurePortalOwner,
            VerifyStep::EnsurePortalOwner => VerifyStep::OpenPortals,
            VerifyStep::OpenPortals => VerifyStep::ReadVersions,
            VerifyStep::ReadVersions => VerifyStep::CheckDevices,
            VerifyStep::CheckDevices => VerifyStep::CreateSession,
            VerifyStep::CreateSession => VerifyStep::SelectDevices,
            VerifyStep::SelectDevices => VerifyStep::SelectSources,
            VerifyStep::SelectSources => VerifyStep::StartSession,
            VerifyStep::StartSession => VerifyStep::ConnectEis,
            VerifyStep::ConnectEis => VerifyStep::EisHandshake,
            VerifyStep::EisHandshake => VerifyStep::OpenPipeWireRemote,
            VerifyStep::OpenPipeWireRemote => VerifyStep::CloseSession,
            VerifyStep::CloseSession => VerifyStep::CloseSession,
        };
        self.step = next;
        VerifyAction::Perform(next)
    }

    /// A step failed: before the session exists the run ends with the failure
    /// and no session; afterwards the session is closed first.
    fn fail(&mut self, failure: Failure) -> (a: VerifyAction)
        requires
            old(self).inv(),
            old(self).step != VerifyStep::CloseSession,
            !old(self).finished,
        ensures
            final(self).inv(),
            fails_with(*old(self), *final(self), a, failure),
    {
        if self.step == VerifyStep::SelectDevices || self.step == VerifyStep::SelectSources
            || self.step == VerifyStep::StartSession || self.step == VerifyStep::ConnectEis
            || self.step == VerifyStep::EisHandshake || self.step == VerifyStep::OpenPipeWireRemote {
            self.failure = Some(failure);
            self.step = VerifyStep::CloseSession;
            VerifyAction::Perform(VerifyStep::CloseSession)
        } else {
            self.finish(Err(RunFailure::new(failure, false)))
        }
    }

    /// Takes what the current step produced and returns the next action.
    ///
    /// Once the session exists the run never finishes before closing it; a
    /// failure reports the session closed only when the close was confirmed;
    /// success needs the evidence and a confirmed close.
    pub fn step(&mut self, event: VerifyEvent) -> (a: VerifyAction)
        requires
            old(self).inv(),
        ensures
            final(self).inv(),
            old(self).finished ==> (final(self).finished && a is Finish),
            !old(self).finished && in_session(old(self).step) && old(self).step != VerifyStep::CloseSession
                ==> a is Perform,
            !old(self).finished ==> match a {
                VerifyAction::Finish(Ok(v)) => old(self).step == VerifyStep::CloseSession
                    && event == VerifyEvent::Closed(true) && old(self).failure is None
                    && old(self).verification == Some(v),
                VerifyAction::Finish(Err(rf)) => rf.session_closed ==> (old(self).step == VerifyStep::CloseSession
                    && event == VerifyEvent::Closed(true) && old(self).failure == Some(rf.failure)),
                VerifyAction::Perform(s) => final(self).step == s && !final(self).finished,
            },
            old(self).finished ==> (a matches VerifyAction::Finish(Err(rf))
                && rf.failure.code@ == "PORTAL_PROTOCOL_ERROR"@ && rf.failure.stage@ == "close-session"@
                && !rf.session_closed),
            !old(self).finished && old(self).step == VerifyStep::CloseSession ==> final(self).finished && match event {
                VerifyEvent::Closed(closed) => match old(self).failure {
                    Some(f) => a == VerifyAction::Finish(Err(RunFailure { failure: f, session_closed: closed })),
                    None => if closed {
                        a == VerifyAction::Finish(Ok(old(self).verification->0))
                    } else {
                        a matches VerifyAction::Finish(Err(rf)) && rf.failure.code@ == "SESSION_CLOSE_UNCONFIRMED"@
                            && rf.failure.stage@ == "close-session"@ && !rf.session_closed
                    },
                },
                _ => a matches VerifyAction::Finish(Err(rf)) && rf.failure.code@ == "PORTAL_PROTOCOL_ERROR"@
                    && rf.failure.stage@ == "close-session"@ && !rf.session_closed,
            },
            !old(self).finished && old(self).step != VerifyStep::CloseSession ==> match event {
                VerifyEvent::Done(Ok(())) =>
                    if old(self).step == VerifyStep::ReadVersions || old(self).step == VerifyStep::StartSession {
                        fails_with_code(*old(self), *final(self), a, "PORTAL_PROTOCOL_ERROR"@, "preflight"@)
                    } else if old(self).step == VerifyStep::CreateSession && old(self).versions is None {
                        fails_with_code(*old(self), *final(self), a, "PORTAL_PROTOCOL_ERROR"@, "create-session"@)
                    } else {
                        moves_to(*final(self), a, next_step(old(self).step))
                    },
                VerifyEvent::Done(Err(f)) => fails_with(*old(self), *final(self), a, f),
                VerifyEvent::Versions(Ok(v)) => if old(self).step == VerifyStep::ReadVersions {
                    final(self).versions == Some(v) && moves_to(*final(self), a, VerifyStep::CheckDevices)
                } else {
                    fails_with_code(*old(self), *final(self), a, "PORTAL_PROTOCOL_ERROR"@, "preflight"@)
                },
                VerifyEvent::Versions(Err(f)) => fails_with(*old(self), *final(self), a, f),
                VerifyEvent::Started(Ok(st)) => if old(self).step == VerifyStep::StartSession
                    && old(self).versions is Some {
                    exists|res: Result<Verification, Failure>|
                        #[trigger] start_projection(st, (old(self).versions->0).0, (old(self).versions->0).1, res)
                        && match res {
                            Ok(v) => final(self).verification == Some(v)
                                && moves_to(*final(self), a, VerifyStep::ConnectEis),
                            Err(f) => fails_with(*old(self), *final(self), a, f),
                        }
                } else {
                    fails_with_code(*old(self), *final(self), a, "PORTAL_PROTOCOL_ERROR"@, "start"@)
                },
                VerifyEvent::Started(Err(f)) => fails_with(*old(self), *final(self), a, f),
                VerifyEvent::Closed(_) =>
                    fails_with_code(*old(self), *final(self), a, "PORTAL_PROTOCOL_ERROR"@, "close-session"@),
            },
    {
        if self.finished {
            let f = Failure::new("PORTAL_PROTOCOL_ERROR", "close-session");
            return VerifyAction::Finish(Err(RunFailure::new(f, false)));
        }
        let step = self.step;
        if step == VerifyStep::CloseSession {
            return match event {
                VerifyEvent::Closed(closed) => {
                    match self.failure {
                        Some(f) => self.finish(Err(RunFailure::new(f, closed))),
                        None => {
                            if !closed {
                                self.finish(Err(RunFailure::new(Failure::new("SESSION_CLOSE_UNCONFIRMED", "close-session"), false)))
                            } else {
                                match self.verification.take() {
                                    Some(v) => self.finish(Ok(v)),
                                    None => self.finish(Err(RunFailure::new(
                                        Failure::new("PORTAL_PROTOCOL_ERROR", "close-session"), true))),
                                }
                            }
                        },
                    }
                },
                _ => self.finish(Err(RunFailure::new(Failure::new("PORTAL_PROTOCOL_ERROR", "close-session"), false))),
            };
        }
        match event {
            VerifyEvent::Done(Ok(())) => {
                if step == VerifyStep::ReadVersions || step == VerifyStep::StartSession {
                    return self.fail(Failure::new("PORTAL_PROTOCOL_ERROR", "preflight"));
                }
                if step == VerifyStep::CreateSession && self.versions.is_none() {
                    return self.fail(Failure::new("PORTAL_PROTOCOL_ERROR", "create-session"));
                }
                self.advance()
            },
            VerifyEvent::Done(Err(f)) => self.fail(f),
            VerifyEvent::Versions(Ok(v)) => {
                if step != VerifyStep::ReadVersions {
                    return self.fail(Failure::new("PORTAL_PROTOCOL_ERROR", "preflight"));
                }
                self.versions = Some(v);
                self.step = VerifyStep::CheckDevices;
                VerifyAction::Perform(VerifyStep::CheckDevices)
            },
            VerifyEvent::Versions(Err(f)) => self.fail(f),
            VerifyEvent::Started(Ok(start)) => {
                if step != VerifyStep::StartSession {
                    return self.fail(Failure::new("PORTAL_PROTOCOL_ERROR", "start"));
                }
                let (remote, screen_cast) = match self.versions {
                    Some(v) => v,
                    None => { return self.fail(Failure::new("PORTAL_PROTOCOL_ERROR", "start")); },
                };
                let ghost gstart = start;
                let projected = project_start(start, remote, screen_cast);
                let ghost res = projected;
                match projected {
                    Ok(v) => {
                        self.verification = Some(v);
                        self.step = VerifyStep::ConnectEis;
                        let a = VerifyAction::Perform(VerifyStep::ConnectEis);
                        assert(start_projection(gstart, remote, screen_cast, res));
                        a
                    },
                    Err(f) => {
                        let a = self.fail(f);
                        assert(start_projection(gstart, remote, screen_cast, res));
                        a
                    },
                }
            },
            VerifyEvent::Started(Err(f)) => self.fail(f),
            VerifyEvent::Closed(_) => self.fail(Failure::new("PORTAL_PROTOCOL_ERROR", "close-session")),
        }
    }
}

} // verus!
