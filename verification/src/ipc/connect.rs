//! The decisions of opening a fixed local endpoint: the client's name check
//! and wait outcome, the server's accept outcome, the message mode of a
//! connection, and the checks before a server listens again.

use vstd::prelude::*;
use crate::error::AppResult;
use crate::ipc::endpoint::{browser_authority_live, endpoint_error};

verus! {

/// The system error of a pipe name that has no server.
pub const ERROR_FILE_NOT_FOUND: u32 = 2;
/// The system error of a wait that ran out its slice.
pub const ERROR_SEM_TIMEOUT: u32 = 121;
/// The system error of a pipe whose instances are all busy.
pub const ERROR_PIPE_BUSY: u32 = 231;
/// The system error of a peer that connected before the server waited.
pub const ERROR_PIPE_CONNECTED: u32 = 535;
/// The system error of a non-blocking server still waiting for a peer.
pub const ERROR_PIPE_LISTENING: u32 = 536;

/// The blocking wait mode of a pipe.
pub const PIPE_WAIT: u32 = 0;
/// The non-blocking wait mode of a pipe.
pub const PIPE_NOWAIT: u32 = 1;
/// The message read mode of a pipe.
pub const PIPE_READMODE_MESSAGE: u32 = 2;

/// Whether `e` is an endpoint failure with `message`.
pub open spec fn endpoint_failure(e: crate::error::AppControlError, message: Seq<char>) -> bool {
    e.code@ == "ISOLATED_WORKER_UNAVAILABLE"@ && e.message@ == message && e.details == crate::json::Json::Null
}

/// A client pipe name must be a terminated wide string with at least one unit
/// before its terminator.
pub fn check_connect_name(name: &Vec<u16>) -> (r: AppResult<()>)
    ensures
        r is Ok <==> (name@.len() >= 2 && name@.last() == 0),
        r matches Err(e) ==> endpoint_failure(e, "The fixed interactive endpoint name was invalid."@),
{
    if name.len() < 2 || name[name.len() - 1] != 0 {
        return Err(endpoint_error("The fixed interactive endpoint name was invalid."));
    }
    Ok(())
}

/// What a client does after one bounded wait for a pipe instance.
#[derive(Clone, Copy, Debug, PartialEq, Eq, Structural)]
pub enum ClientWait {
    /// An instance is free: open it.
    Open,
    /// The instances are busy or the slice ran out: wait again.
    Retry,
}

/// The outcome of one wait for a pipe instance: a free instance is opened, a
/// busy pipe or an expired slice is waited for again, a missing endpoint and
/// every other error end the attempt.
pub fn client_wait_outcome(waited: bool, last_error: u32) -> (r: AppResult<ClientWait>)
    ensures
        waited ==> r == Ok::<ClientWait, crate::error::AppControlError>(ClientWait::Open),
        !waited && last_error == ERROR_FILE_NOT_FOUND ==> (r matches Err(e)
            && endpoint_failure(e, "No certified interactive endpoint is installed in the target session."@)),
        !waited && (last_error == ERROR_PIPE_BUSY || last_error == ERROR_SEM_TIMEOUT)
            ==> r == Ok::<ClientWait, crate::error::AppControlError>(ClientWait::Retry),
        !waited && last_error != ERROR_FILE_NOT_FOUND && last_error != ERROR_PIPE_BUSY && last_error != ERROR_SEM_TIMEOUT
            ==> (r matches Err(e)
            && endpoint_failure(e, "No certified interactive endpoint accepted the connection deadline."@)),
{
    if waited {
        return Ok(ClientWait::Open);
    }
    if last_error == ERROR_FILE_NOT_FOUND {
        return Err(endpoint_error("No certified interactive endpoint is installed in the target session."));
    }
    if last_error != ERROR_PIPE_BUSY && last_error != ERROR_SEM_TIMEOUT {
        return Err(endpoint_error("No certified interactive endpoint accepted the connection deadline."));
    }
    Ok(ClientWait::Retry)
}

/// The message mode of a connection: message reads with the blocking or the
/// non-blocking wait mode.
pub fn message_mode(nonblocking: bool) -> (r: u32)
    ensures
        r == if nonblocking { PIPE_READMODE_MESSAGE + PIPE_NOWAIT } else { PIPE_READMODE_MESSAGE + PIPE_WAIT },
{
    assert(2u32 | 1u32 == 3u32) by (bit_vector);
    assert(2u32 | 0u32 == 2u32) by (bit_vector);
    if nonblocking { PIPE_READMODE_MESSAGE | PIPE_NOWAIT } else { PIPE_READMODE_MESSAGE | PIPE_WAIT }
}

/// What a persistent server does next while it waits for a peer.
#[derive(Clone, Copy, Debug, PartialEq, Eq, Structural)]
pub enum AcceptStep {
    /// The owner is gone or the caller cancelled: stop, keeping the listener.
    Cancelled,
    /// Try to connect a peer.
    Connect,
}

/// Before each try: a dead browser owner or a cancellation stops the wait.
pub fn accept_step(authority: Option<bool>, cancelled: bool) -> (r: AcceptStep)
    ensures
        r == if !(authority is None || authority == Some(true)) || cancelled {
            AcceptStep::Cancelled
        } else {
            AcceptStep::Connect
        },
{
    if !browser_authority_live(authority) || cancelled {
        AcceptStep::Cancelled
    } else {
        AcceptStep::Connect
    }
}

/// The outcome of one try to connect a peer.
#[derive(Clone, Copy, Debug, PartialEq, Eq, Structural)]
pub enum AcceptOutcome {
    /// A peer is connected.
    Connected,
    /// No peer yet: sleep one wait slice and try again.
    Listening,
}

/// A connected peer, also one that connected before the call, ends the wait;
/// a listening pipe is tried again; any other error fails the accept.
pub fn accept_outcome(connect_error: Option<u32>) -> (r: AppResult<AcceptOutcome>)
    ensures
        match connect_error {
            None => r == Ok::<AcceptOutcome, crate::error::AppControlError>(AcceptOutcome::Connected),
            Some(c) => if c == ERROR_PIPE_CONNECTED {
                r == Ok::<AcceptOutcome, crate::error::AppControlError>(AcceptOutcome::Connected)
            } else if c == ERROR_PIPE_LISTENING {
                r == Ok::<AcceptOutcome, crate::error::AppControlError>(AcceptOutcome::Listening)
            } else {
                r matches Err(e) && endpoint_failure(e, "The interactive endpoint could not accept a local peer."@)
            },
        },
{
    match connect_error {
        None => Ok(AcceptOutcome::Connected),
        Some(c) => if c == ERROR_PIPE_CONNECTED {
            Ok(AcceptOutcome::Connected)
        } else if c == ERROR_PIPE_LISTENING {
            Ok(AcceptOutcome::Listening)
        } else {
            Err(endpoint_error("The interactive endpoint could not accept a local peer."))
        },
    }
}

/// Only a server connection whose browser owner is still live may listen again.
pub fn relisten_check(is_server: bool, authority: Option<bool>) -> (r: AppResult<()>)
    ensures
        r is Ok <==> (is_server && (authority is None || authority == Some(true))),
        !is_server ==> (r matches Err(e) && endpoint_failure(e, "The fixed endpoint client cannot become a listener."@)),
        is_server && !(authority is None || authority == Some(true)) ==> (r matches Err(e)
            && endpoint_failure(e, "The browser session endpoint owner is unavailable."@)),
{
    if !is_server {
        return Err(endpoint_error("The fixed endpoint client cannot become a listener."));
    }
    if !browser_authority_live(authority) {
        return Err(endpoint_error("The browser session endpoint owner is unavailable."));
    }
    Ok(())
}

} // verus!
