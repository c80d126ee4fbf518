//! The broker exchange: one deadline covers connecting, authenticating,
//! reading the ready frame, writing the request and reading its final. Once a
//! write may have delivered the request, every later attempt reconnects to
//! recover the same request (same nonce, same epoch) and never dispatches a
//! new one; whatever then fails leaves the outcome unknown.
//!
//! The transport is driven from outside: [`ExchangeMachine::step`] takes what
//! the last action produced and returns the next action.

use vstd::prelude::*;
use crate::broker::protocol::{MAXIMUM_TIMEOUT_MS, broker_unavailable, protocol_failure_text};
use crate::broker::request::{BrowserSessionBrokerRequestFrame, BrowserSessionExchange, build_failure,
    build_request_frame, exchange_operation, request_text, semantic_fingerprint_of};
use crate::error::AppControlError;
use crate::json::Json;

verus! {

/// The deadline of a whole exchange, `timeout_ms` from now. A timeout outside
/// `1..=MAXIMUM_TIMEOUT_MS` is refused; an instant the clock cannot represent
/// makes the broker unavailable.
pub fn handshake_deadline(timeout_ms: u32) -> (r: Result<std::time::Instant, AppControlError>)
    ensures
        !(1 <= timeout_ms <= MAXIMUM_TIMEOUT_MS) ==> (r matches Err(e) && e.code@ == "INVALID_ARGUMENT"@
            && e.message@ == "The browser session broker timeout is outside its fixed boundary."@),
        (1 <= timeout_ms <= MAXIMUM_TIMEOUT_MS) ==> (r is Ok || (r matches Err(e)
            && e.code@ == "BROKER_UNAVAILABLE"@
            && e.message@ == "The browser session broker deadline is unavailable."@)),
{
    proof { reveal_strlit("INVALID_ARGUMENT"); }
    if timeout_ms < 1 || timeout_ms > MAXIMUM_TIMEOUT_MS {
        return Err(AppControlError::new(
            "INVALID_ARGUMENT",
            "The browser session broker timeout is outside its fixed boundary.",
        ));
    }
    match crate::clock::instant_after_ms(timeout_ms as u64) {
        Some(deadline) => Ok(deadline),
        None => Err(broker_unavailable("The browser session broker deadline is unavailable.")),
    }
}

/// Whether `r` answers whether the handshake may go on, given cancellation
/// and the nanoseconds left (`None` once the deadline has passed).
pub open spec fn handshake_outcome(cancelled: bool, left: Option<u128>, r: Result<(), AppControlError>) -> bool {
    &&& cancelled ==> (r matches Err(e) && e.code@ == "CANCELLED"@
        && e.message@ == "The browser session broker handshake was cancelled."@)
    &&& !cancelled && !(left matches Some(n) && n > 0) ==> (r matches Err(e) && e.code@ == "TIMEOUT"@
        && e.message@ == "The browser session broker did not publish its ready frame in time."@)
    &&& r is Ok <==> (!cancelled && (left matches Some(n) && n > 0))
}

/// Whether the handshake may go on, given cancellation and the nanoseconds
/// left before the deadline (`None` once it has passed).
pub fn handshake_active_from(cancelled: bool, left: Option<u128>) -> (r: Result<(), AppControlError>)
    ensures
        handshake_outcome(cancelled, left, r),
        cancelled ==> (r matches Err(e) && e.code@ == "CANCELLED"@
            && e.message@ == "The browser session broker handshake was cancelled."@),
        !cancelled && !(left matches Some(n) && n > 0) ==> (r matches Err(e) && e.code@ == "TIMEOUT"@
            && e.message@ == "The browser session broker did not publish its ready frame in time."@),
        r is Ok <==> (!cancelled && (left matches Some(n) && n > 0)),
{
    proof {
        reveal_strlit("CANCELLED");
        reveal_strlit("TIMEOUT");
    }
    if cancelled {
        return Err(AppControlError::new("CANCELLED", "The browser session broker handshake was cancelled."));
    }
    match left {
        Some(n) => if n > 0 {
            return Ok(());
        },
        None => {},
    }
    Err(AppControlError::new("TIMEOUT", "The browser session broker did not publish its ready frame in time."))
}

/// Refuses to start, connect or retry after cancellation or the deadline.
pub fn ensure_handshake_active(deadline: &std::time::Instant, cancelled: bool) -> (r: Result<(), AppControlError>)
    ensures
        cancelled ==> (r matches Err(e) && e.code@ == "CANCELLED"@),
        r matches Err(e) ==> (e.code@ == "CANCELLED"@ || e.code@ == "TIMEOUT"@),
        exists|left: Option<u128>| #[trigger] handshake_outcome(cancelled, left, r),
{
    let left = crate::clock::nanos_until(deadline);
    let r = handshake_active_from(cancelled, left);
    assert(handshake_outcome(cancelled, left, r));
    r
}

/// The budget a new request frame may carry, in whole milliseconds rounded
/// down so that it never extends the deadline; refused when the handshake may
/// not go on or less than one millisecond is left.
pub open spec fn remaining_budget(cancelled: bool, left: Option<u128>) -> Result<u32, Seq<char>> {
    if cancelled {
        Err("CANCELLED"@)
    } else {
        match left {
            Some(n) if n > 0 =>
                if n / 1_000_000 == 0 {
                    Err("TIMEOUT"@)
                } else if n / 1_000_000 > u32::MAX {
                    Err("INVALID_ARGUMENT"@)
                } else {
                    Ok((n / 1_000_000) as u32)
                },
            _ => Err("TIMEOUT"@),
        }
    }
}

/// Whether `r` is the request budget for the time left; see [`remaining_budget`].
pub open spec fn budget_outcome(cancelled: bool, left: Option<u128>, r: Result<u32, AppControlError>) -> bool {
    match remaining_budget(cancelled, left) {
        Ok(ms) => r == Ok::<u32, AppControlError>(ms),
        Err(code) => r matches Err(e) && e.code@ == code,
    }
}

/// The request budget for the time left; see [`remaining_budget`].
pub fn remaining_timeout_from(cancelled: bool, left: Option<u128>) -> (r: Result<u32, AppControlError>)
    ensures
        budget_outcome(cancelled, left, r),
{
    proof {
        reveal_strlit("TIMEOUT");
        reveal_strlit("INVALID_ARGUMENT");
    }
    match handshake_active_from(cancelled, left) {
        Ok(()) => {},
        Err(e) => { return Err(e); },
    }
    let n = match left {
        Some(n) => n,
        None => { return Err(AppControlError::new("TIMEOUT", "The browser session broker handshake exhausted the request deadline.")); },
    };
    let millis = n / 1_000_000;
    if millis == 0 {
        return Err(AppControlError::new("TIMEOUT", "The browser session broker handshake exhausted the request deadline."));
    }
    if millis > u32::MAX as u128 {
        return Err(AppControlError::new("INVALID_ARGUMENT", "The browser session broker remaining deadline is invalid."));
    }
    Ok(millis as u32)
}

/// The request budget left before `deadline`.
pub fn remaining_request_timeout_ms(deadline: &std::time::Instant, cancelled: bool) -> (r: Result<u32, AppControlError>)
    ensures
        cancelled ==> (r matches Err(e) && e.code@ == "CANCELLED"@),
        r matches Ok(ms) ==> ms >= 1,
        exists|left: Option<u128>| #[trigger] budget_outcome(cancelled, left, r),
{
    let left = crate::clock::nanos_until(deadline);
    let r = remaining_timeout_from(cancelled, left);
    assert(budget_outcome(cancelled, left, r));
    r
}

/// Whether `r` is the frame of one write attempt built from `budget`: the
/// budget's error, the builder's failure as an error whose code and message
/// are the failure's code, or the frame of the request under the nonce, the
/// epoch and the budget.
pub open spec fn frame_for_budget(command: BrowserSessionExchange, nonce: Seq<char>, epoch: Seq<char>,
    budget: Result<u32, AppControlError>, r: Result<BrowserSessionBrokerRequestFrame, AppControlError>) -> bool {
    match budget {
        Err(e) => r == Err::<BrowserSessionBrokerRequestFrame, AppControlError>(e),
        Ok(ms) => match build_failure(command, nonce, epoch, ms) {
            Some(code) => r matches Err(e) && e.code@ == protocol_failure_text(code)
                && e.message@ == protocol_failure_text(code) && e.details == Json::Null,
            None => r matches Ok(frame) && frame.request.request_nonce@ == nonce
                && frame.request.broker_epoch@ == epoch && frame.request.remaining_timeout_ms == ms
                && frame.request.operation == exchange_operation(command)
                && frame.request.semantic_fingerprint@ == semantic_fingerprint_of(command, nonce, epoch)
                && frame.text@ == request_text(command, nonce, epoch, Some(ms)),
        },
    }
}

/// Builds the frame of one write attempt from that attempt's budget. A budget
/// or builder failure happens before anything is written; a builder failure
/// becomes an error whose code and message are the failure's code.
pub fn build_request_frame_for_budget(
    command: &BrowserSessionExchange,
    nonce: &str,
    epoch: &str,
    budget: Result<u32, AppControlError>,
) -> (r: Result<BrowserSessionBrokerRequestFrame, AppControlError>)
    ensures
        frame_for_budget(*command, nonce@, epoch@, budget, r),
        budget matches Err(e) ==> r matches Err(x) && x == e,
        budget matches Ok(ms) ==> match build_failure(*command, nonce@, epoch@, ms) {
            Some(code) => r matches Err(e) && e.code@ == protocol_failure_text(code)
                && e.message@ == protocol_failure_text(code),
            None => r matches Ok(frame) && frame.request.request_nonce@ == nonce@
                && frame.request.broker_epoch@ == epoch@ && frame.request.remaining_timeout_ms == ms
                && frame.request.operation == exchange_operation(*command)
                && frame.text@ == request_text(*command, nonce@, epoch@, Some(ms)),
        },
{
    let ms = match budget {
        Ok(ms) => ms,
        Err(e) => { return Err(e); },
    };
    match build_request_frame(command, nonce, epoch, ms) {
        Ok(frame) => Ok(frame),
        Err(failure) => Err(AppControlError::new(failure.code().as_str(), failure.code().as_str())),
    }
}

/// Builds the frame of one write attempt with the budget left before
/// `deadline`.
pub fn build_request_frame_for_deadline(
    command: &BrowserSessionExchange,
    nonce: &str,
    epoch: &str,
    deadline: &std::time::Instant,
    cancelled: bool,
) -> (r: Result<BrowserSessionBrokerRequestFrame, AppControlError>)
    ensures
        cancelled ==> (r matches Err(e) && e.code@ == "CANCELLED"@),
        r matches Ok(frame) ==> frame.request.request_nonce@ == nonce@ && frame.request.broker_epoch@ == epoch@
            && frame.text@ == request_text(*command, nonce@, epoch@, Some(frame.request.remaining_timeout_ms)),
        exists|left: Option<u128>, budget: Result<u32, AppControlError>|
            #[trigger] budget_outcome(cancelled, left, budget)
            && frame_for_budget(*command, nonce@, epoch@, budget, r),
{
    let left = crate::clock::nanos_until(deadline);
    let budget = remaining_timeout_from(cancelled, left);
    let ghost b = budget;
    let r = build_request_frame_for_budget(command, nonce, epoch, budget);
    assert(budget_outcome(cancelled, left, b) && frame_for_budget(*command, nonce@, epoch@, b, r));
    r
}

} // verus!
