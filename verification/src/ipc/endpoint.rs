//! The fixed local endpoints: their kinds, per-session names, frame budgets,
//! the errors every endpoint operation reports, and the wait slices and owner
//! liveness rule that the transport loops follow.

use vstd::prelude::*;
use crate::error::AppControlError;
use crate::json::Json;
use crate::text::decimal_digits;

verus! {

/// Largest frame of the interactive endpoint, both directions.
pub const MAXIMUM_FRAME_BYTES: usize = 262_144;
/// Largest frame of the long-operation endpoint, both directions.
pub const LONG_OPERATION_MAXIMUM_FRAME_BYTES: usize = 1_179_648;
/// Largest request frame of the browser-session endpoint.
pub const BROWSER_SESSION_MAXIMUM_REQUEST_FRAME_BYTES: usize = 65_536;
/// Largest response frame of the browser-session endpoint.
pub const BROWSER_SESSION_MAXIMUM_RESPONSE_FRAME_BYTES: usize = 16_908_288;
/// Longest single wait of a transport loop, in milliseconds.
pub const WAIT_SLICE_MS: u32 = 10;

/// The three production endpoints.
#[derive(Clone, Copy, Debug, PartialEq, Eq, Structural)]
pub enum FixedLocalEndpointKind {
    InteractiveSession,
    LongOperation,
    BrowserSession,
}

/// The fixed name prefix of an endpoint kind; the session number follows it.
pub open spec fn pipe_name_prefix_spec(kind: FixedLocalEndpointKind) -> Seq<char> {
    match kind {
        FixedLocalEndpointKind::InteractiveSession => "\\\\.\\pipe\\ai-computer-toolkit-interactive-session-v1-"@,
        FixedLocalEndpointKind::LongOperation => "\\\\.\\pipe\\ai-computer-toolkit-long-operation-v1-"@,
        FixedLocalEndpointKind::BrowserSession => "\\\\.\\pipe\\ai-computer-toolkit-browser-session-v1-"@,
    }
}

/// The (request, response) frame budgets of an endpoint kind.
pub open spec fn frame_budgets_spec(kind: FixedLocalEndpointKind) -> (usize, usize) {
    match kind {
        FixedLocalEndpointKind::InteractiveSession => (MAXIMUM_FRAME_BYTES, MAXIMUM_FRAME_BYTES),
        FixedLocalEndpointKind::LongOperation =>
            (LONG_OPERATION_MAXIMUM_FRAME_BYTES, LONG_OPERATION_MAXIMUM_FRAME_BYTES),
        FixedLocalEndpointKind::BrowserSession =>
            (BROWSER_SESSION_MAXIMUM_REQUEST_FRAME_BYTES, BROWSER_SESSION_MAXIMUM_RESPONSE_FRAME_BYTES),
    }
}

impl FixedLocalEndpointKind {
    /// The fixed name prefix.
    pub fn pipe_name_prefix(self) -> (r: &'static str)
        ensures
            r@ == pipe_name_prefix_spec(self),
    {
        match self {
            FixedLocalEndpointKind::InteractiveSession => "\\\\.\\pipe\\ai-computer-toolkit-interactive-session-v1-",
            FixedLocalEndpointKind::LongOperation => "\\\\.\\pipe\\ai-computer-toolkit-long-operation-v1-",
            FixedLocalEndpointKind::BrowserSession => "\\\\.\\pipe\\ai-computer-toolkit-browser-session-v1-",
        }
    }

    /// The (request, response) frame budgets.
    pub fn frame_budgets(self) -> (r: (usize, usize))
        ensures
            r == frame_budgets_spec(self),
    {
        match self {
            FixedLocalEndpointKind::InteractiveSession => (MAXIMUM_FRAME_BYTES, MAXIMUM_FRAME_BYTES),
            FixedLocalEndpointKind::LongOperation =>
                (LONG_OPERATION_MAXIMUM_FRAME_BYTES, LONG_OPERATION_MAXIMUM_FRAME_BYTES),
            FixedLocalEndpointKind::BrowserSession =>
                (BROWSER_SESSION_MAXIMUM_REQUEST_FRAME_BYTES, BROWSER_SESSION_MAXIMUM_RESPONSE_FRAME_BYTES),
        }
    }
}

/// An endpoint failure that hides the transport's details.
pub fn endpoint_error(message: &str) -> (r: AppControlError)
    ensures
        r.code@ == "ISOLATED_WORKER_UNAVAILABLE"@,
        r.message@ == message@,
        r.details == Json::Null,
{
    proof { reveal_strlit("ISOLATED_WORKER_UNAVAILABLE"); }
    AppControlError::new("ISOLATED_WORKER_UNAVAILABLE", message)
}

/// The deadline of an endpoint request passed.
pub fn timeout_error() -> (r: AppControlError)
    ensures
        r.code@ == "TIMEOUT"@,
        r.message@ == "The interactive endpoint did not respond before the request deadline."@,
        r.details == Json::Null,
{
    proof { reveal_strlit("TIMEOUT"); }
    AppControlError::new("TIMEOUT", "The interactive endpoint did not respond before the request deadline.")
}

/// An endpoint request was cancelled.
pub fn cancelled_error() -> (r: AppControlError)
    ensures
        r.code@ == "CANCELLED"@,
        r.message@ == "The interactive endpoint request was cancelled."@,
        r.details == Json::Null,
{
    proof { reveal_strlit("CANCELLED"); }
    AppControlError::new("CANCELLED", "The interactive endpoint request was cancelled.")
}

/// An endpoint peer could not be authenticated.
pub fn authentication_error(message: &str) -> (r: AppControlError)
    ensures
        r.code@ == "ENDPOINT_AUTHENTICATION_FAILED"@,
        r.message@ == message@,
        r.details == Json::Null,
{
    proof { reveal_strlit("ENDPOINT_AUTHENTICATION_FAILED"); }
    AppControlError::new("ENDPOINT_AUTHENTICATION_FAILED", message)
}

/// The wait slice for `n` nanoseconds left: the whole milliseconds left, at
/// least one, at most one fixed slice.
pub open spec fn slice_for_nanos(n: u128) -> u32 {
    if n / 1_000_000 <= 1 { 1 } else if n / 1_000_000 >= WAIT_SLICE_MS as u128 { WAIT_SLICE_MS } else { (n / 1_000_000) as u32 }
}

/// Whether `r` is the wait slice for the nanoseconds `left` before the
/// deadline (`None` once it has passed): the slice for any time left, the
/// endpoint timeout otherwise.
pub open spec fn wait_slice_outcome(left: Option<u128>, r: Result<u32, AppControlError>) -> bool {
    match left {
        Some(n) if n > 0 => r == Ok::<u32, AppControlError>(slice_for_nanos(n)),
        _ => r matches Err(e) && e.code@ == "TIMEOUT"@
            && e.message@ == "The interactive endpoint did not respond before the request deadline."@
            && e.details == Json::Null,
    }
}

/// The next wait slice, given the nanoseconds left before the deadline
/// (`None` once it has passed): the whole milliseconds left, at least one,
/// at most one fixed slice; no time left is a timeout.
pub fn wait_slice_from(left: Option<u128>) -> (r: Result<u32, AppControlError>)
    ensures
        wait_slice_outcome(left, r),
{
    match left {
        Some(n) => {
            if n == 0 {
                return Err(timeout_error());
            }
            let ms = n / 1_000_000;
            if ms <= 1 {
                Ok(1)
            } else if ms >= WAIT_SLICE_MS as u128 {
                Ok(WAIT_SLICE_MS)
            } else {
                Ok(ms as u32)
            }
        },
        None => Err(timeout_error()),
    }
}

/// The next wait slice before `deadline`; see [`wait_slice_from`].
pub fn wait_slice_ms(deadline: &std::time::Instant) -> (r: Result<u32, AppControlError>)
    ensures
        exists|left: Option<u128>| #[trigger] wait_slice_outcome(left, r),
        r matches Ok(ms) ==> 1 <= ms <= WAIT_SLICE_MS,
        r matches Err(e) ==> e.code@ == "TIMEOUT"@,
{
    let left = crate::clock::nanos_until(deadline);
    let r = wait_slice_from(left);
    assert(wait_slice_outcome(left, r));
    r
}

/// The UTF-16 code units of text whose characters all lie in the basic plane.
pub open spec fn utf16_units(s: Seq<char>) -> Seq<u16> {
    Seq::new(s.len(), |i: int| s[i] as u16)
}

/// The NUL-terminated UTF-16 name of an endpoint: its prefix followed by the
/// decimal session number.
pub open spec fn pipe_name_spec(kind: FixedLocalEndpointKind, session_id: u32) -> Seq<u16> {
    utf16_units(pipe_name_prefix_spec(kind) + decimal_digits(session_id as nat)).push(0u16)
}

/// The endpoint name of a native session; session zero (services) has none.
pub fn pipe_name(kind: FixedLocalEndpointKind, session_id: u32) -> (r: Result<Vec<u16>, AppControlError>)
    ensures
        session_id == 0 <==> r is Err,
        r matches Ok(name) ==> name@ == pipe_name_spec(kind, session_id),
        r matches Err(e) ==> e.code@ == "ISOLATED_WORKER_UNAVAILABLE"@
            && e.message@ == "The interactive endpoint session is unavailable."@,
{
    if session_id == 0 {
        return Err(endpoint_error("The interactive endpoint session is unavailable."));
    }
    let mut text = crate::text::owned(kind.pipe_name_prefix());
    crate::text::push_decimal(&mut text, session_id as u64);
    let t = text.as_str();
    let n = t.unicode_len();
    let mut units: Vec<u16> = Vec::new();
    let mut i: usize = 0;
    while i < n
        invariant
            n == t@.len(),
            i <= n,
            units@ == utf16_units(t@.take(i as int)),
        decreases n - i,
    {
        let c = t.get_char(i);
        units.push(c as u16);
        assert(units@ =~= utf16_units(t@.take(i + 1)));
        i = i + 1;
    }
    units.push(0u16);
    assert(t@.take(n as int) =~= t@);
    Ok(units)
}

/// Whether the browser-session endpoint owner is live: an endpoint without an
/// owner always is; one with an owner is live while the owner's flag reads
/// true (`Some(false)` also stands for a flag that could not be read).
pub fn browser_authority_live(authority: Option<bool>) -> (r: bool)
    ensures
        r == (authority is None || authority == Some(true)),
{
    match authority {
        None => true,
        Some(live) => live,
    }
}

/// Fails when the endpoint owner is no longer live.
pub fn require_browser_authority_live(authority: Option<bool>) -> (r: Result<(), AppControlError>)
    ensures
        r is Ok <==> (authority is None || authority == Some(true)),
        r matches Err(e) ==> e.code@ == "ISOLATED_WORKER_UNAVAILABLE"@
            && e.message@ == "The browser session endpoint owner is unavailable."@,
{
    if browser_authority_live(authority) {
        Ok(())
    } else {
        Err(endpoint_error("The browser session endpoint owner is unavailable."))
    }
}

/// A session number for browser-endpoint tests that no real Windows session
/// uses: the high test range offset by a per-process sequence, saturating.
pub fn browser_test_session(sequence: u32) -> (r: u32)
    ensures
        r == if 3_000_000_000 + sequence > u32::MAX { u32::MAX as int } else { 3_000_000_000 + sequence },
{
    3_000_000_000u32.saturating_add(sequence)
}

} // verus!
