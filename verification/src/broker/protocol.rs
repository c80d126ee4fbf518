//! Shared vocabulary of the browser-session broker protocol: the timeout
//! boundary, the shape of request nonces and broker epochs, the closed set of
//! operations and the protocol failure codes.

use vstd::prelude::*;
use crate::opaque_id::is_lower_hex;
use crate::error::AppControlError;

verus! {

/// Largest timeout, in milliseconds, that a broker exchange may carry.
pub const MAXIMUM_TIMEOUT_MS: u32 = 30_000;

/// Whether `s` is a protocol token: thirty-two lowercase hexadecimal digits.
/// Request nonces and broker epochs have this shape.
pub open spec fn is_token(s: Seq<char>) -> bool {
    &&& s.len() == 32
    &&& forall|i: int| 0 <= i < 32 ==> is_lower_hex(#[trigger] s[i])
}

/// Checks the token shape.
pub fn is_token_text(s: &str) -> (r: bool)
    ensures
        r == is_token(s@),
{
    let n = s.unicode_len();
    if n != 32 {
        return false;
    }
    let mut i: usize = 0;
    while i < 32
        invariant
            n == s@.len(),
            n == 32,
            i <= 32,
            forall|j: int| 0 <= j < i ==> is_lower_hex(#[trigger] s@[j]),
        decreases 32 - i,
    {
        let c = s.get_char(i);
        if !(('0' <= c && c <= '9') || ('a' <= c && c <= 'f')) {
            return false;
        }
        i = i + 1;
    }
    true
}

/// Codes of the failures that the protocol's strict builders report.
#[derive(Clone, Copy, Debug, PartialEq, Eq, Structural)]
pub enum ProtocolFailureCode {
    InvalidRequestNonce,
    InvalidBrokerEpoch,
    InvalidTimeout,
    InvalidTarget,
    InvalidArgument,
}

/// The stable text of a protocol failure code.
pub open spec fn protocol_failure_text(c: ProtocolFailureCode) -> Seq<char> {
    match c {
        ProtocolFailureCode::InvalidRequestNonce => "INVALID_REQUEST_NONCE"@,
        ProtocolFailureCode::InvalidBrokerEpoch => "INVALID_BROKER_EPOCH"@,
        ProtocolFailureCode::InvalidTimeout => "INVALID_TIMEOUT"@,
        ProtocolFailureCode::InvalidTarget => "INVALID_TARGET"@,
        ProtocolFailureCode::InvalidArgument => "INVALID_ARGUMENT"@,
    }
}

impl ProtocolFailureCode {
    /// The stable text of the code.
    pub fn as_str(self) -> (r: &'static str)
        ensures
            r@ == protocol_failure_text(self),
    {
        match self {
            ProtocolFailureCode::InvalidRequestNonce => "INVALID_REQUEST_NONCE",
            ProtocolFailureCode::InvalidBrokerEpoch => "INVALID_BROKER_EPOCH",
            ProtocolFailureCode::InvalidTimeout => "INVALID_TIMEOUT",
            ProtocolFailureCode::InvalidTarget => "INVALID_TARGET",
            ProtocolFailureCode::InvalidArgument => "INVALID_ARGUMENT",
        }
    }
}

/// A failure of a strict protocol builder or parser.
#[derive(Clone, Copy, Debug, PartialEq, Eq, Structural)]
pub struct BrowserSessionBrokerProtocolFailure {
    pub code: ProtocolFailureCode,
}

impl BrowserSessionBrokerProtocolFailure {
    /// The failure's code.
    pub fn code(&self) -> (r: ProtocolFailureCode)
        ensures
            r == self.code,
    {
        self.code
    }
}

/// The broker epoch that a ready frame announced, known to have the token shape.
pub struct BrowserSessionBrokerEpoch {
    text: String,
}

impl View for BrowserSessionBrokerEpoch {
    type V = Seq<char>;

    closed spec fn view(&self) -> Seq<char> {
        self.text@
    }
}

impl BrowserSessionBrokerEpoch {
    #[verifier::type_invariant]
    closed spec fn canonical(self) -> bool {
        is_token(self.text@)
    }

    /// Accepts only a canonical epoch.
    pub fn new(text: String) -> (r: Result<Self, BrowserSessionBrokerProtocolFailure>)
        ensures
            is_token(text@) <==> r is Ok,
            r matches Ok(e) ==> e@ == text@,
            r matches Err(f) ==> f.code == ProtocolFailureCode::InvalidBrokerEpoch,
    {
        if is_token_text(text.as_str()) {
            Ok(BrowserSessionBrokerEpoch { text })
        } else {
            Err(BrowserSessionBrokerProtocolFailure { code: ProtocolFailureCode::InvalidBrokerEpoch })
        }
    }

    /// The epoch's text.
    pub fn as_str(&self) -> (r: &str)
        ensures
            r@ == self@,
            is_token(r@),
    {
        proof { use_type_invariant(self); }
        self.text.as_str()
    }
}

/// The operations that the broker serves: five commands that may change the
/// browser and four read-only queries.
#[derive(Clone, Copy, Debug, PartialEq, Eq, Structural)]
pub enum BrowserSessionBrokerOperation {
    SessionOpen,
    SessionClose,
    SessionInspect,
    PageNavigate,
    PageWait,
    PageQuery,
    ElementClick,
    ElementType,
    PageScreenshot,
}

/// The wire name of an operation.
pub open spec fn operation_name(op: BrowserSessionBrokerOperation) -> Seq<char> {
    match op {
        BrowserSessionBrokerOperation::SessionOpen => "session.open"@,
        BrowserSessionBrokerOperation::SessionClose => "session.close"@,
        BrowserSessionBrokerOperation::SessionInspect => "session.inspect"@,
        BrowserSessionBrokerOperation::PageNavigate => "page.navigate"@,
        BrowserSessionBrokerOperation::PageWait => "page.wait"@,
        BrowserSessionBrokerOperation::PageQuery => "page.query"@,
        BrowserSessionBrokerOperation::ElementClick => "element.click"@,
        BrowserSessionBrokerOperation::ElementType => "element.type"@,
        BrowserSessionBrokerOperation::PageScreenshot => "page.screenshot"@,
    }
}

/// Whether an operation is a command (it carries a confirmation and may change
/// the browser) rather than a query.
pub open spec fn is_command(op: BrowserSessionBrokerOperation) -> bool {
    match op {
        BrowserSessionBrokerOperation::SessionOpen
        | BrowserSessionBrokerOperation::SessionClose
        | BrowserSessionBrokerOperation::PageNavigate
        | BrowserSessionBrokerOperation::ElementClick
        | BrowserSessionBrokerOperation::ElementType => true,
        _ => false,
    }
}

impl BrowserSessionBrokerOperation {
    /// The wire name of the operation.
    pub fn as_str(self) -> (r: &'static str)
        ensures
            r@ == operation_name(self),
    {
        match self {
            BrowserSessionBrokerOperation::SessionOpen => "session.open",
            BrowserSessionBrokerOperation::SessionClose => "session.close",
            BrowserSessionBrokerOperation::SessionInspect => "session.inspect",
            BrowserSessionBrokerOperation::PageNavigate => "page.navigate",
            BrowserSessionBrokerOperation::PageWait => "page.wait",
            BrowserSessionBrokerOperation::PageQuery => "page.query",
            BrowserSessionBrokerOperation::ElementClick => "element.click",
            BrowserSessionBrokerOperation::ElementType => "element.type",
            BrowserSessionBrokerOperation::PageScreenshot => "page.screenshot",
        }
    }

    /// Whether the operation is a command.
    pub fn is_command(self) -> (r: bool)
        ensures
            r == is_command(self),
    {
        match self {
            BrowserSessionBrokerOperation::SessionOpen
            | BrowserSessionBrokerOperation::SessionClose
            | BrowserSessionBrokerOperation::PageNavigate
            | BrowserSessionBrokerOperation::ElementClick
            | BrowserSessionBrokerOperation::ElementType => true,
            _ => false,
        }
    }
}

/// The broker error that hides processes, pipes, paths and sessions.
pub fn broker_unavailable(message: &str) -> (r: AppControlError)
    ensures
        r.code@ == "BROKER_UNAVAILABLE"@,
        r.message@ == message@,
        r.details == crate::json::Json::Null,
{
    proof { reveal_strlit("BROKER_UNAVAILABLE"); }
    AppControlError::new("BROKER_UNAVAILABLE", message)
}

/// Turns an announced epoch into the binding the response decoder uses; an
/// epoch of the wrong shape makes the broker unavailable.
pub fn decode_epoch(epoch: &str) -> (r: Result<BrowserSessionBrokerEpoch, AppControlError>)
    ensures
        is_token(epoch@) <==> r is Ok,
        r matches Ok(e) ==> e@ == epoch@,
        r matches Err(err) ==> err.code@ == "BROKER_UNAVAILABLE"@
            && err.message@ == "The browser session broker epoch is invalid."@,
{
    match BrowserSessionBrokerEpoch::new(crate::text::owned(epoch)) {
        Ok(e) => Ok(e),
        Err(_) => Err(broker_unavailable("The browser session broker epoch is invalid.")),
    }
}

} // verus!
