//! The broker's request-bound responses and the public errors projected from
//! them. A response reaches this module already decoded; what is decided here
//! is whether it belongs to the request that was written, and what a final
//! that is not a success tells the caller.

use vstd::prelude::*;
use crate::broker::protocol::BrowserSessionBrokerOperation;
use crate::broker::request::{BrowserSessionBrokerRequest, BrowserSessionExchange, exchange_operation};
use crate::broker::protocol::is_command;
use crate::error::AppControlError;
use crate::json::{Json, bool_member, bool_pair};
use crate::text::str_eq;

verus! {

/// The terminal category of a final response.
#[derive(Clone, Copy, Debug, PartialEq, Eq, Structural)]
pub enum BrowserSessionBrokerOutcome {
    Completed,
    Failed,
    Unknown,
}

/// What a completed operation returned.
pub enum BrowserSessionBrokerSuccess {
    Open { session_id: String },
    Close,
    SessionInspect { session_id: String, live: bool },
    Navigate { page_id: String, generation: u32 },
    Wait { page_id: String, generation: u32 },
    Query(Json),
    Click { page_id: String, element_id: String, generation: u32 },
    Type { page_id: String, element_id: String, generation: u32, utf8_bytes: u16 },
    Screenshot(Json),
}

/// A decoded broker response: an `accepted` frame (no outcome, revision zero)
/// or a final frame (an outcome), with the request identity it answers and the
/// safety facts the broker reports.
pub struct BrowserSessionBrokerResponse {
    pub operation: BrowserSessionBrokerOperation,
    pub request_nonce: String,
    pub broker_epoch: String,
    pub request_revision: u32,
    pub outcome: Option<BrowserSessionBrokerOutcome>,
    pub success: Option<BrowserSessionBrokerSuccess>,
    pub transport_accepted: bool,
    pub business_accepted: bool,
    pub completed: bool,
    pub retry_safe: bool,
    pub outcome_unknown: bool,
    pub target_may_have_mutated: bool,
    pub error_code: Option<String>,
    pub error_message: Option<String>,
}

impl BrowserSessionBrokerResponse {
    /// The terminal category; `None` for an accepted frame.
    pub fn outcome(&self) -> (r: Option<BrowserSessionBrokerOutcome>)
        ensures
            r == self.outcome,
    {
        self.outcome
    }

    /// The success projection, when there is one.
    pub fn success(&self) -> (r: &Option<BrowserSessionBrokerSuccess>)
        ensures
            *r == self.success,
    {
        &self.success
    }

    /// The revision of the request's state that the frame reports.
    pub fn request_revision(&self) -> (r: u32)
        ensures
            r == self.request_revision,
    {
        self.request_revision
    }

    /// The broker's safe error code, when there is one.
    pub fn error_code(&self) -> (r: Option<&str>)
        ensures
            match self.error_code {
                Some(c) => r matches Some(x) && x@ == c@,
                None => r is None,
            },
    {
        match &self.error_code {
            Some(c) => Some(c.as_str()),
            None => None,
        }
    }

    /// The broker's safe error message, when there is one.
    pub fn error_message(&self) -> (r: Option<&str>)
        ensures
            match self.error_message {
                Some(m) => r matches Some(x) && x@ == m@,
                None => r is None,
            },
    {
        match &self.error_message {
            Some(m) => Some(m.as_str()),
            None => None,
        }
    }
}

/// Whether a response answers `request` on the connection bound to `epoch`:
/// same operation, same nonce, same epoch.
pub open spec fn binds(r: BrowserSessionBrokerResponse, request: BrowserSessionBrokerRequest, epoch: Seq<char>) -> bool {
    &&& r.operation == request.operation
    &&& r.request_nonce@ == request.request_nonce@
    &&& r.broker_epoch@ == epoch
}

/// Checks that a response answers the request written on this connection.
pub fn response_binds(r: &BrowserSessionBrokerResponse, request: &BrowserSessionBrokerRequest, epoch: &str) -> (b: bool)
    ensures
        b == binds(*r, *request, epoch@),
{
    r.operation == request.operation && str_eq(r.request_nonce.as_str(), request.request_nonce.as_str())
        && str_eq(r.broker_epoch.as_str(), epoch)
}

/// Whether `details` is the object of the six public safety facts, in order.
pub open spec fn safety_details(
    details: Json,
    transport_accepted: bool,
    business_accepted: bool,
    completed: bool,
    retry_safe: bool,
    outcome_unknown: bool,
    target_may_have_mutated: bool,
) -> bool {
    &&& details matches Json::Obj(fields)
    &&& fields@.len() == 6
    &&& bool_member(fields@[0], "transportAccepted"@, transport_accepted)
    &&& bool_member(fields@[1], "businessAccepted"@, business_accepted)
    &&& bool_member(fields@[2], "completed"@, completed)
    &&& bool_member(fields@[3], "retrySafe"@, retry_safe)
    &&& bool_member(fields@[4], "outcomeUnknown"@, outcome_unknown)
    &&& bool_member(fields@[5], "targetMayHaveMutated"@, target_may_have_mutated)
}

/// The object of the six public safety facts.
pub fn safety_details_json(
    transport_accepted: bool,
    business_accepted: bool,
    completed: bool,
    retry_safe: bool,
    outcome_unknown: bool,
    target_may_have_mutated: bool,
) -> (r: Json)
    ensures
        safety_details(r, transport_accepted, business_accepted, completed, retry_safe, outcome_unknown,
            target_may_have_mutated),
{
    let mut fields: Vec<(String, Json)> = Vec::new();
    fields.push(bool_pair("transportAccepted", transport_accepted));
    fields.push(bool_pair("businessAccepted", business_accepted));
    fields.push(bool_pair("completed", completed));
    fields.push(bool_pair("retrySafe", retry_safe));
    fields.push(bool_pair("outcomeUnknown", outcome_unknown));
    fields.push(bool_pair("targetMayHaveMutated", target_may_have_mutated));
    Json::Obj(fields)
}

/// The message of an outcome that is unknown after delivery began.
pub open spec fn outcome_unknown_message() -> Seq<char> {
    "The browser session broker request outcome is unknown after delivery began."@
}

/// The error of a request whose write began but whose trusted final was not
/// obtained: accepted for all the caller can tell, not completed, not safe to
/// retry, and possibly mutating exactly when the request is a command.
pub fn post_dispatch_outcome_unknown(command: &BrowserSessionExchange) -> (r: AppControlError)
    ensures
        r.code@ == "OUTCOME_UNKNOWN"@,
        r.message@ == outcome_unknown_message(),
        safety_details(r.details, true, true, false, false, true, is_command(exchange_operation(*command))),
{
    proof { reveal_strlit("OUTCOME_UNKNOWN"); }
    AppControlError::with_details(
        "OUTCOME_UNKNOWN",
        "The browser session broker request outcome is unknown after delivery began.",
        safety_details_json(true, true, false, false, true, command.may_mutate_target()),
    )
}

/// A client error carrying a final response's safety facts.
pub fn response_failure(code: &'static str, message: &str, response: &BrowserSessionBrokerResponse) -> (r: AppControlError)
    ensures
        r.code == code,
        r.message@ == message@,
        safety_details(r.details, response.transport_accepted, response.business_accepted, response.completed,
            response.retry_safe, response.outcome_unknown, response.target_may_have_mutated),
{
    AppControlError::with_details(
        code,
        message,
        safety_details_json(
            response.transport_accepted,
            response.business_accepted,
            response.completed,
            response.retry_safe,
            response.outcome_unknown,
            response.target_may_have_mutated,
        ),
    )
}

/// Whether `code` is one of the broker's rejections that the client keeps as
/// its own public code.
pub open spec fn is_kept_code(code: Seq<char>) -> bool {
    ||| code == "BROWSER_SESSION_REGISTRY_FULL"@
    ||| code == "STALE_SESSION"@
    ||| code == "STALE_PAGE"@
    ||| code == "STALE_ELEMENT"@
    ||| code == "REQUEST_EXPIRED"@
}

/// The public code of a final that is not a success.
pub open spec fn final_error_code(r: BrowserSessionBrokerResponse) -> Seq<char> {
    if r.outcome == Some(BrowserSessionBrokerOutcome::Unknown) {
        "OUTCOME_UNKNOWN"@
    } else {
        match (r.error_code, r.error_message) {
            (Some(c), Some(_)) => if is_kept_code(c@) { c@ } else { "BROKER_OPERATION_FAILED"@ },
            _ => "BROKER_OPERATION_FAILED"@,
        }
    }
}

/// The public message of a final that is not a success.
pub open spec fn final_error_message(r: BrowserSessionBrokerResponse) -> Seq<char> {
    if r.outcome == Some(BrowserSessionBrokerOutcome::Unknown) {
        outcome_unknown_message()
    } else {
        match r.error_message {
            Some(m) => m@,
            None => "The browser session broker request did not complete successfully."@,
        }
    }
}

/// What a final that is not a success answers: an unknown outcome stays
/// unknown; a broker rejection with a message keeps its code when it is one
/// of BROWSER_SESSION_REGISTRY_FULL, STALE_SESSION, STALE_PAGE, STALE_ELEMENT
/// or REQUEST_EXPIRED, and its message; any other rejection is
/// BROKER_OPERATION_FAILED with the broker's message, or with a fixed message
/// when the broker gave none.
pub proof fn lemma_final_error_codes(resp: BrowserSessionBrokerResponse)
    ensures
        resp.outcome == Some(BrowserSessionBrokerOutcome::Unknown) ==> final_error_code(resp) == "OUTCOME_UNKNOWN"@
            && final_error_message(resp) == "The browser session broker request outcome is unknown after delivery began."@,
        resp.outcome != Some(BrowserSessionBrokerOutcome::Unknown) && resp.error_code is Some && resp.error_code->0@ == "BROWSER_SESSION_REGISTRY_FULL"@
            && resp.error_message is Some ==> final_error_code(resp) == "BROWSER_SESSION_REGISTRY_FULL"@ && final_error_message(resp) == resp.error_message->0@,
        resp.outcome != Some(BrowserSessionBrokerOutcome::Unknown) && resp.error_code is Some && resp.error_code->0@ == "STALE_SESSION"@
            && resp.error_message is Some ==> final_error_code(resp) == "STALE_SESSION"@ && final_error_message(resp) == resp.error_message->0@,
        resp.outcome != Some(BrowserSessionBrokerOutcome::Unknown) && resp.error_code is Some && resp.error_code->0@ == "STALE_PAGE"@
            && resp.error_message is Some ==> final_error_code(resp) == "STALE_PAGE"@ && final_error_message(resp) == resp.error_message->0@,
        resp.outcome != Some(BrowserSessionBrokerOutcome::Unknown) && resp.error_code is Some && resp.error_code->0@ == "STALE_ELEMENT"@
            && resp.error_message is Some ==> final_error_code(resp) == "STALE_ELEMENT"@ && final_error_message(resp) == resp.error_message->0@,
        resp.outcome != Some(BrowserSessionBrokerOutcome::Unknown) && resp.error_code is Some && resp.error_code->0@ == "REQUEST_EXPIRED"@
            && resp.error_message is Some ==> final_error_code(resp) == "REQUEST_EXPIRED"@ && final_error_message(resp) == resp.error_message->0@,
        resp.outcome != Some(BrowserSessionBrokerOutcome::Unknown) && resp.error_message is Some && (resp.error_code is None || (resp.error_code->0@ != "BROWSER_SESSION_REGISTRY_FULL"@ && resp.error_code->0@ != "STALE_SESSION"@ && resp.error_code->0@ != "STALE_PAGE"@ && resp.error_code->0@ != "STALE_ELEMENT"@ && resp.error_code->0@ != "REQUEST_EXPIRED"@))
            ==> final_error_code(resp) == "BROKER_OPERATION_FAILED"@ && final_error_message(resp) == resp.error_message->0@,
        resp.outcome != Some(BrowserSessionBrokerOutcome::Unknown) && resp.error_message is None ==> final_error_code(resp) == "BROKER_OPERATION_FAILED"@
            && final_error_message(resp) == "The browser session broker request did not complete successfully."@,
{
    reveal_strlit("BROWSER_SESSION_REGISTRY_FULL");
    reveal_strlit("STALE_SESSION");
    reveal_strlit("STALE_PAGE");
    reveal_strlit("STALE_ELEMENT");
    reveal_strlit("REQUEST_EXPIRED");
}

/// Projects a final that is not a success to a public error: an unknown
/// outcome stays unknown, a frozen rejection keeps its code, anything else is
/// a failed operation; the broker's safe message and safety facts are kept.
pub fn final_error(response: &BrowserSessionBrokerResponse) -> (r: AppControlError)
    ensures
        r.code@ == final_error_code(*response),
        r.message@ == final_error_message(*response),
        safety_details(r.details, response.transport_accepted, response.business_accepted, response.completed,
            response.retry_safe, response.outcome_unknown, response.target_may_have_mutated),
        response.outcome == Some(BrowserSessionBrokerOutcome::Unknown) ==> r.code@ == "OUTCOME_UNKNOWN"@
            && r.message@ == "The browser session broker request outcome is unknown after delivery began."@,
        response.outcome != Some(BrowserSessionBrokerOutcome::Unknown) && response.error_code is Some && response.error_code->0@ == "BROWSER_SESSION_REGISTRY_FULL"@
            && response.error_message is Some ==> r.code@ == "BROWSER_SESSION_REGISTRY_FULL"@ && r.message@ == response.error_message->0@,
        response.outcome != Some(BrowserSessionBrokerOutcome::Unknown) && response.error_code is Some && response.error_code->0@ == "STALE_SESSION"@
            && response.error_message is Some ==> r.code@ == "STALE_SESSION"@ && r.message@ == response.error_message->0@,
        response.outcome != Some(BrowserSessionBrokerOutcome::Unknown) && response.error_code is Some && response.error_code->0@ == "STALE_PAGE"@
            && response.error_message is Some ==> r.code@ == "STALE_PAGE"@ && r.message@ == response.error_message->0@,
        response.outcome != Some(BrowserSessionBrokerOutcome::Unknown) && response.error_code is Some && response.error_code->0@ == "STALE_ELEMENT"@
            && response.error_message is Some ==> r.code@ == "STALE_ELEMENT"@ && r.message@ == response.error_message->0@,
        response.outcome != Some(BrowserSessionBrokerOutcome::Unknown) && response.error_code is Some && response.error_code->0@ == "REQUEST_EXPIRED"@
            && response.error_message is Some ==> r.code@ == "REQUEST_EXPIRED"@ && r.message@ == response.error_message->0@,
        response.outcome != Some(BrowserSessionBrokerOutcome::Unknown) && response.error_message is Some && (response.error_code is None || (response.error_code->0@ != "BROWSER_SESSION_REGISTRY_FULL"@ && response.error_code->0@ != "STALE_SESSION"@ && response.error_code->0@ != "STALE_PAGE"@ && response.error_code->0@ != "STALE_ELEMENT"@ && response.error_code->0@ != "REQUEST_EXPIRED"@))
            ==> r.code@ == "BROKER_OPERATION_FAILED"@ && r.message@ == response.error_message->0@,
        response.outcome != Some(BrowserSessionBrokerOutcome::Unknown) && response.error_message is None ==> r.code@ == "BROKER_OPERATION_FAILED"@
            && r.message@ == "The browser session broker request did not complete successfully."@,
{
    proof {
        lemma_final_error_codes(*response);
        reveal_strlit("OUTCOME_UNKNOWN");
        reveal_strlit("BROWSER_SESSION_REGISTRY_FULL");
        reveal_strlit("STALE_SESSION");
        reveal_strlit("STALE_PAGE");
        reveal_strlit("STALE_ELEMENT");
        reveal_strlit("REQUEST_EXPIRED");
        reveal_strlit("BROKER_OPERATION_FAILED");
    }
    if response.outcome() == Some(BrowserSessionBrokerOutcome::Unknown) {
        return response_failure(
            "OUTCOME_UNKNOWN",
            "The browser session broker request outcome is unknown after delivery began.",
            response,
        );
    }
    match (response.error_code(), response.error_message()) {
        (Some(code), Some(message)) => {
            if str_eq(code, "BROWSER_SESSION_REGISTRY_FULL") {
                response_failure("BROWSER_SESSION_REGISTRY_FULL", message, response)
            } else if str_eq(code, "STALE_SESSION") {
                response_failure("STALE_SESSION", message, response)
            } else if str_eq(code, "STALE_PAGE") {
                response_failure("STALE_PAGE", message, response)
            } else if str_eq(code, "STALE_ELEMENT") {
                response_failure("STALE_ELEMENT", message, response)
            } else if str_eq(code, "REQUEST_EXPIRED") {
                response_failure("REQUEST_EXPIRED", message, response)
            } else {
                response_failure("BROKER_OPERATION_FAILED", message, response)
            }
        },
        (None, Some(message)) => response_failure("BROKER_OPERATION_FAILED", message, response),
        _ => response_failure(
            "BROKER_OPERATION_FAILED",
            "The browser session broker request did not complete successfully.",
            response,
        ),
    }
}

} // verus!
