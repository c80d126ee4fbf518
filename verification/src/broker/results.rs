//! The public results of the broker operations, projected from the trusted
//! final that an exchange returned: a completed success of the expected kind
//! becomes the result; every other final becomes the public error of
//! [`final_error`].

use vstd::prelude::*;
use crate::broker::response::{safety_details, BrowserSessionBrokerOutcome, BrowserSessionBrokerResponse,
    BrowserSessionBrokerSuccess, final_error, final_error_code, final_error_message};
use crate::broker::protocol::is_token;
use crate::error::{AppControlError, plain_error};
use crate::json::{Json, get_spec, str_spec, u64_spec, clone_json, json_eq};

verus! {

/// A page after a confirmed navigation: its identity and generation.
#[derive(Debug)]
pub struct BrowserSessionNavigation {
    pub page_id: String,
    pub generation: u32,
}

/// A page observed by a wait.
#[derive(Debug)]
pub struct BrowserSessionPageObservation {
    pub page_id: String,
    pub generation: u32,
}

/// The element a confirmed action reached.
#[derive(Debug)]
pub struct BrowserSessionElementAction {
    pub page_id: String,
    pub element_id: String,
    pub generation: u32,
}

/// A confirmed typing action and the UTF-8 size of the typed text.
#[derive(Debug)]
pub struct BrowserSessionTypeAction {
    pub action: BrowserSessionElementAction,
    pub utf8_bytes: u16,
}

/// A bounded PNG screenshot of a page.
#[derive(Debug)]
pub struct BrowserSessionPageScreenshot {
    pub page_id: String,
    pub generation: u32,
    pub mime_type: String,
    pub png_base64: String,
    pub png_bytes: u64,
    pub width: u32,
    pub height: u32,
    pub digest: String,
}

impl BrowserSessionElementAction {
    /// The page's identity.
    pub fn page_id(&self) -> (r: &str)
        ensures
            r@ == self.page_id@,
    {
        self.page_id.as_str()
    }

    /// The element's identity.
    pub fn element_id(&self) -> (r: &str)
        ensures
            r@ == self.element_id@,
    {
        self.element_id.as_str()
    }

    /// The page's generation.
    pub fn generation(&self) -> (r: u32)
        ensures
            r == self.generation,
    {
        self.generation
    }
}

impl BrowserSessionTypeAction {
    /// The element action.
    pub fn action(&self) -> (r: &BrowserSessionElementAction)
        ensures
            *r == self.action,
    {
        &self.action
    }

    /// The UTF-8 size of the typed text.
    pub fn utf8_bytes(&self) -> (r: u16)
        ensures
            r == self.utf8_bytes,
    {
        self.utf8_bytes
    }
}

impl BrowserSessionPageScreenshot {
    /// The page's identity.
    pub fn page_id(&self) -> (r: &str)
        ensures
            r@ == self.page_id@,
    {
        self.page_id.as_str()
    }

    /// The page's generation.
    pub fn generation(&self) -> (r: u32)
        ensures
            r == self.generation,
    {
        self.generation
    }

    /// The image's media type.
    pub fn mime_type(&self) -> (r: &str)
        ensures
            r@ == self.mime_type@,
    {
        self.mime_type.as_str()
    }

    /// The image, base64-encoded.
    pub fn png_base64(&self) -> (r: &str)
        ensures
            r@ == self.png_base64@,
    {
        self.png_base64.as_str()
    }

    /// The image's size in bytes.
    pub fn png_bytes(&self) -> (r: u64)
        ensures
            r == self.png_bytes,
    {
        self.png_bytes
    }

    /// The image's width.
    pub fn width(&self) -> (r: u32)
        ensures
            r == self.width,
    {
        self.width
    }

    /// The image's height.
    pub fn height(&self) -> (r: u32)
        ensures
            r == self.height,
    {
        self.height
    }

    /// The image's digest.
    pub fn digest(&self) -> (r: &str)
        ensures
            r@ == self.digest@,
    {
        self.digest.as_str()
    }
}

impl BrowserSessionPageObservation {
    /// The page's identity.
    pub fn page_id(&self) -> (r: &str)
        ensures
            r@ == self.page_id@,
    {
        self.page_id.as_str()
    }

    /// The page's generation.
    pub fn generation(&self) -> (r: u32)
        ensures
            r == self.generation,
    {
        self.generation
    }
}

impl BrowserSessionNavigation {
    /// The page's identity.
    pub fn page_id(&self) -> (r: &str)
        ensures
            r@ == self.page_id@,
    {
        self.page_id.as_str()
    }

    /// The page's generation.
    pub fn generation(&self) -> (r: u32)
        ensures
            r == self.generation,
    {
        self.generation
    }
}

/// Whether `e` is the public error of the final `r`.
pub open spec fn is_final_error(e: AppControlError, r: BrowserSessionBrokerResponse) -> bool {
    &&& e.code@ == final_error_code(r)
    &&& e.message@ == final_error_message(r)
    &&& safety_details(e.details, r.transport_accepted, r.business_accepted, r.completed, r.retry_safe,
        r.outcome_unknown, r.target_may_have_mutated)
}

/// Whether a final completed.
pub open spec fn completed(r: BrowserSessionBrokerResponse) -> bool {
    r.outcome == Some(BrowserSessionBrokerOutcome::Completed)
}

/// The session an open returned.
pub fn open_confirmed(response: &BrowserSessionBrokerResponse) -> (r: Result<String, AppControlError>)
    ensures
        match (completed(*response), response.success) {
            (true, Some(BrowserSessionBrokerSuccess::Open { session_id })) => r matches Ok(s) && s@ == session_id@,
            _ => r matches Err(e) && is_final_error(e, *response),
        },
{
    match (response.outcome(), response.success()) {
        (Some(BrowserSessionBrokerOutcome::Completed), Some(BrowserSessionBrokerSuccess::Open { session_id })) =>
            Ok(session_id.clone()),
        _ => Err(final_error(response)),
    }
}

/// Whether a close completed.
pub fn close_confirmed(response: &BrowserSessionBrokerResponse) -> (r: Result<(), AppControlError>)
    ensures
        match (completed(*response), response.success) {
            (true, Some(BrowserSessionBrokerSuccess::Close)) => r is Ok,
            _ => r matches Err(e) && is_final_error(e, *response),
        },
{
    match (response.outcome(), response.success()) {
        (Some(BrowserSessionBrokerOutcome::Completed), Some(BrowserSessionBrokerSuccess::Close)) => Ok(()),
        _ => Err(final_error(response)),
    }
}

/// Whether the queried session is live in the broker's current registry: the
/// final must have completed, echo the same session and report it live.
pub fn inspect_session(session_id: &str, response: &BrowserSessionBrokerResponse) -> (r: Result<(), AppControlError>)
    ensures
        match (completed(*response), response.success) {
            (true, Some(BrowserSessionBrokerSuccess::SessionInspect { session_id: s, live }))
                if s@ == session_id@ && live => r is Ok,
            _ => r matches Err(e) && is_final_error(e, *response),
        },
{
    match (response.outcome(), response.success()) {
        (Some(BrowserSessionBrokerOutcome::Completed),
            Some(BrowserSessionBrokerSuccess::SessionInspect { session_id: returned, live })) => {
            if crate::text::str_eq(returned.as_str(), session_id) && *live {
                Ok(())
            } else {
                Err(final_error(response))
            }
        },
        _ => Err(final_error(response)),
    }
}

/// The page a confirmed navigation reached.
pub fn navigate_confirmed(response: &BrowserSessionBrokerResponse) -> (r: Result<BrowserSessionNavigation, AppControlError>)
    ensures
        match (completed(*response), response.success) {
            (true, Some(BrowserSessionBrokerSuccess::Navigate { page_id, generation })) =>
                r matches Ok(n) && n.page_id@ == page_id@ && n.generation == generation,
            _ => r matches Err(e) && is_final_error(e, *response),
        },
{
    match (response.outcome(), response.success()) {
        (Some(BrowserSessionBrokerOutcome::Completed),
            Some(BrowserSessionBrokerSuccess::Navigate { page_id, generation })) =>
            Ok(BrowserSessionNavigation { page_id: page_id.clone(), generation: *generation }),
        _ => Err(final_error(response)),
    }
}

/// The page a wait observed.
pub fn wait(response: &BrowserSessionBrokerResponse) -> (r: Result<BrowserSessionPageObservation, AppControlError>)
    ensures
        match (completed(*response), response.success) {
            (true, Some(BrowserSessionBrokerSuccess::Wait { page_id, generation })) =>
                r matches Ok(n) && n.page_id@ == page_id@ && n.generation == generation,
            _ => r matches Err(e) && is_final_error(e, *response),
        },
{
    match (response.outcome(), response.success()) {
        (Some(BrowserSessionBrokerOutcome::Completed),
            Some(BrowserSessionBrokerSuccess::Wait { page_id, generation })) =>
            Ok(BrowserSessionPageObservation { page_id: page_id.clone(), generation: *generation }),
        _ => Err(final_error(response)),
    }
}

/// The data a page query returned.
pub fn query(response: &BrowserSessionBrokerResponse) -> (r: Result<Json, AppControlError>)
    ensures
        match (completed(*response), response.success) {
            (true, Some(BrowserSessionBrokerSuccess::Query(data))) => r matches Ok(d) && json_eq(data, d),
            _ => r matches Err(e) && is_final_error(e, *response),
        },
{
    match (response.outcome(), response.success()) {
        (Some(BrowserSessionBrokerOutcome::Completed), Some(BrowserSessionBrokerSuccess::Query(data))) =>
            Ok(clone_json(data)),
        _ => Err(final_error(response)),
    }
}

/// The element a confirmed click reached.
pub fn click_confirmed(response: &BrowserSessionBrokerResponse) -> (r: Result<BrowserSessionElementAction, AppControlError>)
    ensures
        match (completed(*response), response.success) {
            (true, Some(BrowserSessionBrokerSuccess::Click { page_id, element_id, generation })) =>
                r matches Ok(a) && a.page_id@ == page_id@ && a.element_id@ == element_id@
                    && a.generation == generation,
            _ => r matches Err(e) && is_final_error(e, *response),
        },
{
    match (response.outcome(), response.success()) {
        (Some(BrowserSessionBrokerOutcome::Completed),
            Some(BrowserSessionBrokerSuccess::Click { page_id, element_id, generation })) =>
            Ok(BrowserSessionElementAction {
                page_id: page_id.clone(),
                element_id: element_id.clone(),
                generation: *generation,
            }),
        _ => Err(final_error(response)),
    }
}

/// The element a confirmed typing action reached and the typed size.
pub fn type_confirmed(response: &BrowserSessionBrokerResponse) -> (r: Result<BrowserSessionTypeAction, AppControlError>)
    ensures
        match (completed(*response), response.success) {
            (true, Some(BrowserSessionBrokerSuccess::Type { page_id, element_id, generation, utf8_bytes })) =>
                r matches Ok(t) && t.action.page_id@ == page_id@ && t.action.element_id@ == element_id@
                    && t.action.generation == generation && t.utf8_bytes == utf8_bytes,
            _ => r matches Err(e) && is_final_error(e, *response),
        },
{
    match (response.outcome(), response.success()) {
        (Some(BrowserSessionBrokerOutcome::Completed),
            Some(BrowserSessionBrokerSuccess::Type { page_id, element_id, generation, utf8_bytes })) =>
            Ok(BrowserSessionTypeAction {
                action: BrowserSessionElementAction {
                    page_id: page_id.clone(),
                    element_id: element_id.clone(),
                    generation: *generation,
                },
                utf8_bytes: *utf8_bytes,
            }),
        _ => Err(final_error(response)),
    }
}

/// Whether `e` is the error of a completed final whose success data is malformed.
pub open spec fn is_invalid_success(e: AppControlError) -> bool {
    plain_error(e, "BROKER_UNAVAILABLE"@, "The browser session broker returned an invalid final result."@)
}

/// The error of a completed final whose success data is malformed.
pub fn invalid_success() -> (r: AppControlError)
    ensures
        r.code@ == "BROKER_UNAVAILABLE"@,
        r.message@ == "The browser session broker returned an invalid final result."@,
        is_invalid_success(r),
{
    crate::broker::protocol::broker_unavailable("The browser session broker returned an invalid final result.")
}

/// A string member of an object.
pub open spec fn string_field_spec(data: Json, key: Seq<char>) -> Option<Seq<char>> {
    match get_spec(data, key) {
        Some(v) => str_spec(v),
        None => None,
    }
}

/// A non-negative 64-bit member of an object.
pub open spec fn u64_field_spec(data: Json, key: Seq<char>) -> Option<u64> {
    match get_spec(data, key) {
        Some(v) => u64_spec(v),
        None => None,
    }
}

/// A 32-bit member of an object.
pub open spec fn u32_field_spec(data: Json, key: Seq<char>) -> Option<u32> {
    match u64_field_spec(data, key) {
        Some(n) => if n <= u32::MAX { Some(n as u32) } else { None },
        None => None,
    }
}

/// Reads a string member; its absence is an invalid success.
pub fn string_field<'a>(data: &'a Json, key: &str) -> (r: Result<&'a str, AppControlError>)
    ensures
        match string_field_spec(*data, key@) {
            Some(s) => r matches Ok(x) && x@ == s,
            None => r matches Err(e) && is_invalid_success(e),
        },
{
    match data.get(key) {
        Some(v) => match v.as_str() {
            Some(s) => Ok(s),
            None => Err(invalid_success()),
        },
        None => Err(invalid_success()),
    }
}

/// Reads a non-negative 64-bit member.
pub fn u64_field(data: &Json, key: &str) -> (r: Result<u64, AppControlError>)
    ensures
        match u64_field_spec(*data, key@) {
            Some(n) => r == Ok::<u64, AppControlError>(n),
            None => r matches Err(e) && is_invalid_success(e),
        },
{
    match data.get(key) {
        Some(v) => match v.as_u64() {
            Some(n) => Ok(n),
            None => Err(invalid_success()),
        },
        None => Err(invalid_success()),
    }
}

/// Reads a 32-bit member.
pub fn u32_field(data: &Json, key: &str) -> (r: Result<u32, AppControlError>)
    ensures
        match u32_field_spec(*data, key@) {
            Some(n) => r == Ok::<u32, AppControlError>(n),
            None => r matches Err(e) && is_invalid_success(e),
        },
{
    let n = match u64_field(data, key) {
        Ok(n) => n,
        Err(e) => { return Err(e); },
    };
    if n <= u32::MAX as u64 { Ok(n as u32) } else { Err(invalid_success()) }
}

/// Whether screenshot data has every field of the right type.
pub open spec fn screenshot_data_ok(d: Json) -> bool {
    &&& string_field_spec(d, "pageId"@) is Some
    &&& u32_field_spec(d, "navigationGeneration"@) is Some
    &&& string_field_spec(d, "mimeType"@) is Some
    &&& string_field_spec(d, "pngBase64"@) is Some
    &&& u64_field_spec(d, "pngBytes"@) is Some
    &&& u32_field_spec(d, "width"@) is Some
    &&& u32_field_spec(d, "height"@) is Some
    &&& string_field_spec(d, "digest"@) is Some
}

/// Whether `s` holds the eight fields of screenshot data `d`.
pub open spec fn screenshot_fields(d: Json, s: BrowserSessionPageScreenshot) -> bool {
    &&& string_field_spec(d, "pageId"@) == Some(s.page_id@)
    &&& u32_field_spec(d, "navigationGeneration"@) == Some(s.generation)
    &&& string_field_spec(d, "mimeType"@) == Some(s.mime_type@)
    &&& string_field_spec(d, "pngBase64"@) == Some(s.png_base64@)
    &&& u64_field_spec(d, "pngBytes"@) == Some(s.png_bytes)
    &&& u32_field_spec(d, "width"@) == Some(s.width)
    &&& u32_field_spec(d, "height"@) == Some(s.height)
    &&& string_field_spec(d, "digest"@) == Some(s.digest@)
}

/// Projects screenshot data; any missing or mistyped field is an invalid
/// success.
pub fn screenshot_result(data: &Json) -> (r: Result<BrowserSessionPageScreenshot, AppControlError>)
    ensures
        r is Ok <==> screenshot_data_ok(*data),
        r matches Ok(s) ==> {
            &&& string_field_spec(*data, "pageId"@) == Some(s.page_id@)
            &&& u32_field_spec(*data, "navigationGeneration"@) == Some(s.generation)
            &&& string_field_spec(*data, "mimeType"@) == Some(s.mime_type@)
            &&& string_field_spec(*data, "pngBase64"@) == Some(s.png_base64@)
            &&& u64_field_spec(*data, "pngBytes"@) == Some(s.png_bytes)
            &&& u32_field_spec(*data, "width"@) == Some(s.width)
            &&& u32_field_spec(*data, "height"@) == Some(s.height)
            &&& string_field_spec(*data, "digest"@) == Some(s.digest@)
        },
        r matches Ok(s) ==> screenshot_fields(*data, s),
        r matches Err(e) ==> e.code@ == "BROKER_UNAVAILABLE"@ && is_invalid_success(e),
{
    let page_id = match string_field(data, "pageId") { Ok(s) => s, Err(e) => { return Err(e); } };
    let generation = match u32_field(data, "navigationGeneration") { Ok(n) => n, Err(e) => { return Err(e); } };
    let mime_type = match string_field(data, "mimeType") { Ok(s) => s, Err(e) => { return Err(e); } };
    let png_base64 = match string_field(data, "pngBase64") { Ok(s) => s, Err(e) => { return Err(e); } };
    let png_bytes = match u64_field(data, "pngBytes") { Ok(n) => n, Err(e) => { return Err(e); } };
    let width = match u32_field(data, "width") { Ok(n) => n, Err(e) => { return Err(e); } };
    let height = match u32_field(data, "height") { Ok(n) => n, Err(e) => { return Err(e); } };
    let digest = match string_field(data, "digest") { Ok(s) => s, Err(e) => { return Err(e); } };
    Ok(BrowserSessionPageScreenshot {
        page_id: crate::text::owned(page_id),
        generation,
        mime_type: crate::text::owned(mime_type),
        png_base64: crate::text::owned(png_base64),
        png_bytes,
        width,
        height,
        digest: crate::text::owned(digest),
    })
}

/// The screenshot a query of the current page returned.
pub fn screenshot(response: &BrowserSessionBrokerResponse) -> (r: Result<BrowserSessionPageScreenshot, AppControlError>)
    ensures
        match (completed(*response), response.success) {
            (true, Some(BrowserSessionBrokerSuccess::Screenshot(data))) =>
                (r is Ok <==> screenshot_data_ok(data))
                && (r matches Ok(s) ==> screenshot_fields(data, s))
                && (r matches Err(e) ==> e.code@ == "BROKER_UNAVAILABLE"@ && is_invalid_success(e)),
            _ => r matches Err(e) && is_final_error(e, *response),
        },
{
    match (response.outcome(), response.success()) {
        (Some(BrowserSessionBrokerOutcome::Completed), Some(BrowserSessionBrokerSuccess::Screenshot(data))) =>
            screenshot_result(data),
        _ => Err(final_error(response)),
    }
}

/// How a readiness probe ended: the connection or read failed, the ready
/// frame was rejected by the ready parser, or it announced an epoch.
pub enum ProbeOutcome {
    ConnectFailed(AppControlError),
    ReadFailed,
    ReadyInvalid,
    Ready(String),
}

/// The epoch a readiness probe learned: a connection failure keeps its error,
/// an unreadable frame or a frame without a canonical epoch makes the broker
/// unavailable.
pub fn probe_ready(outcome: ProbeOutcome) -> (r: Result<String, AppControlError>)
    ensures
        match outcome {
            ProbeOutcome::ConnectFailed(e) => r == Err::<String, AppControlError>(e),
            ProbeOutcome::ReadFailed => r matches Err(e) && e.code@ == "BROKER_UNAVAILABLE"@
                && e.message@ == "The browser session broker ready frame is unavailable."@,
            ProbeOutcome::ReadyInvalid => r matches Err(e) && e.code@ == "BROKER_UNAVAILABLE"@
                && e.message@ == "The browser session broker ready frame is invalid."@,
            ProbeOutcome::Ready(epoch) => if is_token(epoch@) {
                r matches Ok(s) && s@ == epoch@
            } else {
                r matches Err(e) && e.code@ == "BROKER_UNAVAILABLE"@
                    && e.message@ == "The browser session broker ready frame is invalid."@
            },
        },
{
    match outcome {
        ProbeOutcome::ConnectFailed(e) => Err(e),
        ProbeOutcome::ReadFailed =>
            Err(crate::broker::protocol::broker_unavailable("The browser session broker ready frame is unavailable.")),
        ProbeOutcome::ReadyInvalid =>
            Err(crate::broker::protocol::broker_unavailable("The browser session broker ready frame is invalid.")),
        ProbeOutcome::Ready(epoch) => {
            if crate::broker::protocol::is_token_text(epoch.as_str()) {
                Ok(epoch)
            } else {
                Err(crate::broker::protocol::broker_unavailable("The browser session broker ready frame is invalid."))
            }
        },
    }
}

} // verus!
