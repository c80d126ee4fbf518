//! The desktop adapter's operation checks and argument rules: which operation
//! a run request names, which confirmations and consents it needs, and how
//! its arguments are read. The native window work happens after these checks.

use vstd::prelude::*;
use crate::app::error_codes::DesktopAdapterErrorCode;
use crate::app::session::foreground_consent_required;
use crate::error::AppControlError;
use crate::json::{Json, field_of, str_spec, i64_spec, u64_spec, arr_spec, fields_get};
use crate::request::{CommandRequest, nonempty_field, nonempty_field_str};
use crate::text::{str_eq, str_starts_with};

verus! {

/// The message of a missing string argument.
pub open spec fn required_string_message(name: Seq<char>) -> Seq<char> {
    "args."@ + name + " 是必填字符串。"@
}

/// Reads a required non-empty string member.
pub fn required_string<'a>(fields: &'a Vec<(String, Json)>, name: &str) -> (r: Result<&'a str, AppControlError>)
    ensures
        match nonempty_field(fields@, name@) {
            Some(s) => r matches Ok(x) && x@ == s,
            None => r matches Err(e) && e.code@ == "INVALID_ARGUMENT"@
                && e.message@ == required_string_message(name@),
        },
{
    match nonempty_field_str(fields, name) {
        Some(s) => Ok(s),
        None => {
            let mut m = crate::text::owned("args.");
            m.append(name);
            m.append(" 是必填字符串。");
            Err(DesktopAdapterErrorCode::InvalidArgument.error(m.as_str()))
        },
    }
}

/// A member that is an integer in the `i32` range.
pub open spec fn i32_field(fields: Seq<(String, Json)>, name: Seq<char>) -> Option<i32> {
    match field_of(fields, name) {
        Some(v) => match i64_spec(v) {
            Some(n) => if i32::MIN <= n && n <= i32::MAX { Some(n as i32) } else { None },
            None => None,
        },
        None => None,
    }
}

/// The message of a missing coordinate.
pub open spec fn required_i32_message(name: Seq<char>) -> Seq<char> {
    "args."@ + name + " 必须是 i32 坐标。"@
}

/// Reads a required `i32` coordinate.
pub fn required_i32(fields: &Vec<(String, Json)>, name: &str) -> (r: Result<i32, AppControlError>)
    ensures
        match i32_field(fields@, name@) {
            Some(n) => r == Ok::<i32, AppControlError>(n),
            None => r matches Err(e) && e.code@ == "INVALID_ARGUMENT"@
                && e.message@ == required_i32_message(name@),
        },
{
    let found = match fields_get(fields, name) {
        Some(v) => match v.as_i64() {
            Some(n) => if i32::MIN as i64 <= n && n <= i32::MAX as i64 { Some(n as i32) } else { None },
            None => None,
        },
        None => None,
    };
    match found {
        Some(n) => Ok(n),
        None => {
            let mut m = crate::text::owned("args.");
            m.append(name);
            m.append(" 必须是 i32 坐标。");
            Err(DesktopAdapterErrorCode::InvalidArgument.error(m.as_str()))
        },
    }
}

/// Largest time a key may be held, in milliseconds.
pub const MAXIMUM_HOLD_MS: u64 = 5_000;

/// Reads the optional hold time of a key press: absent is zero; present it
/// must be an integer from zero to five seconds.
pub fn optional_hold_ms(value: Option<&Json>) -> (r: Result<u64, AppControlError>)
    ensures
        match value {
            None => r == Ok::<u64, AppControlError>(0),
            Some(v) => match u64_spec(*v) {
                Some(n) if n <= MAXIMUM_HOLD_MS => r == Ok::<u64, AppControlError>(n),
                _ => r matches Err(e) && e.code@ == "INVALID_ARGUMENT"@
                    && e.message@ == "args.holdMs must be an integer between 0 and 5000."@,
            },
        },
{
    match value {
        None => Ok(0),
        Some(v) => match v.as_u64() {
            Some(n) => if n <= MAXIMUM_HOLD_MS {
                Ok(n)
            } else {
                Err(DesktopAdapterErrorCode::InvalidArgument.error("args.holdMs must be an integer between 0 and 5000."))
            },
            None => Err(DesktopAdapterErrorCode::InvalidArgument.error("args.holdMs must be an integer between 0 and 5000.")),
        },
    }
}

/// Whether a phase name is one of `press`, `down` and `up`.
pub open spec fn is_key_phase(s: Seq<char>) -> bool {
    s == "press"@ || s == "down"@ || s == "up"@
}

/// Reads the optional phase of a key press: absent is `press`; present it must
/// be `press`, `down` or `up`.
pub fn optional_key_phase<'a>(value: Option<&'a Json>) -> (r: Result<&'a str, AppControlError>)
    ensures
        match value {
            None => r matches Ok(p) && p@ == "press"@,
            Some(v) => match str_spec(*v) {
                Some(s) if is_key_phase(s) => r matches Ok(p) && p@ == s,
                _ => r matches Err(e) && e.code@ == "INVALID_ARGUMENT"@
                    && e.message@ == "args.phase must be 'press', 'down', or 'up'."@,
            },
        },
{
    proof {
        reveal_strlit("press");
        reveal_strlit("down");
        reveal_strlit("up");
    }
    match value {
        None => Ok("press"),
        Some(v) => match v.as_str() {
            Some(s) => if str_eq(s, "press") || str_eq(s, "down") || str_eq(s, "up") {
                Ok(s)
            } else {
                Err(DesktopAdapterErrorCode::InvalidArgument.error("args.phase must be 'press', 'down', or 'up'."))
            },
            None => Err(DesktopAdapterErrorCode::InvalidArgument.error("args.phase must be 'press', 'down', or 'up'.")),
        },
    }
}

/// Whether every element is a string.
pub open spec fn all_strings(items: Seq<Json>) -> bool {
    forall|i: int| 0 <= i < items.len() ==> (#[trigger] str_spec(items[i])) is Some
}

/// Reads a process argument vector: an array of strings.
pub fn parse_argv<'a>(value: &'a Json) -> (r: Result<Vec<&'a str>, AppControlError>)
    ensures
        match arr_spec(*value) {
            None => r matches Err(e) && e.code@ == "INVALID_ARGUMENT"@
                && e.message@ == "args.argv 必须是字符串数组。"@,
            Some(items) => if all_strings(items) {
                r matches Ok(v) && v@.len() == items.len()
                    && forall|i: int| 0 <= i < items.len() ==> Some(#[trigger] v@[i]@) == str_spec(items[i])
            } else {
                r matches Err(e) && e.code@ == "INVALID_ARGUMENT"@
                    && e.message@ == "args.argv 只能包含字符串。"@
            },
        },
{
    let items = match value.as_array() {
        Some(items) => items,
        None => { return Err(DesktopAdapterErrorCode::InvalidArgument.error("args.argv 必须是字符串数组。")); },
    };
    let mut out: Vec<&'a str> = Vec::new();
    let mut i: usize = 0;
    while i < items.len()
        invariant
            i <= items@.len(),
            arr_spec(*value) == Some(items@),
            out@.len() == i,
            forall|j: int| 0 <= j < i ==> Some(#[trigger] out@[j]@) == str_spec(items@[j]),
            forall|j: int| 0 <= j < i ==> (#[trigger] str_spec(items@[j])) is Some,
        decreases items@.len() - i,
    {
        match items[i].as_str() {
            Some(s) => out.push(s),
            None => { return Err(DesktopAdapterErrorCode::InvalidArgument.error("args.argv 只能包含字符串。")); },
        }
        i = i + 1;
    }
    Ok(out)
}

/// What an accepted desktop run goes on to do.
#[derive(Debug)]
pub enum DesktopRoute {
    /// Capture the exact window behind an opaque window session.
    OpaqueWindowScreenshot { session_id: String },
    /// Capture a window found by the target's filters.
    WindowScreenshot,
    /// Record the window behind a session.
    Record { session_id: String },
    /// Close the exact window behind an opaque window session.
    OpaqueWindowClose { session_id: String },
    /// Close a window found by the target's filters.
    WindowClose,
    /// Set the text of the standard Edit control behind an opaque control
    /// session; `None` keeps the provider's default timeout.
    StandardEditText { session_id: String, text: String, timeout_ms: Option<u32> },
    /// Type into a window found by the target's filters.
    WindowText,
    /// Press a key in a window, with foreground consent.
    PressKey,
    /// Click in a window, with foreground consent.
    Click,
    /// Start an executable directly.
    Launch,
}

/// The desktop adapter.
pub struct DesktopAdapter;

/// The string member `key` of the target, possibly empty.
pub open spec fn target_str(request: CommandRequest, key: Seq<char>) -> Option<Seq<char>> {
    match field_of(request.target@, key) {
        Some(v) => str_spec(v),
        None => None,
    }
}

/// Whether the operation is exactly `name`.
pub open spec fn operation_is(request: CommandRequest, name: Seq<char>) -> bool {
    request.operation matches Some(op) && op@ == name
}

/// The operations the adapter serves.
pub open spec fn is_desktop_operation(op: Seq<char>) -> bool {
    ||| op == "screenshot"@
    ||| op == "record"@
    ||| op == "close"@
    ||| op == "type-text"@
    ||| op == "press-key"@
    ||| op == "click"@
    ||| op == "launch"@
}

/// Whether `s` starts with `prefix`.
pub open spec fn has_prefix(s: Seq<char>, prefix: Seq<char>) -> bool {
    prefix.len() <= s.len() && s.subrange(0, prefix.len() as int) == prefix
}

/// The message of the foreground-consent refusal of a desktop operation.
pub open spec fn desktop_consent_reason() -> Seq<char> {
    "The desktop operation always activates a native window and sends foreground input."@
}

/// The served operation names are pairwise different.
proof fn lemma_operation_names_distinct()
    ensures
        "screenshot"@ != "record"@, "screenshot"@ != "close"@, "screenshot"@ != "type-text"@,
        "screenshot"@ != "press-key"@, "screenshot"@ != "click"@, "screenshot"@ != "launch"@,
        "record"@ != "close"@, "record"@ != "type-text"@, "record"@ != "press-key"@,
        "record"@ != "click"@, "record"@ != "launch"@,
        "close"@ != "type-text"@, "close"@ != "press-key"@, "close"@ != "click"@, "close"@ != "launch"@,
        "type-text"@ != "press-key"@, "type-text"@ != "click"@, "type-text"@ != "launch"@,
        "press-key"@ != "click"@, "press-key"@ != "launch"@,
        "click"@ != "launch"@,
{
    reveal_strlit("screenshot"); reveal_strlit("record"); reveal_strlit("close");
    reveal_strlit("type-text"); reveal_strlit("press-key"); reveal_strlit("click");
    reveal_strlit("launch");
    assert("close"@[2] != "click"@[2]);
    assert("record"@[0] != "launch"@[0]);
    assert("screenshot"@[0] != "type-text"@[0]);
    assert("screenshot"@[0] != "press-key"@[0]);
}

impl DesktopAdapter {
    /// The adapter's application name.
    pub fn app_id(&self) -> (r: &'static str)
        ensures
            r@ == "desktop"@,
    {
        "desktop"
    }

    /// The checks of a run request: the operation must be present and served;
    /// screenshots, recordings and closes need confirmation; text set through
    /// an opaque control session needs confirmation and its text; key presses
    /// and clicks need foreground consent.
    #[verifier::rlimit(30)]
    pub fn run(&self, request: &CommandRequest) -> (r: Result<DesktopRoute, AppControlError>)
        ensures
            request.operation is None ==> (r matches Err(e) && e.code@ == "INVALID_ARGUMENT"@
                && e.message@ == "run 缺少 operation。"@),
            (request.operation matches Some(op) && !is_desktop_operation(op@)) ==> (r matches Err(e)
                && e.code@ == "BACKGROUND_OPERATION_UNAVAILABLE"@
                && e.message@ == "desktop."@ + request.operation->0@ + " 未认证为控制操作。"@),
            operation_is(*request, "screenshot"@) ==> if !request.confirmed {
                r matches Err(e) && e.code@ == "CONFIRMATION_REQUIRED"@
                    && e.message@ == "Exact window screenshot requires explicit confirmation."@
            } else {
                match nonempty_field(request.target@, "sessionId"@) {
                    None => r matches Err(e) && e.code@ == "INVALID_ARGUMENT"@
                        && e.message@ == required_string_message("sessionId"@),
                    Some(s) => if has_prefix(s, "s2:w:"@) {
                        r matches Ok(DesktopRoute::OpaqueWindowScreenshot { session_id }) && session_id@ == s
                    } else {
                        r matches Ok(DesktopRoute::WindowScreenshot)
                    },
                }
            },
            operation_is(*request, "record"@) ==> if !request.confirmed {
                r matches Err(e) && e.code@ == "CONFIRMATION_REQUIRED"@
                    && e.message@ == "Exact window recording requires explicit confirmation."@
            } else {
                match nonempty_field(request.target@, "sessionId"@) {
                    None => r matches Err(e) && e.code@ == "INVALID_ARGUMENT"@
                        && e.message@ == required_string_message("sessionId"@),
                    Some(s) => r matches Ok(DesktopRoute::Record { session_id }) && session_id@ == s,
                }
            },
            operation_is(*request, "close"@) ==> if !request.confirmed {
                r matches Err(e) && e.code@ == "CONFIRMATION_REQUIRED"@
                    && e.message@ == "Exact window close requires confirmation."@
            } else {
                match target_str(*request, "sessionId"@) {
                    Some(s) if has_prefix(s, "s2:w:"@) =>
                        r matches Ok(DesktopRoute::OpaqueWindowClose { session_id }) && session_id@ == s,
                    _ => r matches Ok(DesktopRoute::WindowClose),
                }
            },
            operation_is(*request, "type-text"@) ==> match target_str(*request, "sessionId"@) {
                Some(s) if has_prefix(s, "s2:c:"@) => if !request.confirmed {
                    r matches Err(e) && e.code@ == "CONFIRMATION_REQUIRED"@
                        && e.message@ == "Standard Edit text mutation requires confirmation."@
                } else {
                    match nonempty_field(request.args@, "text"@) {
                        None => r matches Err(e) && e.code@ == "INVALID_ARGUMENT"@
                            && e.message@ == required_string_message("text"@),
                        Some(t) => match field_of(request.args@, "timeoutMs"@) {
                            None => r matches Ok(DesktopRoute::StandardEditText { session_id, text, timeout_ms })
                                && session_id@ == s && text@ == t && timeout_ms is None,
                            Some(v) => match u64_spec(v) {
                                Some(n) if n <= u32::MAX =>
                                    r matches Ok(DesktopRoute::StandardEditText { session_id, text, timeout_ms })
                                        && session_id@ == s && text@ == t && timeout_ms == Some(n as u32),
                                _ => r matches Err(e) && e.code@ == "INVALID_ARGUMENT"@
                                    && e.message@ == "args.timeoutMs must be an integer."@,
                            },
                        },
                    }
                },
                _ => r matches Ok(DesktopRoute::WindowText),
            },
            (operation_is(*request, "press-key"@) || operation_is(*request, "click"@)) ==> if !request.foreground_consent {
                r matches Err(e) && e.code@ == "FOREGROUND_CONSENT_REQUIRED"@ && e.message@ == desktop_consent_reason()
            } else if operation_is(*request, "press-key"@) {
                r matches Ok(DesktopRoute::PressKey)
            } else {
                r matches Ok(DesktopRoute::Click)
            },
            operation_is(*request, "launch"@) ==> r matches Ok(DesktopRoute::Launch),
    {
        proof {
            reveal_strlit("screenshot"); reveal_strlit("record"); reveal_strlit("close");
            reveal_strlit("type-text"); reveal_strlit("press-key"); reveal_strlit("click");
            reveal_strlit("launch"); reveal_strlit("s2:w:"); reveal_strlit("s2:c:");
            reveal_strlit("INVALID_ARGUMENT"); reveal_strlit("CONFIRMATION_REQUIRED");
            reveal_strlit("BACKGROUND_OPERATION_UNAVAILABLE");
            lemma_operation_names_distinct();
        }
        let op = match &request.operation {
            Some(op) => op.as_str(),
            None => { return Err(DesktopAdapterErrorCode::InvalidArgument.error("run 缺少 operation。")); },
        };
        if str_eq(op, "screenshot") {
            if !request.confirmed {
                return Err(DesktopAdapterErrorCode::ConfirmationRequired.error(
                    "Exact window screenshot requires explicit confirmation.",
                ));
            }
            let session_id = match required_string(&request.target, "sessionId") {
                Ok(s) => s,
                Err(e) => { return Err(e); },
            };
            if str_starts_with(session_id, "s2:w:") {
                return Ok(DesktopRoute::OpaqueWindowScreenshot { session_id: crate::text::owned(session_id) });
            }
            return Ok(DesktopRoute::WindowScreenshot);
        }
        if str_eq(op, "record") {
            if !request.confirmed {
                return Err(DesktopAdapterErrorCode::ConfirmationRequired.error(
                    "Exact window recording requires explicit confirmation.",
                ));
            }
            let session_id = match required_string(&request.target, "sessionId") {
                Ok(s) => s,
                Err(e) => { return Err(e); },
            };
            return Ok(DesktopRoute::Record { session_id: crate::text::owned(session_id) });
        }
        if str_eq(op, "close") {
            if !request.confirmed {
                return Err(DesktopAdapterErrorCode::ConfirmationRequired.error(
                    "Exact window close requires confirmation.",
                ));
            }
            let session_id = match fields_get(&request.target, "sessionId") {
                Some(v) => v.as_str(),
                None => None,
            };
            return match session_id {
                Some(s) => if str_starts_with(s, "s2:w:") {
                    Ok(DesktopRoute::OpaqueWindowClose { session_id: crate::text::owned(s) })
                } else {
                    Ok(DesktopRoute::WindowClose)
                },
                None => Ok(DesktopRoute::WindowClose),
            };
        }
        if str_eq(op, "type-text") {
            let session_id = match fields_get(&request.target, "sessionId") {
                Some(v) => v.as_str(),
                None => None,
            };
            let s = match session_id {
                Some(s) => if str_starts_with(s, "s2:c:") { s } else { return Ok(DesktopRoute::WindowText); },
                None => { return Ok(DesktopRoute::WindowText); },
            };
            if !request.confirmed {
                return Err(DesktopAdapterErrorCode::ConfirmationRequired.error(
                    "Standard Edit text mutation requires confirmation.",
                ));
            }
            let text = match required_string(&request.args, "text") {
                Ok(t) => t,
                Err(e) => { return Err(e); },
            };
            let timeout_ms = match fields_get(&request.args, "timeoutMs") {
                None => None,
                Some(v) => match v.as_u64() {
                    Some(n) => if n <= u32::MAX as u64 {
                        Some(n as u32)
                    } else {
                        return Err(DesktopAdapterErrorCode::InvalidArgument.error("args.timeoutMs must be an integer."));
                    },
                    None => {
                        return Err(DesktopAdapterErrorCode::InvalidArgument.error("args.timeoutMs must be an integer."));
                    },
                },
            };
            return Ok(DesktopRoute::StandardEditText {
                session_id: crate::text::owned(s),
                text: crate::text::owned(text),
                timeout_ms,
            });
        }
        if str_eq(op, "press-key") || str_eq(op, "click") {
            if !request.foreground_consent {
                let mut evidence: Vec<(String, Json)> = Vec::new();
                evidence.push(crate::json::str_pair("operation", op));
                evidence.push(crate::json::str_pair("execution", "foreground"));
                return Err(foreground_consent_required(
                    "The desktop operation always activates a native window and sends foreground input.",
                    Json::Obj(evidence),
                ));
            }
            if str_eq(op, "press-key") {
                return Ok(DesktopRoute::PressKey);
            }
            return Ok(DesktopRoute::Click);
        }
        if str_eq(op, "launch") {
            return Ok(DesktopRoute::Launch);
        }
        let mut m = crate::text::owned("desktop.");
        m.append(op);
        m.append(" 未认证为控制操作。");
        Err(DesktopAdapterErrorCode::BackgroundOperationUnavailable.error(m.as_str()))
    }
}

} // verus!
