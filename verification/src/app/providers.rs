//! Identity checks, input checks and public projections of the app providers.

use vstd::prelude::*;
use crate::app::error_codes::{
    AppDesktopErrorCode, AppProcessProviderErrorCode, AppTextErrorCode,
    app_desktop_error_code_text, app_text_error_code_text,
};
use crate::app::session::{required_session_id, session_id_spec};
use crate::capabilities::{
    APPLICATION_OPEN, BROWSER_SESSION_OPEN, PROCESS_TERMINATE_FORCE, PROCESS_TERMINATE_GRACEFUL,
    TEXT_DOCUMENT_CREATE, UI_TEXT_INPUT,
};
use crate::error::{AppControlError, AppResult, plain_error};
use crate::json::{
    Json, bool_member, bool_spec, clone_json, fields_get, get_spec, json_eq, str_member, str_spec,
    u64_spec, value_member,
};
use crate::opaque_id::{OpaqueTargetKind, opaque_id, opaque_id_spec};
use crate::request::CommandRequest;
use crate::text::{owned, str_eq};
use vstd::string::StringSliceAdditionalSpecFns;

verus! {

/// The private value behind the text document creator's identity.
pub const TEXT_DOCUMENT_CREATOR: &'static str = "text-document-creator";

/// The opaque identity of the text document creator.
pub open spec fn application_session_id_spec() -> Seq<char> {
    opaque_id_spec(OpaqueTargetKind::Application, TEXT_DOCUMENT_CREATOR.spec_bytes())
}

/// The opaque identity of the text document creator (`s2:a:` and a fingerprint).
pub fn application_session_id() -> (r: String)
    ensures
        r@ == application_session_id_spec(),
{
    opaque_id(OpaqueTargetKind::Application, TEXT_DOCUMENT_CREATOR)
}

/// Only the current creator identity is accepted; legacy and other ids are not.
pub fn is_current_application_session_id(session_id: &str) -> (r: bool)
    ensures
        r == (session_id@ == application_session_id_spec()),
{
    let current = application_session_id();
    str_eq(session_id, current.as_str())
}

/// The text document provider accepts only its creation capability.
pub fn text_capability_check(capability: &str) -> (r: AppResult<()>)
    ensures
        capability@ == TEXT_DOCUMENT_CREATE@ ==> r is Ok,
        capability@ != TEXT_DOCUMENT_CREATE@ ==> (r matches Err(e) && plain_error(e,
            "CAPABILITY_UNSUPPORTED"@, "The text document session supports text.document.create@1 only."@)),
{
    if !str_eq(capability, TEXT_DOCUMENT_CREATE) {
        return Err(AppTextErrorCode::CapabilityUnsupported.error(
            "The text document session supports text.document.create@1 only.",
        ));
    }
    Ok(())
}

/// The text of `args.input.text`, when present as a string.
pub open spec fn input_text_spec(request: CommandRequest) -> Option<Seq<char>> {
    match crate::json::field_of(request.args@, "input"@) {
        Some(input) => match get_spec(input, "text"@) {
            Some(t) => str_spec(t),
            None => None,
        },
        None => None,
    }
}

/// Whether an optional operation is present and equal to `op`.
pub open spec fn operation_is(o: Option<String>, op: Seq<char>) -> bool {
    match o {
        Some(s) => s@ == op,
        None => false,
    }
}

/// Maps a provider-neutral creation request onto the notepad adapter request:
/// surface `notepad`, operation `open-and-write-text`, no target, and only the
/// text as argument; verb, confirmation, consent and limits are kept.
pub fn delegated_create_request(request: &CommandRequest) -> (r: AppResult<CommandRequest>)
    ensures
        match input_text_spec(*request) {
            Some(text) => r matches Ok(d)
                && d.verb == request.verb
                && d.app@ == "notepad"@
                && operation_is(d.operation, "open-and-write-text"@)
                && d.target@.len() == 0
                && d.args@.len() == 1 && str_member(d.args@[0], "text"@, text)
                && d.confirmed == request.confirmed
                && d.foreground_consent == request.foreground_consent
                && d.max_items == request.max_items,
            None => r matches Err(e) && plain_error(e, "INVALID_ARGUMENT"@, "args.input.text is required."@),
        },
{
    let text = match fields_get(&request.args, "input") {
        Some(input) => match input.get("text") {
            Some(t) => match t.as_str() {
                Some(s) => s,
                None => {
                    return Err(AppTextErrorCode::InvalidArgument.error("args.input.text is required."));
                }
            },
            None => {
                return Err(AppTextErrorCode::InvalidArgument.error("args.input.text is required."));
            }
        },
        None => {
            return Err(AppTextErrorCode::InvalidArgument.error("args.input.text is required."));
        }
    };
    let mut args: Vec<(String, Json)> = Vec::new();
    args.push(crate::json::str_pair("text", text));
    Ok(CommandRequest {
        verb: request.verb,
        app: owned("notepad"),
        operation: Some(owned("open-and-write-text")),
        target: Vec::new(),
        args,
        confirmed: request.confirmed,
        foreground_consent: request.foreground_consent,
        max_items: request.max_items,
    })
}

/// The `foreground.unchanged` flag of an adapter result, when it is a boolean.
pub open spec fn foreground_unchanged_spec(result: Json) -> Option<bool> {
    match get_spec(result, "foreground"@) {
        Some(f) => match get_spec(f, "unchanged"@) {
            Some(u) => bool_spec(u),
            None => None,
        },
        None => None,
    }
}

/// The public document result: the artifact path and verified text copied
/// from the adapter result, fixed encoding and media type, and only the
/// foreground-unchanged flag; no process, path of the editor or native detail.
pub open spec fn document_result_shape(r: Json, path: Json, text: Json, unchanged: Option<bool>) -> bool {
    match r {
        Json::Obj(m) => m@.len() == 7
            && str_member(m@[0], "kind"@, "text-document"@)
            && str_member(m@[1], "state"@, "created"@)
            && m@[2].0@ == "path"@ && json_eq(path, m@[2].1)
            && str_member(m@[3], "encoding"@, "utf-8"@)
            && str_member(m@[4], "mediaType"@, "text/plain"@)
            && m@[5].0@ == "text"@ && json_eq(text, m@[5].1)
            && m@[6].0@ == "foreground"@
            && match m@[6].1 {
                Json::Obj(f) => f@.len() == 1 && f@[0].0@ == "unchanged"@ && f@[0].1 == match unchanged {
                    Some(b) => Json::Bool(b),
                    None => Json::Null,
                },
                _ => false,
            },
        _ => false,
    }
}

/// Projects the notepad adapter result into the provider-neutral document result.
pub fn public_document_result(result: &Json) -> (r: AppResult<Json>)
    ensures
        match (get_spec(*result, "path"@), get_spec(*result, "text"@)) {
            (None, _) => r matches Err(e) && plain_error(e, "OPERATION_FAILED"@,
                "The text document adapter returned no artifact path."@),
            (Some(_), None) => r matches Err(e) && plain_error(e, "OPERATION_FAILED"@,
                "The text document adapter returned no verified content."@),
            (Some(p), Some(t)) => r matches Ok(j)
                && document_result_shape(j, p, t, foreground_unchanged_spec(*result)),
        },
{
    let path = match result.get("path") {
        Some(p) => clone_json(p),
        None => {
            return Err(AppTextErrorCode::OperationFailed.error("The text document adapter returned no artifact path."));
        }
    };
    let text = match result.get("text") {
        Some(t) => clone_json(t),
        None => {
            return Err(AppTextErrorCode::OperationFailed.error("The text document adapter returned no verified content."));
        }
    };
    let unchanged = match result.get("foreground") {
        Some(f) => match f.get("unchanged") {
            Some(u) => u.as_bool(),
            None => None,
        },
        None => None,
    };
    let mut foreground: Vec<(String, Json)> = Vec::new();
    foreground.push(crate::json::value_pair("unchanged", match unchanged {
        Some(b) => Json::Bool(b),
        None => Json::Null,
    }));
    let mut m: Vec<(String, Json)> = Vec::new();
    m.push(crate::json::str_pair("kind", "text-document"));
    m.push(crate::json::str_pair("state", "created"));
    m.push(crate::json::value_pair("path", path));
    m.push(crate::json::str_pair("encoding", "utf-8"));
    m.push(crate::json::str_pair("mediaType", "text/plain"));
    m.push(crate::json::value_pair("text", text));
    m.push(crate::json::value_pair("foreground", Json::Obj(foreground)));
    Ok(Json::Obj(m))
}

} // verus!

verus! {

/// The standard Edit provider refuses, in order: another capability, a missing
/// confirmation, a missing `args.input`.
pub fn standard_edit_checks<'a>(capability: &str, request: &'a CommandRequest) -> (r: AppResult<&'a Json>)
    ensures
        capability@ != UI_TEXT_INPUT@ ==> (r matches Err(e) && plain_error(e, "CAPABILITY_UNSUPPORTED"@,
            "The standard Edit session supports ui.text.input@1 only."@)),
        capability@ == UI_TEXT_INPUT@ && !request.confirmed ==> (r matches Err(e) && plain_error(e,
            "CONFIRMATION_REQUIRED"@, "Standard Edit text mutation requires confirmation."@)),
        capability@ == UI_TEXT_INPUT@ && request.confirmed ==> match crate::json::field_of(request.args@, "input"@) {
            Some(input) => r matches Ok(x) && *x == input,
            None => r matches Err(e) && plain_error(e, "INVALID_ARGUMENT"@,
                "args.input is required for ui.text.input@1."@),
        },
{
    if !str_eq(capability, UI_TEXT_INPUT) {
        return Err(crate::app::error_codes::AppStandardEditErrorCode::CapabilityUnsupported.error(
            "The standard Edit session supports ui.text.input@1 only.",
        ));
    }
    if !request.confirmed {
        return Err(crate::app::error_codes::AppStandardEditErrorCode::ConfirmationRequired.error(
            "Standard Edit text mutation requires confirmation.",
        ));
    }
    match fields_get(&request.args, "input") {
        Some(input) => Ok(input),
        None => Err(crate::app::error_codes::AppStandardEditErrorCode::InvalidArgument.error(
            "args.input is required for ui.text.input@1.",
        )),
    }
}

/// The public apply result of a standard Edit write: readback and byte-count
/// evidence, the same-session execution domain, the unchanged foreground and
/// the exact target; no window handle or implementation detail.
pub open spec fn apply_result_shape(r: Json, readback: bool, text_bytes: u64, session_id: Seq<char>) -> bool {
    match r {
        Json::Obj(m) => m@.len() == 7
            && str_member(m@[0], "state"@, "applied"@)
            && str_member(m@[1], "executionDomain"@, "same-session-no-focus"@)
            && bool_member(m@[2], "verifiedByReadback"@, readback)
            && value_member(m@[3], "textBytes"@, Json::Int(text_bytes as i128))
            && m@[4].0@ == "foreground"@
            && match m@[4].1 {
                Json::Obj(f) => f@.len() == 1 && bool_member(f@[0], "unchanged"@, true),
                _ => false,
            }
            && str_member(m@[5], "compatibilityShape"@, "provider-neutral-standard-edit-v1"@)
            && str_member(m@[6], "targetId"@, session_id),
        _ => false,
    }
}

/// Projects the standard Edit module's result; both evidence fields are required.
pub fn public_apply_result(result: &Json, session_id: &str) -> (r: AppResult<Json>)
    ensures
        match get_spec(*result, "verifiedByReadback"@) {
            Some(v) if bool_spec(v) is Some => match get_spec(*result, "textBytes"@) {
                Some(t) if u64_spec(t) is Some => r matches Ok(j)
                    && apply_result_shape(j, bool_spec(v)->0, u64_spec(t)->0, session_id@),
                _ => r matches Err(e) && plain_error(e, "OPERATION_FAILED"@,
                    "The standard Edit module returned no bounded input evidence."@),
            },
            _ => r matches Err(e) && plain_error(e, "OPERATION_FAILED"@,
                "The standard Edit module returned no readback evidence."@),
        },
{
    let readback = match result.get("verifiedByReadback") {
        Some(v) => match v.as_bool() {
            Some(b) => b,
            None => {
                return Err(crate::app::error_codes::AppStandardEditErrorCode::OperationFailed.error(
                    "The standard Edit module returned no readback evidence.",
                ));
            }
        },
        None => {
            return Err(crate::app::error_codes::AppStandardEditErrorCode::OperationFailed.error(
                "The standard Edit module returned no readback evidence.",
            ));
        }
    };
    let text_bytes = match result.get("textBytes") {
        Some(v) => match v.as_u64() {
            Some(n) => n,
            None => {
                return Err(crate::app::error_codes::AppStandardEditErrorCode::OperationFailed.error(
                    "The standard Edit module returned no bounded input evidence.",
                ));
            }
        },
        None => {
            return Err(crate::app::error_codes::AppStandardEditErrorCode::OperationFailed.error(
                "The standard Edit module returned no bounded input evidence.",
            ));
        }
    };
    let mut foreground: Vec<(String, Json)> = Vec::new();
    foreground.push(crate::json::bool_pair("unchanged", true));
    let mut m: Vec<(String, Json)> = Vec::new();
    m.push(crate::json::str_pair("state", "applied"));
    m.push(crate::json::str_pair("executionDomain", "same-session-no-focus"));
    m.push(crate::json::bool_pair("verifiedByReadback", readback));
    m.push(crate::json::value_pair("textBytes", Json::Int(text_bytes as i128)));
    m.push(crate::json::value_pair("foreground", Json::Obj(foreground)));
    m.push(crate::json::str_pair("compatibilityShape", "provider-neutral-standard-edit-v1"));
    m.push(crate::json::str_pair("targetId", session_id));
    Ok(Json::Obj(m))
}

} // verus!

verus! {

/// A `{min, max, default}` range in milliseconds.
pub open spec fn range_shape(j: Json, min: int, max: int, default: int) -> bool {
    match j {
        Json::Obj(m) => m@.len() == 3
            && value_member(m@[0], "min"@, Json::Int(min as i128))
            && value_member(m@[1], "max"@, Json::Int(max as i128))
            && value_member(m@[2], "default"@, Json::Int(default as i128)),
        _ => false,
    }
}

/// A `{min, max, default}` range.
pub fn range_json(min: i128, max: i128, default: i128) -> (r: Json)
    ensures
        range_shape(r, min as int, max as int, default as int),
{
    let mut m: Vec<(String, Json)> = Vec::new();
    m.push(crate::json::value_pair("min", Json::Int(min)));
    m.push(crate::json::value_pair("max", Json::Int(max)));
    m.push(crate::json::value_pair("default", Json::Int(default)));
    Json::Obj(m)
}

/// The constraints of graceful termination: exact process lifetime, high risk,
/// a close request to a top-level window, a bounded timeout, no fallback.
pub open spec fn graceful_constraints(j: Json) -> bool {
    match j {
        Json::Obj(m) => m@.len() == 6
            && str_member(m@[0], "target"@, "exact-process-lifetime"@)
            && str_member(m@[1], "riskLevel"@, "high"@)
            && str_member(m@[2], "mechanism"@, "top-level-window-close-request"@)
            && bool_member(m@[3], "requiresTopLevelWindow"@, true)
            && m@[4].0@ == "timeoutMs"@ && range_shape(m@[4].1, 1, 30_000, 5_000)
            && str_member(m@[5], "fallback"@, "none"@),
        _ => false,
    }
}

/// The constraints of forced termination: exact process lifetime, critical
/// risk, kernel termination, a bounded timeout, protected targets, no fallback.
pub open spec fn force_constraints(j: Json) -> bool {
    match j {
        Json::Obj(m) => m@.len() == 6
            && str_member(m@[0], "target"@, "exact-process-lifetime"@)
            && str_member(m@[1], "riskLevel"@, "critical"@)
            && str_member(m@[2], "mechanism"@, "kernel-process-termination"@)
            && m@[3].0@ == "timeoutMs"@ && range_shape(m@[3].1, 1, 30_000, 5_000)
            && bool_member(m@[4], "protectedTargets"@, true)
            && str_member(m@[5], "fallback"@, "none"@),
        _ => false,
    }
}

/// The two termination descriptors, graceful first.
pub open spec fn termination_descriptors_shape(j: Json) -> bool {
    match j {
        Json::Arr(v) => v@.len() == 2
            && (exists|c: Json| crate::app::descriptor::descriptor_shape(v@[0], crate::capabilities::Capability::ProcessTerminateGraceful, c) && graceful_constraints(c))
            && (exists|c: Json| crate::app::descriptor::descriptor_shape(v@[1], crate::capabilities::Capability::ProcessTerminateForce, c) && force_constraints(c)),
        _ => false,
    }
}

/// Builds the two termination descriptors.
pub fn termination_descriptors() -> (r: Json)
    ensures
        termination_descriptors_shape(r),
{
    let mut g: Vec<(String, Json)> = Vec::new();
    g.push(crate::json::str_pair("target", "exact-process-lifetime"));
    g.push(crate::json::str_pair("riskLevel", "high"));
    g.push(crate::json::str_pair("mechanism", "top-level-window-close-request"));
    g.push(crate::json::bool_pair("requiresTopLevelWindow", true));
    g.push(crate::json::value_pair("timeoutMs", range_json(1, 30_000, 5_000)));
    g.push(crate::json::str_pair("fallback", "none"));
    let gj = Json::Obj(g);
    let ghost gc = gj;
    let mut f: Vec<(String, Json)> = Vec::new();
    f.push(crate::json::str_pair("target", "exact-process-lifetime"));
    f.push(crate::json::str_pair("riskLevel", "critical"));
    f.push(crate::json::str_pair("mechanism", "kernel-process-termination"));
    f.push(crate::json::value_pair("timeoutMs", range_json(1, 30_000, 5_000)));
    f.push(crate::json::bool_pair("protectedTargets", true));
    f.push(crate::json::str_pair("fallback", "none"));
    let fj = Json::Obj(f);
    let ghost fc = fj;
    let d0 = crate::app::descriptor::capability_descriptor(crate::capabilities::Capability::ProcessTerminateGraceful, gj);
    let d1 = crate::app::descriptor::capability_descriptor(crate::capabilities::Capability::ProcessTerminateForce, fj);
    let mut v: Vec<Json> = Vec::new();
    v.push(d0);
    v.push(d1);
    let r = Json::Arr(v);
    assert(graceful_constraints(gc));
    assert(force_constraints(fc));
    r
}

/// Whether a process observation has exact-lifetime identity.
pub open spec fn exact_lifetime(process: Json) -> bool {
    match get_spec(process, "identityFreshness"@) {
        Some(v) => str_spec(v) == Some("process-lifetime"@),
        None => false,
    }
}

/// Projects a process observation as an app session: kind `process`, and the
/// two termination descriptors only for exact-lifetime identities; every
/// other member is kept as observed.
pub fn augment_process_session(process: Json) -> (r: AppResult<Json>)
    ensures
        match process {
            Json::Obj(fields) => r matches Ok(j) && match j {
                Json::Obj(out) => crate::json::field_of(out@, "kind"@) matches Some(k) && str_spec(k) == Some("process"@)
                    && (crate::json::field_of(out@, "capabilities"@) matches Some(c) && (if exact_lifetime(process) {
                        termination_descriptors_shape(c)
                    } else {
                        c matches Json::Arr(a) && a@.len() == 0
                    }))
                    && forall|k: Seq<char>| k != "kind"@ && k != "capabilities"@
                        ==> #[trigger] crate::json::field_of(out@, k) == crate::json::field_of(fields@, k),
                _ => false,
            },
            _ => r matches Err(e) && plain_error(e, "CAPABILITY_UNSUPPORTED"@,
                "The process observation cannot be exposed as an app session."@),
        },
{
    let exact = match process.get("identityFreshness") {
        Some(v) => match v.as_str() {
            Some(s) => str_eq(s, "process-lifetime"),
            None => false,
        },
        None => false,
    };
    match process {
        Json::Obj(fields) => {
            let ghost orig = fields@;
            let caps = if exact { termination_descriptors() } else { Json::Arr(Vec::new()) };
            let ghost cj = caps;
            let with_kind = crate::json::set_member(fields, "kind", Json::string("process"));
            let out = crate::json::set_member(with_kind, "capabilities", caps);
            proof {
                reveal_strlit("kind");
                reveal_strlit("capabilities");
                assert("kind"@ != "capabilities"@) by {
                    assert("kind"@.len() != "capabilities"@.len());
                }
            }
            assert(forall|k: Seq<char>| k != "kind"@ && k != "capabilities"@
                ==> #[trigger] crate::json::field_of(out@, k) == crate::json::field_of(orig, k));
            Ok(Json::Obj(out))
        },
        _ => Err(AppProcessProviderErrorCode::CapabilityUnsupported.error(
            "The process observation cannot be exposed as an app session.",
        )),
    }
}

/// The two fixed ways to terminate a process.
#[derive(Clone, Copy, Debug, PartialEq, Eq, Structural)]
pub enum ProcessTerminationMode {
    Graceful,
    Force,
}

/// Maps a capability onto its termination mode; anything else is refused
/// before any request field is read.
pub fn termination_mode(capability: &str) -> (r: AppResult<ProcessTerminationMode>)
    ensures
        capability@ == PROCESS_TERMINATE_GRACEFUL@ ==> r == Ok::<ProcessTerminationMode, AppControlError>(ProcessTerminationMode::Graceful),
        capability@ != PROCESS_TERMINATE_GRACEFUL@ && capability@ == PROCESS_TERMINATE_FORCE@
            ==> r == Ok::<ProcessTerminationMode, AppControlError>(ProcessTerminationMode::Force),
        capability@ != PROCESS_TERMINATE_GRACEFUL@ && capability@ != PROCESS_TERMINATE_FORCE@
            ==> (r matches Err(e) && plain_error(e, "CAPABILITY_UNSUPPORTED"@,
                "The process lifecycle provider supports two fixed termination capabilities only."@)),
{
    if str_eq(capability, PROCESS_TERMINATE_GRACEFUL) {
        Ok(ProcessTerminationMode::Graceful)
    } else if str_eq(capability, PROCESS_TERMINATE_FORCE) {
        Ok(ProcessTerminationMode::Force)
    } else {
        Err(AppProcessProviderErrorCode::CapabilityUnsupported.error(
            "The process lifecycle provider supports two fixed termination capabilities only.",
        ))
    }
}

/// The capability ids of a process session from its exact inspection: both
/// terminations for exact-lifetime identities, none otherwise; a stale
/// session is no session, any other failure is passed on.
pub fn process_capabilities_from_inspection(inspection: AppResult<Json>) -> (r: AppResult<Option<Vec<String>>>)
    ensures
        match inspection {
            Ok(result) => r matches Ok(o) && o matches Some(v) && (match get_spec(result, "process"@) {
                Some(p) => if exact_lifetime(p) {
                    crate::app::facade::views(v@) == seq![PROCESS_TERMINATE_GRACEFUL@, PROCESS_TERMINATE_FORCE@]
                } else {
                    v@.len() == 0
                },
                None => v@.len() == 0,
            }),
            Err(e) => if e.code@ == "STALE_SESSION"@ { r matches Ok(o) && o is None } else { r == Err::<Option<Vec<String>>, AppControlError>(e) },
        },
{
    match inspection {
        Ok(result) => {
            let exact = match result.get("process") {
                Some(p) => match p.get("identityFreshness") {
                    Some(v) => match v.as_str() {
                        Some(s) => str_eq(s, "process-lifetime"),
                        None => false,
                    },
                    None => false,
                },
                None => false,
            };
            let mut v: Vec<String> = Vec::new();
            if exact {
                v.push(owned(PROCESS_TERMINATE_GRACEFUL));
                v.push(owned(PROCESS_TERMINATE_FORCE));
                assert(crate::app::facade::views(v@) =~= seq![PROCESS_TERMINATE_GRACEFUL@, PROCESS_TERMINATE_FORCE@]);
            }
            Ok(Some(v))
        },
        Err(e) => {
            if str_eq(e.code, "STALE_SESSION") {
                Ok(None)
            } else {
                Err(e)
            }
        },
    }
}

} // verus!

verus! {

/// The capability ids of a live browser session, in registry order.
pub open spec fn browser_session_capability_ids() -> Seq<Seq<char>> {
    seq![
        crate::capabilities::BROWSER_SESSION_CLOSE@,
        crate::capabilities::BROWSER_PAGE_NAVIGATE@,
        crate::capabilities::BROWSER_PAGE_WAIT@,
        crate::capabilities::BROWSER_PAGE_QUERY@,
        crate::capabilities::BROWSER_ELEMENT_CLICK@,
        crate::capabilities::BROWSER_ELEMENT_TYPE@,
        crate::capabilities::BROWSER_PAGE_SCREENSHOT@,
    ]
}

/// The capability ids of a live browser session.
pub fn browser_session_capabilities() -> (r: Vec<&'static str>)
    ensures
        r@.map_values(|s: &'static str| s@) == browser_session_capability_ids(),
{
    let mut v: Vec<&'static str> = Vec::new();
    v.push(crate::capabilities::BROWSER_SESSION_CLOSE);
    v.push(crate::capabilities::BROWSER_PAGE_NAVIGATE);
    v.push(crate::capabilities::BROWSER_PAGE_WAIT);
    v.push(crate::capabilities::BROWSER_PAGE_QUERY);
    v.push(crate::capabilities::BROWSER_ELEMENT_CLICK);
    v.push(crate::capabilities::BROWSER_ELEMENT_TYPE);
    v.push(crate::capabilities::BROWSER_PAGE_SCREENSHOT);
    assert(v@.map_values(|s: &'static str| s@) =~= browser_session_capability_ids());
    v
}

/// The refusal of a browser session that is no longer live.
pub fn stale_session() -> (r: AppControlError)
    ensures
        plain_error(r, "STALE_SESSION"@, "The browser session is stale or no longer available."@),
{
    AppControlError::new("STALE_SESSION", "The browser session is stale or no longer available.")
}

/// The browser-session provider answers, without asking the broker, that an
/// identity which is not a canonical browser session is not its session; for a
/// canonical one the broker must be asked (`None`).
pub fn browser_session_capabilities_without_broker(session_id: &str) -> (r: Option<AppResult<Option<Vec<String>>>>)
    ensures
        crate::opaque_id::is_canonical_browser_session(session_id@) ==> r is None,
        !crate::opaque_id::is_canonical_browser_session(session_id@) ==> (r matches Some(x) && x matches Ok(o) && o is None),
{
    if crate::opaque_id::is_canonical_browser_session_id(session_id) {
        None
    } else {
        Some(Ok(None))
    }
}

/// What the broker's session inspection means for the session's capabilities:
/// a live session offers all seven browser capabilities, a stale one is no
/// session, any other failure is passed on.
pub fn browser_session_capabilities_from_inspection(inspection: AppResult<()>) -> (r: AppResult<Option<Vec<String>>>)
    ensures
        match inspection {
            Ok(()) => r matches Ok(o) && o matches Some(v)
                && crate::app::facade::views(v@) == browser_session_capability_ids(),
            Err(e) => if e.code@ == "STALE_SESSION"@ { r matches Ok(o) && o is None } else { r == Err::<Option<Vec<String>>, AppControlError>(e) },
        },
{
    match inspection {
        Ok(()) => {
            let ids = browser_session_capabilities();
            let mut v: Vec<String> = Vec::new();
            let mut i: usize = 0;
            while i < ids.len()
                invariant
                    i <= ids@.len(),
                    ids@.map_values(|s: &'static str| s@) == browser_session_capability_ids(),
                    crate::app::facade::views(v@) =~= browser_session_capability_ids().take(i as int),
                decreases ids@.len() - i,
            {
                let ghost before = v@;
                v.push(owned(ids[i]));
                assert(crate::app::facade::views(v@) =~= crate::app::facade::views(before).push(ids@[i as int]@));
                assert(browser_session_capability_ids().take(i + 1) =~= browser_session_capability_ids().take(i as int).push(ids@[i as int]@));
                i = i + 1;
            }
            assert(browser_session_capability_ids().take(7) =~= browser_session_capability_ids());
            Ok(Some(v))
        },
        Err(e) => {
            if str_eq(e.code, "STALE_SESSION") {
                Ok(None)
            } else {
                Err(e)
            }
        },
    }
}

/// The broker operation behind each browser-session capability.
#[derive(Clone, Copy, Debug, PartialEq, Eq, Structural)]
pub enum BrowserSessionOperation {
    Close,
    Navigate,
    Wait,
    Query,
    Click,
    Type,
    Screenshot,
}

/// Routes a browser-session execution: the exact target first, then the
/// capability's broker operation; other capabilities are refused.
pub fn browser_session_route<'a>(capability: &str, request: &'a CommandRequest) -> (r: AppResult<(&'a str, BrowserSessionOperation)>)
    ensures
        match session_id_spec(*request) {
            None => r matches Err(e) && plain_error(e, "INVALID_ARGUMENT"@, "target.sessionId is required."@),
            Some(id) => {
                let c = capability@;
                if c == crate::capabilities::BROWSER_SESSION_CLOSE@ {
                    r matches Ok(x) && x.0@ == id && x.1 == BrowserSessionOperation::Close
                } else if c == crate::capabilities::BROWSER_PAGE_NAVIGATE@ {
                    r matches Ok(x) && x.0@ == id && x.1 == BrowserSessionOperation::Navigate
                } else if c == crate::capabilities::BROWSER_PAGE_WAIT@ {
                    r matches Ok(x) && x.0@ == id && x.1 == BrowserSessionOperation::Wait
                } else if c == crate::capabilities::BROWSER_PAGE_QUERY@ {
                    r matches Ok(x) && x.0@ == id && x.1 == BrowserSessionOperation::Query
                } else if c == crate::capabilities::BROWSER_ELEMENT_CLICK@ {
                    r matches Ok(x) && x.0@ == id && x.1 == BrowserSessionOperation::Click
                } else if c == crate::capabilities::BROWSER_ELEMENT_TYPE@ {
                    r matches Ok(x) && x.0@ == id && x.1 == BrowserSessionOperation::Type
                } else if c == crate::capabilities::BROWSER_PAGE_SCREENSHOT@ {
                    r matches Ok(x) && x.0@ == id && x.1 == BrowserSessionOperation::Screenshot
                } else {
                    r matches Err(e) && plain_error(e, "CAPABILITY_UNSUPPORTED"@,
                        "The browser session provider does not support this capability."@)
                }
            },
        },
{
    let session_id = match crate::request::nonempty_field_str(&request.target, "sessionId") {
        Some(s) => s,
        None => {
            return Err(AppControlError::new("INVALID_ARGUMENT", "target.sessionId is required."));
        }
    };
    let op = if str_eq(capability, crate::capabilities::BROWSER_SESSION_CLOSE) {
        BrowserSessionOperation::Close
    } else if str_eq(capability, crate::capabilities::BROWSER_PAGE_NAVIGATE) {
        BrowserSessionOperation::Navigate
    } else if str_eq(capability, crate::capabilities::BROWSER_PAGE_WAIT) {
        BrowserSessionOperation::Wait
    } else if str_eq(capability, crate::capabilities::BROWSER_PAGE_QUERY) {
        BrowserSessionOperation::Query
    } else if str_eq(capability, crate::capabilities::BROWSER_ELEMENT_CLICK) {
        BrowserSessionOperation::Click
    } else if str_eq(capability, crate::capabilities::BROWSER_ELEMENT_TYPE) {
        BrowserSessionOperation::Type
    } else if str_eq(capability, crate::capabilities::BROWSER_PAGE_SCREENSHOT) {
        BrowserSessionOperation::Screenshot
    } else {
        return Err(AppControlError::new(
            "CAPABILITY_UNSUPPORTED",
            "The browser session provider does not support this capability.",
        ));
    };
    Ok((session_id, op))
}

/// The opaque identity of the current host, from its private host identity.
pub open spec fn host_session_id_spec(host_identity: Seq<u8>) -> Seq<char> {
    opaque_id_spec(OpaqueTargetKind::Host, host_identity)
}

/// The canonical `s2:h:` identity of the host with the given private identity.
pub fn host_session_id(host_identity: &str) -> (r: String)
    ensures
        r@ == host_session_id_spec(host_identity.spec_bytes()),
{
    opaque_id(OpaqueTargetKind::Host, host_identity)
}

/// Whether a session id is the current host's identity.
pub fn is_current_host_session(session_id: &str, host_identity: &str) -> (r: bool)
    ensures
        r == (session_id@ == host_session_id_spec(host_identity.spec_bytes())),
{
    let current = host_session_id(host_identity);
    str_eq(session_id, current.as_str())
}

/// What the host provider does with an execution.
#[derive(Clone, Copy, Debug, PartialEq, Eq, Structural)]
pub enum HostRoute {
    BrowserSessionOpen,
    ApplicationOpen,
}

/// Routes a host execution: browser session open needs a target and, once
/// confirmed, the current host as that target; application open needs a
/// target; every other capability is refused first.
pub fn host_execute_route<'a>(capability: &str, request: &'a CommandRequest, host_identity: &str) -> (r: AppResult<(HostRoute, &'a str)>)
    ensures
        capability@ == BROWSER_SESSION_OPEN@ ==> match session_id_spec(*request) {
            None => r matches Err(e) && plain_error(e, "INVALID_ARGUMENT"@, "target.sessionId is required."@),
            Some(id) => if request.confirmed && id != host_session_id_spec(host_identity.spec_bytes()) {
                r matches Err(e) && plain_error(e, "INVALID_ARGUMENT"@,
                    "browser.session.open@1 requires the current host session."@)
            } else {
                r matches Ok(x) && x.0 == HostRoute::BrowserSessionOpen && x.1@ == id
            },
        },
        capability@ != BROWSER_SESSION_OPEN@ && capability@ == APPLICATION_OPEN@ ==> match session_id_spec(*request) {
            None => r matches Err(e) && plain_error(e, "INVALID_ARGUMENT"@, "target.sessionId is required."@),
            Some(id) => r matches Ok(x) && x.0 == HostRoute::ApplicationOpen && x.1@ == id,
        },
        capability@ != BROWSER_SESSION_OPEN@ && capability@ != APPLICATION_OPEN@ ==> (r matches Err(e)
            && plain_error(e, "CAPABILITY_UNSUPPORTED"@,
            "The Windows application provider supports application.open@1 and browser.session.open@1 only."@)),
{
    if str_eq(capability, BROWSER_SESSION_OPEN) {
        let session_id = match crate::request::nonempty_field_str(&request.target, "sessionId") {
            Some(s) => s,
            None => {
                return Err(crate::app::error_codes::AppHostErrorCode::InvalidArgument.error("target.sessionId is required."));
            }
        };
        if request.confirmed && !is_current_host_session(session_id, host_identity) {
            return Err(crate::app::error_codes::AppHostErrorCode::InvalidArgument.error(
                "browser.session.open@1 requires the current host session.",
            ));
        }
        return Ok((HostRoute::BrowserSessionOpen, session_id));
    }
    if !str_eq(capability, APPLICATION_OPEN) {
        return Err(crate::app::error_codes::AppHostErrorCode::CapabilityUnsupported.error(
            "The Windows application provider supports application.open@1 and browser.session.open@1 only.",
        ));
    }
    match crate::request::nonempty_field_str(&request.target, "sessionId") {
        Some(s) => Ok((HostRoute::ApplicationOpen, s)),
        None => Err(crate::app::error_codes::AppHostErrorCode::InvalidArgument.error("target.sessionId is required.")),
    }
}

} // verus!
