//! The window provider of the app facade: which window capability a request
//! runs and what it must carry first, the public projection of a window
//! close, and the removal of native window details from delegated results.

use vstd::prelude::*;
use crate::app::error_codes::{AppDesktopErrorCode, app_desktop_error_code_text};
use crate::app::session::{is_consent_refusal, required_session_id, requires_consent_spec, session_id_spec,
    ensure_capability_foreground_consent};
use crate::capabilities::{UI_ELEMENT_ACTION, UI_ELEMENT_LOCATE, UI_ELEMENT_WAIT, UI_INPUT_KEY, UI_INPUT_POINTER,
    WINDOW_CLOSE, WINDOW_CLOSED_WAIT, WINDOW_LIFECYCLE, WINDOW_RECORD, WINDOW_SCREENSHOT};
use crate::error::{AppControlError, AppResult, plain_error};
use crate::json::{Json, bool_member, field_of, fields_get, get_spec, str_member, str_spec, bool_spec, split_member,
    remove_members, stripped, without_member, lemma_field_of_filter, lemma_field_of_filter_removed,
    lemma_field_of_push};
use crate::request::CommandRequest;
use crate::app::window_descriptors::{window_session_descriptors, window_session_descriptors_shape};
use crate::json::set_member;
use crate::text::str_eq;

verus! {

/// The window capabilities and what each runs.
#[derive(Clone, Copy, Debug, PartialEq, Eq, Structural)]
pub enum DesktopCapabilityRoute {
    Lifecycle,
    KeyInput,
    PointerInput,
    ElementAction,
    ElementLocate,
    ElementWait,
    ClosedWait,
    Screenshot,
    Record,
    Close,
}

/// The route of a window capability other than the lifecycle one.
pub open spec fn desktop_route_of(c: Seq<char>) -> Option<DesktopCapabilityRoute> {
    if c == UI_INPUT_KEY@ { Some(DesktopCapabilityRoute::KeyInput) }
    else if c == UI_INPUT_POINTER@ { Some(DesktopCapabilityRoute::PointerInput) }
    else if c == UI_ELEMENT_ACTION@ { Some(DesktopCapabilityRoute::ElementAction) }
    else if c == UI_ELEMENT_LOCATE@ { Some(DesktopCapabilityRoute::ElementLocate) }
    else if c == UI_ELEMENT_WAIT@ { Some(DesktopCapabilityRoute::ElementWait) }
    else if c == WINDOW_CLOSED_WAIT@ { Some(DesktopCapabilityRoute::ClosedWait) }
    else if c == WINDOW_SCREENSHOT@ { Some(DesktopCapabilityRoute::Screenshot) }
    else if c == WINDOW_RECORD@ { Some(DesktopCapabilityRoute::Record) }
    else if c == WINDOW_CLOSE@ { Some(DesktopCapabilityRoute::Close) }
    else { None }
}

/// The confirmation a route needs, as the refusal's message; `None` for the
/// read-only routes.
pub open spec fn confirmation_message(r: DesktopCapabilityRoute) -> Option<Seq<char>> {
    match r {
        DesktopCapabilityRoute::KeyInput => Some("Keyboard input requires explicit per-operation confirmation."@),
        DesktopCapabilityRoute::PointerInput => Some("Pointer input requires explicit per-operation confirmation."@),
        DesktopCapabilityRoute::ElementAction => Some("Semantic element action requires explicit confirmation."@),
        DesktopCapabilityRoute::Screenshot => Some("Exact window screenshot requires explicit confirmation."@),
        DesktopCapabilityRoute::Record => Some("Exact window recording requires explicit confirmation."@),
        DesktopCapabilityRoute::Close => Some("Exact window close requires confirmation."@),
        _ => None,
    }
}

/// The refusal message of a missing `args.input`.
pub open spec fn missing_input_message(capability: Seq<char>) -> Seq<char> {
    "args.input is required for "@ + capability + "."@
}

/// Whether `e` is a window-provider error with `code` and `message`.
pub open spec fn desktop_error(e: AppControlError, code: AppDesktopErrorCode, message: Seq<char>) -> bool {
    e.code@ == app_desktop_error_code_text(code) && e.message@ == message && e.details == Json::Null
}

/// Routes a window capability. The lifecycle capability is handed on as it
/// is; every other one first needs the foreground consent its registry entry
/// demands, then must be one of the window capabilities, then carries its
/// confirmation when it changes or captures the window, then `args.input`,
/// then the exact session id. A window close validates its input before it
/// reads the session id, so its session id is left to [`close_target`].
pub fn desktop_execute_route<'a>(capability: &str, request: &'a CommandRequest)
    -> (r: AppResult<(DesktopCapabilityRoute, Option<(&'a Json, Option<&'a str>)>)>)
    ensures
        capability@ == WINDOW_LIFECYCLE@ ==> (r matches Ok(x) && x.0 == DesktopCapabilityRoute::Lifecycle && x.1 is None),
        capability@ != WINDOW_LIFECYCLE@ ==> if requires_consent_spec(capability@) && !request.foreground_consent {
            r matches Err(e) && is_consent_refusal(e, capability@)
        } else {
            match desktop_route_of(capability@) {
                None => r matches Err(e) && desktop_error(e, AppDesktopErrorCode::CapabilityUnsupported,
                    "The window session does not support this capability."@),
                Some(route) => match confirmation_message(route) {
                    Some(m) if !request.confirmed => r matches Err(e)
                        && desktop_error(e, AppDesktopErrorCode::ConfirmationRequired, m),
                    _ => match field_of(request.args@, "input"@) {
                        None => r matches Err(e) && desktop_error(e, AppDesktopErrorCode::InvalidArgument,
                            missing_input_message(capability@)),
                        Some(input) => if route == DesktopCapabilityRoute::Close {
                            match r {
                                Ok((rt, Some((i, None)))) => rt == route && *i == input,
                                _ => false,
                            }
                        } else {
                            match session_id_spec(*request) {
                                None => r matches Err(e)
                                    && plain_error(e, "INVALID_ARGUMENT"@, "target.sessionId is required."@),
                                Some(s) => match r {
                                    Ok((rt, Some((i, Some(sid))))) => rt == route && *i == input && sid@ == s,
                                    _ => false,
                                },
                            }
                        },
                    },
                },
            }
        },
{
    if str_eq(capability, WINDOW_LIFECYCLE) {
        return Ok((DesktopCapabilityRoute::Lifecycle, None));
    }
    match ensure_capability_foreground_consent(capability, request) {
        Ok(()) => {},
        Err(e) => { return Err(e); },
    }
    let route = if str_eq(capability, UI_INPUT_KEY) {
        DesktopCapabilityRoute::KeyInput
    } else if str_eq(capability, UI_INPUT_POINTER) {
        DesktopCapabilityRoute::PointerInput
    } else if str_eq(capability, UI_ELEMENT_ACTION) {
        DesktopCapabilityRoute::ElementAction
    } else if str_eq(capability, UI_ELEMENT_LOCATE) {
        DesktopCapabilityRoute::ElementLocate
    } else if str_eq(capability, UI_ELEMENT_WAIT) {
        DesktopCapabilityRoute::ElementWait
    } else if str_eq(capability, WINDOW_CLOSED_WAIT) {
        DesktopCapabilityRoute::ClosedWait
    } else if str_eq(capability, WINDOW_SCREENSHOT) {
        DesktopCapabilityRoute::Screenshot
    } else if str_eq(capability, WINDOW_RECORD) {
        DesktopCapabilityRoute::Record
    } else if str_eq(capability, WINDOW_CLOSE) {
        DesktopCapabilityRoute::Close
    } else {
        return Err(AppDesktopErrorCode::CapabilityUnsupported.error("The window session does not support this capability."));
    };
    if !request.confirmed {
        let refusal = match route {
            DesktopCapabilityRoute::KeyInput => Some("Keyboard input requires explicit per-operation confirmation."),
            DesktopCapabilityRoute::PointerInput => Some("Pointer input requires explicit per-operation confirmation."),
            DesktopCapabilityRoute::ElementAction => Some("Semantic element action requires explicit confirmation."),
            DesktopCapabilityRoute::Screenshot => Some("Exact window screenshot requires explicit confirmation."),
            DesktopCapabilityRoute::Record => Some("Exact window recording requires explicit confirmation."),
            DesktopCapabilityRoute::Close => Some("Exact window close requires confirmation."),
            _ => None,
        };
        match refusal {
            Some(m) => { return Err(AppDesktopErrorCode::ConfirmationRequired.error(m)); },
            None => {},
        }
    }
    let input = match fields_get(&request.args, "input") {
        Some(v) => v,
        None => {
            let mut m = crate::text::owned("args.input is required for ");
            m.append(capability);
            m.append(".");
            return Err(AppDesktopErrorCode::InvalidArgument.error(m.as_str()));
        },
    };
    if route == DesktopCapabilityRoute::Close {
        return Ok((route, Some((input, None))));
    }
    let session_id = match required_session_id(request) {
        Ok(s) => s,
        Err(e) => { return Err(e); },
    };
    Ok((route, Some((input, Some(session_id)))))
}

/// The target of a window close once its input was checked: the input
/// check's error comes first, then the exact session id is read.
pub fn close_target<'a>(request: &'a CommandRequest, timeout: AppResult<u32>) -> (r: AppResult<(u32, &'a str)>)
    ensures
        match timeout {
            Err(e) => r == Err::<(u32, &str), AppControlError>(e),
            Ok(ms) => match session_id_spec(*request) {
                None => r matches Err(e)
                    && plain_error(e, "INVALID_ARGUMENT"@, "target.sessionId is required."@),
                Some(s) => r matches Ok((t, sid)) && t == ms && sid@ == s,
            },
        },
{
    let ms = match timeout {
        Ok(ms) => ms,
        Err(e) => { return Err(e); },
    };
    match required_session_id(request) {
        Ok(s) => Ok((ms, s)),
        Err(e) => Err(e),
    }
}

/// The certified permission evidence a window close must report.
pub open spec fn certified_preflight() -> Seq<char> {
    "no-static-integrity-block-observed"@
}

/// Whether `j` is the public result of closing the window behind `session_id`.
pub open spec fn window_close_shape(j: Json, session_id: Seq<char>) -> bool {
    &&& j matches Json::Obj(m)
    &&& m@.len() == 8
    &&& str_member(m@[0], "targetId"@, session_id)
    &&& str_member(m@[1], "kind"@, "application-window"@)
    &&& str_member(m@[2], "state"@, "closed"@)
    &&& bool_member(m@[3], "closed"@, true)
    &&& m@[4].0@ == "foreground"@
    &&& (m@[4].1 matches Json::Obj(f) && f@.len() == 1 && bool_member(f@[0], "unchanged"@, true))
    &&& str_member(m@[5], "permissionPreflight"@, certified_preflight())
    &&& bool_member(m@[6], "activeWriteProbePerformed"@, false)
    &&& str_member(m@[7], "compatibilityShape"@, "provider-neutral-window-close-v1"@)
}

/// Projects a window close: the close module must report closure, an
/// unchanged foreground, the certified permission preflight and no active
/// write probe, in that order; each missing fact is its own failure.
pub fn public_window_close_result(result: &Json, session_id: &str) -> (r: AppResult<Json>)
    ensures
        get_spec(*result, "closed"@) != Some(Json::Bool(true)) ==> (r matches Err(e)
            && desktop_error(e, AppDesktopErrorCode::OperationFailed, "The window close module returned no closure evidence."@)),
        get_spec(*result, "closed"@) == Some(Json::Bool(true))
            && get_spec(*result, "foregroundUnchanged"@) != Some(Json::Bool(true)) ==> (r matches Err(e)
            && desktop_error(e, AppDesktopErrorCode::OperationFailed, "The window close module returned no foreground evidence."@)),
        get_spec(*result, "closed"@) == Some(Json::Bool(true))
            && get_spec(*result, "foregroundUnchanged"@) == Some(Json::Bool(true))
            && !(match get_spec(*result, "permissionPreflight"@) { Some(v) => str_spec(v) == Some(certified_preflight()), None => false })
            ==> (r matches Err(e) && desktop_error(e, AppDesktopErrorCode::OperationFailed,
                "The window close module returned no certified permission evidence."@)),
        get_spec(*result, "closed"@) == Some(Json::Bool(true))
            && get_spec(*result, "foregroundUnchanged"@) == Some(Json::Bool(true))
            && (match get_spec(*result, "permissionPreflight"@) { Some(v) => str_spec(v) == Some(certified_preflight()), None => false })
            && get_spec(*result, "activeWriteProbePerformed"@) != Some(Json::Bool(false))
            ==> (r matches Err(e) && desktop_error(e, AppDesktopErrorCode::OperationFailed,
                "The window close module returned invalid write-probe evidence."@)),
        r matches Ok(j) ==> window_close_shape(j, session_id@),
        r is Ok <==> (get_spec(*result, "closed"@) == Some(Json::Bool(true))
            && get_spec(*result, "foregroundUnchanged"@) == Some(Json::Bool(true))
            && (match get_spec(*result, "permissionPreflight"@) { Some(v) => str_spec(v) == Some(certified_preflight()), None => false })
            && get_spec(*result, "activeWriteProbePerformed"@) == Some(Json::Bool(false))),
{
    proof { reveal_strlit("no-static-integrity-block-observed"); }
    let closed = match result.get("closed") {
        Some(v) => match v.as_bool() { Some(b) => b, None => false },
        None => false,
    };
    if !closed {
        return Err(AppDesktopErrorCode::OperationFailed.error("The window close module returned no closure evidence."));
    }
    let unchanged = match result.get("foregroundUnchanged") {
        Some(v) => match v.as_bool() { Some(b) => b, None => false },
        None => false,
    };
    if !unchanged {
        return Err(AppDesktopErrorCode::OperationFailed.error("The window close module returned no foreground evidence."));
    }
    let certified = match result.get("permissionPreflight") {
        Some(v) => match v.as_str() { Some(s) => str_eq(s, "no-static-integrity-block-observed"), None => false },
        None => false,
    };
    if !certified {
        return Err(AppDesktopErrorCode::OperationFailed.error(
            "The window close module returned no certified permission evidence.",
        ));
    }
    let probe_absent = match result.get("activeWriteProbePerformed") {
        Some(v) => match v.as_bool() { Some(b) => !b, None => false },
        None => false,
    };
    if !probe_absent {
        return Err(AppDesktopErrorCode::OperationFailed.error(
            "The window close module returned invalid write-probe evidence.",
        ));
    }
    let mut foreground: Vec<(String, Json)> = Vec::new();
    foreground.push(crate::json::bool_pair("unchanged", true));
    let mut m: Vec<(String, Json)> = Vec::new();
    m.push(crate::json::str_pair("targetId", session_id));
    m.push(crate::json::str_pair("kind", "application-window"));
    m.push(crate::json::str_pair("state", "closed"));
    m.push(crate::json::bool_pair("closed", true));
    m.push(crate::json::value_pair("foreground", Json::Obj(foreground)));
    m.push(crate::json::str_pair("permissionPreflight", "no-static-integrity-block-observed"));
    m.push(crate::json::bool_pair("activeWriteProbePerformed", false));
    m.push(crate::json::str_pair("compatibilityShape", "provider-neutral-window-close-v1"));
    Ok(Json::Obj(m))
}

/// The delegated-result members that name the adapter or its capture stack.
pub open spec fn native_result_keys() -> Seq<Seq<char>> {
    seq!["app"@, "operation"@, "captureMethod"@, "encoder"@, "deviceDriver"@, "systemCaptureIndicatorMayAppear"@]
}

/// The native identifiers of a window or target object.
pub open spec fn native_window_keys() -> Seq<Seq<char>> {
    seq!["hwnd"@, "processId"@, "sessionId"@, "className"@]
}

/// Whether `now` is `orig` with the native identifiers removed when it is an
/// object, and `orig` itself otherwise.
pub open spec fn window_sanitized(orig: Option<Json>, now: Option<Json>) -> bool {
    match orig {
        Some(Json::Obj(inner)) => match now {
            Some(Json::Obj(x)) => stripped(inner@, native_window_keys(), x@),
            _ => false,
        },
        _ => now == orig,
    }
}

/// Removes the native identifiers from the object member `key`.
fn sanitize_member(fields: Vec<(String, Json)>, key: &str) -> (r: Vec<(String, Json)>)
    requires
        key@ == "target"@ || key@ == "window"@,
    ensures
        window_sanitized(field_of(fields@, key@), field_of(r@, key@)),
        forall|k: Seq<char>| k != key@ ==> #[trigger] field_of(r@, k) == field_of(fields@, k),
{
    let ghost orig = fields@;
    let (rest, found) = split_member(fields, key);
    proof {
        lemma_field_of_filter_removed(orig, key@);
        assert forall|k: Seq<char>| k != key@ implies #[trigger] field_of(rest@, k) == field_of(orig, k) by {
            lemma_field_of_filter(orig, key@, k);
        }
    }
    let value = match found {
        None => { return rest; },
        Some(Json::Obj(inner)) => {
            proof {
                reveal_strlit("hwnd"); reveal_strlit("processId"); reveal_strlit("sessionId"); reveal_strlit("className");
            }
            let keys = vec!["hwnd", "processId", "sessionId", "className"];
            assert(keys@.map_values(|k: &str| k@) =~= native_window_keys());
            Json::Obj(remove_members(inner, keys.as_slice()))
        },
        Some(other) => other,
    };
    let ghost before = rest@;
    let mut out = rest;
    out.push(crate::json::member(key, value));
    proof {
        assert forall|k: Seq<char>| #![trigger field_of(out@, k)] true implies
            field_of(out@, k) == (if field_of(before, k) is Some { field_of(before, k) } else if out@.last().0@ == k {
                Some(out@.last().1) } else { None }) by {
            lemma_field_of_push(before, out@.last(), k);
            assert(out@ =~= before.push(out@.last()));
        }
    }
    out
}

/// Removes from a delegated window result what names the adapter, its capture
/// stack or native window identifiers; a result that is not an object is
/// returned as it is.
pub fn sanitize_desktop_result(result: Json) -> (r: Json)
    ensures
        match result {
            Json::Obj(fields) => match r {
                Json::Obj(out) => forall|k: Seq<char>| #![trigger field_of(out@, k)]
                    if native_result_keys().contains(k) {
                        field_of(out@, k) is None
                    } else if k == "target"@ || k == "window"@ {
                        window_sanitized(field_of(fields@, k), field_of(out@, k))
                    } else {
                        field_of(out@, k) == field_of(fields@, k)
                    },
                _ => false,
            },
            _ => r == result,
        },
{
    match result {
        Json::Obj(fields) => {
            proof {
                reveal_strlit("app"); reveal_strlit("operation"); reveal_strlit("captureMethod");
                reveal_strlit("encoder"); reveal_strlit("deviceDriver"); reveal_strlit("systemCaptureIndicatorMayAppear");
                reveal_strlit("target"); reveal_strlit("window");
            }
            let ghost orig = fields@;
            let keys = vec!["app", "operation", "captureMethod", "encoder", "deviceDriver", "systemCaptureIndicatorMayAppear"];
            assert(keys@.map_values(|k: &str| k@) =~= native_result_keys());
            let top = remove_members(fields, keys.as_slice());
            let ghost t0 = top@;
            let with_target = sanitize_member(top, "target");
            let ghost t1 = with_target@;
            let out = sanitize_member(with_target, "window");
            proof {
                assert(!native_result_keys().contains("target"@)) by {
                    assert forall|i: int| 0 <= i < native_result_keys().len() implies native_result_keys()[i] != "target"@ by {
                        assert(native_result_keys()[i].len() != 6 || native_result_keys()[i][0] != 't');
                    }
                }
                assert(!native_result_keys().contains("window"@)) by {
                    assert forall|i: int| 0 <= i < native_result_keys().len() implies native_result_keys()[i] != "window"@ by {
                        assert(native_result_keys()[i].len() != 6 || native_result_keys()[i][0] != 'w');
                    }
                }
                assert("target"@ != "window"@) by { assert("target"@[0] != "window"@[0]); }
            }
            Json::Obj(out)
        },
        other => other,
    }
}

/// The discovery target of window sessions: visible windows unless the
/// request's target says otherwise; every other member is kept.
pub fn window_discovery_target(target: Vec<(String, Json)>) -> (r: Vec<(String, Json)>)
    ensures
        field_of(r@, "visible"@) == match field_of(target@, "visible"@) {
            Some(v) => Some(v),
            None => Some(Json::Bool(true)),
        },
        forall|k: Seq<char>| k != "visible"@ ==> #[trigger] field_of(r@, k) == field_of(target@, k),
{
    if fields_get(&target, "visible").is_some() {
        return target;
    }
    let ghost before = target@;
    let mut out = target;
    out.push(crate::json::bool_pair("visible", true));
    proof {
        assert(out@ =~= before.push(out@.last()));
        lemma_field_of_push(before, out@.last(), "visible"@);
        assert forall|k: Seq<char>| k != "visible"@ implies #[trigger] field_of(out@, k) == field_of(before, k) by {
            lemma_field_of_push(before, out@.last(), k);
        }
    }
    out
}

/// Whether a window observation is listed as a session: visible and titled.
pub open spec fn listed_window(record: Json) -> bool {
    &&& get_spec(record, "visible"@) == Some(Json::Bool(true))
    &&& match get_spec(record, "title"@) {
        Some(t) => match str_spec(t) {
            Some(s) => s.len() > 0,
            None => false,
        },
        None => false,
    }
}

/// Whether a window observation is visible and titled.
pub fn is_listed_window(record: &Json) -> (r: bool)
    ensures
        r == listed_window(*record),
{
    let visible = match record.get("visible") {
        Some(v) => match v.as_bool() { Some(b) => b, None => false },
        None => false,
    };
    let titled = match record.get("title") {
        Some(t) => match t.as_str() { Some(s) => s.unicode_len() > 0, None => false },
        None => false,
    };
    visible && titled
}

/// The visible titled windows among `records`, in observation order.
pub open spec fn listed_prefix(records: Seq<Json>) -> Seq<Json>
    decreases records.len(),
{
    if records.len() == 0 {
        Seq::empty()
    } else if listed_window(records.last()) {
        listed_prefix(records.drop_last()).push(records.last())
    } else {
        listed_prefix(records.drop_last())
    }
}

/// The visible titled windows, in observation order, at most `max_items`.
pub fn select_listed_windows(records: Vec<Json>, max_items: usize) -> (r: Vec<Json>)
    ensures
        r@ == listed_prefix(records@).take(
            if listed_prefix(records@).len() <= max_items { listed_prefix(records@).len() as int } else { max_items as int }),
{
    let ghost orig = records@;
    let mut rest = records;
    let mut kept: Vec<Json> = Vec::new();
    let total: usize = rest.len();
    let mut i: usize = 0;
    while rest.len() > 0
        invariant
            orig.len() == total,
            i + rest@.len() == orig.len(),
            rest@ == orig.skip(i as int),
            kept@ == listed_prefix(orig.take(i as int)),
        decreases rest@.len(),
    {
        let item = rest.remove(0);
        proof {
            assert(orig.take(i + 1).drop_last() =~= orig.take(i as int));
            assert(orig.take(i + 1).last() == item);
        }
        if is_listed_window(&item) {
            kept.push(item);
        }
        assert(rest@ =~= orig.skip(i + 1));
        i = i + 1;
    }
    assert(orig.take(i as int) =~= orig);
    let ghost all = kept@;
    if kept.len() > max_items {
        kept.truncate(max_items);
    }
    assert(kept@ =~= all.take(if all.len() <= max_items { all.len() as int } else { max_items as int }));
    kept
}

/// Projects a window observation as a public window session: the native
/// handle, process id and class name are removed; the opaque session id, the
/// kind, the identity strength and the ten window descriptors are set; every
/// other member is kept. An observation that is not an object is dropped.
pub fn public_window_session(record: Json, session_id: &str, identity_strength: Json) -> (r: Option<Json>)
    ensures
        match record {
            Json::Obj(fields) => match r {
                Some(Json::Obj(out)) => {
                    &&& field_of(out@, "hwnd"@) is None
                    &&& field_of(out@, "processId"@) is None
                    &&& field_of(out@, "className"@) is None
                    &&& (match field_of(out@, "sessionId"@) { Some(v) => str_spec(v) == Some(session_id@), None => false })
                    &&& (match field_of(out@, "kind"@) { Some(v) => str_spec(v) == Some("window"@), None => false })
                    &&& field_of(out@, "targetIdentityStrength"@) == Some(identity_strength)
                    &&& (match field_of(out@, "capabilities"@) { Some(v) => window_session_descriptors_shape(v), None => false })
                    &&& forall|k: Seq<char>| !(k == "hwnd"@ || k == "processId"@ || k == "className"@ || k == "sessionId"@
                        || k == "kind"@ || k == "targetIdentityStrength"@ || k == "capabilities"@)
                        ==> #[trigger] field_of(out@, k) == field_of(fields@, k)
                },
                _ => false,
            },
            _ => r is None,
        },
{
    match record {
        Json::Obj(fields) => {
            proof {
                reveal_strlit("hwnd"); reveal_strlit("processId"); reveal_strlit("className");
                reveal_strlit("sessionId"); reveal_strlit("kind"); reveal_strlit("targetIdentityStrength");
                reveal_strlit("capabilities");
            }
            let ghost orig = fields@;
            let keys = vec!["hwnd", "processId", "className"];
            let ghost ks = keys@.map_values(|k: &str| k@);
            assert(ks =~= seq!["hwnd"@, "processId"@, "className"@]);
            let f0 = remove_members(fields, keys.as_slice());
            let f1 = set_member(f0, "sessionId", Json::string(session_id));
            let f2 = set_member(f1, "kind", Json::string("window"));
            let f3 = set_member(f2, "targetIdentityStrength", identity_strength);
            let descriptors = window_session_descriptors();
            let f4 = set_member(f3, "capabilities", descriptors);
            proof {
                assert(ks.contains("hwnd"@)) by { assert(ks[0] == "hwnd"@); }
                assert(ks.contains("processId"@)) by { assert(ks[1] == "processId"@); }
                assert(ks.contains("className"@)) by { assert(ks[2] == "className"@); }
                assert("hwnd"@[0] != "processId"@[0]);
                assert("hwnd"@[0] != "className"@[0]);
                assert("hwnd"@[0] != "sessionId"@[0]);
                assert("hwnd"@[0] != "kind"@[0]);
                assert("hwnd"@[0] != "targetIdentityStrength"@[0]);
                assert("hwnd"@[0] != "capabilities"@[0]);
                assert("processId"@[0] != "className"@[0]);
                assert("processId"@[0] != "sessionId"@[0]);
                assert("processId"@[0] != "kind"@[0]);
                assert("processId"@[0] != "targetIdentityStrength"@[0]);
                assert("processId"@[0] != "capabilities"@[0]);
                assert("className"@[0] != "sessionId"@[0]);
                assert("className"@[0] != "kind"@[0]);
                assert("className"@[0] != "targetIdentityStrength"@[0]);
                assert("className"@[1] != "capabilities"@[1]);
                assert("sessionId"@[0] != "kind"@[0]);
                assert("sessionId"@[0] != "targetIdentityStrength"@[0]);
                assert("sessionId"@[0] != "capabilities"@[0]);
                assert("kind"@[0] != "targetIdentityStrength"@[0]);
                assert("kind"@[0] != "capabilities"@[0]);
                assert("targetIdentityStrength"@[0] != "capabilities"@[0]);
                assert(field_of(f0@, "hwnd"@) is None);
                assert(field_of(f0@, "processId"@) is None);
                assert(field_of(f0@, "className"@) is None);
                assert(field_of(f4@, "hwnd"@) == field_of(f0@, "hwnd"@));
                assert(field_of(f4@, "processId"@) == field_of(f0@, "processId"@));
                assert(field_of(f4@, "className"@) == field_of(f0@, "className"@));
                assert(field_of(f4@, "sessionId"@) == field_of(f1@, "sessionId"@));
                assert(field_of(f4@, "kind"@) == field_of(f2@, "kind"@));
                assert(field_of(f4@, "targetIdentityStrength"@) == field_of(f3@, "targetIdentityStrength"@));
                assert forall|k: Seq<char>| !(k == "hwnd"@ || k == "processId"@ || k == "className"@ || k == "sessionId"@
                    || k == "kind"@ || k == "targetIdentityStrength"@ || k == "capabilities"@)
                    implies #[trigger] field_of(f4@, k) == field_of(orig, k) by {
                    assert(!ks.contains(k)) by {
                        if ks.contains(k) {
                            let j = choose|j: int| 0 <= j < ks.len() && ks[j] == k;
                            assert(j == 0 || j == 1 || j == 2);
                        }
                    }
                    assert(field_of(f0@, k) == field_of(orig, k));
                }
            }
            Some(Json::Obj(f4))
        },
        _ => None,
    }
}

} // verus!
