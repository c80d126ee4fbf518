//! The facade's answer to an app run: the gates in order (invocation,
//! foreground consent, target, resolution, capability), then the provider's
//! result, its target evidence, the foreground invariant and the public
//! envelope.

use vstd::prelude::*;
use crate::app::facade::{ensure_foreground_invariance, ensure_session_capability, interference_details,
    requires_foreground_invariance, views, capability_gap_details};
use crate::app::facade_results::{lifted_rest, lifted_str, provider_result_parts};
use crate::app::routing::{is_browser_page_operation, targeting_label};
use crate::app::sanitize::{public_sanitized, sanitize_public_value};
use crate::app::session::{invocation_error, invocation_spec, is_consent_refusal, parse_capability_invocation,
    required_session_id, session_id_spec};
use crate::capabilities::{ExecutionRealm, action_mutates, action_verb, capability_action, capability_id,
    capability_realm, capability_upfront_consent};
use crate::error::{AppControlError, AppResult, plain_error};
use crate::json::{Json, bool_member, str_member, value_member};
use crate::request::CommandRequest;

verus! {

/// The public description of how the capability `capability` is targeted.
pub open spec fn targeting_text(capability: Seq<char>) -> Seq<char> {
    if is_browser_page_operation(capability) {
        "opaque exact browser session"@
    } else {
        "opaque exact session"@
    }
}

/// Whether `env` is the run envelope, members in order: `ok`, `app`, `verb`,
/// `capability`, `targetId`, `data`, `meta` (`foreground`, `targeting`), and
/// `compatibilityShape` only when the provider gave one.
pub open spec fn run_envelope(env: Json, app_id: Seq<char>, verb: Seq<char>, capability: Seq<char>,
    target: Seq<char>, data: Json, foreground: Json, shape: Option<Seq<char>>) -> bool {
    match env {
        Json::Obj(m) => {
            &&& m@.len() == if shape is Some { 8int } else { 7int }
            &&& bool_member(m@[0], "ok"@, true)
            &&& str_member(m@[1], "app"@, app_id)
            &&& str_member(m@[2], "verb"@, verb)
            &&& str_member(m@[3], "capability"@, capability)
            &&& str_member(m@[4], "targetId"@, target)
            &&& value_member(m@[5], "data"@, data)
            &&& m@[6].0@ == "meta"@
            &&& m@[6].1 matches Json::Obj(meta) && meta@.len() == 2
                && value_member(meta@[0], "foreground"@, foreground)
                && str_member(meta@[1], "targeting"@, targeting_text(capability))
            &&& shape matches Some(s) ==> str_member(m@[7], "compatibilityShape"@, s)
        },
        _ => false,
    }
}

/// Whether `v` is the public answer to a successful run of capability `c` on
/// session `target`, from the provider's `result`: the result loses its
/// `compatibilityShape` and `targetId` members and its native foreground
/// handles, goes under `data` of the envelope, and the envelope as a whole
/// loses its native foreground handles too.
pub open spec fn run_success(v: Json, result: Json, app_id: Seq<char>, c: crate::capabilities::Capability,
    target: Seq<char>, foreground: Json) -> bool {
    exists|rest: Json, data: Json, env: Json|
        #[trigger] lifted_rest(result, rest) && #[trigger] public_sanitized(rest, data)
        && #[trigger] run_envelope(env, app_id, action_verb(capability_action(c)), capability_id(c), target, data,
            foreground, lifted_str(result, "compatibilityShape"@))
        && public_sanitized(env, v)
}

/// The facade's answer to an app run, given what the run learned from
/// outside the facade: `resolved` is the capability list of the one session
/// that resolution found (or its error), `provider_result` what the
/// provider's execution returned, the foreground window before and after it,
/// and `foreground` the public foreground snapshot for `meta`.
///
/// The gates come in order and the first that fails answers: the invocation
/// must be a registered app capability with its generic verb; a capability
/// that needs foreground consent needs it up front; the request must name
/// its target session; resolution must have succeeded; the session must
/// advertise the capability. Only then does the provider's result count: its
/// error is the answer; a `targetId` other than the caller's is refused; a
/// non-foreground capability during which the foreground window changed is
/// refused, as not safe to retry once a mutation completed. Otherwise the
/// answer is the public envelope.
pub fn facade_run_response(
    request: &CommandRequest,
    resolved: AppResult<Vec<String>>,
    provider_result: AppResult<Json>,
    foreground_before: isize,
    foreground_after: isize,
    foreground: Json,
    app_id: &str,
) -> (r: AppResult<Json>)
    ensures
        match invocation_spec(*request) {
            None => r matches Err(e) && invocation_error(*request, e),
            Some(c) => if capability_upfront_consent(c) && !request.foreground_consent {
                r matches Err(e) && is_consent_refusal(e, capability_id(c))
            } else {
                match session_id_spec(*request) {
                    None => r matches Err(e) && plain_error(e, "INVALID_ARGUMENT"@, "target.sessionId is required."@),
                    Some(sid) => match resolved {
                        Err(e) => r == Err::<Json, AppControlError>(e),
                        Ok(caps) => if !views(caps@).contains(capability_id(c)) {
                            r matches Err(e) && e.code@ == "CAPABILITY_UNSUPPORTED"@
                                && e.message@ == "The target session does not support the requested capability."@
                                && capability_gap_details(e.details, sid, capability_id(c), views(caps@))
                        } else {
                            match provider_result {
                                Err(e) => r == Err::<Json, AppControlError>(e),
                                Ok(result) => if lifted_str(result, "targetId"@) matches Some(t) && t != sid {
                                    r matches Err(e) && plain_error(e, "OPERATION_FAILED"@,
                                        "The app provider returned inconsistent target evidence."@)
                                } else if capability_realm(c) != ExecutionRealm::HostForeground
                                    && foreground_before != foreground_after {
                                    r matches Err(e) && e.code@ == "HOST_INTERFERENCE_DETECTED"@
                                        && e.message@ == "The foreground target changed during a non-foreground app operation."@
                                        && interference_details(e.details, Some(capability_id(c)),
                                            action_mutates(capability_action(c)))
                                } else {
                                    r matches Ok(v) && run_success(v, result, app_id@, c, sid, foreground)
                                },
                            }
                        },
                    },
                }
            },
        },
{
    let invocation = match parse_capability_invocation(request) {
        Ok(i) => i,
        Err(e) => { return Err(e); },
    };
    if let Err(e) = invocation.ensure_foreground_consent(request) {
        return Err(e);
    }
    let session_id = match required_session_id(request) {
        Ok(s) => s,
        Err(e) => { return Err(e); },
    };
    let capabilities = match resolved {
        Ok(c) => c,
        Err(e) => { return Err(e); },
    };
    let capability = invocation.capability();
    if let Err(e) = ensure_session_capability(session_id, &capabilities, capability) {
        return Err(e);
    }
    let result = match provider_result {
        Ok(v) => v,
        Err(e) => { return Err(e); },
    };
    let ghost original = result;
    let (data, shape) = match provider_result_parts(result, session_id) {
        Ok(p) => p,
        Err(e) => { return Err(e); },
    };
    if requires_foreground_invariance(invocation.execution_realm()) {
        if let Err(e) = ensure_foreground_invariance(foreground_before, foreground_after, Some(capability),
            invocation.mutates()) {
            return Err(e);
        }
    }
    let ghost shape_view: Option<Seq<char>> = match &shape {
        Some(s) => Some(s@),
        None => None,
    };
    let ghost d = data;
    let ghost fg = foreground;
    let mut meta: Vec<(String, Json)> = Vec::new();
    meta.push(crate::json::value_pair("foreground", foreground));
    meta.push(crate::json::str_pair("targeting", targeting_label(capability)));
    let mut m: Vec<(String, Json)> = Vec::new();
    m.push(crate::json::bool_pair("ok", true));
    m.push(crate::json::str_pair("app", app_id));
    m.push(crate::json::str_pair("verb", invocation.verb()));
    m.push(crate::json::str_pair("capability", capability));
    m.push(crate::json::str_pair("targetId", session_id));
    m.push(crate::json::value_pair("data", data));
    m.push(crate::json::value_pair("meta", Json::Obj(meta)));
    match shape {
        Some(s) => { m.push(crate::json::value_pair("compatibilityShape", Json::Str(s))); },
        None => {},
    }
    let env = Json::Obj(m);
    let ghost genv = env;
    assert(run_envelope(genv, app_id@, action_verb(capability_action(invocation.definition)),
        capability_id(invocation.definition), session_id@, d, fg, shape_view));
    let v = sanitize_public_value(env);
    proof {
        let rest = choose|rest: Json| #[trigger] lifted_rest(original, rest) && public_sanitized(rest, d);
        assert(lifted_rest(original, rest) && public_sanitized(rest, d) && run_envelope(genv, app_id@,
            action_verb(capability_action(invocation.definition)), capability_id(invocation.definition), session_id@,
            d, fg, lifted_str(original, "compatibilityShape"@)) && public_sanitized(genv, v));
    }
    Ok(v)
}

} // verus!
