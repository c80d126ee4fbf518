//! Rules of the app facade: unique provider resolution, the capability check,
//! the foreground invariant and the public status summary.

use vstd::prelude::*;
use crate::app::error_codes::{AppFacadeErrorCode, app_facade_error_code_text};
use crate::capabilities::{
    CapabilitySurface, ExecutionRealm, action_verbs_for_surface, action_verbs_spec,
};
use crate::error::{AppControlError, AppResult};
use crate::json::{Json, bool_member, str_member, value_member};
use crate::text::str_eq;

verus! {

/// Whether `e` carries `code`, `message` and exactly `{"sessionId": id}` as details.
pub open spec fn session_error(e: AppControlError, code: Seq<char>, message: Seq<char>, id: Seq<char>) -> bool {
    &&& e.code@ == code
    &&& e.message@ == message
    &&& e.details matches Json::Obj(m) && m@.len() == 1 && str_member(m@[0], "sessionId"@, id)
}

fn session_details(session_id: &str) -> (r: Json)
    ensures
        r matches Json::Obj(m) && m@.len() == 1 && str_member(m@[0], "sessionId"@, session_id@),
{
    let mut m: Vec<(String, Json)> = Vec::new();
    m.push(crate::json::str_pair("sessionId", session_id));
    Json::Obj(m)
}

/// Exactly one provider may resolve an opaque session: none is a stale target
/// and more than one is ambiguous.
pub fn require_unique_provider_match<T>(matches: Vec<T>, session_id: &str) -> (r: AppResult<T>)
    ensures
        matches@.len() == 1 ==> r == Ok::<T, AppControlError>(matches@[0]),
        matches@.len() == 0 ==> (r matches Err(e) && session_error(e, "TARGET_NOT_FOUND"@,
            "The app session is stale or no longer available."@, session_id@)),
        matches@.len() > 1 ==> (r matches Err(e) && session_error(e, "AMBIGUOUS_TARGET"@,
            "More than one internal provider resolved the same opaque session."@, session_id@)),
{
    let mut matches = matches;
    let n = matches.len();
    if n == 1 {
        match matches.pop() {
            Some(m) => Ok(m),
            None => Err(AppFacadeErrorCode::TargetNotFound.error("The app session is unavailable.")),
        }
    } else if n == 0 {
        Err(AppFacadeErrorCode::TargetNotFound.with_details(
            "The app session is stale or no longer available.",
            session_details(session_id),
        ))
    } else {
        Err(AppFacadeErrorCode::AmbiguousTarget.with_details(
            "More than one internal provider resolved the same opaque session.",
            session_details(session_id),
        ))
    }
}

/// The views of a list of owned strings.
pub open spec fn views(v: Seq<String>) -> Seq<Seq<char>> {
    v.map_values(|s: String| s@)
}

/// Whether `arr` is an array of exactly the strings `items`.
pub open spec fn is_string_array(arr: Json, items: Seq<Seq<char>>) -> bool {
    match arr {
        Json::Arr(a) => a@.len() == items.len()
            && forall|i: int| 0 <= i < a@.len() ==> crate::json::str_spec(#[trigger] a@[i]) == Some(items[i]),
        _ => false,
    }
}

/// The details of a capability gap.
pub open spec fn capability_gap_details(d: Json, session_id: Seq<char>, capability: Seq<char>, available: Seq<Seq<char>>) -> bool {
    match d {
        Json::Obj(m) => m@.len() == 3
            && str_member(m@[0], "sessionId"@, session_id)
            && str_member(m@[1], "capability"@, capability)
            && m@[2].0@ == "availableCapabilities"@
            && is_string_array(m@[2].1, available),
        _ => false,
    }
}

/// Refuses a capability that the resolved session does not advertise; the
/// details name the session, the capability and what the session offers.
pub fn ensure_session_capability(session_id: &str, capabilities: &Vec<String>, capability: &str) -> (r: AppResult<()>)
    ensures
        views(capabilities@).contains(capability@) ==> r is Ok,
        !views(capabilities@).contains(capability@) ==> (r matches Err(e)
            && e.code@ == "CAPABILITY_UNSUPPORTED"@
            && e.message@ == "The target session does not support the requested capability."@
            && capability_gap_details(e.details, session_id@, capability@, views(capabilities@))),
{
    let mut i: usize = 0;
    while i < capabilities.len()
        invariant
            i <= capabilities@.len(),
            forall|j: int| 0 <= j < i ==> views(capabilities@)[j] != capability@,
        decreases capabilities@.len() - i,
    {
        if str_eq(capabilities[i].as_str(), capability) {
            assert(views(capabilities@)[i as int] == capability@);
            return Ok(());
        }
        i = i + 1;
    }
    let mut available: Vec<Json> = Vec::new();
    let mut k: usize = 0;
    while k < capabilities.len()
        invariant
            k <= capabilities@.len(),
            available@.len() == k,
            forall|j: int| 0 <= j < k ==> crate::json::str_spec(#[trigger] available@[j]) == Some(capabilities@[j]@),
        decreases capabilities@.len() - k,
    {
        available.push(Json::string(capabilities[k].as_str()));
        k = k + 1;
    }
    let mut m: Vec<(String, Json)> = Vec::new();
    m.push(crate::json::str_pair("sessionId", session_id));
    m.push(crate::json::str_pair("capability", capability));
    m.push(crate::json::value_pair("availableCapabilities", Json::Arr(available)));
    Err(AppFacadeErrorCode::CapabilityUnsupported.with_details(
        "The target session does not support the requested capability.",
        Json::Obj(m),
    ))
}

/// Only operations that run in the host foreground may change the foreground window.
pub fn requires_foreground_invariance(execution_realm: ExecutionRealm) -> (r: bool)
    ensures
        r == (execution_realm != ExecutionRealm::HostForeground),
{
    !matches!(execution_realm, ExecutionRealm::HostForeground)
}

/// The public evidence of a foreground change: a completed mutation is not
/// safe to retry, anything else is. No window identity is ever included.
pub open spec fn interference_details(d: Json, capability: Option<Seq<char>>, mutation_completed: bool) -> bool {
    let cap_ok = |p: (String, Json)| p.0@ == "capability"@ && match capability {
        Some(c) => crate::json::str_spec(p.1) == Some(c),
        None => p.1 == Json::Null,
    };
    match d {
        Json::Obj(m) => if mutation_completed {
            m@.len() == 4 && cap_ok(m@[0]) && str_member(m@[1], "outcome"@, "completed"@)
                && bool_member(m@[2], "retrySafe"@, false) && bool_member(m@[3], "targetMayHaveMutated"@, true)
        } else {
            m@.len() == 3 && cap_ok(m@[0])
                && bool_member(m@[1], "retrySafe"@, true) && bool_member(m@[2], "targetMayHaveMutated"@, false)
        },
        _ => false,
    }
}

/// Refuses a non-foreground operation during which the foreground window changed.
pub fn ensure_foreground_invariance(before: isize, after: isize, capability: Option<&str>, mutation_completed: bool) -> (r: AppResult<()>)
    ensures
        before == after ==> r is Ok,
        before != after ==> (r matches Err(e)
            && e.code@ == "HOST_INTERFERENCE_DETECTED"@
            && e.message@ == "The foreground target changed during a non-foreground app operation."@
            && interference_details(e.details, match capability { Some(c) => Some(c@), None => None }, mutation_completed)),
{
    if before == after {
        return Ok(());
    }
    let cap = match capability {
        Some(c) => Json::string(c),
        None => Json::Null,
    };
    let mut m: Vec<(String, Json)> = Vec::new();
    m.push(crate::json::value_pair("capability", cap));
    if mutation_completed {
        m.push(crate::json::str_pair("outcome", "completed"));
        m.push(crate::json::bool_pair("retrySafe", false));
        m.push(crate::json::bool_pair("targetMayHaveMutated", true));
    } else {
        m.push(crate::json::bool_pair("retrySafe", true));
        m.push(crate::json::bool_pair("targetMayHaveMutated", false));
    }
    Err(AppFacadeErrorCode::HostInterferenceDetected.with_details(
        "The foreground target changed during a non-foreground app operation.",
        Json::Obj(m),
    ))
}

/// The public verbs: `sessions`, `inspect`, then the app surface's generic verbs.
pub open spec fn public_verbs_spec() -> Seq<Seq<char>> {
    seq!["sessions"@, "inspect"@] + action_verbs_spec(CapabilitySurface::App)
}

/// The shape of the public status summary.
pub open spec fn status_shape(r: Json, registered: int, available: int, degraded: int) -> bool {
    match r {
        Json::Obj(m) => m@.len() == 5
            && bool_member(m@[0], "ok"@, true)
            && str_member(m@[1], "app"@, "app"@)
            && str_member(m@[2], "model"@, "opaque-session + versioned-capability"@)
            && m@[3].0@ == "publicVerbs"@
            && is_string_array(m@[3].1, public_verbs_spec())
            && m@[4].0@ == "providers"@
            && match m@[4].1 {
                Json::Obj(p) => p@.len() == 3
                    && value_member(p@[0], "registered"@, Json::Int(registered as i128))
                    && value_member(p@[1], "available"@, Json::Int(available as i128))
                    && value_member(p@[2], "degraded"@, Json::Int(degraded as i128)),
                _ => false,
            },
        _ => false,
    }
}

/// The public status summary: the model, the public verbs and provider counts,
/// without any provider payload.
pub fn public_status(registered_providers: usize, available_providers: usize, degraded_providers: usize) -> (r: Json)
    ensures
        status_shape(r, registered_providers as int, available_providers as int, degraded_providers as int),
{
    let verbs = action_verbs_for_surface(CapabilitySurface::App);
    let mut public: Vec<Json> = Vec::new();
    public.push(Json::string("sessions"));
    public.push(Json::string("inspect"));
    let mut i: usize = 0;
    while i < verbs.len()
        invariant
            i <= verbs@.len(),
            verbs@.map_values(|s: &'static str| s@) == action_verbs_spec(CapabilitySurface::App),
            public@.len() == i + 2,
            forall|j: int| 0 <= j < public@.len() ==> crate::json::str_spec(#[trigger] public@[j]) == Some(public_verbs_spec()[j]),
        decreases verbs@.len() - i,
    {
        assert(public_verbs_spec()[i + 2] == verbs@[i as int]@);
        public.push(Json::string(verbs[i]));
        i = i + 1;
    }
    let mut providers: Vec<(String, Json)> = Vec::new();
    providers.push(crate::json::value_pair("registered", Json::Int(registered_providers as i128)));
    providers.push(crate::json::value_pair("available", Json::Int(available_providers as i128)));
    providers.push(crate::json::value_pair("degraded", Json::Int(degraded_providers as i128)));
    let mut m: Vec<(String, Json)> = Vec::new();
    m.push(crate::json::bool_pair("ok", true));
    m.push(crate::json::str_pair("app", "app"));
    m.push(crate::json::str_pair("model", "opaque-session + versioned-capability"));
    m.push(crate::json::value_pair("publicVerbs", Json::Arr(public)));
    m.push(crate::json::value_pair("providers", Json::Obj(providers)));
    Json::Obj(m)
}

} // verus!
