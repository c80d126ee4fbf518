//! The app session boundary: the exact target, the one-time capability
//! invocation parse, the foreground-consent check and a session's advertised
//! capability ids.

use vstd::prelude::*;
use crate::app::error_codes::{AppSessionErrorCode, app_session_error_code_text};
use crate::capabilities::{
    Capability, CapabilitySurface, ExecutionRealm, action_mutates, action_verb,
    capability_action, capability_id, capability_realm, capability_upfront_consent,
    definition_for_surface, definition_for_surface_spec,
};
use crate::error::{AppControlError, AppResult, plain_error};
use crate::json::{Json, arr_spec, bool_member, get_spec, str_member, str_spec, value_member};
use crate::request::{CommandRequest, nonempty_field, nonempty_field_str};
use crate::text::{owned, str_eq};

verus! {

/// The exact session id of a request: the non-empty string `target.sessionId`.
pub open spec fn session_id_spec(request: CommandRequest) -> Option<Seq<char>> {
    nonempty_field(request.target@, "sessionId"@)
}

/// Reads `target.sessionId`, failing with the stable argument error when it is
/// missing, not a string or empty.
pub fn required_session_id(request: &CommandRequest) -> (r: AppResult<&str>)
    ensures
        match session_id_spec(*request) {
            Some(s) => r matches Ok(x) && x@ == s,
            None => r matches Err(e) && plain_error(e, "INVALID_ARGUMENT"@, "target.sessionId is required."@),
        },
{
    match nonempty_field_str(&request.target, "sessionId") {
        Some(s) => Ok(s),
        None => Err(AppSessionErrorCode::InvalidArgument.error("target.sessionId is required.")),
    }
}

/// The foreground-consent refusal: the reason as message and the public
/// evidence under `details.evidence`.
pub fn foreground_consent_required(reason: &str, evidence: Json) -> (r: AppControlError)
    ensures
        r.code@ == "FOREGROUND_CONSENT_REQUIRED"@,
        r.message@ == reason@,
        r.details matches Json::Obj(m) && m@.len() == 1 && value_member(m@[0], "evidence"@, evidence),
{
    let mut m: Vec<(String, Json)> = Vec::new();
    m.push(crate::json::value_pair("evidence", evidence));
    AppControlError::with_details("FOREGROUND_CONSENT_REQUIRED", reason, Json::Obj(m))
}

/// The message of the foreground-consent refusal of a capability.
pub open spec fn capability_consent_reason() -> Seq<char> {
    "The requested capability always activates a native window and sends foreground input."@
}

/// Whether `e` is the foreground-consent refusal for `capability`.
pub open spec fn is_consent_refusal(e: AppControlError, capability: Seq<char>) -> bool {
    &&& e.code@ == "FOREGROUND_CONSENT_REQUIRED"@
    &&& e.message@ == capability_consent_reason()
    &&& match e.details {
        Json::Obj(m) => m@.len() == 1 && m@[0].0@ == "evidence"@ && match m@[0].1 {
            Json::Obj(ev) => ev@.len() == 2 && str_member(ev@[0], "capability"@, capability)
                && str_member(ev@[1], "execution"@, "foreground"@),
            _ => false,
        },
        _ => false,
    }
}

fn ensure_foreground_consent_requirement(capability: &str, required: bool, request: &CommandRequest) -> (r: AppResult<()>)
    ensures
        (!required || request.foreground_consent) ==> r is Ok,
        (required && !request.foreground_consent) ==> (r matches Err(e) && is_consent_refusal(e, capability@)),
{
    if !required || request.foreground_consent {
        return Ok(());
    }
    let mut evidence: Vec<(String, Json)> = Vec::new();
    evidence.push(crate::json::str_pair("capability", capability));
    evidence.push(crate::json::str_pair("execution", "foreground"));
    Err(foreground_consent_required(
        "The requested capability always activates a native window and sends foreground input.",
        Json::Obj(evidence),
    ))
}

/// Whether a registered app capability always needs foreground consent up
/// front; unknown ids never widen the check.
pub open spec fn requires_consent_spec(capability: Seq<char>) -> bool {
    match definition_for_surface_spec(CapabilitySurface::App, capability) {
        Some(c) => capability_upfront_consent(c),
        None => false,
    }
}

/// Whether the app capability `capability` always needs foreground consent up front.
pub fn capability_requires_foreground_consent(capability: &str) -> (r: bool)
    ensures
        r == requires_consent_spec(capability@),
{
    match definition_for_surface(CapabilitySurface::App, capability) {
        Some(c) => c.requires_upfront_foreground_consent(),
        None => false,
    }
}

/// The foreground-consent check of a provider that checks by capability id.
pub fn ensure_capability_foreground_consent(capability: &str, request: &CommandRequest) -> (r: AppResult<()>)
    ensures
        (!requires_consent_spec(capability@) || request.foreground_consent) ==> r is Ok,
        (requires_consent_spec(capability@) && !request.foreground_consent) ==> (r matches Err(e)
            && is_consent_refusal(e, capability@)),
{
    let required = capability_requires_foreground_consent(capability);
    ensure_foreground_consent_requirement(capability, required, request)
}

/// A capability invocation authenticated against the app registry.
#[derive(Clone, Copy, Debug, PartialEq, Eq)]
pub struct CapabilityInvocation {
    pub definition: Capability,
}

impl CapabilityInvocation {
    /// The versioned capability id.
    pub fn capability(self) -> (r: &'static str)
        ensures
            r@ == capability_id(self.definition),
    {
        self.definition.id()
    }

    /// The generic verb of the capability.
    pub fn verb(self) -> (r: &'static str)
        ensures
            r@ == action_verb(capability_action(self.definition)),
    {
        self.definition.action().as_str()
    }

    /// The execution realm of the capability.
    pub fn execution_realm(self) -> (r: ExecutionRealm)
        ensures
            r == capability_realm(self.definition),
    {
        self.definition.execution_realm()
    }

    /// Whether the capability may change external state.
    pub fn mutates(self) -> (r: bool)
        ensures
            r == action_mutates(capability_action(self.definition)),
    {
        self.definition.action().mutates()
    }

    /// The foreground-consent check from the already resolved registry entry.
    pub fn ensure_foreground_consent(self, request: &CommandRequest) -> (r: AppResult<()>)
        ensures
            (!capability_upfront_consent(self.definition) || request.foreground_consent) ==> r is Ok,
            (capability_upfront_consent(self.definition) && !request.foreground_consent) ==> (r matches Err(e)
                && is_consent_refusal(e, capability_id(self.definition))),
    {
        ensure_foreground_consent_requirement(
            self.definition.id(),
            self.definition.requires_upfront_foreground_consent(),
            request,
        )
    }
}

/// What `parse_capability_invocation` decides for a request.
pub open spec fn invocation_error(request: CommandRequest, e: AppControlError) -> bool {
    match request.operation {
        None => plain_error(e, "INVALID_ARGUMENT"@, "run app requires a generic verb."@),
        Some(verb) => match nonempty_field(request.args@, "capability"@) {
            None => plain_error(e, "INVALID_ARGUMENT"@, "args.capability is required."@),
            Some(cap) => match definition_for_surface_spec(CapabilitySurface::App, cap) {
                None => plain_error(e, "CAPABILITY_UNSUPPORTED"@, "Unknown capability '"@ + cap + "'."@),
                Some(c) => {
                    &&& e.code@ == "INVALID_ARGUMENT"@
                    &&& e.message@ == "The capability is not valid for this generic verb."@
                    &&& e.details matches Json::Obj(m) && m@.len() == 3
                        && str_member(m@[0], "verb"@, verb@)
                        && str_member(m@[1], "capability"@, cap)
                        && str_member(m@[2], "expectedVerb"@, action_verb(capability_action(c)))
                },
            },
        },
    }
}

/// The capability a request names, when the request is a valid invocation.
pub open spec fn invocation_spec(request: CommandRequest) -> Option<Capability> {
    match request.operation {
        None => None,
        Some(verb) => match nonempty_field(request.args@, "capability"@) {
            None => None,
            Some(cap) => match definition_for_surface_spec(CapabilitySurface::App, cap) {
                None => None,
                Some(c) => if verb@ == action_verb(capability_action(c)) { Some(c) } else { None },
            },
        },
    }
}

/// Parses an app run once: the generic verb, the `args.capability` id, its
/// app-surface registry entry and the agreement between the two.
pub fn parse_capability_invocation(request: &CommandRequest) -> (r: AppResult<CapabilityInvocation>)
    ensures
        match invocation_spec(*request) {
            Some(c) => r matches Ok(inv) && inv.definition == c,
            None => r matches Err(e) && invocation_error(*request, e),
        },
{
    let verb = match &request.operation {
        Some(v) => v.as_str(),
        None => {
            return Err(AppSessionErrorCode::InvalidArgument.error("run app requires a generic verb."));
        }
    };
    let capability = match nonempty_field_str(&request.args, "capability") {
        Some(c) => c,
        None => {
            return Err(AppSessionErrorCode::InvalidArgument.error("args.capability is required."));
        }
    };
    let definition = match definition_for_surface(CapabilitySurface::App, capability) {
        Some(d) => d,
        None => {
            let mut message = owned("Unknown capability '");
            message.append(capability);
            message.append("'.");
            return Err(AppSessionErrorCode::CapabilityUnsupported.error(message.as_str()));
        }
    };
    let expected = definition.action().as_str();
    if !str_eq(verb, expected) {
        let mut details: Vec<(String, Json)> = Vec::new();
        details.push(crate::json::str_pair("verb", verb));
        details.push(crate::json::str_pair("capability", capability));
        details.push(crate::json::str_pair("expectedVerb", expected));
        return Err(AppSessionErrorCode::InvalidArgument.with_details(
            "The capability is not valid for this generic verb.",
            Json::Obj(details),
        ));
    }
    Ok(CapabilityInvocation { definition })
}

} // verus!

verus! {

/// Whether a session entry carries exactly the session id `id`.
pub open spec fn session_matches(s: Json, id: Seq<char>) -> bool {
    match get_spec(s, "sessionId"@) {
        Some(v) => str_spec(v) == Some(id),
        None => false,
    }
}

/// The session entries that carry the session id `id`.
pub open spec fn matching_sessions(sessions: Seq<Json>, id: Seq<char>) -> Seq<Json> {
    sessions.filter(|s: Json| session_matches(s, id))
}

/// The string `id` of a capability descriptor.
pub open spec fn descriptor_id(d: Json) -> Option<Seq<char>> {
    match get_spec(d, "id"@) {
        Some(v) => str_spec(v),
        None => None,
    }
}

/// Whether every descriptor has a string id.
pub open spec fn all_descriptor_ids(descs: Seq<Json>) -> bool {
    forall|i: int| 0 <= i < descs.len() ==> #[trigger] descriptor_id(descs[i]) is Some
}

/// The ids of the descriptors, in order.
pub open spec fn descriptor_ids(descs: Seq<Json>) -> Seq<Seq<char>> {
    Seq::new(descs.len(), |i: int| descriptor_id(descs[i])->0)
}

/// What a provider's session listing says about one session id: `Ok(None)` when
/// no entry carries it, the ids of its advertised capabilities when exactly one
/// does, and a stable adapter error for a malformed or ambiguous listing.
pub open spec fn capability_ids_spec(result: Json, id: Seq<char>) -> Result<Option<Seq<Seq<char>>>, (Seq<char>, Seq<char>)> {
    match get_spec(result, "sessions"@) {
        None => Err(("OPERATION_FAILED"@, "An internal provider returned an invalid sessions payload."@)),
        Some(v) => match arr_spec(v) {
            None => Err(("OPERATION_FAILED"@, "An internal provider returned an invalid sessions payload."@)),
            Some(sessions) => {
                let m = matching_sessions(sessions, id);
                if m.len() == 0 {
                    Ok(None)
                } else if m.len() > 1 {
                    Err(("AMBIGUOUS_TARGET"@, "An internal provider returned duplicate opaque sessions."@))
                } else {
                    match get_spec(m[0], "capabilities"@) {
                        Some(c) => match arr_spec(c) {
                            Some(descs) => if all_descriptor_ids(descs) {
                                Ok(Some(descriptor_ids(descs)))
                            } else {
                                Err(("OPERATION_FAILED"@, "An internal provider returned an invalid capability descriptor."@))
                            },
                            None => Err(("OPERATION_FAILED"@, "An internal provider returned a session without capabilities."@)),
                        },
                        None => Err(("OPERATION_FAILED"@, "An internal provider returned a session without capabilities."@)),
                    }
                }
            },
        },
    }
}

/// The views of a list of owned strings.
pub open spec fn string_views(v: Seq<String>) -> Seq<Seq<char>> {
    v.map_values(|s: String| s@)
}

fn descriptor_id_exec(d: &Json) -> (r: Option<&str>)
    ensures
        match descriptor_id(*d) {
            Some(s) => r matches Some(x) && x@ == s,
            None => r is None,
        },
{
    match d.get("id") {
        Some(v) => v.as_str(),
        None => None,
    }
}

/// Reads the capability ids that a session listing advertises for `session_id`.
pub fn capability_ids_for_session(result: &Json, session_id: &str) -> (r: AppResult<Option<Vec<String>>>)
    ensures
        match capability_ids_spec(*result, session_id@) {
            Ok(None) => r matches Ok(x) && x is None,
            Ok(Some(ids)) => r matches Ok(x) && x matches Some(v) && string_views(v@) == ids,
            Err((code, message)) => r matches Err(e) && plain_error(e, code, message),
        },
{
    let sessions = match result.get("sessions") {
        Some(v) => match v.as_array() {
            Some(a) => a,
            None => {
                return Err(AppSessionErrorCode::OperationFailed.error("An internal provider returned an invalid sessions payload."));
            }
        },
        None => {
            return Err(AppSessionErrorCode::OperationFailed.error("An internal provider returned an invalid sessions payload."));
        }
    };
    let ghost f = |s: Json| session_matches(s, session_id@);
    let mut count: usize = 0;
    let mut first: usize = 0;
    let mut i: usize = 0;
    while i < sessions.len()
        invariant
            i <= sessions@.len(),
            f == (|s: Json| session_matches(s, session_id@)),
            count == sessions@.take(i as int).filter(f).len(),
            count <= i,
            count >= 1 ==> first < sessions@.len() && sessions@[first as int] == sessions@.take(i as int).filter(f)[0],
        decreases sessions@.len() - i,
    {
        let is_match = match sessions[i].get("sessionId") {
            Some(v) => match v.as_str() {
                Some(s) => str_eq(s, session_id),
                None => false,
            },
            None => false,
        };
        proof {
            let p = sessions@.take(i + 1);
            assert(p.drop_last() =~= sessions@.take(i as int));
            assert(p.last() == sessions@[i as int]);
            reveal_with_fuel(Seq::filter, 1);
            assert(is_match == f(sessions@[i as int]));
            assert(p.filter(f) == p.drop_last().filter(f) + (if f(p.last()) { seq![p.last()] } else { Seq::empty() }));
        }
        if is_match {
            if count == 0 {
                first = i;
            }
            count = count + 1;
        }
        i = i + 1;
    }
    assert(sessions@.take(i as int) =~= sessions@);
    if count == 0 {
        return Ok(None);
    }
    if count > 1 {
        return Err(AppSessionErrorCode::AmbiguousTarget.error("An internal provider returned duplicate opaque sessions."));
    }
    let session = &sessions[first];
    let descs = match session.get("capabilities") {
        Some(c) => match c.as_array() {
            Some(a) => a,
            None => {
                return Err(AppSessionErrorCode::OperationFailed.error("An internal provider returned a session without capabilities."));
            }
        },
        None => {
            return Err(AppSessionErrorCode::OperationFailed.error("An internal provider returned a session without capabilities."));
        }
    };
    let ghost expected = if all_descriptor_ids(descs@) {
        Ok::<Option<Seq<Seq<char>>>, (Seq<char>, Seq<char>)>(Some(descriptor_ids(descs@)))
    } else {
        Err(("OPERATION_FAILED"@, "An internal provider returned an invalid capability descriptor."@))
    };
    assert(capability_ids_spec(*result, session_id@) == expected);
    let mut ids: Vec<String> = Vec::new();
    let mut j: usize = 0;
    while j < descs.len()
        invariant
            capability_ids_spec(*result, session_id@) == expected,
            expected == (if all_descriptor_ids(descs@) {
                Ok::<Option<Seq<Seq<char>>>, (Seq<char>, Seq<char>)>(Some(descriptor_ids(descs@)))
            } else {
                Err(("OPERATION_FAILED"@, "An internal provider returned an invalid capability descriptor."@))
            }),
            j <= descs@.len(),
            forall|k: int| 0 <= k < j ==> #[trigger] descriptor_id(descs@[k]) is Some,
            string_views(ids@) =~= descriptor_ids(descs@).take(j as int),
        decreases descs@.len() - j,
    {
        match descriptor_id_exec(&descs[j]) {
            Some(s) => {
                let ghost before = ids@;
                ids.push(owned(s));
                assert(string_views(ids@) =~= string_views(before).push(s@));
                assert(descriptor_ids(descs@).take(j + 1) =~= descriptor_ids(descs@).take(j as int).push(s@));
            }
            None => {
                assert(!all_descriptor_ids(descs@));
                return Err(AppSessionErrorCode::OperationFailed.error("An internal provider returned an invalid capability descriptor."));
            }
        }
        j = j + 1;
    }
    assert(descriptor_ids(descs@).take(j as int) =~= descriptor_ids(descs@));
    Ok(Some(ids))
}

} // verus!
