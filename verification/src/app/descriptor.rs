//! Public capability descriptors, projected only from the registry.

use vstd::prelude::*;
use crate::capabilities::{
    Capability, ExecutionRealm, action_mutates, action_verb, capability_action,
    capability_execution, capability_foreground_consent, capability_id, capability_realm,
};
use crate::json::{Json, bool_member, str_member, value_member};

verus! {

/// The public name of an execution realm.
pub open spec fn realm_name(r: ExecutionRealm) -> Seq<char> {
    match r {
        ExecutionRealm::HostHeadless => "host-headless"@,
        ExecutionRealm::HostBackground => "host-background"@,
        ExecutionRealm::SameSessionNoFocus => "same-session-no-focus"@,
        ExecutionRealm::IsolatedWorker => "isolated-worker"@,
        ExecutionRealm::HostForeground => "host-foreground"@,
        ExecutionRealm::Unassigned => "none"@,
    }
}

/// The public name of an execution realm.
pub fn realm_str(r: ExecutionRealm) -> (s: &'static str)
    ensures
        s@ == realm_name(r),
{
    match r {
        ExecutionRealm::HostHeadless => "host-headless",
        ExecutionRealm::HostBackground => "host-background",
        ExecutionRealm::SameSessionNoFocus => "same-session-no-focus",
        ExecutionRealm::IsolatedWorker => "isolated-worker",
        ExecutionRealm::HostForeground => "host-foreground",
        ExecutionRealm::Unassigned => "none",
    }
}

/// The input schema id of a capability: `schema://` followed by its id.
pub open spec fn input_schema(c: Capability) -> Seq<char> {
    "schema://"@ + capability_id(c)
}

/// The descriptor of a registered capability: its id, version one, generic
/// verb, availability, execution class and realm, confirmation exactly for
/// mutating actions, the foreground-consent flag, the input schema and the
/// provider's constraints.
pub open spec fn descriptor_shape(d: Json, c: Capability, constraints: Json) -> bool {
    match d {
        Json::Obj(m) => m@.len() == 10
            && str_member(m@[0], "id"@, capability_id(c))
            && value_member(m@[1], "version"@, Json::Int(1))
            && str_member(m@[2], "verb"@, action_verb(capability_action(c)))
            && str_member(m@[3], "availability"@, "available"@)
            && str_member(m@[4], "execution"@, capability_execution(c))
            && str_member(m@[5], "executionRealm"@, realm_name(capability_realm(c)))
            && bool_member(m@[6], "requiresConfirmation"@, action_mutates(capability_action(c)))
            && bool_member(m@[7], "requiresForegroundConsent"@, capability_foreground_consent(c))
            && str_member(m@[8], "inputSchema"@, input_schema(c))
            && value_member(m@[9], "constraints"@, constraints),
        _ => false,
    }
}

/// Builds the public descriptor of a registered capability.
pub fn capability_descriptor(c: Capability, constraints: Json) -> (r: Json)
    ensures
        descriptor_shape(r, c, constraints),
{
    let mut schema = crate::text::owned("schema://");
    schema.append(c.id());
    let mut m: Vec<(String, Json)> = Vec::new();
    m.push(crate::json::str_pair("id", c.id()));
    m.push(crate::json::value_pair("version", Json::Int(1)));
    m.push(crate::json::str_pair("verb", c.action().as_str()));
    m.push(crate::json::str_pair("availability", "available"));
    m.push(crate::json::str_pair("execution", c.execution()));
    m.push(crate::json::str_pair("executionRealm", realm_str(c.execution_realm())));
    m.push(crate::json::bool_pair("requiresConfirmation", c.action().mutates()));
    m.push(crate::json::bool_pair("requiresForegroundConsent", c.requires_foreground_consent()));
    m.push(crate::json::str_pair("inputSchema", schema.as_str()));
    m.push(crate::json::value_pair("constraints", constraints));
    Json::Obj(m)
}

} // verus!
