//! What the facade makes of its providers' answers: the status counts, the
//! public inspection result and the parts of an execution result.

use vstd::prelude::*;
use crate::app::error_codes::AppFacadeErrorCode;
use crate::app::facade::{ensure_foreground_invariance, interference_details, public_status, status_shape};
use crate::app::sanitize::{public_sanitized, sanitize_public_value};
use crate::error::{AppControlError, AppResult};
use crate::json::{Json, field_of, str_spec, without_member, split_member, str_member, bool_member, value_member};

verus! {

/// The number of providers whose status probe succeeded.
pub open spec fn available_count(outcomes: Seq<AppResult<Json>>) -> int
    decreases outcomes.len(),
{
    if outcomes.len() == 0 {
        0
    } else {
        available_count(outcomes.drop_last()) + if outcomes.last() is Ok { 1int } else { 0int }
    }
}

/// Whether `e` is the refusal of a foreground change during a read-only operation.
pub open spec fn read_interference(e: AppControlError) -> bool {
    &&& e.code@ == "HOST_INTERFERENCE_DETECTED"@
    &&& e.message@ == "The foreground target changed during a non-foreground app operation."@
    &&& interference_details(e.details, None, false)
}

/// The facade status from the providers' status probes: every provider is
/// registered, a successful probe counts as available and a failed one as
/// degraded. A change of the foreground window refuses the result.
pub fn status_summary(outcomes: &Vec<AppResult<Json>>, foreground_before: isize, foreground_after: isize) -> (r: AppResult<Json>)
    ensures
        r is Ok <==> foreground_before == foreground_after,
        r matches Err(e) ==> read_interference(e),
        r matches Ok(s) ==> status_shape(s, outcomes@.len() as int, available_count(outcomes@),
            outcomes@.len() - available_count(outcomes@)),
{
    let mut available: usize = 0;
    let mut degraded: usize = 0;
    let mut i: usize = 0;
    while i < outcomes.len()
        invariant
            i <= outcomes@.len(),
            available == available_count(outcomes@.take(i as int)),
            available + degraded == i,
        decreases outcomes@.len() - i,
    {
        proof {
            let t = outcomes@.take(i + 1);
            assert(t.drop_last() =~= outcomes@.take(i as int));
            assert(t.last() == outcomes@[i as int]);
        }
        match &outcomes[i] {
            Ok(_) => available = available + 1,
            Err(_) => degraded = degraded + 1,
        }
        i = i + 1;
    }
    assert(outcomes@.take(i as int) =~= outcomes@);
    if let Err(e) = ensure_foreground_invariance(foreground_before, foreground_after, None, false) {
        return Err(e);
    }
    Ok(public_status(outcomes.len(), available, degraded))
}

/// Whether `r` is the public inspection of `session_id` whose data is `data`.
pub open spec fn inspection_shape(r: Json, session_id: Seq<char>, data: Json) -> bool {
    match r {
        Json::Obj(m) => m@.len() == 4
            && bool_member(m@[0], "ok"@, true)
            && str_member(m@[1], "app"@, "app"@)
            && str_member(m@[2], "sessionId"@, session_id)
            && value_member(m@[3], "data"@, data),
        _ => false,
    }
}

/// The public inspection of a session from its provider's answer: refused
/// when the foreground window changed, else the answer without native
/// foreground handles, under the caller's session id.
pub fn inspection_result(session_id: &str, result: Json, foreground_before: isize, foreground_after: isize) -> (r: AppResult<Json>)
    ensures
        r is Ok <==> foreground_before == foreground_after,
        r matches Err(e) ==> read_interference(e),
        r matches Ok(v) ==> exists|d: Json| #[trigger] public_sanitized(result, d) && inspection_shape(v, session_id@, d),
{
    if let Err(e) = ensure_foreground_invariance(foreground_before, foreground_after, None, false) {
        return Err(e);
    }
    let data = sanitize_public_value(result);
    let ghost d = data;
    let mut m: Vec<(String, Json)> = Vec::new();
    m.push(crate::json::bool_pair("ok", true));
    m.push(crate::json::str_pair("app", "app"));
    m.push(crate::json::str_pair("sessionId", session_id));
    m.push(crate::json::value_pair("data", data));
    let v = Json::Obj(m);
    assert(public_sanitized(result, d) && inspection_shape(v, session_id@, d));
    Ok(v)
}

/// The string value of the member `key`, if the result is an object that has one.
pub open spec fn lifted_str(result: Json, key: Seq<char>) -> Option<Seq<char>> {
    match result {
        Json::Obj(f) => match field_of(f@, key) {
            Some(v) => str_spec(v),
            None => None,
        },
        _ => None,
    }
}

/// Whether `d` is what remains of the provider's result once `compatibilityShape`
/// and `targetId` are lifted out of it.
pub open spec fn lifted_rest(result: Json, d: Json) -> bool {
    match result {
        Json::Obj(f) => d matches Json::Obj(g)
            && g@ == without_member(without_member(f@, "compatibilityShape"@), "targetId"@),
        other => d == other,
    }
}

/// Splits a provider's execution result: its `compatibilityShape` and `targetId`
/// members are lifted out (only string values are kept), a `targetId` other
/// than the caller's session is refused, and what remains loses its native
/// foreground handles.
pub fn provider_result_parts(result: Json, session_id: &str) -> (r: AppResult<(Json, Option<String>)>)
    ensures
        r is Err <==> (lifted_str(result, "targetId"@) matches Some(t) && t != session_id@),
        r matches Err(e) ==> e.code@ == "OPERATION_FAILED"@
            && e.message@ == "The app provider returned inconsistent target evidence."@
            && e.details == Json::Null,
        r matches Ok(p) ==> (match p.1 {
            Some(s) => lifted_str(result, "compatibilityShape"@) == Some(s@),
            None => lifted_str(result, "compatibilityShape"@) is None,
        }) && exists|rest: Json| #[trigger] lifted_rest(result, rest) && public_sanitized(rest, p.0),
{
    let ghost original = result;
    let (rest, shape, target) = match result {
        Json::Obj(f) => {
            let (f1, shape_value) = split_member(f, "compatibilityShape");
            let (f2, target_value) = split_member(f1, "targetId");
            proof {
                reveal_strlit("compatibilityShape");
                reveal_strlit("targetId");
                assert("compatibilityShape"@.len() != "targetId"@.len());
                crate::json::lemma_field_of_filter(f@, "compatibilityShape"@, "targetId"@);
            }
            let shape = match shape_value {
                Some(Json::Str(s)) => Some(s),
                _ => None,
            };
            let target = match target_value {
                Some(Json::Str(s)) => Some(s),
                _ => None,
            };
            (Json::Obj(f2), shape, target)
        },
        other => (other, None, None),
    };
    let ghost kept = rest;
    assert(lifted_rest(original, kept));
    if let Some(t) = &target {
        if !crate::text::str_eq(t.as_str(), session_id) {
            return Err(AppFacadeErrorCode::OperationFailed.error(
                "The app provider returned inconsistent target evidence.",
            ));
        }
    }
    let data = sanitize_public_value(rest);
    assert(lifted_rest(original, kept) && public_sanitized(kept, data));
    Ok((data, shape))
}

/// How an execution finds its provider.
#[derive(Clone, Copy, Debug, PartialEq, Eq, Structural)]
pub enum ExecutionResolution {
    /// Pick the one provider that publishes the capability, with no freshness query.
    Direct,
    /// Rediscover the session across every provider.
    Discover,
}

/// Browser-session operations on a request with a session id go straight to
/// their provider; everything else is rediscovered.
pub fn execution_resolution(capability: &str, request: &crate::request::CommandRequest) -> (r: ExecutionResolution)
    ensures
        r == if crate::app::session::session_id_spec(*request) is Some
            && crate::app::routing::is_browser_session_operation(capability@) {
            ExecutionResolution::Direct
        } else {
            ExecutionResolution::Discover
        },
{
    match crate::app::session::required_session_id(request) {
        Ok(session_id) => if crate::app::routing::selects_direct_browser_session_provider(capability, session_id) {
            ExecutionResolution::Direct
        } else {
            ExecutionResolution::Discover
        },
        Err(_) => ExecutionResolution::Discover,
    }
}

/// After a rediscovery found no session, a canonical stale target whose
/// module owns the stale answer goes straight to that module's provider.
pub fn falls_back_to_owner(error: &AppControlError, capability: &str, request: &crate::request::CommandRequest) -> (r: bool)
    ensures
        r == (error.code@ == "TARGET_NOT_FOUND"@ && match crate::app::session::session_id_spec(*request) {
            Some(id) => crate::app::routing::stale_route_spec(capability@, id),
            None => false,
        }),
{
    if !AppFacadeErrorCode::TargetNotFound.matches(error) {
        return false;
    }
    match crate::app::session::required_session_id(request) {
        Ok(session_id) => crate::app::routing::selects_provider_owned_stale_target(capability, session_id),
        Err(_) => false,
    }
}

/// The positions of the providers whose published capabilities hold `capability`.
pub open spec fn publishers(published: Seq<Vec<&'static str>>, capability: Seq<char>) -> Seq<usize>
    decreases published.len(),
{
    if published.len() == 0 {
        Seq::empty()
    } else {
        let rest = publishers(published.drop_last(), capability);
        if exists|k: int| 0 <= k < published.last()@.len() && (#[trigger] published.last()@[k])@ == capability {
            rest.push((published.len() - 1) as usize)
        } else {
            rest
        }
    }
}

/// Whether a list of capability ids holds `capability`.
fn publishes(list: &Vec<&'static str>, capability: &str) -> (r: bool)
    ensures
        r == exists|k: int| 0 <= k < list@.len() && (#[trigger] list@[k])@ == capability@,
{
    let mut i: usize = 0;
    while i < list.len()
        invariant
            i <= list@.len(),
            forall|k: int| 0 <= k < i ==> (#[trigger] list@[k])@ != capability@,
        decreases list@.len() - i,
    {
        if crate::text::str_eq(list[i], capability) {
            return true;
        }
        i = i + 1;
    }
    false
}

/// The one provider that publishes a capability, picked without a freshness
/// query; none is a stale target and several are ambiguous.
pub fn direct_provider(capability: &str, published: &Vec<Vec<&'static str>>, session_id: &str) -> (r: AppResult<usize>)
    ensures
        publishers(published@, capability@).len() == 1 ==> r == Ok::<usize, AppControlError>(publishers(published@, capability@)[0]),
        publishers(published@, capability@).len() == 0 ==> (r matches Err(e) && crate::app::facade::session_error(e,
            "TARGET_NOT_FOUND"@, "The app session is stale or no longer available."@, session_id@)),
        publishers(published@, capability@).len() > 1 ==> (r matches Err(e) && crate::app::facade::session_error(e,
            "AMBIGUOUS_TARGET"@, "More than one internal provider resolved the same opaque session."@, session_id@)),
{
    let mut matches: Vec<usize> = Vec::new();
    let mut i: usize = 0;
    while i < published.len()
        invariant
            i <= published@.len(),
            matches@ == publishers(published@.take(i as int), capability@),
        decreases published@.len() - i,
    {
        proof {
            let t = published@.take(i + 1);
            assert(t.drop_last() =~= published@.take(i as int));
            assert(t.last() == published@[i as int]);
        }
        if publishes(&published[i], capability) {
            matches.push(i);
        }
        i = i + 1;
    }
    assert(published@.take(i as int) =~= published@);
    crate::app::facade::require_unique_provider_match(matches, session_id)
}

/// The first failed answer among the providers' session answers, in order.
pub open spec fn first_failure(results: Seq<AppResult<Option<Vec<String>>>>) -> Option<AppControlError>
    decreases results.len(),
{
    if results.len() == 0 {
        None
    } else {
        match results[0] {
            Err(e) => Some(e),
            Ok(_) => first_failure(results.drop_first()),
        }
    }
}

/// The providers that accept the session, by position, with the capabilities
/// each publishes for it.
pub open spec fn accepting(results: Seq<AppResult<Option<Vec<String>>>>) -> Seq<(usize, Vec<String>)>
    decreases results.len(),
{
    if results.len() == 0 {
        Seq::empty()
    } else {
        let rest = accepting(results.drop_last());
        match results.last() {
            Ok(Some(c)) => rest.push(((results.len() - 1) as usize, c)),
            _ => rest,
        }
    }
}

/// The providers that accept the session, or the first failed answer.
fn collect_matches(results: Vec<AppResult<Option<Vec<String>>>>) -> (r: AppResult<Vec<(usize, Vec<String>)>>)
    ensures
        match first_failure(results@) {
            Some(e) => r == Err::<Vec<(usize, Vec<String>)>, AppControlError>(e),
            None => r matches Ok(v) && v@ == accepting(results@),
        },
{
    let ghost orig = results@;
    assert(orig.len() == results.len());
    let mut rest = results;
    let mut matches: Vec<(usize, Vec<String>)> = Vec::new();
    let mut i: usize = 0;
    assert(orig.skip(0) =~= orig);
    while rest.len() > 0
        invariant
            orig == results@,
            orig.len() <= usize::MAX,
            i + rest@.len() == orig.len(),
            rest@ == orig.skip(i as int),
            first_failure(orig) == first_failure(orig.skip(i as int)),
            matches@ == accepting(orig.take(i as int)),
        decreases rest@.len(),
    {
        let result = rest.remove(0);
        proof {
            assert(result == orig[i as int]);
            assert(orig.skip(i as int)[0] == orig[i as int]);
            assert(orig.skip(i as int).drop_first() =~= orig.skip(i + 1));
            let t = orig.take(i + 1);
            assert(t.drop_last() =~= orig.take(i as int));
            assert(t.last() == orig[i as int]);
        }
        match result {
            Err(e) => {
                assert(orig.skip(i as int).len() > 0);
                assert(first_failure(orig.skip(i as int)) == Some(e));
                return Err(e);
            },
            Ok(Some(c)) => { matches.push((i, c)); },
            Ok(None) => {},
        }
        assert(rest@ =~= orig.skip(i + 1));
        i = i + 1;
    }
    assert(orig.take(i as int) =~= orig);
    assert(orig.skip(i as int).len() == 0);
    Ok(matches)
}

/// Resolves a session from the providers' answers: a failed answer is passed
/// on as it is, and otherwise exactly one provider must accept the session.
pub fn unique_session_match(results: Vec<AppResult<Option<Vec<String>>>>, session_id: &str) -> (r: AppResult<(usize, Vec<String>)>)
    ensures
        match first_failure(results@) {
            Some(e) => r == Err::<(usize, Vec<String>), AppControlError>(e),
            None => {
                &&& accepting(results@).len() == 1 ==> r == Ok::<(usize, Vec<String>), AppControlError>(accepting(results@)[0])
                &&& accepting(results@).len() == 0 ==> (r matches Err(e) && crate::app::facade::session_error(e,
                    "TARGET_NOT_FOUND"@, "The app session is stale or no longer available."@, session_id@))
                &&& accepting(results@).len() > 1 ==> (r matches Err(e) && crate::app::facade::session_error(e,
                    "AMBIGUOUS_TARGET"@, "More than one internal provider resolved the same opaque session."@, session_id@))
            },
        },
{
    match collect_matches(results) {
        Err(e) => Err(e),
        Ok(matches) => crate::app::facade::require_unique_provider_match(matches, session_id),
    }
}

/// Whether an assessment can find an app session under `session_id`: a
/// canonical opaque id or a canonical browser-session id; anything else is
/// stale without asking any provider.
pub fn assessable_session(session_id: &str) -> (r: bool)
    ensures
        r == (crate::opaque_id::parse_spec(session_id@) is Some
            || crate::opaque_id::is_canonical_browser_session(session_id@)),
{
    crate::opaque_id::parse_kind(session_id).is_some() || crate::opaque_id::is_canonical_browser_session_id(session_id)
}

/// The capabilities of an assessed session from the providers' answers: a
/// failed answer is passed on, no accepting provider is no session, and
/// several accepting providers are ambiguous.
pub fn assessment_match(results: Vec<AppResult<Option<Vec<String>>>>, session_id: &str) -> (r: AppResult<Option<Vec<String>>>)
    ensures
        match first_failure(results@) {
            Some(e) => r == Err::<Option<Vec<String>>, AppControlError>(e),
            None => {
                &&& accepting(results@).len() == 0 ==> r == Ok::<Option<Vec<String>>, AppControlError>(None)
                &&& accepting(results@).len() == 1 ==> r == Ok::<Option<Vec<String>>, AppControlError>(Some(accepting(results@)[0].1))
                &&& accepting(results@).len() > 1 ==> (r matches Err(e) && crate::app::facade::session_error(e,
                    "AMBIGUOUS_TARGET"@, "More than one internal provider resolved the same opaque session."@, session_id@))
            },
        },
{
    match collect_matches(results) {
        Err(e) => Err(e),
        Ok(matches) => {
            if matches.len() == 0 {
                return Ok(None);
            }
            match crate::app::facade::require_unique_provider_match(matches, session_id) {
                Ok((_, capabilities)) => Ok(Some(capabilities)),
                Err(e) => Err(e),
            }
        },
    }
}

} // verus!
