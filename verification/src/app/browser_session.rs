//! The browser-session provider's public descriptors: the seven broker
//! capabilities a live browser session offers and their constraints.

use vstd::prelude::*;
use crate::app::descriptor::{capability_descriptor, descriptor_shape};
use crate::app::providers::{range_json, range_shape};
use crate::capabilities::Capability;
use crate::json::{Json, str_member, str_spec, value_member};

verus! {

/// A `{min, max}` size bound.
pub open spec fn bounds_shape(j: Json, min: int, max: int) -> bool {
    match j {
        Json::Obj(m) => m@.len() == 2
            && value_member(m@[0], "min"@, Json::Int(min as i128))
            && value_member(m@[1], "max"@, Json::Int(max as i128)),
        _ => false,
    }
}

/// Builds a `{min, max}` size bound.
pub fn bounds_json(min: i128, max: i128) -> (r: Json)
    ensures
        bounds_shape(r, min as int, max as int),
{
    let mut m: Vec<(String, Json)> = Vec::new();
    m.push(crate::json::value_pair("min", Json::Int(min)));
    m.push(crate::json::value_pair("max", Json::Int(max)));
    Json::Obj(m)
}

/// The constraints of the close descriptor.
pub open spec fn close_constraints(j: Json) -> bool {
    match j {
        Json::Obj(m) => m@.len() == 3
            && str_member(m@[0], "target"@, "exact-browser-session"@)
            && m@[1].0@ == "timeoutMs"@ && range_shape(m@[1].1, 1, 30000, 5000)
            && str_member(m@[2], "fallback"@, "none"@),
        _ => false,
    }
}

/// The constraints of the click descriptor.
pub open spec fn click_constraints(j: Json) -> bool {
    match j {
        Json::Obj(m) => m@.len() == 5
            && str_member(m@[0], "target"@, "exact-browser-session"@)
            && str_member(m@[1], "page"@, "current-exact-browser-page"@)
            && str_member(m@[2], "element"@, "current-exact-browser-element"@)
            && m@[3].0@ == "timeoutMs"@ && range_shape(m@[3].1, 1, 30000, 5000)
            && str_member(m@[4], "fallback"@, "none"@),
        _ => false,
    }
}

/// The constraints of the type descriptor.
pub open spec fn type_constraints(j: Json) -> bool {
    match j {
        Json::Obj(m) => m@.len() == 7
            && str_member(m@[0], "target"@, "exact-browser-session"@)
            && str_member(m@[1], "page"@, "current-exact-browser-page"@)
            && str_member(m@[2], "element"@, "current-exact-browser-element"@)
            && m@[3].0@ == "utf8Bytes"@ && bounds_shape(m@[3].1, 1, 16384)
            && str_member(m@[4], "replace"@, "required-boolean"@)
            && m@[5].0@ == "timeoutMs"@ && range_shape(m@[5].1, 1, 30000, 5000)
            && str_member(m@[6], "fallback"@, "none"@),
        _ => false,
    }
}

/// The constraints of the screenshot descriptor.
pub open spec fn screenshot_constraints(j: Json) -> bool {
    match j {
        Json::Obj(m) => m@.len() == 5
            && str_member(m@[0], "target"@, "exact-browser-session"@)
            && str_member(m@[1], "page"@, "current-exact-browser-page"@)
            && str_member(m@[2], "result"@, "bounded-image-png-base64"@)
            && m@[3].0@ == "timeoutMs"@ && range_shape(m@[3].1, 1, 30000, 5000)
            && str_member(m@[4], "fallback"@, "none"@),
        _ => false,
    }
}

/// The constraints of the navigate descriptor.
pub open spec fn navigate_constraints(j: Json) -> bool {
    match j {
        Json::Obj(m) => m@.len() == 4
            && str_member(m@[0], "target"@, "exact-browser-session"@)
            && str_member(m@[1], "result"@, "new-browser-page-generation"@)
            && m@[2].0@ == "timeoutMs"@ && range_shape(m@[2].1, 1, 30000, 5000)
            && str_member(m@[3], "fallback"@, "none"@),
        _ => false,
    }
}

/// The constraints of the wait descriptor.
pub open spec fn wait_constraints(j: Json) -> bool {
    match j {
        Json::Obj(m) => m@.len() == 5
            && str_member(m@[0], "target"@, "exact-browser-session"@)
            && str_member(m@[1], "page"@, "current-exact-browser-page"@)
            && m@[2].0@ == "conditions"@ && (m@[2].1 matches Json::Arr(a) && a@.len() == 3 && str_spec(a@[0]) == Some("document-ready"@) && str_spec(a@[1]) == Some("element-present"@) && str_spec(a@[2]) == Some("text-present"@))
            && m@[3].0@ == "timeoutMs"@ && range_shape(m@[3].1, 1, 30000, 5000)
            && str_member(m@[4], "fallback"@, "none"@),
        _ => false,
    }
}

/// The constraints of the query descriptor.
pub open spec fn query_constraints(j: Json) -> bool {
    match j {
        Json::Obj(m) => m@.len() == 6
            && str_member(m@[0], "target"@, "exact-browser-session"@)
            && str_member(m@[1], "page"@, "current-exact-browser-page"@)
            && m@[2].0@ == "selector"@ && (m@[2].1 matches Json::Arr(a) && a@.len() == 4 && str_spec(a@[0]) == Some("role"@) && str_spec(a@[1]) == Some("name"@) && str_spec(a@[2]) == Some("text"@) && str_spec(a@[3]) == Some("exact"@))
            && m@[3].0@ == "maxResults"@ && range_shape(m@[3].1, 1, 100, 100)
            && m@[4].0@ == "timeoutMs"@ && range_shape(m@[4].1, 1, 30000, 5000)
            && str_member(m@[5], "fallback"@, "none"@),
        _ => false,
    }
}

/// The seven descriptors of a live browser session, in publication order.
pub open spec fn browser_session_descriptors_shape(j: Json) -> bool {
    match j {
        Json::Arr(v) => v@.len() == 7
            && (exists|c: Json| descriptor_shape(v@[0], Capability::BrowserSessionClose, c) && close_constraints(c))
            && (exists|c: Json| descriptor_shape(v@[1], Capability::BrowserElementClick, c) && click_constraints(c))
            && (exists|c: Json| descriptor_shape(v@[2], Capability::BrowserElementType, c) && type_constraints(c))
            && (exists|c: Json| descriptor_shape(v@[3], Capability::BrowserPageScreenshot, c) && screenshot_constraints(c))
            && (exists|c: Json| descriptor_shape(v@[4], Capability::BrowserPageNavigate, c) && navigate_constraints(c))
            && (exists|c: Json| descriptor_shape(v@[5], Capability::BrowserPageWait, c) && wait_constraints(c))
            && (exists|c: Json| descriptor_shape(v@[6], Capability::BrowserPageQuery, c) && query_constraints(c)),
        _ => false,
    }
}

/// Builds the descriptors of a live browser session.
pub fn browser_session_descriptors() -> (r: Json)
    ensures
        browser_session_descriptors_shape(r),
{
    let mut v: Vec<Json> = Vec::new();
    let mut m0: Vec<(String, Json)> = Vec::new();
    m0.push(crate::json::str_pair("target", "exact-browser-session"));
    m0.push(crate::json::value_pair("timeoutMs", range_json(1, 30000, 5000)));
    m0.push(crate::json::str_pair("fallback", "none"));
    let c0 = Json::Obj(m0);
    let ghost g0 = c0;
    assert(close_constraints(g0));
    v.push(capability_descriptor(Capability::BrowserSessionClose, c0));
    let mut m1: Vec<(String, Json)> = Vec::new();
    m1.push(crate::json::str_pair("target", "exact-browser-session"));
    m1.push(crate::json::str_pair("page", "current-exact-browser-page"));
    m1.push(crate::json::str_pair("element", "current-exact-browser-element"));
    m1.push(crate::json::value_pair("timeoutMs", range_json(1, 30000, 5000)));
    m1.push(crate::json::str_pair("fallback", "none"));
    let c1 = Json::Obj(m1);
    let ghost g1 = c1;
    assert(click_constraints(g1));
    v.push(capability_descriptor(Capability::BrowserElementClick, c1));
    let mut m2: Vec<(String, Json)> = Vec::new();
    m2.push(crate::json::str_pair("target", "exact-browser-session"));
    m2.push(crate::json::str_pair("page", "current-exact-browser-page"));
    m2.push(crate::json::str_pair("element", "current-exact-browser-element"));
    m2.push(crate::json::value_pair("utf8Bytes", bounds_json(1, 16384)));
    m2.push(crate::json::str_pair("replace", "required-boolean"));
    m2.push(crate::json::value_pair("timeoutMs", range_json(1, 30000, 5000)));
    m2.push(crate::json::str_pair("fallback", "none"));
    let c2 = Json::Obj(m2);
    let ghost g2 = c2;
    assert(type_constraints(g2));
    v.push(capability_descriptor(Capability::BrowserElementType, c2));
    let mut m3: Vec<(String, Json)> = Vec::new();
    m3.push(crate::json::str_pair("target", "exact-browser-session"));
    m3.push(crate::json::str_pair("page", "current-exact-browser-page"));
    m3.push(crate::json::str_pair("result", "bounded-image-png-base64"));
    m3.push(crate::json::value_pair("timeoutMs", range_json(1, 30000, 5000)));
    m3.push(crate::json::str_pair("fallback", "none"));
    let c3 = Json::Obj(m3);
    let ghost g3 = c3;
    assert(screenshot_constraints(g3));
    v.push(capability_descriptor(Capability::BrowserPageScreenshot, c3));
    let mut m4: Vec<(String, Json)> = Vec::new();
    m4.push(crate::json::str_pair("target", "exact-browser-session"));
    m4.push(crate::json::str_pair("result", "new-browser-page-generation"));
    m4.push(crate::json::value_pair("timeoutMs", range_json(1, 30000, 5000)));
    m4.push(crate::json::str_pair("fallback", "none"));
    let c4 = Json::Obj(m4);
    let ghost g4 = c4;
    assert(navigate_constraints(g4));
    v.push(capability_descriptor(Capability::BrowserPageNavigate, c4));
    let mut m5: Vec<(String, Json)> = Vec::new();
    m5.push(crate::json::str_pair("target", "exact-browser-session"));
    m5.push(crate::json::str_pair("page", "current-exact-browser-page"));
    let mut a5: Vec<Json> = Vec::new();
    a5.push(Json::string("document-ready"));
    a5.push(Json::string("element-present"));
    a5.push(Json::string("text-present"));
    m5.push(crate::json::value_pair("conditions", Json::Arr(a5)));
    m5.push(crate::json::value_pair("timeoutMs", range_json(1, 30000, 5000)));
    m5.push(crate::json::str_pair("fallback", "none"));
    let c5 = Json::Obj(m5);
    let ghost g5 = c5;
    assert(wait_constraints(g5));
    v.push(capability_descriptor(Capability::BrowserPageWait, c5));
    let mut m6: Vec<(String, Json)> = Vec::new();
    m6.push(crate::json::str_pair("target", "exact-browser-session"));
    m6.push(crate::json::str_pair("page", "current-exact-browser-page"));
    let mut a6: Vec<Json> = Vec::new();
    a6.push(Json::string("role"));
    a6.push(Json::string("name"));
    a6.push(Json::string("text"));
    a6.push(Json::string("exact"));
    m6.push(crate::json::value_pair("selector", Json::Arr(a6)));
    m6.push(crate::json::value_pair("maxResults", range_json(1, 100, 100)));
    m6.push(crate::json::value_pair("timeoutMs", range_json(1, 30000, 5000)));
    m6.push(crate::json::str_pair("fallback", "none"));
    let c6 = Json::Obj(m6);
    let ghost g6 = c6;
    assert(query_constraints(g6));
    v.push(capability_descriptor(Capability::BrowserPageQuery, c6));
    Json::Arr(v)
}

} // verus!
