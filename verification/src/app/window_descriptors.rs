//! The window provider's public session descriptors: the ten window
//! capabilities a visible titled window offers and their constraints.

use vstd::prelude::*;
use crate::app::descriptor::{capability_descriptor, descriptor_shape};
use crate::capabilities::Capability;
use crate::json::{Json, str_spec};

verus! {

/// The constraints of the window locate descriptor.
pub open spec fn window_locate_constraints(j: Json) -> bool {
    (j matches Json::Obj(x1) && x1@.len() == 8 && x1@[0].0@ == "target"@ && str_spec(x1@[0].1) == Some("exact-window"@) && x1@[1].0@ == "selector"@ && (x1@[1].1 matches Json::Arr(x2) && x2@.len() == 5 && str_spec(x2@[0]) == Some("name"@) && str_spec(x2@[1]) == Some("automationId"@) && str_spec(x2@[2]) == Some("className"@) && str_spec(x2@[3]) == Some("frameworkId"@) && str_spec(x2@[4]) == Some("controlType"@)) && x1@[2].0@ == "maximumDepth"@ && (x1@[2].1 matches Json::Obj(x3) && x3@.len() == 3 && x3@[0].0@ == "min"@ && x3@[0].1 == Json::Int(0) && x3@[1].0@ == "max"@ && x3@[1].1 == Json::Int(20) && x3@[2].0@ == "default"@ && x3@[2].1 == Json::Int(8)) && x1@[3].0@ == "maximumItems"@ && (x1@[3].1 matches Json::Obj(x4) && x4@.len() == 3 && x4@[0].0@ == "min"@ && x4@[0].1 == Json::Int(1) && x4@[1].0@ == "max"@ && x4@[1].1 == Json::Int(4096) && x4@[2].0@ == "default"@ && x4@[2].1 == Json::Int(1024)) && x1@[4].0@ == "view"@ && (x1@[4].1 matches Json::Arr(x5) && x5@.len() == 2 && str_spec(x5@[0]) == Some("control"@) && str_spec(x5@[1]) == Some("raw"@)) && x1@[5].0@ == "timeoutMs"@ && (x1@[5].1 matches Json::Obj(x6) && x6@.len() == 3 && x6@[0].0@ == "min"@ && x6@[0].1 == Json::Int(1) && x6@[1].0@ == "max"@ && x6@[1].1 == Json::Int(30000) && x6@[2].0@ == "default"@ && x6@[2].1 == Json::Int(2000)) && x1@[6].0@ == "coordinateUnit"@ && str_spec(x1@[6].1) == Some("physical-screen-px"@) && x1@[7].0@ == "elementIdentity"@ && str_spec(x1@[7].1) == Some("observation-only-snapshot"@))
}

/// The constraints of the window action descriptor.
pub open spec fn window_action_constraints(j: Json) -> bool {
    (j matches Json::Obj(x7) && x7@.len() == 11 && x7@[0].0@ == "target"@ && str_spec(x7@[0].1) == Some("exact-window"@) && x7@[1].0@ == "selector"@ && (x7@[1].1 matches Json::Arr(x8) && x8@.len() == 5 && str_spec(x8@[0]) == Some("name"@) && str_spec(x8@[1]) == Some("automationId"@) && str_spec(x8@[2]) == Some("className"@) && str_spec(x8@[3]) == Some("frameworkId"@) && str_spec(x8@[4]) == Some("controlType"@)) && x7@[2].0@ == "actions"@ && (x7@[2].1 matches Json::Arr(x9) && x9@.len() == 5 && str_spec(x9@[0]) == Some("invoke"@) && str_spec(x9@[1]) == Some("value"@) && str_spec(x9@[2]) == Some("toggle"@) && str_spec(x9@[3]) == Some("select"@) && str_spec(x9@[4]) == Some("scroll"@)) && x7@[3].0@ == "valueBytes"@ && (x7@[3].1 matches Json::Obj(x10) && x10@.len() == 2 && x10@[0].0@ == "min"@ && x10@[0].1 == Json::Int(0) && x10@[1].0@ == "max"@ && x10@[1].1 == Json::Int(65536)) && x7@[4].0@ == "scrollAmounts"@ && (x7@[4].1 matches Json::Arr(x11) && x11@.len() == 5 && str_spec(x11@[0]) == Some("no-amount"@) && str_spec(x11@[1]) == Some("large-decrement"@) && str_spec(x11@[2]) == Some("small-decrement"@) && str_spec(x11@[3]) == Some("large-increment"@) && str_spec(x11@[4]) == Some("small-increment"@)) && x7@[5].0@ == "maximumDepth"@ && (x7@[5].1 matches Json::Obj(x12) && x12@.len() == 3 && x12@[0].0@ == "min"@ && x12@[0].1 == Json::Int(0) && x12@[1].0@ == "max"@ && x12@[1].1 == Json::Int(20) && x12@[2].0@ == "default"@ && x12@[2].1 == Json::Int(8)) && x7@[6].0@ == "maximumItems"@ && (x7@[6].1 matches Json::Obj(x13) && x13@.len() == 3 && x13@[0].0@ == "min"@ && x13@[0].1 == Json::Int(1) && x13@[1].0@ == "max"@ && x13@[1].1 == Json::Int(4096) && x13@[2].0@ == "default"@ && x13@[2].1 == Json::Int(1024)) && x7@[7].0@ == "view"@ && (x7@[7].1 matches Json::Arr(x14) && x14@.len() == 2 && str_spec(x14@[0]) == Some("control"@) && str_spec(x14@[1]) == Some("raw"@)) && x7@[8].0@ == "timeoutMs"@ && (x7@[8].1 matches Json::Obj(x15) && x15@.len() == 3 && x15@[0].0@ == "min"@ && x15@[0].1 == Json::Int(1) && x15@[1].0@ == "max"@ && x15@[1].1 == Json::Int(30000) && x15@[2].0@ == "default"@ && x15@[2].1 == Json::Int(2000)) && x7@[9].0@ == "elementIdentity"@ && str_spec(x7@[9].1) == Some("re-resolve-from-selector"@) && x7@[10].0@ == "fallback"@ && str_spec(x7@[10].1) == Some("none"@))
}

/// The constraints of the window closed wait descriptor.
pub open spec fn window_closed_wait_constraints(j: Json) -> bool {
    (j matches Json::Obj(x16) && x16@.len() == 5 && x16@[0].0@ == "target"@ && str_spec(x16@[0].1) == Some("exact-window"@) && x16@[1].0@ == "timeoutMs"@ && (x16@[1].1 matches Json::Obj(x17) && x17@.len() == 3 && x17@[0].0@ == "min"@ && x17@[0].1 == Json::Int(50) && x17@[1].0@ == "max"@ && x17@[1].1 == Json::Int(30000) && x17@[2].0@ == "default"@ && x17@[2].1 == Json::Int(5000)) && x16@[2].0@ == "pollIntervalMs"@ && (x16@[2].1 matches Json::Obj(x18) && x18@.len() == 3 && x18@[0].0@ == "min"@ && x18@[0].1 == Json::Int(25) && x18@[1].0@ == "max"@ && x18@[1].1 == Json::Int(1000) && x18@[2].0@ == "default"@ && x18@[2].1 == Json::Int(100)) && x16@[3].0@ == "stableForMs"@ && (x16@[3].1 matches Json::Obj(x19) && x19@.len() == 3 && x19@[0].0@ == "min"@ && x19@[0].1 == Json::Int(0) && x19@[1].0@ == "max"@ && str_spec(x19@[1].1) == Some("timeoutMs"@) && x19@[2].0@ == "default"@ && x19@[2].1 == Json::Int(100)) && x16@[4].0@ == "closureEvidence"@ && str_spec(x16@[4].1) == Some("opaque-target-missing-from-visible-titled-window-inventory"@))
}

/// The constraints of the window element wait descriptor.
pub open spec fn window_element_wait_constraints(j: Json) -> bool {
    (j matches Json::Obj(x20) && x20@.len() == 9 && x20@[0].0@ == "target"@ && str_spec(x20@[0].1) == Some("exact-window"@) && x20@[1].0@ == "selector"@ && (x20@[1].1 matches Json::Arr(x21) && x21@.len() == 5 && str_spec(x21@[0]) == Some("name"@) && str_spec(x21@[1]) == Some("automationId"@) && str_spec(x21@[2]) == Some("className"@) && str_spec(x21@[3]) == Some("frameworkId"@) && str_spec(x21@[4]) == Some("controlType"@)) && x20@[2].0@ == "state"@ && (x20@[2].1 matches Json::Arr(x22) && x22@.len() == 2 && str_spec(x22@[0]) == Some("enabled"@) && str_spec(x22@[1]) == Some("visible"@)) && x20@[3].0@ == "timeoutMs"@ && (x20@[3].1 matches Json::Obj(x23) && x23@.len() == 3 && x23@[0].0@ == "min"@ && x23@[0].1 == Json::Int(50) && x23@[1].0@ == "max"@ && x23@[1].1 == Json::Int(30000) && x23@[2].0@ == "default"@ && x23@[2].1 == Json::Int(5000)) && x20@[4].0@ == "pollIntervalMs"@ && (x20@[4].1 matches Json::Obj(x24) && x24@.len() == 3 && x24@[0].0@ == "min"@ && x24@[0].1 == Json::Int(25) && x24@[1].0@ == "max"@ && x24@[1].1 == Json::Int(1000) && x24@[2].0@ == "default"@ && x24@[2].1 == Json::Int(100)) && x20@[5].0@ == "stableForMs"@ && (x20@[5].1 matches Json::Obj(x25) && x25@.len() == 3 && x25@[0].0@ == "min"@ && x25@[0].1 == Json::Int(0) && x25@[1].0@ == "max"@ && str_spec(x25@[1].1) == Some("timeoutMs"@) && x25@[2].0@ == "default"@ && x25@[2].1 == Json::Int(300)) && x20@[6].0@ == "maximumDepth"@ && (x20@[6].1 matches Json::Obj(x26) && x26@.len() == 3 && x26@[0].0@ == "min"@ && x26@[0].1 == Json::Int(0) && x26@[1].0@ == "max"@ && x26@[1].1 == Json::Int(20) && x26@[2].0@ == "default"@ && x26@[2].1 == Json::Int(8)) && x20@[7].0@ == "maximumItems"@ && (x20@[7].1 matches Json::Obj(x27) && x27@.len() == 3 && x27@[0].0@ == "min"@ && x27@[0].1 == Json::Int(1) && x27@[1].0@ == "max"@ && x27@[1].1 == Json::Int(4096) && x27@[2].0@ == "default"@ && x27@[2].1 == Json::Int(1024)) && x20@[8].0@ == "view"@ && (x20@[8].1 matches Json::Arr(x28) && x28@.len() == 2 && str_spec(x28@[0]) == Some("control"@) && str_spec(x28@[1]) == Some("raw"@)))
}

/// The constraints of the window screenshot descriptor.
pub open spec fn window_screenshot_constraints(j: Json) -> bool {
    (j matches Json::Obj(x29) && x29@.len() == 2 && x29@[0].0@ == "format"@ && str_spec(x29@[0].1) == Some("png"@) && x29@[1].0@ == "target"@ && str_spec(x29@[1].1) == Some("exact-window"@))
}

/// The constraints of the window record descriptor.
pub open spec fn window_record_constraints(j: Json) -> bool {
    (j matches Json::Obj(x30) && x30@.len() == 4 && x30@[0].0@ == "format"@ && str_spec(x30@[0].1) == Some("mp4/h264"@) && x30@[1].0@ == "target"@ && str_spec(x30@[1].1) == Some("exact-window"@) && x30@[2].0@ == "defaults"@ && (x30@[2].1 matches Json::Obj(x31) && x31@.len() == 4 && x31@[0].0@ == "fps"@ && x31@[0].1 == Json::Int(2) && x31@[1].0@ == "maxWidth"@ && x31@[1].1 == Json::Int(960) && x31@[2].0@ == "quality"@ && x31@[2].1 == Json::Int(75) && x31@[3].0@ == "maxKeyframes"@ && x31@[3].1 == Json::Int(8)) && x30@[3].0@ == "analysis"@ && str_spec(x30@[3].1) == Some("temporal-difference-storyboard"@))
}

/// The constraints of the window close descriptor.
pub open spec fn window_close_constraints(j: Json) -> bool {
    (j matches Json::Obj(x32) && x32@.len() == 2 && x32@[0].0@ == "target"@ && str_spec(x32@[0].1) == Some("exact-window"@) && x32@[1].0@ == "protocol"@ && str_spec(x32@[1].1) == Some("WM_CLOSE"@))
}

/// The constraints of the window lifecycle descriptor.
pub open spec fn window_lifecycle_constraints(j: Json) -> bool {
    (j matches Json::Obj(x33) && x33@.len() == 9 && x33@[0].0@ == "target"@ && str_spec(x33@[0].1) == Some("exact-window"@) && x33@[1].0@ == "actions"@ && (x33@[1].1 matches Json::Arr(x34) && x34@.len() == 5 && str_spec(x34@[0]) == Some("restore"@) && str_spec(x34@[1]) == Some("minimize"@) && str_spec(x34@[2]) == Some("maximize"@) && str_spec(x34@[3]) == Some("move"@) && str_spec(x34@[4]) == Some("resize"@)) && x33@[2].0@ == "coordinateSpace"@ && str_spec(x33@[2].1) == Some("screen-physical-px"@) && x33@[3].0@ == "dpiContext"@ && str_spec(x33@[3].1) == Some("per-monitor-v2"@) && x33@[4].0@ == "signedVirtualScreenCoordinates"@ && x33@[4].1 == Json::Bool(true) && x33@[5].0@ == "minimumSize"@ && str_spec(x33@[5].1) == Some("current-dpi-system-tracking"@) && x33@[6].0@ == "timeoutMs"@ && (x33@[6].1 matches Json::Obj(x35) && x35@.len() == 3 && x35@[0].0@ == "min"@ && x35@[0].1 == Json::Int(1) && x35@[1].0@ == "max"@ && x35@[1].1 == Json::Int(30000) && x35@[2].0@ == "default"@ && x35@[2].1 == Json::Int(2000)) && x33@[7].0@ == "result"@ && str_spec(x33@[7].1) == Some("accepted-and-final-state-readback"@) && x33@[8].0@ == "fallback"@ && str_spec(x33@[8].1) == Some("none"@))
}

/// The constraints of the window key descriptor.
pub open spec fn window_key_constraints(j: Json) -> bool {
    (j matches Json::Obj(x36) && x36@.len() == 12 && x36@[0].0@ == "target"@ && str_spec(x36@[0].1) == Some("exact-window"@) && x36@[1].0@ == "steps"@ && (x36@[1].1 matches Json::Arr(x37) && x37@.len() == 3 && str_spec(x37@[0]) == Some("key"@) && str_spec(x37@[1]) == Some("chord"@) && str_spec(x37@[2]) == Some("text"@)) && x36@[2].0@ == "phase"@ && (x36@[2].1 matches Json::Arr(x38) && x38@.len() == 3 && str_spec(x38@[0]) == Some("press"@) && str_spec(x38@[1]) == Some("down"@) && str_spec(x38@[2]) == Some("up"@)) && x36@[3].0@ == "keyOwnership"@ && str_spec(x36@[3].1) == Some("request-scoped-balanced"@) && x36@[4].0@ == "chordOrder"@ && str_spec(x36@[4].1) == Some("ordered-down-reverse-up"@) && x36@[5].0@ == "keySet"@ && (x36@[5].1 matches Json::Arr(x39) && x39@.len() == 8 && str_spec(x39@[0]) == Some("alphanumeric"@) && str_spec(x39@[1]) == Some("f1-f24"@) && str_spec(x39@[2]) == Some("navigation"@) && str_spec(x39@[3]) == Some("numpad"@) && str_spec(x39@[4]) == Some("left-right-modifiers"@) && str_spec(x39@[5]) == Some("system"@) && str_spec(x39@[6]) == Some("punctuation"@) && str_spec(x39@[7]) == Some("media"@)) && x36@[6].0@ == "unicodeText"@ && x36@[6].1 == Json::Bool(true) && x36@[7].0@ == "holdMs"@ && (x36@[7].1 matches Json::Obj(x40) && x40@.len() == 2 && x40@[0].0@ == "min"@ && x40@[0].1 == Json::Int(0) && x40@[1].0@ == "max"@ && x40@[1].1 == Json::Int(5000)) && x36@[8].0@ == "repeat"@ && (x36@[8].1 matches Json::Obj(x41) && x41@.len() == 2 && x41@[0].0@ == "min"@ && x41@[0].1 == Json::Int(1) && x41@[1].0@ == "max"@ && x41@[1].1 == Json::Int(100)) && x36@[9].0@ == "maximumSteps"@ && x36@[9].1 == Json::Int(128) && x36@[10].0@ == "timeoutMs"@ && (x36@[10].1 matches Json::Obj(x42) && x42@.len() == 3 && x42@[0].0@ == "min"@ && x42@[0].1 == Json::Int(1) && x42@[1].0@ == "max"@ && x42@[1].1 == Json::Int(30000) && x42@[2].0@ == "default"@ && x42@[2].1 == Json::Int(2000)) && x36@[11].0@ == "legacyKeyCompatibility"@ && x36@[11].1 == Json::Bool(true))
}

/// The constraints of the window pointer descriptor.
pub open spec fn window_pointer_constraints(j: Json) -> bool {
    (j matches Json::Obj(x43) && x43@.len() == 10 && x43@[0].0@ == "target"@ && str_spec(x43@[0].1) == Some("exact-window"@) && x43@[1].0@ == "coordinateSpaces"@ && (x43@[1].1 matches Json::Arr(x44) && x44@.len() == 2 && str_spec(x44@[0]) == Some("screen-physical-px"@) && str_spec(x44@[1]) == Some("window-client-physical-px"@)) && x43@[2].0@ == "steps"@ && (x43@[2].1 matches Json::Arr(x45) && x45@.len() == 5 && str_spec(x45@[0]) == Some("move"@) && str_spec(x45@[1]) == Some("button"@) && str_spec(x45@[2]) == Some("click"@) && str_spec(x45@[3]) == Some("scroll"@) && str_spec(x45@[4]) == Some("drag"@)) && x43@[3].0@ == "buttons"@ && (x43@[3].1 matches Json::Arr(x46) && x46@.len() == 3 && str_spec(x46@[0]) == Some("left"@) && str_spec(x46@[1]) == Some("right"@) && str_spec(x46@[2]) == Some("middle"@)) && x43@[4].0@ == "buttonOwnership"@ && str_spec(x43@[4].1) == Some("request-scoped-balanced"@) && x43@[5].0@ == "clickCount"@ && (x43@[5].1 matches Json::Obj(x47) && x47@.len() == 2 && x47@[0].0@ == "min"@ && x47@[0].1 == Json::Int(1) && x47@[1].0@ == "max"@ && x47@[1].1 == Json::Int(2)) && x43@[6].0@ == "scrollAxes"@ && (x43@[6].1 matches Json::Arr(x48) && x48@.len() == 2 && str_spec(x48@[0]) == Some("vertical"@) && str_spec(x48@[1]) == Some("horizontal"@)) && x43@[7].0@ == "maximumSteps"@ && x43@[7].1 == Json::Int(64) && x43@[8].0@ == "timeoutMs"@ && (x43@[8].1 matches Json::Obj(x49) && x49@.len() == 3 && x49@[0].0@ == "min"@ && x49@[0].1 == Json::Int(1) && x49@[1].0@ == "max"@ && x49@[1].1 == Json::Int(30000) && x49@[2].0@ == "default"@ && x49@[2].1 == Json::Int(2000)) && x43@[9].0@ == "legacyClickCompatibility"@ && x43@[9].1 == Json::Bool(true))
}

/// The ten descriptors of a window session, in publication order.
pub open spec fn window_session_descriptors_shape(j: Json) -> bool {
    match j {
        Json::Arr(v) => v@.len() == 10
            && (exists|c: Json| descriptor_shape(v@[0], Capability::UiElementLocate, c) && window_locate_constraints(c))
            && (exists|c: Json| descriptor_shape(v@[1], Capability::UiElementAction, c) && window_action_constraints(c))
            && (exists|c: Json| descriptor_shape(v@[2], Capability::WindowClosedWait, c) && window_closed_wait_constraints(c))
            && (exists|c: Json| descriptor_shape(v@[3], Capability::UiElementWait, c) && window_element_wait_constraints(c))
            && (exists|c: Json| descriptor_shape(v@[4], Capability::WindowScreenshot, c) && window_screenshot_constraints(c))
            && (exists|c: Json| descriptor_shape(v@[5], Capability::WindowRecord, c) && window_record_constraints(c))
            && (exists|c: Json| descriptor_shape(v@[6], Capability::WindowClose, c) && window_close_constraints(c))
            && (exists|c: Json| descriptor_shape(v@[7], Capability::WindowLifecycle, c) && window_lifecycle_constraints(c))
            && (exists|c: Json| descriptor_shape(v@[8], Capability::UiInputKey, c) && window_key_constraints(c))
            && (exists|c: Json| descriptor_shape(v@[9], Capability::UiInputPointer, c) && window_pointer_constraints(c)),
        _ => false,
    }
}

/// Builds the descriptors of a window session.
pub fn window_session_descriptors() -> (r: Json)
    ensures
        window_session_descriptors_shape(r),
{
    let mut out: Vec<Json> = Vec::new();
    let mut v1: Vec<(String, Json)> = Vec::new();
    v1.push(crate::json::value_pair("target", Json::string("exact-window")));
    let mut v2: Vec<Json> = Vec::new();
    v2.push(Json::string("name"));
    v2.push(Json::string("automationId"));
    v2.push(Json::string("className"));
    v2.push(Json::string("frameworkId"));
    v2.push(Json::string("controlType"));
    v1.push(crate::json::value_pair("selector", Json::Arr(v2)));
    let mut v3: Vec<(String, Json)> = Vec::new();
    v3.push(crate::json::value_pair("min", Json::Int(0)));
    v3.push(crate::json::value_pair("max", Json::Int(20)));
    v3.push(crate::json::value_pair("default", Json::Int(8)));
    v1.push(crate::json::value_pair("maximumDepth", Json::Obj(v3)));
    let mut v4: Vec<(String, Json)> = Vec::new();
    v4.push(crate::json::value_pair("min", Json::Int(1)));
    v4.push(crate::json::value_pair("max", Json::Int(4096)));
    v4.push(crate::json::value_pair("default", Json::Int(1024)));
    v1.push(crate::json::value_pair("maximumItems", Json::Obj(v4)));
    let mut v5: Vec<Json> = Vec::new();
    v5.push(Json::string("control"));
    v5.push(Json::string("raw"));
    v1.push(crate::json::value_pair("view", Json::Arr(v5)));
    let mut v6: Vec<(String, Json)> = Vec::new();
    v6.push(crate::json::value_pair("min", Json::Int(1)));
    v6.push(crate::json::value_pair("max", Json::Int(30000)));
    v6.push(crate::json::value_pair("default", Json::Int(2000)));
    v1.push(crate::json::value_pair("timeoutMs", Json::Obj(v6)));
    v1.push(crate::json::value_pair("coordinateUnit", Json::string("physical-screen-px")));
    v1.push(crate::json::value_pair("elementIdentity", Json::string("observation-only-snapshot")));
    let c0 = Json::Obj(v1);
    let ghost g0 = c0;
    assert(window_locate_constraints(g0));
    out.push(capability_descriptor(Capability::UiElementLocate, c0));
    let mut v7: Vec<(String, Json)> = Vec::new();
    v7.push(crate::json::value_pair("target", Json::string("exact-window")));
    let mut v8: Vec<Json> = Vec::new();
    v8.push(Json::string("name"));
    v8.push(Json::string("automationId"));
    v8.push(Json::string("className"));
    v8.push(Json::string("frameworkId"));
    v8.push(Json::string("controlType"));
    v7.push(crate::json::value_pair("selector", Json::Arr(v8)));
    let mut v9: Vec<Json> = Vec::new();
    v9.push(Json::string("invoke"));
    v9.push(Json::string("value"));
    v9.push(Json::string("toggle"));
    v9.push(Json::string("select"));
    v9.push(Json::string("scroll"));
    v7.push(crate::json::value_pair("actions", Json::Arr(v9)));
    let mut v10: Vec<(String, Json)> = Vec::new();
    v10.push(crate::json::value_pair("min", Json::Int(0)));
    v10.push(crate::json::value_pair("max", Json::Int(65536)));
    v7.push(crate::json::value_pair("valueBytes", Json::Obj(v10)));
    let mut v11: Vec<Json> = Vec::new();
    v11.push(Json::string("no-amount"));
    v11.push(Json::string("large-decrement"));
    v11.push(Json::string("small-decrement"));
    v11.push(Json::string("large-increment"));
    v11.push(Json::string("small-increment"));
    v7.push(crate::json::value_pair("scrollAmounts", Json::Arr(v11)));
    let mut v12: Vec<(String, Json)> = Vec::new();
    v12.push(crate::json::value_pair("min", Json::Int(0)));
    v12.push(crate::json::value_pair("max", Json::Int(20)));
    v12.push(crate::json::value_pair("default", Json::Int(8)));
    v7.push(crate::json::value_pair("maximumDepth", Json::Obj(v12)));
    let mut v13: Vec<(String, Json)> = Vec::new();
    v13.push(crate::json::value_pair("min", Json::Int(1)));
    v13.push(crate::json::value_pair("max", Json::Int(4096)));
    v13.push(crate::json::value_pair("default", Json::Int(1024)));
    v7.push(crate::json::value_pair("maximumItems", Json::Obj(v13)));
    let mut v14: Vec<Json> = Vec::new();
    v14.push(Json::string("control"));
    v14.push(Json::string("raw"));
    v7.push(crate::json::value_pair("view", Json::Arr(v14)));
    let mut v15: Vec<(String, Json)> = Vec::new();
    v15.push(crate::json::value_pair("min", Json::Int(1)));
    v15.push(crate::json::value_pair("max", Json::Int(30000)));
    v15.push(crate::json::value_pair("default", Json::Int(2000)));
    v7.push(crate::json::value_pair("timeoutMs", Json::Obj(v15)));
    v7.push(crate::json::value_pair("elementIdentity", Json::string("re-resolve-from-selector")));
    v7.push(crate::json::value_pair("fallback", Json::string("none")));
    let c1 = Json::Obj(v7);
    let ghost g1 = c1;
    assert(window_action_constraints(g1));
    out.push(capability_descriptor(Capability::UiElementAction, c1));
    let mut v16: Vec<(String, Json)> = Vec::new();
    v16.push(crate::json::value_pair("target", Json::string("exact-window")));
    let mut v17: Vec<(String, Json)> = Vec::new();
    v17.push(crate::json::value_pair("min", Json::Int(50)));
    v17.push(crate::json::value_pair("max", Json::Int(30000)));
    v17.push(crate::json::value_pair("default", Json::Int(5000)));
    v16.push(crate::json::value_pair("timeoutMs", Json::Obj(v17)));
    let mut v18: Vec<(String, Json)> = Vec::new();
    v18.push(crate::json::value_pair("min", Json::Int(25)));
    v18.push(crate::json::value_pair("max", Json::Int(1000)));
    v18.push(crate::json::value_pair("default", Json::Int(100)));
    v16.push(crate::json::value_pair("pollIntervalMs", Json::Obj(v18)));
    let mut v19: Vec<(String, Json)> = Vec::new();
    v19.push(crate::json::value_pair("min", Json::Int(0)));
    v19.push(crate::json::value_pair("max", Json::string("timeoutMs")));
    v19.push(crate::json::value_pair("default", Json::Int(100)));
    v16.push(crate::json::value_pair("stableForMs", Json::Obj(v19)));
    v16.push(crate::json::value_pair("closureEvidence", Json::string("opaque-target-missing-from-visible-titled-window-inventory")));
    let c2 = Json::Obj(v16);
    let ghost g2 = c2;
    assert(window_closed_wait_constraints(g2));
    out.push(capability_descriptor(Capability::WindowClosedWait, c2));
    let mut v20: Vec<(String, Json)> = Vec::new();
    v20.push(crate::json::value_pair("target", Json::string("exact-window")));
    let mut v21: Vec<Json> = Vec::new();
    v21.push(Json::string("name"));
    v21.push(Json::string("automationId"));
    v21.push(Json::string("className"));
    v21.push(Json::string("frameworkId"));
    v21.push(Json::string("controlType"));
    v20.push(crate::json::value_pair("selector", Json::Arr(v21)));
    let mut v22: Vec<Json> = Vec::new();
    v22.push(Json::string("enabled"));
    v22.push(Json::string("visible"));
    v20.push(crate::json::value_pair("state", Json::Arr(v22)));
    let mut v23: Vec<(String, Json)> = Vec::new();
    v23.push(crate::json::value_pair("min", Json::Int(50)));
    v23.push(crate::json::value_pair("max", Json::Int(30000)));
    v23.push(crate::json::value_pair("default", Json::Int(5000)));
    v20.push(crate::json::value_pair("timeoutMs", Json::Obj(v23)));
    let mut v24: Vec<(String, Json)> = Vec::new();
    v24.push(crate::json::value_pair("min", Json::Int(25)));
    v24.push(crate::json::value_pair("max", Json::Int(1000)));
    v24.push(crate::json::value_pair("default", Json::Int(100)));
    v20.push(crate::json::value_pair("pollIntervalMs", Json::Obj(v24)));
    let mut v25: Vec<(String, Json)> = Vec::new();
    v25.push(crate::json::value_pair("min", Json::Int(0)));
    v25.push(crate::json::value_pair("max", Json::string("timeoutMs")));
    v25.push(crate::json::value_pair("default", Json::Int(300)));
    v20.push(crate::json::value_pair("stableForMs", Json::Obj(v25)));
    let mut v26: Vec<(String, Json)> = Vec::new();
    v26.push(crate::json::value_pair("min", Json::Int(0)));
    v26.push(crate::json::value_pair("max", Json::Int(20)));
    v26.push(crate::json::value_pair("default", Json::Int(8)));
    v20.push(crate::json::value_pair("maximumDepth", Json::Obj(v26)));
    let mut v27: Vec<(String, Json)> = Vec::new();
    v27.push(crate::json::value_pair("min", Json::Int(1)));
    v27.push(crate::json::value_pair("max", Json::Int(4096)));
    v27.push(crate::json::value_pair("default", Json::Int(1024)));
    v20.push(crate::json::value_pair("maximumItems", Json::Obj(v27)));
    let mut v28: Vec<Json> = Vec::new();
    v28.push(Json::string("control"));
    v28.push(Json::string("raw"));
    v20.push(crate::json::value_pair("view", Json::Arr(v28)));
    let c3 = Json::Obj(v20);
    let ghost g3 = c3;
    assert(window_element_wait_constraints(g3));
    out.push(capability_descriptor(Capability::UiElementWait, c3));
    let mut v29: Vec<(String, Json)> = Vec::new();
    v29.push(crate::json::value_pair("format", Json::string("png")));
    v29.push(crate::json::value_pair("target", Json::string("exact-window")));
    let c4 = Json::Obj(v29);
    let ghost g4 = c4;
    assert(window_screenshot_constraints(g4));
    out.push(capability_descriptor(Capability::WindowScreenshot, c4));
    let mut v30: Vec<(String, Json)> = Vec::new();
    v30.push(crate::json::value_pair("format", Json::string("mp4/h264")));
    v30.push(crate::json::value_pair("target", Json::string("exact-window")));
    let mut v31: Vec<(String, Json)> = Vec::new();
    v31.push(crate::json::value_pair("fps", Json::Int(2)));
    v31.push(crate::json::value_pair("maxWidth", Json::Int(960)));
    v31.push(crate::json::value_pair("quality", Json::Int(75)));
    v31.push(crate::json::value_pair("maxKeyframes", Json::Int(8)));
    v30.push(crate::json::value_pair("defaults", Json::Obj(v31)));
    v30.push(crate::json::value_pair("analysis", Json::string("temporal-difference-storyboard")));
    let c5 = Json::Obj(v30);
    let ghost g5 = c5;
    assert(window_record_constraints(g5));
    out.push(capability_descriptor(Capability::WindowRecord, c5));
    let mut v32: Vec<(String, Json)> = Vec::new();
    v32.push(crate::json::value_pair("target", Json::string("exact-window")));
    v32.push(crate::json::value_pair("protocol", Json::string("WM_CLOSE")));
    let c6 = Json::Obj(v32);
    let ghost g6 = c6;
    assert(window_close_constraints(g6));
    out.push(capability_descriptor(Capability::WindowClose, c6));
    let mut v33: Vec<(String, Json)> = Vec::new();
    v33.push(crate::json::value_pair("target", Json::string("exact-window")));
    let mut v34: Vec<Json> = Vec::new();
    v34.push(Json::string("restore"));
    v34.push(Json::string("minimize"));
    v34.push(Json::string("maximize"));
    v34.push(Json::string("move"));
    v34.push(Json::string("resize"));
    v33.push(crate::json::value_pair("actions", Json::Arr(v34)));
    v33.push(crate::json::value_pair("coordinateSpace", Json::string("screen-physical-px")));
    v33.push(crate::json::value_pair("dpiContext", Json::string("per-monitor-v2")));
    v33.push(crate::json::value_pair("signedVirtualScreenCoordinates", Json::Bool(true)));
    v33.push(crate::json::value_pair("minimumSize", Json::string("current-dpi-system-tracking")));
    let mut v35: Vec<(String, Json)> = Vec::new();
    v35.push(crate::json::value_pair("min", Json::Int(1)));
    v35.push(crate::json::value_pair("max", Json::Int(30000)));
    v35.push(crate::json::value_pair("default", Json::Int(2000)));
    v33.push(crate::json::value_pair("timeoutMs", Json::Obj(v35)));
    v33.push(crate::json::value_pair("result", Json::string("accepted-and-final-state-readback")));
    v33.push(crate::json::value_pair("fallback", Json::string("none")));
    let c7 = Json::Obj(v33);
    let ghost g7 = c7;
    assert(window_lifecycle_constraints(g7));
    out.push(capability_descriptor(Capability::WindowLifecycle, c7));
    let mut v36: Vec<(String, Json)> = Vec::new();
    v36.push(crate::json::value_pair("target", Json::string("exact-window")));
    let mut v37: Vec<Json> = Vec::new();
    v37.push(Json::string("key"));
    v37.push(Json::string("chord"));
    v37.push(Json::string("text"));
    v36.push(crate::json::value_pair("steps", Json::Arr(v37)));
    let mut v38: Vec<Json> = Vec::new();
    v38.push(Json::string("press"));
    v38.push(Json::string("down"));
    v38.push(Json::string("up"));
    v36.push(crate::json::value_pair("phase", Json::Arr(v38)));
    v36.push(crate::json::value_pair("keyOwnership", Json::string("request-scoped-balanced")));
    v36.push(crate::json::value_pair("chordOrder", Json::string("ordered-down-reverse-up")));
    let mut v39: Vec<Json> = Vec::new();
    v39.push(Json::string("alphanumeric"));
    v39.push(Json::string("f1-f24"));
    v39.push(Json::string("navigation"));
    v39.push(Json::string("numpad"));
    v39.push(Json::string("left-right-modifiers"));
    v39.push(Json::string("system"));
    v39.push(Json::string("punctuation"));
    v39.push(Json::string("media"));
    v36.push(crate::json::value_pair("keySet", Json::Arr(v39)));
    v36.push(crate::json::value_pair("unicodeText", Json::Bool(true)));
    let mut v40: Vec<(String, Json)> = Vec::new();
    v40.push(crate::json::value_pair("min", Json::Int(0)));
    v40.push(crate::json::value_pair("max", Json::Int(5000)));
    v36.push(crate::json::value_pair("holdMs", Json::Obj(v40)));
    let mut v41: Vec<(String, Json)> = Vec::new();
    v41.push(crate::json::value_pair("min", Json::Int(1)));
    v41.push(crate::json::value_pair("max", Json::Int(100)));
    v36.push(crate::json::value_pair("repeat", Json::Obj(v41)));
    v36.push(crate::json::value_pair("maximumSteps", Json::Int(128)));
    let mut v42: Vec<(String, Json)> = Vec::new();
    v42.push(crate::json::value_pair("min", Json::Int(1)));
    v42.push(crate::json::value_pair("max", Json::Int(30000)));
    v42.push(crate::json::value_pair("default", Json::Int(2000)));
    v36.push(crate::json::value_pair("timeoutMs", Json::Obj(v42)));
    v36.push(crate::json::value_pair("legacyKeyCompatibility", Json::Bool(true)));
    let c8 = Json::Obj(v36);
    let ghost g8 = c8;
    assert(window_key_constraints(g8));
    out.push(capability_descriptor(Capability::UiInputKey, c8));
    let mut v43: Vec<(String, Json)> = Vec::new();
    v43.push(crate::json::value_pair("target", Json::string("exact-window")));
    let mut v44: Vec<Json> = Vec::new();
    v44.push(Json::string("screen-physical-px"));
    v44.push(Json::string("window-client-physical-px"));
    v43.push(crate::json::value_pair("coordinateSpaces", Json::Arr(v44)));
    let mut v45: Vec<Json> = Vec::new();
    v45.push(Json::string("move"));
    v45.push(Json::string("button"));
    v45.push(Json::string("click"));
    v45.push(Json::string("scroll"));
    v45.push(Json::string("drag"));
    v43.push(crate::json::value_pair("steps", Json::Arr(v45)));
    let mut v46: Vec<Json> = Vec::new();
    v46.push(Json::string("left"));
    v46.push(Json::string("right"));
    v46.push(Json::string("middle"));
    v43.push(crate::json::value_pair("buttons", Json::Arr(v46)));
    v43.push(crate::json::value_pair("buttonOwnership", Json::string("request-scoped-balanced")));
    let mut v47: Vec<(String, Json)> = Vec::new();
    v47.push(crate::json::value_pair("min", Json::Int(1)));
    v47.push(crate::json::value_pair("max", Json::Int(2)));
    v43.push(crate::json::value_pair("clickCount", Json::Obj(v47)));
    let mut v48: Vec<Json> = Vec::new();
    v48.push(Json::string("vertical"));
    v48.push(Json::string("horizontal"));
    v43.push(crate::json::value_pair("scrollAxes", Json::Arr(v48)));
    v43.push(crate::json::value_pair("maximumSteps", Json::Int(64)));
    let mut v49: Vec<(String, Json)> = Vec::new();
    v49.push(crate::json::value_pair("min", Json::Int(1)));
    v49.push(crate::json::value_pair("max", Json::Int(30000)));
    v49.push(crate::json::value_pair("default", Json::Int(2000)));
    v43.push(crate::json::value_pair("timeoutMs", Json::Obj(v49)));
    v43.push(crate::json::value_pair("legacyClickCompatibility", Json::Bool(true)));
    let c9 = Json::Obj(v43);
    let ghost g9 = c9;
    assert(window_pointer_constraints(g9));
    out.push(capability_descriptor(Capability::UiInputPointer, c9));
    Json::Arr(out)
}

} // verus!
