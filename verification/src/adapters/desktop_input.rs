//! The decisions of the desktop adapter's input operations: the key-press
//! plan and the order in which its strokes go out, the foreground checks
//! around a release, and the routes and result of typing text.

use vstd::prelude::*;
use crate::adapters::desktop::{
    is_key_phase, optional_hold_ms, optional_key_phase, required_string, required_string_message,
};
use crate::adapters::keys::{chord_inputs, chord_keys, chord_strokes, named_key_message, split_plus, trim, KeyStroke};
use crate::app::error_codes::DesktopAdapterErrorCode;
use crate::error::{AppControlError, AppResult};
use crate::json::{Json, field_of, str_spec, u64_spec, json_eq, str_member, bool_member, clone_json};
use crate::request::nonempty_field;
use crate::text::str_eq;

verus! {

/// The phase of a key press.
#[derive(Clone, Copy, Debug, PartialEq, Eq, Structural)]
pub enum KeyPhase {
    Press,
    Down,
    Up,
}

/// The phase named by a validated phase text.
pub open spec fn phase_of(s: Seq<char>) -> KeyPhase {
    if s == "down"@ { KeyPhase::Down } else if s == "up"@ { KeyPhase::Up } else { KeyPhase::Press }
}

/// A checked key press: the key text, the hold time, the phase, the strokes of
/// the chord and where its releases begin.
#[derive(Debug)]
pub struct KeyPressPlan {
    pub key: String,
    pub hold_ms: u64,
    pub phase: KeyPhase,
    pub strokes: Vec<KeyStroke>,
    pub release_index: usize,
}

/// The message of a hold time given with a phase other than `press`.
pub open spec fn hold_phase_message() -> Seq<char> {
    "args.holdMs is only valid when args.phase is 'press'."@
}

/// The phase text of the arguments: `press` when absent.
pub open spec fn phase_text(args: Seq<(String, Json)>) -> Option<Seq<char>> {
    match field_of(args, "phase"@) {
        None => Some("press"@),
        Some(v) => match str_spec(v) {
            Some(s) if is_key_phase(s) => Some(s),
            _ => None,
        },
    }
}

/// The hold time of the arguments: zero when absent.
pub open spec fn hold_of(args: Seq<(String, Json)>) -> Option<u64> {
    match field_of(args, "holdMs"@) {
        None => Some(0),
        Some(v) => match u64_spec(v) {
            Some(n) if n <= 5000 => Some(n),
            _ => None,
        },
    }
}

/// Checks the arguments of a key press in order: the key, the hold time, the
/// phase, a hold time only with `press`, then the chord's key names.
pub fn press_key_plan(args: &Vec<(String, Json)>) -> (r: AppResult<KeyPressPlan>)
    ensures
        match nonempty_field(args@, "key"@) {
            None => r matches Err(e) && e.code@ == "INVALID_ARGUMENT"@ && e.message@ == required_string_message("key"@),
            Some(key) => match hold_of(args@) {
                None => r matches Err(e) && e.code@ == "INVALID_ARGUMENT"@
                    && e.message@ == "args.holdMs must be an integer between 0 and 5000."@,
                Some(hold) => match phase_text(args@) {
                    None => r matches Err(e) && e.code@ == "INVALID_ARGUMENT"@
                        && e.message@ == "args.phase must be 'press', 'down', or 'up'."@,
                    Some(phase) => if phase != "press"@ && hold != 0 {
                        r matches Err(e) && e.code@ == "INVALID_ARGUMENT"@ && e.message@ == hold_phase_message()
                    } else {
                        match chord_keys(split_plus(key).map_values(|p: Seq<char>| trim(p))) {
                            None => r matches Err(e) && e.code@ == "INVALID_ARGUMENT"@ && e.message@ == named_key_message(),
                            Some(keys) => r matches Ok(plan) && plan.key@ == key && plan.hold_ms == hold
                                && plan.phase == phase_of(phase)
                                && plan.strokes@ == chord_strokes(keys)
                                && plan.release_index == keys.len(),
                        }
                    },
                },
            },
        },
{
    proof {
        reveal_strlit("press");
        reveal_strlit("down");
        reveal_strlit("up");
    }
    let key = match required_string(args, "key") {
        Ok(k) => k,
        Err(e) => { return Err(e); },
    };
    let hold_ms = match optional_hold_ms(crate::json::fields_get(args, "holdMs")) {
        Ok(h) => h,
        Err(e) => { return Err(e); },
    };
    let phase_name = match optional_key_phase(crate::json::fields_get(args, "phase")) {
        Ok(p) => p,
        Err(e) => { return Err(e); },
    };
    if !str_eq(phase_name, "press") && hold_ms != 0 {
        return Err(DesktopAdapterErrorCode::InvalidArgument.error(
            "args.holdMs is only valid when args.phase is 'press'.",
        ));
    }
    let strokes = match chord_inputs(key) {
        Ok(s) => s,
        Err(e) => { return Err(e); },
    };
    let phase = if str_eq(phase_name, "down") {
        KeyPhase::Down
    } else if str_eq(phase_name, "up") {
        KeyPhase::Up
    } else {
        KeyPhase::Press
    };
    let release_index = strokes.len() / 2;
    Ok(KeyPressPlan { key: crate::text::owned(key), hold_ms, phase, strokes, release_index })
}

/// One step of a key press as the adapter carries it out.
#[derive(Clone, Copy, Debug, PartialEq, Eq, Structural)]
pub enum KeyAction {
    /// Bring the target window to the foreground.
    Activate,
    /// Send every stroke of the chord.
    SendAll,
    /// Send the pressing strokes.
    SendPresses,
    /// Send the releasing strokes.
    SendReleases,
    /// Keep the keys held for this many milliseconds.
    Hold(u64),
    /// Note the foreground window before the release.
    ObserveForeground,
}

/// The steps of a key press: a plain press activates and sends the chord; a
/// held press also waits and notes the foreground before releasing; `down`
/// only presses; `up` notes the foreground and only releases.
pub open spec fn key_actions_spec(phase: KeyPhase, hold_ms: u64) -> Seq<KeyAction> {
    match phase {
        KeyPhase::Press => if hold_ms == 0 {
            seq![KeyAction::Activate, KeyAction::SendAll]
        } else {
            seq![KeyAction::Activate, KeyAction::SendPresses, KeyAction::Hold(hold_ms),
                KeyAction::ObserveForeground, KeyAction::SendReleases]
        },
        KeyPhase::Down => seq![KeyAction::Activate, KeyAction::SendPresses],
        KeyPhase::Up => seq![KeyAction::ObserveForeground, KeyAction::SendReleases],
    }
}

/// The steps of a key press.
pub fn key_actions(phase: KeyPhase, hold_ms: u64) -> (r: Vec<KeyAction>)
    ensures
        r@ == key_actions_spec(phase, hold_ms),
{
    let mut v: Vec<KeyAction> = Vec::new();
    match phase {
        KeyPhase::Press => {
            v.push(KeyAction::Activate);
            if hold_ms == 0 {
                v.push(KeyAction::SendAll);
            } else {
                v.push(KeyAction::SendPresses);
                v.push(KeyAction::Hold(hold_ms));
                v.push(KeyAction::ObserveForeground);
                v.push(KeyAction::SendReleases);
            }
        },
        KeyPhase::Down => {
            v.push(KeyAction::Activate);
            v.push(KeyAction::SendPresses);
        },
        KeyPhase::Up => {
            v.push(KeyAction::ObserveForeground);
            v.push(KeyAction::SendReleases);
        },
    }
    assert(v@ =~= key_actions_spec(phase, hold_ms));
    v
}

/// What a release reports once its keys are up: a held press or an `up`
/// whose target was no longer the foreground window fails, after the keys
/// were released safely.
pub fn release_outcome(phase: KeyPhase, hold_ms: u64, foreground_before_release: isize, window: isize) -> (r: AppResult<()>)
    ensures
        r is Err <==> (foreground_before_release != window
            && (phase == KeyPhase::Up || (phase == KeyPhase::Press && hold_ms != 0))),
        r matches Err(e) ==> e.code@ == "FOREGROUND_CHANGED"@ && e.details == Json::Null
            && e.message@ == if phase == KeyPhase::Up {
                "The key was released safely, but the target was no longer the foreground window."@
            } else {
                "The foreground window changed while the key was held; the key was released safely."@
            },
{
    if foreground_before_release == window {
        return Ok(());
    }
    match phase {
        KeyPhase::Press => if hold_ms != 0 {
            Err(DesktopAdapterErrorCode::ForegroundChanged.error(
                "The foreground window changed while the key was held; the key was released safely.",
            ))
        } else {
            Ok(())
        },
        KeyPhase::Up => Err(DesktopAdapterErrorCode::ForegroundChanged.error(
            "The key was released safely, but the target was no longer the foreground window.",
        )),
        KeyPhase::Down => Ok(()),
    }
}

/// How text is typed into a window found by filters.
#[derive(Clone, Copy, Debug)]
pub enum WindowTextRoute {
    /// Exactly one standard Edit control: set its text in the background.
    Background,
    /// No or several Edit controls and no consent: refuse, with the reason.
    ConsentRequired(&'static str),
    /// No or several Edit controls, with consent: type through foreground input.
    Foreground,
}

/// The route of typing into a window with `edit_controls` standard Edit controls.
pub fn window_text_route(edit_controls: usize, foreground_consent: bool) -> (r: WindowTextRoute)
    ensures
        edit_controls == 1 ==> r is Background,
        edit_controls != 1 && foreground_consent ==> r is Foreground,
        edit_controls != 1 && !foreground_consent ==> (r matches WindowTextRoute::ConsentRequired(reason)
            && reason@ == if edit_controls == 0 {
                "目标窗口没有可认证的标准 Edit 控件。"@
            } else {
                "目标窗口包含多个标准 Edit 控件，无法安全选择后台写入目标。"@
            }),
{
    if edit_controls == 1 {
        WindowTextRoute::Background
    } else if foreground_consent {
        WindowTextRoute::Foreground
    } else if edit_controls == 0 {
        WindowTextRoute::ConsentRequired("目标窗口没有可认证的标准 Edit 控件。")
    } else {
        WindowTextRoute::ConsentRequired("目标窗口包含多个标准 Edit 控件，无法安全选择后台写入目标。")
    }
}

/// The background text write refuses a foreground change.
pub fn background_write_outcome(before: isize, after: isize) -> (r: AppResult<()>)
    ensures
        r is Ok <==> before == after,
        r matches Err(e) ==> e.code@ == "FOREGROUND_CHANGED"@ && e.details == Json::Null
            && e.message@ == "后台 WM_SETTEXT 意外改变了前景窗口；已拒绝前台回退。"@,
{
    if before != after {
        return Err(DesktopAdapterErrorCode::ForegroundChanged.error(
            "后台 WM_SETTEXT 意外改变了前景窗口；已拒绝前台回退。",
        ));
    }
    Ok(())
}

/// The result of setting a standard Edit control's text through its opaque
/// session: the fixed desktop facts, the session alone as the target, the
/// readback evidence as the control module gave it, an unchanged foreground
/// and the secured compatibility shape.
pub open spec fn standard_edit_text_shape(r: Json, session_id: Seq<char>, readback: Json) -> bool {
    match r {
        Json::Obj(m) => m@.len() == 8
            && bool_member(m@[0], "ok"@, true)
            && str_member(m@[1], "app"@, "desktop"@)
            && str_member(m@[2], "operation"@, "type-text"@)
            && str_member(m@[3], "executionMode"@, "background-wm-settext"@)
            && m@[4].0@ == "target"@
            && (m@[4].1 matches Json::Obj(t) && t@.len() == 1 && str_member(t@[0], "sessionId"@, session_id))
            && m@[5].0@ == "verifiedByReadback"@ && json_eq(readback, m@[5].1)
            && m@[6].0@ == "foreground"@
            && (m@[6].1 matches Json::Obj(f) && f@.len() == 1 && bool_member(f@[0], "unchanged"@, true))
            && str_member(m@[7], "compatibilityShape"@, "secured-desktop-standard-edit-v1"@),
        _ => false,
    }
}

/// The readback evidence of a control module result: its `verifiedByReadback`
/// member, `null` when absent.
pub open spec fn readback_of(result: Json) -> Json {
    match crate::json::get_spec(result, "verifiedByReadback"@) {
        Some(v) => v,
        None => Json::Null,
    }
}

/// Builds the result of a text write through an opaque control session.
pub fn standard_edit_text_result(session_id: &str, result: &Json) -> (r: Json)
    ensures
        standard_edit_text_shape(r, session_id@, readback_of(*result)),
{
    let readback = match result.get("verifiedByReadback") {
        Some(v) => clone_json(v),
        None => Json::Null,
    };
    let mut target: Vec<(String, Json)> = Vec::new();
    target.push(crate::json::str_pair("sessionId", session_id));
    let mut foreground: Vec<(String, Json)> = Vec::new();
    foreground.push(crate::json::bool_pair("unchanged", true));
    let mut m: Vec<(String, Json)> = Vec::new();
    m.push(crate::json::bool_pair("ok", true));
    m.push(crate::json::str_pair("app", "desktop"));
    m.push(crate::json::str_pair("operation", "type-text"));
    m.push(crate::json::str_pair("executionMode", "background-wm-settext"));
    m.push(crate::json::value_pair("target", Json::Obj(target)));
    m.push(crate::json::value_pair("verifiedByReadback", readback));
    m.push(crate::json::value_pair("foreground", Json::Obj(foreground)));
    m.push(crate::json::str_pair("compatibilityShape", "secured-desktop-standard-edit-v1"));
    Json::Obj(m)
}

/// The UTF-16 code units of one character: the character itself in the basic
/// plane, else its surrogate pair.
pub open spec fn char_utf16(c: char) -> Seq<u16> {
    let v = c as u32;
    if v < 0x10000 {
        seq![v as u16]
    } else {
        let w = (v - 0x10000) as u32;
        seq![(0xD800 + w / 0x400) as u16, (0xDC00 + w % 0x400) as u16]
    }
}

/// The UTF-16 code units of a text.
pub open spec fn text_utf16(s: Seq<char>) -> Seq<u16>
    decreases s.len(),
{
    if s.len() == 0 {
        Seq::empty()
    } else {
        text_utf16(s.drop_last()) + char_utf16(s.last())
    }
}

/// The key events that type code units: each unit pressed, then released.
pub open spec fn unicode_events(units: Seq<u16>) -> Seq<(u16, bool)>
    decreases units.len(),
{
    if units.len() == 0 {
        Seq::empty()
    } else {
        unicode_events(units.drop_last()) + seq![(units.last(), false), (units.last(), true)]
    }
}

/// The Unicode key events that type `text` through foreground input: for each
/// UTF-16 code unit, a key-down then a key-up (`true`) event.
pub fn unicode_key_events(text: &str) -> (r: Vec<(u16, bool)>)
    ensures
        r@ == unicode_events(text_utf16(text@)),
{
    let n = text.unicode_len();
    let mut events: Vec<(u16, bool)> = Vec::new();
    let ghost mut units: Seq<u16> = Seq::empty();
    let mut i: usize = 0;
    while i < n
        invariant
            n == text@.len(),
            i <= n,
            units == text_utf16(text@.take(i as int)),
            events@ == unicode_events(units),
        decreases n - i,
    {
        let c = text.get_char(i);
        let v = c as u32;
        proof {
            let t = text@.take(i + 1);
            assert(t.drop_last() =~= text@.take(i as int));
            assert(t.last() == c);
        }
        if v < 0x10000 {
            let unit = v as u16;
            events.push((unit, false));
            events.push((unit, true));
            proof {
                assert(char_utf16(c) =~= seq![unit]);
                assert((units + seq![unit]).drop_last() =~= units);
                units = units + seq![unit];
            }
            assert(events@ =~= unicode_events(units));
        } else {
            assert(v <= 0x10FFFF);
            let w = v - 0x10000;
            let high = (0xD800 + w / 0x400) as u16;
            let low = (0xDC00 + w % 0x400) as u16;
            events.push((high, false));
            events.push((high, true));
            events.push((low, false));
            events.push((low, true));
            proof {
                assert(char_utf16(c) =~= seq![high, low]);
                let u1 = units + seq![high];
                let u2 = units + seq![high, low];
                assert(u1.drop_last() =~= units);
                assert(u2.drop_last() =~= u1);
                assert(u1.last() == high);
                assert(u2.last() == low);
                assert(unicode_events(u1) == unicode_events(units) + seq![(high, false), (high, true)]);
                assert(unicode_events(u2) == unicode_events(u1) + seq![(low, false), (low, true)]);
                units = u2;
            }
            assert(events@ =~= unicode_events(units));
        }
        i = i + 1;
    }
    assert(text@.take(n as int) =~= text@);
    events
}

/// The string value of member `key`.
pub open spec fn field_text(fields: Seq<(String, Json)>, key: Seq<char>) -> Option<Seq<char>> {
    match field_of(fields, key) {
        Some(v) => str_spec(v),
        None => None,
    }
}

/// A recording result as the desktop adapter reports it: the recording
/// module's object with the adapter's `app` and `operation` set.
pub fn record_result(result: Json) -> (r: AppResult<Json>)
    ensures
        match result {
            Json::Obj(f) => r matches Ok(Json::Obj(g))
                && field_text(g@, "app"@) == Some("desktop"@)
                && field_text(g@, "operation"@) == Some("record"@)
                && forall|k: Seq<char>| k != "app"@ && k != "operation"@ ==> #[trigger] field_of(g@, k) == field_of(f@, k),
            _ => r matches Err(e) && e.code@ == "OPERATION_FAILED"@
                && e.message@ == "The recording module returned invalid data."@ && e.details == Json::Null,
        },
{
    match result {
        Json::Obj(fields) => {
            proof {
                reveal_strlit("app");
                reveal_strlit("operation");
                assert("app"@.len() != "operation"@.len());
            }
            let with_app = crate::json::set_member(fields, "app", Json::string("desktop"));
            Ok(Json::Obj(crate::json::set_member(with_app, "operation", Json::string("record"))))
        },
        _ => Err(DesktopAdapterErrorCode::OperationFailed.error("The recording module returned invalid data.")),
    }
}

/// The result of closing the exact window behind an opaque session: the
/// fixed desktop facts, the session as the target, the close module's
/// `closed` and `foregroundUnchanged` evidence as it gave them (`null` when
/// absent), and the provider-neutral compatibility shape.
pub open spec fn opaque_close_shape(r: Json, session_id: Seq<char>, closed: Json, unchanged: Json) -> bool {
    match r {
        Json::Obj(m) => m@.len() == 8
            && bool_member(m@[0], "ok"@, true)
            && str_member(m@[1], "app"@, "desktop"@)
            && str_member(m@[2], "operation"@, "close"@)
            && str_member(m@[3], "executionMode"@, "background-wm-close"@)
            && str_member(m@[4], "targetId"@, session_id)
            && m@[5].0@ == "closed"@ && json_eq(closed, m@[5].1)
            && m@[6].0@ == "foreground"@
            && (m@[6].1 matches Json::Obj(f) && f@.len() == 1 && f@[0].0@ == "unchanged"@ && json_eq(unchanged, f@[0].1))
            && str_member(m@[7], "compatibilityShape"@, "provider-neutral-window-close-v1"@),
        _ => false,
    }
}

/// A member of a result, `null` when absent.
pub open spec fn member_or_null(result: Json, key: Seq<char>) -> Json {
    match crate::json::get_spec(result, key) {
        Some(v) => v,
        None => Json::Null,
    }
}

fn copy_member(result: &Json, key: &str) -> (r: Json)
    ensures
        json_eq(member_or_null(*result, key@), r),
{
    match result.get(key) {
        Some(v) => clone_json(v),
        None => {
            let r = Json::Null;
            assert(json_eq(Json::Null, r));
            r
        },
    }
}

/// Builds the result of closing a window through its opaque session.
pub fn opaque_close_result(session_id: &str, result: &Json) -> (r: Json)
    ensures
        opaque_close_shape(r, session_id@, member_or_null(*result, "closed"@),
            member_or_null(*result, "foregroundUnchanged"@)),
{
    let closed = copy_member(result, "closed");
    let unchanged = copy_member(result, "foregroundUnchanged");
    let mut foreground: Vec<(String, Json)> = Vec::new();
    foreground.push(crate::json::value_pair("unchanged", unchanged));
    let mut m: Vec<(String, Json)> = Vec::new();
    m.push(crate::json::bool_pair("ok", true));
    m.push(crate::json::str_pair("app", "desktop"));
    m.push(crate::json::str_pair("operation", "close"));
    m.push(crate::json::str_pair("executionMode", "background-wm-close"));
    m.push(crate::json::str_pair("targetId", session_id));
    m.push(crate::json::value_pair("closed", closed));
    m.push(crate::json::value_pair("foreground", Json::Obj(foreground)));
    m.push(crate::json::str_pair("compatibilityShape", "provider-neutral-window-close-v1"));
    Json::Obj(m)
}

/// The capture timeout of a window screenshot: `args.timeoutMs` when it is a
/// non-negative integer, five seconds otherwise.
pub fn screenshot_timeout_ms(args: &Vec<(String, Json)>) -> (r: u64)
    ensures
        r == match field_of(args@, "timeoutMs"@) {
            Some(v) => match u64_spec(v) {
                Some(n) => n,
                None => 5000,
            },
            None => 5000,
        },
{
    match crate::json::fields_get(args, "timeoutMs") {
        Some(v) => match v.as_u64() {
            Some(n) => n,
            None => 5000,
        },
        None => 5000,
    }
}

/// A background window capture during which the foreground window changed is
/// refused: the capture is not evidence of an undisturbed background; the
/// details name the written file and the changed foreground.
pub fn capture_foreground_check(before: isize, after: isize, path: &str) -> (r: AppResult<()>)
    ensures
        r is Ok <==> before == after,
        r matches Err(e) ==> e.code@ == "FOREGROUND_CHANGED"@
            && e.message@ == "后台窗口截图期间前景窗口发生变化；结果未认证为后台不干扰证据。"@
            && (e.details matches Json::Obj(d) && d@.len() == 2 && str_member(d@[0], "path"@, path@)
                && bool_member(d@[1], "foregroundUnchanged"@, false)),
{
    if before == after {
        return Ok(());
    }
    let mut d: Vec<(String, Json)> = Vec::new();
    d.push(crate::json::str_pair("path", path));
    d.push(crate::json::bool_pair("foregroundUnchanged", false));
    Err(DesktopAdapterErrorCode::ForegroundChanged.with_details(
        "后台窗口截图期间前景窗口发生变化；结果未认证为后台不干扰证据。",
        Json::Obj(d),
    ))
}

} // verus!
