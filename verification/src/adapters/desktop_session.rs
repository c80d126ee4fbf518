//! The checks of a desktop session lease: that the layout it was opened on
//! still holds and a pointer position lies on a monitor, that no key is held
//! before input, how input failures are classified, and how captured monitor
//! frames are placed on the desktop canvas.

use vstd::prelude::*;
use crate::adapters::desktop_layout::{
    holds, monitor_at, platform_error, platform_message, same_layout, DesktopLayout, MonitorRect,
};
use crate::error::{AppControlError, AppResult};
use crate::json::{Json, bool_spec, get_spec, str_spec, u64_spec};

verus! {

/// Whether a pointer position lies on some monitor of the layout.
pub open spec fn mapped(layout: DesktopLayout, x: int, y: int) -> bool {
    exists|k: int| 0 <= k < layout.monitors@.len() && holds(#[trigger] layout.monitors@[k], x, y)
}

/// The check before each input: the layout must be the one the lease was
/// opened on, and a given pointer position must lie on one of its monitors.
pub fn lease_check(held: &DesktopLayout, current: &DesktopLayout, point: Option<(i32, i32)>) -> (r: AppResult<()>)
    ensures
        !(held.monitors@ == current.monitors@ && held.x == current.x && held.y == current.y
            && held.width == current.width && held.height == current.height) ==> (r matches Err(e)
            && e.code@ == "STALE_FRAME"@ && e.message@ == platform_message()),
        (held.monitors@ == current.monitors@ && held.x == current.x && held.y == current.y
            && held.width == current.width && held.height == current.height) ==> match point {
            None => r is Ok,
            Some(p) => if mapped(*held, p.0 as int, p.1 as int) {
                r is Ok
            } else {
                r matches Err(e) && e.code@ == "INPUT_MAPPING_UNAVAILABLE"@ && e.message@ == platform_message()
            },
        },
{
    if !same_layout(current, held) {
        return Err(platform_error("STALE_FRAME"));
    }
    match point {
        None => Ok(()),
        Some((x, y)) => match monitor_at(held, x, y) {
            Some(_) => Ok(()),
            None => Err(platform_error("INPUT_MAPPING_UNAVAILABLE")),
        },
    }
}

/// Input waits for a keyboard at rest: every virtual key from the first
/// listed one on must read as released (a set sign bit means held down).
pub fn keys_idle(states: &Vec<i16>) -> (r: AppResult<()>)
    ensures
        r is Ok <==> forall|k: int| 0 <= k < states@.len() ==> #[trigger] states@[k] >= 0,
        r matches Err(e) ==> e.code@ == "INPUT_BUSY"@ && e.message@ == platform_message(),
{
    let mut i: usize = 0;
    while i < states.len()
        invariant
            i <= states@.len(),
            forall|k: int| 0 <= k < i ==> #[trigger] states@[k] >= 0,
        decreases states@.len() - i,
    {
        if states[i] < 0 {
            return Err(platform_error("INPUT_BUSY"));
        }
        i = i + 1;
    }
    Ok(())
}

/// How an input failure is reported to the desktop session.
#[derive(Debug, PartialEq, Eq)]
pub struct InputFailure {
    pub code: &'static str,
    pub source: &'static str,
    /// Whether input may already have been dispatched.
    pub after_dispatch: bool,
    pub safe_release_succeeded: bool,
    pub completed_step_count: u64,
    pub input_events_sent: u64,
}

/// Whether a details member is the given text.
pub open spec fn detail_is(details: Json, key: Seq<char>, value: Seq<char>) -> bool {
    match get_spec(details, key) {
        Some(v) => str_spec(v) == Some(value),
        None => false,
    }
}

/// A non-negative integer detail, zero when absent or of another shape.
pub open spec fn count_detail(details: Json, key: Seq<char>) -> u64 {
    match get_spec(details, key) {
        Some(v) => match u64_spec(v) {
            Some(n) => n,
            None => 0,
        },
        None => 0,
    }
}

/// Whether the input module reported an unknown outcome.
pub open spec fn outcome_unknown(e: AppControlError) -> bool {
    detail_is(e.details, "outcome"@, "unknown"@)
}

/// Classifies an input module failure: a cancellation (by its code or its
/// cause) is `CANCELLED`, an unknown outcome is `OUTCOME_UNKNOWN`, anything
/// else is `INPUT_UNAVAILABLE`. Only an unknown outcome counts as after
/// dispatch, with the module's release, step and event evidence.
pub fn classify_input_failure(e: &AppControlError) -> (r: InputFailure)
    ensures
        r.code@ == if e.code@ == "CANCELLED"@ || detail_is(e.details, "causeCode"@, "CANCELLED"@) {
            "CANCELLED"@
        } else if outcome_unknown(*e) {
            "OUTCOME_UNKNOWN"@
        } else {
            "INPUT_UNAVAILABLE"@
        },
        r.source@ == "windows-input"@,
        r.after_dispatch == outcome_unknown(*e),
        r.after_dispatch ==> r.safe_release_succeeded == (get_spec(e.details, "safeReleaseSucceeded"@) matches Some(v)
            && bool_spec(v) == Some(true)),
        r.after_dispatch ==> r.completed_step_count == count_detail(e.details, "completedStepCount"@),
        r.after_dispatch ==> r.input_events_sent == count_detail(e.details, "inputEventsSent"@),
        !r.after_dispatch ==> !r.safe_release_succeeded && r.completed_step_count == 0 && r.input_events_sent == 0,
{
    let d = &e.details;
    let cause_cancelled = match d.get("causeCode") {
        Some(v) => match v.as_str() {
            Some(s) => crate::text::str_eq(s, "CANCELLED"),
            None => false,
        },
        None => false,
    };
    let unknown = match d.get("outcome") {
        Some(v) => match v.as_str() {
            Some(s) => crate::text::str_eq(s, "unknown"),
            None => false,
        },
        None => false,
    };
    let code = if crate::text::str_eq(e.code, "CANCELLED") || cause_cancelled {
        "CANCELLED"
    } else if unknown {
        "OUTCOME_UNKNOWN"
    } else {
        "INPUT_UNAVAILABLE"
    };
    if !unknown {
        return InputFailure {
            code,
            source: "windows-input",
            after_dispatch: false,
            safe_release_succeeded: false,
            completed_step_count: 0,
            input_events_sent: 0,
        };
    }
    let safe_release = match d.get("safeReleaseSucceeded") {
        Some(v) => match v.as_bool() {
            Some(b) => b,
            None => false,
        },
        None => false,
    };
    let completed = match d.get("completedStepCount") {
        Some(v) => match v.as_u64() {
            Some(n) => n,
            None => 0,
        },
        None => 0,
    };
    let events = match d.get("inputEventsSent") {
        Some(v) => match v.as_u64() {
            Some(n) => n,
            None => 0,
        },
        None => 0,
    };
    InputFailure {
        code,
        source: "windows-input",
        after_dispatch: true,
        safe_release_succeeded: safe_release,
        completed_step_count: completed,
        input_events_sent: events,
    }
}

/// The frame generation after a capture: unchanged while the layout holds,
/// one more when it changed, refused when the count is exhausted.
pub fn next_generation(generation: u64, layout_changed: bool) -> (r: AppResult<u64>)
    ensures
        !layout_changed ==> r == Ok::<u64, AppControlError>(generation),
        layout_changed && generation < u64::MAX ==> r == Ok::<u64, AppControlError>((generation + 1) as u64),
        layout_changed && generation == u64::MAX ==> (r matches Err(e)
            && e.code@ == "RESOURCE_EXHAUSTED"@ && e.message@ == platform_message()),
{
    if !layout_changed {
        return Ok(generation);
    }
    match generation.checked_add(1) {
        Some(g) => Ok(g),
        None => Err(platform_error("RESOURCE_EXHAUSTED")),
    }
}

/// A captured monitor frame must have the monitor's size.
pub fn check_frame_size(monitor: &MonitorRect, width: u32, height: u32) -> (r: AppResult<()>)
    ensures
        r is Ok <==> (width == monitor.width && height == monitor.height),
        r matches Err(e) ==> e.code@ == "STALE_FRAME"@ && e.message@ == platform_message(),
{
    if width != monitor.width || height != monitor.height {
        return Err(platform_error("STALE_FRAME"));
    }
    Ok(())
}

/// Where a monitor's frame goes on the desktop canvas: its offset from the
/// layout's top-left corner.
pub fn canvas_offset(monitor: &MonitorRect, layout: &DesktopLayout) -> (r: (i64, i64))
    ensures
        r.0 == monitor.x - layout.x,
        r.1 == monitor.y - layout.y,
{
    (monitor.x as i64 - layout.x as i64, monitor.y as i64 - layout.y as i64)
}

/// The pointer buttons a frame point may name.
#[derive(Clone, Copy, Debug, PartialEq, Eq, Structural)]
pub enum FrameButton {
    Left,
    Right,
    Middle,
}

/// The button of a frame point: 1 is left, 2 right, 3 middle; any other
/// number is refused before dispatch.
pub fn frame_button(code: u8) -> (r: Option<FrameButton>)
    ensures
        code == 1 ==> r == Some(FrameButton::Left),
        code == 2 ==> r == Some(FrameButton::Right),
        code == 3 ==> r == Some(FrameButton::Middle),
        !(1 <= code <= 3) ==> r is None,
{
    match code {
        1 => Some(FrameButton::Left),
        2 => Some(FrameButton::Right),
        3 => Some(FrameButton::Middle),
        _ => None,
    }
}

} // verus!
