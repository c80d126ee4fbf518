//! Which provider the facade may pick without a freshness query: browser
//! session operations, and canonical stale targets with one owning module.

use vstd::prelude::*;
use crate::capabilities::{
    BROWSER_ELEMENT_CLICK, BROWSER_ELEMENT_TYPE, BROWSER_PAGE_NAVIGATE, BROWSER_PAGE_QUERY,
    BROWSER_PAGE_SCREENSHOT, BROWSER_PAGE_WAIT, BROWSER_SESSION_CLOSE, PROCESS_TERMINATE_FORCE,
    PROCESS_TERMINATE_GRACEFUL, UI_ELEMENT_ACTION, UI_ELEMENT_LOCATE, UI_ELEMENT_WAIT, UI_INPUT_KEY,
    UI_INPUT_POINTER, UI_TEXT_INPUT, WINDOW_CLOSE, WINDOW_CLOSED_WAIT, WINDOW_LIFECYCLE, WINDOW_RECORD,
    WINDOW_SCREENSHOT,
};
use crate::opaque_id::{OpaqueTargetKind, parse_kind, parse_spec};
use crate::text::str_eq;

verus! {

/// The browser-session operations whose broker pre-check decides staleness.
pub open spec fn is_browser_session_operation(capability: Seq<char>) -> bool {
    ||| capability == BROWSER_SESSION_CLOSE@
    ||| is_browser_page_operation(capability)
}

/// The page and element operations of a browser session.
pub open spec fn is_browser_page_operation(capability: Seq<char>) -> bool {
    ||| capability == BROWSER_PAGE_NAVIGATE@
    ||| capability == BROWSER_PAGE_WAIT@
    ||| capability == BROWSER_PAGE_QUERY@
    ||| capability == BROWSER_ELEMENT_CLICK@
    ||| capability == BROWSER_ELEMENT_TYPE@
    ||| capability == BROWSER_PAGE_SCREENSHOT@
}

fn is_page_operation(capability: &str) -> (r: bool)
    ensures
        r == is_browser_page_operation(capability@),
{
    str_eq(capability, BROWSER_PAGE_NAVIGATE) || str_eq(capability, BROWSER_PAGE_WAIT)
        || str_eq(capability, BROWSER_PAGE_QUERY) || str_eq(capability, BROWSER_ELEMENT_CLICK)
        || str_eq(capability, BROWSER_ELEMENT_TYPE) || str_eq(capability, BROWSER_PAGE_SCREENSHOT)
}

/// Whether the facade must pick the browser-session provider directly, without
/// a separate freshness query; the target shape is left to the provider.
pub fn selects_direct_browser_session_provider(capability: &str, session_id: &str) -> (r: bool)
    ensures
        r == is_browser_session_operation(capability@),
{
    str_eq(capability, BROWSER_SESSION_CLOSE) || is_page_operation(capability)
}

/// The public description of how a capability is targeted.
pub fn targeting_label(capability: &str) -> (r: &'static str)
    ensures
        r@ == if is_browser_page_operation(capability@) {
            "opaque exact browser session"@
        } else {
            "opaque exact session"@
        },
{
    if is_page_operation(capability) {
        return "opaque exact browser session";
    }
    "opaque exact session"
}

/// The window capabilities whose domain module owns the stale-window answer.
pub open spec fn is_window_owned(capability: Seq<char>) -> bool {
    ||| capability == WINDOW_CLOSE@
    ||| capability == WINDOW_CLOSED_WAIT@
    ||| capability == UI_ELEMENT_ACTION@
    ||| capability == UI_ELEMENT_LOCATE@
    ||| capability == UI_ELEMENT_WAIT@
    ||| capability == WINDOW_SCREENSHOT@
    ||| capability == WINDOW_RECORD@
    ||| capability == WINDOW_LIFECYCLE@
    ||| capability == UI_INPUT_KEY@
    ||| capability == UI_INPUT_POINTER@
}

/// Whether a stale canonical target may go straight to the provider whose
/// module owns its stale semantics: text input for controls, the window set
/// for windows, the two terminations for processes, nothing else.
pub open spec fn stale_route_spec(capability: Seq<char>, session_id: Seq<char>) -> bool {
    match parse_spec(session_id) {
        Some(OpaqueTargetKind::Control) => capability == UI_TEXT_INPUT@,
        Some(OpaqueTargetKind::Window) => is_window_owned(capability),
        Some(OpaqueTargetKind::Process) => capability == PROCESS_TERMINATE_GRACEFUL@
            || capability == PROCESS_TERMINATE_FORCE@,
        _ => false,
    }
}

/// Decides whether a stale canonical target has a provider-owned error route.
pub fn selects_provider_owned_stale_target(capability: &str, session_id: &str) -> (r: bool)
    ensures
        r == stale_route_spec(capability@, session_id@),
{
    match parse_kind(session_id) {
        Some(OpaqueTargetKind::Control) => str_eq(capability, UI_TEXT_INPUT),
        Some(OpaqueTargetKind::Window) => {
            str_eq(capability, WINDOW_CLOSE) || str_eq(capability, WINDOW_CLOSED_WAIT)
                || str_eq(capability, UI_ELEMENT_ACTION) || str_eq(capability, UI_ELEMENT_LOCATE)
                || str_eq(capability, UI_ELEMENT_WAIT) || str_eq(capability, WINDOW_SCREENSHOT)
                || str_eq(capability, WINDOW_RECORD) || str_eq(capability, WINDOW_LIFECYCLE)
                || str_eq(capability, UI_INPUT_KEY) || str_eq(capability, UI_INPUT_POINTER)
        },
        Some(OpaqueTargetKind::Process) => {
            str_eq(capability, PROCESS_TERMINATE_GRACEFUL) || str_eq(capability, PROCESS_TERMINATE_FORCE)
        },
        _ => false,
    }
}

} // verus!
