//! The facade's fixed providers: what each one publishes, and the payloads
//! that the host, browser-session and text-document providers build without
//! touching the machine.

use vstd::prelude::*;
use crate::app::descriptor::{capability_descriptor, descriptor_shape};
use crate::app::providers::{application_session_id, host_session_id, host_session_id_spec};
use crate::capabilities::{
    Capability, APPLICATION_OPEN, BROWSER_ELEMENT_CLICK, BROWSER_ELEMENT_TYPE, BROWSER_PAGE_NAVIGATE,
    BROWSER_PAGE_QUERY, BROWSER_PAGE_SCREENSHOT, BROWSER_PAGE_WAIT, BROWSER_SESSION_CLOSE,
    BROWSER_SESSION_OPEN, PROCESS_TERMINATE_FORCE, PROCESS_TERMINATE_GRACEFUL, TEXT_DOCUMENT_CREATE,
    UI_ELEMENT_ACTION, UI_ELEMENT_LOCATE, UI_ELEMENT_WAIT, UI_INPUT_KEY, UI_INPUT_POINTER, UI_TEXT_INPUT,
    WINDOW_CLOSE, WINDOW_CLOSED_WAIT, WINDOW_LIFECYCLE, WINDOW_RECORD, WINDOW_SCREENSHOT,
};
use crate::json::{Json, str_member, bool_member, value_member};
use crate::capabilities::{CapabilitySurface, capability_id, capability_surface};
use vstd::string::StringSliceAdditionalSpecFns;

verus! {

/// The providers behind the facade whose rules stand in this library.
#[derive(Clone, Copy, Debug, PartialEq, Eq, Structural)]
pub enum ProviderKind {
    Host,
    BrowserSession,
    Process,
    TextDocument,
    StandardEdit,
    Desktop,
}

/// The internal name of a provider.
pub open spec fn provider_name(p: ProviderKind) -> Seq<char> {
    match p {
        ProviderKind::Host => "windows-host"@,
        ProviderKind::BrowserSession => "browser-session"@,
        ProviderKind::Process => "windows-process-lifecycle"@,
        ProviderKind::TextDocument => "text-document"@,
        ProviderKind::StandardEdit => "standard-edit"@,
        ProviderKind::Desktop => "windows-window"@,
    }
}

/// The capability ids a provider publishes, in its order.
pub open spec fn provider_capability_ids(p: ProviderKind) -> Seq<Seq<char>> {
    match p {
        ProviderKind::Host => seq![APPLICATION_OPEN@, BROWSER_SESSION_OPEN@],
        ProviderKind::BrowserSession => seq![
            BROWSER_SESSION_CLOSE@, BROWSER_PAGE_NAVIGATE@, BROWSER_PAGE_WAIT@, BROWSER_PAGE_QUERY@,
            BROWSER_ELEMENT_CLICK@, BROWSER_ELEMENT_TYPE@, BROWSER_PAGE_SCREENSHOT@,
        ],
        ProviderKind::Process => seq![PROCESS_TERMINATE_GRACEFUL@, PROCESS_TERMINATE_FORCE@],
        ProviderKind::TextDocument => seq![TEXT_DOCUMENT_CREATE@],
        ProviderKind::StandardEdit => seq![UI_TEXT_INPUT@],
        ProviderKind::Desktop => seq![
            UI_ELEMENT_LOCATE@, UI_ELEMENT_ACTION@, UI_ELEMENT_WAIT@, WINDOW_CLOSED_WAIT@,
            WINDOW_SCREENSHOT@, WINDOW_RECORD@, WINDOW_CLOSE@, WINDOW_LIFECYCLE@, UI_INPUT_KEY@,
            UI_INPUT_POINTER@,
        ],
    }
}

impl ProviderKind {
    /// The provider's internal name.
    pub fn provider_id(self) -> (r: &'static str)
        ensures
            r@ == provider_name(self),
    {
        match self {
            ProviderKind::Host => "windows-host",
            ProviderKind::BrowserSession => "browser-session",
            ProviderKind::Process => "windows-process-lifecycle",
            ProviderKind::TextDocument => "text-document",
            ProviderKind::StandardEdit => "standard-edit",
            ProviderKind::Desktop => "windows-window",
        }
    }

    /// The capability ids the provider publishes.
    pub fn capabilities(self) -> (r: Vec<&'static str>)
        ensures
            r@.map_values(|s: &'static str| s@) == provider_capability_ids(self),
    {
        let mut v: Vec<&'static str> = Vec::new();
        match self {
            ProviderKind::Host => {
                v.push(APPLICATION_OPEN);
                v.push(BROWSER_SESSION_OPEN);
            },
            ProviderKind::BrowserSession => {
                v.push(BROWSER_SESSION_CLOSE);
                v.push(BROWSER_PAGE_NAVIGATE);
                v.push(BROWSER_PAGE_WAIT);
                v.push(BROWSER_PAGE_QUERY);
                v.push(BROWSER_ELEMENT_CLICK);
                v.push(BROWSER_ELEMENT_TYPE);
                v.push(BROWSER_PAGE_SCREENSHOT);
            },
            ProviderKind::Process => {
                v.push(PROCESS_TERMINATE_GRACEFUL);
                v.push(PROCESS_TERMINATE_FORCE);
            },
            ProviderKind::TextDocument => {
                v.push(TEXT_DOCUMENT_CREATE);
            },
            ProviderKind::StandardEdit => {
                v.push(UI_TEXT_INPUT);
            },
            ProviderKind::Desktop => {
                v.push(UI_ELEMENT_LOCATE);
                v.push(UI_ELEMENT_ACTION);
                v.push(UI_ELEMENT_WAIT);
                v.push(WINDOW_CLOSED_WAIT);
                v.push(WINDOW_SCREENSHOT);
                v.push(WINDOW_RECORD);
                v.push(WINDOW_CLOSE);
                v.push(WINDOW_LIFECYCLE);
                v.push(UI_INPUT_KEY);
                v.push(UI_INPUT_POINTER);
            },
        }
        assert(v@.map_values(|s: &'static str| s@) =~= provider_capability_ids(self));
        v
    }
}

/// Whether `c` is the `{min, max, default}` bound object.
pub open spec fn bounds_of(c: Json, min: int, max: int, default: int) -> bool {
    match c {
        Json::Obj(m) => m@.len() == 3
            && value_member(m@[0], "min"@, Json::Int(min as i128))
            && value_member(m@[1], "max"@, Json::Int(max as i128))
            && value_member(m@[2], "default"@, Json::Int(default as i128)),
        _ => false,
    }
}

/// The constraints of opening a browser session: the current host only, a
/// bounded timeout and no fallback.
pub open spec fn open_constraints(c: Json) -> bool {
    match c {
        Json::Obj(m) => m@.len() == 3
            && str_member(m@[0], "target"@, "current-host"@)
            && m@[1].0@ == "timeoutMs"@ && bounds_of(m@[1].1, 1, 30_000, 5_000)
            && str_member(m@[2], "fallback"@, "none"@),
        _ => false,
    }
}

/// The descriptor of `browser.session.open@1` that the host session publishes.
pub fn browser_session_open_descriptor() -> (r: Json)
    ensures
        exists|c: Json| #[trigger] open_constraints(c) && descriptor_shape(r, Capability::BrowserSessionOpen, c),
{
    let mut bounds: Vec<(String, Json)> = Vec::new();
    bounds.push(crate::json::value_pair("min", Json::Int(1)));
    bounds.push(crate::json::value_pair("max", Json::Int(30_000)));
    bounds.push(crate::json::value_pair("default", Json::Int(5_000)));
    let mut m: Vec<(String, Json)> = Vec::new();
    m.push(crate::json::str_pair("target", "current-host"));
    m.push(crate::json::value_pair("timeoutMs", Json::Obj(bounds)));
    m.push(crate::json::str_pair("fallback", "none"));
    let c = Json::Obj(m);
    let ghost cv = c;
    assert(open_constraints(cv));
    capability_descriptor(Capability::BrowserSessionOpen, c)
}

/// The public session of the current host: its opaque id, kind, title, state
/// and the one capability it publishes, opening a browser session.
pub open spec fn host_session_shape(s: Json, host_identity: Seq<u8>) -> bool {
    match s {
        Json::Obj(m) => m@.len() == 5
            && str_member(m@[0], "sessionId"@, host_session_id_spec(host_identity))
            && str_member(m@[1], "kind"@, "host"@)
            && str_member(m@[2], "title"@, "Windows application host"@)
            && str_member(m@[3], "state"@, "available"@)
            && m@[4].0@ == "capabilities"@
            && match m@[4].1 {
                Json::Arr(v) => v@.len() == 1
                    && exists|c: Json| #[trigger] open_constraints(c)
                        && descriptor_shape(v@[0], Capability::BrowserSessionOpen, c),
                _ => false,
            },
        _ => false,
    }
}

/// Builds the public session of the host with the given private identity.
pub fn public_host_session(host_identity: &str) -> (r: Json)
    ensures
        host_session_shape(r, host_identity.spec_bytes()),
{
    let mut caps: Vec<Json> = Vec::new();
    caps.push(browser_session_open_descriptor());
    let id = host_session_id(host_identity);
    let mut m: Vec<(String, Json)> = Vec::new();
    m.push(crate::json::member("sessionId", Json::Str(id)));
    m.push(crate::json::str_pair("kind", "host"));
    m.push(crate::json::str_pair("title", "Windows application host"));
    m.push(crate::json::str_pair("state", "available"));
    m.push(crate::json::value_pair("capabilities", Json::Arr(caps)));
    Json::Obj(m)
}

/// The browser-session provider's status: local, with its scope and no sessions.
pub fn browser_session_provider_status() -> (r: Json)
    ensures
        r matches Json::Obj(m) && m@.len() == 2 && bool_member(m@[0], "ok"@, true)
            && str_member(m@[1], "scope"@, "browser-session-and-page"@),
{
    let mut m: Vec<(String, Json)> = Vec::new();
    m.push(crate::json::bool_pair("ok", true));
    m.push(crate::json::str_pair("scope", "browser-session-and-page"));
    Json::Obj(m)
}

/// The constraints of creating a text document.
pub open spec fn text_create_constraints(c: Json) -> bool {
    match c {
        Json::Obj(m) => m@.len() == 3
            && str_member(m@[0], "encoding"@, "utf-8"@)
            && str_member(m@[1], "artifactMediaType"@, "text/plain"@)
            && m@[2].0@ == "required"@
            && match m@[2].1 {
                Json::Arr(v) => v@.len() == 1 && crate::json::str_spec(v@[0]) == Some("text"@),
                _ => false,
            },
        _ => false,
    }
}

/// The text-document provider's one public session: the creator application
/// with its opaque id and the `text.document.create@1` descriptor.
pub open spec fn text_session_shape(p: Json, session_id: Seq<char>) -> bool {
    match p {
        Json::Obj(m) => m@.len() == 2 && bool_member(m@[0], "ok"@, true)
            && m@[1].0@ == "sessions"@
            && match m@[1].1 {
                Json::Arr(sessions) => sessions@.len() == 1 && match sessions@[0] {
                    Json::Obj(s) => s@.len() == 5
                        && str_member(s@[0], "sessionId"@, session_id)
                        && str_member(s@[1], "kind"@, "application"@)
                        && str_member(s@[2], "title"@, "Text document creator"@)
                        && str_member(s@[3], "state"@, "available"@)
                        && s@[4].0@ == "capabilities"@
                        && match s@[4].1 {
                            Json::Arr(v) => v@.len() == 1
                                && exists|c: Json| #[trigger] text_create_constraints(c)
                                    && descriptor_shape(v@[0], Capability::TextDocumentCreate, c),
                            _ => false,
                        },
                    _ => false,
                },
                _ => false,
            },
        _ => false,
    }
}

/// The text-document provider's session payload.
pub fn text_session_payload() -> (r: Json)
    ensures
        text_session_shape(r, crate::app::providers::application_session_id_spec()),
{
    let mut required: Vec<Json> = Vec::new();
    required.push(Json::string("text"));
    let mut c: Vec<(String, Json)> = Vec::new();
    c.push(crate::json::str_pair("encoding", "utf-8"));
    c.push(crate::json::str_pair("artifactMediaType", "text/plain"));
    c.push(crate::json::value_pair("required", Json::Arr(required)));
    let constraints = Json::Obj(c);
    let ghost cv = constraints;
    assert(text_create_constraints(cv));
    let mut caps: Vec<Json> = Vec::new();
    caps.push(capability_descriptor(Capability::TextDocumentCreate, constraints));
    let id = application_session_id();
    let mut s: Vec<(String, Json)> = Vec::new();
    s.push(crate::json::member("sessionId", Json::Str(id)));
    s.push(crate::json::str_pair("kind", "application"));
    s.push(crate::json::str_pair("title", "Text document creator"));
    s.push(crate::json::str_pair("state", "available"));
    s.push(crate::json::value_pair("capabilities", Json::Arr(caps)));
    let mut sessions: Vec<Json> = Vec::new();
    sessions.push(Json::Obj(s));
    let mut m: Vec<(String, Json)> = Vec::new();
    m.push(crate::json::bool_pair("ok", true));
    m.push(crate::json::value_pair("sessions", Json::Arr(sessions)));
    Json::Obj(m)
}

/// Where a host inspection goes: the host's own status for the current host
/// session (`true`), the application launcher for any other session
/// (`false`); a request without a session is refused first.
pub fn host_inspect_route<'a>(request: &'a crate::request::CommandRequest, host_identity: &str) -> (r: crate::error::AppResult<(bool, &'a str)>)
    ensures
        match crate::app::session::session_id_spec(*request) {
            None => r matches Err(e) && crate::error::plain_error(e, "INVALID_ARGUMENT"@, "target.sessionId is required."@),
            Some(id) => r matches Ok(x) && x.1@ == id && x.0 == (id == host_session_id_spec(host_identity.spec_bytes())),
        },
{
    match crate::request::nonempty_field_str(&request.target, "sessionId") {
        Some(s) => Ok((crate::app::providers::is_current_host_session(s, host_identity), s)),
        None => Err(crate::app::error_codes::AppHostErrorCode::InvalidArgument.error("target.sessionId is required.")),
    }
}

/// The inspection of a live browser session: its id, kind, state and the
/// descriptors of every browser capability.
pub fn browser_session_inspection(session_id: &str) -> (r: Json)
    ensures
        r matches Json::Obj(m) && m@.len() == 4
            && str_member(m@[0], "sessionId"@, session_id@)
            && str_member(m@[1], "kind"@, "browser-session"@)
            && str_member(m@[2], "state"@, "live"@)
            && m@[3].0@ == "capabilities"@
            && crate::app::browser_session::browser_session_descriptors_shape(m@[3].1),
{
    let mut m: Vec<(String, Json)> = Vec::new();
    m.push(crate::json::str_pair("sessionId", session_id));
    m.push(crate::json::str_pair("kind", "browser-session"));
    m.push(crate::json::str_pair("state", "live"));
    m.push(crate::json::value_pair("capabilities", crate::app::browser_session::browser_session_descriptors()));
    Json::Obj(m)
}

/// Every capability that one of the providers publishes is registered for the
/// app surface.
pub proof fn lemma_published_capabilities_are_registered(p: ProviderKind, i: int)
    requires
        0 <= i < provider_capability_ids(p).len(),
    ensures
        exists|c: Capability| capability_surface(c) == CapabilitySurface::App
            && #[trigger] capability_id(c) == provider_capability_ids(p)[i],
{
    let id = provider_capability_ids(p)[i];
    let c = match p {
        ProviderKind::Host => if i == 0 { Capability::ApplicationOpen } else { Capability::BrowserSessionOpen },
        ProviderKind::BrowserSession => if i == 0 {
            Capability::BrowserSessionClose
        } else if i == 1 {
            Capability::BrowserPageNavigate
        } else if i == 2 {
            Capability::BrowserPageWait
        } else if i == 3 {
            Capability::BrowserPageQuery
        } else if i == 4 {
            Capability::BrowserElementClick
        } else if i == 5 {
            Capability::BrowserElementType
        } else {
            Capability::BrowserPageScreenshot
        },
        ProviderKind::Process => if i == 0 { Capability::ProcessTerminateGraceful } else { Capability::ProcessTerminateForce },
        ProviderKind::TextDocument => Capability::TextDocumentCreate,
        ProviderKind::StandardEdit => Capability::UiTextInput,
        ProviderKind::Desktop => if i == 0 {
            Capability::UiElementLocate
        } else if i == 1 {
            Capability::UiElementAction
        } else if i == 2 {
            Capability::UiElementWait
        } else if i == 3 {
            Capability::WindowClosedWait
        } else if i == 4 {
            Capability::WindowScreenshot
        } else if i == 5 {
            Capability::WindowRecord
        } else if i == 6 {
            Capability::WindowClose
        } else if i == 7 {
            Capability::WindowLifecycle
        } else if i == 8 {
            Capability::UiInputKey
        } else {
            Capability::UiInputPointer
        },
    };
    assert(capability_id(c) == id);
}

/// The image provider's capabilities: creating a canvas, saving and exporting
/// an artifact.
pub open spec fn image_capability(c: Capability) -> bool {
    c == Capability::ImageCanvasCreate || c == Capability::ArtifactSave || c == Capability::ArtifactExport
}

/// Every app-surface capability outside the image provider's is published by
/// one of these providers.
pub proof fn lemma_registered_capabilities_are_published(c: Capability)
    requires
        capability_surface(c) == CapabilitySurface::App,
        !image_capability(c),
    ensures
        exists|p: ProviderKind, i: int| 0 <= i < provider_capability_ids(p).len()
            && #[trigger] provider_capability_ids(p)[i] == capability_id(c),
{
    let (p, i) = match c {
        Capability::ApplicationOpen => (ProviderKind::Host, 0int),
        Capability::BrowserSessionOpen => (ProviderKind::Host, 1int),
        Capability::BrowserSessionClose => (ProviderKind::BrowserSession, 0int),
        Capability::BrowserPageNavigate => (ProviderKind::BrowserSession, 1int),
        Capability::BrowserPageWait => (ProviderKind::BrowserSession, 2int),
        Capability::BrowserPageQuery => (ProviderKind::BrowserSession, 3int),
        Capability::BrowserElementClick => (ProviderKind::BrowserSession, 4int),
        Capability::BrowserElementType => (ProviderKind::BrowserSession, 5int),
        Capability::BrowserPageScreenshot => (ProviderKind::BrowserSession, 6int),
        Capability::ProcessTerminateGraceful => (ProviderKind::Process, 0int),
        Capability::ProcessTerminateForce => (ProviderKind::Process, 1int),
        Capability::TextDocumentCreate => (ProviderKind::TextDocument, 0int),
        Capability::UiTextInput => (ProviderKind::StandardEdit, 0int),
        Capability::UiElementLocate => (ProviderKind::Desktop, 0int),
        Capability::UiElementAction => (ProviderKind::Desktop, 1int),
        Capability::UiElementWait => (ProviderKind::Desktop, 2int),
        Capability::WindowClosedWait => (ProviderKind::Desktop, 3int),
        Capability::WindowScreenshot => (ProviderKind::Desktop, 4int),
        Capability::WindowRecord => (ProviderKind::Desktop, 5int),
        Capability::WindowClose => (ProviderKind::Desktop, 6int),
        Capability::WindowLifecycle => (ProviderKind::Desktop, 7int),
        Capability::UiInputKey => (ProviderKind::Desktop, 8int),
        _ => (ProviderKind::Desktop, 9int),
    };
    assert(provider_capability_ids(p)[i] == capability_id(c));
}

} // verus!
