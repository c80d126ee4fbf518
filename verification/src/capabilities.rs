//! The versioned capability registry: every capability's public id, surface,
//! generic action, execution realm and foreground-consent policy.

use vstd::prelude::*;
use crate::text::str_eq;

verus! {

/// Public id of `application.open@1`.
pub const APPLICATION_OPEN: &'static str = "application.open@1";
/// Public id of `browser.session.open@1`.
pub const BROWSER_SESSION_OPEN: &'static str = "browser.session.open@1";
/// Public id of `browser.session.close@1`.
pub const BROWSER_SESSION_CLOSE: &'static str = "browser.session.close@1";
/// Public id of `browser.page.navigate@1`.
pub const BROWSER_PAGE_NAVIGATE: &'static str = "browser.page.navigate@1";
/// Public id of `browser.page.wait@1`.
pub const BROWSER_PAGE_WAIT: &'static str = "browser.page.wait@1";
/// Public id of `browser.page.query@1`.
pub const BROWSER_PAGE_QUERY: &'static str = "browser.page.query@1";
/// Public id of `browser.element.click@1`.
pub const BROWSER_ELEMENT_CLICK: &'static str = "browser.element.click@1";
/// Public id of `browser.element.type@1`.
pub const BROWSER_ELEMENT_TYPE: &'static str = "browser.element.type@1";
/// Public id of `browser.page.screenshot@1`.
pub const BROWSER_PAGE_SCREENSHOT: &'static str = "browser.page.screenshot@1";
/// Public id of `process.terminate.graceful@1`.
pub const PROCESS_TERMINATE_GRACEFUL: &'static str = "process.terminate.graceful@1";
/// Public id of `process.terminate.force@1`.
pub const PROCESS_TERMINATE_FORCE: &'static str = "process.terminate.force@1";
/// Public id of `text.document.create@1`.
pub const TEXT_DOCUMENT_CREATE: &'static str = "text.document.create@1";
/// Public id of `ui.text.input@1`.
pub const UI_TEXT_INPUT: &'static str = "ui.text.input@1";
/// Public id of `ui.element.locate@1`.
pub const UI_ELEMENT_LOCATE: &'static str = "ui.element.locate@1";
/// Public id of `ui.element.action@1`.
pub const UI_ELEMENT_ACTION: &'static str = "ui.element.action@1";
/// Public id of `ui.element.wait@1`.
pub const UI_ELEMENT_WAIT: &'static str = "ui.element.wait@1";
/// Public id of `window.closed.wait@1`.
pub const WINDOW_CLOSED_WAIT: &'static str = "window.closed.wait@1";
/// Public id of `window.screenshot@1`.
pub const WINDOW_SCREENSHOT: &'static str = "window.screenshot@1";
/// Public id of `window.record@1`.
pub const WINDOW_RECORD: &'static str = "window.record@1";
/// Public id of `window.close@1`.
pub const WINDOW_CLOSE: &'static str = "window.close@1";
/// Public id of `window.lifecycle@1`.
pub const WINDOW_LIFECYCLE: &'static str = "window.lifecycle@1";
/// Public id of `ui.input.key@1`.
pub const UI_INPUT_KEY: &'static str = "ui.input.key@1";
/// Public id of `ui.input.pointer@1`.
pub const UI_INPUT_POINTER: &'static str = "ui.input.pointer@1";
/// Public id of `image.canvas.create@1`.
pub const IMAGE_CANVAS_CREATE: &'static str = "image.canvas.create@1";
/// Public id of `artifact.save@1`.
pub const ARTIFACT_SAVE: &'static str = "artifact.save@1";
/// Public id of `artifact.export@1`.
pub const ARTIFACT_EXPORT: &'static str = "artifact.export@1";
/// Public id of `window.discover@1`.
pub const WINDOW_DISCOVER: &'static str = "window.discover@1";
/// Public id of `application.discover@1`.
pub const APPLICATION_DISCOVER: &'static str = "application.discover@1";
/// Public id of `application.session.discover@1`.
pub const APPLICATION_SESSION_DISCOVER: &'static str = "application.session.discover@1";

/// The public surface that owns a capability.
#[derive(Clone, Copy, Debug, PartialEq, Eq, Structural)]
pub enum CapabilitySurface {
    App,
    Window,
    Application,
}

/// The closed set of generic actions.
#[derive(Clone, Copy, Debug, PartialEq, Eq, Structural)]
pub enum CapabilityAction {
    Read,
    Create,
    Apply,
    Save,
    Export,
    Close,
    Screenshot,
    Record,
}

/// Where an operation runs, as policy and the foreground invariant see it.
#[derive(Clone, Copy, Debug, PartialEq, Eq, Structural)]
pub enum ExecutionRealm {
    HostHeadless,
    HostBackground,
    SameSessionNoFocus,
    IsolatedWorker,
    HostForeground,
    Unassigned,
}

/// The generic verb of an action.
pub open spec fn action_verb(a: CapabilityAction) -> Seq<char> {
    match a {
        CapabilityAction::Read => "read"@,
        CapabilityAction::Create => "create"@,
        CapabilityAction::Apply => "apply"@,
        CapabilityAction::Save => "save"@,
        CapabilityAction::Export => "export"@,
        CapabilityAction::Close => "close"@,
        CapabilityAction::Screenshot => "screenshot"@,
        CapabilityAction::Record => "record"@,
    }
}

/// Whether an action may change external state.
pub open spec fn action_mutates(a: CapabilityAction) -> bool {
    match a {
        CapabilityAction::Create | CapabilityAction::Apply | CapabilityAction::Save
        | CapabilityAction::Export | CapabilityAction::Close => true,
        _ => false,
    }
}

impl CapabilityAction {
    /// The generic verb of the action.
    pub fn as_str(self) -> (r: &'static str)
        ensures
            r@ == action_verb(self),
    {
        match self {
            CapabilityAction::Read => "read",
            CapabilityAction::Create => "create",
            CapabilityAction::Apply => "apply",
            CapabilityAction::Save => "save",
            CapabilityAction::Export => "export",
            CapabilityAction::Close => "close",
            CapabilityAction::Screenshot => "screenshot",
            CapabilityAction::Record => "record",
        }
    }

    /// Whether the action may change external state.
    pub fn mutates(self) -> (r: bool)
        ensures
            r == action_mutates(self),
    {
        match self {
            CapabilityAction::Create | CapabilityAction::Apply | CapabilityAction::Save
            | CapabilityAction::Export | CapabilityAction::Close => true,
            _ => false,
        }
    }
}

/// Every registered capability.
#[derive(Clone, Copy, Debug, PartialEq, Eq, Structural)]
pub enum Capability {
    ApplicationOpen,
    BrowserSessionOpen,
    BrowserSessionClose,
    BrowserPageNavigate,
    BrowserPageWait,
    BrowserPageQuery,
    BrowserElementClick,
    BrowserElementType,
    BrowserPageScreenshot,
    ProcessTerminateGraceful,
    ProcessTerminateForce,
    TextDocumentCreate,
    UiTextInput,
    UiElementLocate,
    UiElementAction,
    UiElementWait,
    WindowClosedWait,
    WindowScreenshot,
    WindowRecord,
    WindowClose,
    WindowLifecycle,
    UiInputKey,
    UiInputPointer,
    ImageCanvasCreate,
    ArtifactSave,
    ArtifactExport,
    WindowDiscover,
    ApplicationDiscover,
    ApplicationSessionDiscover,
}

/// The public id of a capability.
pub open spec fn capability_id(c: Capability) -> Seq<char> {
    match c {
        Capability::ApplicationOpen => "application.open@1"@,
        Capability::BrowserSessionOpen => "browser.session.open@1"@,
        Capability::BrowserSessionClose => "browser.session.close@1"@,
        Capability::BrowserPageNavigate => "browser.page.navigate@1"@,
        Capability::BrowserPageWait => "browser.page.wait@1"@,
        Capability::BrowserPageQuery => "browser.page.query@1"@,
        Capability::BrowserElementClick => "browser.element.click@1"@,
        Capability::BrowserElementType => "browser.element.type@1"@,
        Capability::BrowserPageScreenshot => "browser.page.screenshot@1"@,
        Capability::ProcessTerminateGraceful => "process.terminate.graceful@1"@,
        Capability::ProcessTerminateForce => "process.terminate.force@1"@,
        Capability::TextDocumentCreate => "text.document.create@1"@,
        Capability::UiTextInput => "ui.text.input@1"@,
        Capability::UiElementLocate => "ui.element.locate@1"@,
        Capability::UiElementAction => "ui.element.action@1"@,
        Capability::UiElementWait => "ui.element.wait@1"@,
        Capability::WindowClosedWait => "window.closed.wait@1"@,
        Capability::WindowScreenshot => "window.screenshot@1"@,
        Capability::WindowRecord => "window.record@1"@,
        Capability::WindowClose => "window.close@1"@,
        Capability::WindowLifecycle => "window.lifecycle@1"@,
        Capability::UiInputKey => "ui.input.key@1"@,
        Capability::UiInputPointer => "ui.input.pointer@1"@,
        Capability::ImageCanvasCreate => "image.canvas.create@1"@,
        Capability::ArtifactSave => "artifact.save@1"@,
        Capability::ArtifactExport => "artifact.export@1"@,
        Capability::WindowDiscover => "window.discover@1"@,
        Capability::ApplicationDiscover => "application.discover@1"@,
        Capability::ApplicationSessionDiscover => "application.session.discover@1"@,
    }
}

/// The surface of a capability.
pub open spec fn capability_surface(c: Capability) -> CapabilitySurface {
    match c {
        Capability::ApplicationOpen => CapabilitySurface::App,
        Capability::BrowserSessionOpen => CapabilitySurface::App,
        Capability::BrowserSessionClose => CapabilitySurface::App,
        Capability::BrowserPageNavigate => CapabilitySurface::App,
        Capability::BrowserPageWait => CapabilitySurface::App,
        Capability::BrowserPageQuery => CapabilitySurface::App,
        Capability::BrowserElementClick => CapabilitySurface::App,
        Capability::BrowserElementType => CapabilitySurface::App,
        Capability::BrowserPageScreenshot => CapabilitySurface::App,
        Capability::ProcessTerminateGraceful => CapabilitySurface::App,
        Capability::ProcessTerminateForce => CapabilitySurface::App,
        Capability::TextDocumentCreate => CapabilitySurface::App,
        Capability::UiTextInput => CapabilitySurface::App,
        Capability::UiElementLocate => CapabilitySurface::App,
        Capability::UiElementAction => CapabilitySurface::App,
        Capability::UiElementWait => CapabilitySurface::App,
        Capability::WindowClosedWait => CapabilitySurface::App,
        Capability::WindowScreenshot => CapabilitySurface::App,
        Capability::WindowRecord => CapabilitySurface::App,
        Capability::WindowClose => CapabilitySurface::App,
        Capability::WindowLifecycle => CapabilitySurface::App,
        Capability::UiInputKey => CapabilitySurface::App,
        Capability::UiInputPointer => CapabilitySurface::App,
        Capability::ImageCanvasCreate => CapabilitySurface::App,
        Capability::ArtifactSave => CapabilitySurface::App,
        Capability::ArtifactExport => CapabilitySurface::App,
        Capability::WindowDiscover => CapabilitySurface::Window,
        Capability::ApplicationDiscover => CapabilitySurface::Application,
        Capability::ApplicationSessionDiscover => CapabilitySurface::Application,
    }
}

/// The generic action of a capability.
pub open spec fn capability_action(c: Capability) -> CapabilityAction {
    match c {
        Capability::ApplicationOpen => CapabilityAction::Create,
        Capability::BrowserSessionOpen => CapabilityAction::Create,
        Capability::BrowserSessionClose => CapabilityAction::Close,
        Capability::BrowserPageNavigate => CapabilityAction::Apply,
        Capability::BrowserPageWait => CapabilityAction::Read,
        Capability::BrowserPageQuery => CapabilityAction::Read,
        Capability::BrowserElementClick => CapabilityAction::Apply,
        Capability::BrowserElementType => CapabilityAction::Apply,
        Capability::BrowserPageScreenshot => CapabilityAction::Screenshot,
        Capability::ProcessTerminateGraceful => CapabilityAction::Close,
        Capability::ProcessTerminateForce => CapabilityAction::Close,
        Capability::TextDocumentCreate => CapabilityAction::Create,
        Capability::UiTextInput => CapabilityAction::Apply,
        Capability::UiElementLocate => CapabilityAction::Read,
        Capability::UiElementAction => CapabilityAction::Apply,
        Capability::UiElementWait => CapabilityAction::Read,
        Capability::WindowClosedWait => CapabilityAction::Read,
        Capability::WindowScreenshot => CapabilityAction::Screenshot,
        Capability::WindowRecord => CapabilityAction::Record,
        Capability::WindowClose => CapabilityAction::Close,
        Capability::WindowLifecycle => CapabilityAction::Apply,
        Capability::UiInputKey => CapabilityAction::Apply,
        Capability::UiInputPointer => CapabilityAction::Apply,
        Capability::ImageCanvasCreate => CapabilityAction::Create,
        Capability::ArtifactSave => CapabilityAction::Save,
        Capability::ArtifactExport => CapabilityAction::Export,
        Capability::WindowDiscover => CapabilityAction::Read,
        Capability::ApplicationDiscover => CapabilityAction::Read,
        Capability::ApplicationSessionDiscover => CapabilityAction::Read,
    }
}

/// The execution realm of a capability.
pub open spec fn capability_realm(c: Capability) -> ExecutionRealm {
    match c {
        Capability::ApplicationOpen => ExecutionRealm::HostBackground,
        Capability::BrowserSessionOpen => ExecutionRealm::IsolatedWorker,
        Capability::BrowserSessionClose => ExecutionRealm::IsolatedWorker,
        Capability::BrowserPageNavigate => ExecutionRealm::IsolatedWorker,
        Capability::BrowserPageWait => ExecutionRealm::IsolatedWorker,
        Capability::BrowserPageQuery => ExecutionRealm::IsolatedWorker,
        Capability::BrowserElementClick => ExecutionRealm::IsolatedWorker,
        Capability::BrowserElementType => ExecutionRealm::IsolatedWorker,
        Capability::BrowserPageScreenshot => ExecutionRealm::IsolatedWorker,
        Capability::ProcessTerminateGraceful => ExecutionRealm::HostBackground,
        Capability::ProcessTerminateForce => ExecutionRealm::HostBackground,
        Capability::TextDocumentCreate => ExecutionRealm::HostBackground,
        Capability::UiTextInput => ExecutionRealm::SameSessionNoFocus,
        Capability::UiElementLocate => ExecutionRealm::SameSessionNoFocus,
        Capability::UiElementAction => ExecutionRealm::SameSessionNoFocus,
        Capability::UiElementWait => ExecutionRealm::SameSessionNoFocus,
        Capability::WindowClosedWait => ExecutionRealm::HostHeadless,
        Capability::WindowScreenshot => ExecutionRealm::HostBackground,
        Capability::WindowRecord => ExecutionRealm::HostBackground,
        Capability::WindowClose => ExecutionRealm::HostBackground,
        Capability::WindowLifecycle => ExecutionRealm::HostForeground,
        Capability::UiInputKey => ExecutionRealm::HostForeground,
        Capability::UiInputPointer => ExecutionRealm::HostForeground,
        Capability::ImageCanvasCreate => ExecutionRealm::HostBackground,
        Capability::ArtifactSave => ExecutionRealm::HostBackground,
        Capability::ArtifactExport => ExecutionRealm::HostBackground,
        Capability::WindowDiscover => ExecutionRealm::HostHeadless,
        Capability::ApplicationDiscover => ExecutionRealm::HostHeadless,
        Capability::ApplicationSessionDiscover => ExecutionRealm::HostHeadless,
    }
}

/// The public execution class of a capability.
pub open spec fn capability_execution(c: Capability) -> Seq<char> {
    match c {
        Capability::ApplicationOpen => "background-preferred"@,
        Capability::BrowserSessionOpen => "isolated-worker"@,
        Capability::BrowserSessionClose => "isolated-worker"@,
        Capability::BrowserPageNavigate => "isolated-worker"@,
        Capability::BrowserPageWait => "isolated-worker"@,
        Capability::BrowserPageQuery => "isolated-worker"@,
        Capability::BrowserElementClick => "isolated-worker"@,
        Capability::BrowserElementType => "isolated-worker"@,
        Capability::BrowserPageScreenshot => "isolated-worker"@,
        Capability::ProcessTerminateGraceful => "background"@,
        Capability::ProcessTerminateForce => "background"@,
        Capability::TextDocumentCreate => "background"@,
        Capability::UiTextInput => "background"@,
        Capability::UiElementLocate => "background"@,
        Capability::UiElementAction => "background-preferred"@,
        Capability::UiElementWait => "background"@,
        Capability::WindowClosedWait => "background"@,
        Capability::WindowScreenshot => "background"@,
        Capability::WindowRecord => "background"@,
        Capability::WindowClose => "background"@,
        Capability::WindowLifecycle => "foreground"@,
        Capability::UiInputKey => "foreground"@,
        Capability::UiInputPointer => "foreground"@,
        Capability::ImageCanvasCreate => "background"@,
        Capability::ArtifactSave => "background"@,
        Capability::ArtifactExport => "background"@,
        Capability::WindowDiscover => "background"@,
        Capability::ApplicationDiscover => "background"@,
        Capability::ApplicationSessionDiscover => "background"@,
    }
}

/// Whether a capability may need foreground consent.
pub open spec fn capability_foreground_consent(c: Capability) -> bool {
    match c {
        Capability::ApplicationOpen => false,
        Capability::BrowserSessionOpen => false,
        Capability::BrowserSessionClose => false,
        Capability::BrowserPageNavigate => false,
        Capability::BrowserPageWait => false,
        Capability::BrowserPageQuery => false,
        Capability::BrowserElementClick => false,
        Capability::BrowserElementType => false,
        Capability::BrowserPageScreenshot => false,
        Capability::ProcessTerminateGraceful => false,
        Capability::ProcessTerminateForce => false,
        Capability::TextDocumentCreate => false,
        Capability::UiTextInput => false,
        Capability::UiElementLocate => false,
        Capability::UiElementAction => true,
        Capability::UiElementWait => false,
        Capability::WindowClosedWait => false,
        Capability::WindowScreenshot => false,
        Capability::WindowRecord => false,
        Capability::WindowClose => false,
        Capability::WindowLifecycle => true,
        Capability::UiInputKey => true,
        Capability::UiInputPointer => true,
        Capability::ImageCanvasCreate => false,
        Capability::ArtifactSave => false,
        Capability::ArtifactExport => false,
        Capability::WindowDiscover => false,
        Capability::ApplicationDiscover => false,
        Capability::ApplicationSessionDiscover => false,
    }
}

/// Whether a capability always needs foreground consent before it runs.
pub open spec fn capability_upfront_consent(c: Capability) -> bool {
    match c {
        Capability::ApplicationOpen => false,
        Capability::BrowserSessionOpen => false,
        Capability::BrowserSessionClose => false,
        Capability::BrowserPageNavigate => false,
        Capability::BrowserPageWait => false,
        Capability::BrowserPageQuery => false,
        Capability::BrowserElementClick => false,
        Capability::BrowserElementType => false,
        Capability::BrowserPageScreenshot => false,
        Capability::ProcessTerminateGraceful => false,
        Capability::ProcessTerminateForce => false,
        Capability::TextDocumentCreate => false,
        Capability::UiTextInput => false,
        Capability::UiElementLocate => false,
        Capability::UiElementAction => false,
        Capability::UiElementWait => false,
        Capability::WindowClosedWait => false,
        Capability::WindowScreenshot => false,
        Capability::WindowRecord => false,
        Capability::WindowClose => false,
        Capability::WindowLifecycle => true,
        Capability::UiInputKey => true,
        Capability::UiInputPointer => true,
        Capability::ImageCanvasCreate => false,
        Capability::ArtifactSave => false,
        Capability::ArtifactExport => false,
        Capability::WindowDiscover => false,
        Capability::ApplicationDiscover => false,
        Capability::ApplicationSessionDiscover => false,
    }
}

/// The capability registered under a public id.
pub open spec fn lookup_spec(id: Seq<char>) -> Option<Capability> {
    if id == "application.open@1"@ {
        Some(Capability::ApplicationOpen)
    } else if id == "browser.session.open@1"@ {
        Some(Capability::BrowserSessionOpen)
    } else if id == "browser.session.close@1"@ {
        Some(Capability::BrowserSessionClose)
    } else if id == "browser.page.navigate@1"@ {
        Some(Capability::BrowserPageNavigate)
    } else if id == "browser.page.wait@1"@ {
        Some(Capability::BrowserPageWait)
    } else if id == "browser.page.query@1"@ {
        Some(Capability::BrowserPageQuery)
    } else if id == "browser.element.click@1"@ {
        Some(Capability::BrowserElementClick)
    } else if id == "browser.element.type@1"@ {
        Some(Capability::BrowserElementType)
    } else if id == "browser.page.screenshot@1"@ {
        Some(Capability::BrowserPageScreenshot)
    } else if id == "process.terminate.graceful@1"@ {
        Some(Capability::ProcessTerminateGraceful)
    } else if id == "process.terminate.force@1"@ {
        Some(Capability::ProcessTerminateForce)
    } else if id == "text.document.create@1"@ {
        Some(Capability::TextDocumentCreate)
    } else if id == "ui.text.input@1"@ {
        Some(Capability::UiTextInput)
    } else if id == "ui.element.locate@1"@ {
        Some(Capability::UiElementLocate)
    } else if id == "ui.element.action@1"@ {
        Some(Capability::UiElementAction)
    } else if id == "ui.element.wait@1"@ {
        Some(Capability::UiElementWait)
    } else if id == "window.closed.wait@1"@ {
        Some(Capability::WindowClosedWait)
    } else if id == "window.screenshot@1"@ {
        Some(Capability::WindowScreenshot)
    } else if id == "window.record@1"@ {
        Some(Capability::WindowRecord)
    } else if id == "window.close@1"@ {
        Some(Capability::WindowClose)
    } else if id == "window.lifecycle@1"@ {
        Some(Capability::WindowLifecycle)
    } else if id == "ui.input.key@1"@ {
        Some(Capability::UiInputKey)
    } else if id == "ui.input.pointer@1"@ {
        Some(Capability::UiInputPointer)
    } else if id == "image.canvas.create@1"@ {
        Some(Capability::ImageCanvasCreate)
    } else if id == "artifact.save@1"@ {
        Some(Capability::ArtifactSave)
    } else if id == "artifact.export@1"@ {
        Some(Capability::ArtifactExport)
    } else if id == "window.discover@1"@ {
        Some(Capability::WindowDiscover)
    } else if id == "application.discover@1"@ {
        Some(Capability::ApplicationDiscover)
    } else if id == "application.session.discover@1"@ {
        Some(Capability::ApplicationSessionDiscover)
    } else {
        None
    }
}

impl Capability {
    /// The public id.
    pub fn id(self) -> (r: &'static str)
        ensures
            r@ == capability_id(self),
    {
        match self {
            Capability::ApplicationOpen => APPLICATION_OPEN,
            Capability::BrowserSessionOpen => BROWSER_SESSION_OPEN,
            Capability::BrowserSessionClose => BROWSER_SESSION_CLOSE,
            Capability::BrowserPageNavigate => BROWSER_PAGE_NAVIGATE,
            Capability::BrowserPageWait => BROWSER_PAGE_WAIT,
            Capability::BrowserPageQuery => BROWSER_PAGE_QUERY,
            Capability::BrowserElementClick => BROWSER_ELEMENT_CLICK,
            Capability::BrowserElementType => BROWSER_ELEMENT_TYPE,
            Capability::BrowserPageScreenshot => BROWSER_PAGE_SCREENSHOT,
            Capability::ProcessTerminateGraceful => PROCESS_TERMINATE_GRACEFUL,
            Capability::ProcessTerminateForce => PROCESS_TERMINATE_FORCE,
            Capability::TextDocumentCreate => TEXT_DOCUMENT_CREATE,
            Capability::UiTextInput => UI_TEXT_INPUT,
            Capability::UiElementLocate => UI_ELEMENT_LOCATE,
            Capability::UiElementAction => UI_ELEMENT_ACTION,
            Capability::UiElementWait => UI_ELEMENT_WAIT,
            Capability::WindowClosedWait => WINDOW_CLOSED_WAIT,
            Capability::WindowScreenshot => WINDOW_SCREENSHOT,
            Capability::WindowRecord => WINDOW_RECORD,
            Capability::WindowClose => WINDOW_CLOSE,
            Capability::WindowLifecycle => WINDOW_LIFECYCLE,
            Capability::UiInputKey => UI_INPUT_KEY,
            Capability::UiInputPointer => UI_INPUT_POINTER,
            Capability::ImageCanvasCreate => IMAGE_CANVAS_CREATE,
            Capability::ArtifactSave => ARTIFACT_SAVE,
            Capability::ArtifactExport => ARTIFACT_EXPORT,
            Capability::WindowDiscover => WINDOW_DISCOVER,
            Capability::ApplicationDiscover => APPLICATION_DISCOVER,
            Capability::ApplicationSessionDiscover => APPLICATION_SESSION_DISCOVER,
        }
    }

    /// The owning surface.
    pub fn surface(self) -> (r: CapabilitySurface)
        ensures
            r == capability_surface(self),
    {
        match self {
            Capability::ApplicationOpen => CapabilitySurface::App,
            Capability::BrowserSessionOpen => CapabilitySurface::App,
            Capability::BrowserSessionClose => CapabilitySurface::App,
            Capability::BrowserPageNavigate => CapabilitySurface::App,
            Capability::BrowserPageWait => CapabilitySurface::App,
            Capability::BrowserPageQuery => CapabilitySurface::App,
            Capability::BrowserElementClick => CapabilitySurface::App,
            Capability::BrowserElementType => CapabilitySurface::App,
            Capability::BrowserPageScreenshot => CapabilitySurface::App,
            Capability::ProcessTerminateGraceful => CapabilitySurface::App,
            Capability::ProcessTerminateForce => CapabilitySurface::App,
            Capability::TextDocumentCreate => CapabilitySurface::App,
            Capability::UiTextInput => CapabilitySurface::App,
            Capability::UiElementLocate => CapabilitySurface::App,
            Capability::UiElementAction => CapabilitySurface::App,
            Capability::UiElementWait => CapabilitySurface::App,
            Capability::WindowClosedWait => CapabilitySurface::App,
            Capability::WindowScreenshot => CapabilitySurface::App,
            Capability::WindowRecord => CapabilitySurface::App,
            Capability::WindowClose => CapabilitySurface::App,
            Capability::WindowLifecycle => CapabilitySurface::App,
            Capability::UiInputKey => CapabilitySurface::App,
            Capability::UiInputPointer => CapabilitySurface::App,
            Capability::ImageCanvasCreate => CapabilitySurface::App,
            Capability::ArtifactSave => CapabilitySurface::App,
            Capability::ArtifactExport => CapabilitySurface::App,
            Capability::WindowDiscover => CapabilitySurface::Window,
            Capability::ApplicationDiscover => CapabilitySurface::Application,
            Capability::ApplicationSessionDiscover => CapabilitySurface::Application,
        }
    }

    /// The generic action.
    pub fn action(self) -> (r: CapabilityAction)
        ensures
            r == capability_action(self),
    {
        match self {
            Capability::ApplicationOpen => CapabilityAction::Create,
            Capability::BrowserSessionOpen => CapabilityAction::Create,
            Capability::BrowserSessionClose => CapabilityAction::Close,
            Capability::BrowserPageNavigate => CapabilityAction::Apply,
            Capability::BrowserPageWait => CapabilityAction::Read,
            Capability::BrowserPageQuery => CapabilityAction::Read,
            Capability::BrowserElementClick => CapabilityAction::Apply,
            Capability::BrowserElementType => CapabilityAction::Apply,
            Capability::BrowserPageScreenshot => CapabilityAction::Screenshot,
            Capability::ProcessTerminateGraceful => CapabilityAction::Close,
            Capability::ProcessTerminateForce => CapabilityAction::Close,
            Capability::TextDocumentCreate => CapabilityAction::Create,
            Capability::UiTextInput => CapabilityAction::Apply,
            Capability::UiElementLocate => CapabilityAction::Read,
            Capability::UiElementAction => CapabilityAction::Apply,
            Capability::UiElementWait => CapabilityAction::Read,
            Capability::WindowClosedWait => CapabilityAction::Read,
            Capability::WindowScreenshot => CapabilityAction::Screenshot,
            Capability::WindowRecord => CapabilityAction::Record,
            Capability::WindowClose => CapabilityAction::Close,
            Capability::WindowLifecycle => CapabilityAction::Apply,
            Capability::UiInputKey => CapabilityAction::Apply,
            Capability::UiInputPointer => CapabilityAction::Apply,
            Capability::ImageCanvasCreate => CapabilityAction::Create,
            Capability::ArtifactSave => CapabilityAction::Save,
            Capability::ArtifactExport => CapabilityAction::Export,
            Capability::WindowDiscover => CapabilityAction::Read,
            Capability::ApplicationDiscover => CapabilityAction::Read,
            Capability::ApplicationSessionDiscover => CapabilityAction::Read,
        }
    }

    /// The execution realm.
    pub fn execution_realm(self) -> (r: ExecutionRealm)
        ensures
            r == capability_realm(self),
    {
        match self {
            Capability::ApplicationOpen => ExecutionRealm::HostBackground,
            Capability::BrowserSessionOpen => ExecutionRealm::IsolatedWorker,
            Capability::BrowserSessionClose => ExecutionRealm::IsolatedWorker,
            Capability::BrowserPageNavigate => ExecutionRealm::IsolatedWorker,
            Capability::BrowserPageWait => ExecutionRealm::IsolatedWorker,
            Capability::BrowserPageQuery => ExecutionRealm::IsolatedWorker,
            Capability::BrowserElementClick => ExecutionRealm::IsolatedWorker,
            Capability::BrowserElementType => ExecutionRealm::IsolatedWorker,
            Capability::BrowserPageScreenshot => ExecutionRealm::IsolatedWorker,
            Capability::ProcessTerminateGraceful => ExecutionRealm::HostBackground,
            Capability::ProcessTerminateForce => ExecutionRealm::HostBackground,
            Capability::TextDocumentCreate => ExecutionRealm::HostBackground,
            Capability::UiTextInput => ExecutionRealm::SameSessionNoFocus,
            Capability::UiElementLocate => ExecutionRealm::SameSessionNoFocus,
            Capability::UiElementAction => ExecutionRealm::SameSessionNoFocus,
            Capability::UiElementWait => ExecutionRealm::SameSessionNoFocus,
            Capability::WindowClosedWait => ExecutionRealm::HostHeadless,
            Capability::WindowScreenshot => ExecutionRealm::HostBackground,
            Capability::WindowRecord => ExecutionRealm::HostBackground,
            Capability::WindowClose => ExecutionRealm::HostBackground,
            Capability::WindowLifecycle => ExecutionRealm::HostForeground,
            Capability::UiInputKey => ExecutionRealm::HostForeground,
            Capability::UiInputPointer => ExecutionRealm::HostForeground,
            Capability::ImageCanvasCreate => ExecutionRealm::HostBackground,
            Capability::ArtifactSave => ExecutionRealm::HostBackground,
            Capability::ArtifactExport => ExecutionRealm::HostBackground,
            Capability::WindowDiscover => ExecutionRealm::HostHeadless,
            Capability::ApplicationDiscover => ExecutionRealm::HostHeadless,
            Capability::ApplicationSessionDiscover => ExecutionRealm::HostHeadless,
        }
    }

    /// The public execution class.
    pub fn execution(self) -> (r: &'static str)
        ensures
            r@ == capability_execution(self),
    {
        match self {
            Capability::ApplicationOpen => "background-preferred",
            Capability::BrowserSessionOpen => "isolated-worker",
            Capability::BrowserSessionClose => "isolated-worker",
            Capability::BrowserPageNavigate => "isolated-worker",
            Capability::BrowserPageWait => "isolated-worker",
            Capability::BrowserPageQuery => "isolated-worker",
            Capability::BrowserElementClick => "isolated-worker",
            Capability::BrowserElementType => "isolated-worker",
            Capability::BrowserPageScreenshot => "isolated-worker",
            Capability::ProcessTerminateGraceful => "background",
            Capability::ProcessTerminateForce => "background",
            Capability::TextDocumentCreate => "background",
            Capability::UiTextInput => "background",
            Capability::UiElementLocate => "background",
            Capability::UiElementAction => "background-preferred",
            Capability::UiElementWait => "background",
            Capability::WindowClosedWait => "background",
            Capability::WindowScreenshot => "background",
            Capability::WindowRecord => "background",
            Capability::WindowClose => "background",
            Capability::WindowLifecycle => "foreground",
            Capability::UiInputKey => "foreground",
            Capability::UiInputPointer => "foreground",
            Capability::ImageCanvasCreate => "background",
            Capability::ArtifactSave => "background",
            Capability::ArtifactExport => "background",
            Capability::WindowDiscover => "background",
            Capability::ApplicationDiscover => "background",
            Capability::ApplicationSessionDiscover => "background",
        }
    }

    /// Whether foreground consent may be needed.
    pub fn requires_foreground_consent(self) -> (r: bool)
        ensures
            r == capability_foreground_consent(self),
    {
        match self {
            Capability::ApplicationOpen => false,
            Capability::BrowserSessionOpen => false,
            Capability::BrowserSessionClose => false,
            Capability::BrowserPageNavigate => false,
            Capability::BrowserPageWait => false,
            Capability::BrowserPageQuery => false,
            Capability::BrowserElementClick => false,
            Capability::BrowserElementType => false,
            Capability::BrowserPageScreenshot => false,
            Capability::ProcessTerminateGraceful => false,
            Capability::ProcessTerminateForce => false,
            Capability::TextDocumentCreate => false,
            Capability::UiTextInput => false,
            Capability::UiElementLocate => false,
            Capability::UiElementAction => true,
            Capability::UiElementWait => false,
            Capability::WindowClosedWait => false,
            Capability::WindowScreenshot => false,
            Capability::WindowRecord => false,
            Capability::WindowClose => false,
            Capability::WindowLifecycle => true,
            Capability::UiInputKey => true,
            Capability::UiInputPointer => true,
            Capability::ImageCanvasCreate => false,
            Capability::ArtifactSave => false,
            Capability::ArtifactExport => false,
            Capability::WindowDiscover => false,
            Capability::ApplicationDiscover => false,
            Capability::ApplicationSessionDiscover => false,
        }
    }

    /// Whether foreground consent is always needed up front.
    pub fn requires_upfront_foreground_consent(self) -> (r: bool)
        ensures
            r == capability_upfront_consent(self),
    {
        match self {
            Capability::ApplicationOpen => false,
            Capability::BrowserSessionOpen => false,
            Capability::BrowserSessionClose => false,
            Capability::BrowserPageNavigate => false,
            Capability::BrowserPageWait => false,
            Capability::BrowserPageQuery => false,
            Capability::BrowserElementClick => false,
            Capability::BrowserElementType => false,
            Capability::BrowserPageScreenshot => false,
            Capability::ProcessTerminateGraceful => false,
            Capability::ProcessTerminateForce => false,
            Capability::TextDocumentCreate => false,
            Capability::UiTextInput => false,
            Capability::UiElementLocate => false,
            Capability::UiElementAction => false,
            Capability::UiElementWait => false,
            Capability::WindowClosedWait => false,
            Capability::WindowScreenshot => false,
            Capability::WindowRecord => false,
            Capability::WindowClose => false,
            Capability::WindowLifecycle => true,
            Capability::UiInputKey => true,
            Capability::UiInputPointer => true,
            Capability::ImageCanvasCreate => false,
            Capability::ArtifactSave => false,
            Capability::ArtifactExport => false,
            Capability::WindowDiscover => false,
            Capability::ApplicationDiscover => false,
            Capability::ApplicationSessionDiscover => false,
        }
    }

}

/// Looks up the capability registered under a public id.
pub fn lookup(id: &str) -> (r: Option<Capability>)
    ensures
        r == lookup_spec(id@),
{
    if str_eq(id, APPLICATION_OPEN) {
        Some(Capability::ApplicationOpen)
    } else if str_eq(id, BROWSER_SESSION_OPEN) {
        Some(Capability::BrowserSessionOpen)
    } else if str_eq(id, BROWSER_SESSION_CLOSE) {
        Some(Capability::BrowserSessionClose)
    } else if str_eq(id, BROWSER_PAGE_NAVIGATE) {
        Some(Capability::BrowserPageNavigate)
    } else if str_eq(id, BROWSER_PAGE_WAIT) {
        Some(Capability::BrowserPageWait)
    } else if str_eq(id, BROWSER_PAGE_QUERY) {
        Some(Capability::BrowserPageQuery)
    } else if str_eq(id, BROWSER_ELEMENT_CLICK) {
        Some(Capability::BrowserElementClick)
    } else if str_eq(id, BROWSER_ELEMENT_TYPE) {
        Some(Capability::BrowserElementType)
    } else if str_eq(id, BROWSER_PAGE_SCREENSHOT) {
        Some(Capability::BrowserPageScreenshot)
    } else if str_eq(id, PROCESS_TERMINATE_GRACEFUL) {
        Some(Capability::ProcessTerminateGraceful)
    } else if str_eq(id, PROCESS_TERMINATE_FORCE) {
        Some(Capability::ProcessTerminateForce)
    } else if str_eq(id, TEXT_DOCUMENT_CREATE) {
        Some(Capability::TextDocumentCreate)
    } else if str_eq(id, UI_TEXT_INPUT) {
        Some(Capability::UiTextInput)
    } else if str_eq(id, UI_ELEMENT_LOCATE) {
        Some(Capability::UiElementLocate)
    } else if str_eq(id, UI_ELEMENT_ACTION) {
        Some(Capability::UiElementAction)
    } else if str_eq(id, UI_ELEMENT_WAIT) {
        Some(Capability::UiElementWait)
    } else if str_eq(id, WINDOW_CLOSED_WAIT) {
        Some(Capability::WindowClosedWait)
    } else if str_eq(id, WINDOW_SCREENSHOT) {
        Some(Capability::WindowScreenshot)
    } else if str_eq(id, WINDOW_RECORD) {
        Some(Capability::WindowRecord)
    } else if str_eq(id, WINDOW_CLOSE) {
        Some(Capability::WindowClose)
    } else if str_eq(id, WINDOW_LIFECYCLE) {
        Some(Capability::WindowLifecycle)
    } else if str_eq(id, UI_INPUT_KEY) {
        Some(Capability::UiInputKey)
    } else if str_eq(id, UI_INPUT_POINTER) {
        Some(Capability::UiInputPointer)
    } else if str_eq(id, IMAGE_CANVAS_CREATE) {
        Some(Capability::ImageCanvasCreate)
    } else if str_eq(id, ARTIFACT_SAVE) {
        Some(Capability::ArtifactSave)
    } else if str_eq(id, ARTIFACT_EXPORT) {
        Some(Capability::ArtifactExport)
    } else if str_eq(id, WINDOW_DISCOVER) {
        Some(Capability::WindowDiscover)
    } else if str_eq(id, APPLICATION_DISCOVER) {
        Some(Capability::ApplicationDiscover)
    } else if str_eq(id, APPLICATION_SESSION_DISCOVER) {
        Some(Capability::ApplicationSessionDiscover)
    } else {
        None
    }
}

/// The capability of `surface` registered under `id`, if any.
pub open spec fn definition_for_surface_spec(surface: CapabilitySurface, id: Seq<char>) -> Option<Capability> {
    match lookup_spec(id) {
        Some(c) => if capability_surface(c) == surface { Some(c) } else { None },
        None => None,
    }
}

/// Looks up a capability id on one surface only.
pub fn definition_for_surface(surface: CapabilitySurface, id: &str) -> (r: Option<Capability>)
    ensures
        r == definition_for_surface_spec(surface, id@),
{
    match lookup(id) {
        Some(c) => if c.surface() == surface { Some(c) } else { None },
        None => None,
    }
}

/// Every registered capability, in registry order.
pub open spec fn all_spec() -> Seq<Capability> {
    seq![
        Capability::ApplicationOpen,
        Capability::BrowserSessionOpen,
        Capability::BrowserSessionClose,
        Capability::BrowserPageNavigate,
        Capability::BrowserPageWait,
        Capability::BrowserPageQuery,
        Capability::BrowserElementClick,
        Capability::BrowserElementType,
        Capability::BrowserPageScreenshot,
        Capability::ProcessTerminateGraceful,
        Capability::ProcessTerminateForce,
        Capability::TextDocumentCreate,
        Capability::UiTextInput,
        Capability::UiElementLocate,
        Capability::UiElementAction,
        Capability::UiElementWait,
        Capability::WindowClosedWait,
        Capability::WindowScreenshot,
        Capability::WindowRecord,
        Capability::WindowClose,
        Capability::WindowLifecycle,
        Capability::UiInputKey,
        Capability::UiInputPointer,
        Capability::ImageCanvasCreate,
        Capability::ArtifactSave,
        Capability::ArtifactExport,
        Capability::WindowDiscover,
        Capability::ApplicationDiscover,
        Capability::ApplicationSessionDiscover
    ]
}

/// Every registered capability, in registry order.
pub fn all() -> (r: Vec<Capability>)
    ensures
        r@ == all_spec(),
{
    let mut v: Vec<Capability> = Vec::new();
    v.push(Capability::ApplicationOpen);
    v.push(Capability::BrowserSessionOpen);
    v.push(Capability::BrowserSessionClose);
    v.push(Capability::BrowserPageNavigate);
    v.push(Capability::BrowserPageWait);
    v.push(Capability::BrowserPageQuery);
    v.push(Capability::BrowserElementClick);
    v.push(Capability::BrowserElementType);
    v.push(Capability::BrowserPageScreenshot);
    v.push(Capability::ProcessTerminateGraceful);
    v.push(Capability::ProcessTerminateForce);
    v.push(Capability::TextDocumentCreate);
    v.push(Capability::UiTextInput);
    v.push(Capability::UiElementLocate);
    v.push(Capability::UiElementAction);
    v.push(Capability::UiElementWait);
    v.push(Capability::WindowClosedWait);
    v.push(Capability::WindowScreenshot);
    v.push(Capability::WindowRecord);
    v.push(Capability::WindowClose);
    v.push(Capability::WindowLifecycle);
    v.push(Capability::UiInputKey);
    v.push(Capability::UiInputPointer);
    v.push(Capability::ImageCanvasCreate);
    v.push(Capability::ArtifactSave);
    v.push(Capability::ArtifactExport);
    v.push(Capability::WindowDiscover);
    v.push(Capability::ApplicationDiscover);
    v.push(Capability::ApplicationSessionDiscover);
    assert(v@ =~= all_spec());
    v
}

/// The actions in their fixed order.
pub open spec fn action_order() -> Seq<CapabilityAction> {
    seq![
        CapabilityAction::Read,
        CapabilityAction::Create,
        CapabilityAction::Apply,
        CapabilityAction::Save,
        CapabilityAction::Export,
        CapabilityAction::Close,
        CapabilityAction::Screenshot,
        CapabilityAction::Record,
    ]
}

/// Whether some capability of `surface` uses action `a`.
pub open spec fn surface_uses(surface: CapabilitySurface, a: CapabilityAction) -> bool {
    exists|i: int| 0 <= i < all_spec().len() && capability_surface(#[trigger] all_spec()[i]) == surface
        && capability_action(all_spec()[i]) == a
}

fn surface_uses_exec(surface: CapabilitySurface, a: CapabilityAction) -> (r: bool)
    ensures
        r == surface_uses(surface, a),
{
    let caps = all();
    let mut i: usize = 0;
    while i < caps.len()
        invariant
            caps@ == all_spec(),
            i <= caps@.len(),
            forall|j: int| 0 <= j < i ==> !(capability_surface(#[trigger] all_spec()[j]) == surface
                && capability_action(all_spec()[j]) == a),
        decreases caps@.len() - i,
    {
        if caps[i].surface() == surface && caps[i].action() == a {
            return true;
        }
        i = i + 1;
    }
    false
}

/// The generic verbs that a surface's capabilities use, in action order.
pub open spec fn action_verbs_spec(surface: CapabilitySurface) -> Seq<Seq<char>> {
    action_order().filter(|a: CapabilityAction| surface_uses(surface, a)).map_values(|a: CapabilityAction| action_verb(a))
}

/// The generic verbs that a surface's capabilities use, in action order.
pub fn action_verbs_for_surface(surface: CapabilitySurface) -> (r: Vec<&'static str>)
    ensures
        r@.map_values(|s: &'static str| s@) == action_verbs_spec(surface),
{
    let mut order: Vec<CapabilityAction> = Vec::new();
    order.push(CapabilityAction::Read);
    order.push(CapabilityAction::Create);
    order.push(CapabilityAction::Apply);
    order.push(CapabilityAction::Save);
    order.push(CapabilityAction::Export);
    order.push(CapabilityAction::Close);
    order.push(CapabilityAction::Screenshot);
    order.push(CapabilityAction::Record);
    assert(order@ =~= action_order());
    let mut out: Vec<&'static str> = Vec::new();
    let mut i: usize = 0;
    while i < order.len()
        invariant
            order@ == action_order(),
            i <= order@.len(),
            out@.map_values(|s: &'static str| s@) == action_order().take(i as int)
                .filter(|a: CapabilityAction| surface_uses(surface, a)).map_values(|a: CapabilityAction| action_verb(a)),
        decreases order@.len() - i,
    {
        let a = order[i];
        let ghost old_out = out@;
        let ghost f = |x: CapabilityAction| surface_uses(surface, x);
        let ghost m = |x: CapabilityAction| action_verb(x);
        proof {
            let p = action_order().take(i + 1);
            assert(p.drop_last() =~= action_order().take(i as int));
            assert(p.last() == a);
            reveal_with_fuel(Seq::filter, 1);
            assert(p.filter(f) == p.drop_last().filter(f) + (if f(a) { seq![a] } else { Seq::empty() }));
        }
        let uses = surface_uses_exec(surface, a);
        if uses {
            let v = a.as_str();
            out.push(v);
            assert(out@ =~= old_out.push(v));
            assert(out@.map_values(|s: &'static str| s@) =~= old_out.map_values(|s: &'static str| s@).push(action_verb(a)));
        }
        proof {
            let p = action_order().take(i + 1);
            let prev = action_order().take(i as int).filter(f);
            assert(old_out.map_values(|s: &'static str| s@) == prev.map_values(m));
            if uses {
                assert(p.filter(f) =~= prev.push(a));
                assert(prev.push(a).map_values(m) =~= prev.map_values(m).push(m(a)));
            } else {
                assert(p.filter(f) =~= prev);
            }
            assert(out@.map_values(|s: &'static str| s@) =~= p.filter(f).map_values(m));
        }
        i = i + 1;
    }
    assert(action_order().take(8) =~= action_order());
    out
}

} // verus!
