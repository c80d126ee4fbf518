//! The browser adapter: an isolated worker that only takes page screenshots.
//! Its status reports what was detected; every other operation is refused.

use vstd::prelude::*;
use crate::app::error_codes::AppBrowserErrorCode;
use crate::error::AppControlError;
use crate::json::{Json, bool_member, str_member, value_member, str_spec};
use crate::request::CommandRequest;
use crate::text::str_eq;

verus! {

/// The browser adapter.
pub struct BrowserAdapter;

/// What an accepted browser run goes on to do.
#[derive(Debug, PartialEq, Eq)]
pub enum BrowserRoute {
    /// Take a screenshot in the isolated worker.
    Screenshot,
}

/// Whether `j` is the adapter's status for the given detection results.
pub open spec fn browser_status(j: Json, runtime_detected: bool, worker_available: bool) -> bool {
    &&& j matches Json::Obj(m)
    &&& m@.len() == 11
    &&& bool_member(m@[0], "ok"@, true)
    &&& str_member(m@[1], "app"@, "browser"@)
    &&& str_member(m@[2], "implementation"@, "rust-isolated-worker"@)
    &&& bool_member(m@[3], "readOnly"@, true)
    &&& str_member(m@[4], "backgroundPolicy"@, "guaranteed"@)
    &&& bool_member(m@[5], "available"@, runtime_detected && worker_available)
    &&& bool_member(m@[6], "runtimeDetected"@, runtime_detected)
    &&& bool_member(m@[7], "workerAvailable"@, worker_available)
    &&& bool_member(m@[8], "runtimePathExposed"@, false)
    &&& bool_member(m@[9], "nativeIdentifiersExposed"@, false)
    &&& m@[10].0@ == "blocked"@
    &&& m@[10].1 matches Json::Arr(b)
    &&& b@.len() == 3
    &&& str_spec(b@[0]) == Some("user profile"@)
    &&& str_spec(b@[1]) == Some("user tabs"@)
    &&& str_spec(b@[2]) == Some("visible browser launch"@)
}

impl BrowserAdapter {
    /// The adapter's application name.
    pub fn app_id(&self) -> (r: &'static str)
        ensures
            r@ == "browser"@,
    {
        "browser"
    }

    /// The adapter's status: available exactly when both the browser runtime
    /// and the worker were found.
    pub fn status(&self, runtime_detected: bool, worker_available: bool) -> (r: Json)
        ensures
            browser_status(r, runtime_detected, worker_available),
    {
        let mut blocked: Vec<Json> = Vec::new();
        blocked.push(Json::string("user profile"));
        blocked.push(Json::string("user tabs"));
        blocked.push(Json::string("visible browser launch"));
        let mut m: Vec<(String, Json)> = Vec::new();
        m.push(crate::json::bool_pair("ok", true));
        m.push(crate::json::str_pair("app", self.app_id()));
        m.push(crate::json::str_pair("implementation", "rust-isolated-worker"));
        m.push(crate::json::bool_pair("readOnly", true));
        m.push(crate::json::str_pair("backgroundPolicy", "guaranteed"));
        m.push(crate::json::bool_pair("available", runtime_detected && worker_available));
        m.push(crate::json::bool_pair("runtimeDetected", runtime_detected));
        m.push(crate::json::bool_pair("workerAvailable", worker_available));
        m.push(crate::json::bool_pair("runtimePathExposed", false));
        m.push(crate::json::bool_pair("nativeIdentifiersExposed", false));
        m.push(crate::json::value_pair("blocked", Json::Arr(blocked)));
        Json::Obj(m)
    }

    /// The adapter never attaches to the user's browser, so it lists no sessions.
    pub fn sessions(&self) -> (r: Json)
        ensures
            r matches Json::Obj(m) && m@.len() == 5
                && bool_member(m@[0], "ok"@, true)
                && str_member(m@[1], "app"@, "browser"@)
                && value_member(m@[2], "count"@, Json::Int(0))
                && m@[3].0@ == "sessions"@ && (m@[3].1 matches Json::Arr(s) && s@.len() == 0)
                && str_member(m@[4], "note"@, "browser 不附着用户浏览器，因此没有可列出的用户会话。"@),
    {
        let mut m: Vec<(String, Json)> = Vec::new();
        m.push(crate::json::bool_pair("ok", true));
        m.push(crate::json::str_pair("app", self.app_id()));
        m.push(crate::json::value_pair("count", Json::Int(0)));
        m.push(crate::json::value_pair("sessions", Json::Arr(Vec::new())));
        m.push(crate::json::str_pair("note", "browser 不附着用户浏览器，因此没有可列出的用户会话。"));
        Json::Obj(m)
    }

    /// DOM inspection is not a public capability.
    pub fn inspect(&self) -> (r: AppControlError)
        ensures
            r.code@ == "BACKGROUND_OPERATION_UNAVAILABLE"@,
            r.message@ == "browser v1 仅认证 screenshot；DOM 检查不在当前公开能力内。"@,
    {
        proof { reveal_strlit("BACKGROUND_OPERATION_UNAVAILABLE"); }
        AppBrowserErrorCode::BackgroundOperationUnavailable.error(
            "browser v1 仅认证 screenshot；DOM 检查不在当前公开能力内。",
        )
    }

    /// The checks of a run request: only `screenshot` is served.
    pub fn run(&self, request: &CommandRequest) -> (r: Result<BrowserRoute, AppControlError>)
        ensures
            match request.operation {
                None => r matches Err(e) && e.code@ == "INVALID_ARGUMENT"@ && e.message@ == "run 缺少 operation。"@,
                Some(op) => if op@ == "screenshot"@ {
                    r == Ok::<BrowserRoute, AppControlError>(BrowserRoute::Screenshot)
                } else {
                    r matches Err(e) && e.code@ == "BACKGROUND_OPERATION_UNAVAILABLE"@
                        && e.message@ == "browser."@ + op@ + " 未认证为后台操作。"@
                },
            },
    {
        proof {
            reveal_strlit("INVALID_ARGUMENT");
            reveal_strlit("BACKGROUND_OPERATION_UNAVAILABLE");
        }
        match &request.operation {
            None => Err(AppBrowserErrorCode::InvalidArgument.error("run 缺少 operation。")),
            Some(op) => {
                if str_eq(op.as_str(), "screenshot") {
                    Ok(BrowserRoute::Screenshot)
                } else {
                    let mut m = crate::text::owned("browser.");
                    m.append(op.as_str());
                    m.append(" 未认证为后台操作。");
                    Err(AppBrowserErrorCode::BackgroundOperationUnavailable.error(m.as_str()))
                }
            },
        }
    }
}

} // verus!
