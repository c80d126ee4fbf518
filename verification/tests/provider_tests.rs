use ai_computer_toolkit::app::desktop::{public_window_session, select_listed_windows, window_discovery_target};
use ai_computer_toolkit::app::providers::{browser_session_capabilities_from_inspection, browser_session_route, process_capabilities_from_inspection, BrowserSessionOperation};
use ai_computer_toolkit::app::facade_results::{assessable_session, assessment_match, direct_provider, execution_resolution, falls_back_to_owner, unique_session_match, ExecutionResolution};
use ai_computer_toolkit::app::discovery::session_discovery;
use ai_computer_toolkit::app::discovery::{order_sessions, session_kind_rank};
use ai_computer_toolkit::app::facade_results::inspection_result;
use ai_computer_toolkit::app::facade_results::provider_result_parts;
use ai_computer_toolkit::app::facade_results::status_summary;
use ai_computer_toolkit::app::facade_run::facade_run_response;
use ai_computer_toolkit::app::provider_set::browser_session_inspection;
use ai_computer_toolkit::error::AppControlError;
use ai_computer_toolkit::app::desktop::{
    close_target, desktop_execute_route, public_window_close_result, sanitize_desktop_result,
};
use ai_computer_toolkit::app::error_codes::DesktopAdapterErrorCode;
use ai_computer_toolkit::app::facade::{
    ensure_foreground_invariance, ensure_session_capability, public_status,
    require_unique_provider_match,
};
use ai_computer_toolkit::app::provider_set::{
    browser_session_provider_status, host_inspect_route, public_host_session, text_session_payload,
    ProviderKind,
};
use ai_computer_toolkit::app::providers::{
    augment_process_session, delegated_create_request, host_execute_route, public_apply_result,
    public_document_result, standard_edit_checks, termination_descriptors, termination_mode,
    text_capability_check,
};
use ai_computer_toolkit::app::sanitize::sanitize_public_value;
use ai_computer_toolkit::app::session::{
    capability_ids_for_session, parse_capability_invocation, required_session_id,
};
use ai_computer_toolkit::app::descriptor::{capability_descriptor, realm_str};
use ai_computer_toolkit::capabilities;
use ai_computer_toolkit::capabilities::{CapabilitySurface, ExecutionRealm};
use ai_computer_toolkit::json::Json;
use ai_computer_toolkit::request::{CommandRequest, Verb};

fn value_to_json(v: serde_json::Value) -> Json {
    match v {
        serde_json::Value::Null => Json::Null,
        serde_json::Value::Bool(b) => Json::Bool(b),
        serde_json::Value::Number(n) => match n.as_i64() {
            Some(i) => Json::Int(i as i128),
            None => match n.as_u64() {
                Some(u) => Json::Int(u as i128),
                None => Json::Fraction,
            },
        },
        serde_json::Value::String(s) => Json::Str(s),
        serde_json::Value::Array(items) => Json::Arr(items.into_iter().map(value_to_json).collect()),
        serde_json::Value::Object(map) => {
            Json::Obj(map.into_iter().map(|(k, v)| (k, value_to_json(v))).collect())
        }
    }
}

fn json_to_value(j: &Json) -> serde_json::Value {
    match j {
        Json::Null | Json::Fraction => serde_json::Value::Null,
        Json::Bool(b) => serde_json::Value::Bool(*b),
        Json::Int(n) => serde_json::Value::from(*n as i64),
        Json::Str(s) => serde_json::Value::String(s.clone()),
        Json::Arr(items) => serde_json::Value::Array(items.iter().map(json_to_value).collect()),
        Json::Obj(fields) => {
            let mut map = serde_json::Map::new();
            for (k, v) in fields {
                map.insert(k.clone(), json_to_value(v));
            }
            serde_json::Value::Object(map)
        }
    }
}

fn parse(text: &str) -> Json {
    value_to_json(serde_json::from_str(text).expect("fixture must be valid JSON"))
}

fn render(j: &Json) -> String {
    json_to_value(j).to_string()
}

fn text_at<'a>(j: &'a Json, path: &[&str]) -> Option<&'a str> {
    let mut cur = j;
    for key in path {
        cur = cur.get(key)?;
    }
    cur.as_str()
}

fn value_at<'a>(j: &'a Json, path: &[&str]) -> Option<&'a Json> {
    let mut cur = j;
    for key in path {
        cur = cur.get(key)?;
    }
    Some(cur)
}

fn items_of(j: &Json) -> &Vec<Json> {
    match j {
        Json::Arr(items) => items,
        _ => panic!("expected an array"),
    }
}

fn invocation_request(operation: Option<&str>, capability: Option<&str>) -> CommandRequest {
    let mut request = CommandRequest::read(Verb::Run, "app");
    request.operation = operation.map(ToOwned::to_owned);
    if let Some(capability) = capability {
        request
            .args
            .push(("capability".to_owned(), Json::Str(capability.to_owned())));
    }
    request
}

#[test]
fn pointer_confirmation_precedes_input_and_target_resolution() {
    let mut request = CommandRequest::read(Verb::Run, "app");
    request.foreground_consent = true;
    let error = match desktop_execute_route(capabilities::UI_INPUT_POINTER, &request) {
        Ok(_) => panic!("pointer input must require confirmation first"),
        Err(error) => error,
    };
    assert_eq!(error.code, "CONFIRMATION_REQUIRED");
}

#[test]
fn facade_sanitizes_native_window_identifiers() {
    let value = parse(
        r#"{
            "app": "desktop",
            "operation": "screenshot",
            "captureMethod": "Windows.Graphics.Capture",
            "deviceDriver": "hardware",
            "target": {
                "sessionId": "window:42",
                "hwnd": 42,
                "processId": 7,
                "className": "NativeWindow",
                "title": "Example"
            }
        }"#,
    );
    let value = sanitize_desktop_result(value);
    assert_eq!(text_at(&value, &["target", "title"]), Some("Example"));
    assert!(value.get("app").is_none());
    assert!(value.get("captureMethod").is_none());
    assert!(value_at(&value, &["target", "sessionId"]).is_none());
    assert!(value_at(&value, &["target", "hwnd"]).is_none());
    assert!(value_at(&value, &["target", "processId"]).is_none());
    assert!(value_at(&value, &["target", "className"]).is_none());
}

#[test]
fn exact_window_close_is_a_registered_background_capability() {
    assert!(ProviderKind::Desktop.capabilities().contains(&capabilities::WINDOW_CLOSE));
}

#[test]
fn exact_window_lifecycle_is_a_registered_foreground_capability() {
    assert!(ProviderKind::Desktop.capabilities().contains(&capabilities::WINDOW_LIFECYCLE));
}

#[test]
fn exact_window_closed_wait_is_a_registered_background_capability() {
    assert!(ProviderKind::Desktop.capabilities().contains(&capabilities::WINDOW_CLOSED_WAIT));
}

#[test]
fn exact_window_recording_is_a_registered_background_capability() {
    assert!(ProviderKind::Desktop.capabilities().contains(&capabilities::WINDOW_RECORD));
}

#[test]
fn sensitive_window_capabilities_require_confirmation_before_target_and_input() {
    let cases = [
        (capabilities::UI_ELEMENT_ACTION, "Semantic element action requires explicit confirmation."),
        (capabilities::WINDOW_SCREENSHOT, "Exact window screenshot requires explicit confirmation."),
        (capabilities::WINDOW_RECORD, "Exact window recording requires explicit confirmation."),
        (capabilities::WINDOW_CLOSE, "Exact window close requires confirmation."),
    ];
    for (capability, message) in cases {
        let request = CommandRequest::read(Verb::Run, "app");
        let error = desktop_execute_route(capability, &request)
            .err()
            .unwrap_or_else(|| panic!("{capability} must require confirmation"));
        assert_eq!(error.code, "CONFIRMATION_REQUIRED");
        assert_eq!(error.message, message);
    }
}

#[test]
fn window_close_projection_rejects_missing_success_evidence() {
    let missing_closed = public_window_close_result(
        &parse(r#"{ "foregroundUnchanged": true }"#),
        "s2:a:0000000000000000",
    )
    .err()
    .unwrap_or_else(|| panic!("missing closure evidence must fail"));
    assert_eq!(missing_closed.code, "OPERATION_FAILED");
    assert_eq!(missing_closed.message, "The window close module returned no closure evidence.");

    let missing_foreground = public_window_close_result(
        &parse(r#"{ "closed": true }"#),
        "s2:a:0000000000000000",
    )
    .err()
    .unwrap_or_else(|| panic!("missing foreground evidence must fail"));
    assert_eq!(missing_foreground.code, "OPERATION_FAILED");
    assert_eq!(
        missing_foreground.message,
        "The window close module returned no foreground evidence."
    );

    let missing_permission = public_window_close_result(
        &parse(r#"{ "closed": true, "foregroundUnchanged": true }"#),
        "s2:w:0000000000000000",
    )
    .err()
    .unwrap_or_else(|| panic!("missing permission evidence must fail"));
    assert_eq!(missing_permission.code, "OPERATION_FAILED");
    assert_eq!(
        missing_permission.message,
        "The window close module returned no certified permission evidence."
    );

    let active_probe = public_window_close_result(
        &parse(
            r#"{
                "closed": true,
                "foregroundUnchanged": true,
                "permissionPreflight": "no-static-integrity-block-observed",
                "activeWriteProbePerformed": true
            }"#,
        ),
        "s2:w:0000000000000000",
    )
    .err()
    .unwrap_or_else(|| panic!("active write probe evidence must fail"));
    assert_eq!(active_probe.code, "OPERATION_FAILED");
    assert_eq!(
        active_probe.message,
        "The window close module returned invalid write-probe evidence."
    );
}

#[test]
fn capability_gate_uses_the_resolved_session_list() {
    let application_capabilities = vec![capabilities::IMAGE_CANVAS_CREATE.to_owned()];
    let result = ensure_session_capability(
        "s1:c3:0000000000000000",
        &application_capabilities,
        capabilities::ARTIFACT_SAVE,
    );
    let error = match result {
        Ok(()) => panic!("application session must not accept document save"),
        Err(error) => error,
    };
    assert_eq!(error.code, "CAPABILITY_UNSUPPORTED");
}

#[test]
fn status_summary_preserves_verbs_and_hides_provider_payloads() {
    let status = public_status(3, 2, 1);
    let verbs: Vec<&str> = items_of(status.get("publicVerbs").expect("publicVerbs"))
        .iter()
        .map(|v| v.as_str().expect("verb text"))
        .collect();
    assert_eq!(
        verbs,
        vec!["sessions", "inspect", "read", "create", "apply", "save", "export", "close", "screenshot", "record"]
    );
    let text = render(&status);
    assert!(!text.contains("backend"));
    assert!(!text.contains("provider_id"));
    assert!(!text.contains("result"));
}

#[test]
fn facade_foreground_metadata_hides_native_window_handles() {
    let value = parse(
        r#"{
            "foreground": { "before": 42, "after": 84, "unchanged": false },
            "data": {
                "foreground": { "before": 42, "after": 42, "unchanged": true }
            }
        }"#,
    );
    let value = sanitize_public_value(value);
    let text = render(&value);
    assert!(!text.contains("before"));
    assert!(!text.contains("after"));
    assert_eq!(value_at(&value, &["foreground", "unchanged"]), Some(&Json::Bool(false)));
    assert_eq!(value_at(&value, &["data", "foreground", "unchanged"]), Some(&Json::Bool(true)));
}

#[test]
fn unchanged_foreground_satisfies_facade_invariance() {
    assert!(ensure_foreground_invariance(23, 23, None, false).is_ok());
    assert!(ensure_foreground_invariance(23, 23, Some(capabilities::UI_TEXT_INPUT), true).is_ok());
}

#[test]
fn read_foreground_change_is_rejected_without_native_identity() {
    let error = match ensure_foreground_invariance(41, 42, None, false) {
        Ok(_) => panic!("foreground-changing read must be rejected"),
        Err(error) => error,
    };
    assert_eq!(error.code, "HOST_INTERFERENCE_DETECTED");
    assert_eq!(error.details.get("retrySafe"), Some(&Json::Bool(true)));
    assert_eq!(error.details.get("targetMayHaveMutated"), Some(&Json::Bool(false)));
    let serialized = render(&error.details);
    assert!(!serialized.contains("41"));
    assert!(!serialized.contains("42"));
}

#[test]
fn mutation_foreground_change_preserves_non_retryable_outcome() {
    let error = match ensure_foreground_invariance(7, 9, Some(capabilities::UI_TEXT_INPUT), true) {
        Ok(_) => panic!("foreground-changing mutation must be rejected"),
        Err(error) => error,
    };
    assert_eq!(error.code, "HOST_INTERFERENCE_DETECTED");
    assert_eq!(text_at(&error.details, &["outcome"]), Some("completed"));
    assert_eq!(error.details.get("retrySafe"), Some(&Json::Bool(false)));
    assert_eq!(error.details.get("targetMayHaveMutated"), Some(&Json::Bool(true)));
    assert_eq!(text_at(&error.details, &["capability"]), Some(capabilities::UI_TEXT_INPUT));
}

#[test]
fn zero_and_single_provider_matches_keep_cardinality_semantics() {
    let session_id = "s2:a:0000000000000000";
    let error = require_unique_provider_match::<&str>(Vec::new(), session_id)
        .err()
        .unwrap_or_else(|| panic!("zero provider matches must fail"));
    assert_eq!(error.code, "TARGET_NOT_FOUND");
    assert_eq!(error.message, "The app session is stale or no longer available.");
    assert_eq!(text_at(&error.details, &["sessionId"]), Some(session_id));

    let resolved = require_unique_provider_match(vec!["only"], session_id)
        .unwrap_or_else(|error| panic!("single provider match failed: {}", error.message));
    assert_eq!(resolved, "only");
}

#[test]
fn duplicate_provider_matches_are_ambiguous() {
    let result = require_unique_provider_match(vec!["first", "second"], "s2:a:0000000000000000");
    let error = match result {
        Ok(_) => panic!("duplicate providers must be ambiguous"),
        Err(error) => error,
    };
    assert_eq!(error.code, "AMBIGUOUS_TARGET");
    assert_eq!(text_at(&error.details, &["sessionId"]), Some("s2:a:0000000000000000"));
}

#[test]
fn browser_session_public_route_host_publishes_open_only() {
    let session = public_host_session("host-identity-fixture");
    let published = items_of(session.get("capabilities").expect("capabilities"));
    assert_eq!(text_at(&published[0], &["id"]), Some(capabilities::BROWSER_SESSION_OPEN));
    assert_eq!(published.len(), 1);
    assert!(session.get("applicationIds").is_none());
}

#[test]
fn provider_gates_fail_before_dynamic_application_access() {
    let request = CommandRequest::read(Verb::Run, "app");
    let unsupported = host_execute_route("application.close@1", &request, "host-identity-fixture")
        .err()
        .unwrap_or_else(|| panic!("unknown capability must fail"));
    assert_eq!(unsupported.code, "CAPABILITY_UNSUPPORTED");
    assert_eq!(
        unsupported.message,
        "The Windows application provider supports application.open@1 and browser.session.open@1 only."
    );

    let inspect_error = host_inspect_route(&request, "host-identity-fixture")
        .err()
        .unwrap_or_else(|| panic!("missing inspect target must fail"));
    assert_eq!(inspect_error.code, "INVALID_ARGUMENT");
    assert_eq!(inspect_error.message, "target.sessionId is required.");

    let execute_error = host_execute_route(capabilities::APPLICATION_OPEN, &request, "host-identity-fixture")
        .err()
        .unwrap_or_else(|| panic!("missing execute target must fail"));
    assert_eq!(execute_error.code, "INVALID_ARGUMENT");
    assert_eq!(execute_error.message, "target.sessionId is required.");
}

#[test]
fn browser_session_public_route_does_not_enumerate_sessions() {
    let status = browser_session_provider_status();
    assert_eq!(text_at(&status, &["scope"]), Some("browser-session-and-page"));
}

#[test]
fn browser_session_public_route_provider_publishes_page_actions() {
    let published = ProviderKind::BrowserSession.capabilities();
    assert!(published.contains(&capabilities::BROWSER_ELEMENT_CLICK));
    assert!(published.contains(&capabilities::BROWSER_ELEMENT_TYPE));
    assert!(published.contains(&capabilities::BROWSER_PAGE_SCREENSHOT));
    assert_eq!(published.len(), 7);
}

#[test]
fn descriptors_keep_distinct_risk_and_mechanism() {
    let descriptors = termination_descriptors();
    let items = items_of(&descriptors);
    assert_eq!(text_at(&items[0], &["constraints", "riskLevel"]), Some("high"));
    assert_eq!(text_at(&items[1], &["constraints", "riskLevel"]), Some("critical"));
    assert_eq!(text_at(&items[0], &["constraints", "fallback"]), Some("none"));
    assert_ne!(text_at(&items[0], &["id"]), text_at(&items[1], &["id"]));
}

#[test]
fn process_session_projection_is_opaque_and_capable() {
    let process = parse(
        r#"{ "sessionId": "s2:p:0000000000000000", "identityFreshness": "process-lifetime" }"#,
    );
    let process = augment_process_session(process).unwrap_or_else(|e| panic!("{}", e.message));
    assert_eq!(text_at(&process, &["kind"]), Some("process"));
    assert_eq!(items_of(process.get("capabilities").expect("capabilities")).len(), 2);
    let serialized = render(&process).to_ascii_lowercase();
    for forbidden in ["processid", "pid", "handle", "creationtime"] {
        assert!(!serialized.contains(forbidden));
    }
}

#[test]
fn best_effort_process_session_has_no_termination_capability() {
    let process = parse(
        r#"{ "sessionId": "s2:p:0000000000000000", "identityFreshness": "best-effort-current-snapshot" }"#,
    );
    let process = augment_process_session(process).unwrap_or_else(|e| panic!("{}", e.message));
    assert_eq!(text_at(&process, &["kind"]), Some("process"));
    assert_eq!(process.get("capabilities"), Some(&Json::Arr(Vec::new())));
}

#[test]
fn provider_rejects_unknown_capability_before_request_fields() {
    let error = termination_mode("process.terminate.auto@1")
        .err()
        .unwrap_or_else(|| panic!("unknown process capability must fail"));
    assert_eq!(error.code, "CAPABILITY_UNSUPPORTED");
    assert_eq!(ProviderKind::Process.capabilities().len(), 2);
    assert!(ProviderKind::Process.capabilities().contains(&capabilities::PROCESS_TERMINATE_GRACEFUL));
}

#[test]
fn capability_invocation_projects_one_registered_definition() {
    let request = invocation_request(Some("create"), Some(capabilities::IMAGE_CANVAS_CREATE));
    let invocation = parse_capability_invocation(&request).unwrap_or_else(|e| panic!("{}", e.message));
    assert_eq!(invocation.capability(), capabilities::IMAGE_CANVAS_CREATE);
    assert_eq!(invocation.verb(), "create");
    assert_eq!(invocation.execution_realm(), ExecutionRealm::HostBackground);
    assert!(invocation.mutates());
}

#[test]
fn capability_invocation_rejects_missing_request_fields() {
    let missing_verb = invocation_request(None, Some(capabilities::IMAGE_CANVAS_CREATE));
    let verb_error = parse_capability_invocation(&missing_verb)
        .err()
        .unwrap_or_else(|| panic!("missing verb must fail"));
    assert_eq!(verb_error.code, "INVALID_ARGUMENT");
    assert_eq!(verb_error.message, "run app requires a generic verb.");
    let missing_capability = invocation_request(Some("create"), None);
    let capability_error = parse_capability_invocation(&missing_capability)
        .err()
        .unwrap_or_else(|| panic!("missing capability must fail"));
    assert_eq!(capability_error.code, "INVALID_ARGUMENT");
    assert_eq!(capability_error.message, "args.capability is required.");
}

#[test]
fn required_session_id_keeps_stable_missing_target_error() {
    let request = CommandRequest::read(Verb::Inspect, "app");
    let error = required_session_id(&request)
        .err()
        .unwrap_or_else(|| panic!("missing sessionId must fail"));
    assert_eq!(error.code, "INVALID_ARGUMENT");
    assert_eq!(error.message, "target.sessionId is required.");
}

#[test]
fn capability_invocation_rejects_unregistered_or_wrong_surface_ids() {
    for capability in ["unknown.create@1", capabilities::WINDOW_DISCOVER] {
        let request = invocation_request(Some("create"), Some(capability));
        let error = parse_capability_invocation(&request)
            .err()
            .unwrap_or_else(|| panic!("{capability} must fail"));
        assert_eq!(error.code, "CAPABILITY_UNSUPPORTED");
        assert_eq!(error.message, format!("Unknown capability '{capability}'."));
    }
}

#[test]
fn capability_invocation_rejects_mismatched_generic_verb() {
    let request = invocation_request(Some("read"), Some(capabilities::IMAGE_CANVAS_CREATE));
    let error = parse_capability_invocation(&request)
        .err()
        .unwrap_or_else(|| panic!("mismatched verb must fail"));
    assert_eq!(error.code, "INVALID_ARGUMENT");
    assert_eq!(error.message, "The capability is not valid for this generic verb.");
    assert_eq!(text_at(&error.details, &["verb"]), Some("read"));
    assert_eq!(text_at(&error.details, &["capability"]), Some(capabilities::IMAGE_CANVAS_CREATE));
    assert_eq!(text_at(&error.details, &["expectedVerb"]), Some("create"));
}

#[test]
fn capability_invocation_carries_upfront_foreground_policy() {
    let request = invocation_request(Some("apply"), Some(capabilities::UI_INPUT_KEY));
    let invocation = parse_capability_invocation(&request)
        .unwrap_or_else(|error| panic!("valid invocation failed: {}", error.message));
    let error = invocation
        .ensure_foreground_consent(&request)
        .err()
        .unwrap_or_else(|| panic!("foreground consent must be required"));
    assert_eq!(error.code, "FOREGROUND_CONSENT_REQUIRED");
    assert_eq!(
        text_at(&error.details, &["evidence", "capability"]),
        Some(capabilities::UI_INPUT_KEY)
    );
}

#[test]
fn every_registered_capability_has_consistent_public_descriptor_metadata() {
    for definition in capabilities::all()
        .into_iter()
        .filter(|definition| definition.surface() == CapabilitySurface::App)
    {
        let descriptor = capability_descriptor(definition, Json::Obj(Vec::new()));
        assert_eq!(text_at(&descriptor, &["id"]), Some(definition.id()));
        assert_eq!(text_at(&descriptor, &["verb"]), Some(definition.action().as_str()));
        assert_eq!(text_at(&descriptor, &["execution"]), Some(definition.execution()));
        assert_eq!(
            text_at(&descriptor, &["executionRealm"]),
            Some(realm_str(definition.execution_realm()))
        );
        assert!(matches!(
            definition.execution(),
            "background" | "background-preferred" | "foreground" | "isolated-worker"
        ));
        assert_eq!(
            descriptor.get("requiresConfirmation"),
            Some(&Json::Bool(definition.action().mutates()))
        );
        assert_eq!(
            descriptor.get("requiresForegroundConsent"),
            Some(&Json::Bool(definition.requires_foreground_consent()))
        );
        assert!(
            !definition.requires_upfront_foreground_consent()
                || definition.requires_foreground_consent()
        );
        let schema = text_at(&descriptor, &["inputSchema"]).expect("input schema");
        assert!(schema.starts_with("schema://"));
        assert!(definition.id().ends_with("@1"));
        assert_eq!(descriptor.get("version"), Some(&Json::Int(1)));
    }
}

#[test]
fn advertised_capabilities_are_read_from_the_exact_session() {
    let result = parse(&format!(
        r#"{{
            "sessions": [
                {{ "sessionId": "s1:one", "capabilities": [{{ "id": "{}" }}] }},
                {{ "sessionId": "s1:two", "capabilities": [{{ "id": "{}" }}] }}
            ]
        }}"#,
        capabilities::IMAGE_CANVAS_CREATE,
        capabilities::ARTIFACT_SAVE
    ));
    let ids = capability_ids_for_session(&result, "s1:one").unwrap_or_else(|e| panic!("{}", e.message));
    assert_eq!(ids, Some(vec![capabilities::IMAGE_CANVAS_CREATE.to_owned()]));
}

#[test]
fn invalid_session_payloads_keep_stable_adapter_errors() {
    let missing_sessions_error = capability_ids_for_session(&parse("{}"), "s1:one")
        .err()
        .unwrap_or_else(|| panic!("missing sessions must fail"));
    assert_eq!(missing_sessions_error.code, "OPERATION_FAILED");
    assert_eq!(
        missing_sessions_error.message,
        "An internal provider returned an invalid sessions payload."
    );

    let duplicate_sessions = parse(
        r#"{ "sessions": [
            { "sessionId": "s1:one", "capabilities": [] },
            { "sessionId": "s1:one", "capabilities": [] }
        ] }"#,
    );
    let duplicate_error = capability_ids_for_session(&duplicate_sessions, "s1:one")
        .err()
        .unwrap_or_else(|| panic!("duplicate sessions must fail"));
    assert_eq!(duplicate_error.code, "AMBIGUOUS_TARGET");
    assert_eq!(
        duplicate_error.message,
        "An internal provider returned duplicate opaque sessions."
    );

    let missing_capabilities = parse(r#"{ "sessions": [{ "sessionId": "s1:one" }] }"#);
    let missing_capabilities_error = capability_ids_for_session(&missing_capabilities, "s1:one")
        .err()
        .unwrap_or_else(|| panic!("missing capabilities must fail"));
    assert_eq!(missing_capabilities_error.code, "OPERATION_FAILED");
    assert_eq!(
        missing_capabilities_error.message,
        "An internal provider returned a session without capabilities."
    );

    let invalid_descriptor = parse(r#"{ "sessions": [{ "sessionId": "s1:one", "capabilities": [{}] }] }"#);
    let descriptor_error = capability_ids_for_session(&invalid_descriptor, "s1:one")
        .err()
        .unwrap_or_else(|| panic!("invalid descriptor must fail"));
    assert_eq!(descriptor_error.code, "OPERATION_FAILED");
    assert_eq!(
        descriptor_error.message,
        "An internal provider returned an invalid capability descriptor."
    );
}

#[test]
fn public_apply_mapper_hides_provider_and_native_details() {
    let result = parse(
        r#"{
            "verifiedByReadback": true,
            "textBytes": 5,
            "sessionId": "s2:c:1111111111111111",
            "hwnd": 42,
            "provider": "rust-win32"
        }"#,
    );
    let public = public_apply_result(&result, "s2:c:1111111111111111")
        .unwrap_or_else(|e| panic!("{}", e.message));
    let serialized = render(&public);
    assert_eq!(public.get("verifiedByReadback"), Some(&Json::Bool(true)));
    assert_eq!(text_at(&public, &["targetId"]), Some("s2:c:1111111111111111"));
    assert!(!serialized.contains("hwnd"));
    assert!(!serialized.contains("rust-win32"));
}

#[test]
fn execution_gates_fail_before_real_control_access() {
    let request = CommandRequest::read(Verb::Run, "app");
    let unsupported = standard_edit_checks("ui.text.replace@1", &request)
        .err()
        .unwrap_or_else(|| panic!("unknown capability must fail"));
    assert_eq!(unsupported.code, "CAPABILITY_UNSUPPORTED");
    assert_eq!(unsupported.message, "The standard Edit session supports ui.text.input@1 only.");

    let confirmation = standard_edit_checks(capabilities::UI_TEXT_INPUT, &request)
        .err()
        .unwrap_or_else(|| panic!("unconfirmed mutation must fail"));
    assert_eq!(confirmation.code, "CONFIRMATION_REQUIRED");
    assert_eq!(confirmation.message, "Standard Edit text mutation requires confirmation.");

    let mut confirmed = request;
    confirmed.confirmed = true;
    let invalid_input = standard_edit_checks(capabilities::UI_TEXT_INPUT, &confirmed)
        .err()
        .unwrap_or_else(|| panic!("missing input must fail"));
    assert_eq!(invalid_input.code, "INVALID_ARGUMENT");
    assert_eq!(invalid_input.message, "args.input is required for ui.text.input@1.");
}

#[test]
fn public_apply_mapper_rejects_missing_success_evidence() {
    let missing_readback = public_apply_result(&parse(r#"{ "textBytes": 5 }"#), "s2:c:1111111111111111")
        .err()
        .unwrap_or_else(|| panic!("missing readback evidence must fail"));
    assert_eq!(missing_readback.code, "OPERATION_FAILED");
    assert_eq!(
        missing_readback.message,
        "The standard Edit module returned no readback evidence."
    );

    let missing_text_bytes =
        public_apply_result(&parse(r#"{ "verifiedByReadback": true }"#), "s2:c:1111111111111111")
            .err()
            .unwrap_or_else(|| panic!("missing bounded input evidence must fail"));
    assert_eq!(missing_text_bytes.code, "OPERATION_FAILED");
    assert_eq!(
        missing_text_bytes.message,
        "The standard Edit module returned no bounded input evidence."
    );
}

fn create_request(input: Json) -> CommandRequest {
    let mut request = CommandRequest::read(Verb::Run, "app");
    request.operation = Some("create".to_owned());
    request.target.push((
        "sessionId".to_owned(),
        Json::Str(ai_computer_toolkit::app::providers::application_session_id()),
    ));
    request.args.push(("input".to_owned(), input));
    request
}

#[test]
fn application_session_publishes_text_create_capability() {
    let payload = text_session_payload();
    let sessions = items_of(payload.get("sessions").expect("sessions"));
    let session = &sessions[0];
    let id = text_at(session, &["sessionId"]).unwrap_or_default();
    assert_eq!(text_at(session, &["kind"]), Some("application"));
    assert_eq!(id, "s2:a:7b71b19b11d72b2d");
    assert!(!id.contains("notepad"));
    let published = items_of(session.get("capabilities").expect("capabilities"));
    assert_eq!(text_at(&published[0], &["id"]), Some(capabilities::TEXT_DOCUMENT_CREATE));
    assert_eq!(text_at(&published[0], &["verb"]), Some("create"));
}

#[test]
fn provider_neutral_input_maps_to_the_existing_adapter() {
    let delegated = delegated_create_request(&create_request(parse(r#"{ "text": "hello" }"#)))
        .unwrap_or_else(|e| panic!("{}", e.message));
    assert_eq!(delegated.app, "notepad");
    assert_eq!(delegated.operation.as_deref(), Some("open-and-write-text"));
    assert_eq!(
        delegated.args.iter().find(|(k, _)| k == "text").map(|(_, v)| v),
        Some(&Json::Str("hello".to_owned()))
    );
    assert!(delegated.target.is_empty());
}

#[test]
fn public_result_hides_provider_process_and_native_details() {
    let result = public_document_result(&parse(
        r#"{
            "ok": true,
            "app": "notepad",
            "operation": "open-and-write-text",
            "path": "C:\\Temp\\note.txt",
            "launcherProcessId": 42,
            "text": "hello",
            "inputMethod": "file automation",
            "notepadPath": "C:\\Windows\\System32\\notepad.exe",
            "foreground": { "before": 7, "after": 7, "unchanged": true }
        }"#,
    ))
    .unwrap_or_else(|e| panic!("{}", e.message));
    let serialized = render(&result);
    assert_eq!(text_at(&result, &["path"]), Some("C:\\Temp\\note.txt"));
    assert_eq!(text_at(&result, &["text"]), Some("hello"));
    assert!(!serialized.contains("notepad"));
    assert!(!serialized.contains("launcherProcessId"));
    assert!(!serialized.contains("inputMethod"));
    assert!(!serialized.contains("System32"));
    assert!(!serialized.contains("before"));
    assert!(!serialized.contains("after"));
}

#[test]
fn dispatch_rejects_unknown_capability_without_launching_notepad() {
    let error = match text_capability_check("text.document.replace@1") {
        Ok(_) => panic!("unknown capability must fail before adapter dispatch"),
        Err(error) => error,
    };
    assert_eq!(error.code, "CAPABILITY_UNSUPPORTED");
}

#[test]
fn dispatch_requires_provider_neutral_text_without_launching_notepad() {
    assert!(text_capability_check(capabilities::TEXT_DOCUMENT_CREATE).is_ok());
    let error = match delegated_create_request(&create_request(parse("{}"))) {
        Ok(_) => panic!("missing input must fail before adapter dispatch"),
        Err(error) => error,
    };
    assert_eq!(error.code, "INVALID_ARGUMENT");
}

#[test]
fn public_result_rejects_missing_verified_document_evidence() {
    let missing_path = public_document_result(&parse(r#"{ "text": "hello" }"#))
        .err()
        .unwrap_or_else(|| panic!("missing artifact path must fail"));
    assert_eq!(missing_path.code, "OPERATION_FAILED");
    assert_eq!(missing_path.message, "The text document adapter returned no artifact path.");

    let missing_text = public_document_result(&parse(r#"{ "path": "C:\\Temp\\note.txt" }"#))
        .err()
        .unwrap_or_else(|| panic!("missing verified content must fail"));
    assert_eq!(missing_text.code, "OPERATION_FAILED");
    assert_eq!(
        missing_text.message,
        "The text document adapter returned no verified content."
    );
}

#[test]
fn desktop_adapter_error_constructors_keep_message_and_details() {
    let plain = DesktopAdapterErrorCode::InvalidArgument.error("invalid fixture");
    assert_eq!(plain.code, "INVALID_ARGUMENT");
    assert_eq!(plain.message, "invalid fixture");
    assert_eq!(plain.details, Json::Null);

    let detailed = DesktopAdapterErrorCode::ForegroundChanged.with_details(
        "foreground changed",
        parse(r#"{ "foregroundUnchanged": false }"#),
    );
    assert_eq!(detailed.code, "FOREGROUND_CHANGED");
    assert_eq!(detailed.message, "foreground changed");
    assert_eq!(detailed.details, parse(r#"{ "foregroundUnchanged": false }"#));
}

#[test]
fn discovery_orders_sanitizes_truncates_and_warns() {
    let results = vec![
        Ok(parse(
            r#"{ "ok": true, "sessions": [
                { "sessionId": "s2:w:1", "kind": "window", "foreground": { "before": 1, "after": 2, "unchanged": false } },
                { "sessionId": "s2:a:1", "kind": "application" }
            ] }"#,
        )),
        Err(AppControlError::new("OPERATION_FAILED", "provider down")),
        Ok(parse(r#"{ "ok": true, "sessions": [ { "sessionId": "s2:h:1", "kind": "host" }, { "sessionId": "s2:x:1" } ] }"#)),
        Ok(parse(r#"{ "ok": true }"#)),
    ];
    let envelope = session_discovery(results, 3, 5, 5).unwrap_or_else(|e| panic!("{}", e.message));
    let data = envelope.get("data").expect("data");
    let ids: Vec<&str> = items_of(data.get("sessions").expect("sessions"))
        .iter()
        .map(|s| text_at(s, &["sessionId"]).expect("id"))
        .collect();
    assert_eq!(ids, vec!["s2:h:1", "s2:a:1", "s2:w:1"]);
    assert_eq!(data.get("count"), Some(&Json::Int(3)));
    assert_eq!(data.get("total"), Some(&Json::Int(4)));
    assert_eq!(data.get("truncated"), Some(&Json::Bool(true)));
    let warnings = items_of(data.get("warnings").expect("warnings"));
    assert_eq!(warnings.len(), 1);
    assert_eq!(text_at(&warnings[0], &["code"]), Some("OPERATION_FAILED"));
    assert_eq!(text_at(&warnings[0], &["message"]), Some("provider down"));
    assert!(!render(&envelope).contains("before"));
    assert_eq!(envelope.get("ok"), Some(&Json::Bool(true)));
    assert_eq!(text_at(&envelope, &["app"]), Some("app"));
    assert_eq!(text_at(&envelope, &["capability"]), Some("application.session.discover@1"));
    assert_eq!(envelope.get("count"), Some(&Json::Int(3)));
}

#[test]
fn discovery_refuses_a_foreground_change() {
    let error = session_discovery(vec![Ok(parse(r#"{ "sessions": [] }"#))], 10, 1, 2)
        .err()
        .unwrap_or_else(|| panic!("foreground change must fail"));
    assert_eq!(error.code, "HOST_INTERFERENCE_DETECTED");
    assert_eq!(error.details.get("retrySafe"), Some(&Json::Bool(true)));
}

#[test]
fn kind_order_is_stable_within_a_kind() {
    let sessions = vec![
        parse(r#"{ "id": 1, "kind": "document" }"#),
        parse(r#"{ "id": 2, "kind": "host" }"#),
        parse(r#"{ "id": 3, "kind": "document" }"#),
        parse(r#"{ "id": 4 }"#),
        parse(r#"{ "id": 5, "kind": "host" }"#),
    ];
    assert_eq!(session_kind_rank(&sessions[3]), 4);
    let ordered = order_sessions(sessions);
    let ids: Vec<i128> = ordered
        .iter()
        .map(|s| match s.get("id") {
            Some(Json::Int(n)) => *n,
            _ => -1,
        })
        .collect();
    assert_eq!(ids, vec![2, 5, 1, 3, 4]);
}

#[test]
fn status_counts_available_and_degraded_providers() {
    let outcomes = vec![Ok(Json::Null), Err(AppControlError::new("OPERATION_FAILED", "down")), Ok(Json::Null)];
    let status = status_summary(&outcomes, 9, 9).unwrap_or_else(|e| panic!("{}", e.message));
    assert_eq!(value_at(&status, &["providers", "registered"]), Some(&Json::Int(3)));
    assert_eq!(value_at(&status, &["providers", "available"]), Some(&Json::Int(2)));
    assert_eq!(value_at(&status, &["providers", "degraded"]), Some(&Json::Int(1)));
    assert!(status_summary(&outcomes, 9, 10).is_err());
}

#[test]
fn inspection_is_sanitized_under_the_callers_session() {
    let result = parse(r#"{ "foreground": { "before": 3, "after": 3, "unchanged": true }, "kind": "window" }"#);
    let public = inspection_result("s2:w:0000000000000000", result, 4, 4).unwrap_or_else(|e| panic!("{}", e.message));
    assert_eq!(text_at(&public, &["sessionId"]), Some("s2:w:0000000000000000"));
    assert_eq!(text_at(&public, &["data", "kind"]), Some("window"));
    assert!(!render(&public).contains("before"));
    assert!(inspection_result("s2:w:0000000000000000", Json::Null, 4, 5).is_err());
}

#[test]
fn provider_result_lifts_shape_and_checks_target() {
    let result = parse(
        r#"{ "compatibilityShape": "legacy-v1", "targetId": "s2:w:1", "value": 7,
             "foreground": { "before": 1, "after": 1, "unchanged": true } }"#,
    );
    let (data, shape) = provider_result_parts(result, "s2:w:1").unwrap_or_else(|e| panic!("{}", e.message));
    assert_eq!(shape.as_deref(), Some("legacy-v1"));
    assert!(data.get("targetId").is_none());
    assert!(data.get("compatibilityShape").is_none());
    assert_eq!(data.get("value"), Some(&Json::Int(7)));
    assert!(!render(&data).contains("before"));

    let mismatch = provider_result_parts(parse(r#"{ "targetId": "s2:w:2" }"#), "s2:w:1")
        .err()
        .unwrap_or_else(|| panic!("inconsistent target must fail"));
    assert_eq!(mismatch.code, "OPERATION_FAILED");
    assert_eq!(mismatch.message, "The app provider returned inconsistent target evidence.");

    let (_, no_shape) = provider_result_parts(parse(r#"{ "compatibilityShape": 3, "targetId": 4 }"#), "s2:w:1")
        .unwrap_or_else(|e| panic!("{}", e.message));
    assert_eq!(no_shape, None);
}

#[test]
fn live_browser_session_inspection_lists_descriptors() {
    let inspection = browser_session_inspection("s2:bs:0123456789abcdef0123456789abcdef");
    assert_eq!(text_at(&inspection, &["state"]), Some("live"));
    assert_eq!(text_at(&inspection, &["kind"]), Some("browser-session"));
    assert_eq!(items_of(inspection.get("capabilities").expect("capabilities")).len(), 7);
}

#[test]
fn host_inspection_routes_the_current_host_to_status() {
    let mut request = CommandRequest::read(Verb::Inspect, "app");
    let host = ai_computer_toolkit::app::providers::host_session_id("host-identity-fixture");
    request.target.push(("sessionId".to_owned(), Json::Str(host.clone())));
    let (is_host, id) = host_inspect_route(&request, "host-identity-fixture").unwrap_or_else(|e| panic!("{}", e.message));
    assert!(is_host);
    assert_eq!(id, host);
    let (other, _) = host_inspect_route(&request, "another-host").unwrap_or_else(|e| panic!("{}", e.message));
    assert!(!other);
}

#[test]
fn execution_resolution_goes_direct_only_for_browser_sessions() {
    let mut request = CommandRequest::read(Verb::Run, "app");
    assert_eq!(
        execution_resolution(capabilities::BROWSER_PAGE_NAVIGATE, &request),
        ExecutionResolution::Discover
    );
    request.target.push((
        "sessionId".to_owned(),
        Json::Str("s2:bs:0123456789abcdef0123456789abcdef".to_owned()),
    ));
    assert_eq!(
        execution_resolution(capabilities::BROWSER_PAGE_NAVIGATE, &request),
        ExecutionResolution::Direct
    );
    assert_eq!(
        execution_resolution(capabilities::WINDOW_CLOSE, &request),
        ExecutionResolution::Discover
    );
    let published = vec![
        ProviderKind::Host.capabilities(),
        ProviderKind::BrowserSession.capabilities(),
        ProviderKind::Desktop.capabilities(),
    ];
    assert_eq!(direct_provider(capabilities::BROWSER_PAGE_NAVIGATE, &published, "s2:bs:x").ok(), Some(1));
    let none = direct_provider("unknown.read@1", &published, "s2:bs:x").err().unwrap_or_else(|| panic!("no provider"));
    assert_eq!(none.code, "TARGET_NOT_FOUND");
    let twice = vec![ProviderKind::Desktop.capabilities(), ProviderKind::Desktop.capabilities()];
    let ambiguous = direct_provider(capabilities::WINDOW_CLOSE, &twice, "s2:w:x").err().unwrap_or_else(|| panic!("two"));
    assert_eq!(ambiguous.code, "AMBIGUOUS_TARGET");
}

#[test]
fn stale_window_targets_fall_back_to_their_owner() {
    let mut request = CommandRequest::read(Verb::Run, "app");
    request.target.push(("sessionId".to_owned(), Json::Str("s2:w:0000000000000000".to_owned())));
    let stale = AppControlError::new("TARGET_NOT_FOUND", "The app session is stale or no longer available.");
    assert!(falls_back_to_owner(&stale, capabilities::WINDOW_CLOSE, &request));
    assert!(!falls_back_to_owner(&stale, capabilities::UI_TEXT_INPUT, &request));
    let other = AppControlError::new("AMBIGUOUS_TARGET", "x");
    assert!(!falls_back_to_owner(&other, capabilities::WINDOW_CLOSE, &request));
}

#[test]
fn session_resolution_passes_failures_and_needs_one_owner() {
    let results = vec![
        Ok(None),
        Ok(Some(vec!["window.close@1".to_owned()])),
        Ok(None),
    ];
    let (index, caps) = unique_session_match(results, "s2:w:1").unwrap_or_else(|e| panic!("{}", e.message));
    assert_eq!(index, 1);
    assert_eq!(caps, vec!["window.close@1".to_owned()]);
    let failed = vec![Ok(None), Err(AppControlError::new("OPERATION_FAILED", "down")), Ok(Some(Vec::new()))];
    assert_eq!(unique_session_match(failed, "s2:w:1").err().map(|e| e.message), Some("down".to_owned()));
    let empty: Vec<Result<Option<Vec<String>>, AppControlError>> = vec![Ok(None)];
    assert_eq!(unique_session_match(empty, "s2:w:1").err().map(|e| e.code), Some("TARGET_NOT_FOUND"));
    let two = vec![Ok(Some(Vec::new())), Ok(Some(Vec::new()))];
    assert_eq!(unique_session_match(two, "s2:w:1").err().map(|e| e.code), Some("AMBIGUOUS_TARGET"));
}

#[test]
fn window_listing_keeps_visible_titled_windows_up_to_the_limit() {
    let records = vec![
        parse(r#"{ "visible": true, "title": "A" }"#),
        parse(r#"{ "visible": false, "title": "B" }"#),
        parse(r#"{ "visible": true, "title": "" }"#),
        parse(r#"{ "visible": true, "title": "C" }"#),
        parse(r#"{ "visible": true, "title": "D" }"#),
    ];
    let kept = select_listed_windows(records, 2);
    let titles: Vec<&str> = kept.iter().map(|r| text_at(r, &["title"]).expect("title")).collect();
    assert_eq!(titles, vec!["A", "C"]);
    let target = window_discovery_target(vec![("processName".to_owned(), Json::Str("notepad".to_owned()))]);
    assert_eq!(target.iter().find(|(k, _)| k == "visible").map(|(_, v)| v), Some(&Json::Bool(true)));
    assert_eq!(target.len(), 2);
    let explicit = window_discovery_target(vec![("visible".to_owned(), Json::Bool(false))]);
    assert_eq!(explicit, vec![("visible".to_owned(), Json::Bool(false))]);
}

#[test]
fn window_session_projection_replaces_native_identity() {
    let record = parse(r#"{ "hwnd": 42, "processId": 7, "className": "Native", "title": "Doc", "visible": true }"#);
    let session = public_window_session(record, "s2:w:0123456789abcdef", Json::Str("strong".to_owned()))
        .expect("object observation");
    assert!(session.get("hwnd").is_none());
    assert!(session.get("processId").is_none());
    assert!(session.get("className").is_none());
    assert_eq!(text_at(&session, &["sessionId"]), Some("s2:w:0123456789abcdef"));
    assert_eq!(text_at(&session, &["kind"]), Some("window"));
    assert_eq!(text_at(&session, &["title"]), Some("Doc"));
    assert_eq!(items_of(session.get("capabilities").expect("capabilities")).len(), 10);
    assert!(public_window_session(Json::Null, "s2:w:0123456789abcdef", Json::Null).is_none());
}

#[test]
fn session_capabilities_follow_inspection_outcomes() {
    let exact = process_capabilities_from_inspection(Ok(parse(
        r#"{ "process": { "identityFreshness": "process-lifetime" } }"#,
    )))
    .unwrap_or_else(|e| panic!("{}", e.message));
    assert_eq!(
        exact,
        Some(vec![
            capabilities::PROCESS_TERMINATE_GRACEFUL.to_owned(),
            capabilities::PROCESS_TERMINATE_FORCE.to_owned()
        ])
    );
    let snapshot = process_capabilities_from_inspection(Ok(parse(r#"{ "process": {} }"#)))
        .unwrap_or_else(|e| panic!("{}", e.message));
    assert_eq!(snapshot, Some(Vec::new()));
    let stale = process_capabilities_from_inspection(Err(AppControlError::new("STALE_SESSION", "gone")));
    assert_eq!(stale.ok(), Some(None));
    let failed = process_capabilities_from_inspection(Err(AppControlError::new("OPERATION_FAILED", "x")));
    assert_eq!(failed.err().map(|e| e.code), Some("OPERATION_FAILED"));

    let live = browser_session_capabilities_from_inspection(Ok(()))
        .unwrap_or_else(|e| panic!("{}", e.message))
        .expect("live session");
    assert_eq!(live.len(), 7);
    assert_eq!(live[0], capabilities::BROWSER_SESSION_CLOSE);
    assert_eq!(
        browser_session_capabilities_from_inspection(Err(AppControlError::new("STALE_SESSION", "gone"))).ok(),
        Some(None)
    );
}

#[test]
fn browser_session_route_needs_a_target_and_a_browser_capability() {
    let mut request = CommandRequest::read(Verb::Run, "app");
    let missing = browser_session_route(capabilities::BROWSER_PAGE_QUERY, &request)
        .err()
        .unwrap_or_else(|| panic!("missing target"));
    assert_eq!(missing.message, "target.sessionId is required.");
    request.target.push(("sessionId".to_owned(), Json::Str("s2:bs:abc".to_owned())));
    let (id, operation) = browser_session_route(capabilities::BROWSER_PAGE_QUERY, &request)
        .unwrap_or_else(|e| panic!("{}", e.message));
    assert_eq!(id, "s2:bs:abc");
    assert_eq!(operation, BrowserSessionOperation::Query);
    let unsupported = browser_session_route(capabilities::WINDOW_CLOSE, &request)
        .err()
        .unwrap_or_else(|| panic!("window capability"));
    assert_eq!(unsupported.code, "CAPABILITY_UNSUPPORTED");
}

#[test]
fn assessment_finds_at_most_one_session() {
    assert!(assessable_session("s2:w:0123456789abcdef"));
    assert!(assessable_session("s2:bs:0123456789abcdef0123456789abcdef"));
    assert!(!assessable_session("window:42"));
    let none: Vec<Result<Option<Vec<String>>, AppControlError>> = vec![Ok(None), Ok(None)];
    assert_eq!(assessment_match(none, "s2:w:1").ok(), Some(None));
    let one = vec![Ok(None), Ok(Some(vec!["window.close@1".to_owned()]))];
    assert_eq!(assessment_match(one, "s2:w:1").ok(), Some(Some(vec!["window.close@1".to_owned()])));
    let two = vec![Ok(Some(Vec::new())), Ok(Some(Vec::new()))];
    assert_eq!(assessment_match(two, "s2:w:1").err().map(|e| e.code), Some("AMBIGUOUS_TARGET"));
    let failed = vec![Err(AppControlError::new("OPERATION_FAILED", "down")), Ok(Some(Vec::new()))];
    assert_eq!(assessment_match(failed, "s2:w:1").err().map(|e| e.code), Some("OPERATION_FAILED"));
}

#[test]
fn stale_browser_sessions_have_a_stable_refusal() {
    let error = ai_computer_toolkit::app::providers::stale_session();
    assert_eq!(error.code, "STALE_SESSION");
    assert_eq!(error.message, "The browser session is stale or no longer available.");
    assert_eq!(error.details, Json::Null);
}

fn close_run_request(session: Option<&str>) -> CommandRequest {
    let mut request = invocation_request(Some("close"), Some(capabilities::WINDOW_CLOSE));
    if let Some(session) = session {
        request.target.push(("sessionId".to_owned(), Json::Str(session.to_owned())));
    }
    request
}

fn close_run(
    request: &CommandRequest,
    resolved: Result<Vec<String>, AppControlError>,
    provider: Result<Json, AppControlError>,
    before: isize,
    after: isize,
) -> Result<Json, AppControlError> {
    facade_run_response(
        request,
        resolved,
        provider,
        before,
        after,
        parse(r#"{"before":11,"after":11,"changed":false}"#),
        "app",
    )
}

#[test]
fn facade_run_builds_the_public_envelope() {
    let request = close_run_request(Some("s2:w:0123456789abcdef"));
    let response = close_run(
        &request,
        Ok(vec![capabilities::WINDOW_CLOSE.to_owned()]),
        Ok(parse(r#"{"closed":true,"targetId":"s2:w:0123456789abcdef","compatibilityShape":"window-close"}"#)),
        7,
        7,
    )
    .unwrap_or_else(|e| panic!("{}", e.message));
    assert_eq!(
        json_to_value(&response),
        serde_json::from_str::<serde_json::Value>(
            r#"{"ok":true,"app":"app","verb":"close","capability":"window.close@1",
               "targetId":"s2:w:0123456789abcdef","data":{"closed":true},
               "meta":{"foreground":{"changed":false},"targeting":"opaque exact session"},
               "compatibilityShape":"window-close"}"#
        )
        .unwrap()
    );
    match &response {
        Json::Obj(fields) => {
            let keys: Vec<&str> = fields.iter().map(|(k, _)| k.as_str()).collect();
            assert_eq!(keys, vec!["ok", "app", "verb", "capability", "targetId", "data", "meta", "compatibilityShape"]);
        }
        _ => panic!("the envelope is an object"),
    }
}

#[test]
fn facade_run_gates_fail_in_order() {
    let mut unknown = invocation_request(Some("close"), Some("window.unknown@1"));
    unknown.target.push(("sessionId".to_owned(), Json::Str("s2:w:0123456789abcdef".to_owned())));
    let error = close_run(&unknown, Ok(vec![]), Ok(Json::Null), 1, 1).unwrap_err();
    assert_eq!(error.code, "CAPABILITY_UNSUPPORTED");
    assert_eq!(error.message, "Unknown capability 'window.unknown@1'.");

    let missing = close_run_request(None);
    let error = close_run(&missing, Ok(vec![]), Ok(Json::Null), 1, 1).unwrap_err();
    assert_eq!(error.code, "INVALID_ARGUMENT");
    assert_eq!(error.message, "target.sessionId is required.");

    let request = close_run_request(Some("s2:w:0123456789abcdef"));
    let stale = AppControlError::new("TARGET_NOT_FOUND", "gone");
    let error = close_run(&request, Err(stale), Ok(Json::Null), 1, 1).unwrap_err();
    assert_eq!(error.code, "TARGET_NOT_FOUND");

    let error = close_run(&request, Ok(vec![capabilities::WINDOW_RECORD.to_owned()]), Ok(Json::Null), 1, 1).unwrap_err();
    assert_eq!(error.code, "CAPABILITY_UNSUPPORTED");
    assert_eq!(error.message, "The target session does not support the requested capability.");

    let failed = AppControlError::new("OPERATION_FAILED", "provider failed");
    let error = close_run(&request, Ok(vec![capabilities::WINDOW_CLOSE.to_owned()]), Err(failed), 1, 2).unwrap_err();
    assert_eq!(error.message, "provider failed");
}

#[test]
fn facade_run_refuses_foreign_target_and_foreground_change() {
    let request = close_run_request(Some("s2:w:0123456789abcdef"));
    let caps = || Ok(vec![capabilities::WINDOW_CLOSE.to_owned()]);
    let error = close_run(&request, caps(), Ok(parse(r#"{"targetId":"s2:w:ffffffffffffffff"}"#)), 1, 1).unwrap_err();
    assert_eq!(error.code, "OPERATION_FAILED");
    assert_eq!(error.message, "The app provider returned inconsistent target evidence.");

    let error = close_run(&request, caps(), Ok(parse(r#"{"closed":true}"#)), 1, 2).unwrap_err();
    assert_eq!(error.code, "HOST_INTERFERENCE_DETECTED");
    assert_eq!(
        json_to_value(&error.details),
        serde_json::from_str::<serde_json::Value>(
            r#"{"capability":"window.close@1","outcome":"completed","retrySafe":false,"targetMayHaveMutated":true}"#
        )
        .unwrap()
    );
}

#[test]
fn window_close_checks_its_input_before_the_target() {
    let mut request = CommandRequest::read(Verb::Run, "app");
    request.confirmed = true;
    request.args.push(("input".to_owned(), parse(r#"{"timeoutMs":0}"#)));
    match desktop_execute_route(capabilities::WINDOW_CLOSE, &request) {
        Ok((route, Some((input, None)))) => {
            assert_eq!(route, ai_computer_toolkit::app::desktop::DesktopCapabilityRoute::Close);
            assert_eq!(render(input), r#"{"timeoutMs":0}"#);
        },
        _ => panic!("a window close reads its target only after its input check"),
    }
    let invalid = AppControlError::new("INVALID_ARGUMENT", "timeoutMs is out of range.");
    let error = close_target(&request, Err(invalid)).unwrap_err();
    assert_eq!(error.message, "timeoutMs is out of range.");
    let error = close_target(&request, Ok(2000)).unwrap_err();
    assert_eq!(error.message, "target.sessionId is required.");
    request.target.push(("sessionId".to_owned(), Json::Str("s2:w:0123456789abcdef".to_owned())));
    assert_eq!(close_target(&request, Ok(2000)).ok(), Some((2000, "s2:w:0123456789abcdef")));
}
