use ai_computer_toolkit::app::error_codes::{
    AppBrowserErrorCode, AppDesktopErrorCode, AppFacadeErrorCode, AppProcessProviderErrorCode,
    AppSessionErrorCode, AppTextErrorCode, DesktopAdapterErrorCode,
};
use ai_computer_toolkit::app::facade::requires_foreground_invariance;
use ai_computer_toolkit::app::providers::{
    application_session_id, browser_session_capabilities_without_broker, host_session_id,
    is_current_application_session_id, is_current_host_session,
};
use ai_computer_toolkit::app::routing::{
    selects_direct_browser_session_provider, selects_provider_owned_stale_target, targeting_label,
};
use ai_computer_toolkit::app::session::capability_requires_foreground_consent;
use ai_computer_toolkit::capabilities;
use ai_computer_toolkit::capabilities::ExecutionRealm;

#[test]
fn browser_session_public_route_rejects_non_browser_session_without_broker() {
    let decided = browser_session_capabilities_without_broker("s2:w:0123456789abcdef")
        .expect("non-browser target must not call broker");
    assert_eq!(decided.expect("non-browser target must not call broker"), None);
}

#[test]
fn all_desktop_provider_error_codes_keep_stable_public_text() {
    let mappings = [
        (AppDesktopErrorCode::AmbiguousTarget, "AMBIGUOUS_TARGET"),
        (AppDesktopErrorCode::CapabilityUnsupported, "CAPABILITY_UNSUPPORTED"),
        (AppDesktopErrorCode::ConfirmationRequired, "CONFIRMATION_REQUIRED"),
        (AppDesktopErrorCode::InvalidArgument, "INVALID_ARGUMENT"),
        (AppDesktopErrorCode::OperationFailed, "OPERATION_FAILED"),
        (AppDesktopErrorCode::StaleSession, "STALE_SESSION"),
    ];
    assert_eq!(mappings.len(), 6);
    for (code, expected) in mappings {
        assert_eq!(code.as_str(), expected);
    }
}

#[test]
fn stale_session_classification_matches_exact_public_code() {
    let stale = AppDesktopErrorCode::StaleSession.error("The window session no longer exists.");
    assert!(AppDesktopErrorCode::StaleSession.matches(&stale));
    assert!(!AppDesktopErrorCode::AmbiguousTarget.matches(&stale));
}

#[test]
fn only_host_foreground_realm_is_exempt_from_invariance() {
    let cases = [
        (ExecutionRealm::HostHeadless, true),
        (ExecutionRealm::HostBackground, true),
        (ExecutionRealm::SameSessionNoFocus, true),
        (ExecutionRealm::IsolatedWorker, true),
        (ExecutionRealm::HostForeground, false),
        (ExecutionRealm::Unassigned, true),
    ];
    for (realm, expected) in cases {
        assert_eq!(requires_foreground_invariance(realm), expected);
    }
}

#[test]
fn browser_session_public_route_close_selection_never_queries_freshness() {
    assert!(selects_direct_browser_session_provider(
        capabilities::BROWSER_SESSION_CLOSE,
        "s2:bs:0123456789abcdef0123456789abcdef",
    ));
    assert!(!selects_direct_browser_session_provider(
        capabilities::BROWSER_SESSION_OPEN,
        "s2:bs:0123456789abcdef0123456789abcdef",
    ));
    assert!(selects_direct_browser_session_provider(capabilities::BROWSER_SESSION_CLOSE, "s2:w:0123456789abcdef"));
    assert!(selects_direct_browser_session_provider(capabilities::BROWSER_SESSION_CLOSE, "s2:bs:ABCDEF"));
    for capability in [
        capabilities::BROWSER_PAGE_NAVIGATE,
        capabilities::BROWSER_PAGE_WAIT,
        capabilities::BROWSER_PAGE_QUERY,
        capabilities::BROWSER_ELEMENT_CLICK,
        capabilities::BROWSER_ELEMENT_TYPE,
        capabilities::BROWSER_PAGE_SCREENSHOT,
    ] {
        assert!(selects_direct_browser_session_provider(capability, "s2:bs:0123456789abcdef0123456789abcdef"));
    }
    assert_eq!(targeting_label(capabilities::BROWSER_PAGE_NAVIGATE), "opaque exact browser session");
    assert_eq!(targeting_label(capabilities::BROWSER_SESSION_CLOSE), "opaque exact session");
}

#[test]
fn all_facade_error_codes_keep_stable_public_text() {
    let mappings = [
        (AppFacadeErrorCode::AmbiguousTarget, "AMBIGUOUS_TARGET"),
        (AppFacadeErrorCode::CapabilityUnsupported, "CAPABILITY_UNSUPPORTED"),
        (AppFacadeErrorCode::HostInterferenceDetected, "HOST_INTERFERENCE_DETECTED"),
        (AppFacadeErrorCode::OperationFailed, "OPERATION_FAILED"),
        (AppFacadeErrorCode::TargetNotFound, "TARGET_NOT_FOUND"),
    ];
    assert_eq!(mappings.len(), 5);
    for (code, expected) in mappings {
        assert_eq!(code.as_str(), expected);
    }
}

#[test]
fn error_classification_matches_exact_public_code() {
    let target_not_found = AppFacadeErrorCode::TargetNotFound.error("The app session is unavailable.");
    assert!(AppFacadeErrorCode::TargetNotFound.matches(&target_not_found));
    assert!(!AppFacadeErrorCode::OperationFailed.matches(&target_not_found));
}

#[test]
fn window_stale_routes_are_closed_by_target_kind() {
    let capabilities = [
        capabilities::WINDOW_CLOSE,
        capabilities::WINDOW_CLOSED_WAIT,
        capabilities::UI_ELEMENT_ACTION,
        capabilities::UI_ELEMENT_LOCATE,
        capabilities::UI_ELEMENT_WAIT,
        capabilities::WINDOW_SCREENSHOT,
        capabilities::WINDOW_RECORD,
        capabilities::WINDOW_LIFECYCLE,
        capabilities::UI_INPUT_KEY,
        capabilities::UI_INPUT_POINTER,
    ];
    for capability in capabilities {
        assert!(selects_provider_owned_stale_target(capability, "s2:w:0000000000000000"));
        assert!(!selects_provider_owned_stale_target(capability, "s2:c:0000000000000000"));
    }
}

#[test]
fn unsupported_or_malformed_stale_routes_are_rejected() {
    assert!(!selects_provider_owned_stale_target(capabilities::APPLICATION_DISCOVER, "s2:w:0000000000000000"));
    assert!(!selects_provider_owned_stale_target(capabilities::WINDOW_SCREENSHOT, "s2:w:not-canonical"));
}

#[test]
fn host_session_is_canonical_and_stable() {
    let first = host_session_id("workstation-21");
    let second = host_session_id("workstation-21");
    assert_eq!(first, second);
    assert!(first.starts_with("s2:h:"));
    assert_eq!(first.len(), 21);
}

#[test]
fn provider_rejects_legacy_and_stale_host_sessions() {
    let current = host_session_id("workstation-21");
    assert!(is_current_host_session(&current, "workstation-21"));
    assert!(!is_current_host_session("s1:c1:0000000000000000", "workstation-21"));
    assert!(!is_current_host_session("s2:h:0000000000000000", "workstation-21"));
}

#[test]
fn capability_error_text_is_stable() {
    let error = AppProcessProviderErrorCode::CapabilityUnsupported.error("fixture");
    assert_eq!(error.code, "CAPABILITY_UNSUPPORTED");
    assert_eq!(error.message, "fixture");
}

#[test]
fn all_app_session_error_codes_keep_stable_public_text() {
    let mappings = [
        (AppSessionErrorCode::AmbiguousTarget, "AMBIGUOUS_TARGET"),
        (AppSessionErrorCode::CapabilityUnsupported, "CAPABILITY_UNSUPPORTED"),
        (AppSessionErrorCode::InvalidArgument, "INVALID_ARGUMENT"),
        (AppSessionErrorCode::OperationFailed, "OPERATION_FAILED"),
    ];
    assert_eq!(mappings.len(), 4);
    for (code, expected) in mappings {
        assert_eq!(code.as_str(), expected);
    }
}

#[test]
fn registered_foreground_capabilities_require_upfront_consent() {
    assert!(capability_requires_foreground_consent(capabilities::UI_INPUT_KEY));
    assert!(capability_requires_foreground_consent(capabilities::UI_INPUT_POINTER));
    assert!(capability_requires_foreground_consent(capabilities::WINDOW_LIFECYCLE));
    assert!(!capability_requires_foreground_consent(capabilities::UI_TEXT_INPUT));
    assert!(!capability_requires_foreground_consent(capabilities::WINDOW_SCREENSHOT));
}

#[test]
fn only_current_s2_creator_identity_is_accepted() {
    assert!(is_current_application_session_id(&application_session_id()));
    assert!(!is_current_application_session_id("s1:c3:7b71b19b11d72b2d"));
    assert!(!is_current_application_session_id("s2:a:0000000000000000"));
}

#[test]
fn all_text_provider_error_codes_keep_stable_public_text() {
    let mappings = [
        (AppTextErrorCode::CapabilityUnsupported, "CAPABILITY_UNSUPPORTED"),
        (AppTextErrorCode::InvalidArgument, "INVALID_ARGUMENT"),
        (AppTextErrorCode::OperationFailed, "OPERATION_FAILED"),
        (AppTextErrorCode::StaleSession, "STALE_SESSION"),
    ];
    assert_eq!(mappings.len(), 4);
    for (code, expected) in mappings {
        assert_eq!(code.as_str(), expected);
    }
}

#[test]
fn all_browser_adapter_error_codes_keep_stable_public_text() {
    let mappings = [
        (AppBrowserErrorCode::BackgroundOperationUnavailable, "BACKGROUND_OPERATION_UNAVAILABLE"),
        (AppBrowserErrorCode::InvalidArgument, "INVALID_ARGUMENT"),
    ];
    assert_eq!(mappings.len(), 2);
    for (code, expected) in mappings {
        assert_eq!(code.as_str(), expected);
    }
}

#[test]
fn all_desktop_adapter_error_codes_keep_stable_public_text() {
    let mappings = [
        (DesktopAdapterErrorCode::BackgroundOperationUnavailable, "BACKGROUND_OPERATION_UNAVAILABLE"),
        (DesktopAdapterErrorCode::ConfirmationRequired, "CONFIRMATION_REQUIRED"),
        (DesktopAdapterErrorCode::CursorMoveFailed, "CURSOR_MOVE_FAILED"),
        (DesktopAdapterErrorCode::ForegroundActivationFailed, "FOREGROUND_ACTIVATION_FAILED"),
        (DesktopAdapterErrorCode::ForegroundChanged, "FOREGROUND_CHANGED"),
        (DesktopAdapterErrorCode::InputFailed, "INPUT_FAILED"),
        (DesktopAdapterErrorCode::InputBlockedOrPartial, "INPUT_BLOCKED_OR_PARTIAL"),
        (DesktopAdapterErrorCode::InvalidArgument, "INVALID_ARGUMENT"),
        (DesktopAdapterErrorCode::OperationFailed, "OPERATION_FAILED"),
        (DesktopAdapterErrorCode::ProcessStartFailed, "PROCESS_START_FAILED"),
        (DesktopAdapterErrorCode::TargetNotFound, "TARGET_NOT_FOUND"),
        (DesktopAdapterErrorCode::WindowCloseFailed, "WINDOW_CLOSE_FAILED"),
    ];
    assert_eq!(mappings.len(), 12);
    for (code, expected) in mappings {
        assert_eq!(code.as_str(), expected);
    }
}
