use ai_computer_toolkit::adapters::desktop_session::{
    canvas_offset, check_frame_size, classify_input_failure, frame_button, keys_idle, lease_check, next_generation,
    FrameButton,
};
use ai_computer_toolkit::error::AppControlError;
use ai_computer_toolkit::adapters::desktop_layout::{
    check_display_count, monitor_at, monitor_contains, moved_point, same_layout, union_layout,
    validated_rect, MonitorRect,
};
use ai_computer_toolkit::adapters::desktop_input::{
    background_write_outcome, key_actions, press_key_plan, record_result, release_outcome, standard_edit_text_result,
    unicode_key_events, opaque_close_result, screenshot_timeout_ms, capture_foreground_check,
    window_text_route, KeyAction, KeyPhase, WindowTextRoute,
};
use ai_computer_toolkit::adapters::browser::{BrowserAdapter, BrowserRoute};
use ai_computer_toolkit::adapters::desktop::{
    optional_hold_ms, optional_key_phase, parse_argv, required_i32, required_string, DesktopAdapter, DesktopRoute,
};
use ai_computer_toolkit::adapters::keys::{chord_inputs, modifier_key, named_key, KeyStroke};
use ai_computer_toolkit::json::Json;
use ai_computer_toolkit::request::{CommandRequest, Verb};

#[test]
fn desktop_owned_operation_gates_fail_before_provider_or_os_access() {
    let missing_request = CommandRequest::read(Verb::Run, "desktop");
    let missing_error = DesktopAdapter.run(&missing_request).err().unwrap_or_else(|| panic!("missing Desktop operation must fail"));
    assert_eq!(missing_error.code, "INVALID_ARGUMENT");
    assert_eq!(missing_error.message, "run 缺少 operation。");

    let mut unsupported_request = missing_request;
    unsupported_request.operation = Some("replace-desktop".to_owned());
    let unsupported_error = DesktopAdapter.run(&unsupported_request).err().unwrap_or_else(|| panic!("unsupported Desktop operation must fail"));
    assert_eq!(unsupported_error.code, "BACKGROUND_OPERATION_UNAVAILABLE");
    assert_eq!(unsupported_error.message, "desktop.replace-desktop 未认证为控制操作。");

    let confirmation_cases = [
        ("record", "Exact window recording requires explicit confirmation."),
        ("screenshot", "Exact window screenshot requires explicit confirmation."),
        ("close", "Exact window close requires confirmation."),
    ];
    for (operation, expected_message) in confirmation_cases {
        let mut request = CommandRequest::read(Verb::Run, "desktop");
        request.operation = Some(operation.to_owned());
        let error = DesktopAdapter.run(&request).err().unwrap_or_else(|| panic!("unconfirmed Desktop {operation} must fail"));
        assert_eq!(error.code, "CONFIRMATION_REQUIRED");
        assert_eq!(error.message, expected_message);
    }
}

#[test]
fn desktop_owned_parameter_gates_keep_stable_errors() {
    let args: Vec<(String, Json)> = Vec::new();
    let string_error = required_string(&args, "path").err().unwrap_or_else(|| panic!("missing Desktop string must fail"));
    assert_eq!(string_error.code, "INVALID_ARGUMENT");
    assert_eq!(string_error.message, "args.path 是必填字符串。");
    let coordinate_error = required_i32(&args, "x").err().unwrap_or_else(|| panic!("missing Desktop coordinate must fail"));
    assert_eq!(coordinate_error.code, "INVALID_ARGUMENT");
    assert_eq!(coordinate_error.message, "args.x 必须是 i32 坐标。");
    let argv_error = parse_argv(&Json::Str("--unsafe".to_owned())).err().unwrap_or_else(|| panic!("non-array Desktop argv must fail"));
    assert_eq!(argv_error.code, "INVALID_ARGUMENT");
    assert_eq!(argv_error.message, "args.argv 必须是字符串数组。");
}

#[test]
fn key_hold_duration_is_bounded() {
    assert_eq!(optional_hold_ms(None).ok(), Some(0));
    assert_eq!(optional_hold_ms(Some(&Json::Int(1_250))).ok(), Some(1_250));
    let error = optional_hold_ms(Some(&Json::Int(5_001))).err().unwrap_or_else(|| panic!("oversized Desktop hold must fail"));
    assert_eq!(error.code, "INVALID_ARGUMENT");
    assert_eq!(error.message, "args.holdMs must be an integer between 0 and 5000.");
    assert!(optional_hold_ms(Some(&Json::Int(-1))).is_err());
}

#[test]
fn f4_is_available_for_standard_window_close_chords() {
    assert!(named_key("F4").is_ok());
}

#[test]
fn simultaneous_ascii_keys_form_a_press_release_chord() {
    let strokes = chord_inputs("w+d").expect("chord");
    assert_eq!(strokes.len(), 4);
    assert_eq!(
        strokes,
        vec![
            KeyStroke { key: 0x57, release: false },
            KeyStroke { key: 0x44, release: false },
            KeyStroke { key: 0x44, release: true },
            KeyStroke { key: 0x57, release: true },
        ]
    );
}

#[test]
fn key_phase_defaults_to_press_and_rejects_unknown_values() {
    assert_eq!(optional_key_phase(None).ok(), Some("press"));
    let down = Json::Str("down".to_owned());
    assert_eq!(optional_key_phase(Some(&down)).ok(), Some("down"));
    let hold = Json::Str("hold".to_owned());
    let error = optional_key_phase(Some(&hold)).err().unwrap_or_else(|| panic!("unknown Desktop key phase must fail"));
    assert_eq!(error.code, "INVALID_ARGUMENT");
    assert_eq!(error.message, "args.phase must be 'press', 'down', or 'up'.");
}

#[test]
fn named_and_modifier_keys_follow_the_table() {
    assert_eq!(named_key(" enter ").ok(), Some(0x0D));
    assert_eq!(named_key("esc").ok(), Some(0x1B));
    assert_eq!(named_key("a").ok(), Some(0x41));
    assert!(named_key("F13").is_err());
    assert_eq!(modifier_key("Ctrl").ok(), Some(0x11));
    assert_eq!(modifier_key("shift").ok(), Some(0x10));
    assert_eq!(modifier_key("Hyper").err().map(|e| e.message), Some("不支持的修饰键 'Hyper'。".to_owned()));
    let chord = chord_inputs("ctrl + alt + Delete").expect("three-key chord");
    assert_eq!(chord.len(), 6);
    assert_eq!(chord[0], KeyStroke { key: 0x11, release: false });
    assert_eq!(chord[5], KeyStroke { key: 0x11, release: true });
    assert!(chord_inputs("ctrl+").is_err());
}

#[test]
fn desktop_routes_follow_the_session_kind() {
    let mut request = CommandRequest::read(Verb::Run, "desktop");
    request.operation = Some("screenshot".to_owned());
    request.confirmed = true;
    request.target.push(("sessionId".to_owned(), Json::Str("s2:w:0123456789abcdef".to_owned())));
    match DesktopAdapter.run(&request) {
        Ok(DesktopRoute::OpaqueWindowScreenshot { session_id }) => assert_eq!(session_id, "s2:w:0123456789abcdef"),
        other => panic!("unexpected route {other:?}"),
    }
    let mut typing = CommandRequest::read(Verb::Run, "desktop");
    typing.operation = Some("type-text".to_owned());
    typing.target.push(("sessionId".to_owned(), Json::Str("s2:c:0123456789abcdef".to_owned())));
    assert_eq!(DesktopAdapter.run(&typing).err().map(|e| e.code), Some("CONFIRMATION_REQUIRED"));
    typing.confirmed = true;
    typing.args.push(("text".to_owned(), Json::Str("hello".to_owned())));
    typing.args.push(("timeoutMs".to_owned(), Json::Int(1_500)));
    match DesktopAdapter.run(&typing) {
        Ok(DesktopRoute::StandardEditText { session_id, text, timeout_ms }) => {
            assert_eq!((session_id.as_str(), text.as_str(), timeout_ms), ("s2:c:0123456789abcdef", "hello", Some(1_500)));
        },
        other => panic!("unexpected route {other:?}"),
    }
    let mut press = CommandRequest::read(Verb::Run, "desktop");
    press.operation = Some("press-key".to_owned());
    assert_eq!(DesktopAdapter.run(&press).err().map(|e| e.code), Some("FOREGROUND_CONSENT_REQUIRED"));
    press.foreground_consent = true;
    assert!(matches!(DesktopAdapter.run(&press), Ok(DesktopRoute::PressKey)));
}

#[test]
fn browser_owned_gates_fail_before_runtime_or_worker_access() {
    let inspect_error = BrowserAdapter.inspect();
    assert_eq!(inspect_error.code, "BACKGROUND_OPERATION_UNAVAILABLE");
    assert_eq!(inspect_error.message, "browser v1 仅认证 screenshot；DOM 检查不在当前公开能力内。");
    let missing_request = CommandRequest::read(Verb::Run, "browser");
    let missing_error = BrowserAdapter.run(&missing_request).err().unwrap_or_else(|| panic!("missing Browser operation must fail"));
    assert_eq!(missing_error.code, "INVALID_ARGUMENT");
    assert_eq!(missing_error.message, "run 缺少 operation。");
    let mut unsupported_request = missing_request;
    unsupported_request.operation = Some("dom-read".to_owned());
    let unsupported_error = BrowserAdapter.run(&unsupported_request).err().unwrap_or_else(|| panic!("unsupported Browser operation must fail"));
    assert_eq!(unsupported_error.code, "BACKGROUND_OPERATION_UNAVAILABLE");
    assert_eq!(unsupported_error.message, "browser.dom-read 未认证为后台操作。");
    unsupported_request.operation = Some("screenshot".to_owned());
    assert_eq!(BrowserAdapter.run(&unsupported_request).ok(), Some(BrowserRoute::Screenshot));
}

#[test]
fn browser_status_reports_availability() {
    match BrowserAdapter.status(true, false) {
        Json::Obj(fields) => {
            assert_eq!(fields[5], ("available".to_owned(), Json::Bool(false)));
            assert_eq!(fields[1], ("app".to_owned(), Json::Str("browser".to_owned())));
        },
        _ => panic!("status must be an object"),
    }
}

fn rect(handle: isize, x: i32, y: i32, width: u32, height: u32) -> MonitorRect {
    MonitorRect { handle, x, y, width, height }
}

#[test]
fn layout_orders_monitors_and_bounds_them() {
    let monitors = vec![
        rect(9, 1920, 0, 1280, 1024),
        rect(4, 0, 0, 1920, 1080),
        rect(2, 0, 0, 800, 600),
        rect(7, -1280, 200, 1280, 720),
    ];
    let layout = union_layout(&monitors).unwrap_or_else(|e| panic!("{}", e.message));
    let handles: Vec<isize> = layout.monitors.iter().map(|m| m.handle).collect();
    assert_eq!(handles, vec![7, 2, 4, 9]);
    assert_eq!((layout.x, layout.y, layout.width, layout.height), (-1280, 0, 4480, 1080));
    assert_eq!(monitor_at(&layout, 10, 10), Some(1));
    assert_eq!(monitor_at(&layout, 1000, 700), Some(2));
    assert_eq!(monitor_at(&layout, -1, 0), None);
    assert!(monitor_contains(&monitors[0], 1920, 1023));
    assert!(!monitor_contains(&monitors[0], 3200, 0));
}

#[test]
fn layout_keeps_display_order_of_equal_keys() {
    let monitors = vec![rect(3, 0, 0, 100, 100), rect(3, 0, 0, 200, 50)];
    let layout = union_layout(&monitors).unwrap_or_else(|e| panic!("{}", e.message));
    assert_eq!(layout.monitors, monitors);
    let again = union_layout(&monitors).unwrap_or_else(|e| panic!("{}", e.message));
    assert!(same_layout(&layout, &again));
    let other = union_layout(&vec![rect(3, 0, 0, 100, 100)]).unwrap_or_else(|e| panic!("{}", e.message));
    assert!(!same_layout(&layout, &other));
}

#[test]
fn oversized_layout_is_refused() {
    let wide = vec![rect(1, 0, 0, 16384, 100), rect(2, 16384, 0, 1, 100)];
    let error = union_layout(&wide).err().unwrap_or_else(|| panic!("too wide"));
    assert_eq!(error.code, "RESOURCE_EXHAUSTED");
    assert_eq!(error.message, "The Windows desktop platform could not complete this operation.");
    let square = vec![rect(1, 0, 0, 8192, 8192)];
    assert!(union_layout(&square).is_ok());
    let over_area = vec![rect(1, 0, 0, 8192, 8193)];
    assert_eq!(union_layout(&over_area).err().map(|e| e.code), Some("RESOURCE_EXHAUSTED"));
}

#[test]
fn display_checks_bound_count_and_rectangles() {
    assert_eq!(check_display_count(0).err().map(|e| e.code), Some("DISPLAY_UNAVAILABLE"));
    assert!(check_display_count(32).is_ok());
    assert_eq!(check_display_count(33).err().map(|e| e.code), Some("DISPLAY_UNAVAILABLE"));
    assert_eq!(validated_rect(-5, 7, 1920, 1080).ok(), Some((-5, 7, 1920, 1080)));
    assert!(validated_rect(1_000_001, 0, 10, 10).is_err());
    assert!(validated_rect(0, 0, 0, 10).is_err());
    assert!(validated_rect(0, 0, 10, 16385).is_err());
    assert_eq!(moved_point(10, 20, -15, 5).ok(), Some((-5, 25)));
    assert_eq!(moved_point(i32::MAX, 0, 1, 0).err().map(|e| e.code), Some("INVALID_ARGUMENT"));
}

#[test]
fn key_press_plan_checks_arguments_in_order() {
    let args = vec![("key".to_owned(), Json::Str("ctrl+shift+a".to_owned()))];
    let plan = press_key_plan(&args).unwrap_or_else(|e| panic!("{}", e.message));
    assert_eq!(plan.phase, KeyPhase::Press);
    assert_eq!(plan.hold_ms, 0);
    assert_eq!(plan.strokes.len(), 6);
    assert_eq!(plan.release_index, 3);
    assert!(!plan.strokes[2].release && plan.strokes[3].release);

    let held_down = vec![
        ("key".to_owned(), Json::Str("a".to_owned())),
        ("holdMs".to_owned(), Json::Int(100)),
        ("phase".to_owned(), Json::Str("down".to_owned())),
    ];
    let error = press_key_plan(&held_down).err().unwrap_or_else(|| panic!("hold with down"));
    assert_eq!(error.message, "args.holdMs is only valid when args.phase is 'press'.");

    let missing = press_key_plan(&Vec::new()).err().unwrap_or_else(|| panic!("missing key"));
    assert_eq!(missing.code, "INVALID_ARGUMENT");

    let unknown = vec![("key".to_owned(), Json::Str("ctrl+nokey".to_owned()))];
    assert_eq!(press_key_plan(&unknown).err().map(|e| e.code), Some("INVALID_ARGUMENT"));
}

#[test]
fn key_actions_follow_the_phase() {
    assert_eq!(key_actions(KeyPhase::Press, 0), vec![KeyAction::Activate, KeyAction::SendAll]);
    assert_eq!(
        key_actions(KeyPhase::Press, 250),
        vec![
            KeyAction::Activate,
            KeyAction::SendPresses,
            KeyAction::Hold(250),
            KeyAction::ObserveForeground,
            KeyAction::SendReleases
        ]
    );
    assert_eq!(key_actions(KeyPhase::Up, 0), vec![KeyAction::ObserveForeground, KeyAction::SendReleases]);
    assert!(release_outcome(KeyPhase::Press, 250, 5, 5).is_ok());
    assert_eq!(
        release_outcome(KeyPhase::Press, 250, 4, 5).err().map(|e| e.message),
        Some("The foreground window changed while the key was held; the key was released safely.".to_owned())
    );
    assert_eq!(
        release_outcome(KeyPhase::Up, 0, 4, 5).err().map(|e| e.code),
        Some("FOREGROUND_CHANGED")
    );
    assert!(release_outcome(KeyPhase::Down, 0, 4, 5).is_ok());
}

#[test]
fn typed_text_routes_by_edit_control_count() {
    assert!(matches!(window_text_route(1, false), WindowTextRoute::Background));
    assert!(matches!(window_text_route(2, true), WindowTextRoute::Foreground));
    match window_text_route(0, false) {
        WindowTextRoute::ConsentRequired(reason) => assert_eq!(reason, "目标窗口没有可认证的标准 Edit 控件。"),
        other => panic!("unexpected route {other:?}"),
    }
    assert!(background_write_outcome(3, 3).is_ok());
    assert_eq!(background_write_outcome(3, 4).err().map(|e| e.code), Some("FOREGROUND_CHANGED"));
    let result = Json::Obj(vec![
        ("verifiedByReadback".to_owned(), Json::Bool(true)),
        ("hwnd".to_owned(), Json::Int(42)),
    ]);
    let public = standard_edit_text_result("s2:c:1111111111111111", &result);
    assert_eq!(public.get("verifiedByReadback"), Some(&Json::Bool(true)));
    assert!(public.get("hwnd").is_none());
    assert_eq!(
        public.get("target").and_then(|t| t.get("sessionId")).and_then(|s| s.as_str()),
        Some("s2:c:1111111111111111")
    );
}

#[test]
fn typed_unicode_text_becomes_unit_events() {
    let events = unicode_key_events("a\u{e9}\u{1F600}");
    assert_eq!(
        events,
        vec![
            (0x61, false),
            (0x61, true),
            (0xE9, false),
            (0xE9, true),
            (0xD83D, false),
            (0xD83D, true),
            (0xDE00, false),
            (0xDE00, true)
        ]
    );
    assert!(unicode_key_events("").is_empty());
}

#[test]
fn recording_results_name_the_desktop_operation() {
    let result = Json::Obj(vec![
        ("frames".to_owned(), Json::Int(3)),
        ("app".to_owned(), Json::Str("window-record".to_owned())),
    ]);
    let recorded = record_result(result).unwrap_or_else(|e| panic!("{}", e.message));
    assert_eq!(recorded.get("app").and_then(|v| v.as_str()), Some("desktop"));
    assert_eq!(recorded.get("operation").and_then(|v| v.as_str()), Some("record"));
    assert_eq!(recorded.get("frames"), Some(&Json::Int(3)));
    let invalid = record_result(Json::Null).err().unwrap_or_else(|| panic!("non-object"));
    assert_eq!(invalid.code, "OPERATION_FAILED");
    assert_eq!(invalid.message, "The recording module returned invalid data.");
}

#[test]
fn window_close_and_capture_results_keep_module_evidence() {
    let module = Json::Obj(vec![
        ("closed".to_owned(), Json::Bool(true)),
        ("foregroundUnchanged".to_owned(), Json::Bool(true)),
        ("hwnd".to_owned(), Json::Int(42)),
    ]);
    let public = opaque_close_result("s2:w:0123456789abcdef", &module);
    assert_eq!(public.get("closed"), Some(&Json::Bool(true)));
    assert_eq!(
        public.get("foreground").and_then(|f| f.get("unchanged")),
        Some(&Json::Bool(true))
    );
    assert!(public.get("hwnd").is_none());
    let empty = opaque_close_result("s2:w:0123456789abcdef", &Json::Obj(Vec::new()));
    assert_eq!(empty.get("closed"), Some(&Json::Null));

    assert_eq!(screenshot_timeout_ms(&Vec::new()), 5000);
    assert_eq!(screenshot_timeout_ms(&vec![("timeoutMs".to_owned(), Json::Int(750))]), 750);
    assert_eq!(screenshot_timeout_ms(&vec![("timeoutMs".to_owned(), Json::Int(-1))]), 5000);

    assert!(capture_foreground_check(4, 4, "C:\\shot.png").is_ok());
    let changed = capture_foreground_check(4, 5, "C:\\shot.png").err().unwrap_or_else(|| panic!("changed"));
    assert_eq!(changed.code, "FOREGROUND_CHANGED");
    assert_eq!(changed.details.get("path").and_then(|p| p.as_str()), Some("C:\\shot.png"));
    assert_eq!(changed.details.get("foregroundUnchanged"), Some(&Json::Bool(false)));
}

#[test]
fn lease_checks_hold_the_opened_layout() {
    let monitors = vec![rect(1, 0, 0, 100, 100), rect(2, 100, 0, 100, 50)];
    let held = union_layout(&monitors).unwrap_or_else(|e| panic!("{}", e.message));
    let current = union_layout(&monitors).unwrap_or_else(|e| panic!("{}", e.message));
    assert!(lease_check(&held, &current, None).is_ok());
    assert!(lease_check(&held, &current, Some((150, 20))).is_ok());
    assert_eq!(
        lease_check(&held, &current, Some((150, 80))).err().map(|e| e.code),
        Some("INPUT_MAPPING_UNAVAILABLE")
    );
    let moved = union_layout(&vec![rect(1, 0, 0, 100, 100)]).unwrap_or_else(|e| panic!("{}", e.message));
    assert_eq!(lease_check(&held, &moved, None).err().map(|e| e.code), Some("STALE_FRAME"));
    assert!(keys_idle(&vec![0, 1, 0]).is_ok());
    assert_eq!(keys_idle(&vec![0, -32768]).err().map(|e| e.code), Some("INPUT_BUSY"));
    assert_eq!(next_generation(4, false).ok(), Some(4));
    assert_eq!(next_generation(4, true).ok(), Some(5));
    assert_eq!(next_generation(u64::MAX, true).err().map(|e| e.code), Some("RESOURCE_EXHAUSTED"));
    assert!(check_frame_size(&monitors[1], 100, 50).is_ok());
    assert_eq!(check_frame_size(&monitors[1], 100, 51).err().map(|e| e.code), Some("STALE_FRAME"));
    assert_eq!(canvas_offset(&monitors[1], &held), (100, 0));
    assert_eq!(frame_button(2), Some(FrameButton::Right));
    assert_eq!(frame_button(0), None);
}

#[test]
fn input_failures_are_classified_by_outcome() {
    let cancelled = AppControlError::new("CANCELLED", "stop");
    let c = classify_input_failure(&cancelled);
    assert_eq!(c.code, "CANCELLED");
    assert!(!c.after_dispatch);
    let unknown = AppControlError::with_details(
        "INPUT_FAILED",
        "partial",
        Json::Obj(vec![
            ("outcome".to_owned(), Json::Str("unknown".to_owned())),
            ("safeReleaseSucceeded".to_owned(), Json::Bool(true)),
            ("completedStepCount".to_owned(), Json::Int(2)),
            ("inputEventsSent".to_owned(), Json::Int(5)),
        ]),
    );
    let u = classify_input_failure(&unknown);
    assert_eq!(u.code, "OUTCOME_UNKNOWN");
    assert!(u.after_dispatch && u.safe_release_succeeded);
    assert_eq!((u.completed_step_count, u.input_events_sent), (2, 5));
    let other = classify_input_failure(&AppControlError::new("INPUT_FAILED", "x"));
    assert_eq!(other.code, "INPUT_UNAVAILABLE");
    assert_eq!(other.source, "windows-input");
}
