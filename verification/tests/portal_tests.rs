use ai_computer_toolkit::portal::contract::{parse_cli, CliAction, Failure, FailureSummary, RunConfig, SuccessSummary};
use ai_computer_toolkit::portal::runtime::runtime_directory_from_status;
use ai_computer_toolkit::portal::paths::{created_session, parse_session_path, request_token_text, returned_path_matches};
use ai_computer_toolkit::portal::request::RequestMachine;
use ai_computer_toolkit::portal::start::{
    project_start, session_close_confirmed, PortalStream, PortalStreamProperties, StartResponse,
    DEVICE_KEYBOARD, REQUESTED_DEVICES,
};
use ai_computer_toolkit::portal::contract::Verification;
use ai_computer_toolkit::portal::paths::request_path;
use ai_computer_toolkit::portal::verify::{verify, VerifyAction, VerifyEvent, VerifyStep};

#[test]
fn cli_requires_both_explicit_permissions_before_run() {
    let missing_confirmation = parse_cli(&["--allow-foreground", "--timeout-ms", "120000"]);
    assert_eq!(missing_confirmation, Err(Failure::new("CONFIRMATION_REQUIRED", "preflight")));
    let missing_foreground = parse_cli(&["--confirmed", "--timeout-ms", "120000"]);
    assert_eq!(missing_foreground, Err(Failure::new("FOREGROUND_CONSENT_REQUIRED", "preflight")));
}

#[test]
fn cli_accepts_only_bounded_complete_argument_set() {
    let parsed = parse_cli(&["--timeout-ms", "120000", "--allow-foreground", "--confirmed"]);
    assert_eq!(parsed, Ok(CliAction::Run(RunConfig { timeout_ms: 120_000 })));
    assert!(parse_cli(&["--confirmed", "--confirmed"]).is_err());
    assert!(parse_cli(&["--confirmed", "--allow-foreground"]).is_err());
}

#[test]
fn help_is_non_running_action() {
    assert_eq!(parse_cli(&["--help"]), Ok(CliAction::Help));
}

#[test]
fn request_state_rejects_out_of_order_completion() {
    let mut machine = RequestMachine::new("test");
    assert_eq!(machine.responded(), Err(Failure::new("PORTAL_PROTOCOL_ERROR", "test")));
    assert_eq!(machine.subscribed(), Ok(()));
    assert_eq!(machine.requested(), Ok(()));
    assert_eq!(machine.handle_verified(), Ok(()));
    assert_eq!(machine.responded(), Ok(()));
}

#[test]
fn start_projection_requires_both_devices_and_mapping() {
    let missing_pointer = project_start(
        StartResponse {
            devices: DEVICE_KEYBOARD,
            streams: vec![PortalStream(42, PortalStreamProperties { mapping_id: Some("private".to_owned()) })],
            restore_token: None,
        },
        2,
        5,
    );
    assert_eq!(missing_pointer, Err(Failure::new("REQUIRED_DEVICES_NOT_GRANTED", "start")));
    let missing_mapping = project_start(
        StartResponse {
            devices: REQUESTED_DEVICES,
            streams: vec![PortalStream(42, PortalStreamProperties::default())],
            restore_token: None,
        },
        2,
        5,
    );
    assert_eq!(missing_mapping, Err(Failure::new("MAPPING_ID_MISSING", "start")));
}

#[test]
fn start_projection_discards_restore_token_and_node_identity() {
    let result = project_start(
        StartResponse {
            devices: REQUESTED_DEVICES,
            streams: vec![PortalStream(
                9001,
                PortalStreamProperties { mapping_id: Some("private-mapping".to_owned()) },
            )],
            restore_token: Some("discard-me".to_owned()),
        },
        2,
        5,
    );
    assert_eq!(
        result,
        Ok(Verification {
            remote_desktop_version: 2,
            screen_cast_version: 5,
            authorized_device_classes: vec!["keyboard", "pointer"],
            stream_count: 1,
            mapping_id_count: 1,
        })
    );
}

#[test]
fn opaque_paths_are_derived_from_unique_sender_and_random_token() {
    let path = request_path(":1.42", "act0001", "test");
    assert_eq!(path.as_deref(), Ok("/org/freedesktop/portal/desktop/request/1_42/act0001"));
}

#[test]
fn successful_close_reply_confirms_client_initiated_cleanup() {
    assert!(session_close_confirmed(true, false));
    assert!(session_close_confirmed(false, true));
    assert!(!session_close_confirmed(false, false));
}

#[test]
fn success_output_freezes_zero_side_effects_and_no_sensitive_fields() {
    let summary = SuccessSummary::from(Verification {
        remote_desktop_version: 2,
        screen_cast_version: 5,
        authorized_device_classes: vec!["keyboard", "pointer"],
        stream_count: 1,
        mapping_id_count: 1,
    });
    assert_eq!(summary.input_events_sent, 0);
    assert_eq!(summary.pixels_consumed, 0);
    assert!(summary.session_closed);
    assert_eq!(summary.outcome, "verified");
    assert!(!summary.restore_token_retained);
    assert_eq!(summary.authorized_device_classes, vec!["keyboard", "pointer"]);
    assert_eq!(summary.mapping_id_count, 1);
}

#[test]
fn failure_output_never_echoes_infrastructure_details() {
    let summary = FailureSummary::new(Failure::new("PORTAL_PROTOCOL_ERROR", "start"), false);
    assert_eq!(summary.outcome, "failed");
    assert!(!summary.restore_token_retained);
    assert!(!summary.session_closed);
    for text in [summary.code, summary.stage, summary.outcome, summary.contract_version] {
        assert!(!text.contains("/org/freedesktop"));
    }
}

#[test]
fn runtime_directory_uses_the_real_user_id() {
    let status = "Name:\tspike\nUmask:\t0022\nUid:\t1000\t1000\t1000\t1000\nGid:\t1000\n";
    assert_eq!(
        runtime_directory_from_status(status, "preflight").ok().as_deref(),
        Some("/run/user/1000")
    );
    let missing = runtime_directory_from_status("Name:\tspike\nGid:\t1\n", "preflight")
        .err()
        .unwrap_or_else(|| panic!("missing uid must fail"));
    assert_eq!(missing, Failure::new("RUNTIME_IDENTITY_UNAVAILABLE", "preflight"));
    assert!(runtime_directory_from_status("Uid:\t10a0\n", "preflight").is_err());
    assert!(runtime_directory_from_status("Uid:\t\n", "preflight").is_err());
    assert!(runtime_directory_from_status("XUid:\t5\nUid: 42", "preflight").ok().as_deref() == Some("/run/user/42"));
}

#[test]
fn created_session_must_be_the_derived_path() {
    let expected = "/org/freedesktop/portal/desktop/session/1_42/act0";
    assert!(created_session(1, Some(expected), expected).is_ok());
    assert_eq!(
        created_session(2, Some(expected), expected),
        Err(Failure::new("PORTAL_PROTOCOL_ERROR", "create-session"))
    );
    assert!(created_session(1, None, expected).is_err());
    assert!(created_session(1, Some("/org/freedesktop/portal/desktop/session/1_42/other"), expected).is_err());
    assert!(created_session(1, Some("not a path"), expected).is_err());
    assert_eq!(parse_session_path("/a/b", "start").ok().as_deref(), Some("/a/b"));
    assert_eq!(parse_session_path("/a//b", "start"), Err(Failure::new("PORTAL_PROTOCOL_ERROR", "start")));
}

#[test]
fn request_tokens_carry_sequence_and_random_hex() {
    assert_eq!(
        request_token_text(1, &[0x00, 0xff, 0x10]),
        "act000000000000000100ff10"
    );
    let token = request_token_text(0xabc, &[7; 16]);
    assert_eq!(token.len(), 3 + 16 + 32);
    assert!(token.starts_with("act0000000000000abc0707"));
}

#[test]
fn returned_request_paths_must_match_exactly() {
    let expected = "/org/freedesktop/portal/desktop/request/1_42/act0";
    assert!(returned_path_matches(expected, expected));
    assert!(!returned_path_matches("/org/freedesktop/portal/desktop/request/1_42/act1", expected));
    assert!(!returned_path_matches("not/a/path", "not/a/path"));
}

fn granted_start() -> StartResponse {
    StartResponse {
        devices: REQUESTED_DEVICES,
        streams: vec![PortalStream(7, PortalStreamProperties { mapping_id: Some("m".to_owned()) })],
        restore_token: None,
    }
}

#[test]
fn verify_sequence_succeeds_only_after_confirmed_close() {
    let (mut machine, first) = verify();
    assert!(matches!(first, VerifyAction::Perform(VerifyStep::CheckWayland)));
    let expected = [
        VerifyStep::ConnectBus,
        VerifyStep::SubscribeOwnerChanges,
        VerifyStep::EnsurePortalOwner,
        VerifyStep::OpenPortals,
        VerifyStep::ReadVersions,
    ];
    for step in expected {
        match machine.step(VerifyEvent::Done(Ok(()))) {
            VerifyAction::Perform(s) => assert_eq!(s, step),
            VerifyAction::Finish(_) => panic!("the run must go on"),
        }
    }
    assert!(matches!(machine.step(VerifyEvent::Versions(Ok((2, 5)))), VerifyAction::Perform(VerifyStep::CheckDevices)));
    for step in [VerifyStep::CreateSession, VerifyStep::SelectDevices, VerifyStep::SelectSources, VerifyStep::StartSession] {
        match machine.step(VerifyEvent::Done(Ok(()))) {
            VerifyAction::Perform(s) => assert_eq!(s, step),
            VerifyAction::Finish(_) => panic!("the run must go on"),
        }
    }
    assert!(matches!(machine.step(VerifyEvent::Started(Ok(granted_start()))), VerifyAction::Perform(VerifyStep::ConnectEis)));
    for step in [VerifyStep::EisHandshake, VerifyStep::OpenPipeWireRemote, VerifyStep::CloseSession] {
        match machine.step(VerifyEvent::Done(Ok(()))) {
            VerifyAction::Perform(s) => assert_eq!(s, step),
            VerifyAction::Finish(_) => panic!("the run must go on"),
        }
    }
    match machine.step(VerifyEvent::Closed(true)) {
        VerifyAction::Finish(Ok(v)) => {
            assert_eq!(v.remote_desktop_version, 2);
            assert_eq!(v.screen_cast_version, 5);
            assert_eq!(v.mapping_id_count, 1);
        },
        _ => panic!("a confirmed close after full evidence succeeds"),
    }
}

#[test]
fn verify_failure_inside_session_closes_first() {
    let (mut machine, _) = verify();
    for _ in 0..5 {
        machine.step(VerifyEvent::Done(Ok(())));
    }
    machine.step(VerifyEvent::Versions(Ok((2, 5))));
    machine.step(VerifyEvent::Done(Ok(())));
    machine.step(VerifyEvent::Done(Ok(())));
    let failure = Failure::new("PORTAL_CANCELLED", "select-devices");
    assert!(matches!(machine.step(VerifyEvent::Done(Err(failure))), VerifyAction::Perform(VerifyStep::CloseSession)));
    match machine.step(VerifyEvent::Closed(true)) {
        VerifyAction::Finish(Err(rf)) => {
            assert_eq!(rf.failure, failure);
            assert!(rf.session_closed);
        },
        _ => panic!("the failure is reported after the close"),
    }
    let (mut early, _) = verify();
    let failure = Failure::new("WAYLAND_SESSION_REQUIRED", "preflight");
    match early.step(VerifyEvent::Done(Err(failure))) {
        VerifyAction::Finish(Err(rf)) => {
            assert_eq!(rf.failure, failure);
            assert!(!rf.session_closed);
        },
        _ => panic!("a failure before the session ends the run"),
    }
}
