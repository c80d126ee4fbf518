use ai_computer_toolkit::ipc::connect::{
    accept_outcome, accept_step, check_connect_name, client_wait_outcome, message_mode, relisten_check,
    AcceptOutcome, AcceptStep, ClientWait, ERROR_FILE_NOT_FOUND, ERROR_PIPE_BUSY, ERROR_PIPE_CONNECTED,
    ERROR_PIPE_LISTENING, ERROR_SEM_TIMEOUT,
};
use ai_computer_toolkit::ipc::endpoint::{
    browser_authority_live, browser_test_session, pipe_name, require_browser_authority_live, wait_slice_from,
    wait_slice_ms,
    FixedLocalEndpointKind,
};
use ai_computer_toolkit::ipc::identity::{integrity_sub_authority_index, token_buffer_words};
use ai_computer_toolkit::ipc::read::{FrameReader, ReadCallResult, ReadProgress};
use ai_computer_toolkit::ipc::write::{classify_write, write_preflight, BoundedTextWriteAttempt};

#[test]
fn production_endpoint_kinds_have_distinct_fixed_names() {
    let interactive_budgets = FixedLocalEndpointKind::InteractiveSession.frame_budgets();
    assert_eq!(interactive_budgets, (256 * 1024, 256 * 1024));
    let long_operation_budgets = FixedLocalEndpointKind::LongOperation.frame_budgets();
    assert!(long_operation_budgets.0 > 1024 * 1024);
    assert_eq!(long_operation_budgets.0, long_operation_budgets.1);
    let browser_budgets = FixedLocalEndpointKind::BrowserSession.frame_budgets();
    assert_eq!(browser_budgets.0, 64 * 1024);
    assert_eq!(browser_budgets.1, 16 * 1024 * 1024 + 128 * 1024);
    let interactive = pipe_name(FixedLocalEndpointKind::InteractiveSession, 42)
        .expect("interactive endpoint name should be generated");
    let long_operation = pipe_name(FixedLocalEndpointKind::LongOperation, 42)
        .expect("long operation endpoint name should be generated");
    assert_ne!(interactive, long_operation);
    let interactive = String::from_utf16(&interactive[..interactive.len() - 1])
        .expect("interactive endpoint name should be valid UTF-16");
    let long_operation = String::from_utf16(&long_operation[..long_operation.len() - 1])
        .expect("long operation endpoint name should be valid UTF-16");
    assert_eq!(interactive, r"\\.\pipe\ai-computer-toolkit-interactive-session-v1-42");
    assert_eq!(long_operation, r"\\.\pipe\ai-computer-toolkit-long-operation-v1-42");
    assert!(pipe_name(FixedLocalEndpointKind::InteractiveSession, 0).is_err());
    assert!(pipe_name(FixedLocalEndpointKind::LongOperation, 0).is_err());
}

#[test]
fn browser_endpoint_name_is_nul_terminated() {
    let name = pipe_name(FixedLocalEndpointKind::BrowserSession, 7).expect("browser endpoint name");
    assert_eq!(name.last(), Some(&0u16));
    assert_eq!(
        String::from_utf16(&name[..name.len() - 1]).expect("utf16"),
        r"\\.\pipe\ai-computer-toolkit-browser-session-v1-7"
    );
}

#[test]
fn wait_slices_are_bounded() {
    assert_eq!(wait_slice_from(None).err().map(|e| e.code), Some("TIMEOUT"));
    assert_eq!(wait_slice_from(Some(0)).err().map(|e| e.code), Some("TIMEOUT"));
    assert_eq!(wait_slice_from(Some(1)).ok(), Some(1));
    assert_eq!(wait_slice_from(Some(4_500_000)).ok(), Some(4));
    assert_eq!(wait_slice_from(Some(90_000_000)).ok(), Some(10));
}

#[test]
fn owner_liveness_and_test_sessions() {
    assert!(browser_authority_live(None));
    assert!(browser_authority_live(Some(true)));
    assert!(!browser_authority_live(Some(false)));
    assert_eq!(
        require_browser_authority_live(Some(false)).err().map(|e| e.message),
        Some("The browser session endpoint owner is unavailable.".to_owned())
    );
    assert_eq!(browser_test_session(5), 3_000_000_005);
    assert_eq!(browser_test_session(u32::MAX), u32::MAX);
}

#[test]
fn writes_are_classified_by_what_the_platform_reported() {
    assert_eq!(classify_write(false, 0, 10), BoundedTextWriteAttempt::DeliveryUncertain);
    assert_eq!(classify_write(true, 10, 10), BoundedTextWriteAttempt::Written);
    assert_eq!(classify_write(true, 0, 10), BoundedTextWriteAttempt::BackpressureZero);
    assert_eq!(classify_write(true, 4, 10), BoundedTextWriteAttempt::DeliveryUncertain);
    let empty = write_preflight(None, 0, 100, true, false).err().expect("empty frame");
    assert!(!empty.delivery_may_have_occurred());
    assert_eq!(empty.error_code(), "ISOLATED_WORKER_UNAVAILABLE");
    let blocking = write_preflight(None, 5, 100, false, false).err().expect("blocking endpoint");
    assert_eq!(blocking.into_error().message, "The interactive endpoint does not support bounded text writes.");
    let cancelled = write_preflight(Some(true), 5, 100, true, true).err().expect("cancelled");
    assert_eq!(cancelled.error_code(), "CANCELLED");
    assert!(write_preflight(Some(true), 5, 100, true, false).is_ok());
}

#[test]
fn frames_are_reassembled_within_the_budget() {
    let mut reader = FrameReader::new(8, true);
    let chunk = *b"hello world";
    assert!(matches!(reader.accept(ReadCallResult::NoData, &chunk, 0), ReadProgress::Retry));
    assert!(matches!(reader.accept(ReadCallResult::MoreData, &chunk, 3), ReadProgress::ReadMore));
    assert!(matches!(reader.accept(ReadCallResult::Complete, &chunk[3..], 2), ReadProgress::Complete));
    assert_eq!(reader.finish().ok().as_deref(), Some("hello"));
    let mut small = FrameReader::new(4, false);
    assert!(matches!(small.accept(ReadCallResult::Complete, &chunk, 5), ReadProgress::Failed(_)));
    let mut bounded = FrameReader::new(64, false);
    assert!(matches!(bounded.accept(ReadCallResult::Complete, &chunk, 99), ReadProgress::Failed(_)));
    let empty = FrameReader::new(64, false);
    assert_eq!(
        empty.finish().err().map(|e| e.message),
        Some("The interactive endpoint message was empty.".to_owned())
    );
    let mut invalid = FrameReader::new(64, false);
    let bytes = [0xffu8, 0xfe];
    assert!(matches!(invalid.accept(ReadCallResult::Complete, &bytes, 2), ReadProgress::Complete));
    assert_eq!(
        invalid.finish().err().map(|e| e.message),
        Some("The interactive endpoint message was not valid UTF-8.".to_owned())
    );
}

#[test]
fn client_connection_waits_only_for_busy_endpoints() {
    assert!(check_connect_name(&vec![0x5c, 0]).is_ok());
    assert_eq!(
        check_connect_name(&vec![0]).err().map(|e| e.message),
        Some("The fixed interactive endpoint name was invalid.".to_owned())
    );
    assert!(check_connect_name(&vec![0x5c, 0x5c]).is_err());
    assert_eq!(client_wait_outcome(true, 0).ok(), Some(ClientWait::Open));
    assert_eq!(client_wait_outcome(false, ERROR_PIPE_BUSY).ok(), Some(ClientWait::Retry));
    assert_eq!(client_wait_outcome(false, ERROR_SEM_TIMEOUT).ok(), Some(ClientWait::Retry));
    assert_eq!(
        client_wait_outcome(false, ERROR_FILE_NOT_FOUND).err().map(|e| e.message),
        Some("No certified interactive endpoint is installed in the target session.".to_owned())
    );
    assert!(client_wait_outcome(false, 5).is_err());
    assert_eq!(message_mode(true), 3);
    assert_eq!(message_mode(false), 2);
}

#[test]
fn server_accept_and_relisten_follow_the_owner() {
    assert_eq!(accept_step(None, false), AcceptStep::Connect);
    assert_eq!(accept_step(Some(false), false), AcceptStep::Cancelled);
    assert_eq!(accept_step(Some(true), true), AcceptStep::Cancelled);
    assert_eq!(accept_outcome(None).ok(), Some(AcceptOutcome::Connected));
    assert_eq!(accept_outcome(Some(ERROR_PIPE_CONNECTED)).ok(), Some(AcceptOutcome::Connected));
    assert_eq!(accept_outcome(Some(ERROR_PIPE_LISTENING)).ok(), Some(AcceptOutcome::Listening));
    assert!(accept_outcome(Some(6)).is_err());
    assert!(relisten_check(true, Some(true)).is_ok());
    assert_eq!(
        relisten_check(false, None).err().map(|e| e.message),
        Some("The fixed endpoint client cannot become a listener.".to_owned())
    );
    assert_eq!(
        relisten_check(true, Some(false)).err().map(|e| e.message),
        Some("The browser session endpoint owner is unavailable.".to_owned())
    );
}

#[test]
fn wait_slices_follow_the_clock_deadline() {
    let later = std::time::Instant::now() + std::time::Duration::from_secs(5);
    let slice = wait_slice_ms(&later).unwrap_or_else(|e| panic!("{}", e.message));
    assert!((1..=10).contains(&slice));
    let now = std::time::Instant::now();
    let passed = now.checked_sub(std::time::Duration::from_secs(1)).unwrap_or(now);
    assert_eq!(wait_slice_ms(&passed).err().map(|e| e.code), Some("TIMEOUT"));
}

#[test]
fn token_buffer_size_is_bounded_and_rounded_to_words() {
    let boundary = "An endpoint peer integrity boundary was invalid.";
    let overflow = "An endpoint peer integrity size overflowed.";
    assert_eq!(token_buffer_words(16, 16, 8, boundary, overflow).ok(), Some(2));
    assert_eq!(token_buffer_words(17, 16, 8, boundary, overflow).ok(), Some(3));
    assert_eq!(token_buffer_words(65536, 16, 8, boundary, overflow).ok(), Some(8192));
    let small = token_buffer_words(15, 16, 8, boundary, overflow).unwrap_err();
    assert_eq!(small.code, "ENDPOINT_AUTHENTICATION_FAILED");
    assert_eq!(small.message, boundary);
    let large = token_buffer_words(65537, 16, 8, boundary, overflow).unwrap_err();
    assert_eq!(large.message, boundary);
}

#[test]
fn integrity_level_is_the_last_sub_authority() {
    assert_eq!(integrity_sub_authority_index(Some(1)).ok(), Some(0));
    assert_eq!(integrity_sub_authority_index(Some(3)).ok(), Some(2));
    assert_eq!(
        integrity_sub_authority_index(Some(0)).unwrap_err().message,
        "An endpoint peer integrity identity was empty."
    );
    assert_eq!(
        integrity_sub_authority_index(None).unwrap_err().message,
        "An endpoint peer integrity identity was invalid."
    );
}
