use ai_computer_toolkit::broker::connect::{BrokerConnect, ConnectAction, ConnectEvent, ConnectPhase};
use ai_computer_toolkit::broker::exchange::{
    build_request_frame_for_deadline, ensure_handshake_active, handshake_active_from, handshake_deadline,
    remaining_timeout_from,
};
use ai_computer_toolkit::broker::machine::{exchange_request, ExchangeAction, ExchangeEvent, ExchangePhase};
use ai_computer_toolkit::broker::protocol::{decode_epoch, BrowserSessionBrokerOperation, ProtocolFailureCode};
use ai_computer_toolkit::broker::request::{
    build_request_frame, BrowserSemanticSelector, BrowserSessionExchange, BrowserWaitCondition,
};
use ai_computer_toolkit::broker::response::{
    final_error, post_dispatch_outcome_unknown, BrowserSessionBrokerOutcome, BrowserSessionBrokerResponse,
    BrowserSessionBrokerSuccess,
};
use ai_computer_toolkit::broker::results::{
    click_confirmed, close_confirmed, inspect_session, navigate_confirmed, open_confirmed, probe_ready, screenshot,
    type_confirmed, ProbeOutcome,
};
use ai_computer_toolkit::error::AppControlError;
use ai_computer_toolkit::ipc::write::{delivery_uncertain, not_dispatched, BoundedTextWriteAttempt};
use ai_computer_toolkit::json::Json;

const REQUEST_NONCE: &str = "0123456789abcdef0123456789abcdef";
const BROKER_EPOCH: &str = "fedcba9876543210fedcba9876543210";
const SESSION_ID: &str = "s2:bs:aaaaaaaaaaaaaaaaaaaaaaaaaaaaaaaa";

fn response(operation: BrowserSessionBrokerOperation, revision: u32) -> BrowserSessionBrokerResponse {
    BrowserSessionBrokerResponse {
        operation,
        request_nonce: REQUEST_NONCE.to_owned(),
        broker_epoch: BROKER_EPOCH.to_owned(),
        request_revision: revision,
        outcome: None,
        success: None,
        transport_accepted: true,
        business_accepted: true,
        completed: false,
        retry_safe: false,
        outcome_unknown: false,
        target_may_have_mutated: false,
        error_code: None,
        error_message: None,
    }
}

fn completed(operation: BrowserSessionBrokerOperation, success: BrowserSessionBrokerSuccess) -> BrowserSessionBrokerResponse {
    let mut r = response(operation, 1);
    r.outcome = Some(BrowserSessionBrokerOutcome::Completed);
    r.success = Some(success);
    r.completed = true;
    r
}

fn detail(error: &AppControlError, key: &str) -> Option<Json> {
    match &error.details {
        Json::Obj(fields) => fields.iter().find(|(k, _)| k.as_str() == key).map(|(_, v)| v.clone_value()),
        _ => None,
    }
}

trait CloneValue {
    fn clone_value(&self) -> Json;
}

impl CloneValue for Json {
    fn clone_value(&self) -> Json {
        match self {
            Json::Bool(b) => Json::Bool(*b),
            Json::Str(s) => Json::Str(s.clone()),
            Json::Int(n) => Json::Int(*n),
            _ => Json::Null,
        }
    }
}

#[test]
fn backpressure_rebuilds_shorter_remaining_without_changing_nonce_or_fingerprint() {
    let first = build_request_frame(&BrowserSessionExchange::OpenConfirmed, REQUEST_NONCE, BROKER_EPOCH, 500)
        .expect("first browser frame should be strict");
    let retried = build_request_frame(&BrowserSessionExchange::OpenConfirmed, REQUEST_NONCE, BROKER_EPOCH, 499)
        .expect("retried browser frame should be strict");
    assert_eq!(retried.request().remaining_timeout_ms(), 499);
    assert_eq!(first.request().remaining_timeout_ms(), 500);
    assert_eq!(retried.request().request_nonce(), first.request().request_nonce());
    assert_eq!(retried.request().semantic_fingerprint(), first.request().semantic_fingerprint());
    assert_ne!(retried.text(), first.text());
}

#[test]
fn session_inspect_uses_query_shape_and_neutral_request_error() {
    let frame = build_request_frame(&BrowserSessionExchange::SessionInspect(SESSION_ID), REQUEST_NONCE, BROKER_EPOCH, 500)
        .expect("session inspect frame should be strict");
    assert_eq!(frame.request().operation(), BrowserSessionBrokerOperation::SessionInspect);
    assert!(!frame.text().contains("confirmed"));
    let error = post_dispatch_outcome_unknown(&BrowserSessionExchange::SessionInspect(SESSION_ID));
    assert!(error.message.contains("request"));
    assert!(!error.message.contains("command"));
    assert_eq!(detail(&error, "businessAccepted"), Some(Json::Bool(true)));
    assert_eq!(detail(&error, "completed"), Some(Json::Bool(false)));
    assert_eq!(detail(&error, "retrySafe"), Some(Json::Bool(false)));
    assert_eq!(detail(&error, "targetMayHaveMutated"), Some(Json::Bool(false)));
    assert!(detail(&error, "brokerEpoch").is_none());
}

#[test]
fn open_frame_text_is_canonical_and_confirmed() {
    let frame = build_request_frame(&BrowserSessionExchange::OpenConfirmed, REQUEST_NONCE, BROKER_EPOCH, 1234)
        .expect("open frame");
    assert_eq!(
        frame.text(),
        "{\"kind\":\"browser-session-request\",\"version\":1,\"operation\":\"session.open\",\
\"requestNonce\":\"0123456789abcdef0123456789abcdef\",\"brokerEpoch\":\"fedcba9876543210fedcba9876543210\",\
\"remainingTimeoutMs\":1234,\"confirmed\":true,\"target\":{},\"args\":{}}"
    );
    assert_eq!(frame.request().semantic_fingerprint().len(), 16);
}

#[test]
fn typed_text_is_escaped_in_the_frame() {
    let command = BrowserSessionExchange::TypeConfirmed {
        session_id: SESSION_ID,
        page_id: "p1",
        element_id: "e7",
        text: "say \"hi\"\\\n",
        replace: true,
    };
    let frame = build_request_frame(&command, REQUEST_NONCE, BROKER_EPOCH, 10).expect("type frame");
    assert!(frame.text().contains("\"text\":\"say \\\"hi\\\"\\\\\\u000a\",\"replace\":true"));
    assert!(frame.text().contains("\"target\":{\"sessionId\":\"s2:bs:aaaaaaaaaaaaaaaaaaaaaaaaaaaaaaaa\",\"pageId\":\"p1\",\"elementId\":\"e7\"}"));
}

#[test]
fn builder_rejects_each_invalid_field_in_order() {
    let bad_nonce = build_request_frame(&BrowserSessionExchange::OpenConfirmed, "XYZ", BROKER_EPOCH, 10);
    assert_eq!(bad_nonce.err().map(|f| f.code), Some(ProtocolFailureCode::InvalidRequestNonce));
    let bad_epoch = build_request_frame(&BrowserSessionExchange::OpenConfirmed, REQUEST_NONCE, "nope", 10);
    assert_eq!(bad_epoch.err().map(|f| f.code), Some(ProtocolFailureCode::InvalidBrokerEpoch));
    let zero_budget = build_request_frame(&BrowserSessionExchange::OpenConfirmed, REQUEST_NONCE, BROKER_EPOCH, 0);
    assert_eq!(zero_budget.err().map(|f| f.code), Some(ProtocolFailureCode::InvalidTimeout));
    let long_budget = build_request_frame(&BrowserSessionExchange::OpenConfirmed, REQUEST_NONCE, BROKER_EPOCH, 30_001);
    assert_eq!(long_budget.err().map(|f| f.code), Some(ProtocolFailureCode::InvalidTimeout));
    let bad_session = build_request_frame(&BrowserSessionExchange::CloseConfirmed("s2:w:0123456789abcdef"), REQUEST_NONCE, BROKER_EPOCH, 10);
    assert_eq!(bad_session.err().map(|f| f.code), Some(ProtocolFailureCode::InvalidTarget));
    let bad_url = build_request_frame(
        &BrowserSessionExchange::NavigateConfirmed { session_id: SESSION_ID, url: "file:///etc/passwd" },
        REQUEST_NONCE, BROKER_EPOCH, 10,
    );
    assert_eq!(bad_url.err().map(|f| f.code), Some(ProtocolFailureCode::InvalidArgument));
    let selector = BrowserSemanticSelector { role: None, name: None, text: None, exact: true };
    let bad_query = build_request_frame(
        &BrowserSessionExchange::Query { session_id: SESSION_ID, page_id: "p", selector: &selector, max_results: 10 },
        REQUEST_NONCE, BROKER_EPOCH, 10,
    );
    assert_eq!(bad_query.err().map(|f| f.code), Some(ProtocolFailureCode::InvalidArgument));
    let condition = BrowserWaitCondition::TextPresent(String::new());
    let bad_wait = build_request_frame(
        &BrowserSessionExchange::Wait { session_id: SESSION_ID, page_id: "p", condition: &condition },
        REQUEST_NONCE, BROKER_EPOCH, 10,
    );
    assert_eq!(bad_wait.err().map(|f| f.code), Some(ProtocolFailureCode::InvalidArgument));
}

#[test]
fn query_and_wait_frames_carry_their_arguments() {
    let selector = BrowserSemanticSelector { role: Some("button".to_owned()), name: None, text: Some("OK".to_owned()), exact: false };
    let frame = build_request_frame(
        &BrowserSessionExchange::Query { session_id: SESSION_ID, page_id: "p", selector: &selector, max_results: 100 },
        REQUEST_NONCE, BROKER_EPOCH, 10,
    ).expect("query frame");
    assert!(frame.text().contains("\"args\":{\"selector\":{\"role\":\"button\",\"text\":\"OK\",\"exact\":false},\"maxResults\":100}"));
    assert!(!frame.text().contains("confirmed"));
    let condition = BrowserWaitCondition::DocumentReady;
    let wait = build_request_frame(
        &BrowserSessionExchange::Wait { session_id: SESSION_ID, page_id: "p", condition: &condition },
        REQUEST_NONCE, BROKER_EPOCH, 10,
    ).expect("wait frame");
    assert!(wait.text().contains("\"args\":{\"condition\":{\"kind\":\"document-ready\"}}"));
}

#[test]
fn commands_may_mutate_and_queries_do_not() {
    assert!(BrowserSessionExchange::OpenConfirmed.may_mutate_target());
    assert!(BrowserSessionExchange::CloseConfirmed(SESSION_ID).may_mutate_target());
    assert!(!BrowserSessionExchange::SessionInspect(SESSION_ID).may_mutate_target());
    assert!(!BrowserSessionExchange::Screenshot { session_id: SESSION_ID, page_id: "p" }.may_mutate_target());
}

#[test]
fn deadline_and_budget_rules() {
    assert_eq!(handshake_deadline(0).err().map(|e| e.code), Some("INVALID_ARGUMENT"));
    assert_eq!(handshake_deadline(30_001).err().map(|e| e.code), Some("INVALID_ARGUMENT"));
    assert!(handshake_deadline(1_000).is_ok());
    assert_eq!(handshake_active_from(true, Some(5)).err().map(|e| e.code), Some("CANCELLED"));
    assert_eq!(handshake_active_from(false, None).err().map(|e| e.code), Some("TIMEOUT"));
    assert_eq!(handshake_active_from(false, Some(0)).err().map(|e| e.code), Some("TIMEOUT"));
    assert!(handshake_active_from(false, Some(1)).is_ok());
    assert_eq!(remaining_timeout_from(false, Some(2_999_999)).ok(), Some(2));
    assert_eq!(remaining_timeout_from(false, Some(999_999)).err().map(|e| e.code), Some("TIMEOUT"));
    assert_eq!(remaining_timeout_from(true, Some(9_000_000)).err().map(|e| e.code), Some("CANCELLED"));
    assert!(decode_epoch(BROKER_EPOCH).is_ok());
    let bad = decode_epoch("FEDCBA9876543210FEDCBA9876543210").err().expect("upper-case epoch");
    assert_eq!(bad.code, "BROKER_UNAVAILABLE");
    assert_eq!(bad.message, "The browser session broker epoch is invalid.");
}

#[test]
fn exchange_returns_direct_final_of_the_written_request() {
    let (mut machine, first) = exchange_request(BrowserSessionExchange::OpenConfirmed);
    assert!(matches!(first, ExchangeAction::ConnectCertified));
    assert!(matches!(machine.step(ExchangeEvent::Connected), ExchangeAction::ReadReady));
    assert!(matches!(machine.step(ExchangeEvent::ReadyEpoch(BROKER_EPOCH.to_owned())), ExchangeAction::GenerateNonce));
    assert!(matches!(machine.step(ExchangeEvent::NonceGenerated(REQUEST_NONCE.to_owned())), ExchangeAction::CheckBudget));
    let written = match machine.step(ExchangeEvent::Budget(Ok(800))) {
        ExchangeAction::Write(text) => text,
        _ => panic!("a frame must be written"),
    };
    assert!(written.contains("\"remainingTimeoutMs\":800"));
    assert!(matches!(machine.step(ExchangeEvent::WriteResult(Ok(BoundedTextWriteAttempt::Written))), ExchangeAction::ReadFrame));
    let final_response = completed(
        BrowserSessionBrokerOperation::SessionOpen,
        BrowserSessionBrokerSuccess::Open { session_id: SESSION_ID.to_owned() },
    );
    match machine.step(ExchangeEvent::FrameRead(Some(final_response))) {
        ExchangeAction::Finish(Ok(r)) => assert_eq!(open_confirmed(&r).ok().as_deref(), Some(SESSION_ID)),
        _ => panic!("the direct final must finish the exchange"),
    }
    assert_eq!(machine.phase, ExchangePhase::Finished);
}

#[test]
fn exchange_after_accepted_needs_revision_one_final() {
    let (mut machine, _) = exchange_request(BrowserSessionExchange::CloseConfirmed(SESSION_ID));
    machine.step(ExchangeEvent::Connected);
    machine.step(ExchangeEvent::ReadyEpoch(BROKER_EPOCH.to_owned()));
    machine.step(ExchangeEvent::NonceGenerated(REQUEST_NONCE.to_owned()));
    machine.step(ExchangeEvent::Budget(Ok(800)));
    machine.step(ExchangeEvent::WriteResult(Ok(BoundedTextWriteAttempt::Written)));
    let accepted = response(BrowserSessionBrokerOperation::SessionClose, 0);
    assert!(matches!(machine.step(ExchangeEvent::FrameRead(Some(accepted))), ExchangeAction::ReadFrame));
    let done = completed(BrowserSessionBrokerOperation::SessionClose, BrowserSessionBrokerSuccess::Close);
    match machine.step(ExchangeEvent::FrameRead(Some(done))) {
        ExchangeAction::Finish(Ok(r)) => assert!(close_confirmed(&r).is_ok()),
        _ => panic!("the final after accepted must finish the exchange"),
    }
}

#[test]
fn backpressure_rewrites_with_the_same_nonce() {
    let (mut machine, _) = exchange_request(BrowserSessionExchange::OpenConfirmed);
    machine.step(ExchangeEvent::Connected);
    machine.step(ExchangeEvent::ReadyEpoch(BROKER_EPOCH.to_owned()));
    machine.step(ExchangeEvent::NonceGenerated(REQUEST_NONCE.to_owned()));
    let first = match machine.step(ExchangeEvent::Budget(Ok(900))) {
        ExchangeAction::Write(text) => text,
        _ => panic!("first write"),
    };
    assert!(matches!(machine.step(ExchangeEvent::WriteResult(Ok(BoundedTextWriteAttempt::BackpressureZero))), ExchangeAction::SleepRetry));
    assert!(matches!(machine.step(ExchangeEvent::Slept(true)), ExchangeAction::CheckBudget));
    let second = match machine.step(ExchangeEvent::Budget(Ok(850))) {
        ExchangeAction::Write(text) => text,
        _ => panic!("second write"),
    };
    assert_ne!(first, second);
    assert!(second.contains(REQUEST_NONCE));
    assert!(!machine.recovering);
}

#[test]
fn failure_before_dispatch_keeps_the_original_error() {
    let (mut machine, _) = exchange_request(BrowserSessionExchange::OpenConfirmed);
    machine.step(ExchangeEvent::Connected);
    machine.step(ExchangeEvent::ReadyEpoch(BROKER_EPOCH.to_owned()));
    machine.step(ExchangeEvent::NonceGenerated(REQUEST_NONCE.to_owned()));
    machine.step(ExchangeEvent::Budget(Ok(900)));
    let refused = not_dispatched(AppControlError::new("CANCELLED", "The interactive endpoint request was cancelled."));
    match machine.step(ExchangeEvent::WriteResult(Err(refused))) {
        ExchangeAction::Finish(Err(e)) => assert_eq!(e.code, "CANCELLED"),
        _ => panic!("an undispatched failure must end the exchange with its error"),
    }
}

#[test]
fn uncertain_delivery_recovers_only_on_the_same_epoch() {
    let (mut machine, _) = exchange_request(BrowserSessionExchange::OpenConfirmed);
    machine.step(ExchangeEvent::Connected);
    machine.step(ExchangeEvent::ReadyEpoch(BROKER_EPOCH.to_owned()));
    machine.step(ExchangeEvent::NonceGenerated(REQUEST_NONCE.to_owned()));
    machine.step(ExchangeEvent::Budget(Ok(900)));
    let uncertain = delivery_uncertain(AppControlError::new("ISOLATED_WORKER_UNAVAILABLE", "write"));
    assert!(matches!(machine.step(ExchangeEvent::WriteResult(Err(uncertain))), ExchangeAction::ConnectCertified));
    assert!(machine.recovering);
    machine.step(ExchangeEvent::Connected);
    match machine.step(ExchangeEvent::ReadyEpoch("00000000000000000000000000000000".to_owned())) {
        ExchangeAction::Finish(Err(e)) => {
            assert_eq!(e.code, "OUTCOME_UNKNOWN");
            assert_eq!(detail(&e, "targetMayHaveMutated"), Some(Json::Bool(true)));
            assert_eq!(detail(&e, "completed"), Some(Json::Bool(false)));
            assert_eq!(detail(&e, "retrySafe"), Some(Json::Bool(false)));
        },
        _ => panic!("a new epoch must leave the outcome unknown"),
    }
}

#[test]
fn recovery_rewrites_the_same_request_and_accepts_its_final() {
    let (mut machine, _) = exchange_request(BrowserSessionExchange::SessionInspect(SESSION_ID));
    machine.step(ExchangeEvent::Connected);
    machine.step(ExchangeEvent::ReadyEpoch(BROKER_EPOCH.to_owned()));
    machine.step(ExchangeEvent::NonceGenerated(REQUEST_NONCE.to_owned()));
    machine.step(ExchangeEvent::Budget(Ok(900)));
    machine.step(ExchangeEvent::WriteResult(Ok(BoundedTextWriteAttempt::Written)));
    assert!(matches!(machine.step(ExchangeEvent::FrameRead(None)), ExchangeAction::ConnectCertified));
    machine.step(ExchangeEvent::Connected);
    assert!(matches!(machine.step(ExchangeEvent::ReadyEpoch(BROKER_EPOCH.to_owned())), ExchangeAction::CheckBudget));
    match machine.step(ExchangeEvent::Budget(Ok(700))) {
        ExchangeAction::Write(text) => assert!(text.contains(REQUEST_NONCE) && text.contains("\"remainingTimeoutMs\":700")),
        _ => panic!("recovery rewrites the same request"),
    }
    machine.step(ExchangeEvent::WriteResult(Ok(BoundedTextWriteAttempt::Written)));
    let live = completed(
        BrowserSessionBrokerOperation::SessionInspect,
        BrowserSessionBrokerSuccess::SessionInspect { session_id: SESSION_ID.to_owned(), live: true },
    );
    match machine.step(ExchangeEvent::FrameRead(Some(live))) {
        ExchangeAction::Finish(Ok(r)) => assert!(inspect_session(SESSION_ID, &r).is_ok()),
        _ => panic!("the recovered final must finish the exchange"),
    }
}

#[test]
fn recovery_that_runs_out_of_time_is_unknown() {
    let (mut machine, _) = exchange_request(BrowserSessionExchange::OpenConfirmed);
    machine.step(ExchangeEvent::Connected);
    machine.step(ExchangeEvent::ReadyEpoch(BROKER_EPOCH.to_owned()));
    machine.step(ExchangeEvent::NonceGenerated(REQUEST_NONCE.to_owned()));
    machine.step(ExchangeEvent::Budget(Ok(900)));
    machine.step(ExchangeEvent::WriteResult(Ok(BoundedTextWriteAttempt::DeliveryUncertain)));
    match machine.step(ExchangeEvent::ConnectFailed(AppControlError::new("TIMEOUT", "late"))) {
        ExchangeAction::Finish(Err(e)) => assert_eq!(e.code, "OUTCOME_UNKNOWN"),
        _ => panic!("a failed recovery is unknown"),
    }
}

#[test]
fn final_errors_keep_frozen_codes_and_safety_facts() {
    let mut failed = response(BrowserSessionBrokerOperation::PageNavigate, 1);
    failed.outcome = Some(BrowserSessionBrokerOutcome::Failed);
    failed.error_code = Some("STALE_PAGE".to_owned());
    failed.error_message = Some("The page changed.".to_owned());
    failed.retry_safe = true;
    let e = final_error(&failed);
    assert_eq!(e.code, "STALE_PAGE");
    assert_eq!(e.message, "The page changed.");
    assert_eq!(detail(&e, "retrySafe"), Some(Json::Bool(true)));
    failed.error_code = Some("SOMETHING_ELSE".to_owned());
    assert_eq!(final_error(&failed).code, "BROKER_OPERATION_FAILED");
    failed.error_message = None;
    assert_eq!(final_error(&failed).message, "The browser session broker request did not complete successfully.");
    failed.outcome = Some(BrowserSessionBrokerOutcome::Unknown);
    assert_eq!(final_error(&failed).code, "OUTCOME_UNKNOWN");
}

#[test]
fn inspect_rejects_a_different_or_dead_session() {
    let other = completed(
        BrowserSessionBrokerOperation::SessionInspect,
        BrowserSessionBrokerSuccess::SessionInspect { session_id: "s2:bs:bbbbbbbbbbbbbbbbbbbbbbbbbbbbbbbb".to_owned(), live: true },
    );
    assert!(inspect_session(SESSION_ID, &other).is_err());
    let dead = completed(
        BrowserSessionBrokerOperation::SessionInspect,
        BrowserSessionBrokerSuccess::SessionInspect { session_id: SESSION_ID.to_owned(), live: false },
    );
    assert!(inspect_session(SESSION_ID, &dead).is_err());
}

#[test]
fn type_and_screenshot_results_are_projected() {
    let typed = completed(
        BrowserSessionBrokerOperation::ElementType,
        BrowserSessionBrokerSuccess::Type { page_id: "p".to_owned(), element_id: "e".to_owned(), generation: 3, utf8_bytes: 5 },
    );
    let t = type_confirmed(&typed).expect("type result");
    assert_eq!(t.action().page_id(), "p");
    assert_eq!(t.action().element_id(), "e");
    assert_eq!(t.action().generation(), 3);
    assert_eq!(t.utf8_bytes(), 5);
    let fields = vec![
        ("pageId".to_owned(), Json::Str("p".to_owned())),
        ("navigationGeneration".to_owned(), Json::Int(4)),
        ("mimeType".to_owned(), Json::Str("image/png".to_owned())),
        ("pngBase64".to_owned(), Json::Str("iVBORw0=".to_owned())),
        ("pngBytes".to_owned(), Json::Int(6)),
        ("width".to_owned(), Json::Int(640)),
        ("height".to_owned(), Json::Int(480)),
        ("digest".to_owned(), Json::Str("sha256:00".to_owned())),
    ];
    let shot = completed(BrowserSessionBrokerOperation::PageScreenshot, BrowserSessionBrokerSuccess::Screenshot(Json::Obj(fields)));
    let s = screenshot(&shot).expect("screenshot result");
    assert_eq!((s.page_id(), s.generation(), s.mime_type(), s.png_base64()), ("p", 4, "image/png", "iVBORw0="));
    assert_eq!((s.png_bytes(), s.width(), s.height(), s.digest()), (6, 640, 480, "sha256:00"));
    let broken = completed(
        BrowserSessionBrokerOperation::PageScreenshot,
        BrowserSessionBrokerSuccess::Screenshot(Json::Obj(vec![("pageId".to_owned(), Json::Int(1))])),
    );
    let e = screenshot(&broken).err().expect("invalid screenshot");
    assert_eq!(e.message, "The browser session broker returned an invalid final result.");
}

#[test]
fn probe_ready_reports_each_failure() {
    assert_eq!(probe_ready(ProbeOutcome::Ready(BROKER_EPOCH.to_owned())).ok().as_deref(), Some(BROKER_EPOCH));
    assert_eq!(
        probe_ready(ProbeOutcome::ReadFailed).err().map(|e| e.message),
        Some("The browser session broker ready frame is unavailable.".to_owned())
    );
    assert_eq!(
        probe_ready(ProbeOutcome::Ready("short".to_owned())).err().map(|e| e.message),
        Some("The browser session broker ready frame is invalid.".to_owned())
    );
}

#[test]
fn navigation_and_click_need_their_completed_success() {
    let navigated = completed(
        BrowserSessionBrokerOperation::PageNavigate,
        BrowserSessionBrokerSuccess::Navigate { page_id: "page-1".to_owned(), generation: 4 },
    );
    let navigation = navigate_confirmed(&navigated).unwrap_or_else(|e| panic!("{}", e.message));
    assert_eq!(navigation.page_id, "page-1");
    assert_eq!(navigation.generation, 4);
    assert!(click_confirmed(&navigated).is_err());

    let clicked = completed(
        BrowserSessionBrokerOperation::ElementClick,
        BrowserSessionBrokerSuccess::Click {
            page_id: "page-1".to_owned(),
            element_id: "el-9".to_owned(),
            generation: 5,
        },
    );
    let action = click_confirmed(&clicked).unwrap_or_else(|e| panic!("{}", e.message));
    assert_eq!(action.element_id, "el-9");
    assert_eq!(action.generation, 5);

    let unanswered = response(BrowserSessionBrokerOperation::PageNavigate, 1);
    assert!(navigate_confirmed(&unanswered).is_err());
}

#[test]
fn handshake_checks_read_the_clock_deadline() {
    let now = std::time::Instant::now();
    let passed = now.checked_sub(std::time::Duration::from_secs(1)).unwrap_or(now);
    assert_eq!(
        ensure_handshake_active(&passed, false).err().map(|e| e.code),
        Some("TIMEOUT")
    );
    let later = std::time::Instant::now() + std::time::Duration::from_secs(10);
    assert!(ensure_handshake_active(&later, false).is_ok());
    assert_eq!(ensure_handshake_active(&later, true).err().map(|e| e.code), Some("CANCELLED"));
    let command = BrowserSessionExchange::SessionInspect(SESSION_ID);
    let frame = build_request_frame_for_deadline(&command, REQUEST_NONCE, BROKER_EPOCH, &later, false)
        .unwrap_or_else(|e| panic!("{}", e.message));
    assert!(frame.request.remaining_timeout_ms > 0);
    assert!(frame.request.remaining_timeout_ms <= 10_000);
    assert!(build_request_frame_for_deadline(&command, REQUEST_NONCE, BROKER_EPOCH, &passed, false).is_err());
}

#[test]
fn broker_is_started_once_and_retried_until_the_deadline() {
    let (mut sequence, first) = BrokerConnect::new();
    assert!(matches!(first, ConnectAction::TryConnect));
    assert!(matches!(sequence.step(ConnectEvent::Connected(false)), ConnectAction::CheckActive));
    assert!(matches!(sequence.step(ConnectEvent::Active(Ok(()))), ConnectAction::StartBroker));
    assert!(sequence.started);
    assert!(matches!(sequence.step(ConnectEvent::Started(Ok(()))), ConnectAction::CheckActive));
    assert!(matches!(sequence.step(ConnectEvent::Active(Ok(()))), ConnectAction::TryConnect));
    assert!(matches!(sequence.step(ConnectEvent::Connected(false)), ConnectAction::Sleep));
    assert!(matches!(sequence.step(ConnectEvent::Slept(true)), ConnectAction::CheckActive));
    assert!(matches!(sequence.step(ConnectEvent::Active(Ok(()))), ConnectAction::TryConnect));
    assert!(matches!(sequence.step(ConnectEvent::Connected(true)), ConnectAction::Authenticate));
    assert_eq!(sequence.phase, ConnectPhase::Done);

    let (mut direct, _) = BrokerConnect::new();
    assert!(matches!(direct.step(ConnectEvent::Connected(true)), ConnectAction::Authenticate));
    assert!(!direct.started);

    let (mut expiring, _) = BrokerConnect::new();
    expiring.step(ConnectEvent::Connected(false));
    expiring.step(ConnectEvent::Active(Ok(())));
    expiring.step(ConnectEvent::Started(Ok(())));
    expiring.step(ConnectEvent::Active(Ok(())));
    expiring.step(ConnectEvent::Connected(false));
    assert!(matches!(expiring.step(ConnectEvent::Slept(false)), ConnectAction::CheckActive));
    let timeout = AppControlError::new("TIMEOUT", "deadline");
    match expiring.step(ConnectEvent::Active(Err(timeout))) {
        ConnectAction::Fail(e) => assert_eq!(e.code, "TIMEOUT"),
        other => panic!("unexpected {other:?}"),
    }
}
