use sglib::part::ArmVariant;
use sglib::upload::RetryPolicy;
use sglib::upload::ServiceReply;
use sglib::upload::TextureHandle;
use sglib::upload::UploadAction;
use sglib::upload::UploadEvent;
use sglib::upload::UploadPhase;
use sglib::upload::UploadRequest;
use sglib::upload::UploadResult;
use sglib::upload::UploadSession;
use sglib::upload::NAME_LENGTH;

fn policy(max_attempts: u32) -> RetryPolicy {
    RetryPolicy { max_attempts, transport_delay_ms: 37, processing_delay_ms: 150, deadline_ms: 60_000 }
}

fn texture(signature: &str, value: &str) -> ServiceReply {
    ServiceReply { signature: Some(signature.to_string()), value: Some(value.to_string()) }
}

fn no_texture() -> ServiceReply {
    ServiceReply { signature: None, value: None }
}

fn sent(action: UploadAction) -> UploadRequest {
    match action {
        UploadAction::Send(request) => request,
        other => panic!("a request was to be sent, not {:?}", other),
    }
}

fn finished(action: UploadAction) -> UploadResult {
    match action {
        UploadAction::Finish(result) => result,
        other => panic!("the upload was to end, not {:?}", other),
    }
}

fn pair(result: UploadResult) -> (String, String) {
    result.into_pair()
}

#[test]
fn standard_policy_has_the_two_delays() {
    let p = RetryPolicy::standard();
    assert_eq!(p.max_attempts, 8);
    assert_eq!(p.transport_delay_ms, 37);
    assert_eq!(p.processing_delay_ms, 150);
    assert_eq!(p.deadline_ms, 60_000);
    assert!(p.transport_delay_ms < p.processing_delay_ms);
}

#[test]
fn new_session_is_ready_and_has_sent_nothing() {
    let s = UploadSession::new(policy(3), ArmVariant::Slim);
    assert_eq!(s.phase, UploadPhase::Ready);
    assert_eq!(s.attempts, 0);
    assert_eq!(s.variant, ArmVariant::Slim);
    assert_eq!(s.policy, policy(3));
    assert!(!s.is_over());
}

#[test]
fn begin_sends_the_first_request_at_once() {
    let s = UploadSession::new(policy(3), ArmVariant::Classic);
    let (s, action) = s.step_named(UploadEvent::Begin, 0, "abcdefgh12345678".to_string());
    assert_eq!(s.phase, UploadPhase::Sending);
    assert_eq!(s.attempts, 1);
    let request = sent(action);
    assert_eq!(request.delay_ms, 0);
    assert_eq!(request.variant, ArmVariant::Classic);
    assert_eq!(request.name, "abcdefgh12345678");
}

#[test]
fn two_transport_failures_one_mismatch_then_a_texture() {
    let mut requests: Vec<UploadRequest> = Vec::new();
    let mut results: Vec<UploadResult> = Vec::new();
    let s = UploadSession::new(RetryPolicy::standard(), ArmVariant::Slim);

    let (s, action) = s.step(UploadEvent::Begin, 0);
    requests.push(sent(action));
    let (s, action) = s.step(UploadEvent::TransportFailure, 5);
    requests.push(sent(action));
    let (s, action) = s.step(UploadEvent::TransportFailure, 50);
    requests.push(sent(action));
    assert_eq!(s.phase, UploadPhase::Sending);

    let (s, action) = s.step(UploadEvent::ResponseReceived, 100);
    assert!(matches!(action, UploadAction::Parse));
    assert_eq!(s.phase, UploadPhase::AwaitingParse);
    let (s, action) = s.step(UploadEvent::Parsed(no_texture()), 110);
    requests.push(sent(action));
    assert_eq!(s.phase, UploadPhase::Sending);

    let (s, action) = s.step(UploadEvent::ResponseReceived, 300);
    assert!(matches!(action, UploadAction::Parse));
    let (s, action) = s.step(UploadEvent::Parsed(texture("sig", "val")), 310);
    results.push(finished(action));
    assert_eq!(s.phase, UploadPhase::Succeeded);
    assert!(s.is_over());

    // Exactly four requests, and as many counted.
    assert_eq!(requests.len(), 4);
    assert_eq!(s.attempts, 4);
    // Each under a name of its own.
    for i in 0..4 {
        for j in i + 1..4 {
            assert_ne!(requests[i].name, requests[j].name);
        }
    }
    // The short delay after a transport failure, the long one after a mismatch.
    let delays: Vec<u64> = requests.iter().map(|r| r.delay_ms).collect();
    assert_eq!(delays, vec![0, 37, 37, 150]);
    for r in &requests {
        assert_eq!(r.variant, ArmVariant::Slim);
    }
    // The handle is returned once, and nothing after it.
    assert_eq!(results.len(), 1);
    assert_eq!(pair(results.pop().unwrap()), ("sig".to_string(), "val".to_string()));
    let (s, action) = s.step(UploadEvent::Parsed(texture("sig", "val")), 320);
    assert!(matches!(action, UploadAction::Nothing));
    assert_eq!(s.phase, UploadPhase::Succeeded);
    assert_eq!(s.attempts, 4);
}

#[test]
fn names_are_sixteen_letters_and_digits() {
    assert_eq!(NAME_LENGTH, 16);
    for _ in 0..50 {
        let s = UploadSession::new(policy(1), ArmVariant::Classic);
        let (_, action) = s.step(UploadEvent::Begin, 0);
        let name = sent(action).name;
        assert_eq!(name.chars().count(), 16);
        assert_eq!(name.len(), 16);
        assert!(name.chars().all(|c| c.is_ascii_alphanumeric()), "{}", name);
    }
}

#[test]
fn a_reply_needs_both_texts() {
    for reply in [
        ServiceReply { signature: Some("sig".to_string()), value: None },
        ServiceReply { signature: None, value: Some("val".to_string()) },
        no_texture(),
    ] {
        assert!(reply.into_handle().is_none());
    }
    let handle = texture("sig", "val").into_handle().unwrap();
    assert_eq!(handle.signature, "sig");
    assert_eq!(handle.value, "val");
    let empty = texture("", "").into_handle().unwrap();
    assert_eq!(empty.signature, "");
}

#[test]
fn a_reply_with_one_text_is_a_mismatch() {
    let s = UploadSession { policy: policy(5), variant: ArmVariant::Classic, phase: UploadPhase::AwaitingParse, attempts: 1 };
    let reply = ServiceReply { signature: Some("sig".to_string()), value: None };
    let (s, action) = s.step_named(UploadEvent::Parsed(reply), 10, "n".to_string());
    assert_eq!(s.phase, UploadPhase::Sending);
    assert_eq!(s.attempts, 2);
    let request = sent(action);
    assert_eq!(request.delay_ms, 150);
    assert_eq!(request.name, "n");
}

#[test]
fn transport_failures_end_at_the_cap() {
    let mut s = UploadSession::new(policy(3), ArmVariant::Classic);
    let mut requests = 0;
    let mut action = s.step(UploadEvent::Begin, 0);
    loop {
        s = action.0;
        match action.1 {
            UploadAction::Send(_) => {
                requests += 1;
                action = s.step(UploadEvent::TransportFailure, 1);
            }
            UploadAction::Finish(result) => {
                assert!(matches!(result, UploadResult::Failed));
                break;
            }
            other => panic!("{:?}", other),
        }
    }
    assert_eq!(requests, 3);
    assert_eq!(s.attempts, 3);
    assert_eq!(s.phase, UploadPhase::Exhausted);
    assert!(s.is_over());
}

#[test]
fn mismatches_end_at_the_cap() {
    let mut s = UploadSession::new(policy(2), ArmVariant::Slim);
    let mut requests = 0;
    let mut events = 1;
    let mut action = s.step(UploadEvent::Begin, 0);
    loop {
        s = action.0;
        match action.1 {
            UploadAction::Send(_) => {
                requests += 1;
                action = s.step(UploadEvent::ResponseReceived, 1);
            }
            UploadAction::Parse => action = s.step(UploadEvent::Parsed(no_texture()), 2),
            UploadAction::Finish(result) => {
                assert!(matches!(result, UploadResult::Failed));
                break;
            }
            UploadAction::Nothing => panic!("every event was awaited"),
        }
        events += 1;
    }
    assert_eq!(requests, 2);
    assert_eq!(s.phase, UploadPhase::Exhausted);
    assert!(events <= 2 * 2 + 3);
}

#[test]
fn no_request_is_sent_with_no_attempt_allowed() {
    let s = UploadSession::new(policy(0), ArmVariant::Classic);
    let (s, action) = s.step(UploadEvent::Begin, 0);
    assert!(matches!(finished(action), UploadResult::Failed));
    assert_eq!(s.phase, UploadPhase::Exhausted);
    assert_eq!(s.attempts, 0);
}

#[test]
fn no_request_is_sent_after_the_deadline() {
    let s = UploadSession::new(policy(10), ArmVariant::Classic);
    let (s, action) = s.step(UploadEvent::Begin, 0);
    sent(action);
    let (s, action) = s.step(UploadEvent::TransportFailure, 59_999);
    sent(action);
    let (s, action) = s.step(UploadEvent::TransportFailure, 60_000);
    assert!(matches!(finished(action), UploadResult::Failed));
    assert_eq!(s.phase, UploadPhase::Exhausted);
    assert_eq!(s.attempts, 2);
}

#[test]
fn a_texture_that_comes_late_is_still_taken() {
    let s = UploadSession { policy: policy(1), variant: ArmVariant::Classic, phase: UploadPhase::AwaitingParse, attempts: 1 };
    let (s, action) = s.step(UploadEvent::Parsed(texture("s", "v")), 1_000_000);
    assert_eq!(s.phase, UploadPhase::Succeeded);
    assert_eq!(pair(finished(action)), ("s".to_string(), "v".to_string()));
}

#[test]
fn events_out_of_turn_change_nothing() {
    let ready = UploadSession::new(policy(3), ArmVariant::Classic);
    let sending = UploadSession { phase: UploadPhase::Sending, attempts: 1, ..ready };
    let parsing = UploadSession { phase: UploadPhase::AwaitingParse, attempts: 1, ..ready };
    let done = UploadSession { phase: UploadPhase::Succeeded, attempts: 1, ..ready };
    let spent = UploadSession { phase: UploadPhase::Exhausted, attempts: 3, ..ready };

    let cases = vec![
        (ready, UploadEvent::TransportFailure),
        (ready, UploadEvent::ResponseReceived),
        (ready, UploadEvent::Parsed(texture("s", "v"))),
        (sending, UploadEvent::Begin),
        (sending, UploadEvent::Parsed(texture("s", "v"))),
        (parsing, UploadEvent::Begin),
        (parsing, UploadEvent::TransportFailure),
        (parsing, UploadEvent::ResponseReceived),
        (done, UploadEvent::Begin),
        (done, UploadEvent::TransportFailure),
        (done, UploadEvent::ResponseReceived),
        (done, UploadEvent::Parsed(no_texture())),
        (spent, UploadEvent::Begin),
        (spent, UploadEvent::TransportFailure),
        (spent, UploadEvent::ResponseReceived),
        (spent, UploadEvent::Parsed(texture("s", "v"))),
        (done, UploadEvent::Cancel),
        (spent, UploadEvent::Cancel),
    ];
    for (session, event) in cases {
        let (after, action) = session.step(event, 0);
        assert_eq!(after, session);
        assert!(matches!(action, UploadAction::Nothing));
    }
}

#[test]
fn text_fields_of_a_request() {
    let request = UploadRequest { delay_ms: 0, variant: ArmVariant::Slim, name: "Ab3".to_string() };
    assert_eq!(
        request.text_fields(),
        vec![
            ("variant", "slim".to_string()),
            ("name", "Ab3".to_string()),
            ("visibility", "1".to_string()),
        ]
    );
    let request = UploadRequest { delay_ms: 9, variant: ArmVariant::Classic, name: String::new() };
    assert_eq!(request.text_fields()[0], ("variant", "classic".to_string()));
    assert_eq!(UploadRequest::file_field(), "file");
    assert_eq!(UploadRequest::file_name(), "joebama_skin.png");
    assert_eq!(UploadRequest::media_type(), "image/png");
}

#[test]
fn a_failure_stands_as_two_empty_strings() {
    assert_eq!(pair(UploadResult::Failed), (String::new(), String::new()));
    let handle = TextureHandle { signature: "a".to_string(), value: "b".to_string() };
    assert_eq!(pair(UploadResult::Handle(handle)), ("a".to_string(), "b".to_string()));
}

#[test]
fn cancel_ends_a_live_upload() {
    let ready = UploadSession::new(policy(3), ArmVariant::Classic);
    let sending = UploadSession { phase: UploadPhase::Sending, attempts: 1, ..ready };
    let parsing = UploadSession { phase: UploadPhase::AwaitingParse, attempts: 2, ..ready };
    for session in [ready, sending, parsing] {
        let (after, action) = session.step(UploadEvent::Cancel, 3);
        assert_eq!(after.phase, UploadPhase::Exhausted);
        assert_eq!(after.attempts, session.attempts);
        assert!(after.is_over());
        assert!(matches!(finished(action), UploadResult::Failed));
    }
}

#[test]
fn will_send_tells_when_a_request_follows() {
    let ready = UploadSession::new(policy(2), ArmVariant::Classic);
    let sending = UploadSession { phase: UploadPhase::Sending, attempts: 1, ..ready };
    let parsing = UploadSession { phase: UploadPhase::AwaitingParse, attempts: 1, ..ready };
    let last = UploadSession { phase: UploadPhase::Sending, attempts: 2, ..ready };
    assert!(ready.will_send(&UploadEvent::Begin, 0));
    assert!(sending.will_send(&UploadEvent::TransportFailure, 0));
    assert!(parsing.will_send(&UploadEvent::Parsed(no_texture()), 0));
    assert!(parsing.will_send(
        &UploadEvent::Parsed(ServiceReply { signature: Some("s".to_string()), value: None }),
        0
    ));
    assert!(!parsing.will_send(&UploadEvent::Parsed(texture("s", "v")), 0));
    assert!(!sending.will_send(&UploadEvent::ResponseReceived, 0));
    assert!(!sending.will_send(&UploadEvent::Cancel, 0));
    assert!(!sending.will_send(&UploadEvent::TransportFailure, 60_000));
    assert!(!last.will_send(&UploadEvent::TransportFailure, 0));
    assert!(!ready.will_send(&UploadEvent::TransportFailure, 0));
    for (session, event) in [
        (ready, UploadEvent::Begin),
        (sending, UploadEvent::ResponseReceived),
        (last, UploadEvent::TransportFailure),
        (parsing, UploadEvent::Parsed(no_texture())),
    ] {
        let told = session.will_send(&event, 1);
        let (_, action) = session.step(event, 1);
        assert_eq!(told, matches!(action, UploadAction::Send(_)));
    }
}
