use github_webhook::{
    dispatch, response_status, Action, EventKind, GithubWebhook, Payload, PayloadError, Rejection,
    SignatureError,
};
use github_webhook::envelope::dispatch_envelope;
use hmac::Mac;

fn sign(secret: &str, body: &[u8]) -> String {
    let mut mac = <hmac::Hmac<sha2::Sha256> as Mac>::new_from_slice(secret.as_bytes()).unwrap();
    mac.update(body);
    format!("sha256={}", hex::encode(mac.finalize().into_bytes()))
}

fn issue_comment_body(action: &str) -> String {
    let mut body = format!(r#"{{"action":"{}","sender":{{"login":"octocat","id":1}},"#, action);
    body.push_str(r#""issue":{"number":42,"title":"Bug"},"comment":{"id":7,"body":"hi"},"#);
    body.push_str(r#""repository":{"full_name":"octo/hello","private":false}}"#);
    body
}

fn push_body() -> String {
    let mut body = String::from(r#"{"ref":"refs/heads/main","before":"aaa","after":"bbb","#);
    body.push_str(r#""created":false,"deleted":false,"forced":true,"#);
    body.push_str(r#""compare":"https://example.com/compare/aaa...bbb","commits":[]}"#);
    body
}

#[test]
fn signed_ping_is_ok() {
    let hook = GithubWebhook::new("foo");
    let body = b"not even json";
    let r = hook.handle(Some(&sign("foo", body)), Some("ping"), body);
    assert!(matches!(r, Ok(Payload::Ping)));
    assert_eq!(response_status(&r), 200);
}

#[test]
fn unsigned_request_is_bad_request() {
    let hook = GithubWebhook::new("foo");
    for body in [&b""[..], b"{}", br#"{"zen":"x"}"#] {
        let r = hook.handle(None, Some("ping"), body);
        assert!(matches!(r, Err(Rejection::Signature(SignatureError::Missing))));
        assert_eq!(response_status(&r), 400);
    }
}

#[test]
fn unprefixed_and_bad_hex_signatures_are_bad_request() {
    let hook = GithubWebhook::new("foo");
    let r = hook.handle(Some("deadbeef"), Some("ping"), b"{}");
    assert!(matches!(r, Err(Rejection::Signature(SignatureError::BadFormat))));
    assert_eq!(response_status(&r), 400);
    let r = hook.handle(Some("sha256=nothex"), Some("ping"), b"{}");
    assert!(matches!(r, Err(Rejection::Signature(SignatureError::BadHex))));
    assert_eq!(response_status(&r), 400);
}

#[test]
fn signed_issue_comment_carries_its_action() {
    let hook = GithubWebhook::new("foo");
    let cases = [
        ("created", Action::Created),
        ("edited", Action::Edited),
        ("deleted", Action::Deleted),
        ("opened", Action::Opened),
        ("closed", Action::Closed),
        ("reopened", Action::Reopened),
        ("synchronized", Action::Synchronized),
    ];
    for (name, action) in cases {
        let body = issue_comment_body(name);
        let r = hook.handle(Some(&sign("foo", body.as_bytes())), Some("issue_comment"), body.as_bytes());
        assert_eq!(response_status(&r), 200);
        match r {
            Ok(Payload::IssueComment(c)) => {
                assert_eq!(c.action, action);
                assert_eq!(c.sender, "octocat");
                assert_eq!(c.issue, 42);
                assert_eq!(c.comment, 7);
                assert_eq!(c.repository, "octo/hello");
            }
            other => panic!("unexpected {:?}", other),
        }
    }
}

#[test]
fn unknown_action_is_bad_request() {
    let hook = GithubWebhook::new("foo");
    let body = issue_comment_body("pinned");
    let r = hook.handle(Some(&sign("foo", body.as_bytes())), Some("issue_comment"), body.as_bytes());
    assert!(matches!(r, Err(Rejection::Event(PayloadError::InvalidBody))));
    assert_eq!(response_status(&r), 400);
}

#[test]
fn misshapen_body_is_bad_request() {
    let hook = GithubWebhook::new("foo");
    for body in [&b"{}"[..], b"[1,2]", b"not json", br#"{"action":"created"}"#] {
        for kind in ["issue_comment", "issues", "pull_request", "push"] {
            let r = hook.handle(Some(&sign("foo", body)), Some(kind), body);
            assert!(matches!(r, Err(Rejection::Event(PayloadError::InvalidBody))));
            assert_eq!(response_status(&r), 400);
        }
    }
}

#[test]
fn wrongly_typed_field_is_bad_request() {
    let body = issue_comment_body("created").replace("\"number\":42", "\"number\":\"42\"");
    let r = Payload::from(&body, "issue_comment");
    assert!(matches!(r, Err(PayloadError::InvalidBody)));
}

#[test]
fn unrecognized_event_type_is_bad_request() {
    let hook = GithubWebhook::new("foo");
    let body = b"{}";
    let r = hook.handle(Some(&sign("foo", body)), Some("repository"), body);
    match &r {
        Err(Rejection::Event(PayloadError::UnhandledEventType(t))) => assert_eq!(t, "repository"),
        other => panic!("unexpected {:?}", other),
    }
    assert_eq!(response_status(&r), 400);
}

#[test]
fn missing_event_type_is_bad_request() {
    let hook = GithubWebhook::new("foo");
    let body = b"{}";
    let r = hook.handle(Some(&sign("foo", body)), None, body);
    assert!(matches!(r, Err(Rejection::Event(PayloadError::MissingEventType))));
    assert_eq!(response_status(&r), 400);
}

#[test]
fn signed_body_that_is_not_utf8_is_bad_request() {
    let hook = GithubWebhook::new("foo");
    let body = [0xffu8, 0xfe];
    let r = hook.handle(Some(&sign("foo", &body)), Some("ping"), &body);
    assert!(matches!(r, Err(Rejection::NotUtf8)));
    assert_eq!(response_status(&r), 400);
}

#[test]
fn dispatch_decodes_push() {
    match dispatch(Some("push"), &push_body()) {
        Ok(Payload::Push(p)) => {
            assert_eq!(p.git_ref, "refs/heads/main");
            assert_eq!(p.before, "aaa");
            assert_eq!(p.after, "bbb");
            assert!(!p.created);
            assert!(!p.deleted);
            assert!(p.forced);
            assert_eq!(p.compare, "https://example.com/compare/aaa...bbb");
        }
        other => panic!("unexpected {:?}", other),
    }
}

#[test]
fn dispatch_decodes_issues_and_pull_requests() {
    let issue = r#"{"action":"opened","sender":{"login":"a"},"issue":{"number":3},"repository":{"full_name":"o/r"}}"#;
    match dispatch(Some("issues"), issue) {
        Ok(Payload::Issue(p)) => {
            assert_eq!(p.action, Action::Opened);
            assert_eq!(p.sender, "a");
            assert_eq!(p.issue, 3);
            assert_eq!(p.repository, "o/r");
        }
        other => panic!("unexpected {:?}", other),
    }
    let pr = r#"{"action":"closed","number":9,"sender":{"login":"b"},"pull_request":{"number":9},"repository":{"full_name":"o/r"}}"#;
    match dispatch(Some("pull_request"), pr) {
        Ok(Payload::PullRequest(p)) => {
            assert_eq!(p.action, Action::Closed);
            assert_eq!(p.sender, "b");
            assert_eq!(p.pull_request, 9);
            assert_eq!(p.repository, "o/r");
        }
        other => panic!("unexpected {:?}", other),
    }
    assert!(matches!(dispatch(Some("issues"), pr), Err(PayloadError::InvalidBody)));
}

#[test]
fn payload_from_ping_needs_no_fields() {
    assert!(matches!(Payload::from("", "ping"), Ok(Payload::Ping)));
    assert!(matches!(Payload::from("garbage", "ping"), Ok(Payload::Ping)));
}

#[test]
fn payload_from_unhandled_type_names_it() {
    match Payload::from("{}", "star") {
        Err(PayloadError::UnhandledEventType(t)) => assert_eq!(t, "star"),
        other => panic!("unexpected {:?}", other),
    }
    assert!(matches!(dispatch(None, "{}"), Err(PayloadError::MissingEventType)));
}

#[test]
fn names_are_lower_case_and_exact() {
    assert_eq!(Action::from_name("created"), Some(Action::Created));
    assert_eq!(Action::from_name("synchronized"), Some(Action::Synchronized));
    assert_eq!(Action::from_name("Created"), None);
    assert_eq!(Action::from_name("synchronize"), None);
    assert_eq!(EventKind::from_name("issue_comment"), Some(EventKind::IssueComment));
    assert_eq!(EventKind::from_name("issues"), Some(EventKind::Issues));
    assert_eq!(EventKind::from_name("Ping"), None);
    assert_eq!(EventKind::from_name("repository"), None);
}

#[test]
fn escaped_strings_are_decoded() {
    let body = r#"{"action":"created","sender":{"login":"a\"b"},"issue":{"number":1},"comment":{"id":2},"repository":{"full_name":"o/r"}}"#;
    match Payload::from(body, "issue_comment") {
        Ok(Payload::IssueComment(c)) => {
            assert_eq!(c.action, Action::Created);
            assert_eq!(c.sender, "a\"b");
        }
        other => panic!("unexpected {:?}", other),
    }
}

#[test]
fn envelope_decodes_signed_ping() {
    match dispatch_envelope(Some("ping"), r#"{"zen":"Design for failure.","hook_id":1}"#) {
        Ok((kind, _)) => assert_eq!(kind, EventKind::Ping),
        Err(e) => panic!("unexpected {:?}", e),
    }
}

#[test]
fn envelope_refuses_unknown_type_by_name() {
    match dispatch_envelope(Some("made_up_event"), "{}") {
        Err(PayloadError::UnhandledEventType(t)) => assert_eq!(t, "made_up_event"),
        other => panic!("unexpected {:?}", other.map(|(k, _)| k)),
    }
}

#[test]
fn envelope_refuses_bad_body_and_missing_header() {
    assert!(matches!(dispatch_envelope(Some("ping"), "not json"), Err(PayloadError::InvalidBody)));
    assert!(matches!(dispatch_envelope(Some("issue_comment"), "{}"), Err(PayloadError::InvalidBody)));
    assert!(matches!(dispatch_envelope(None, "{}"), Err(PayloadError::MissingEventType)));
}
