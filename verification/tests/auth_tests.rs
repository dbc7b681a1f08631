use webex::auth::{
    classify_auth_fault, AuthorizeResponse, DeviceAuthenticator, Error as AuthError, PollStep,
    Poller, VerificationToken,
};
use webex::error::Error;

fn sample_token(interval: u64) -> VerificationToken {
    VerificationToken {
        code: "dc-1".to_string(),
        verification_uri: "https://login.example.com/activate".to_string(),
        verification_uri_complete: "https://login.example.com/activate?user_code=X".to_string(),
        polling_interval: interval,
    }
}

#[test]
fn pending_polls_then_success_returns_final_token() {
    let t = sample_token(5);
    let mut p = Poller::new(&t);
    assert_eq!(p.next_poll_delay(), 5);
    for n in 0..3u64 {
        let step = p.on_response(428, b"");
        assert!(matches!(step, PollStep::Pending));
        assert!(!p.finished);
        assert_eq!(p.polls_made, n + 1);
        assert_eq!(p.next_poll_delay(), 6);
    }
    let step = p.on_response(200, br#"{"access_token":"bearer-abc"}"#);
    match step {
        PollStep::Authorized(tok) => assert_eq!(tok, "bearer-abc"),
        other => panic!("expected success, got {:?}", other),
    }
    assert!(p.finished);
    assert_eq!(p.polls_made, 4);
}

#[test]
fn poll_delays_keep_the_safety_margin() {
    let t = sample_token(30);
    let mut p = Poller::new(&t);
    assert_eq!(p.next_poll_delay(), 30);
    p.on_response(428, b"");
    assert_eq!(p.next_poll_delay(), 31);
    p.on_response(428, b"");
    assert_eq!(p.next_poll_delay(), 31);
}

#[test]
fn bad_status_fails_immediately_without_a_second_poll() {
    let t = sample_token(5);
    let mut p = Poller::new(&t);
    let step = p.on_response(400, b"");
    match step {
        PollStep::Failed(Error::HttpStatus(code, body)) => {
            assert_eq!(code, 400);
            assert!(body.is_none());
        },
        other => panic!("expected an HTTP failure, got {:?}", other),
    }
    assert!(p.finished);
    assert_eq!(p.polls_made, 1);
}

#[test]
fn success_with_undecodable_body_is_a_parsing_failure() {
    let t = sample_token(5);
    let mut p = Poller::new(&t);
    let step = p.on_response(200, b"not json");
    assert!(matches!(step, PollStep::Failed(Error::JsonParsingError(_))));
    assert!(p.finished);
}

#[test]
fn authenticator_keeps_the_injected_identity() {
    let a = DeviceAuthenticator::new("client-1", "SECRET-REDACTED");
    assert_eq!(a.client_id, "client-1");
    assert_eq!(a.client_secret, "SECRET-REDACTED");
}

#[test]
fn authorize_form_carries_id_and_scope() {
    let a = DeviceAuthenticator::new("client-1", "s");
    let ps = a.authorize_form();
    assert_eq!(ps.len(), 2);
    assert_eq!(ps[0], ("client_id".to_string(), "client-1".to_string()));
    assert_eq!(ps[1], ("scope".to_string(), "spark:all".to_string()));
}

#[test]
fn token_form_carries_grant_code_and_id() {
    let a = DeviceAuthenticator::new("client-1", "s");
    let t = sample_token(5);
    let ps = a.token_form(&t);
    assert_eq!(ps.len(), 3);
    assert_eq!(
        ps[0],
        (
            "grant_type".to_string(),
            "urn:ietf:params:oauth:grant-type:device_code".to_string()
        )
    );
    assert_eq!(ps[1], ("device_code".to_string(), "dc-1".to_string()));
    assert_eq!(ps[2], ("client_id".to_string(), "client-1".to_string()));
}

#[test]
fn verification_token_keeps_the_authorize_fields() {
    let a = AuthorizeResponse {
        device_code: "dc-9".to_string(),
        expires_in: 300,
        user_code: "ABCD".to_string(),
        verification_uri: "https://login.example.com/activate".to_string(),
        verification_uri_complete: "https://login.example.com/activate?user_code=ABCD"
            .to_string(),
        interval: 7,
    };
    let t = VerificationToken::from_authorize_response(&a);
    assert_eq!(t.code, "dc-9");
    assert_eq!(t.verification_uri, "https://login.example.com/activate");
    assert_eq!(
        t.verification_uri_complete,
        "https://login.example.com/activate?user_code=ABCD"
    );
    assert_eq!(t.polling_interval, 7);
}

#[test]
fn auth_faults_classify_by_kind() {
    assert!(matches!(classify_auth_fault(true, false), AuthError::HttpRequestError));
    assert!(matches!(classify_auth_fault(true, true), AuthError::HttpRequestError));
    assert!(matches!(classify_auth_fault(false, true), AuthError::ParsingError));
    assert!(matches!(classify_auth_fault(false, false), AuthError::GenericError));
}
