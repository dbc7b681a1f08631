use webex::api::{
    connect_request, find_device, handle_frame, resolve_from_list, stream_ended_error,
    websocket_target, DeviceResolution, Frame, Step,
};
use webex::dto::{client_descriptor, client_device_name, Device, Devices};
use webex::error::{classify_request_fault, classify_socket_fault, classify_status, Error};

fn bare_device(name: &str, socket: Option<&str>) -> Device {
    let mut d = client_descriptor();
    d.name = Some(name.to_string());
    d.websocket_url = socket.map(|s| s.to_string());
    d
}

#[test]
fn ping_is_answered_with_identical_payload() {
    let payload = vec![0u8, 1, 2, 250, 255];
    match handle_frame(Frame::Ping(payload.clone())) {
        Step::ReplyPong(q) => assert_eq!(q, payload),
        other => panic!("expected a pong, got {:?}", other),
    }
}

#[test]
fn binary_frame_delivers_a_decoded_event() {
    let bytes = br#"{"id":"e1","data":{"eventType":"zz.unheard_of"}}"#.to_vec();
    match handle_frame(Frame::Binary(bytes)) {
        Step::Deliver(e) => assert_eq!(e.id.as_deref(), Some("e1")),
        other => panic!("expected a delivery, got {:?}", other),
    }
}

#[test]
fn undecodable_binary_frame_rejects_that_pull_only() {
    match handle_frame(Frame::Binary(b"garbage".to_vec())) {
        Step::Reject(Error::JsonParsingError(_)) => {},
        other => panic!("expected a decode rejection, got {:?}", other),
    }
}

#[test]
fn other_frames_are_ignored() {
    assert!(matches!(handle_frame(Frame::Other), Step::Ignore));
}

#[test]
fn stream_end_is_a_websocket_error_not_a_decode_error() {
    match stream_ended_error() {
        Error::WebsocketError(m) => assert_eq!(m, "failed to read event from stream"),
        other => panic!("expected a websocket error, got {:?}", other),
    }
}

#[test]
fn unmatched_listing_asks_for_registration_then_socket_url_is_used_verbatim() {
    let listing = Devices { devices: vec![bare_device("someone-else", Some("wss://a/b"))] };
    let name = client_device_name();
    match resolve_from_list(&listing, &name) {
        DeviceResolution::Register => {},
        other => panic!("expected a registration request, got {:?}", other),
    }
    let registered = bare_device(&name, Some("wss://mercury.example.com/v1/socket?x=1"));
    let target = websocket_target(&registered).unwrap();
    assert_eq!(target, "wss://mercury.example.com/v1/socket?x=1");
}

#[test]
fn matching_device_is_reused_for_connection() {
    let listing = Devices {
        devices: vec![
            bare_device("other", Some("wss://other/sock")),
            bare_device("mine", Some("wss://mine/sock")),
        ],
    };
    match resolve_from_list(&listing, "mine") {
        DeviceResolution::Connect(u) => assert_eq!(u, "wss://mine/sock"),
        other => panic!("expected a connection, got {:?}", other),
    }
}

#[test]
fn matching_device_without_socket_url_is_a_configuration_error() {
    let listing = Devices { devices: vec![bare_device("mine", None)] };
    match resolve_from_list(&listing, "mine") {
        DeviceResolution::Fail(Error::GenericError(m)) => {
            assert_eq!(m, "device has no Websocket URL");
        },
        other => panic!("expected a configuration failure, got {:?}", other),
    }
}

#[test]
fn find_device_picks_the_first_match() {
    let listing = Devices {
        devices: vec![
            bare_device("a", None),
            bare_device("b", Some("wss://1")),
            bare_device("b", Some("wss://2")),
        ],
    };
    assert_eq!(find_device(&listing, "b"), Some(1));
    assert_eq!(find_device(&listing, "zzz"), None);
}

#[test]
fn connect_request_builds_the_upgrade_headers() {
    let c = connect_request("wss://mercury.example.com/v1/socket", "tok-123").unwrap();
    assert_eq!(c.url, "wss://mercury.example.com/v1/socket");
    assert_eq!(c.headers.len(), 6);
    assert_eq!(c.headers[0].0, "Authorization");
    assert_eq!(c.headers[0].1, "Bearer tok-123");
    assert_eq!(c.headers[1].0, "Sec-Websocket-Key");
    assert_eq!(c.headers[1].1.len(), 24);
    assert_eq!(c.headers[2], ("Sec-Websocket-Version".to_string(), "13".to_string()));
    assert_eq!(c.headers[3], ("Connection".to_string(), "Upgrade".to_string()));
    assert_eq!(c.headers[4], ("Host".to_string(), "mercury.example.com".to_string()));
    assert_eq!(c.headers[5], ("Upgrade".to_string(), "websocket".to_string()));
}

#[test]
fn connect_request_rejects_a_url_without_host() {
    match connect_request("unix:/run/socket", "tok") {
        Err(Error::GenericError(m)) => {
            assert_eq!(m, "unable to obtain host from URL unix:/run/socket");
        },
        other => panic!("expected a configuration failure, got {:?}", other),
    }
}

#[test]
fn connect_request_rejects_a_non_url() {
    match connect_request("::not a url::", "tok") {
        Err(Error::GenericError(m)) => assert_eq!(m, "parsing URL ::not a url::"),
        other => panic!("expected a configuration failure, got {:?}", other),
    }
}

#[test]
fn request_faults_classify_by_feature() {
    match classify_request_fault(Some(503), false, "ignored".to_string()) {
        Error::HttpStatus(code, body) => {
            assert_eq!(code, 503);
            assert!(body.is_none());
        },
        other => panic!("expected a status error, got {:?}", other),
    }
    match classify_request_fault(None, true, "bad body".to_string()) {
        Error::JsonParsingError(m) => assert_eq!(m, "bad body"),
        other => panic!("expected a parsing error, got {:?}", other),
    }
    match classify_request_fault(None, false, "timed out".to_string()) {
        Error::GenericError(m) => assert_eq!(m, "timed out"),
        other => panic!("expected a generic error, got {:?}", other),
    }
}

#[test]
fn socket_faults_classify_by_feature() {
    match classify_socket_fault(true, Some("denied".to_string()), "x".to_string()) {
        Error::GenericError(m) => assert_eq!(m, "denied"),
        other => panic!("expected a generic error, got {:?}", other),
    }
    match classify_socket_fault(true, None, "HTTP error from websocket: 401".to_string()) {
        Error::GenericError(m) => assert_eq!(m, "HTTP error from websocket: 401"),
        other => panic!("expected a generic error, got {:?}", other),
    }
    match classify_socket_fault(false, None, "connection reset".to_string()) {
        Error::WebsocketError(m) => assert_eq!(m, "connection reset"),
        other => panic!("expected a websocket error, got {:?}", other),
    }
}

#[test]
fn statuses_outside_2xx_are_reported_with_their_code() {
    assert!(classify_status(200).is_none());
    assert!(classify_status(299).is_none());
    match classify_status(404) {
        Some(Error::HttpStatus(code, body)) => {
            assert_eq!(code, 404);
            assert!(body.is_none());
        },
        other => panic!("expected a status error, got {:?}", other),
    }
    assert!(classify_status(300).is_some());
    assert!(classify_status(199).is_some());
}
