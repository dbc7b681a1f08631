use webex::auth::{decode_access_token, decode_authorize_response};
use webex::dto::{client_descriptor, Data};
use webex::error::Error;
use webex::wire::{
    decode_device, decode_devices, decode_event, decode_person, decode_webex_error,
    registration_body,
};

#[test]
fn unknown_event_type_decodes_to_unknown_variant() {
    let bytes = br#"{"id":"e1","data":{"eventType":"something.brand_new","extra":42}}"#;
    let e = decode_event(bytes).expect("unrecognized event types must decode");
    assert!(matches!(e.data, Some(Data::UnkownData)));
    assert_eq!(e.id.as_deref(), Some("e1"));
}

#[test]
fn subscription_update_decodes_every_field() {
    let bytes = br#"{
        "id": "evt-7",
        "data": {"eventType": "apheleia.subscription_update",
                 "subject": "user@example.com", "category": "presence", "status": "active"},
        "filterMessage": false,
        "sequenceNumber": 17,
        "timestamp": 1700000000123,
        "trackingId": "tr-9"
    }"#;
    let e = decode_event(bytes).unwrap();
    match e.data {
        Some(Data::SubscriptionUpdate { subject, category, status }) => {
            assert_eq!(subject.as_deref(), Some("user@example.com"));
            assert_eq!(category.as_deref(), Some("presence"));
            assert_eq!(status.as_deref(), Some("active"));
        },
        other => panic!("wrong variant: {:?}", other),
    }
    assert_eq!(e.id.as_deref(), Some("evt-7"));
    assert_eq!(e.filter_message, Some(false));
    assert_eq!(e.sequence_number, Some(17));
    assert_eq!(e.timestamp, Some(1700000000123));
    assert_eq!(e.tracking_id.as_deref(), Some("tr-9"));
}

#[test]
fn conversation_activity_decodes_activity_id() {
    let bytes = br#"{"data":{"eventType":"conversation.activity","activity":{"id":"act-3"}}}"#;
    let e = decode_event(bytes).unwrap();
    match e.data {
        Some(Data::ConversationActivity { activity }) => assert_eq!(activity.id, "act-3"),
        other => panic!("wrong variant: {:?}", other),
    }
}

#[test]
fn subscription_update_fields_may_be_absent() {
    let bytes = br#"{"data":{"eventType":"apheleia.subscription_update"}}"#;
    let e = decode_event(bytes).unwrap();
    match e.data {
        Some(Data::SubscriptionUpdate { subject, category, status }) => {
            assert!(subject.is_none() && category.is_none() && status.is_none());
        },
        other => panic!("wrong variant: {:?}", other),
    }
}

#[test]
fn empty_event_object_decodes_to_all_none() {
    let e = decode_event(b"{}").unwrap();
    assert!(e.id.is_none());
    assert!(e.data.is_none());
    assert!(e.filter_message.is_none());
    assert!(e.sequence_number.is_none());
    assert!(e.timestamp.is_none());
    assert!(e.tracking_id.is_none());
}

#[test]
fn null_fields_decode_to_none() {
    let bytes = br#"{"id":null,"data":null,"filterMessage":null,"sequenceNumber":null,
                     "timestamp":null,"trackingId":null}"#;
    let e = decode_event(bytes).unwrap();
    assert!(e.id.is_none() && e.data.is_none() && e.sequence_number.is_none());
}

#[test]
fn malformed_payload_is_a_parsing_error() {
    match decode_event(b"{not json") {
        Err(Error::JsonParsingError(_)) => {},
        other => panic!("expected a parsing error, got {:?}", other),
    }
}

#[test]
fn data_without_event_type_is_a_parsing_error() {
    match decode_event(br#"{"data":{"subject":"x"}}"#) {
        Err(Error::JsonParsingError(_)) => {},
        other => panic!("expected a parsing error, got {:?}", other),
    }
}

#[test]
fn non_string_event_type_is_a_parsing_error() {
    match decode_event(br#"{"data":{"eventType":7}}"#) {
        Err(Error::JsonParsingError(_)) => {},
        other => panic!("expected a parsing error, got {:?}", other),
    }
}

#[test]
fn non_string_id_is_a_parsing_error() {
    match decode_event(br#"{"id":12}"#) {
        Err(Error::JsonParsingError(_)) => {},
        other => panic!("expected a parsing error, got {:?}", other),
    }
}

#[test]
fn out_of_range_sequence_number_is_a_parsing_error() {
    match decode_event(br#"{"sequenceNumber":4294967296}"#) {
        Err(Error::JsonParsingError(_)) => {},
        other => panic!("expected a parsing error, got {:?}", other),
    }
}

#[test]
fn top_level_array_is_a_parsing_error() {
    match decode_event(b"[1,2,3]") {
        Err(Error::JsonParsingError(_)) => {},
        other => panic!("expected a parsing error, got {:?}", other),
    }
}

#[test]
fn activity_without_id_is_a_parsing_error() {
    match decode_event(br#"{"data":{"eventType":"conversation.activity","activity":{}}}"#) {
        Err(Error::JsonParsingError(_)) => {},
        other => panic!("expected a parsing error, got {:?}", other),
    }
}

#[test]
fn device_record_decodes_field_by_field() {
    let bytes = br#"{
        "url": "https://directory.example.com/devices/abc",
        "deviceType": "UNKNOWN", "name": "pixoo-integration", "model": "pixoo-64",
        "localizedModel": "", "systemName": "Windows", "systemVersion": "10",
        "webSocketUrl": "wss://mercury.example.com/v1/abc"
    }"#;
    let d = decode_device(bytes).unwrap();
    assert_eq!(d.url.as_deref(), Some("https://directory.example.com/devices/abc"));
    assert_eq!(d.device_type.as_deref(), Some("UNKNOWN"));
    assert_eq!(d.name.as_deref(), Some("pixoo-integration"));
    assert_eq!(d.model.as_deref(), Some("pixoo-64"));
    assert_eq!(d.localized_model.as_deref(), Some(""));
    assert_eq!(d.system_name.as_deref(), Some("Windows"));
    assert_eq!(d.system_version.as_deref(), Some("10"));
    assert_eq!(d.websocket_url.as_deref(), Some("wss://mercury.example.com/v1/abc"));
}

#[test]
fn device_listing_decodes_in_order() {
    let bytes = br#"{"devices":[{"name":"first"},{"name":"second","webSocketUrl":"wss://a"}]}"#;
    let ds = decode_devices(bytes).unwrap();
    assert_eq!(ds.devices.len(), 2);
    assert_eq!(ds.devices[0].name.as_deref(), Some("first"));
    assert_eq!(ds.devices[1].name.as_deref(), Some("second"));
    assert_eq!(ds.devices[1].websocket_url.as_deref(), Some("wss://a"));
}

#[test]
fn device_listing_without_devices_field_is_a_parsing_error() {
    match decode_devices(b"{}") {
        Err(Error::JsonParsingError(_)) => {},
        other => panic!("expected a parsing error, got {:?}", other),
    }
}

#[test]
fn person_decodes_and_requires_its_fields() {
    let p = decode_person(br#"{"id":"me","status":"active","displayName":"ignored"}"#).unwrap();
    assert_eq!(p.id, "me");
    assert_eq!(p.status, "active");
    assert!(matches!(
        decode_person(br#"{"id":"me"}"#),
        Err(Error::JsonParsingError(_))
    ));
}

#[test]
fn error_body_decodes() {
    let w = decode_webex_error(br#"{"code":"rate_limit","reason":"slow down"}"#).unwrap();
    assert_eq!(w.code.as_deref(), Some("rate_limit"));
    assert_eq!(w.reason.as_deref(), Some("slow down"));
}

#[test]
fn registration_body_round_trips_and_omits_socket_url() {
    let body = registration_body();
    let text = String::from_utf8(body.clone()).unwrap();
    assert!(!text.contains("webSocketUrl"));
    let d = decode_device(&body).unwrap();
    let wanted = client_descriptor();
    assert_eq!(d.name, wanted.name);
    assert_eq!(d.model, wanted.model);
    assert_eq!(d.device_type, wanted.device_type);
    assert_eq!(d.localized_model, wanted.localized_model);
    assert_eq!(d.system_name, wanted.system_name);
    assert_eq!(d.system_version, wanted.system_version);
    assert!(d.websocket_url.is_none());
}

#[test]
fn authorize_response_decodes_every_field() {
    let bytes = br#"{
        "device_code": "dc-1", "expires_in": 300, "user_code": "XYZ-123",
        "verification_uri": "https://login.example.com/activate",
        "verification_uri_complete": "https://login.example.com/activate?user_code=XYZ-123",
        "interval": 5
    }"#;
    let a = decode_authorize_response(bytes).unwrap();
    assert_eq!(a.device_code, "dc-1");
    assert_eq!(a.expires_in, 300);
    assert_eq!(a.user_code, "XYZ-123");
    assert_eq!(a.verification_uri, "https://login.example.com/activate");
    assert_eq!(
        a.verification_uri_complete,
        "https://login.example.com/activate?user_code=XYZ-123"
    );
    assert_eq!(a.interval, 5);
}

#[test]
fn authorize_response_missing_field_is_a_parsing_error() {
    let bytes = br#"{"device_code":"dc-1","expires_in":300}"#;
    assert!(matches!(
        decode_authorize_response(bytes),
        Err(Error::JsonParsingError(_))
    ));
}

#[test]
fn access_token_decodes_or_fails() {
    assert_eq!(
        decode_access_token(br#"{"access_token":"bearer-xyz"}"#).unwrap(),
        "bearer-xyz"
    );
    assert!(matches!(
        decode_access_token(br#"{"token_type":"bearer"}"#),
        Err(Error::JsonParsingError(_))
    ));
}
