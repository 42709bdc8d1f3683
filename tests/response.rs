use amplitude::response::{
    decode_response, decode_value, response_kind, AmplitudeResponse, ResponseKind, DEFAULT_SERVER_ERROR,
};
use amplitude::AmplitudeError;
use serde_json::Value;

fn parse(text: &str) -> Value {
    serde_json::from_str(text).unwrap()
}

#[test]
fn status_table() {
    assert_eq!(response_kind(200), ResponseKind::Success);
    assert_eq!(response_kind(400), ResponseKind::BadRequest);
    assert_eq!(response_kind(413), ResponseKind::PayloadTooLarge);
    assert_eq!(response_kind(429), ResponseKind::TooManyRequests);
    assert_eq!(response_kind(500), ResponseKind::ServerError);
    assert_eq!(response_kind(502), ResponseKind::ServerError);
    assert_eq!(response_kind(504), ResponseKind::ServerError);
    assert_eq!(response_kind(503), ResponseKind::ServiceUnavailable);
}

#[test]
fn unknown_status_reads_as_success() {
    for status in [0u16, 201, 204, 301, 401, 404, 501, 505, 599, u16::MAX] {
        assert_eq!(response_kind(status), ResponseKind::Success);
    }
}

#[test]
fn success_body_fills_ingestion_fields() {
    let body = r#"{"code": 200, "events_ingested": 3, "payload_size_bytes": 512, "server_upload_time": 1396381378123}"#;
    match decode_response(200, Some(body.to_owned())).unwrap() {
        AmplitudeResponse::Success(ok) => {
            assert_eq!(ok.code, Some(200));
            assert_eq!(ok.events_ingested, Some(3));
            assert_eq!(ok.payload_size_bytes, Some(512));
            assert_eq!(ok.server_upload_time, Some(1396381378123));
        },
        other => panic!("unexpected {:?}", other),
    }
}

#[test]
fn throttled_body_keeps_maps() {
    let body = r#"{"code": 429, "error": "Too many requests for some devices and users",
        "eps_threshold": 30, "throttled_devices": {"C8F9E604-F01A-4BD9-95C6-8E5357DF265D": 31},
        "throttled_users": {"datamonster@amplitude.com": 32}, "throttled_events": [3, 4, 7]}"#;
    match decode_response(429, Some(body.to_owned())).unwrap() {
        AmplitudeResponse::TooManyRequests(t) => {
            assert_eq!(t.code, Some(429));
            assert_eq!(t.error.as_deref(), Some("Too many requests for some devices and users"));
            assert_eq!(t.eps_threshold, Some(30));
            assert_eq!(
                Value::Object(t.throttled_devices.unwrap()),
                parse(r#"{"C8F9E604-F01A-4BD9-95C6-8E5357DF265D": 31}"#)
            );
            assert_eq!(Value::Object(t.throttled_users.unwrap()), parse(r#"{"datamonster@amplitude.com": 32}"#));
            assert_eq!(t.throttled_events, Some(vec![3, 4, 7]));
        },
        other => panic!("unexpected {:?}", other),
    }
}

#[test]
fn server_error_wraps_object_verbatim() {
    let body = r#"{"error": "boom", "detail": {"retry": true, "ids": [1, 2]}}"#;
    for status in [500u16, 502, 504] {
        match decode_response(status, Some(body.to_owned())).unwrap() {
            AmplitudeResponse::ServerError(e) => assert_eq!(Value::Object(e.value.unwrap()), parse(body)),
            other => panic!("unexpected {:?}", other),
        }
    }
}

#[test]
fn service_unavailable_wraps_object() {
    let body = r#"{"error": "maintenance"}"#;
    match decode_response(503, Some(body.to_owned())).unwrap() {
        AmplitudeResponse::ServiceUnavailable(e) => assert_eq!(Value::Object(e.value.unwrap()), parse(body)),
        other => panic!("unexpected {:?}", other),
    }
}

#[test]
fn bad_request_fields() {
    let body = r#"{"code": 400, "error": "Request missing required field", "missing_field": "api_key",
        "events_with_invalid_fields": {"time": [0]}, "events_with_missing_fields": {"event_type": [3, 4]}}"#;
    match decode_response(400, Some(body.to_owned())).unwrap() {
        AmplitudeResponse::BadRequest(b) => {
            assert_eq!(b.code, Some(400));
            assert_eq!(b.error.as_deref(), Some("Request missing required field"));
            assert_eq!(b.missing_field.as_deref(), Some("api_key"));
            assert_eq!(Value::Object(b.events_with_invalid_fields.unwrap()), parse(r#"{"time": [0]}"#));
            assert_eq!(Value::Object(b.events_with_missing_fields.unwrap()), parse(r#"{"event_type": [3, 4]}"#));
            assert!(b.events_with_invalid_id_lengths.is_none());
        },
        other => panic!("unexpected {:?}", other),
    }
}

#[test]
fn payload_too_large_fields() {
    match decode_response(413, Some(r#"{"code": 413, "error": "Payload too large"}"#.to_owned())).unwrap() {
        AmplitudeResponse::PayloadTooLarge(p) => {
            assert_eq!(p.code, Some(413));
            assert_eq!(p.error.as_deref(), Some("Payload too large"));
        },
        other => panic!("unexpected {:?}", other),
    }
}

#[test]
fn unreadable_body_uses_placeholder() {
    match decode_response(400, None).unwrap() {
        AmplitudeResponse::BadRequest(b) => assert_eq!(b.error.as_deref(), Some("Some kind of server error")),
        other => panic!("unexpected {:?}", other),
    }
    match decode_response(503, None).unwrap() {
        AmplitudeResponse::ServiceUnavailable(e) => {
            assert_eq!(Value::Object(e.value.unwrap()), parse(DEFAULT_SERVER_ERROR))
        },
        other => panic!("unexpected {:?}", other),
    }
    match decode_response(200, None).unwrap() {
        AmplitudeResponse::Success(ok) => {
            assert_eq!(ok.code, None);
            assert_eq!(ok.events_ingested, None);
        },
        other => panic!("unexpected {:?}", other),
    }
}

#[test]
fn empty_body_uses_placeholder() {
    match decode_response(429, Some(String::new())).unwrap() {
        AmplitudeResponse::TooManyRequests(t) => assert_eq!(t.error.as_deref(), Some("Some kind of server error")),
        other => panic!("unexpected {:?}", other),
    }
    match decode_response(500, Some(String::new())).unwrap() {
        AmplitudeResponse::ServerError(e) => assert_eq!(Value::Object(e.value.unwrap()), parse(DEFAULT_SERVER_ERROR)),
        other => panic!("unexpected {:?}", other),
    }
    match decode_response(413, Some(String::new())).unwrap() {
        AmplitudeResponse::PayloadTooLarge(p) => assert_eq!(p.error.as_deref(), Some("Some kind of server error")),
        other => panic!("unexpected {:?}", other),
    }
}

#[test]
fn body_that_is_not_json_is_a_serde_error() {
    match decode_response(200, Some("<html>".to_owned())) {
        Err(AmplitudeError::SerdeError(_, body)) => assert_eq!(body, "<html>"),
        other => panic!("unexpected {:?}", other),
    }
}

#[test]
fn body_of_another_shape_is_a_decoding_error() {
    match decode_response(200, Some(r#"{"code": "two hundred"}"#.to_owned())) {
        Err(AmplitudeError::DecodingError(b)) => assert_eq!(b, r#"{"code": "two hundred"}"#),
        other => panic!("unexpected {:?}", other),
    }
    assert!(matches!(decode_response(200, Some("[1, 2]".to_owned())), Err(AmplitudeError::DecodingError(_))));
    assert!(matches!(decode_response(500, Some("\"text\"".to_owned())), Err(AmplitudeError::DecodingError(_))));
    assert!(matches!(
        decode_response(429, Some(r#"{"throttled_events": [1, -1]}"#.to_owned())),
        Err(AmplitudeError::DecodingError(_))
    ));
    assert!(matches!(
        decode_response(200, Some(r#"{"events_ingested": 70000}"#.to_owned())),
        Err(AmplitudeError::DecodingError(_))
    ));
}

#[test]
fn decode_value_ignores_unknown_keys_and_nulls() {
    let v = parse(r#"{"code": null, "events_ingested": 1, "extra": "x"}"#);
    match decode_value(ResponseKind::Success, &v) {
        Some(AmplitudeResponse::Success(ok)) => {
            assert_eq!(ok.code, None);
            assert_eq!(ok.events_ingested, Some(1));
        },
        other => panic!("unexpected {:?}", other),
    }
    assert!(decode_value(ResponseKind::BadRequest, &parse(r#"{"error": 5}"#)).is_none());
}
