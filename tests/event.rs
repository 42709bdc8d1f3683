use amplitude::entities::{ApiOptions, UploadBody, EVENT_TYPE_REQUIRED, IDENTITY_REQUIRED, REMOTE_IP};
use amplitude::{AmplitudeError, Event};
use serde_json::{Number, Value};

fn parse(text: &str) -> Value {
    serde_json::from_str(text).unwrap()
}

fn full_event() -> Event {
    Event::new()
        .event_type("purchase")
        .user_id("user-42")
        .device_id("device-7")
        .time(1_396_381_378_123)
        .event_properties(parse(r#"{"colour": "red", "sizes": [1, 2]}"#))
        .user_properties(parse(r#"{"age": 25}"#))
        .groups(parse(r#"{"team": "blue"}"#))
        .app_version("2.1.0")
        .platform("iOS")
        .os_name("iOS")
        .os_version("17.2")
        .device_brand("Apple")
        .device_manufacturer("Apple")
        .device_model("iPhone15,2")
        .carrier("Carrier")
        .country("BY")
        .region("Minsk")
        .city("Minsk")
        .dma("None")
        .language("be")
        .price(Number::from_f64(2.5).unwrap())
        .quantity(3)
        .revenue(Number::from_f64(-7.25).unwrap())
        .product_id("sku-1")
        .revenue_type("refund")
        .location_lat(Number::from_f64(53.9).unwrap())
        .location_lng(Number::from_f64(27.56).unwrap())
        .ip4(Some([10, 0, 0, 254]))
        .idfa("idfa-1")
        .idfv("idfv-1")
        .adid("adid-1")
        .android_id("android-1")
        .event_id(-12)
        .session_id(-1)
        .insert_id("insert-1")
}

#[test]
fn event_json() {
    let event = Event::from_json(parse(
        r#"{"user_id": "43546757", "event_type": "json", "android_id": "3gfhtey534-647"}"#,
    ))
    .unwrap();
    let back = event.to_json();
    assert_eq!(back["user_id"], Value::from("43546757"));
    assert_eq!(back["event_type"], Value::from("json"));
    assert_eq!(back["android_id"], Value::from("3gfhtey534-647"));
    assert_eq!(back.as_object().unwrap().len(), 3);
}

#[test]
fn map() {
    let user_properties = parse(r#"{"age": 25, "gender": "female", "interests": ["football", "hockey"]}"#);
    let event_properties = parse(r#"{"test-event": "property228", "arr": [{"a": "t"}]}"#);
    let event = Event::new()
        .user_id("tetd")
        .event_type("loool")
        .user_properties(user_properties.clone())
        .event_properties(event_properties.clone());
    let value = event.to_json();
    assert_eq!(value["user_properties"], user_properties);
    assert_eq!(value["event_properties"], event_properties);
    assert_eq!(value["user_id"], Value::from("tetd"));
    assert_eq!(value["event_type"], Value::from("loool"));
}

#[test]
fn round_trip_keeps_every_field() {
    let event = full_event();
    let value = event.to_json();
    let text = serde_json::to_string(&value).unwrap();
    let again = Event::from_json(parse(&text)).unwrap();
    assert_eq!(again.to_json(), value);
    assert_eq!(value.as_object().unwrap().len(), 35);
    assert!(!text.contains("null"));
}

#[test]
fn round_trip_of_sparse_event_leaves_out_unset_fields() {
    let event = Event::new().device_id("d-1").event_type("open");
    let value = event.to_json();
    let text = serde_json::to_string(&value).unwrap();
    assert_eq!(text, r#"{"device_id":"d-1","event_type":"open"}"#);
    let again = Event::from_json(value.clone()).unwrap();
    assert_eq!(again.to_json(), value);
}

#[test]
fn new_event_is_empty_and_unidentified() {
    let event = Event::new();
    assert!(!event.is_identified());
    assert_eq!(serde_json::to_string(&event.to_json()).unwrap(), "{}");
    assert!(Event::new().user_id("u").is_identified());
    assert!(Event::new().device_id("d").is_identified());
}

#[test]
fn wire_names_of_product_and_revenue_type() {
    let value = Event::new().product_id("sku").revenue_type("tax").to_json();
    assert_eq!(value["productId"], Value::from("sku"));
    assert_eq!(value["revenueType"], Value::from("tax"));
    assert!(value.get("product_id").is_none());
    assert!(value.get("revenue_type").is_none());
}

#[test]
fn commerce_fields_are_sent_unmodified() {
    let value = Event::new()
        .user_id("u")
        .price(Number::from_f64(2.5).unwrap())
        .quantity(3)
        .to_json();
    assert_eq!(value["price"], Value::from(2.5));
    assert_eq!(value["quantity"], Value::from(3u64));
    assert!(value.get("revenue").is_none());
}

#[test]
fn integer_fields_keep_their_values() {
    let value = Event::new()
        .time(u64::MAX)
        .quantity(u32::MAX)
        .event_id(i32::MIN)
        .session_id(i64::MIN)
        .to_json();
    assert_eq!(value["time"].as_u64(), Some(u64::MAX));
    assert_eq!(value["quantity"].as_u64(), Some(u32::MAX as u64));
    assert_eq!(value["event_id"].as_i64(), Some(i32::MIN as i64));
    assert_eq!(value["session_id"].as_i64(), Some(i64::MIN));
}

#[test]
fn ip4_without_address_is_remote() {
    let value = Event::new().ip4(None).to_json();
    assert_eq!(value["ip"], Value::from("$remote"));
    assert_eq!(REMOTE_IP, "$remote");
}

#[test]
fn ip6_without_address_is_remote() {
    let value = Event::new().ip6(None).to_json();
    assert_eq!(value["ip"], Value::from("$remote"));
}

#[test]
fn ip4_is_dotted_decimal() {
    let cases: [([u8; 4], &str); 4] = [
        ([127, 0, 0, 1], "127.0.0.1"),
        ([0, 0, 0, 0], "0.0.0.0"),
        ([255, 255, 255, 255], "255.255.255.255"),
        ([10, 99, 100, 9], "10.99.100.9"),
    ];
    for (octets, text) in cases {
        let value = Event::new().ip4(Some(octets)).to_json();
        assert_eq!(value["ip"], Value::from(text));
    }
}

#[test]
fn ip6_keeps_the_address_text() {
    let value = Event::new().ip6(Some("2001:db8::1")).to_json();
    assert_eq!(value["ip"], Value::from("2001:db8::1"));
}

#[test]
fn later_ip_setter_wins() {
    let value = Event::new().ip4(Some([1, 2, 3, 4])).ip6(None).to_json();
    assert_eq!(value["ip"], Value::from("$remote"));
}

#[test]
fn from_json_without_identity_is_rejected() {
    let r = Event::from_json(parse(r#"{"event_type": "x", "country": "BY"}"#));
    assert!(matches!(r, Err(AmplitudeError::ValidationError(_))));
    let r = Event::from_json(parse(r#"{"event_type": "x", "user_id": null, "device_id": null}"#));
    assert!(matches!(r, Err(AmplitudeError::ValidationError(_))));
    let r = Event::from_json(parse(r#"["user_id"]"#));
    assert!(matches!(r, Err(AmplitudeError::ValidationError(_))));
}

#[test]
fn from_json_with_either_identity_is_accepted() {
    assert!(Event::from_json(parse(r#"{"user_id": "u", "event_type": "e"}"#)).is_ok());
    assert!(Event::from_json(parse(r#"{"device_id": "d", "event_type": "e"}"#)).is_ok());
}

#[test]
fn from_json_rejects_a_field_of_the_wrong_kind() {
    let r = Event::from_json(parse(r#"{"user_id": 5, "event_type": "e"}"#));
    match r {
        Err(AmplitudeError::InvalidField(f)) => assert_eq!(f, "user_id"),
        other => panic!("unexpected {:?}", other),
    }
    let r = Event::from_json(parse(r#"{"user_id": "u", "event_type": "e", "quantity": 5000000000}"#));
    match r {
        Err(AmplitudeError::InvalidField(f)) => assert_eq!(f, "quantity"),
        other => panic!("unexpected {:?}", other),
    }
    let r = Event::from_json(parse(r#"{"user_id": "u", "event_type": "e", "price": "cheap"}"#));
    match r {
        Err(AmplitudeError::InvalidField(f)) => assert_eq!(f, "price"),
        other => panic!("unexpected {:?}", other),
    }
}

#[test]
fn from_json_passes_over_unknown_keys_and_nulls() {
    let event = Event::from_json(parse(r#"{"user_id": "u", "event_type": "e", "colour": "red", "city": null}"#)).unwrap();
    assert_eq!(serde_json::to_string(&event.to_json()).unwrap(), r#"{"event_type":"e","user_id":"u"}"#);
}

#[test]
fn upload_body_json_shape() {
    let body = UploadBody {
        api_key: "key".to_owned(),
        events: vec![Event::new().user_id("a"), Event::new().device_id("b")],
        options: Some(ApiOptions { min_id_length: Some(4) }),
    };
    let value = body.to_json();
    assert_eq!(value["api_key"], Value::from("key"));
    assert_eq!(value["events"].as_array().unwrap().len(), 2);
    assert_eq!(value["events"][1]["device_id"], Value::from("b"));
    assert_eq!(value["options"]["min_id_length"], Value::from(4u64));
    let bare = UploadBody { api_key: "key".to_owned(), events: vec![], options: None };
    assert_eq!(serde_json::to_string(&bare.to_json()).unwrap(), r#"{"api_key":"key","events":[]}"#);
}

#[test]
fn options_without_length_are_empty() {
    let value = ApiOptions { min_id_length: None }.to_json();
    assert_eq!(serde_json::to_string(&value).unwrap(), "{}");
}

#[test]
fn from_json_without_identity_names_the_rule() {
    match Event::from_json(parse(r#"{"event_type": "json", "android_id": "3gfhtey534-647"}"#)) {
        Err(AmplitudeError::ValidationError(m)) => {
            assert_eq!(m, IDENTITY_REQUIRED);
            assert_eq!(m, "user_id or device_id must be provided");
        },
        other => panic!("unexpected {:?}", other),
    }
}

#[test]
fn from_json_requires_event_type() {
    for text in [
        r#"{"user_id": "u"}"#,
        r#"{"user_id": "u", "event_type": null}"#,
        r#"{"user_id": "u", "event_type": ""}"#,
        r#"{"device_id": "d", "event_type": 7}"#,
    ] {
        match Event::from_json(parse(text)) {
            Err(AmplitudeError::ValidationError(m)) => assert_eq!(m, EVENT_TYPE_REQUIRED),
            other => panic!("unexpected {:?} for {}", other, text),
        }
    }
}

#[test]
fn sendable_needs_identity_and_event_type() {
    assert!(!Event::new().user_id("u").is_sendable());
    assert!(!Event::new().user_id("u").event_type("").is_sendable());
    assert!(!Event::new().event_type("e").is_sendable());
    assert!(Event::new().device_id("d").event_type("e").is_sendable());
}
