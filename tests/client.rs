use amplitude::amp::{API_KEY_VAR, NO_API_KEY, URL_BATCH, URL_SINGLE};
use amplitude::entities::{EVENT_TYPE_REQUIRED, IDENTITY_REQUIRED};
use amplitude::entities::ApiOptions;
use amplitude::{Amp, AmplitudeError, Event};
use serde_json::Value;

#[test]
fn new_client_sends_to_single_endpoint() {
    let amp = Amp::new("key").unwrap();
    assert_eq!(amp.url(), URL_SINGLE);
    assert_eq!(URL_SINGLE, "https://api2.amplitude.com/2/httpapi");
    assert_eq!(URL_BATCH, "https://api2.amplitude.com/batch");
}

#[test]
fn from_env_without_variable_fails() {
    match Amp::from_env(None) {
        Err(AmplitudeError::InitializationError(m)) => {
            assert_eq!(m, NO_API_KEY);
            assert_eq!(m, "No AMPLITUDE_API_KEY environment variable was found");
        },
        other => panic!("unexpected {:?}", other),
    }
    assert_eq!(API_KEY_VAR, "AMPLITUDE_API_KEY");
}

#[test]
fn from_env_with_variable_keeps_key() {
    let amp = Amp::from_env(Some("secret".to_owned())).unwrap();
    let body = amp.upload_body(vec![Event::new().user_id("u").event_type("e")]).unwrap();
    assert_eq!(body.api_key, "secret");
    assert_eq!(amp.url(), URL_SINGLE);
}

#[test]
fn batch_then_single_changes_only_endpoint() {
    let mut amp = Amp::new("key").unwrap();
    amp.set_min_id_length(4);
    amp.batch();
    assert_eq!(amp.url(), URL_BATCH);
    amp.single();
    assert_eq!(amp.url(), URL_SINGLE);
    amp.batch().single().batch();
    assert_eq!(amp.url(), URL_BATCH);
    let body = amp.upload_body(vec![Event::new().device_id("d").event_type("e")]).unwrap();
    assert_eq!(body.api_key, "key");
    assert_eq!(body.options, Some(ApiOptions { min_id_length: Some(4) }));
}

#[test]
fn set_min_id_length_goes_into_upload() {
    let mut amp = Amp::new("key").unwrap();
    let body = amp.upload_body(vec![Event::new().user_id("u").event_type("e")]).unwrap();
    assert_eq!(body.options, None);
    amp.batch().set_min_id_length(4).set_min_id_length(6);
    let value = amp.upload_body(vec![Event::new().user_id("u").event_type("e")]).unwrap().to_json();
    assert_eq!(value["options"]["min_id_length"], Value::from(6u64));
}

#[test]
fn upload_body_keeps_events_in_order() {
    let amp = Amp::new("key").unwrap();
    let events = vec![
        Event::new().user_id("first").event_type("a"),
        Event::new().device_id("second").event_type("b"),
    ];
    let value = amp.upload_body(events).unwrap().to_json();
    assert_eq!(value["events"][0]["user_id"], Value::from("first"));
    assert_eq!(value["events"][1]["device_id"], Value::from("second"));
    assert!(value.get("options").is_none());
}

#[test]
fn upload_body_rejects_unidentified_event() {
    let amp = Amp::new("key").unwrap();
    let events = vec![Event::new().user_id("u").event_type("e"), Event::new().event_type("anonymous")];
    match amp.upload_body(events) {
        Err(AmplitudeError::ValidationError(m)) => assert_eq!(m, IDENTITY_REQUIRED),
        other => panic!("unexpected {:?}", other),
    }
}

#[test]
fn upload_body_rejects_event_without_type() {
    let amp = Amp::new("key").unwrap();
    let events = vec![Event::new().user_id("u").event_type("e"), Event::new().user_id("v")];
    match amp.upload_body(events) {
        Err(AmplitudeError::ValidationError(m)) => assert_eq!(m, EVENT_TYPE_REQUIRED),
        other => panic!("unexpected {:?}", other),
    }
}

#[test]
fn set_client_keeps_configuration() {
    let mut amp = Amp::new("key").unwrap();
    amp.batch();
    amp.set_client(amp.client().clone());
    assert_eq!(amp.url(), URL_BATCH);
}


#[test]
fn with_client_sends_to_single_endpoint() {
    let client = Amp::new("a").unwrap().client().clone();
    let amp = Amp::with_client("key", client);
    assert_eq!(amp.url(), URL_SINGLE);
    let body = amp.upload_body(vec![Event::new().user_id("u").event_type("e")]).unwrap();
    assert_eq!(body.api_key, "key");
    assert_eq!(body.options, None);
}
