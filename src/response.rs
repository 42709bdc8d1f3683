//! The service's answer: one of six shapes, chosen by the HTTP status code.
use vstd::prelude::*;

use crate::json::{
    json_object, json_parse, object_entries, object_field, opt_entries, opt_text, parse_json,
    read_object, read_text, read_u32_list, read_uint, text_field, u32_list_field, uint_field, wide_u16, wide_u32,
};
use crate::AmplitudeError;

verus! {

/// The body that stands in for an answer whose body is missing or empty.
pub const DEFAULT_SERVER_ERROR: &'static str = "{\"error\": \"Some kind of server error\"}";

/// Which of the six shapes an answer takes.
#[derive(Clone, Copy, Debug, PartialEq, Eq, Structural)]
pub enum ResponseKind {
    Success,
    BadRequest,
    PayloadTooLarge,
    TooManyRequests,
    ServerError,
    ServiceUnavailable,
}

/// The shape that an HTTP status selects. A status outside the table reads
/// as success: a fallback kept for compatibility, which does not mean that
/// the upload was accepted.
pub open spec fn kind_of_status(status: u16) -> ResponseKind {
    if status == 200 {
        ResponseKind::Success
    } else if status == 400 {
        ResponseKind::BadRequest
    } else if status == 413 {
        ResponseKind::PayloadTooLarge
    } else if status == 429 {
        ResponseKind::TooManyRequests
    } else if status == 500 || status == 502 || status == 504 {
        ResponseKind::ServerError
    } else if status == 503 {
        ResponseKind::ServiceUnavailable
    } else {
        ResponseKind::Success
    }
}

/// The shape that an HTTP status selects.
pub fn response_kind(status: u16) -> (r: ResponseKind)
    ensures
        r == kind_of_status(status),
{
    match status {
        200 => ResponseKind::Success,
        400 => ResponseKind::BadRequest,
        413 => ResponseKind::PayloadTooLarge,
        429 => ResponseKind::TooManyRequests,
        500 | 502 | 504 => ResponseKind::ServerError,
        503 => ResponseKind::ServiceUnavailable,
        _ => ResponseKind::Success,
    }
}

/// The answer to an accepted upload.
#[derive(Clone, Debug)]
pub struct Success {
    pub code: Option<u16>,
    pub events_ingested: Option<u16>,
    pub payload_size_bytes: Option<u64>,
    pub server_upload_time: Option<u64>,
}

/// The answer to a malformed upload.
#[derive(Clone, Debug)]
pub struct BadRequest {
    pub code: Option<u16>,
    pub error: Option<String>,
    pub missing_field: Option<String>,
    pub events_with_invalid_fields: Option<serde_json::Map<String, serde_json::Value>>,
    pub events_with_missing_fields: Option<serde_json::Map<String, serde_json::Value>>,
    pub events_with_invalid_id_lengths: Option<serde_json::Map<String, serde_json::Value>>,
}

/// The answer to an upload that is too large.
#[derive(Clone, Debug)]
pub struct PayloadTooLarge {
    pub code: Option<u16>,
    pub error: Option<String>,
}

/// The answer to an upload that was throttled.
#[derive(Clone, Debug)]
pub struct TooManyRequests {
    pub code: Option<u16>,
    pub error: Option<String>,
    pub eps_threshold: Option<u32>,
    pub throttled_devices: Option<serde_json::Map<String, serde_json::Value>>,
    pub throttled_users: Option<serde_json::Map<String, serde_json::Value>>,
    pub throttled_events: Option<Vec<u32>>,
}

/// A server failure; the error object as the service sent it.
#[derive(Clone, Debug)]
pub struct ServerError {
    pub value: Option<serde_json::Map<String, serde_json::Value>>,
}

/// The service is unavailable; the error object as the service sent it.
#[derive(Clone, Debug)]
pub struct ServiceUnavailable {
    pub value: Option<serde_json::Map<String, serde_json::Value>>,
}

/// The service's answer to one upload.
#[derive(Clone, Debug)]
pub enum AmplitudeResponse {
    Success(Success),
    BadRequest(BadRequest),
    PayloadTooLarge(PayloadTooLarge),
    TooManyRequests(TooManyRequests),
    ServerError(ServerError),
    ServiceUnavailable(ServiceUnavailable),
}

/// The largest `u16`, as `u64`.
pub open spec fn u16_max() -> u64 {
    u16::MAX as u64
}

/// The largest `u32`, as `u64`.
pub open spec fn u32_max() -> u64 {
    u32::MAX as u64
}

/// The elements of an optional list.
pub open spec fn opt_list(o: Option<Vec<u32>>) -> Option<Seq<u32>> {
    match o {
        Some(l) => Some(l@),
        None => None,
    }
}

/// `o` is what the object `m` reads as in the success shape.
pub open spec fn success_from(m: Map<Seq<char>, serde_json::Value>, o: Success) -> bool {
    &&& uint_field(m, "code"@, u16_max()) == Ok::<_, ()>(wide_u16(o.code))
    &&& uint_field(m, "events_ingested"@, u16_max()) == Ok::<_, ()>(wide_u16(o.events_ingested))
    &&& uint_field(m, "payload_size_bytes"@, u64::MAX) == Ok::<_, ()>(o.payload_size_bytes)
    &&& uint_field(m, "server_upload_time"@, u64::MAX) == Ok::<_, ()>(o.server_upload_time)
}

/// The object `m` can be read in the success shape.
pub open spec fn success_valid(m: Map<Seq<char>, serde_json::Value>) -> bool {
    &&& uint_field(m, "code"@, u16_max()) is Ok
    &&& uint_field(m, "events_ingested"@, u16_max()) is Ok
    &&& uint_field(m, "payload_size_bytes"@, u64::MAX) is Ok
    &&& uint_field(m, "server_upload_time"@, u64::MAX) is Ok
}

/// `b` is what the object `m` reads as in the shape of a rejected upload.
pub open spec fn bad_request_from(m: Map<Seq<char>, serde_json::Value>, b: BadRequest) -> bool {
    &&& uint_field(m, "code"@, u16_max()) == Ok::<_, ()>(wide_u16(b.code))
    &&& text_field(m, "error"@) == Ok::<_, ()>(opt_text(b.error))
    &&& text_field(m, "missing_field"@) == Ok::<_, ()>(opt_text(b.missing_field))
    &&& object_field(m, "events_with_invalid_fields"@) == Ok::<_, ()>(opt_entries(b.events_with_invalid_fields))
    &&& object_field(m, "events_with_missing_fields"@) == Ok::<_, ()>(opt_entries(b.events_with_missing_fields))
    &&& object_field(m, "events_with_invalid_id_lengths"@) == Ok::<_, ()>(opt_entries(b.events_with_invalid_id_lengths))
}

/// The object `m` can be read in the shape of a rejected upload.
pub open spec fn bad_request_valid(m: Map<Seq<char>, serde_json::Value>) -> bool {
    &&& uint_field(m, "code"@, u16_max()) is Ok
    &&& text_field(m, "error"@) is Ok
    &&& text_field(m, "missing_field"@) is Ok
    &&& object_field(m, "events_with_invalid_fields"@) is Ok
    &&& object_field(m, "events_with_missing_fields"@) is Ok
    &&& object_field(m, "events_with_invalid_id_lengths"@) is Ok
}

/// `p` is what the object `m` reads as in the shape of a too large upload.
pub open spec fn too_large_from(m: Map<Seq<char>, serde_json::Value>, p: PayloadTooLarge) -> bool {
    &&& uint_field(m, "code"@, u16_max()) == Ok::<_, ()>(wide_u16(p.code))
    &&& text_field(m, "error"@) == Ok::<_, ()>(opt_text(p.error))
}

/// The object `m` can be read in the shape of a too large upload.
pub open spec fn too_large_valid(m: Map<Seq<char>, serde_json::Value>) -> bool {
    &&& uint_field(m, "code"@, u16_max()) is Ok
    &&& text_field(m, "error"@) is Ok
}

/// `t` is what the object `m` reads as in the shape of a throttled upload.
pub open spec fn throttled_from(m: Map<Seq<char>, serde_json::Value>, t: TooManyRequests) -> bool {
    &&& uint_field(m, "code"@, u16_max()) == Ok::<_, ()>(wide_u16(t.code))
    &&& text_field(m, "error"@) == Ok::<_, ()>(opt_text(t.error))
    &&& uint_field(m, "eps_threshold"@, u32_max()) == Ok::<_, ()>(wide_u32(t.eps_threshold))
    &&& object_field(m, "throttled_devices"@) == Ok::<_, ()>(opt_entries(t.throttled_devices))
    &&& object_field(m, "throttled_users"@) == Ok::<_, ()>(opt_entries(t.throttled_users))
    &&& u32_list_field(m, "throttled_events"@) == Ok::<_, ()>(opt_list(t.throttled_events))
}

/// The object `m` can be read in the shape of a throttled upload.
pub open spec fn throttled_valid(m: Map<Seq<char>, serde_json::Value>) -> bool {
    &&& uint_field(m, "code"@, u16_max()) is Ok
    &&& text_field(m, "error"@) is Ok
    &&& uint_field(m, "eps_threshold"@, u32_max()) is Ok
    &&& object_field(m, "throttled_devices"@) is Ok
    &&& object_field(m, "throttled_users"@) is Ok
    &&& u32_list_field(m, "throttled_events"@) is Ok
}

/// `r` is what the object `m` reads as in the shape `kind`. The two error
/// shapes of the server side hold the whole object.
pub open spec fn decodes_as(kind: ResponseKind, m: Map<Seq<char>, serde_json::Value>, r: AmplitudeResponse) -> bool {
    match kind {
        ResponseKind::Success => r matches AmplitudeResponse::Success(o) && success_from(m, o),
        ResponseKind::BadRequest => r matches AmplitudeResponse::BadRequest(b) && bad_request_from(m, b),
        ResponseKind::PayloadTooLarge => r matches AmplitudeResponse::PayloadTooLarge(p) && too_large_from(m, p),
        ResponseKind::TooManyRequests => r matches AmplitudeResponse::TooManyRequests(t) && throttled_from(m, t),
        ResponseKind::ServerError => r matches AmplitudeResponse::ServerError(e) && opt_entries(e.value) == Some(m),
        ResponseKind::ServiceUnavailable => r matches AmplitudeResponse::ServiceUnavailable(e) && opt_entries(e.value) == Some(m),
    }
}

/// The object `m` can be read in the shape `kind`.
pub open spec fn decodable(kind: ResponseKind, m: Map<Seq<char>, serde_json::Value>) -> bool {
    match kind {
        ResponseKind::Success => success_valid(m),
        ResponseKind::BadRequest => bad_request_valid(m),
        ResponseKind::PayloadTooLarge => too_large_valid(m),
        ResponseKind::TooManyRequests => throttled_valid(m),
        ResponseKind::ServerError => true,
        ResponseKind::ServiceUnavailable => true,
    }
}

/// The JSON value `v` reads as `r` in the shape `kind`.
pub open spec fn reads_as(kind: ResponseKind, v: serde_json::Value, r: AmplitudeResponse) -> bool {
    json_object(v) matches Some(m) && decodes_as(kind, m, r)
}

/// The JSON value `v` can be read in the shape `kind`.
pub open spec fn readable(kind: ResponseKind, v: serde_json::Value) -> bool {
    json_object(v) matches Some(m) && decodable(kind, m)
}

/// The body that is decoded for an answer: the body itself, or the stand-in
/// where it could not be read or is empty.
pub open spec fn body_text(body: Option<Seq<char>>) -> Seq<char> {
    match body {
        Some(b) => if b.len() > 0 { b } else { DEFAULT_SERVER_ERROR@ },
        None => DEFAULT_SERVER_ERROR@,
    }
}

fn decode_success(m: &serde_json::Map<String, serde_json::Value>) -> (r: Option<Success>)
    ensures
        match r {
            Some(o) => success_from(object_entries(*m), o),
            None => !success_valid(object_entries(*m)),
        },
{
    let code = match read_uint(m, "code", 0xffff) { Ok(c) => c, Err(_) => { return None; } };
    let events_ingested = match read_uint(m, "events_ingested", 0xffff) { Ok(c) => c, Err(_) => { return None; } };
    let payload_size_bytes = match read_uint(m, "payload_size_bytes", u64::MAX) { Ok(c) => c, Err(_) => { return None; } };
    let server_upload_time = match read_uint(m, "server_upload_time", u64::MAX) { Ok(c) => c, Err(_) => { return None; } };
    Some(Success {
        code: narrow16(code),
        events_ingested: narrow16(events_ingested),
        payload_size_bytes,
        server_upload_time,
    })
}

fn decode_bad_request(m: &serde_json::Map<String, serde_json::Value>) -> (r: Option<BadRequest>)
    ensures
        match r {
            Some(b) => bad_request_from(object_entries(*m), b),
            None => !bad_request_valid(object_entries(*m)),
        },
{
    let code = match read_uint(m, "code", 0xffff) { Ok(c) => c, Err(_) => { return None; } };
    let error = match read_text(m, "error") { Ok(e) => e, Err(_) => { return None; } };
    let missing_field = match read_text(m, "missing_field") { Ok(e) => e, Err(_) => { return None; } };
    let events_with_invalid_fields = match read_object(m, "events_with_invalid_fields") {
        Ok(e) => e,
        Err(_) => { return None; },
    };
    let events_with_missing_fields = match read_object(m, "events_with_missing_fields") {
        Ok(e) => e,
        Err(_) => { return None; },
    };
    let events_with_invalid_id_lengths = match read_object(m, "events_with_invalid_id_lengths") {
        Ok(e) => e,
        Err(_) => { return None; },
    };
    Some(BadRequest {
        code: narrow16(code),
        error,
        missing_field,
        events_with_invalid_fields,
        events_with_missing_fields,
        events_with_invalid_id_lengths,
    })
}

fn decode_too_large(m: &serde_json::Map<String, serde_json::Value>) -> (r: Option<PayloadTooLarge>)
    ensures
        match r {
            Some(p) => too_large_from(object_entries(*m), p),
            None => !too_large_valid(object_entries(*m)),
        },
{
    let code = match read_uint(m, "code", 0xffff) { Ok(c) => c, Err(_) => { return None; } };
    let error = match read_text(m, "error") { Ok(e) => e, Err(_) => { return None; } };
    Some(PayloadTooLarge { code: narrow16(code), error })
}

fn decode_throttled(m: &serde_json::Map<String, serde_json::Value>) -> (r: Option<TooManyRequests>)
    ensures
        match r {
            Some(t) => throttled_from(object_entries(*m), t),
            None => !throttled_valid(object_entries(*m)),
        },
{
    let code = match read_uint(m, "code", 0xffff) { Ok(c) => c, Err(_) => { return None; } };
    let error = match read_text(m, "error") { Ok(e) => e, Err(_) => { return None; } };
    let eps_threshold = match read_uint(m, "eps_threshold", 0xffff_ffff) {
        Ok(c) => c,
        Err(_) => { return None; },
    };
    let throttled_devices = match read_object(m, "throttled_devices") {
        Ok(e) => e,
        Err(_) => { return None; },
    };
    let throttled_users = match read_object(m, "throttled_users") {
        Ok(e) => e,
        Err(_) => { return None; },
    };
    let throttled_events = match read_u32_list(m, "throttled_events") {
        Ok(e) => e,
        Err(_) => { return None; },
    };
    Some(TooManyRequests {
        code: narrow16(code),
        error,
        eps_threshold: narrow32(eps_threshold),
        throttled_devices,
        throttled_users,
        throttled_events,
    })
}

/// Reads a parsed answer body in the shape `kind`: `None` where the body is
/// not an object or one of the shape's fields holds a value of the wrong kind.
/// Fields that the shape does not know are passed over; a missing or `null`
/// field reads as absent.
pub fn decode_value(kind: ResponseKind, v: &serde_json::Value) -> (r: Option<AmplitudeResponse>)
    ensures
        match r {
            Some(resp) => reads_as(kind, *v, resp),
            None => !readable(kind, *v),
        },
{
    let m = match v.as_object() {
        Some(m) => m,
        None => { return None; },
    };
    match kind {
        ResponseKind::Success => match decode_success(m) {
            Some(o) => Some(AmplitudeResponse::Success(o)),
            None => None,
        },
        ResponseKind::BadRequest => match decode_bad_request(m) {
            Some(b) => Some(AmplitudeResponse::BadRequest(b)),
            None => None,
        },
        ResponseKind::PayloadTooLarge => match decode_too_large(m) {
            Some(p) => Some(AmplitudeResponse::PayloadTooLarge(p)),
            None => None,
        },
        ResponseKind::TooManyRequests => match decode_throttled(m) {
            Some(t) => Some(AmplitudeResponse::TooManyRequests(t)),
            None => None,
        },
        ResponseKind::ServerError => Some(AmplitudeResponse::ServerError(ServerError { value: Some(m.clone()) })),
        ResponseKind::ServiceUnavailable => Some(
            AmplitudeResponse::ServiceUnavailable(ServiceUnavailable { value: Some(m.clone()) }),
        ),
    }
}

/// Decodes the service's answer from its HTTP status and its body (`None`
/// where the body could not be read). The status alone picks the shape; a
/// missing or empty body is replaced by `DEFAULT_SERVER_ERROR`.
pub fn decode_response(status: u16, body: Option<String>) -> (r: Result<AmplitudeResponse, AmplitudeError>)
    ensures
        ({
            let text = body_text(opt_text(body));
            match r {
                Ok(resp) => json_parse(text) matches Some(v) && reads_as(kind_of_status(status), v, resp),
                Err(AmplitudeError::SerdeError(_, b)) => b@ == text && json_parse(text) is None,
                Err(AmplitudeError::DecodingError(b)) => b@ == text && (json_parse(text) matches Some(v)
                    && !readable(kind_of_status(status), v)),
                Err(_) => false,
            }
        }),
{
    let text = match body {
        Some(b) => if b.as_str().is_empty() { DEFAULT_SERVER_ERROR.to_owned() } else { b },
        None => DEFAULT_SERVER_ERROR.to_owned(),
    };
    let kind = response_kind(status);
    match parse_json(text.as_str()) {
        Err(e) => Err(AmplitudeError::SerdeError(e, text)),
        Ok(v) => match decode_value(kind, &v) {
            Some(resp) => Ok(resp),
            None => Err(AmplitudeError::DecodingError(text)),
        },
    }
}

fn narrow16(o: Option<u64>) -> (r: Option<u16>)
    requires
        o matches Some(n) ==> n <= u16::MAX,
    ensures
        wide_u16(r) == o,
{
    match o {
        Some(n) => Some(n as u16),
        None => None,
    }
}

fn narrow32(o: Option<u64>) -> (r: Option<u32>)
    requires
        o matches Some(n) ==> n <= u32::MAX,
    ensures
        wide_u32(r) == o,
{
    match o {
        Some(n) => Some(n as u32),
        None => None,
    }
}

} // verus!
