//! The event record, built field by field, and its JSON form.
use vstd::prelude::*;
use vstd::string::*;

use crate::json::{
    array_value,    field, get_field, object_entries, int_field, json_array, json_i64, json_is_null, json_number, json_object, json_text,
    json_u64, number_field, opt_text, read_int, read_number, read_text, read_uint, read_value,
    text_field, uint_field, wide_u16, wide_u32,
};
use crate::AmplitudeError;

verus! {

/// One occurrence to report. An absent field is left out of the JSON form.
///
/// An event may be built empty and filled in field by field. That it has a
/// non-empty `event_type` and names a user or a device is checked where it
/// leaves the builder: when an upload is made of it (`Amp::upload_body`) and
/// when it is made from JSON (`Event::from_json`).
#[derive(Clone, Debug)]
pub struct Event {
    event_type: Option<String>,
    user_id: Option<String>,
    device_id: Option<String>,
    time: Option<u64>,
    event_properties: Option<serde_json::Value>,
    user_properties: Option<serde_json::Value>,
    groups: Option<serde_json::Value>,
    app_version: Option<String>,
    platform: Option<String>,
    os_name: Option<String>,
    os_version: Option<String>,
    device_brand: Option<String>,
    device_manufacturer: Option<String>,
    device_model: Option<String>,
    carrier: Option<String>,
    country: Option<String>,
    region: Option<String>,
    city: Option<String>,
    dma: Option<String>,
    language: Option<String>,
    price: Option<serde_json::Number>,
    quantity: Option<u32>,
    revenue: Option<serde_json::Number>,
    product_id: Option<String>,
    revenue_type: Option<String>,
    location_lat: Option<serde_json::Number>,
    location_lng: Option<serde_json::Number>,
    ip: Option<String>,
    idfa: Option<String>,
    idfv: Option<String>,
    adid: Option<String>,
    android_id: Option<String>,
    event_id: Option<i32>,
    session_id: Option<i64>,
    insert_id: Option<String>,
}

/// What an event holds: strings as their text.
pub struct EventView {
    pub event_type: Option<Seq<char>>,
    pub user_id: Option<Seq<char>>,
    pub device_id: Option<Seq<char>>,
    pub time: Option<u64>,
    pub event_properties: Option<serde_json::Value>,
    pub user_properties: Option<serde_json::Value>,
    pub groups: Option<serde_json::Value>,
    pub app_version: Option<Seq<char>>,
    pub platform: Option<Seq<char>>,
    pub os_name: Option<Seq<char>>,
    pub os_version: Option<Seq<char>>,
    pub device_brand: Option<Seq<char>>,
    pub device_manufacturer: Option<Seq<char>>,
    pub device_model: Option<Seq<char>>,
    pub carrier: Option<Seq<char>>,
    pub country: Option<Seq<char>>,
    pub region: Option<Seq<char>>,
    pub city: Option<Seq<char>>,
    pub dma: Option<Seq<char>>,
    pub language: Option<Seq<char>>,
    pub price: Option<serde_json::Number>,
    pub quantity: Option<u32>,
    pub revenue: Option<serde_json::Number>,
    pub product_id: Option<Seq<char>>,
    pub revenue_type: Option<Seq<char>>,
    pub location_lat: Option<serde_json::Number>,
    pub location_lng: Option<serde_json::Number>,
    pub ip: Option<Seq<char>>,
    pub idfa: Option<Seq<char>>,
    pub idfv: Option<Seq<char>>,
    pub adid: Option<Seq<char>>,
    pub android_id: Option<Seq<char>>,
    pub event_id: Option<i32>,
    pub session_id: Option<i64>,
    pub insert_id: Option<Seq<char>>,
}

/// The view of an event with no field set.
pub open spec fn empty_event() -> EventView {
    EventView {
        event_type: None,
        user_id: None,
        device_id: None,
        time: None,
        event_properties: None,
        user_properties: None,
        groups: None,
        app_version: None,
        platform: None,
        os_name: None,
        os_version: None,
        device_brand: None,
        device_manufacturer: None,
        device_model: None,
        carrier: None,
        country: None,
        region: None,
        city: None,
        dma: None,
        language: None,
        price: None,
        quantity: None,
        revenue: None,
        product_id: None,
        revenue_type: None,
        location_lat: None,
        location_lng: None,
        ip: None,
        idfa: None,
        idfv: None,
        adid: None,
        android_id: None,
        event_id: None,
        session_id: None,
        insert_id: None,
    }
}

impl EventView {
    /// The event names a user or a device.
    pub open spec fn identified(self) -> bool {
        self.user_id is Some || self.device_id is Some
    }

    /// The event has a non-empty `event_type`.
    pub open spec fn has_event_type(self) -> bool {
        self.event_type matches Some(t) && t.len() > 0
    }

    /// The event may be sent: it names a user or a device, and its kind.
    pub open spec fn sendable(self) -> bool {
        self.identified() && self.has_event_type()
    }

    /// None of the fields that hold a JSON value holds `null`.
    pub open spec fn properties_not_null(self) -> bool {
        &&& (self.event_properties matches Some(v) ==> !json_is_null(v))
        &&& (self.user_properties matches Some(v) ==> !json_is_null(v))
        &&& (self.groups matches Some(v) ==> !json_is_null(v))
    }
}

impl View for Event {
    type V = EventView;

    closed spec fn view(&self) -> EventView {
        EventView {
            event_type: opt_text(self.event_type),
            user_id: opt_text(self.user_id),
            device_id: opt_text(self.device_id),
            time: self.time,
            event_properties: self.event_properties,
            user_properties: self.user_properties,
            groups: self.groups,
            app_version: opt_text(self.app_version),
            platform: opt_text(self.platform),
            os_name: opt_text(self.os_name),
            os_version: opt_text(self.os_version),
            device_brand: opt_text(self.device_brand),
            device_manufacturer: opt_text(self.device_manufacturer),
            device_model: opt_text(self.device_model),
            carrier: opt_text(self.carrier),
            country: opt_text(self.country),
            region: opt_text(self.region),
            city: opt_text(self.city),
            dma: opt_text(self.dma),
            language: opt_text(self.language),
            price: self.price,
            quantity: self.quantity,
            revenue: self.revenue,
            product_id: opt_text(self.product_id),
            revenue_type: opt_text(self.revenue_type),
            location_lat: self.location_lat,
            location_lng: self.location_lng,
            ip: opt_text(self.ip),
            idfa: opt_text(self.idfa),
            idfv: opt_text(self.idfv),
            adid: opt_text(self.adid),
            android_id: opt_text(self.android_id),
            event_id: self.event_id,
            session_id: self.session_id,
            insert_id: opt_text(self.insert_id),
        }
    }
}

/// An optional `i32` as `i64`.
pub open spec fn wide_i32(o: Option<i32>) -> Option<i64> {
    match o {
        Some(n) => Some(n as i64),
        None => None,
    }
}

/// An optional `u64` as `u32`, where it fits.
pub open spec fn narrow_u32(o: Option<u64>) -> Option<u32> {
    match o {
        Some(n) => Some(n as u32),
        None => None,
    }
}

/// An optional `i64` as `i32`, where it fits.
pub open spec fn narrow_i32(o: Option<i64>) -> Option<i32> {
    match o {
        Some(n) => Some(n as i32),
        None => None,
    }
}

/// `m` holds the text `o` under `k`, or nothing where `o` is `None`.
pub open spec fn holds_text(m: Map<Seq<char>, serde_json::Value>, k: Seq<char>, o: Option<Seq<char>>) -> bool {
    match o {
        Some(s) => m.contains_key(k) && json_text(m[k]) == Some(s) && !json_is_null(m[k]),
        None => !m.contains_key(k),
    }
}

/// `m` holds the unsigned integer `o` under `k`, or nothing.
pub open spec fn holds_uint(m: Map<Seq<char>, serde_json::Value>, k: Seq<char>, o: Option<u64>) -> bool {
    match o {
        Some(n) => m.contains_key(k) && json_u64(m[k]) == Some(n) && !json_is_null(m[k]),
        None => !m.contains_key(k),
    }
}

/// `m` holds the signed integer `o` under `k`, or nothing.
pub open spec fn holds_int(m: Map<Seq<char>, serde_json::Value>, k: Seq<char>, o: Option<i64>) -> bool {
    match o {
        Some(n) => m.contains_key(k) && json_i64(m[k]) == Some(n) && !json_is_null(m[k]),
        None => !m.contains_key(k),
    }
}

/// `m` holds the number `o` under `k`, or nothing.
pub open spec fn holds_number(m: Map<Seq<char>, serde_json::Value>, k: Seq<char>, o: Option<serde_json::Number>) -> bool {
    match o {
        Some(n) => m.contains_key(k) && json_number(m[k]) == Some(n) && !json_is_null(m[k]),
        None => !m.contains_key(k),
    }
}

/// `m` holds the value `o` under `k`, or nothing.
pub open spec fn holds_value(m: Map<Seq<char>, serde_json::Value>, k: Seq<char>, o: Option<serde_json::Value>) -> bool {
    match o {
        Some(v) => m.contains_key(k) && m[k] == v,
        None => !m.contains_key(k),
    }
}

/// The keys of an event's JSON form.
pub open spec fn event_keys() -> Set<Seq<char>> {
    set![
        "event_type"@,
        "user_id"@,
        "device_id"@,
        "time"@,
        "event_properties"@,
        "user_properties"@,
        "groups"@,
        "app_version"@,
        "platform"@,
        "os_name"@,
        "os_version"@,
        "device_brand"@,
        "device_manufacturer"@,
        "device_model"@,
        "carrier"@,
        "country"@,
        "region"@,
        "city"@,
        "dma"@,
        "language"@,
        "price"@,
        "quantity"@,
        "revenue"@,
        "productId"@,
        "revenueType"@,
        "location_lat"@,
        "location_lng"@,
        "ip"@,
        "idfa"@,
        "idfv"@,
        "adid"@,
        "android_id"@,
        "event_id"@,
        "session_id"@,
        "insert_id"@
    ]
}

/// `m` is the JSON form of `e`: each field that is set stands under its key,
/// and no other key is there.
pub open spec fn encodes(m: Map<Seq<char>, serde_json::Value>, e: EventView) -> bool {
    &&& holds_text(m, "event_type"@, e.event_type)
    &&& holds_text(m, "user_id"@, e.user_id)
    &&& holds_text(m, "device_id"@, e.device_id)
    &&& holds_uint(m, "time"@, e.time)
    &&& holds_value(m, "event_properties"@, e.event_properties)
    &&& holds_value(m, "user_properties"@, e.user_properties)
    &&& holds_value(m, "groups"@, e.groups)
    &&& holds_text(m, "app_version"@, e.app_version)
    &&& holds_text(m, "platform"@, e.platform)
    &&& holds_text(m, "os_name"@, e.os_name)
    &&& holds_text(m, "os_version"@, e.os_version)
    &&& holds_text(m, "device_brand"@, e.device_brand)
    &&& holds_text(m, "device_manufacturer"@, e.device_manufacturer)
    &&& holds_text(m, "device_model"@, e.device_model)
    &&& holds_text(m, "carrier"@, e.carrier)
    &&& holds_text(m, "country"@, e.country)
    &&& holds_text(m, "region"@, e.region)
    &&& holds_text(m, "city"@, e.city)
    &&& holds_text(m, "dma"@, e.dma)
    &&& holds_text(m, "language"@, e.language)
    &&& holds_number(m, "price"@, e.price)
    &&& holds_uint(m, "quantity"@, wide_u32(e.quantity))
    &&& holds_number(m, "revenue"@, e.revenue)
    &&& holds_text(m, "productId"@, e.product_id)
    &&& holds_text(m, "revenueType"@, e.revenue_type)
    &&& holds_number(m, "location_lat"@, e.location_lat)
    &&& holds_number(m, "location_lng"@, e.location_lng)
    &&& holds_text(m, "ip"@, e.ip)
    &&& holds_text(m, "idfa"@, e.idfa)
    &&& holds_text(m, "idfv"@, e.idfv)
    &&& holds_text(m, "adid"@, e.adid)
    &&& holds_text(m, "android_id"@, e.android_id)
    &&& holds_int(m, "event_id"@, wide_i32(e.event_id))
    &&& holds_int(m, "session_id"@, e.session_id)
    &&& holds_text(m, "insert_id"@, e.insert_id)
    &&& m.dom().subset_of(event_keys())
}

/// Every field of the object `m` that an event knows holds a value of the
/// field's kind (or is missing, or `null`).
pub open spec fn event_readable(m: Map<Seq<char>, serde_json::Value>) -> bool {
    &&& text_field(m, "event_type"@) is Ok
    &&& text_field(m, "user_id"@) is Ok
    &&& text_field(m, "device_id"@) is Ok
    &&& uint_field(m, "time"@, u64::MAX) is Ok
    &&& text_field(m, "app_version"@) is Ok
    &&& text_field(m, "platform"@) is Ok
    &&& text_field(m, "os_name"@) is Ok
    &&& text_field(m, "os_version"@) is Ok
    &&& text_field(m, "device_brand"@) is Ok
    &&& text_field(m, "device_manufacturer"@) is Ok
    &&& text_field(m, "device_model"@) is Ok
    &&& text_field(m, "carrier"@) is Ok
    &&& text_field(m, "country"@) is Ok
    &&& text_field(m, "region"@) is Ok
    &&& text_field(m, "city"@) is Ok
    &&& text_field(m, "dma"@) is Ok
    &&& text_field(m, "language"@) is Ok
    &&& number_field(m, "price"@) is Ok
    &&& uint_field(m, "quantity"@, u32::MAX as u64) is Ok
    &&& number_field(m, "revenue"@) is Ok
    &&& text_field(m, "productId"@) is Ok
    &&& text_field(m, "revenueType"@) is Ok
    &&& number_field(m, "location_lat"@) is Ok
    &&& number_field(m, "location_lng"@) is Ok
    &&& text_field(m, "ip"@) is Ok
    &&& text_field(m, "idfa"@) is Ok
    &&& text_field(m, "idfv"@) is Ok
    &&& text_field(m, "adid"@) is Ok
    &&& text_field(m, "android_id"@) is Ok
    &&& int_field(m, "event_id"@, i32::MIN as i64, i32::MAX as i64) is Ok
    &&& int_field(m, "session_id"@, i64::MIN, i64::MAX) is Ok
    &&& text_field(m, "insert_id"@) is Ok
}

/// The event that the object `m` reads as, where `event_readable(m)` holds.
/// Keys that an event does not know are passed over.
pub open spec fn read_event(m: Map<Seq<char>, serde_json::Value>) -> EventView {
    EventView {
        event_type: text_field(m, "event_type"@)->Ok_0,
        user_id: text_field(m, "user_id"@)->Ok_0,
        device_id: text_field(m, "device_id"@)->Ok_0,
        time: uint_field(m, "time"@, u64::MAX)->Ok_0,
        event_properties: field(m, "event_properties"@),
        user_properties: field(m, "user_properties"@),
        groups: field(m, "groups"@),
        app_version: text_field(m, "app_version"@)->Ok_0,
        platform: text_field(m, "platform"@)->Ok_0,
        os_name: text_field(m, "os_name"@)->Ok_0,
        os_version: text_field(m, "os_version"@)->Ok_0,
        device_brand: text_field(m, "device_brand"@)->Ok_0,
        device_manufacturer: text_field(m, "device_manufacturer"@)->Ok_0,
        device_model: text_field(m, "device_model"@)->Ok_0,
        carrier: text_field(m, "carrier"@)->Ok_0,
        country: text_field(m, "country"@)->Ok_0,
        region: text_field(m, "region"@)->Ok_0,
        city: text_field(m, "city"@)->Ok_0,
        dma: text_field(m, "dma"@)->Ok_0,
        language: text_field(m, "language"@)->Ok_0,
        price: number_field(m, "price"@)->Ok_0,
        quantity: narrow_u32(uint_field(m, "quantity"@, u32::MAX as u64)->Ok_0),
        revenue: number_field(m, "revenue"@)->Ok_0,
        product_id: text_field(m, "productId"@)->Ok_0,
        revenue_type: text_field(m, "revenueType"@)->Ok_0,
        location_lat: number_field(m, "location_lat"@)->Ok_0,
        location_lng: number_field(m, "location_lng"@)->Ok_0,
        ip: text_field(m, "ip"@)->Ok_0,
        idfa: text_field(m, "idfa"@)->Ok_0,
        idfv: text_field(m, "idfv"@)->Ok_0,
        adid: text_field(m, "adid"@)->Ok_0,
        android_id: text_field(m, "android_id"@)->Ok_0,
        event_id: narrow_i32(int_field(m, "event_id"@, i32::MIN as i64, i32::MAX as i64)->Ok_0),
        session_id: int_field(m, "session_id"@, i64::MIN, i64::MAX)->Ok_0,
        insert_id: text_field(m, "insert_id"@)->Ok_0,
    }
}

/// The object `m` names a user or a device (with a value that is not `null`).
pub open spec fn names_identity(m: Map<Seq<char>, serde_json::Value>) -> bool {
    field(m, "user_id"@) is Some || field(m, "device_id"@) is Some
}

/// The object `m` holds a non-empty string under `event_type`.
pub open spec fn names_event_type(m: Map<Seq<char>, serde_json::Value>) -> bool {
    field(m, "event_type"@) matches Some(v) && (json_text(v) matches Some(t) && t.len() > 0)
}

/// The JSON value `v` is an object that names a user or a device.
pub open spec fn value_names_identity(v: serde_json::Value) -> bool {
    json_object(v) matches Some(m) && names_identity(m)
}

/// The JSON value `v` is an object with a non-empty `event_type`.
pub open spec fn value_names_event_type(v: serde_json::Value) -> bool {
    json_object(v) matches Some(m) && names_event_type(m)
}

/// The message of the `ValidationError` for an event that names neither a
/// user nor a device.
pub const IDENTITY_REQUIRED: &'static str = "user_id or device_id must be provided";

/// The message of the `ValidationError` for an event without a non-empty
/// `event_type`.
pub const EVENT_TYPE_REQUIRED: &'static str = "event_type must be a non-empty string";

impl Default for Event {
    fn default() -> (r: Event)
        ensures
            r@ == empty_event(),
    {
        Event::new()
    }
}

impl Event {
    /// Makes an event with no field set.
    pub fn new() -> (r: Event)
        ensures
            r@ == empty_event(),
    {
        Event {
            event_type: None,
            user_id: None,
            device_id: None,
            time: None,
            event_properties: None,
            user_properties: None,
            groups: None,
            app_version: None,
            platform: None,
            os_name: None,
            os_version: None,
            device_brand: None,
            device_manufacturer: None,
            device_model: None,
            carrier: None,
            country: None,
            region: None,
            city: None,
            dma: None,
            language: None,
            price: None,
            quantity: None,
            revenue: None,
            product_id: None,
            revenue_type: None,
            location_lat: None,
            location_lng: None,
            ip: None,
            idfa: None,
            idfv: None,
            adid: None,
            android_id: None,
            event_id: None,
            session_id: None,
            insert_id: None,
        }
    }

    /// Whether the event names a user or a device, as the service requires
    /// before it accepts the event.
    pub fn is_identified(&self) -> (r: bool)
        ensures
            r == self@.identified(),
    {
        self.user_id.is_some() || self.device_id.is_some()
    }

    /// Whether the event may be sent: it names a user or a device, and has a
    /// non-empty `event_type`.
    pub fn is_sendable(&self) -> (r: bool)
        ensures
            r == self@.sendable(),
    {
        let has_type = match &self.event_type {
            Some(t) => !t.as_str().is_empty(),
            None => false,
        };
        self.is_identified() && has_type
    }

    /// Names the kind of occurrence.
    pub fn event_type(self, val: &str) -> (r: Event)
        ensures
            r@ == (EventView { event_type: Some(val@), ..self@ }),
    {
        Event { event_type: Some(val.to_owned()), ..self }
    }

    /// A readable identifier of the user; needed unless a device is named.
    pub fn user_id(self, val: &str) -> (r: Event)
        ensures
            r@ == (EventView { user_id: Some(val@), ..self@ }),
    {
        Event { user_id: Some(val.to_owned()), ..self }
    }

    /// An identifier of the device; needed unless a user is named.
    pub fn device_id(self, val: &str) -> (r: Event)
        ensures
            r@ == (EventView { device_id: Some(val@), ..self@ }),
    {
        Event { device_id: Some(val.to_owned()), ..self }
    }

    /// When it happened, in milliseconds since the Unix epoch; left out, the service uses the upload time.
    pub fn time(self, val: u64) -> (r: Event)
        ensures
            r@ == (EventView { time: Some(val), ..self@ }),
    {
        Event { time: Some(val), ..self }
    }

    /// Data that goes with the event, as a JSON value.
    pub fn event_properties(self, val: serde_json::Value) -> (r: Event)
        ensures
            r@ == (EventView { event_properties: Some(val), ..self@ }),
    {
        Event { event_properties: Some(val), ..self }
    }

    /// Data about the user, as a JSON value.
    pub fn user_properties(self, val: serde_json::Value) -> (r: Event)
        ensures
            r@ == (EventView { user_properties: Some(val), ..self@ }),
    {
        Event { user_properties: Some(val), ..self }
    }

    /// Groups of users the event belongs to, as a JSON value.
    pub fn groups(self, val: serde_json::Value) -> (r: Event)
        ensures
            r@ == (EventView { groups: Some(val), ..self@ }),
    {
        Event { groups: Some(val), ..self }
    }

    /// The version of the application.
    pub fn app_version(self, val: &str) -> (r: Event)
        ensures
            r@ == (EventView { app_version: Some(val@), ..self@ }),
    {
        Event { app_version: Some(val.to_owned()), ..self }
    }

    /// The platform of the device.
    pub fn platform(self, val: &str) -> (r: Event)
        ensures
            r@ == (EventView { platform: Some(val@), ..self@ }),
    {
        Event { platform: Some(val.to_owned()), ..self }
    }

    /// The name of the operating system or browser.
    pub fn os_name(self, val: &str) -> (r: Event)
        ensures
            r@ == (EventView { os_name: Some(val@), ..self@ }),
    {
        Event { os_name: Some(val.to_owned()), ..self }
    }

    /// The version of the operating system or browser.
    pub fn os_version(self, val: &str) -> (r: Event)
        ensures
            r@ == (EventView { os_version: Some(val@), ..self@ }),
    {
        Event { os_version: Some(val.to_owned()), ..self }
    }

    /// The brand of the device.
    pub fn device_brand(self, val: &str) -> (r: Event)
        ensures
            r@ == (EventView { device_brand: Some(val@), ..self@ }),
    {
        Event { device_brand: Some(val.to_owned()), ..self }
    }

    /// The manufacturer of the device.
    pub fn device_manufacturer(self, val: &str) -> (r: Event)
        ensures
            r@ == (EventView { device_manufacturer: Some(val@), ..self@ }),
    {
        Event { device_manufacturer: Some(val.to_owned()), ..self }
    }

    /// The model of the device.
    pub fn device_model(self, val: &str) -> (r: Event)
        ensures
            r@ == (EventView { device_model: Some(val@), ..self@ }),
    {
        Event { device_model: Some(val.to_owned()), ..self }
    }

    /// The network carrier.
    pub fn carrier(self, val: &str) -> (r: Event)
        ensures
            r@ == (EventView { carrier: Some(val@), ..self@ }),
    {
        Event { carrier: Some(val.to_owned()), ..self }
    }

    /// The user's country.
    pub fn country(self, val: &str) -> (r: Event)
        ensures
            r@ == (EventView { country: Some(val@), ..self@ }),
    {
        Event { country: Some(val.to_owned()), ..self }
    }

    /// The user's region.
    pub fn region(self, val: &str) -> (r: Event)
        ensures
            r@ == (EventView { region: Some(val@), ..self@ }),
    {
        Event { region: Some(val.to_owned()), ..self }
    }

    /// The user's city.
    pub fn city(self, val: &str) -> (r: Event)
        ensures
            r@ == (EventView { city: Some(val@), ..self@ }),
    {
        Event { city: Some(val.to_owned()), ..self }
    }

    /// The user's Designated Market Area.
    pub fn dma(self, val: &str) -> (r: Event)
        ensures
            r@ == (EventView { dma: Some(val@), ..self@ }),
    {
        Event { dma: Some(val.to_owned()), ..self }
    }

    /// The user's language.
    pub fn language(self, val: &str) -> (r: Event)
        ensures
            r@ == (EventView { language: Some(val@), ..self@ }),
    {
        Event { language: Some(val.to_owned()), ..self }
    }

    /// The price of the item bought; negative for a refund.
    pub fn price(self, val: serde_json::Number) -> (r: Event)
        ensures
            r@ == (EventView { price: Some(val), ..self@ }),
    {
        Event { price: Some(val), ..self }
    }

    /// How many items were bought.
    pub fn quantity(self, val: u32) -> (r: Event)
        ensures
            r@ == (EventView { quantity: Some(val), ..self@ }),
    {
        Event { quantity: Some(val), ..self }
    }

    /// The revenue; negative for a refund.
    pub fn revenue(self, val: serde_json::Number) -> (r: Event)
        ensures
            r@ == (EventView { revenue: Some(val), ..self@ }),
    {
        Event { revenue: Some(val), ..self }
    }

    /// An identifier of the item bought.
    pub fn product_id(self, val: &str) -> (r: Event)
        ensures
            r@ == (EventView { product_id: Some(val@), ..self@ }),
    {
        Event { product_id: Some(val.to_owned()), ..self }
    }

    /// The kind of revenue.
    pub fn revenue_type(self, val: &str) -> (r: Event)
        ensures
            r@ == (EventView { revenue_type: Some(val@), ..self@ }),
    {
        Event { revenue_type: Some(val.to_owned()), ..self }
    }

    /// The user's latitude.
    pub fn location_lat(self, val: serde_json::Number) -> (r: Event)
        ensures
            r@ == (EventView { location_lat: Some(val), ..self@ }),
    {
        Event { location_lat: Some(val), ..self }
    }

    /// The user's longitude.
    pub fn location_lng(self, val: serde_json::Number) -> (r: Event)
        ensures
            r@ == (EventView { location_lng: Some(val), ..self@ }),
    {
        Event { location_lng: Some(val), ..self }
    }

    /// (iOS) Identifier for Advertiser.
    pub fn idfa(self, val: &str) -> (r: Event)
        ensures
            r@ == (EventView { idfa: Some(val@), ..self@ }),
    {
        Event { idfa: Some(val.to_owned()), ..self }
    }

    /// (iOS) Identifier for Vendor.
    pub fn idfv(self, val: &str) -> (r: Event)
        ensures
            r@ == (EventView { idfv: Some(val@), ..self@ }),
    {
        Event { idfv: Some(val.to_owned()), ..self }
    }

    /// (Android) Google Play Services advertising ID.
    pub fn adid(self, val: &str) -> (r: Event)
        ensures
            r@ == (EventView { adid: Some(val@), ..self@ }),
    {
        Event { adid: Some(val.to_owned()), ..self }
    }

    /// (Android) Android ID, not the advertising ID.
    pub fn android_id(self, val: &str) -> (r: Event)
        ensures
            r@ == (EventView { android_id: Some(val@), ..self@ }),
    {
        Event { android_id: Some(val.to_owned()), ..self }
    }

    /// A counter that tells apart events of one user at one time.
    pub fn event_id(self, val: i32) -> (r: Event)
        ensures
            r@ == (EventView { event_id: Some(val), ..self@ }),
    {
        Event { event_id: Some(val), ..self }
    }

    /// The start of the session, in milliseconds since the Unix epoch.
    pub fn session_id(self, val: i64) -> (r: Event)
        ensures
            r@ == (EventView { session_id: Some(val), ..self@ }),
    {
        Event { session_id: Some(val), ..self }
    }

    /// An identifier the service deduplicates events by.
    pub fn insert_id(self, val: &str) -> (r: Event)
        ensures
            r@ == (EventView { insert_id: Some(val@), ..self@ }),
    {
        Event { insert_id: Some(val.to_owned()), ..self }
    }
}

/// The text the IP field takes when the service should use the address the
/// upload came from.
pub const REMOTE_IP: &'static str = "$remote";

/// The character of a decimal digit.
pub open spec fn digit_char(d: nat) -> char {
    if d == 0 { '0' }
    else if d == 1 { '1' }
    else if d == 2 { '2' }
    else if d == 3 { '3' }
    else if d == 4 { '4' }
    else if d == 5 { '5' }
    else if d == 6 { '6' }
    else if d == 7 { '7' }
    else if d == 8 { '8' }
    else { '9' }
}

/// The decimal numeral of `n`, without leading zeros.
pub open spec fn decimal(n: nat) -> Seq<char>
    decreases n,
{
    if n < 10 {
        seq![digit_char(n)]
    } else {
        decimal(n / 10).push(digit_char(n % 10))
    }
}

/// The dotted-decimal form of an IPv4 address given by its four octets.
pub open spec fn dotted_quad(o: Seq<u8>) -> Seq<char>
    recommends
        o.len() == 4,
{
    decimal(o[0] as nat) + "."@ + decimal(o[1] as nat) + "."@ + decimal(o[2] as nat) + "."@
        + decimal(o[3] as nat)
}

/// The IP text for an IPv4 address, or for none.
pub open spec fn ip4_text(addr: Option<[u8; 4]>) -> Seq<char> {
    match addr {
        Some(o) => dotted_quad(o@),
        None => REMOTE_IP@,
    }
}

/// The IP text for an IPv6 address in its text form, or for none.
pub open spec fn ip6_text(addr: Option<&str>) -> Seq<char> {
    match addr {
        Some(t) => t@,
        None => REMOTE_IP@,
    }
}

fn digit_str(d: u8) -> (r: &'static str)
    requires
        d < 10,
    ensures
        r@ == seq![digit_char(d as nat)],
{
    match d {
        0 => { proof { reveal_strlit("0"); } "0" },
        1 => { proof { reveal_strlit("1"); } "1" },
        2 => { proof { reveal_strlit("2"); } "2" },
        3 => { proof { reveal_strlit("3"); } "3" },
        4 => { proof { reveal_strlit("4"); } "4" },
        5 => { proof { reveal_strlit("5"); } "5" },
        6 => { proof { reveal_strlit("6"); } "6" },
        7 => { proof { reveal_strlit("7"); } "7" },
        8 => { proof { reveal_strlit("8"); } "8" },
        _ => { proof { reveal_strlit("9"); } "9" },
    }
}

fn push_decimal(s: &mut String, n: u8)
    ensures
        final(s)@ == old(s)@ + decimal(n as nat),
{
    if n >= 100 {
        s.append(digit_str(n / 100));
        s.append(digit_str((n / 10) % 10));
        s.append(digit_str(n % 10));
        assert(decimal(n as nat) =~= seq![digit_char((n / 100) as nat), digit_char(((n / 10) % 10) as nat), digit_char((n % 10) as nat)]) by {
            assert((n / 10) / 10 == n / 100);
            assert(decimal((n / 10) as nat) == decimal((n / 100) as nat).push(digit_char(((n / 10) % 10) as nat)));
        }
    } else if n >= 10 {
        s.append(digit_str(n / 10));
        s.append(digit_str(n % 10));
        assert(decimal(n as nat) =~= seq![digit_char((n / 10) as nat), digit_char((n % 10) as nat)]) by {
            assert(decimal(n as nat) == decimal((n / 10) as nat).push(digit_char((n % 10) as nat)));
            assert(decimal((n / 10) as nat) == seq![digit_char((n / 10) as nat)]);
        }
    } else {
        s.append(digit_str(n));
    }
}

fn format_ip4(o: [u8; 4]) -> (r: String)
    ensures
        r@ == dotted_quad(o@),
{
    let mut s = String::new();
    push_decimal(&mut s, o[0]);
    s.append(".");
    push_decimal(&mut s, o[1]);
    s.append(".");
    push_decimal(&mut s, o[2]);
    s.append(".");
    push_decimal(&mut s, o[3]);
    assert(s@ =~= dotted_quad(o@));
    s
}

impl Event {
    /// Sets the IP field from an IPv4 address given by its octets, in
    /// dotted-decimal form; with no address, to `REMOTE_IP`.
    pub fn ip4(self, addr: Option<[u8; 4]>) -> (r: Event)
        ensures
            r@ == (EventView { ip: Some(ip4_text(addr)), ..self@ }),
    {
        let ip = match addr {
            Some(o) => format_ip4(o),
            None => REMOTE_IP.to_owned(),
        };
        Event { ip: Some(ip), ..self }
    }

    /// Sets the IP field from an IPv6 address in its text form; with no
    /// address, to `REMOTE_IP`.
    pub fn ip6(self, addr: Option<&str>) -> (r: Event)
        ensures
            r@ == (EventView { ip: Some(ip6_text(addr)), ..self@ }),
    {
        let ip = match addr {
            Some(t) => t.to_owned(),
            None => REMOTE_IP.to_owned(),
        };
        Event { ip: Some(ip), ..self }
    }
}

/// The first `n` fields of `e` stand in `m` as `encodes` has them, and the
/// keys of the other fields are not there yet.
spec fn encodes_first(m: Map<Seq<char>, serde_json::Value>, e: EventView, n: int) -> bool {
    &&& if n > 0 { holds_text(m, "event_type"@, e.event_type) } else { !m.contains_key("event_type"@) }
    &&& if n > 1 { holds_text(m, "user_id"@, e.user_id) } else { !m.contains_key("user_id"@) }
    &&& if n > 2 { holds_text(m, "device_id"@, e.device_id) } else { !m.contains_key("device_id"@) }
    &&& if n > 3 { holds_uint(m, "time"@, e.time) } else { !m.contains_key("time"@) }
    &&& if n > 4 { holds_value(m, "event_properties"@, e.event_properties) } else { !m.contains_key("event_properties"@) }
    &&& if n > 5 { holds_value(m, "user_properties"@, e.user_properties) } else { !m.contains_key("user_properties"@) }
    &&& if n > 6 { holds_value(m, "groups"@, e.groups) } else { !m.contains_key("groups"@) }
    &&& if n > 7 { holds_text(m, "app_version"@, e.app_version) } else { !m.contains_key("app_version"@) }
    &&& if n > 8 { holds_text(m, "platform"@, e.platform) } else { !m.contains_key("platform"@) }
    &&& if n > 9 { holds_text(m, "os_name"@, e.os_name) } else { !m.contains_key("os_name"@) }
    &&& if n > 10 { holds_text(m, "os_version"@, e.os_version) } else { !m.contains_key("os_version"@) }
    &&& if n > 11 { holds_text(m, "device_brand"@, e.device_brand) } else { !m.contains_key("device_brand"@) }
    &&& if n > 12 { holds_text(m, "device_manufacturer"@, e.device_manufacturer) } else { !m.contains_key("device_manufacturer"@) }
    &&& if n > 13 { holds_text(m, "device_model"@, e.device_model) } else { !m.contains_key("device_model"@) }
    &&& if n > 14 { holds_text(m, "carrier"@, e.carrier) } else { !m.contains_key("carrier"@) }
    &&& if n > 15 { holds_text(m, "country"@, e.country) } else { !m.contains_key("country"@) }
    &&& if n > 16 { holds_text(m, "region"@, e.region) } else { !m.contains_key("region"@) }
    &&& if n > 17 { holds_text(m, "city"@, e.city) } else { !m.contains_key("city"@) }
    &&& if n > 18 { holds_text(m, "dma"@, e.dma) } else { !m.contains_key("dma"@) }
    &&& if n > 19 { holds_text(m, "language"@, e.language) } else { !m.contains_key("language"@) }
    &&& if n > 20 { holds_number(m, "price"@, e.price) } else { !m.contains_key("price"@) }
    &&& if n > 21 { holds_uint(m, "quantity"@, wide_u32(e.quantity)) } else { !m.contains_key("quantity"@) }
    &&& if n > 22 { holds_number(m, "revenue"@, e.revenue) } else { !m.contains_key("revenue"@) }
    &&& if n > 23 { holds_text(m, "productId"@, e.product_id) } else { !m.contains_key("productId"@) }
    &&& if n > 24 { holds_text(m, "revenueType"@, e.revenue_type) } else { !m.contains_key("revenueType"@) }
    &&& if n > 25 { holds_number(m, "location_lat"@, e.location_lat) } else { !m.contains_key("location_lat"@) }
    &&& if n > 26 { holds_number(m, "location_lng"@, e.location_lng) } else { !m.contains_key("location_lng"@) }
    &&& if n > 27 { holds_text(m, "ip"@, e.ip) } else { !m.contains_key("ip"@) }
    &&& if n > 28 { holds_text(m, "idfa"@, e.idfa) } else { !m.contains_key("idfa"@) }
    &&& if n > 29 { holds_text(m, "idfv"@, e.idfv) } else { !m.contains_key("idfv"@) }
    &&& if n > 30 { holds_text(m, "adid"@, e.adid) } else { !m.contains_key("adid"@) }
    &&& if n > 31 { holds_text(m, "android_id"@, e.android_id) } else { !m.contains_key("android_id"@) }
    &&& if n > 32 { holds_int(m, "event_id"@, wide_i32(e.event_id)) } else { !m.contains_key("event_id"@) }
    &&& if n > 33 { holds_int(m, "session_id"@, e.session_id) } else { !m.contains_key("session_id"@) }
    &&& if n > 34 { holds_text(m, "insert_id"@, e.insert_id) } else { !m.contains_key("insert_id"@) }
    &&& m.dom().subset_of(event_keys())
}


fn put_text(m: &mut serde_json::Map<String, serde_json::Value>, key: &str, val: &Option<String>)
    ensures
        match val {
            Some(s) => object_entries(*final(m)) == object_entries(*old(m)).insert(key@, object_entries(*final(m))[key@])
                && holds_text(object_entries(*final(m)), key@, Some(s@)),
            None => object_entries(*final(m)) == object_entries(*old(m)),
        },
{
    if let Some(s) = val {
        m.insert(key.to_owned(), serde_json::Value::from(s.clone()));
    }
}

fn put_uint(m: &mut serde_json::Map<String, serde_json::Value>, key: &str, val: &Option<u64>)
    ensures
        match val {
            Some(n) => object_entries(*final(m)) == object_entries(*old(m)).insert(key@, object_entries(*final(m))[key@])
                && holds_uint(object_entries(*final(m)), key@, Some(*n)),
            None => object_entries(*final(m)) == object_entries(*old(m)),
        },
{
    if let Some(n) = val {
        m.insert(key.to_owned(), serde_json::Value::from(*n));
    }
}

fn put_u32(m: &mut serde_json::Map<String, serde_json::Value>, key: &str, val: &Option<u32>)
    ensures
        match val {
            Some(n) => object_entries(*final(m)) == object_entries(*old(m)).insert(key@, object_entries(*final(m))[key@])
                && holds_uint(object_entries(*final(m)), key@, Some(*n as u64)),
            None => object_entries(*final(m)) == object_entries(*old(m)),
        },
{
    if let Some(n) = val {
        m.insert(key.to_owned(), serde_json::Value::from(*n as u64));
    }
}

fn put_int(m: &mut serde_json::Map<String, serde_json::Value>, key: &str, val: &Option<i64>)
    ensures
        match val {
            Some(n) => object_entries(*final(m)) == object_entries(*old(m)).insert(key@, object_entries(*final(m))[key@])
                && holds_int(object_entries(*final(m)), key@, Some(*n)),
            None => object_entries(*final(m)) == object_entries(*old(m)),
        },
{
    if let Some(n) = val {
        m.insert(key.to_owned(), serde_json::Value::from(*n));
    }
}

fn put_i32(m: &mut serde_json::Map<String, serde_json::Value>, key: &str, val: &Option<i32>)
    ensures
        match val {
            Some(n) => object_entries(*final(m)) == object_entries(*old(m)).insert(key@, object_entries(*final(m))[key@])
                && holds_int(object_entries(*final(m)), key@, Some(*n as i64)),
            None => object_entries(*final(m)) == object_entries(*old(m)),
        },
{
    if let Some(n) = val {
        m.insert(key.to_owned(), serde_json::Value::from(*n as i64));
    }
}

fn put_number(m: &mut serde_json::Map<String, serde_json::Value>, key: &str, val: &Option<serde_json::Number>)
    ensures
        match val {
            Some(n) => object_entries(*final(m)) == object_entries(*old(m)).insert(key@, object_entries(*final(m))[key@])
                && holds_number(object_entries(*final(m)), key@, Some(*n)),
            None => object_entries(*final(m)) == object_entries(*old(m)),
        },
{
    if let Some(n) = val {
        m.insert(key.to_owned(), serde_json::Value::from(n.clone()));
    }
}

/// Unlike the other fields, a JSON value is stored as it is, `null` included.
fn put_value(m: &mut serde_json::Map<String, serde_json::Value>, key: &str, val: &Option<serde_json::Value>)
    ensures
        match val {
            Some(v) => object_entries(*final(m)) == object_entries(*old(m)).insert(key@, object_entries(*final(m))[key@])
                && holds_value(object_entries(*final(m)), key@, Some(*v)),
            None => object_entries(*final(m)) == object_entries(*old(m)),
        },
{
    if let Some(v) = val {
        m.insert(key.to_owned(), v.clone());
    }
}

/// The keys of an event's JSON form, letter by letter where two of them
/// have the same length.
proof fn lemma_event_keys()
    ensures
        "event_type"@.len() == 10 && "event_type"@[0] == 'e',
        "user_id"@.len() == 7 && "user_id"@[0] == 'u',
        "device_id"@.len() == 9 && "device_id"@[0] == 'd',
        "time"@.len() == 4 && "time"@[0] == 't',
        "event_properties"@.len() == 16,
        "user_properties"@.len() == 15,
        "groups"@.len() == 6 && "groups"@[0] == 'g',
        "app_version"@.len() == 11 && "app_version"@[0] == 'a',
        "platform"@.len() == 8 && "platform"@[0] == 'p',
        "os_name"@.len() == 7 && "os_name"@[0] == 'o',
        "os_version"@.len() == 10 && "os_version"@[0] == 'o',
        "device_brand"@.len() == 12 && "device_brand"@[0] == 'd' && "device_brand"@[7] == 'b',
        "device_manufacturer"@.len() == 19,
        "device_model"@.len() == 12 && "device_model"@[0] == 'd' && "device_model"@[7] == 'm',
        "carrier"@.len() == 7 && "carrier"@[0] == 'c' && "carrier"@[1] == 'a',
        "country"@.len() == 7 && "country"@[0] == 'c' && "country"@[1] == 'o',
        "region"@.len() == 6 && "region"@[0] == 'r',
        "city"@.len() == 4 && "city"@[0] == 'c',
        "dma"@.len() == 3,
        "language"@.len() == 8 && "language"@[0] == 'l',
        "price"@.len() == 5,
        "quantity"@.len() == 8 && "quantity"@[0] == 'q',
        "revenue"@.len() == 7 && "revenue"@[0] == 'r',
        "productId"@.len() == 9 && "productId"@[0] == 'p',
        "revenueType"@.len() == 11 && "revenueType"@[0] == 'r',
        "location_lat"@.len() == 12 && "location_lat"@[0] == 'l' && "location_lat"@[10] == 'a',
        "location_lng"@.len() == 12 && "location_lng"@[0] == 'l' && "location_lng"@[10] == 'n',
        "ip"@.len() == 2,
        "idfa"@.len() == 4 && "idfa"@[0] == 'i' && "idfa"@[3] == 'a',
        "idfv"@.len() == 4 && "idfv"@[0] == 'i' && "idfv"@[3] == 'v',
        "adid"@.len() == 4 && "adid"@[0] == 'a',
        "android_id"@.len() == 10 && "android_id"@[0] == 'a',
        "event_id"@.len() == 8 && "event_id"@[0] == 'e',
        "session_id"@.len() == 10 && "session_id"@[0] == 's',
        "insert_id"@.len() == 9 && "insert_id"@[0] == 'i',
{
    reveal_strlit("event_type");
    reveal_strlit("user_id");
    reveal_strlit("device_id");
    reveal_strlit("time");
    reveal_strlit("event_properties");
    reveal_strlit("user_properties");
    reveal_strlit("groups");
    reveal_strlit("app_version");
    reveal_strlit("platform");
    reveal_strlit("os_name");
    reveal_strlit("os_version");
    reveal_strlit("device_brand");
    reveal_strlit("device_manufacturer");
    reveal_strlit("device_model");
    reveal_strlit("carrier");
    reveal_strlit("country");
    reveal_strlit("region");
    reveal_strlit("city");
    reveal_strlit("dma");
    reveal_strlit("language");
    reveal_strlit("price");
    reveal_strlit("quantity");
    reveal_strlit("revenue");
    reveal_strlit("productId");
    reveal_strlit("revenueType");
    reveal_strlit("location_lat");
    reveal_strlit("location_lng");
    reveal_strlit("ip");
    reveal_strlit("idfa");
    reveal_strlit("idfv");
    reveal_strlit("adid");
    reveal_strlit("android_id");
    reveal_strlit("event_id");
    reveal_strlit("session_id");
    reveal_strlit("insert_id");
}

// The JSON form is built in a few steps of a few fields each, so that each
// step's proof stays small: a step carries `encodes_first` from the number of
// fields done before it to the number done after it.
impl Event {
    #[verifier::rlimit(40)]
    fn put_fields_0_7(&self, m: &mut serde_json::Map<String, serde_json::Value>)
        requires
            encodes_first(object_entries(*old(m)), self@, 0),
        ensures
            encodes_first(object_entries(*final(m)), self@, 7),
    {
        proof {
            lemma_event_keys();
        }
        put_text(m, "event_type", &self.event_type);
        assert(encodes_first(object_entries(*m), self@, 1));
        put_text(m, "user_id", &self.user_id);
        assert(encodes_first(object_entries(*m), self@, 2));
        put_text(m, "device_id", &self.device_id);
        assert(encodes_first(object_entries(*m), self@, 3));
        put_uint(m, "time", &self.time);
        assert(encodes_first(object_entries(*m), self@, 4));
        put_value(m, "event_properties", &self.event_properties);
        assert(encodes_first(object_entries(*m), self@, 5));
        put_value(m, "user_properties", &self.user_properties);
        assert(encodes_first(object_entries(*m), self@, 6));
        put_value(m, "groups", &self.groups);
        assert(encodes_first(object_entries(*m), self@, 7));
    }

    #[verifier::rlimit(40)]
    fn put_fields_7_14(&self, m: &mut serde_json::Map<String, serde_json::Value>)
        requires
            encodes_first(object_entries(*old(m)), self@, 7),
        ensures
            encodes_first(object_entries(*final(m)), self@, 14),
    {
        proof {
            lemma_event_keys();
        }
        put_text(m, "app_version", &self.app_version);
        assert(encodes_first(object_entries(*m), self@, 8));
        put_text(m, "platform", &self.platform);
        assert(encodes_first(object_entries(*m), self@, 9));
        put_text(m, "os_name", &self.os_name);
        assert(encodes_first(object_entries(*m), self@, 10));
        put_text(m, "os_version", &self.os_version);
        assert(encodes_first(object_entries(*m), self@, 11));
        put_text(m, "device_brand", &self.device_brand);
        assert(encodes_first(object_entries(*m), self@, 12));
        put_text(m, "device_manufacturer", &self.device_manufacturer);
        assert(encodes_first(object_entries(*m), self@, 13));
        put_text(m, "device_model", &self.device_model);
        assert(encodes_first(object_entries(*m), self@, 14));
    }

    #[verifier::rlimit(40)]
    fn put_fields_14_21(&self, m: &mut serde_json::Map<String, serde_json::Value>)
        requires
            encodes_first(object_entries(*old(m)), self@, 14),
        ensures
            encodes_first(object_entries(*final(m)), self@, 21),
    {
        proof {
            lemma_event_keys();
        }
        put_text(m, "carrier", &self.carrier);
        assert(encodes_first(object_entries(*m), self@, 15));
        put_text(m, "country", &self.country);
        assert(encodes_first(object_entries(*m), self@, 16));
        put_text(m, "region", &self.region);
        assert(encodes_first(object_entries(*m), self@, 17));
        put_text(m, "city", &self.city);
        assert(encodes_first(object_entries(*m), self@, 18));
        put_text(m, "dma", &self.dma);
        assert(encodes_first(object_entries(*m), self@, 19));
        put_text(m, "language", &self.language);
        assert(encodes_first(object_entries(*m), self@, 20));
        put_number(m, "price", &self.price);
        assert(encodes_first(object_entries(*m), self@, 21));
    }

    #[verifier::rlimit(40)]
    fn put_fields_21_28(&self, m: &mut serde_json::Map<String, serde_json::Value>)
        requires
            encodes_first(object_entries(*old(m)), self@, 21),
        ensures
            encodes_first(object_entries(*final(m)), self@, 28),
    {
        proof {
            lemma_event_keys();
        }
        put_u32(m, "quantity", &self.quantity);
        assert(encodes_first(object_entries(*m), self@, 22));
        put_number(m, "revenue", &self.revenue);
        assert(encodes_first(object_entries(*m), self@, 23));
        put_text(m, "productId", &self.product_id);
        assert(encodes_first(object_entries(*m), self@, 24));
        put_text(m, "revenueType", &self.revenue_type);
        assert(encodes_first(object_entries(*m), self@, 25));
        put_number(m, "location_lat", &self.location_lat);
        assert(encodes_first(object_entries(*m), self@, 26));
        put_number(m, "location_lng", &self.location_lng);
        assert(encodes_first(object_entries(*m), self@, 27));
        put_text(m, "ip", &self.ip);
        assert(encodes_first(object_entries(*m), self@, 28));
    }

    #[verifier::rlimit(40)]
    fn put_fields_28_32(&self, m: &mut serde_json::Map<String, serde_json::Value>)
        requires
            encodes_first(object_entries(*old(m)), self@, 28),
        ensures
            encodes_first(object_entries(*final(m)), self@, 32),
    {
        proof {
            lemma_event_keys();
        }
        put_text(m, "idfa", &self.idfa);
        assert(encodes_first(object_entries(*m), self@, 29));
        put_text(m, "idfv", &self.idfv);
        assert(encodes_first(object_entries(*m), self@, 30));
        put_text(m, "adid", &self.adid);
        assert(encodes_first(object_entries(*m), self@, 31));
        put_text(m, "android_id", &self.android_id);
        assert(encodes_first(object_entries(*m), self@, 32));
    }

    #[verifier::rlimit(40)]
    fn put_fields_32_35(&self, m: &mut serde_json::Map<String, serde_json::Value>)
        requires
            encodes_first(object_entries(*old(m)), self@, 32),
        ensures
            encodes_first(object_entries(*final(m)), self@, 35),
    {
        proof {
            lemma_event_keys();
        }
        put_i32(m, "event_id", &self.event_id);
        assert(encodes_first(object_entries(*m), self@, 33));
        put_int(m, "session_id", &self.session_id);
        assert(encodes_first(object_entries(*m), self@, 34));
        put_text(m, "insert_id", &self.insert_id);
        assert(encodes_first(object_entries(*m), self@, 35));
    }

}

impl Event {
    /// The JSON object form of the event: each field that is set under its
    /// key, the others left out.
    pub fn to_json(&self) -> (r: serde_json::Value)
        ensures
            json_object(r) matches Some(m) && encodes(m, self@),
    {
        let mut m = serde_json::Map::new();
        self.put_fields_0_7(&mut m);
        self.put_fields_7_14(&mut m);
        self.put_fields_14_21(&mut m);
        self.put_fields_21_28(&mut m);
        self.put_fields_28_32(&mut m);
        self.put_fields_32_35(&mut m);
        serde_json::Value::from(m)
    }
}


fn take_text(m: &serde_json::Map<String, serde_json::Value>, key: &str) -> (r: Result<Option<String>, AmplitudeError>)
    ensures
        match r {
            Ok(o) => text_field(object_entries(*m), key@) == Ok::<_, ()>(opt_text(o)),
            Err(e) => text_field(object_entries(*m), key@) is Err && e is InvalidField,
        },
{
    match read_text(m, key) {
        Ok(o) => Ok(o),
        Err(_) => Err(AmplitudeError::InvalidField(key.to_owned())),
    }
}

fn take_uint(m: &serde_json::Map<String, serde_json::Value>, key: &str) -> (r: Result<Option<u64>, AmplitudeError>)
    ensures
        match r {
            Ok(o) => uint_field(object_entries(*m), key@, u64::MAX) == Ok::<_, ()>(o),
            Err(e) => uint_field(object_entries(*m), key@, u64::MAX) is Err && e is InvalidField,
        },
{
    match read_uint(m, key, u64::MAX) {
        Ok(o) => Ok(o),
        Err(_) => Err(AmplitudeError::InvalidField(key.to_owned())),
    }
}

fn take_u32(m: &serde_json::Map<String, serde_json::Value>, key: &str) -> (r: Result<Option<u32>, AmplitudeError>)
    ensures
        match r {
            Ok(o) => uint_field(object_entries(*m), key@, u32::MAX as u64) == Ok::<_, ()>(wide_u32(o)),
            Err(e) => uint_field(object_entries(*m), key@, u32::MAX as u64) is Err && e is InvalidField,
        },
{
    match read_uint(m, key, 0xffff_ffff) {
        Ok(Some(n)) => Ok(Some(n as u32)),
        Ok(None) => Ok(None),
        Err(_) => Err(AmplitudeError::InvalidField(key.to_owned())),
    }
}

fn take_int(m: &serde_json::Map<String, serde_json::Value>, key: &str) -> (r: Result<Option<i64>, AmplitudeError>)
    ensures
        match r {
            Ok(o) => int_field(object_entries(*m), key@, i64::MIN, i64::MAX) == Ok::<_, ()>(o),
            Err(e) => int_field(object_entries(*m), key@, i64::MIN, i64::MAX) is Err && e is InvalidField,
        },
{
    match read_int(m, key, i64::MIN, i64::MAX) {
        Ok(o) => Ok(o),
        Err(_) => Err(AmplitudeError::InvalidField(key.to_owned())),
    }
}

fn take_i32(m: &serde_json::Map<String, serde_json::Value>, key: &str) -> (r: Result<Option<i32>, AmplitudeError>)
    ensures
        match r {
            Ok(o) => int_field(object_entries(*m), key@, i32::MIN as i64, i32::MAX as i64) == Ok::<_, ()>(wide_i32(o)),
            Err(e) => int_field(object_entries(*m), key@, i32::MIN as i64, i32::MAX as i64) is Err && e is InvalidField,
        },
{
    match read_int(m, key, i32::MIN as i64, i32::MAX as i64) {
        Ok(Some(n)) => Ok(Some(n as i32)),
        Ok(None) => Ok(None),
        Err(_) => Err(AmplitudeError::InvalidField(key.to_owned())),
    }
}

fn take_number(m: &serde_json::Map<String, serde_json::Value>, key: &str) -> (r: Result<Option<serde_json::Number>, AmplitudeError>)
    ensures
        match r {
            Ok(o) => number_field(object_entries(*m), key@) == Ok::<_, ()>(o),
            Err(e) => number_field(object_entries(*m), key@) is Err && e is InvalidField,
        },
{
    match read_number(m, key) {
        Ok(o) => Ok(o),
        Err(_) => Err(AmplitudeError::InvalidField(key.to_owned())),
    }
}

impl Event {
    /// Makes an event from its JSON object form. The object must name a user
    /// or a device, and then hold a non-empty string under `event_type`
    /// (`ValidationError` otherwise, before anything else is read); each field
    /// it knows must hold a value of the field's kind (`InvalidField`
    /// otherwise). A missing or `null` field stays unset, and keys that an
    /// event does not know are passed over.
    pub fn from_json(val: serde_json::Value) -> (r: Result<Event, AmplitudeError>)
        ensures
            match r {
                Ok(e) => value_names_identity(val) && value_names_event_type(val)
                    && (json_object(val) matches Some(m) && event_readable(m) && e@ == read_event(m)),
                Err(AmplitudeError::ValidationError(msg)) => (!value_names_identity(val) && msg@ == IDENTITY_REQUIRED@)
                    || (value_names_identity(val) && !value_names_event_type(val) && msg@ == EVENT_TYPE_REQUIRED@),
                Err(AmplitudeError::InvalidField(_)) => value_names_identity(val) && value_names_event_type(val)
                    && (json_object(val) matches Some(m) && !event_readable(m)),
                Err(_) => false,
            },
    {
        let m = match val.as_object() {
            Some(m) => m,
            None => {
                return Err(AmplitudeError::ValidationError(IDENTITY_REQUIRED.to_owned()));
            },
        };
        if get_field(m, "user_id").is_none() && get_field(m, "device_id").is_none() {
            return Err(AmplitudeError::ValidationError(IDENTITY_REQUIRED.to_owned()));
        }
        let has_type = match get_field(m, "event_type") {
            Some(v) => match v.as_str() {
                Some(t) => !t.is_empty(),
                None => false,
            },
            None => false,
        };
        if !has_type {
            return Err(AmplitudeError::ValidationError(EVENT_TYPE_REQUIRED.to_owned()));
        }
        let event_type = take_text(m, "event_type")?;
        let user_id = take_text(m, "user_id")?;
        let device_id = take_text(m, "device_id")?;
        let time = take_uint(m, "time")?;
        let event_properties = read_value(m, "event_properties");
        let user_properties = read_value(m, "user_properties");
        let groups = read_value(m, "groups");
        let app_version = take_text(m, "app_version")?;
        let platform = take_text(m, "platform")?;
        let os_name = take_text(m, "os_name")?;
        let os_version = take_text(m, "os_version")?;
        let device_brand = take_text(m, "device_brand")?;
        let device_manufacturer = take_text(m, "device_manufacturer")?;
        let device_model = take_text(m, "device_model")?;
        let carrier = take_text(m, "carrier")?;
        let country = take_text(m, "country")?;
        let region = take_text(m, "region")?;
        let city = take_text(m, "city")?;
        let dma = take_text(m, "dma")?;
        let language = take_text(m, "language")?;
        let price = take_number(m, "price")?;
        let quantity = take_u32(m, "quantity")?;
        let revenue = take_number(m, "revenue")?;
        let product_id = take_text(m, "productId")?;
        let revenue_type = take_text(m, "revenueType")?;
        let location_lat = take_number(m, "location_lat")?;
        let location_lng = take_number(m, "location_lng")?;
        let ip = take_text(m, "ip")?;
        let idfa = take_text(m, "idfa")?;
        let idfv = take_text(m, "idfv")?;
        let adid = take_text(m, "adid")?;
        let android_id = take_text(m, "android_id")?;
        let event_id = take_i32(m, "event_id")?;
        let session_id = take_int(m, "session_id")?;
        let insert_id = take_text(m, "insert_id")?;
        Ok(Event {
            event_type,
            user_id,
            device_id,
            time,
            event_properties,
            user_properties,
            groups,
            app_version,
            platform,
            os_name,
            os_version,
            device_brand,
            device_manufacturer,
            device_model,
            carrier,
            country,
            region,
            city,
            dma,
            language,
            price,
            quantity,
            revenue,
            product_id,
            revenue_type,
            location_lat,
            location_lng,
            ip,
            idfa,
            idfv,
            adid,
            android_id,
            event_id,
            session_id,
            insert_id,
        })
    }
}

/// Reading back the JSON form of an event gives the event again, field for
/// field, and the form holds no `null`: a field left unset is left out. This
/// holds of every event that may be sent (the others are not read back) and
/// whose JSON-valued fields do not hold `null` (such a field is written as
/// `null` and reads back as unset).
pub proof fn lemma_json_round_trip(e: EventView, v: serde_json::Value)
    requires
        json_object(v) matches Some(m) && encodes(m, e),
        e.sendable(),
        e.properties_not_null(),
    ensures
        value_names_identity(v) && value_names_event_type(v),
        json_object(v) matches Some(m) && event_readable(m) && read_event(m) == e,
        json_object(v) matches Some(m) && (forall|k: Seq<char>| #[trigger] m.contains_key(k) ==> !json_is_null(m[k])),
{
    let m = json_object(v).unwrap();
    assert(read_event(m) == e);
    assert forall|k: Seq<char>| #[trigger] m.contains_key(k) implies !json_is_null(m[k]) by {
        assert(event_keys().contains(k));
    }
}

/// Options of one upload that the service applies.
#[derive(Clone, Copy, Debug, PartialEq, Eq, Structural)]
pub struct ApiOptions {
    /// The least length the service accepts for `user_id` and `device_id`.
    pub min_id_length: Option<u16>,
}

/// `m` is the JSON form of the options `o`.
pub open spec fn encodes_options(m: Map<Seq<char>, serde_json::Value>, o: ApiOptions) -> bool {
    &&& holds_uint(m, "min_id_length"@, wide_u16(o.min_id_length))
    &&& m.dom().subset_of(set!["min_id_length"@])
}

impl ApiOptions {
    /// The JSON object form of the options; an unset option is left out.
    pub fn to_json(&self) -> (r: serde_json::Value)
        ensures
            json_object(r) matches Some(m) && encodes_options(m, *self),
    {
        let mut m = serde_json::Map::new();
        if let Some(n) = self.min_id_length {
            m.insert("min_id_length".to_owned(), serde_json::Value::from(n as u64));
        }
        serde_json::Value::from(m)
    }
}

/// What one upload sends: the credential, the events in order, and the
/// options, if any.
#[derive(Clone, Debug)]
pub struct UploadBody {
    pub api_key: String,
    pub events: Vec<Event>,
    pub options: Option<ApiOptions>,
}

/// `m` is the JSON form of an upload of `events`: the credential under
/// `api_key`, the JSON forms of the events in order under `events`, and the
/// options under `options` where there are any.
pub open spec fn encodes_upload(
    m: Map<Seq<char>, serde_json::Value>,
    api_key: Seq<char>,
    events: Seq<Event>,
    options: Option<ApiOptions>,
) -> bool {
    &&& holds_text(m, "api_key"@, Some(api_key))
    &&& m.contains_key("events"@)
    &&& json_array(m["events"@]) matches Some(a) && a.len() == events.len()
        && forall|i: int| 0 <= i < a.len() ==> (json_object(#[trigger] a[i]) matches Some(em)
            && encodes(em, events[i]@))
    &&& match options {
        Some(o) => m.contains_key("options"@) && (json_object(m["options"@]) matches Some(om)
            && encodes_options(om, o)),
        None => !m.contains_key("options"@),
    }
    &&& m.dom().subset_of(set!["api_key"@, "events"@, "options"@])
}

impl UploadBody {
    /// The JSON forms of the events, in order.
    pub fn event_values(&self) -> (r: Vec<serde_json::Value>)
        ensures
            r@.len() == self.events@.len(),
            forall|i: int| 0 <= i < r@.len() ==> (json_object(#[trigger] r@[i]) matches Some(m)
                && encodes(m, self.events@[i]@)),
    {
        let mut out: Vec<serde_json::Value> = Vec::new();
        let mut i: usize = 0;
        while i < self.events.len()
            invariant
                i <= self.events@.len(),
                out@.len() == i,
                forall|j: int| 0 <= j < i ==> (json_object(#[trigger] out@[j]) matches Some(m)
                    && encodes(m, self.events@[j]@)),
            decreases self.events@.len() - i,
        {
            out.push(self.events[i].to_json());
            i = i + 1;
        }
        out
    }

    /// The JSON object form of the upload.
    pub fn to_json(&self) -> (r: serde_json::Value)
        ensures
            json_object(r) matches Some(m) && encodes_upload(m, self.api_key@, self.events@, self.options),
    {
        proof {
            reveal_strlit("api_key");
            reveal_strlit("events");
            reveal_strlit("options");
            assert("api_key"@[0] == 'a' && "options"@[0] == 'o' && "events"@.len() == 6);
        }
        let mut m = serde_json::Map::new();
        m.insert("api_key".to_owned(), serde_json::Value::from(self.api_key.clone()));
        m.insert("events".to_owned(), array_value(self.event_values()));
        if let Some(o) = &self.options {
            m.insert("options".to_owned(), o.to_json());
        }
        serde_json::Value::from(m)
    }
}

} // verus!
