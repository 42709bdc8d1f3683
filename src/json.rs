//! The parts of `serde_json` that the library relies on, the model of a JSON
//! value that the contracts speak of, and verified readers of object fields.
use vstd::prelude::*;

verus! {

#[verifier::external_type_specification]
#[verifier::external_body]
pub struct ExValue(serde_json::Value);

#[verifier::external_type_specification]
#[verifier::external_body]
pub struct ExNumber(serde_json::Number);

#[verifier::external_type_specification]
#[verifier::external_body]
pub struct ExJsonError(serde_json::Error);

#[verifier::external_type_specification]
#[verifier::external_body]
#[verifier::reject_recursive_types(K)]
#[verifier::reject_recursive_types(V)]
pub struct ExMap<K, V>(serde_json::Map<K, V>);

// ---------------------------------------------------------------------------
// What a JSON value holds, as far as the library reads it.
// ---------------------------------------------------------------------------

/// The text of a JSON string value (`None` for any other kind of value).
pub uninterp spec fn json_text(v: serde_json::Value) -> Option<Seq<char>>;

/// The value of a JSON number as `u64`, where it is a non-negative integer.
pub uninterp spec fn json_u64(v: serde_json::Value) -> Option<u64>;

/// The value of a JSON number as `i64`, where it is an integer in range.
pub uninterp spec fn json_i64(v: serde_json::Value) -> Option<i64>;

/// The number that a JSON number value holds.
pub uninterp spec fn json_number(v: serde_json::Value) -> Option<serde_json::Number>;

/// Whether a JSON value is `null`.
pub uninterp spec fn json_is_null(v: serde_json::Value) -> bool;

/// The elements of a JSON array value.
pub uninterp spec fn json_array(v: serde_json::Value) -> Option<Seq<serde_json::Value>>;

/// The entries of a serde_json object map, keyed by the keys' text.
pub uninterp spec fn object_entries(m: serde_json::Map<String, serde_json::Value>) -> Map<Seq<char>, serde_json::Value>;

/// The value that a JSON text parses to, `None` where it is not valid JSON.
pub uninterp spec fn json_parse(text: Seq<char>) -> Option<serde_json::Value>;

/// The entries of a JSON object value.
pub uninterp spec fn json_object(v: serde_json::Value) -> Option<Map<Seq<char>, serde_json::Value>>;

// ---------------------------------------------------------------------------
// Building values.
// ---------------------------------------------------------------------------

/// Relies on `impl From<String> for Value`, which builds `Value::String`.
pub assume_specification[ <serde_json::Value as core::convert::From<String>>::from ](
    s: String,
) -> (r: serde_json::Value)
    ensures
        json_text(r) == Some(s@),
        !json_is_null(r),
;

/// Relies on `impl From<u64> for Value`, which builds a non-negative integer number.
pub assume_specification[ <serde_json::Value as core::convert::From<u64>>::from ](
    n: u64,
) -> (r: serde_json::Value)
    ensures
        json_u64(r) == Some(n),
        !json_is_null(r),
;

/// Relies on `impl From<i64> for Value`, which builds an integer number.
pub assume_specification[ <serde_json::Value as core::convert::From<i64>>::from ](
    n: i64,
) -> (r: serde_json::Value)
    ensures
        json_i64(r) == Some(n),
        !json_is_null(r),
;

/// Relies on `impl From<Number> for Value`, which builds `Value::Number`.
pub assume_specification[ <serde_json::Value as core::convert::From<serde_json::Number>>::from ](
    n: serde_json::Number,
) -> (r: serde_json::Value)
    ensures
        json_number(r) == Some(n),
        !json_is_null(r),
;

/// Relies on `impl From<Map<String, Value>> for Value`, which builds `Value::Object`.
pub assume_specification[ <serde_json::Value as core::convert::From<serde_json::Map<String, serde_json::Value>>>::from ](
    m: serde_json::Map<String, serde_json::Value>,
) -> (r: serde_json::Value)
    ensures
        json_object(r) == Some(object_entries(m)),
        !json_is_null(r),
;

/// Relies on `Map::new`, which makes an empty map.
pub assume_specification[ serde_json::Map::<String, serde_json::Value>::new ]() -> (r: serde_json::Map<String, serde_json::Value>)
    ensures
        object_entries(r).dom().is_empty(),
;

/// Relies on `Map::insert`, which stores `v` under `k`, replacing an earlier value.
pub assume_specification[ serde_json::Map::<String, serde_json::Value>::insert ](
    m: &mut serde_json::Map<String, serde_json::Value>,
    k: String,
    v: serde_json::Value,
) -> (r: Option<serde_json::Value>)
    ensures
        object_entries(*final(m)) == object_entries(*old(m)).insert(k@, v),
;

/// Relies on `impl Clone for Value`, derived: the copy equals the value it was made from.
pub assume_specification[ <serde_json::Value as Clone>::clone ](v: &serde_json::Value) -> (r: serde_json::Value)
    ensures
        r == *v,
;

/// Relies on `impl Clone for Number`, derived: the copy equals the value it was made from.
pub assume_specification[ <serde_json::Number as Clone>::clone ](n: &serde_json::Number) -> (r: serde_json::Number)
    ensures
        r == *n,
;

/// Relies on `impl Clone for Map`: the copy holds the same entries.
pub assume_specification[ <serde_json::Map<String, serde_json::Value> as Clone>::clone ](m: &serde_json::Map<String, serde_json::Value>) -> (r: serde_json::Map<String, serde_json::Value>)
    ensures
        object_entries(r) == object_entries(*m),
;

// ---------------------------------------------------------------------------
// Reading values.
// ---------------------------------------------------------------------------

/// Relies on `Value::as_str`: the text of a `Value::String`, `None` otherwise.
pub assume_specification[ serde_json::Value::as_str ](v: &serde_json::Value) -> (r: Option<&str>)
    ensures
        match r {
            Some(s) => json_text(*v) == Some(s@),
            None => json_text(*v) is None,
        },
;

/// Relies on `Value::as_u64`: a number that is a non-negative integer, `None` otherwise.
pub assume_specification[ serde_json::Value::as_u64 ](v: &serde_json::Value) -> (r: Option<u64>)
    ensures
        r == json_u64(*v),
;

/// Relies on `Value::as_i64`: a number that is an integer within `i64`, `None` otherwise.
pub assume_specification[ serde_json::Value::as_i64 ](v: &serde_json::Value) -> (r: Option<i64>)
    ensures
        r == json_i64(*v),
;

/// Relies on `Value::as_number`: the number of a `Value::Number`, `None` otherwise.
pub assume_specification[ serde_json::Value::as_number ](v: &serde_json::Value) -> (r: Option<&serde_json::Number>)
    ensures
        match r {
            Some(n) => json_number(*v) == Some(*n),
            None => json_number(*v) is None,
        },
;

/// Relies on `Value::is_null`: whether the value is `Value::Null`.
pub assume_specification[ serde_json::Value::is_null ](v: &serde_json::Value) -> (r: bool)
    ensures
        r == json_is_null(*v),
;

/// Relies on `Value::as_array`: the elements of a `Value::Array`, `None` otherwise.
pub assume_specification[ serde_json::Value::as_array ](v: &serde_json::Value) -> (r: Option<&Vec<serde_json::Value>>)
    ensures
        match r {
            Some(a) => json_array(*v) == Some(a@),
            None => json_array(*v) is None,
        },
;

/// Relies on `Value::as_object`: the map of a `Value::Object`, `None` otherwise.
pub assume_specification[ serde_json::Value::as_object ](v: &serde_json::Value) -> (r: Option<&serde_json::Map<String, serde_json::Value>>)
    ensures
        match r {
            Some(m) => json_object(*v) == Some(object_entries(*m)),
            None => json_object(*v) is None,
        },
;

/// Relies on `impl From<Vec<T>> for Value`, which builds `Value::Array` of the
/// elements converted one by one; a `Value` converts to itself.
#[verifier::external_body]
pub(crate) fn array_value(values: Vec<serde_json::Value>) -> (r: serde_json::Value)
    ensures
        json_array(r) == Some(values@),
        !json_is_null(r),
{
    serde_json::Value::from(values)
}

/// Relies on `Map::get`: the value stored under `key`, if there is one.
#[verifier::external_body]
fn object_get<'a>(m: &'a serde_json::Map<String, serde_json::Value>, key: &str) -> (r: Option<&'a serde_json::Value>)
    ensures
        match r {
            Some(v) => object_entries(*m).contains_key(key@) && object_entries(*m)[key@] == *v,
            None => !object_entries(*m).contains_key(key@),
        },
{
    m.get(key)
}

/// Relies on `serde_json::from_str::<Value>`: the parse of a JSON text, which
/// depends on the text alone.
#[verifier::external_body]
pub(crate) fn parse_json(text: &str) -> (r: Result<serde_json::Value, serde_json::Error>)
    ensures
        match r {
            Ok(v) => json_parse(text@) == Some(v),
            Err(_) => json_parse(text@) is None,
        },
{
    serde_json::from_str(text)
}

// ---------------------------------------------------------------------------
// Fields of an object, read the way a missing-or-null field reads as absent.
// ---------------------------------------------------------------------------

/// The value under `k`, unless it is missing or `null`.
pub open spec fn field(m: Map<Seq<char>, serde_json::Value>, k: Seq<char>) -> Option<serde_json::Value> {
    if m.contains_key(k) && !json_is_null(m[k]) {
        Some(m[k])
    } else {
        None
    }
}

/// A text field: absent, a string, or of the wrong kind (`Err`).
pub open spec fn text_field(m: Map<Seq<char>, serde_json::Value>, k: Seq<char>) -> Result<Option<Seq<char>>, ()> {
    match field(m, k) {
        None => Ok(None),
        Some(v) => match json_text(v) {
            Some(s) => Ok(Some(s)),
            None => Err(()),
        },
    }
}

/// An unsigned integer field no larger than `max`.
pub open spec fn uint_field(m: Map<Seq<char>, serde_json::Value>, k: Seq<char>, max: u64) -> Result<Option<u64>, ()> {
    match field(m, k) {
        None => Ok(None),
        Some(v) => match json_u64(v) {
            Some(n) => if n <= max { Ok(Some(n)) } else { Err(()) },
            None => Err(()),
        },
    }
}

/// A signed integer field within `min ..= max`.
pub open spec fn int_field(m: Map<Seq<char>, serde_json::Value>, k: Seq<char>, min: i64, max: i64) -> Result<Option<i64>, ()> {
    match field(m, k) {
        None => Ok(None),
        Some(v) => match json_i64(v) {
            Some(n) => if min <= n && n <= max { Ok(Some(n)) } else { Err(()) },
            None => Err(()),
        },
    }
}

/// A number field (integer or not).
pub open spec fn number_field(m: Map<Seq<char>, serde_json::Value>, k: Seq<char>) -> Result<Option<serde_json::Number>, ()> {
    match field(m, k) {
        None => Ok(None),
        Some(v) => match json_number(v) {
            Some(n) => Ok(Some(n)),
            None => Err(()),
        },
    }
}

/// An object field.
pub open spec fn object_field(m: Map<Seq<char>, serde_json::Value>, k: Seq<char>) -> Result<Option<Map<Seq<char>, serde_json::Value>>, ()> {
    match field(m, k) {
        None => Ok(None),
        Some(v) => match json_object(v) {
            Some(o) => Ok(Some(o)),
            None => Err(()),
        },
    }
}

/// Whether every element of `a` is an unsigned integer that fits in `u32`.
pub open spec fn all_u32(a: Seq<serde_json::Value>) -> bool {
    forall|i: int| 0 <= i < a.len() ==> #[trigger] json_u64(a[i]) is Some && json_u64(a[i]).unwrap() <= u32::MAX
}

/// The elements of `a` as `u32`, where `all_u32(a)` holds.
pub open spec fn u32_elements(a: Seq<serde_json::Value>) -> Seq<u32> {
    a.map_values(|v: serde_json::Value| json_u64(v).unwrap() as u32)
}

/// An array field whose elements are all `u32`.
pub open spec fn u32_list_field(m: Map<Seq<char>, serde_json::Value>, k: Seq<char>) -> Result<Option<Seq<u32>>, ()> {
    match field(m, k) {
        None => Ok(None),
        Some(v) => match json_array(v) {
            Some(a) => if all_u32(a) { Ok(Some(u32_elements(a))) } else { Err(()) },
            None => Err(()),
        },
    }
}

/// An optional `u16` as `u64`.
pub open spec fn wide_u16(o: Option<u16>) -> Option<u64> {
    match o {
        Some(n) => Some(n as u64),
        None => None,
    }
}

/// An optional `u32` as `u64`.
pub open spec fn wide_u32(o: Option<u32>) -> Option<u64> {
    match o {
        Some(n) => Some(n as u64),
        None => None,
    }
}

/// The text of an optional string.
pub open spec fn opt_text(o: Option<String>) -> Option<Seq<char>> {
    match o {
        Some(s) => Some(s@),
        None => None,
    }
}

/// The entries of an optional object map.
pub open spec fn opt_entries(o: Option<serde_json::Map<String, serde_json::Value>>) -> Option<Map<Seq<char>, serde_json::Value>> {
    match o {
        Some(m) => Some(object_entries(m)),
        None => None,
    }
}

/// The value under `key`, unless it is missing or `null`.
pub fn get_field<'a>(m: &'a serde_json::Map<String, serde_json::Value>, key: &str) -> (r: Option<&'a serde_json::Value>)
    ensures
        match r {
            Some(v) => field(object_entries(*m), key@) == Some(*v),
            None => field(object_entries(*m), key@) is None,
        },
{
    match object_get(m, key) {
        Some(v) => if v.is_null() { None } else { Some(v) },
        None => None,
    }
}

/// Reads a text field.
pub fn read_text(m: &serde_json::Map<String, serde_json::Value>, key: &str) -> (r: Result<Option<String>, ()>)
    ensures
        match r {
            Ok(o) => text_field(object_entries(*m), key@) == Ok::<_, ()>(opt_text(o)),
            Err(_) => text_field(object_entries(*m), key@) is Err,
        },
{
    match get_field(m, key) {
        None => Ok(None),
        Some(v) => match v.as_str() {
            Some(s) => Ok(Some(s.to_owned())),
            None => Err(()),
        },
    }
}

/// Reads an unsigned integer field no larger than `max`.
pub fn read_uint(m: &serde_json::Map<String, serde_json::Value>, key: &str, max: u64) -> (r: Result<Option<u64>, ()>)
    ensures
        r == uint_field(object_entries(*m), key@, max),
{
    match get_field(m, key) {
        None => Ok(None),
        Some(v) => match v.as_u64() {
            Some(n) => if n <= max { Ok(Some(n)) } else { Err(()) },
            None => Err(()),
        },
    }
}

/// Reads a signed integer field within `min ..= max`.
pub fn read_int(m: &serde_json::Map<String, serde_json::Value>, key: &str, min: i64, max: i64) -> (r: Result<Option<i64>, ()>)
    ensures
        r == int_field(object_entries(*m), key@, min, max),
{
    match get_field(m, key) {
        None => Ok(None),
        Some(v) => match v.as_i64() {
            Some(n) => if min <= n && n <= max { Ok(Some(n)) } else { Err(()) },
            None => Err(()),
        },
    }
}

/// Reads a number field.
pub fn read_number(m: &serde_json::Map<String, serde_json::Value>, key: &str) -> (r: Result<Option<serde_json::Number>, ()>)
    ensures
        r == number_field(object_entries(*m), key@),
{
    match get_field(m, key) {
        None => Ok(None),
        Some(v) => match v.as_number() {
            Some(n) => Ok(Some(n.clone())),
            None => Err(()),
        },
    }
}

/// Reads a field of any kind.
pub fn read_value(m: &serde_json::Map<String, serde_json::Value>, key: &str) -> (r: Option<serde_json::Value>)
    ensures
        r == field(object_entries(*m), key@),
{
    match get_field(m, key) {
        None => None,
        Some(v) => Some(v.clone()),
    }
}

/// Reads an object field.
pub fn read_object(m: &serde_json::Map<String, serde_json::Value>, key: &str) -> (r: Result<Option<serde_json::Map<String, serde_json::Value>>, ()>)
    ensures
        match r {
            Ok(o) => object_field(object_entries(*m), key@) == Ok::<_, ()>(opt_entries(o)),
            Err(_) => object_field(object_entries(*m), key@) is Err,
        },
{
    match get_field(m, key) {
        None => Ok(None),
        Some(v) => match v.as_object() {
            Some(o) => Ok(Some(o.clone())),
            None => Err(()),
        },
    }
}

/// Reads an array field whose elements all fit in `u32`.
pub fn read_u32_list(m: &serde_json::Map<String, serde_json::Value>, key: &str) -> (r: Result<Option<Vec<u32>>, ()>)
    ensures
        match r {
            Ok(Some(l)) => u32_list_field(object_entries(*m), key@) == Ok::<_, ()>(Some(l@)),
            Ok(None) => u32_list_field(object_entries(*m), key@) == Ok::<_, ()>(None::<Seq<u32>>),
            Err(_) => u32_list_field(object_entries(*m), key@) is Err,
        },
{
    let v = match get_field(m, key) {
        None => { return Ok(None); },
        Some(v) => v,
    };
    let a = match v.as_array() {
        None => { return Err(()); },
        Some(a) => a,
    };
    let mut out: Vec<u32> = Vec::new();
    let mut i: usize = 0;
    while i < a.len()
        invariant
            field(object_entries(*m), key@) == Some(*v),
            json_array(*v) == Some(a@),
            i <= a@.len(),
            out@.len() == i,
            forall|j: int| 0 <= j < i ==> #[trigger] json_u64(a@[j]) is Some && json_u64(a@[j]).unwrap() <= u32::MAX,
            forall|j: int| 0 <= j < i ==> out@[j] == json_u64(a@[j]).unwrap() as u32,
        decreases a@.len() - i,
    {
        match a[i].as_u64() {
            Some(n) => {
                if n > u32::MAX as u64 {
                    assert(!all_u32(a@)) by {
                        assert(json_u64(a@[i as int]) == Some(n));
                    }
                    return Err(());
                }
                out.push(n as u32);
            },
            None => {
                assert(!all_u32(a@)) by {
                    assert(json_u64(a@[i as int]) is None);
                }
                return Err(());
            },
        }
        i = i + 1;
    }
    assert(out@ =~= u32_elements(a@));
    Ok(Some(out))
}

} // verus!
