//! Decoders and the one encoder for the platform's JSON wire schema, stated
//! against the document model in `json`.
//!
//! Each decoder is exact: a shape predicate says precisely which documents
//! decode, and a matching predicate pins every field of the decoded value.

use crate::dto::{Activity, Data, Device, Devices, Event, Person, WebexError};
use crate::error::Error;
use crate::json::{
    bytes_of_json, flat_entries, flat_json_object, json_doc_of, json_to_bytes, obj_get,
    obj_lookup, parse_json, scalar_json, str_eq_string, JsonList, JsonObj, JsonValue,
};
use vstd::prelude::*;
use vstd::string::StringExecFns;

verus! {

// ---------------------------------------------------------------------------
// Field shapes
// ---------------------------------------------------------------------------
/// An optional string field: absent, null, or a string.
pub open spec fn opt_str_ok(o: JsonObj, key: Seq<char>) -> bool {
    match obj_lookup(o, key) {
        None => true,
        Some(v) => v is Str || v is Null,
    }
}

/// The characters of a string field, where one is present.
pub open spec fn opt_str_val(o: JsonObj, key: Seq<char>) -> Option<Seq<char>> {
    match obj_lookup(o, key) {
        Some(JsonValue::Str(s)) => Some(s@),
        _ => None,
    }
}

/// Relates a decoded optional string to the field it came from.
pub open spec fn opt_str_matches(x: Option<String>, v: Option<Seq<char>>) -> bool {
    match v {
        Some(s) => x matches Some(t) && t@ == s,
        None => x is None,
    }
}

/// An optional boolean field: absent, null, or a boolean.
pub open spec fn opt_bool_ok(o: JsonObj, key: Seq<char>) -> bool {
    match obj_lookup(o, key) {
        None => true,
        Some(v) => v is Bool || v is Null,
    }
}

/// The value of a boolean field, where one is present.
pub open spec fn opt_bool_val(o: JsonObj, key: Seq<char>) -> Option<bool> {
    match obj_lookup(o, key) {
        Some(JsonValue::Bool(b)) => Some(b),
        _ => None,
    }
}

/// An optional unsigned 32-bit field: absent, null, or an integer in range.
pub open spec fn opt_u32_ok(o: JsonObj, key: Seq<char>) -> bool {
    match obj_lookup(o, key) {
        None => true,
        Some(v) => match v {
            JsonValue::Null => true,
            JsonValue::Int(n) => 0 <= n <= u32::MAX,
            _ => false,
        },
    }
}

/// The value of an in-range integer field, where one is present.
pub open spec fn opt_u32_val(o: JsonObj, key: Seq<char>) -> Option<int> {
    match obj_lookup(o, key) {
        Some(JsonValue::Int(n)) => if 0 <= n <= u32::MAX {
            Some(n as int)
        } else {
            None
        },
        _ => None,
    }
}

/// Relates a decoded optional number to the field it came from.
pub open spec fn opt_u32_matches(x: Option<u32>, v: Option<int>) -> bool {
    match v {
        Some(n) => x matches Some(k) && k == n,
        None => x is None,
    }
}

/// An optional signed 64-bit field: absent, null, or an integer.
pub open spec fn opt_i64_ok(o: JsonObj, key: Seq<char>) -> bool {
    match obj_lookup(o, key) {
        None => true,
        Some(v) => v is Int || v is Null,
    }
}

/// The value of an integer field, where one is present.
pub open spec fn opt_i64_val(o: JsonObj, key: Seq<char>) -> Option<int> {
    match obj_lookup(o, key) {
        Some(JsonValue::Int(n)) => Some(n as int),
        _ => None,
    }
}

/// Relates a decoded optional timestamp to the field it came from.
pub open spec fn opt_i64_matches(x: Option<i64>, v: Option<int>) -> bool {
    match v {
        Some(n) => x matches Some(k) && k == n,
        None => x is None,
    }
}

/// A required string field: present and a string.
pub open spec fn req_str_ok(o: JsonObj, key: Seq<char>) -> bool {
    obj_lookup(o, key) matches Some(v) && v is Str
}

/// A required non-negative integer field.
pub open spec fn req_u64_ok(o: JsonObj, key: Seq<char>) -> bool {
    obj_lookup(o, key) matches Some(v) && v matches JsonValue::Int(n) && n >= 0
}

/// The value of a required non-negative integer field, where one is present.
pub open spec fn req_u64_val(o: JsonObj, key: Seq<char>) -> Option<int> {
    match obj_lookup(o, key) {
        Some(JsonValue::Int(n)) => if n >= 0 {
            Some(n as int)
        } else {
            None
        },
        _ => None,
    }
}

// ---------------------------------------------------------------------------
// Field readers
// ---------------------------------------------------------------------------
/// A decode failure naming the field that did not fit.
fn field_error(key: &str) -> (e: Error)
    ensures
        e is JsonParsingError,
{
    let mut m: String = "unexpected value for field ".to_owned();
    m.append(key);
    Error::JsonParsingError(m)
}

/// A decode failure naming the record that did not fit.
fn shape_error(what: &str) -> (e: Error)
    ensures
        e is JsonParsingError,
{
    let mut m: String = "unexpected shape for ".to_owned();
    m.append(what);
    Error::JsonParsingError(m)
}

pub(crate) fn get_opt_string(o: &JsonObj, key: &str) -> (r: Result<Option<String>, Error>)
    ensures
        r matches Ok(x) ==> opt_str_ok(*o, key@) && opt_str_matches(x, opt_str_val(*o, key@)),
        r matches Err(e) ==> !opt_str_ok(*o, key@) && e is JsonParsingError,
{
    match obj_get(o, key) {
        None => Ok(None),
        Some(v) => match v {
            JsonValue::Null => Ok(None),
            JsonValue::Str(s) => Ok(Some(s.clone())),
            _ => Err(field_error(key)),
        },
    }
}

pub(crate) fn get_opt_bool(o: &JsonObj, key: &str) -> (r: Result<Option<bool>, Error>)
    ensures
        r matches Ok(x) ==> opt_bool_ok(*o, key@) && x == opt_bool_val(*o, key@),
        r matches Err(e) ==> !opt_bool_ok(*o, key@) && e is JsonParsingError,
{
    match obj_get(o, key) {
        None => Ok(None),
        Some(v) => match v {
            JsonValue::Null => Ok(None),
            JsonValue::Bool(b) => Ok(Some(*b)),
            _ => Err(field_error(key)),
        },
    }
}

pub(crate) fn get_opt_u32(o: &JsonObj, key: &str) -> (r: Result<Option<u32>, Error>)
    ensures
        r matches Ok(x) ==> opt_u32_ok(*o, key@) && opt_u32_matches(x, opt_u32_val(*o, key@)),
        r matches Err(e) ==> !opt_u32_ok(*o, key@) && e is JsonParsingError,
{
    match obj_get(o, key) {
        None => Ok(None),
        Some(v) => match v {
            JsonValue::Null => Ok(None),
            JsonValue::Int(n) => {
                if 0 <= *n && *n <= u32::MAX as i64 {
                    Ok(Some(*n as u32))
                } else {
                    Err(field_error(key))
                }
            },
            _ => Err(field_error(key)),
        },
    }
}

pub(crate) fn get_opt_i64(o: &JsonObj, key: &str) -> (r: Result<Option<i64>, Error>)
    ensures
        r matches Ok(x) ==> opt_i64_ok(*o, key@) && opt_i64_matches(x, opt_i64_val(*o, key@)),
        r matches Err(e) ==> !opt_i64_ok(*o, key@) && e is JsonParsingError,
{
    match obj_get(o, key) {
        None => Ok(None),
        Some(v) => match v {
            JsonValue::Null => Ok(None),
            JsonValue::Int(n) => Ok(Some(*n)),
            _ => Err(field_error(key)),
        },
    }
}

pub(crate) fn get_req_string(o: &JsonObj, key: &str) -> (r: Result<String, Error>)
    ensures
        r matches Ok(s) ==> req_str_ok(*o, key@) && opt_str_val(*o, key@) == Some(s@),
        r matches Err(e) ==> !req_str_ok(*o, key@) && e is JsonParsingError,
{
    match obj_get(o, key) {
        Some(v) => match v {
            JsonValue::Str(s) => Ok(s.clone()),
            _ => Err(field_error(key)),
        },
        None => Err(field_error(key)),
    }
}

pub(crate) fn get_req_u64(o: &JsonObj, key: &str) -> (r: Result<u64, Error>)
    ensures
        r matches Ok(x) ==> req_u64_ok(*o, key@) && req_u64_val(*o, key@) == Some(x as int),
        r matches Err(e) ==> !req_u64_ok(*o, key@) && e is JsonParsingError,
{
    match obj_get(o, key) {
        Some(v) => match v {
            JsonValue::Int(n) => {
                if *n >= 0 {
                    Ok(*n as u64)
                } else {
                    Err(field_error(key))
                }
            },
            _ => Err(field_error(key)),
        },
        None => Err(field_error(key)),
    }
}

// ---------------------------------------------------------------------------
// Device records
// ---------------------------------------------------------------------------
/// The documents that decode as a device record.
pub open spec fn device_ok(j: JsonValue) -> bool {
    &&& j matches JsonValue::Obj(o)
    &&& opt_str_ok(o, "url"@)
    &&& opt_str_ok(o, "deviceType"@)
    &&& opt_str_ok(o, "name"@)
    &&& opt_str_ok(o, "model"@)
    &&& opt_str_ok(o, "localizedModel"@)
    &&& opt_str_ok(o, "systemName"@)
    &&& opt_str_ok(o, "systemVersion"@)
    &&& opt_str_ok(o, "webSocketUrl"@)
}

/// Pins every field of a decoded device record against its document.
pub open spec fn device_matches(d: Device, j: JsonValue) -> bool {
    &&& j matches JsonValue::Obj(o)
    &&& opt_str_matches(d.url, opt_str_val(o, "url"@))
    &&& opt_str_matches(d.device_type, opt_str_val(o, "deviceType"@))
    &&& opt_str_matches(d.name, opt_str_val(o, "name"@))
    &&& opt_str_matches(d.model, opt_str_val(o, "model"@))
    &&& opt_str_matches(d.localized_model, opt_str_val(o, "localizedModel"@))
    &&& opt_str_matches(d.system_name, opt_str_val(o, "systemName"@))
    &&& opt_str_matches(d.system_version, opt_str_val(o, "systemVersion"@))
    &&& opt_str_matches(d.websocket_url, opt_str_val(o, "webSocketUrl"@))
}

/// Decodes one device record from its document.
pub fn decode_device_value(j: &JsonValue) -> (r: Result<Device, Error>)
    ensures
        r matches Ok(d) ==> device_ok(*j) && device_matches(d, *j),
        r matches Err(e) ==> !device_ok(*j) && e is JsonParsingError,
{
    let o = match j {
        JsonValue::Obj(o) => o,
        _ => {
            return Err(shape_error("device"));
        },
    };
    let url = match get_opt_string(o, "url") {
        Ok(x) => x,
        Err(e) => {
            return Err(e);
        },
    };
    let device_type = match get_opt_string(o, "deviceType") {
        Ok(x) => x,
        Err(e) => {
            return Err(e);
        },
    };
    let name = match get_opt_string(o, "name") {
        Ok(x) => x,
        Err(e) => {
            return Err(e);
        },
    };
    let model = match get_opt_string(o, "model") {
        Ok(x) => x,
        Err(e) => {
            return Err(e);
        },
    };
    let localized_model = match get_opt_string(o, "localizedModel") {
        Ok(x) => x,
        Err(e) => {
            return Err(e);
        },
    };
    let system_name = match get_opt_string(o, "systemName") {
        Ok(x) => x,
        Err(e) => {
            return Err(e);
        },
    };
    let system_version = match get_opt_string(o, "systemVersion") {
        Ok(x) => x,
        Err(e) => {
            return Err(e);
        },
    };
    let websocket_url = match get_opt_string(o, "webSocketUrl") {
        Ok(x) => x,
        Err(e) => {
            return Err(e);
        },
    };
    Ok(
        Device {
            url,
            device_type,
            name,
            model,
            localized_model,
            system_name,
            system_version,
            websocket_url,
        },
    )
}

/// Decodes a device record from raw bytes.
pub fn decode_device(bytes: &[u8]) -> (r: Result<Device, Error>)
    ensures
        match json_doc_of(bytes@) {
            None => r matches Err(e) && e is JsonParsingError,
            Some(j) => if device_ok(j) {
                r matches Ok(d) && device_matches(d, j)
            } else {
                r matches Err(e) && e is JsonParsingError
            },
        },
{
    match parse_json(bytes) {
        Err(m) => Err(Error::JsonParsingError(m)),
        Ok(doc) => decode_device_value(&doc),
    }
}

/// The arrays whose elements all decode as device records.
pub open spec fn device_list_ok(l: JsonList) -> bool
    decreases l,
{
    match l {
        JsonList::Nil => true,
        JsonList::Cons(v, rest) => device_ok(*v) && device_list_ok(*rest),
    }
}

/// Pins a decoded device sequence against its array, element by element.
pub open spec fn device_list_matches(ds: Seq<Device>, l: JsonList) -> bool
    decreases l,
{
    match l {
        JsonList::Nil => ds.len() == 0,
        JsonList::Cons(v, rest) => ds.len() > 0 && device_matches(ds[0], *v)
            && device_list_matches(ds.drop_first(), *rest),
    }
}

/// Decodes every element of a device array, in order.
pub fn decode_device_list(l: &JsonList) -> (r: Result<Vec<Device>, Error>)
    ensures
        r matches Ok(ds) ==> device_list_ok(*l) && device_list_matches(ds@, *l),
        r matches Err(e) ==> !device_list_ok(*l) && e is JsonParsingError,
    decreases l,
{
    match l {
        JsonList::Nil => Ok(Vec::new()),
        JsonList::Cons(v, rest) => {
            let d = match decode_device_value(v) {
                Ok(d) => d,
                Err(e) => {
                    return Err(e);
                },
            };
            let mut ds = match decode_device_list(rest) {
                Ok(x) => x,
                Err(e) => {
                    return Err(e);
                },
            };
            let ghost tail = ds@;
            ds.insert(0, d);
            proof {
                assert(ds@.drop_first() =~= tail);
            }
            Ok(ds)
        },
    }
}

/// The documents that decode as a device listing.
pub open spec fn devices_ok(j: JsonValue) -> bool {
    &&& j matches JsonValue::Obj(o)
    &&& (obj_lookup(o, "devices"@) matches Some(v) && v matches JsonValue::Arr(l)
        && device_list_ok(l))
}

/// Pins a decoded device listing against its document.
pub open spec fn devices_matches(ds: Devices, j: JsonValue) -> bool {
    &&& j matches JsonValue::Obj(o)
    &&& (obj_lookup(o, "devices"@) matches Some(v) && v matches JsonValue::Arr(l)
        && device_list_matches(ds.devices@, l))
}

/// Decodes a device listing from its document.
pub fn decode_devices_value(j: &JsonValue) -> (r: Result<Devices, Error>)
    ensures
        r matches Ok(ds) ==> devices_ok(*j) && devices_matches(ds, *j),
        r matches Err(e) ==> !devices_ok(*j) && e is JsonParsingError,
{
    let o = match j {
        JsonValue::Obj(o) => o,
        _ => {
            return Err(shape_error("devices"));
        },
    };
    match obj_get(o, "devices") {
        Some(v) => match v {
            JsonValue::Arr(l) => match decode_device_list(l) {
                Ok(ds) => Ok(Devices { devices: ds }),
                Err(e) => Err(e),
            },
            _ => Err(field_error("devices")),
        },
        None => Err(field_error("devices")),
    }
}

/// Decodes a device listing from raw bytes.
pub fn decode_devices(bytes: &[u8]) -> (r: Result<Devices, Error>)
    ensures
        match json_doc_of(bytes@) {
            None => r matches Err(e) && e is JsonParsingError,
            Some(j) => if devices_ok(j) {
                r matches Ok(ds) && devices_matches(ds, j)
            } else {
                r matches Err(e) && e is JsonParsingError
            },
        },
{
    match parse_json(bytes) {
        Err(m) => Err(Error::JsonParsingError(m)),
        Ok(doc) => decode_devices_value(&doc),
    }
}

// ---------------------------------------------------------------------------
// Events
// ---------------------------------------------------------------------------
/// The data objects that decode as some `Data` variant: the tag must be a
/// string; a recognized tag constrains its variant fields; any other tag is
/// accepted as the unknown variant.
pub open spec fn data_ok(o: JsonObj) -> bool {
    match obj_lookup(o, "eventType"@) {
        Some(JsonValue::Str(t)) => if t@ == "apheleia.subscription_update"@ {
            opt_str_ok(o, "subject"@) && opt_str_ok(o, "category"@) && opt_str_ok(o, "status"@)
        } else if t@ == "conversation.activity"@ {
            activity_field_ok(o)
        } else {
            true
        },
        _ => false,
    }
}

/// The activity reference inside a conversation-activity object: an object
/// with a string `id`.
pub open spec fn activity_field_ok(o: JsonObj) -> bool {
    obj_lookup(o, "activity"@) matches Some(v) && v matches JsonValue::Obj(a) && req_str_ok(
        a,
        "id"@,
    )
}

/// The identifier carried by the activity reference, where one is present.
pub open spec fn activity_id_val(o: JsonObj) -> Option<Seq<char>> {
    match obj_lookup(o, "activity"@) {
        Some(JsonValue::Obj(a)) => opt_str_val(a, "id"@),
        _ => None,
    }
}

/// Pins a decoded `Data` variant against its data object.
pub open spec fn data_matches(d: Data, o: JsonObj) -> bool {
    match obj_lookup(o, "eventType"@) {
        Some(JsonValue::Str(t)) => if t@ == "apheleia.subscription_update"@ {
            &&& d matches Data::SubscriptionUpdate { subject, category, status }
            &&& opt_str_matches(subject, opt_str_val(o, "subject"@))
            &&& opt_str_matches(category, opt_str_val(o, "category"@))
            &&& opt_str_matches(status, opt_str_val(o, "status"@))
        } else if t@ == "conversation.activity"@ {
            &&& d matches Data::ConversationActivity { activity }
            &&& activity_id_val(o) == Some(activity.id@)
        } else {
            d is UnkownData
        },
        _ => false,
    }
}

/// Decodes the tagged union from its data object.
pub fn decode_data_value(o: &JsonObj) -> (r: Result<Data, Error>)
    ensures
        r matches Ok(d) ==> data_ok(*o) && data_matches(d, *o),
        r matches Err(e) ==> !data_ok(*o) && e is JsonParsingError,
{
    let tag = match obj_get(o, "eventType") {
        Some(v) => match v {
            JsonValue::Str(t) => t,
            _ => {
                return Err(field_error("eventType"));
            },
        },
        None => {
            return Err(field_error("eventType"));
        },
    };
    if str_eq_string(tag, "apheleia.subscription_update") {
        let subject = match get_opt_string(o, "subject") {
            Ok(x) => x,
            Err(e) => {
                return Err(e);
            },
        };
        let category = match get_opt_string(o, "category") {
            Ok(x) => x,
            Err(e) => {
                return Err(e);
            },
        };
        let status = match get_opt_string(o, "status") {
            Ok(x) => x,
            Err(e) => {
                return Err(e);
            },
        };
        Ok(Data::SubscriptionUpdate { subject, category, status })
    } else if str_eq_string(tag, "conversation.activity") {
        let a = match obj_get(o, "activity") {
            Some(v) => match v {
                JsonValue::Obj(a) => a,
                _ => {
                    return Err(field_error("activity"));
                },
            },
            None => {
                return Err(field_error("activity"));
            },
        };
        let id = match get_req_string(a, "id") {
            Ok(s) => s,
            Err(e) => {
                return Err(e);
            },
        };
        Ok(Data::ConversationActivity { activity: Activity { id } })
    } else {
        Ok(Data::UnkownData)
    }
}

/// The `data` field of an event: absent, null, or a decodable data object.
pub open spec fn event_data_ok(o: JsonObj) -> bool {
    match obj_lookup(o, "data"@) {
        None => true,
        Some(v) => match v {
            JsonValue::Null => true,
            JsonValue::Obj(d) => data_ok(d),
            _ => false,
        },
    }
}

/// Pins a decoded optional `Data` against the event object.
pub open spec fn event_data_matches(d: Option<Data>, o: JsonObj) -> bool {
    match obj_lookup(o, "data"@) {
        Some(JsonValue::Obj(dd)) => d matches Some(x) && data_matches(x, dd),
        _ => d is None,
    }
}

/// The documents that decode as an event.
pub open spec fn event_ok(j: JsonValue) -> bool {
    &&& j matches JsonValue::Obj(o)
    &&& opt_str_ok(o, "id"@)
    &&& event_data_ok(o)
    &&& opt_bool_ok(o, "filterMessage"@)
    &&& opt_u32_ok(o, "sequenceNumber"@)
    &&& opt_i64_ok(o, "timestamp"@)
    &&& opt_str_ok(o, "trackingId"@)
}

/// Pins every field of a decoded event against its document.
pub open spec fn event_matches(e: Event, j: JsonValue) -> bool {
    &&& j matches JsonValue::Obj(o)
    &&& opt_str_matches(e.id, opt_str_val(o, "id"@))
    &&& event_data_matches(e.data, o)
    &&& e.filter_message == opt_bool_val(o, "filterMessage"@)
    &&& opt_u32_matches(e.sequence_number, opt_u32_val(o, "sequenceNumber"@))
    &&& opt_i64_matches(e.timestamp, opt_i64_val(o, "timestamp"@))
    &&& opt_str_matches(e.tracking_id, opt_str_val(o, "trackingId"@))
}

/// Decodes one event from its document.
pub fn decode_event_value(j: &JsonValue) -> (r: Result<Event, Error>)
    ensures
        r matches Ok(e) ==> event_ok(*j) && event_matches(e, *j),
        r matches Err(e) ==> !event_ok(*j) && e is JsonParsingError,
{
    let o = match j {
        JsonValue::Obj(o) => o,
        _ => {
            return Err(shape_error("event"));
        },
    };
    let id = match get_opt_string(o, "id") {
        Ok(x) => x,
        Err(e) => {
            return Err(e);
        },
    };
    let data = match obj_get(o, "data") {
        None => None,
        Some(v) => match v {
            JsonValue::Null => None,
            JsonValue::Obj(dd) => match decode_data_value(dd) {
                Ok(d) => Some(d),
                Err(e) => {
                    return Err(e);
                },
            },
            _ => {
                return Err(field_error("data"));
            },
        },
    };
    let filter_message = match get_opt_bool(o, "filterMessage") {
        Ok(x) => x,
        Err(e) => {
            return Err(e);
        },
    };
    let sequence_number = match get_opt_u32(o, "sequenceNumber") {
        Ok(x) => x,
        Err(e) => {
            return Err(e);
        },
    };
    let timestamp = match get_opt_i64(o, "timestamp") {
        Ok(x) => x,
        Err(e) => {
            return Err(e);
        },
    };
    let tracking_id = match get_opt_string(o, "trackingId") {
        Ok(x) => x,
        Err(e) => {
            return Err(e);
        },
    };
    Ok(Event { id, data, filter_message, sequence_number, timestamp, tracking_id })
}

/// Decodes an event from the bytes of a binary frame.
pub fn decode_event(bytes: &[u8]) -> (r: Result<Event, Error>)
    ensures
        match json_doc_of(bytes@) {
            None => r matches Err(e) && e is JsonParsingError,
            Some(j) => if event_ok(j) {
                r matches Ok(e) && event_matches(e, j)
            } else {
                r matches Err(e) && e is JsonParsingError
            },
        },
{
    match parse_json(bytes) {
        Err(m) => Err(Error::JsonParsingError(m)),
        Ok(doc) => decode_event_value(&doc),
    }
}

/// Every well-shaped payload whose data object carries an unrecognized event
/// type decodes, and decodes to the unknown variant: a new server-side event
/// type can never surface as a decode error.
pub proof fn lemma_unknown_event_type_is_accepted(j: JsonValue, o: JsonObj, d: JsonObj, t: String)
    requires
        j == JsonValue::Obj(o),
        opt_str_ok(o, "id"@),
        opt_bool_ok(o, "filterMessage"@),
        opt_u32_ok(o, "sequenceNumber"@),
        opt_i64_ok(o, "timestamp"@),
        opt_str_ok(o, "trackingId"@),
        obj_lookup(o, "data"@) == Some(JsonValue::Obj(d)),
        obj_lookup(d, "eventType"@) matches Some(v) && v == JsonValue::Str(t),
        t@ != "apheleia.subscription_update"@,
        t@ != "conversation.activity"@,
    ensures
        event_ok(j),
        forall|e: Event|
            event_matches(e, j) ==> (e.data matches Some(x) && x is UnkownData),
{
}

// ---------------------------------------------------------------------------
// People and error bodies
// ---------------------------------------------------------------------------
/// The documents that decode as a person record.
pub open spec fn person_ok(j: JsonValue) -> bool {
    &&& j matches JsonValue::Obj(o)
    &&& req_str_ok(o, "id"@)
    &&& req_str_ok(o, "status"@)
}

/// Pins a decoded person record against its document.
pub open spec fn person_matches(p: Person, j: JsonValue) -> bool {
    &&& j matches JsonValue::Obj(o)
    &&& opt_str_val(o, "id"@) == Some(p.id@)
    &&& opt_str_val(o, "status"@) == Some(p.status@)
}

/// Decodes a person record from raw bytes.
pub fn decode_person(bytes: &[u8]) -> (r: Result<Person, Error>)
    ensures
        match json_doc_of(bytes@) {
            None => r matches Err(e) && e is JsonParsingError,
            Some(j) => if person_ok(j) {
                r matches Ok(p) && person_matches(p, j)
            } else {
                r matches Err(e) && e is JsonParsingError
            },
        },
{
    let doc = match parse_json(bytes) {
        Err(m) => {
            return Err(Error::JsonParsingError(m));
        },
        Ok(doc) => doc,
    };
    let o = match &doc {
        JsonValue::Obj(o) => o,
        _ => {
            return Err(shape_error("person"));
        },
    };
    let id = match get_req_string(o, "id") {
        Ok(s) => s,
        Err(e) => {
            return Err(e);
        },
    };
    let status = match get_req_string(o, "status") {
        Ok(s) => s,
        Err(e) => {
            return Err(e);
        },
    };
    Ok(Person { id, status })
}

/// The documents that decode as a server error body.
pub open spec fn webex_error_ok(j: JsonValue) -> bool {
    &&& j matches JsonValue::Obj(o)
    &&& opt_str_ok(o, "code"@)
    &&& opt_str_ok(o, "reason"@)
}

/// Pins a decoded server error body against its document.
pub open spec fn webex_error_matches(w: WebexError, j: JsonValue) -> bool {
    &&& j matches JsonValue::Obj(o)
    &&& opt_str_matches(w.code, opt_str_val(o, "code"@))
    &&& opt_str_matches(w.reason, opt_str_val(o, "reason"@))
}

/// Decodes the error body that the platform reports with a failed call.
pub fn decode_webex_error(bytes: &[u8]) -> (r: Result<WebexError, Error>)
    ensures
        match json_doc_of(bytes@) {
            None => r matches Err(e) && e is JsonParsingError,
            Some(j) => if webex_error_ok(j) {
                r matches Ok(w) && webex_error_matches(w, j)
            } else {
                r matches Err(e) && e is JsonParsingError
            },
        },
{
    let doc = match parse_json(bytes) {
        Err(m) => {
            return Err(Error::JsonParsingError(m));
        },
        Ok(doc) => doc,
    };
    let o = match &doc {
        JsonValue::Obj(o) => o,
        _ => {
            return Err(shape_error("error body"));
        },
    };
    let code = match get_opt_string(o, "code") {
        Ok(x) => x,
        Err(e) => {
            return Err(e);
        },
    };
    let reason = match get_opt_string(o, "reason") {
        Ok(x) => x,
        Err(e) => {
            return Err(e);
        },
    };
    Ok(WebexError { code, reason })
}

// ---------------------------------------------------------------------------
// Registration encoding
// ---------------------------------------------------------------------------
/// Relates an optional string to the JSON value that serializes it: its
/// string, or null where it is unset.
pub open spec fn null_or_str(x: Option<String>, v: JsonValue) -> bool {
    match x {
        Some(s) => v matches JsonValue::Str(t) && t@ == s@,
        None => v is Null,
    }
}

/// Pins the registration body written for a device: every writable field
/// present under its wire key, and no `webSocketUrl` entry at all — that
/// field is assigned server-side and is never sent.
pub open spec fn device_encoding_ok(j: JsonValue, d: Device) -> bool {
    &&& j matches JsonValue::Obj(o)
    &&& flat_entries(o)
    &&& (obj_lookup(o, "url"@) matches Some(v) && null_or_str(d.url, v))
    &&& (obj_lookup(o, "deviceType"@) matches Some(v) && null_or_str(d.device_type, v))
    &&& (obj_lookup(o, "name"@) matches Some(v) && null_or_str(d.name, v))
    &&& (obj_lookup(o, "model"@) matches Some(v) && null_or_str(d.model, v))
    &&& (obj_lookup(o, "localizedModel"@) matches Some(v) && null_or_str(d.localized_model, v))
    &&& (obj_lookup(o, "systemName"@) matches Some(v) && null_or_str(d.system_name, v))
    &&& (obj_lookup(o, "systemVersion"@) matches Some(v) && null_or_str(d.system_version, v))
    &&& obj_lookup(o, "webSocketUrl"@) is None
}

/// The JSON value that serializes one optional string field.
fn opt_str_value(x: &Option<String>) -> (v: JsonValue)
    ensures
        null_or_str(*x, v),
        scalar_json(v),
{
    match x {
        Some(s) => JsonValue::Str(s.clone()),
        None => JsonValue::Null,
    }
}

/// Builds the registration document for a device: the seven writable fields
/// in wire order, and nothing else.
pub fn device_to_json(d: &Device) -> (j: JsonValue)
    ensures
        device_encoding_ok(j, *d),
        flat_json_object(j),
{
    let o = JsonObj::Cons(
        "url".to_owned(),
        Box::new(opt_str_value(&d.url)),
        Box::new(
            JsonObj::Cons(
                "deviceType".to_owned(),
                Box::new(opt_str_value(&d.device_type)),
                Box::new(
                    JsonObj::Cons(
                        "name".to_owned(),
                        Box::new(opt_str_value(&d.name)),
                        Box::new(
                            JsonObj::Cons(
                                "model".to_owned(),
                                Box::new(opt_str_value(&d.model)),
                                Box::new(
                                    JsonObj::Cons(
                                        "localizedModel".to_owned(),
                                        Box::new(opt_str_value(&d.localized_model)),
                                        Box::new(
                                            JsonObj::Cons(
                                                "systemName".to_owned(),
                                                Box::new(opt_str_value(&d.system_name)),
                                                Box::new(
                                                    JsonObj::Cons(
                                                        "systemVersion".to_owned(),
                                                        Box::new(
                                                            opt_str_value(&d.system_version),
                                                        ),
                                                        Box::new(JsonObj::Nil),
                                                    ),
                                                ),
                                            ),
                                        ),
                                    ),
                                ),
                            ),
                        ),
                    ),
                ),
            ),
        ),
    );
    proof {
        reveal_with_fuel(obj_lookup, 9);
        reveal_with_fuel(flat_entries, 9);
        reveal_strlit("url");
        reveal_strlit("deviceType");
        reveal_strlit("name");
        reveal_strlit("model");
        reveal_strlit("localizedModel");
        reveal_strlit("systemName");
        reveal_strlit("systemVersion");
        reveal_strlit("webSocketUrl");
        assert("url"@.len() == 3);
        assert("deviceType"@.len() == 10);
        assert("name"@.len() == 4);
        assert("model"@.len() == 5);
        assert("localizedModel"@.len() == 14);
        assert("systemName"@.len() == 10);
        assert("systemVersion"@.len() == 13);
        assert("webSocketUrl"@.len() == 12);
        assert("deviceType"@[0] == 'd' && "systemName"@[0] == 's');
    }
    JsonValue::Obj(o)
}

/// The registration request body: the fixed client descriptor, serialized.
pub fn registration_body() -> (r: Vec<u8>)
    ensures
        exists|j: JsonValue, d: Device|
            crate::dto::is_client_descriptor(d) && #[trigger] device_encoding_ok(j, d) && r@
                == bytes_of_json(j),
{
    let d = crate::dto::client_descriptor();
    let j = device_to_json(&d);
    let r = json_to_bytes(&j);
    proof {
        assert(crate::dto::is_client_descriptor(d) && device_encoding_ok(j, d) && r@
            == bytes_of_json(j));
    }
    r
}

/// Relates two optional strings character for character.
pub open spec fn opt_string_eq(a: Option<String>, b: Option<String>) -> bool {
    match a {
        Some(x) => b matches Some(y) && x@ == y@,
        None => b is None,
    }
}

/// Round trip: a registration body written for a device decodes again as a
/// device record, and the record carries the same writable fields — name,
/// model, type and the rest — while its socket URL is necessarily unset,
/// since the body never contains one.
pub proof fn lemma_registration_round_trip(d: Device, j: JsonValue)
    requires
        device_encoding_ok(j, d),
    ensures
        device_ok(j),
        forall|d2: Device|
            device_matches(d2, j) ==> {
                &&& opt_string_eq(d2.url, d.url)
                &&& opt_string_eq(d2.device_type, d.device_type)
                &&& opt_string_eq(d2.name, d.name)
                &&& opt_string_eq(d2.model, d.model)
                &&& opt_string_eq(d2.localized_model, d.localized_model)
                &&& opt_string_eq(d2.system_name, d.system_name)
                &&& opt_string_eq(d2.system_version, d.system_version)
                &&& d2.websocket_url is None
            },
{
}

} // verus!
