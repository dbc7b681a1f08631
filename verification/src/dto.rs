//! Data model: devices, people, and the tagged event union that inbound
//! frames decode into.

use vstd::prelude::*;

verus! {

/// Error body that the platform reports alongside a failed directory call.
#[derive(Debug, Clone)]
pub struct WebexError {
    pub code: Option<String>,
    pub reason: Option<String>,
}

/// A registered client endpoint in the device directory. A device with no
/// socket endpoint (`websocket_url`) cannot open an event session.
#[derive(Debug, Clone)]
pub struct Device {
    pub url: Option<String>,
    pub device_type: Option<String>,
    pub name: Option<String>,
    pub model: Option<String>,
    pub localized_model: Option<String>,
    pub system_name: Option<String>,
    pub system_version: Option<String>,
    pub websocket_url: Option<String>,
}

/// The device directory's listing response.
#[derive(Debug, Clone)]
pub struct Devices {
    pub devices: Vec<Device>,
}

/// A conversation activity reference carried by an activity event.
#[derive(Debug, Clone)]
pub struct Activity {
    pub id: String,
}

/// The tagged union of server pushes. Payloads whose tag is not recognized
/// decode to `UnkownData` rather than failing.
#[derive(Debug, Clone)]
pub enum Data {
    SubscriptionUpdate {
        subject: Option<String>,
        category: Option<String>,
        status: Option<String>,
    },
    ConversationActivity { activity: Activity },
    UnkownData,
}

/// One decoded server push. The timestamp is kept as epoch milliseconds.
#[derive(Debug, Clone)]
pub struct Event {
    pub id: Option<String>,
    pub data: Option<Data>,
    pub filter_message: Option<bool>,
    pub sequence_number: Option<u32>,
    pub timestamp: Option<i64>,
    pub tracking_id: Option<String>,
}

/// The "who am I" profile record.
#[derive(Debug, Clone)]
pub struct Person {
    pub id: String,
    pub status: String,
}

/// The fixed identifier under which this client registers and looks itself
/// up in the device directory.
pub fn client_device_name() -> (s: String)
    ensures
        s@ == "pixoo-integration"@,
{
    "pixoo-integration".to_owned()
}

/// Holds exactly when `d` is the fixed descriptor that this client registers:
/// every metadata field set to its constant value, and no resource or socket
/// URL (both are assigned server-side).
pub open spec fn is_client_descriptor(d: Device) -> bool {
    &&& d.url is None
    &&& (d.device_type matches Some(s) && s@ == "UNKNOWN"@)
    &&& (d.name matches Some(s) && s@ == "pixoo-integration"@)
    &&& (d.model matches Some(s) && s@ == "pixoo-64"@)
    &&& (d.localized_model matches Some(s) && s@ == ""@)
    &&& (d.system_name matches Some(s) && s@ == "Windows"@)
    &&& (d.system_version matches Some(s) && s@ == "10"@)
    &&& d.websocket_url is None
}

/// The fully-specified, immutable descriptor that a registration call sends.
pub fn client_descriptor() -> (d: Device)
    ensures
        is_client_descriptor(d),
{
    Device {
        url: None,
        device_type: Some("UNKNOWN".to_owned()),
        name: Some("pixoo-integration".to_owned()),
        model: Some("pixoo-64".to_owned()),
        localized_model: Some("".to_owned()),
        system_name: Some("Windows".to_owned()),
        system_version: Some("10".to_owned()),
        websocket_url: None,
    }
}

} // verus!
