//! The event session's logic: resolving a device to connect to, building the
//! socket upgrade request, and turning inbound frames into events.
//!
//! The caller owns the socket and the HTTP client; it reads one frame at a
//! time and hands it to `handle_frame`, performing the step that comes back.
//! Every decision — answering pings, decoding, what to ignore, how the
//! stream's end is reported — is made and checked here.

use crate::dto::{Device, Devices, Event};
use crate::error::Error;
use crate::json::json_doc_of;
use crate::wire::{decode_event, event_matches, event_ok};
use vstd::prelude::*;
use vstd::string::StringExecFns;

verus! {

// ---------------------------------------------------------------------------
// Frames
// ---------------------------------------------------------------------------
/// One inbound socket frame, as the session sees it: a keepalive ping with
/// its payload, a binary event payload, or anything else.
#[derive(Debug)]
pub enum Frame {
    Ping(Vec<u8>),
    Binary(Vec<u8>),
    Other,
}

/// What the session does with one frame: answer a ping at once, deliver a
/// decoded event, fail that one pull with a decode error, or keep waiting.
#[derive(Debug)]
pub enum Step {
    ReplyPong(Vec<u8>),
    Deliver(Event),
    Reject(Error),
    Ignore,
}

/// Handles one inbound frame. A ping is answered with a pong carrying the
/// identical payload bytes, before anything else is processed; a binary frame
/// is decoded as an event, and a payload that does not decode fails only this
/// pull; every other frame is ignored and the caller keeps waiting.
pub fn handle_frame(f: Frame) -> (s: Step)
    ensures
        f matches Frame::Ping(p) ==> (s matches Step::ReplyPong(q) && q@ == p@),
        f matches Frame::Binary(b) ==> (match json_doc_of(b@) {
            None => s matches Step::Reject(e) && e is JsonParsingError,
            Some(j) => if event_ok(j) {
                s matches Step::Deliver(e) && event_matches(e, j)
            } else {
                s matches Step::Reject(e) && e is JsonParsingError
            },
        }),
        f is Other ==> s is Ignore,
{
    match f {
        Frame::Ping(p) => Step::ReplyPong(p),
        Frame::Binary(b) => match decode_event(b.as_slice()) {
            Ok(e) => Step::Deliver(e),
            Err(e) => Step::Reject(e),
        },
        Frame::Other => Step::Ignore,
    }
}

/// The session's report when the stream ends — the server closed or a read
/// failed — before a usable frame arrived: a transport error, distinct from
/// any decode failure, since it means the session is no longer usable.
pub fn stream_ended_error() -> (e: Error)
    ensures
        e matches Error::WebsocketError(m) && m@ == "failed to read event from stream"@,
{
    Error::WebsocketError("failed to read event from stream".to_owned())
}

// ---------------------------------------------------------------------------
// Device resolution
// ---------------------------------------------------------------------------
/// Holds when directory entry `d` is registered under `name`.
pub open spec fn device_named(d: Device, name: Seq<char>) -> bool {
    d.name matches Some(n) && n@ == name
}

/// Holds when `i` is the first index of `devices` registered under `name`.
pub open spec fn first_named(devices: Seq<Device>, name: Seq<char>, i: int) -> bool {
    &&& 0 <= i < devices.len()
    &&& device_named(devices[i], name)
    &&& forall|j: int| 0 <= j < i ==> !device_named(devices[j], name)
}

/// The first directory entry registered under `name`, if any.
pub fn find_device(devices: &Devices, name: &str) -> (r: Option<usize>)
    ensures
        r matches Some(i) ==> first_named(devices.devices@, name@, i as int),
        r is None ==> (forall|j: int|
            0 <= j < devices.devices@.len() ==> !device_named(devices.devices@[j], name@)),
{
    let n = devices.devices.len();
    let mut i: usize = 0;
    while i < n
        invariant
            n == devices.devices@.len(),
            i <= n,
            forall|j: int| 0 <= j < i ==> !device_named(devices.devices@[j], name@),
        decreases n - i,
    {
        let named = match &devices.devices[i].name {
            Some(s) => crate::json::str_eq_string(s, name),
            None => false,
        };
        if named {
            return Some(i);
        }
        i = i + 1;
    }
    None
}

/// The connection target of a device: its socket URL, taken verbatim. A
/// device with no socket URL cannot open a session, which is a configuration
/// error, not a transport one.
pub fn websocket_target(d: &Device) -> (r: Result<String, Error>)
    ensures
        d.websocket_url matches Some(u) ==> (r matches Ok(s) && s@ == u@),
        d.websocket_url is None ==> (r matches Err(e) && e matches Error::GenericError(m) && m@
            == "device has no Websocket URL"@),
{
    match &d.websocket_url {
        Some(u) => Ok(u.clone()),
        None => Err(Error::GenericError("device has no Websocket URL".to_owned())),
    }
}

/// What a directory listing decides for the session.
#[derive(Debug)]
pub enum DeviceResolution {
    Connect(String),
    Register,
    Fail(Error),
}

/// The resolution policy, applied to a directory listing: reuse the first
/// device registered under this client's name — failing when it lacks a
/// socket URL — and ask for a fresh registration when there is none.
pub fn resolve_from_list(devices: &Devices, name: &str) -> (r: DeviceResolution)
    ensures
        r is Register ==> (forall|j: int|
            0 <= j < devices.devices@.len() ==> !device_named(devices.devices@[j], name@)),
        r matches DeviceResolution::Connect(u) ==> (exists|i: int|
            #[trigger] first_named(devices.devices@, name@, i)
                && (devices.devices@[i].websocket_url matches Some(w) && u@ == w@)),
        r matches DeviceResolution::Fail(e) ==> (exists|i: int|
            #[trigger] first_named(devices.devices@, name@, i) && devices.devices@[i].websocket_url
                is None) && (e matches Error::GenericError(m) && m@
            == "device has no Websocket URL"@),
{
    match find_device(devices, name) {
        None => DeviceResolution::Register,
        Some(i) => match websocket_target(&devices.devices[i]) {
            Ok(u) => DeviceResolution::Connect(u),
            Err(e) => DeviceResolution::Fail(e),
        },
    }
}

// ---------------------------------------------------------------------------
// The upgrade request
// ---------------------------------------------------------------------------
/// What parsing a URL string yields: `None` where the string is not a URL at
/// all; otherwise its host, where it has one.
pub uninterp spec fn parsed_host(url: Seq<char>) -> Option<Option<Seq<char>>>;

/// The characters of an optional host string.
pub open spec fn host_view(h: Option<String>) -> Option<Seq<char>> {
    match h {
        Some(s) => Some(s@),
        None => None,
    }
}

/// Relies on `url::Url::parse` and `url::Url::host_str`: both are functions
/// of the URL string alone; the former fails exactly on strings that are not
/// URLs, the latter is `None` exactly for URLs without a host.
#[verifier::external_body]
fn url_host(url: &str) -> (r: Result<Option<String>, ()>)
    ensures
        r matches Err(u) ==> parsed_host(url@) is None,
        r matches Ok(h) ==> parsed_host(url@) == Some(host_view(h)),
{
    match url::Url::parse(url) {
        Err(_) => Err(()),
        Ok(u) => Ok(u.host_str().map(|h| h.to_owned())),
    }
}

/// Relies on tungstenite's client handshake key generator: every key it
/// returns is the base64 text of 16 random bytes — 24 characters.
#[verifier::external_body]
fn websocket_key() -> (k: String)
    ensures
        k@.len() == 24,
{
    tokio_tungstenite::tungstenite::handshake::client::generate_key()
}

/// Everything the socket opener needs: the connection URL, taken verbatim
/// from the device record, and the upgrade headers in order.
#[derive(Debug)]
pub struct ConnectRequest {
    pub url: String,
    pub headers: Vec<(String, String)>,
}

/// Holds when `hs` are exactly the six headers of the session's upgrade
/// request: the bearer authorization, a freshly generated 24-character
/// handshake key, protocol version 13, the upgrade pair, and the host taken
/// from the target URL itself — never a fixed value.
pub open spec fn upgrade_headers_ok(
    hs: Seq<(String, String)>,
    token: Seq<char>,
    host: Seq<char>,
) -> bool {
    &&& hs.len() == 6
    &&& hs[0].0@ == "Authorization"@ && hs[0].1@ == "Bearer "@ + token
    &&& hs[1].0@ == "Sec-Websocket-Key"@ && hs[1].1@.len() == 24
    &&& hs[2].0@ == "Sec-Websocket-Version"@ && hs[2].1@ == "13"@
    &&& hs[3].0@ == "Connection"@ && hs[3].1@ == "Upgrade"@
    &&& hs[4].0@ == "Host"@ && hs[4].1@ == host
    &&& hs[5].0@ == "Upgrade"@ && hs[5].1@ == "websocket"@
}

/// Builds the upgrade request for a socket URL: the URL itself as the
/// target, and the six headers, with the `Host` derived from the URL. Fails
/// with a configuration error where the URL does not parse or has no host.
pub fn connect_request(ws_url: &str, bearer_token: &str) -> (r: Result<ConnectRequest, Error>)
    ensures
        r matches Ok(c) ==> (parsed_host(ws_url@) matches Some(h) && h matches Some(host) && c.url@
            == ws_url@ && upgrade_headers_ok(c.headers@, bearer_token@, host)),
        r matches Err(e) ==> (e matches Error::GenericError(m) && (match parsed_host(ws_url@) {
            None => m@ == "parsing URL "@ + ws_url@,
            Some(h) => h is None && m@ == "unable to obtain host from URL "@ + ws_url@,
        })),
{
    let host = match url_host(ws_url) {
        Err(_) => {
            return Err(Error::GenericError("parsing URL ".to_owned().concat(ws_url)));
        },
        Ok(None) => {
            return Err(
                Error::GenericError("unable to obtain host from URL ".to_owned().concat(ws_url)),
            );
        },
        Ok(Some(h)) => h,
    };
    let key = websocket_key();
    let mut headers: Vec<(String, String)> = Vec::new();
    headers.push(("Authorization".to_owned(), "Bearer ".to_owned().concat(bearer_token)));
    headers.push(("Sec-Websocket-Key".to_owned(), key));
    headers.push(("Sec-Websocket-Version".to_owned(), "13".to_owned()));
    headers.push(("Connection".to_owned(), "Upgrade".to_owned()));
    headers.push(("Host".to_owned(), host));
    headers.push(("Upgrade".to_owned(), "websocket".to_owned()));
    Ok(ConnectRequest { url: ws_url.to_owned(), headers })
}

} // verus!

