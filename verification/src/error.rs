//! The error taxonomy, and the mapper that classifies low-level request and
//! socket faults into it.

use crate::dto::WebexError;
use vstd::prelude::*;

verus! {

/// Every failure the client surfaces. `HttpStatus` is a non-2xx response;
/// `JsonParsingError` is a payload that was received but does not decode, and
/// on an event frame it fails only that one pull; `WebsocketError` is a
/// transport failure or stream end, fatal to the session; `GenericError`
/// covers configuration problems such as a missing socket URL.
#[derive(Debug)]
pub enum Error {
    HttpStatus(u16, Option<WebexError>),
    JsonParsingError(String),
    GenericError(String),
    WebsocketError(String),
}

/// Classifies a failed HTTP request from its observable features: a response
/// status if one arrived, whether the failure was a body-decode failure, and
/// the fault's display text.
pub fn classify_request_fault(status: Option<u16>, is_decode: bool, msg: String) -> (e: Error)
    ensures
        status matches Some(code) ==> (e matches Error::HttpStatus(c, b) && c == code && b is None),
        status is None && is_decode ==> (e matches Error::JsonParsingError(m) && m@ == msg@),
        status is None && !is_decode ==> (e matches Error::GenericError(m) && m@ == msg@),
{
    match status {
        Some(code) => Error::HttpStatus(code, None),
        None => {
            if is_decode {
                Error::JsonParsingError(msg)
            } else {
                Error::GenericError(msg)
            }
        },
    }
}

/// Classifies a socket fault. A handshake rejected at the HTTP level carries
/// the server's body where one was sent, else the fault's display text, as a
/// configuration error; every other socket fault is a transport error.
pub fn classify_socket_fault(is_http: bool, body: Option<String>, msg: String) -> (e: Error)
    ensures
        is_http && body is Some ==> (e matches Error::GenericError(m) && m@ == body->Some_0@),
        is_http && body is None ==> (e matches Error::GenericError(m) && m@ == msg@),
        !is_http ==> (e matches Error::WebsocketError(m) && m@ == msg@),
{
    if is_http {
        match body {
            Some(b) => Error::GenericError(b),
            None => Error::GenericError(msg),
        }
    } else {
        Error::WebsocketError(msg)
    }
}

/// Maps a response status to the directory clients' result: the 2xx range
/// passes, everything else is reported with its code.
pub fn classify_status(code: u16) -> (r: Option<Error>)
    ensures
        200 <= code < 300 ==> r is None,
        !(200 <= code < 300) ==> (r matches Some(e) && e matches Error::HttpStatus(c, b)
            && c == code && b is None),
{
    if 200 <= code && code < 300 {
        None
    } else {
        Some(Error::HttpStatus(code, None))
    }
}

} // verus!
