//! The calls into `feagi_agent`, `feagi_io` and `serde_json` that the
//! configuration and client logic make, each with the contract that the
//! called code's source shows.

use vstd::prelude::*;
use vstd::utf8::is_ascii_chars;
use crate::text::{decimal, has_char, has_prefix};
use feagi_agent::{AgentDescriptor, AuthToken};
use feagi_io::protocol_implementations::websocket::WebSocketUrl;
use feagi_io::protocol_implementations::zmq::ZmqUrl;
use feagi_io::traits_and_enums::shared::TransportProtocolEndpoint;

verus! {

#[verifier::external_type_specification]
#[verifier::external_body]
pub struct ExAgentDescriptor(AgentDescriptor);

#[verifier::external_type_specification]
#[verifier::external_body]
pub struct ExAuthToken(AuthToken);

#[verifier::external_type_specification]
#[verifier::external_body]
pub struct ExJsonValue(serde_json::Value);

#[verifier::external_type_specification]
#[verifier::external_body]
pub struct ExTransportProtocolEndpoint(TransportProtocolEndpoint);

/// The message `AgentDescriptor::new` rejects its arguments with, shown the
/// way its error displays, or `None` when it accepts them.
pub open spec fn descriptor_error(manufacturer: Seq<char>, agent_name: Seq<char>, version: u32)
    -> Option<Seq<char>> {
    let p = "Bad Parameters: "@;
    if !is_ascii_chars(manufacturer) {
        Some(p + "Manufacturer must contain ASCII characters only!"@)
    } else if !is_ascii_chars(agent_name) {
        Some(p + "Agent name must contain ASCII characters only!"@)
    } else if manufacturer.len() > 128 {
        Some(p + "Manufacturer is too long! Max length is 128 bytes, got "@ + decimal(
            manufacturer.len(),
        ))
    } else if agent_name.len() > 64 {
        Some(p + "Agent name is too long! Max length is 64 bytes, got "@ + decimal(
            agent_name.len(),
        ))
    } else if version == 0 {
        Some(p + "Agent version cannot be zero!"@)
    } else {
        None
    }
}

/// The manufacturer, agent name and version that an `AgentDescriptor` holds,
/// as its getters `manufacturer`, `agent_name` and `agent_version` give them.
pub uninterp spec fn descriptor_fields(d: AgentDescriptor) -> (Seq<char>, Seq<char>, u32);

/// Calls `feagi_agent::AgentDescriptor::new`. Its source accepts ASCII names
/// of at most 128 and 64 bytes and a non-zero version, and otherwise fails
/// with a `BadParameters` error, given here as its displayed text. The
/// descriptor it builds holds the three arguments as given.
#[verifier::external_body]
pub(crate) fn new_agent_descriptor(manufacturer: &str, agent_name: &str, agent_version: u32) -> (r:
    Result<AgentDescriptor, String>)
    ensures
        r is Ok <==> descriptor_error(manufacturer@, agent_name@, agent_version) is None,
        r matches Err(e) ==> Some(e@) == descriptor_error(manufacturer@, agent_name@, agent_version),
        r matches Ok(d) ==> descriptor_fields(d) == (manufacturer@, agent_name@, agent_version),
{
    match AgentDescriptor::new(manufacturer, agent_name, agent_version) {
        Ok(d) => Ok(d),
        Err(e) => Err(e.to_string()),
    }
}

/// Calls the derived `Clone` of `feagi_agent::AgentDescriptor`, which copies
/// every field.
#[verifier::external_body]
pub(crate) fn clone_agent_descriptor(d: &AgentDescriptor) -> (r: AgentDescriptor)
    ensures
        r == *d,
{
    d.clone()
}

/// What the `base64` crate's standard engine (RFC 4648 alphabet, canonical
/// padding) decodes `text` to, or `None` where it rejects the text.
pub uninterp spec fn base64_decode(text: Seq<char>) -> Option<Seq<u8>>;

/// The bytes that an `AuthToken` holds, as `AuthToken::as_bytes` gives them.
pub uninterp spec fn auth_token_bytes(t: AuthToken) -> Seq<u8>;

/// Calls `feagi_agent::AuthToken::from_base64`. Its source decodes with the
/// standard base64 engine, accepts exactly the decodings of 32 bytes, and
/// keeps the decoded bytes as the token.
#[verifier::external_body]
pub(crate) fn auth_token_from_base64(b64: &str) -> (r: Option<AuthToken>)
    ensures
        r is Some <==> (base64_decode(b64@) matches Some(bytes) && bytes.len() == 32),
        r matches Some(t) ==> base64_decode(b64@) == Some(auth_token_bytes(t)),
{
    AuthToken::from_base64(b64)
}

/// Calls the derived `Clone` of `feagi_agent::AuthToken`, which copies the
/// token bytes.
#[verifier::external_body]
pub(crate) fn clone_auth_token(t: &AuthToken) -> (r: AuthToken)
    ensures
        r == *t,
{
    t.clone()
}

/// What `serde_json::from_str::<serde_json::Value>` gives for `text`: the
/// value when the text is one JSON value, else the displayed text of its
/// error.
pub uninterp spec fn json_value_parse(text: Seq<char>) -> Result<serde_json::Value, Seq<char>>;

/// Calls `serde_json::from_str::<serde_json::Value>`; the error is given as
/// its displayed text. What the value holds is not described here, only
/// that it is the one the text parses to.
#[verifier::external_body]
pub(crate) fn parse_json_value(text: &str) -> (r: Result<serde_json::Value, String>)
    ensures
        match json_value_parse(text@) {
            Ok(v) => r matches Ok(x) && x == v,
            Err(m) => r matches Err(e) && e@ == m,
        },
{
    match serde_json::from_str::<serde_json::Value>(text) {
        Ok(v) => Ok(v),
        Err(e) => Err(e.to_string()),
    }
}

/// The strings of `text` where it is one JSON array whose elements are all
/// strings, as `serde_json::from_str::<Vec<String>>` reads them.
pub uninterp spec fn json_string_array(text: Seq<char>) -> Option<Seq<Seq<char>>>;

/// Calls `serde_json::from_str::<Vec<String>>`.
#[verifier::external_body]
pub(crate) fn parse_json_string_array(text: &str) -> (r: Option<Vec<String>>)
    ensures
        match r {
            Some(v) => json_string_array(text@) == Some(v@.map_values(|s: String| s@)),
            None => json_string_array(text@) is None,
        },
{
    serde_json::from_str::<Vec<String>>(text).ok()
}

/// Calls the derived `Clone` of `serde_json::Value`, which copies the value.
#[verifier::external_body]
pub(crate) fn clone_json_value(v: &serde_json::Value) -> (r: serde_json::Value)
    ensures
        r == *v,
{
    v.clone()
}

/// The prefix with which `feagi_io::FeagiNetworkError::InvalidSocketProperties`
/// displays its message.
pub open spec fn invalid_socket_properties(message: Seq<char>) -> Seq<char> {
    "FeagiNetworkError: Invalid socket properties: "@ + message
}

pub open spec fn zmq_known_scheme(url: Seq<char>) -> bool {
    has_prefix(url, "tcp://"@) || has_prefix(url, "ipc://"@) || has_prefix(url, "inproc://"@)
        || has_prefix(url, "pgm://"@) || has_prefix(url, "epgm://"@)
}

/// The address part of a `tcp://` URL.
pub open spec fn tcp_address(url: Seq<char>) -> Seq<char> {
    url.subrange("tcp://"@.len() as int, url.len() as int)
}

/// The message `ZmqUrl::new` rejects `url` with, or `None` when it accepts it.
pub open spec fn zmq_url_error(url: Seq<char>) -> Option<Seq<char>> {
    if !zmq_known_scheme(url) {
        Some(
            invalid_socket_properties(
                "Invalid ZMQ URL '"@ + url
                    + "': must start with one of [\"tcp://\", \"ipc://\", \"inproc://\", \"pgm://\", \"epgm://\"]"@,
            ),
        )
    } else if has_prefix(url, "tcp://"@) && tcp_address(url).len() == 0 {
        Some(invalid_socket_properties("Invalid ZMQ URL: empty address after tcp://"@))
    } else if has_prefix(url, "tcp://"@) && !has_char(tcp_address(url), ':') {
        Some(
            invalid_socket_properties(
                "Invalid ZMQ TCP URL '"@ + url + "': missing port (expected host:port)"@,
            ),
        )
    } else {
        None
    }
}

/// What a `TransportProtocolEndpoint` holds: whether it is the `Zmq`
/// variant (else `WebSocket`), and the text that its URL's `as_str` gives.
pub uninterp spec fn endpoint_parts(e: TransportProtocolEndpoint) -> (bool, Seq<char>);

/// Calls `feagi_io::protocol_implementations::zmq::ZmqUrl::new` and wraps the
/// URL as a ZMQ endpoint. Its source accepts the `tcp://`, `ipc://`,
/// `inproc://`, `pgm://` and `epgm://` schemes, and for `tcp://` asks for a
/// non-empty address holding a `:`; errors are given as their displayed text.
/// The URL it accepts is stored as given.
#[verifier::external_body]
pub(crate) fn zmq_endpoint(url: &str) -> (r: Result<TransportProtocolEndpoint, String>)
    ensures
        r is Ok <==> zmq_url_error(url@) is None,
        r matches Err(e) ==> Some(e@) == zmq_url_error(url@),
        r matches Ok(e) ==> endpoint_parts(e) == (true, url@),
{
    match ZmqUrl::new(url) {
        Ok(u) => Ok(TransportProtocolEndpoint::Zmq(u)),
        Err(e) => Err(e.to_string()),
    }
}

/// The address part of a `ws://` or `wss://` URL.
pub open spec fn ws_address(url: Seq<char>) -> Seq<char> {
    if has_prefix(url, "wss://"@) {
        url.subrange("wss://"@.len() as int, url.len() as int)
    } else {
        url.subrange("ws://"@.len() as int, url.len() as int)
    }
}

/// The message `WebSocketUrl::new` rejects a `ws://` or `wss://` URL with, or
/// `None` when it accepts it.
pub open spec fn websocket_url_error(url: Seq<char>) -> Option<Seq<char>> {
    let a = ws_address(url);
    if a.len() == 0 {
        Some(
            invalid_socket_properties(
                "Invalid WebSocket URL '"@ + url + "': empty address after scheme"@,
            ),
        )
    } else if a[0] == '/' {
        Some(invalid_socket_properties("Invalid WebSocket URL '"@ + url + "': empty host"@))
    } else {
        None
    }
}

/// Calls `feagi_io::protocol_implementations::websocket::WebSocketUrl::new` on
/// a URL that already carries the `ws://` or `wss://` scheme (which it then
/// keeps as it is) and wraps it as a WebSocket endpoint. Its source asks for
/// a non-empty address after the scheme whose host part, before any `/`, is
/// not empty; errors are given as their displayed text. The URL it accepts
/// is stored as given.
#[verifier::external_body]
pub(crate) fn websocket_endpoint(url: &str) -> (r: Result<TransportProtocolEndpoint, String>)
    requires
        has_prefix(url@, "ws://"@) || has_prefix(url@, "wss://"@),
    ensures
        r is Ok <==> websocket_url_error(url@) is None,
        r matches Err(e) ==> Some(e@) == websocket_url_error(url@),
        r matches Ok(e) ==> endpoint_parts(e) == (false, url@),
{
    match WebSocketUrl::new(url) {
        Ok(u) => Ok(TransportProtocolEndpoint::WebSocket(u)),
        Err(e) => Err(e.to_string()),
    }
}

} // verus!
