//! The client operations of the C ABI on plain values: creating a client,
//! reading what registration returned, and checking the arguments and
//! outcomes of sending and receiving. Each keeps the last-error record.

use vstd::prelude::*;
use crate::abi::FeagiStatus;
use crate::client::AgentClient;
use crate::config::validation_error;
use crate::ffi_config::{accepted, FeagiAgentConfigHandle};
use crate::last_error::{c_bytes, c_text, c_text_error, clear_last_error, cstr_to_string, records,
    set_last_error, LastError};
use crate::registration::{choose_transport_spec, registration_from_json, ChosenTransport,
    JsonValue, RegistrationResponse, TransportConfig};
use crate::text::owned;

verus! {

/// A client owned by the caller.
pub struct FeagiAgentClientHandle {
    pub client: AgentClient,
}

/// Bytes handed to the caller.
pub struct FeagiByteBufferHandle {
    pub data: Vec<u8>,
}

/// The message when registration has not happened yet.
pub open spec fn registration_unavailable() -> Seq<char> {
    "Registration response not available (call feagi_client_connect() successfully first)"@
}

/// The length of a buffer; an absent buffer has none.
pub fn feagi_buffer_len(buf: Option<&FeagiByteBufferHandle>) -> (n: usize)
    ensures
        n == match buf {
            Some(b) => b.data@.len(),
            None => 0,
        },
{
    match buf {
        Some(b) => b.data.len(),
        None => 0,
    }
}

/// Creates a client from a configuration that passes validation; the
/// second part of the result is the client the caller receives.
pub fn feagi_client_new(
    cfg: Option<&FeagiAgentConfigHandle>,
    out_client_present: bool,
    last_error: &mut LastError,
) -> (r: (FeagiStatus, Option<FeagiAgentClientHandle>))
    ensures
        match cfg {
            None => r.0 == FeagiStatus::NullPointer && r.1 is None && records(
                *final(last_error),
                "cfg must not be null"@,
            ),
            Some(h) => if !out_client_present {
                r.0 == FeagiStatus::NullPointer && r.1 is None && records(
                    *final(last_error),
                    "out_client must not be null"@,
                )
            } else {
                match validation_error(h.config@) {
                    None => r.1 matches Some(c) && accepted(r.0, *final(last_error))
                        && c.client.config@ == h.config@ && c.client.registration_body_json is None,
                    Some(m) => r.0 == FeagiStatus::SdkError && r.1 is None && records(
                        *final(last_error),
                        m,
                    ),
                }
            },
        },
{
    clear_last_error(last_error);
    let h = match cfg {
        Some(h) => h,
        None => {
            set_last_error(last_error, "cfg must not be null");
            return (FeagiStatus::NullPointer, None);
        },
    };
    if !out_client_present {
        set_last_error(last_error, "out_client must not be null");
        return (FeagiStatus::NullPointer, None);
    }
    let config = h.config.clone();
    match AgentClient::new(config) {
        Ok(client) => (FeagiStatus::Success, Some(FeagiAgentClientHandle { client })),
        Err(e) => {
            set_last_error(last_error, e.as_str());
            (FeagiStatus::SdkError, None)
        },
    }
}

/// The status of an SDK operation's outcome; a failure is recorded.
pub fn sdk_status(outcome: Result<(), String>, last_error: &mut LastError) -> (status: FeagiStatus)
    ensures
        match outcome {
            Ok(_) => status == FeagiStatus::Success && final(last_error)@ == old(last_error)@,
            Err(e) => status == FeagiStatus::SdkError && records(*final(last_error), e@),
        },
{
    match outcome {
        Ok(()) => FeagiStatus::Success,
        Err(e) => {
            set_last_error(last_error, e.as_str());
            FeagiStatus::SdkError
        },
    }
}

/// The registration body of the last successful connect.
pub fn feagi_client_registration_response_json_alloc<'a>(
    client: Option<&'a FeagiAgentClientHandle>,
    last_error: &mut LastError,
) -> (r: Option<&'a JsonValue>)
    ensures
        match client {
            None => r is None && records(*final(last_error), "client must not be null"@),
            Some(c) => match c.client.registration_body_json {
                None => r is None && records(*final(last_error), registration_unavailable()),
                Some(b) => r matches Some(x) && *x == b && final(last_error)@ is None,
            },
        },
{
    clear_last_error(last_error);
    let c = match client {
        Some(c) => c,
        None => {
            set_last_error(last_error, "client must not be null");
            return None;
        },
    };
    match c.client.registration_body_json() {
        Some(b) => Some(b),
        None => {
            set_last_error(
                last_error,
                "Registration response not available (call feagi_client_connect() successfully first)",
            );
            None
        },
    }
}

/// Reads the registration body of a connected client, recording why when
/// there is none or it cannot be read.
fn parsed_registration(client: Option<&FeagiAgentClientHandle>, last_error: &mut LastError) -> (r:
    Option<RegistrationResponse>)
    ensures
        match client {
            None => r is None && records(*final(last_error), "client must not be null"@),
            Some(c) => match c.client.registration_body_json {
                None => r is None && records(*final(last_error), registration_unavailable()),
                Some(b) => match registration_from_json(b) {
                    Err(e) => r is None && records(
                        *final(last_error),
                        "Failed to parse registration response: "@ + e,
                    ),
                    Ok(v) => r matches Some(p) && p@ == v && final(last_error)@
                        == old(last_error)@,
                },
            },
        },
{
    let c = match client {
        Some(c) => c,
        None => {
            set_last_error(last_error, "client must not be null");
            return None;
        },
    };
    let body = match c.client.registration_body_json() {
        Some(b) => b,
        None => {
            set_last_error(
                last_error,
                "Registration response not available (call feagi_client_connect() successfully first)",
            );
            return None;
        },
    };
    match RegistrationResponse::from_json(body) {
        Ok(p) => Some(p),
        Err(e) => {
            let mut m = owned("Failed to parse registration response: ");
            m.append(e.as_str());
            set_last_error(last_error, m.as_str());
            None
        },
    }
}

/// The ZMQ ports of the last successful registration.
pub fn feagi_client_registration_zmq_ports_json_alloc(
    client: Option<&FeagiAgentClientHandle>,
    last_error: &mut LastError,
) -> (r: Option<TransportConfig>)
    ensures
        match client {
            None => r is None && records(*final(last_error), "client must not be null"@),
            Some(c) => match c.client.registration_body_json {
                None => r is None && records(*final(last_error), registration_unavailable()),
                Some(b) => match registration_from_json(b) {
                    Err(e) => r is None && records(
                        *final(last_error),
                        "Failed to parse registration response: "@ + e,
                    ),
                    Ok(v) => if v.transports.contains_key("zmq"@) {
                        r matches Some(t) && t@ == v.transports["zmq"@] && final(last_error)@ is None
                    } else {
                        r is None && records(
                            *final(last_error),
                            "Registration response did not include an enabled ZMQ transport"@,
                        )
                    },
                },
            },
        },
{
    clear_last_error(last_error);
    let parsed = match parsed_registration(client, last_error) {
        Some(p) => p,
        None => {
            return None;
        },
    };
    match parsed.get_transport("zmq") {
        Some(t) => Some(t.clone()),
        None => {
            set_last_error(
                last_error,
                "Registration response did not include an enabled ZMQ transport",
            );
            None
        },
    }
}

/// The preference a caller gives: none when absent or empty.
pub open spec fn preference_of(text: Seq<char>) -> Option<Seq<char>> {
    if text.len() == 0 {
        None
    } else {
        Some(text)
    }
}

/// The transport chosen from the last successful registration: the
/// preferred one when given and listed, else the recommended one.
pub fn feagi_client_registration_chosen_transport_json_alloc(
    client: Option<&FeagiAgentClientHandle>,
    preference: Option<&[u8]>,
    last_error: &mut LastError,
) -> (r: Option<ChosenTransport>)
    ensures
        match client {
            None => r is None && records(*final(last_error), "client must not be null"@),
            Some(c) => match c.client.registration_body_json {
                None => r is None && records(*final(last_error), registration_unavailable()),
                Some(b) => match registration_from_json(b) {
                    Err(e) => r is None && records(
                        *final(last_error),
                        "Failed to parse registration response: "@ + e,
                    ),
                    Ok(v) => {
                        let pref = match c_text(c_bytes(preference)) {
                            Ok(s) => preference_of(s),
                            Err(_) => None,
                        };
                        if preference is Some && c_text(c_bytes(preference)) is Err {
                            r is None && records(
                                *final(last_error),
                                c_text_error(c_bytes(preference), "preference"@),
                            )
                        } else {
                            match choose_transport_spec(v, pref) {
                                Some(x) => r matches Some(t) && t@ == x && final(last_error)@ is None,
                                None => r is None && records(
                                    *final(last_error),
                                    "No enabled transports available in registration response"@,
                                ),
                            }
                        }
                    },
                },
            },
        },
{
    clear_last_error(last_error);
    let parsed = match parsed_registration(client, last_error) {
        Some(p) => p,
        None => {
            return None;
        },
    };
    let pref = match preference {
        None => None,
        Some(_) => match cstr_to_string(preference, "preference", last_error) {
            Ok(s) => if s.as_str().is_empty() {
                None
            } else {
                Some(s)
            },
            Err(_) => {
                return None;
            },
        },
    };
    let chosen = match &pref {
        Some(p) => parsed.choose_transport(Some(p.as_str())),
        None => parsed.choose_transport(None),
    };
    match chosen {
        Some(c) => Some(c),
        None => {
            set_last_error(last_error, "No enabled transports available in registration response");
            None
        },
    }
}

/// The recommended transport of the last successful registration.
pub fn feagi_client_registration_recommended_transport_alloc(
    client: Option<&FeagiAgentClientHandle>,
    last_error: &mut LastError,
) -> (r: Option<String>)
    ensures
        match client {
            None => r is None && records(*final(last_error), "client must not be null"@),
            Some(c) => match c.client.registration_body_json {
                None => r is None && records(*final(last_error), registration_unavailable()),
                Some(b) => match registration_from_json(b) {
                    Err(e) => r is None && records(
                        *final(last_error),
                        "Failed to parse registration response: "@ + e,
                    ),
                    Ok(v) => match v.recommended_transport {
                        Some(s) => r matches Some(t) && t@ == s && final(last_error)@ is None,
                        None => r is None && records(
                            *final(last_error),
                            "Registration response did not include recommended_transport"@,
                        ),
                    },
                },
            },
        },
{
    clear_last_error(last_error);
    let parsed = match parsed_registration(client, last_error) {
        Some(p) => p,
        None => {
            return None;
        },
    };
    match parsed.recommended_transport {
        Some(s) => Some(s),
        None => {
            set_last_error(last_error, "Registration response did not include recommended_transport");
            None
        },
    }
}

/// Checks the bytes of a sensory send: present and not empty.
pub fn sensory_send_arguments(bytes: Option<&[u8]>, last_error: &mut LastError) -> (r: Result<
    Vec<u8>,
    FeagiStatus,
>)
    ensures
        match bytes {
            None => r == Err::<Vec<u8>, FeagiStatus>(FeagiStatus::NullPointer) && records(
                *final(last_error),
                "bytes must not be null"@,
            ),
            Some(b) => if b@.len() == 0 {
                r == Err::<Vec<u8>, FeagiStatus>(FeagiStatus::InvalidArgument) && records(
                    *final(last_error),
                    "len must be > 0"@,
                )
            } else {
                r matches Ok(v) && v@ == b@ && final(last_error)@ == old(last_error)@
            },
        },
{
    match bytes {
        None => {
            set_last_error(last_error, "bytes must not be null");
            Err(FeagiStatus::NullPointer)
        },
        Some(b) => {
            if b.len() == 0 {
                set_last_error(last_error, "len must be > 0");
                return Err(FeagiStatus::InvalidArgument);
            }
            Ok(slice_to_vec(b))
        },
    }
}

/// Checks the arguments of a non-blocking sensory send: the bytes present,
/// the place for the result present, and the bytes not empty.
pub fn sensory_try_send_arguments(
    bytes: Option<&[u8]>,
    out_sent_present: bool,
    last_error: &mut LastError,
) -> (r: Result<Vec<u8>, FeagiStatus>)
    ensures
        match bytes {
            None => r == Err::<Vec<u8>, FeagiStatus>(FeagiStatus::NullPointer) && records(
                *final(last_error),
                "bytes must not be null"@,
            ),
            Some(b) => if !out_sent_present {
                r == Err::<Vec<u8>, FeagiStatus>(FeagiStatus::NullPointer) && records(
                    *final(last_error),
                    "out_sent must not be null"@,
                )
            } else if b@.len() == 0 {
                r == Err::<Vec<u8>, FeagiStatus>(FeagiStatus::InvalidArgument) && records(
                    *final(last_error),
                    "len must be > 0"@,
                )
            } else {
                r matches Ok(v) && v@ == b@ && final(last_error)@ == old(last_error)@
            },
        },
{
    match bytes {
        None => {
            set_last_error(last_error, "bytes must not be null");
            Err(FeagiStatus::NullPointer)
        },
        Some(b) => {
            if !out_sent_present {
                set_last_error(last_error, "out_sent must not be null");
                return Err(FeagiStatus::NullPointer);
            }
            if b.len() == 0 {
                set_last_error(last_error, "len must be > 0");
                return Err(FeagiStatus::InvalidArgument);
            }
            Ok(slice_to_vec(b))
        },
    }
}

/// The status of a non-blocking send, and whether the bytes went out.
pub fn try_send_status(outcome: Result<bool, String>, last_error: &mut LastError) -> (r: (
    FeagiStatus,
    Option<bool>,
))
    ensures
        match outcome {
            Ok(sent) => r == (FeagiStatus::Success, Some(sent)) && final(last_error)@ == old(last_error)@,
            Err(e) => r == (FeagiStatus::SdkError, None::<bool>) && records(*final(last_error), e@),
        },
{
    match outcome {
        Ok(sent) => (FeagiStatus::Success, Some(sent)),
        Err(e) => {
            set_last_error(last_error, e.as_str());
            (FeagiStatus::SdkError, None)
        },
    }
}

/// Checks the places for a motor receive's results.
pub fn motor_receive_arguments(
    out_buf_present: bool,
    out_has_data_present: bool,
    last_error: &mut LastError,
) -> (r: Result<(), FeagiStatus>)
    ensures
        if out_buf_present && out_has_data_present {
            r is Ok && final(last_error)@ == old(last_error)@
        } else {
            r == Err::<(), FeagiStatus>(FeagiStatus::NullPointer) && records(
                *final(last_error),
                "out_buf/out_has_data must not be null"@,
            )
        },
{
    if !out_buf_present || !out_has_data_present {
        set_last_error(last_error, "out_buf/out_has_data must not be null");
        return Err(FeagiStatus::NullPointer);
    }
    Ok(())
}

/// What a motor receive hands the caller: on success, a buffer exactly when
/// non-empty data arrived; on failure the error is recorded.
pub fn motor_buffer_outcome(outcome: Result<Option<Vec<u8>>, String>, last_error: &mut LastError) -> (r:
    (FeagiStatus, Option<FeagiByteBufferHandle>))
    ensures
        match outcome {
            Ok(None) => r.0 == FeagiStatus::Success && r.1 is None && final(last_error)@ == old(last_error)@,
            Ok(Some(v)) => if v@.len() == 0 {
                r.0 == FeagiStatus::Success && r.1 is None && final(last_error)@ == old(last_error)@
            } else {
                r.1 matches Some(b) && r.0 == FeagiStatus::Success && b.data@ == v@ && final(last_error)@
                    == old(last_error)@
            },
            Err(e) => r.0 == FeagiStatus::SdkError && r.1 is None && records(
                *final(last_error),
                e@,
            ),
        },
{
    match outcome {
        Err(e) => {
            set_last_error(last_error, e.as_str());
            (FeagiStatus::SdkError, None)
        },
        Ok(None) => (FeagiStatus::Success, None),
        Ok(Some(v)) => {
            if v.len() == 0 {
                (FeagiStatus::Success, None)
            } else {
                (FeagiStatus::Success, Some(FeagiByteBufferHandle { data: v }))
            }
        },
    }
}

fn slice_to_vec(b: &[u8]) -> (v: Vec<u8>)
    ensures
        v@ == b@,
{
    let mut v: Vec<u8> = Vec::new();
    let mut i: usize = 0;
    while i < b.len()
        invariant
            i <= b@.len(),
            v@ == b@.take(i as int),
        decreases b@.len() - i,
    {
        v.push(b[i]);
        assert(b@.take(i + 1) =~= b@.take(i as int).push(b@[i as int]));
        i = i + 1;
    }
    assert(b@.take(b@.len() as int) =~= b@);
    v
}

} // verus!
