//! The configuration operations of the C ABI, on plain values: text
//! arguments arrive as the bytes of their C strings (`None` for a null
//! pointer), and each operation reports a status and keeps the last-error
//! record. A failed operation leaves the configuration as it was.

use vstd::prelude::*;
use vstd::string::*;
use crate::abi::{agent_type_of, motor_unit_name, sensory_unit_name, AgentType, FeagiAgentType,
    FeagiMotorUnit, FeagiSensoryUnit, FeagiStatus};
use crate::config::{initial_config, tcp_endpoint, validation_error,
    AgentConfig, AgentConfigView, MotorCapabilityView, MotorUnitCompat, SensoryCapabilityView,
    VisionCapabilityView, VisualizationCapabilityView};
use crate::last_error::{c_bytes, c_text, c_text_error, clear_last_error, cstr_to_string, records,
    set_last_error, LastError};
use crate::outside::{auth_token_bytes, auth_token_from_base64, base64_decode, descriptor_error,
    descriptor_fields, json_string_array,
    json_value_parse, new_agent_descriptor, parse_json_string_array, parse_json_value};
use crate::text::owned;

verus! {

/// A configuration owned by the caller.
pub struct FeagiAgentConfigHandle {
    pub config: AgentConfig,
}

/// The configuration is as it was, and the record names why.
pub open spec fn rejected(
    before: FeagiAgentConfigHandle,
    after: FeagiAgentConfigHandle,
    e: LastError,
    message: Seq<char>,
) -> bool {
    after.config@ == before.config@ && records(e, message)
}

/// The operation succeeded: the record is empty.
pub open spec fn accepted(status: FeagiStatus, e: LastError) -> bool {
    status == FeagiStatus::Success && e@ is None
}

/// Creates a configuration for a non-empty agent id.
pub fn feagi_config_new(
    agent_id: Option<&[u8]>,
    agent_type: FeagiAgentType,
    last_error: &mut LastError,
) -> (r: Option<FeagiAgentConfigHandle>)
    ensures
        match c_text(c_bytes(agent_id)) {
            Err(_) => r is None && records(
                *final(last_error),
                c_text_error(c_bytes(agent_id), "agent_id"@),
            ),
            Ok(s) => if s.len() == 0 {
                r is None && records(*final(last_error), "agent_id must not be empty"@)
            } else {
                r matches Some(h) && h.config@ == initial_config(s, agent_type_of(agent_type))
                    && final(last_error)@ is None
            },
        },
{
    clear_last_error(last_error);
    let agent_id = match cstr_to_string(agent_id, "agent_id", last_error) {
        Ok(s) => s,
        Err(_) => return None,
    };
    if agent_id.as_str().is_empty() {
        set_last_error(last_error, "agent_id must not be empty");
        return None;
    }
    let config = AgentConfig::new(agent_id, AgentType::from(agent_type));
    Some(FeagiAgentConfigHandle { config })
}

pub fn feagi_config_set_registration_endpoint(
    cfg: &mut FeagiAgentConfigHandle,
    endpoint: Option<&[u8]>,
    last_error: &mut LastError,
) -> (status: FeagiStatus)
    ensures
        match c_text(c_bytes(endpoint)) {
            Ok(s) => accepted(status, *final(last_error)) && final(cfg).config@ == (AgentConfigView {
                registration_endpoint: s,
                ..old(cfg).config@
            }),
            Err(st) => status == st && rejected(
                *old(cfg),
                *final(cfg),
                *final(last_error),
                c_text_error(c_bytes(endpoint), "registration_endpoint"@),
            ),
        },
{
    clear_last_error(last_error);
    let endpoint = match cstr_to_string(endpoint, "registration_endpoint", last_error) {
        Ok(s) => s,
        Err(st) => return st,
    };
    cfg.config = cfg.config.clone().with_registration_endpoint(endpoint);
    FeagiStatus::Success
}

pub fn feagi_config_set_sensory_endpoint(
    cfg: &mut FeagiAgentConfigHandle,
    endpoint: Option<&[u8]>,
    last_error: &mut LastError,
) -> (status: FeagiStatus)
    ensures
        match c_text(c_bytes(endpoint)) {
            Ok(s) => accepted(status, *final(last_error)) && final(cfg).config@ == (AgentConfigView {
                sensory_endpoint: s,
                ..old(cfg).config@
            }),
            Err(st) => status == st && rejected(
                *old(cfg),
                *final(cfg),
                *final(last_error),
                c_text_error(c_bytes(endpoint), "sensory_endpoint"@),
            ),
        },
{
    clear_last_error(last_error);
    let endpoint = match cstr_to_string(endpoint, "sensory_endpoint", last_error) {
        Ok(s) => s,
        Err(st) => return st,
    };
    cfg.config = cfg.config.clone().with_sensory_endpoint(endpoint);
    FeagiStatus::Success
}

pub fn feagi_config_set_motor_endpoint(
    cfg: &mut FeagiAgentConfigHandle,
    endpoint: Option<&[u8]>,
    last_error: &mut LastError,
) -> (status: FeagiStatus)
    ensures
        match c_text(c_bytes(endpoint)) {
            Ok(s) => accepted(status, *final(last_error)) && final(cfg).config@ == (AgentConfigView {
                motor_endpoint: s,
                ..old(cfg).config@
            }),
            Err(st) => status == st && rejected(
                *old(cfg),
                *final(cfg),
                *final(last_error),
                c_text_error(c_bytes(endpoint), "motor_endpoint"@),
            ),
        },
{
    clear_last_error(last_error);
    let endpoint = match cstr_to_string(endpoint, "motor_endpoint", last_error) {
        Ok(s) => s,
        Err(st) => return st,
    };
    cfg.config = cfg.config.clone().with_motor_endpoint(endpoint);
    FeagiStatus::Success
}

pub fn feagi_config_set_visualization_endpoint(
    cfg: &mut FeagiAgentConfigHandle,
    endpoint: Option<&[u8]>,
    last_error: &mut LastError,
) -> (status: FeagiStatus)
    ensures
        match c_text(c_bytes(endpoint)) {
            Ok(s) => accepted(status, *final(last_error)) && final(cfg).config@ == (AgentConfigView {
                visualization_endpoint: s,
                ..old(cfg).config@
            }),
            Err(st) => status == st && rejected(
                *old(cfg),
                *final(cfg),
                *final(last_error),
                c_text_error(c_bytes(endpoint), "visualization_endpoint"@),
            ),
        },
{
    clear_last_error(last_error);
    let endpoint = match cstr_to_string(endpoint, "visualization_endpoint", last_error) {
        Ok(s) => s,
        Err(st) => return st,
    };
    cfg.config = cfg.config.clone().with_visualization_endpoint(endpoint);
    FeagiStatus::Success
}

pub fn feagi_config_set_control_endpoint(
    cfg: &mut FeagiAgentConfigHandle,
    endpoint: Option<&[u8]>,
    last_error: &mut LastError,
) -> (status: FeagiStatus)
    ensures
        match c_text(c_bytes(endpoint)) {
            Ok(s) => accepted(status, *final(last_error)) && final(cfg).config@ == (AgentConfigView {
                control_endpoint: s,
                ..old(cfg).config@
            }),
            Err(st) => status == st && rejected(
                *old(cfg),
                *final(cfg),
                *final(last_error),
                c_text_error(c_bytes(endpoint), "control_endpoint"@),
            ),
        },
{
    clear_last_error(last_error);
    let endpoint = match cstr_to_string(endpoint, "control_endpoint", last_error) {
        Ok(s) => s,
        Err(st) => return st,
    };
    cfg.config = cfg.config.clone().with_control_endpoint(endpoint);
    FeagiStatus::Success
}

/// Sets all five endpoints from one host and five explicit, non-zero ports.
pub fn feagi_config_set_feagi_endpoints(
    cfg: &mut FeagiAgentConfigHandle,
    host: Option<&[u8]>,
    registration_port: u16,
    sensory_port: u16,
    motor_port: u16,
    visualization_port: u16,
    control_port: u16,
    last_error: &mut LastError,
) -> (status: FeagiStatus)
    ensures
        match c_text(c_bytes(host)) {
            Err(st) => status == st && rejected(
                *old(cfg),
                *final(cfg),
                *final(last_error),
                c_text_error(c_bytes(host), "host"@),
            ),
            Ok(h) => if h.len() == 0 {
                status == FeagiStatus::InvalidArgument && rejected(
                    *old(cfg),
                    *final(cfg),
                    *final(last_error),
                    "host must not be empty"@,
                )
            } else if registration_port == 0 || sensory_port == 0 || motor_port == 0
                || visualization_port == 0 || control_port == 0 {
                status == FeagiStatus::InvalidArgument && rejected(
                    *old(cfg),
                    *final(cfg),
                    *final(last_error),
                    "all ports must be > 0"@,
                )
            } else {
                accepted(status, *final(last_error)) && final(cfg).config@ == (AgentConfigView {
                    registration_endpoint: tcp_endpoint(h, registration_port),
                    sensory_endpoint: tcp_endpoint(h, sensory_port),
                    motor_endpoint: tcp_endpoint(h, motor_port),
                    visualization_endpoint: tcp_endpoint(h, visualization_port),
                    control_endpoint: tcp_endpoint(h, control_port),
                    ..old(cfg).config@
                })
            },
        },
{
    clear_last_error(last_error);
    let host = match cstr_to_string(host, "host", last_error) {
        Ok(s) => s,
        Err(st) => return st,
    };
    if host.as_str().is_empty() {
        set_last_error(last_error, "host must not be empty");
        return FeagiStatus::InvalidArgument;
    }
    if registration_port == 0 || sensory_port == 0 || motor_port == 0 || visualization_port == 0
        || control_port == 0 {
        set_last_error(last_error, "all ports must be > 0");
        return FeagiStatus::InvalidArgument;
    }
    cfg.config = cfg.config.clone().with_feagi_endpoints(
        host,
        registration_port,
        sensory_port,
        motor_port,
        visualization_port,
        control_port,
    );
    FeagiStatus::Success
}

/// Sets the heartbeat interval, given as the bits of an `f64` together with
/// whether that number is below zero (a comparison the caller makes, since
/// it is one of floating point).
pub fn feagi_config_set_heartbeat_interval_s(
    cfg: &mut FeagiAgentConfigHandle,
    heartbeat_interval_s_bits: u64,
    heartbeat_interval_s_is_negative: bool,
    last_error: &mut LastError,
) -> (status: FeagiStatus)
    ensures
        if heartbeat_interval_s_is_negative {
            status == FeagiStatus::InvalidArgument && rejected(
                *old(cfg),
                *final(cfg),
                *final(last_error),
                "heartbeat_interval_s must be >= 0"@,
            )
        } else {
            accepted(status, *final(last_error)) && final(cfg).config@ == (AgentConfigView {
                heartbeat_interval_s_bits: Some(heartbeat_interval_s_bits),
                ..old(cfg).config@
            })
        },
{
    clear_last_error(last_error);
    if heartbeat_interval_s_is_negative {
        set_last_error(last_error, "heartbeat_interval_s must be >= 0");
        return FeagiStatus::InvalidArgument;
    }
    cfg.config = cfg.config.clone().with_heartbeat_interval(heartbeat_interval_s_bits);
    FeagiStatus::Success
}

pub fn feagi_config_set_connection_timeout_ms(
    cfg: &mut FeagiAgentConfigHandle,
    connection_timeout_ms: u64,
    last_error: &mut LastError,
) -> (status: FeagiStatus)
    ensures
        if connection_timeout_ms == 0 {
            status == FeagiStatus::InvalidArgument && rejected(
                *old(cfg),
                *final(cfg),
                *final(last_error),
                "connection_timeout_ms must be > 0"@,
            )
        } else {
            accepted(status, *final(last_error)) && final(cfg).config@ == (AgentConfigView {
                connection_timeout_ms: Some(connection_timeout_ms),
                ..old(cfg).config@
            })
        },
{
    clear_last_error(last_error);
    if connection_timeout_ms == 0 {
        set_last_error(last_error, "connection_timeout_ms must be > 0");
        return FeagiStatus::InvalidArgument;
    }
    cfg.config = cfg.config.clone().with_connection_timeout_ms(connection_timeout_ms);
    FeagiStatus::Success
}

/// Sets the number of registration attempts; zero is stored here and
/// refused later by validation.
pub fn feagi_config_set_registration_retries(
    cfg: &mut FeagiAgentConfigHandle,
    registration_retries: u32,
    last_error: &mut LastError,
) -> (status: FeagiStatus)
    ensures
        accepted(status, *final(last_error)),
        final(cfg).config@ == (AgentConfigView {
            registration_retries: Some(registration_retries),
            ..old(cfg).config@
        }),
{
    clear_last_error(last_error);
    cfg.config = cfg.config.clone().with_registration_retries(registration_retries);
    FeagiStatus::Success
}

/// Sets the agent descriptor that registration presents.
pub fn feagi_config_set_agent_descriptor(
    cfg: &mut FeagiAgentConfigHandle,
    manufacturer: Option<&[u8]>,
    agent_name: Option<&[u8]>,
    agent_version: u32,
    last_error: &mut LastError,
) -> (status: FeagiStatus)
    ensures
        match (c_text(c_bytes(manufacturer)), c_text(c_bytes(agent_name))) {
            (Err(st), _) => status == st && rejected(
                *old(cfg),
                *final(cfg),
                *final(last_error),
                c_text_error(c_bytes(manufacturer), "manufacturer"@),
            ),
            (Ok(_), Err(st)) => status == st && rejected(
                *old(cfg),
                *final(cfg),
                *final(last_error),
                c_text_error(c_bytes(agent_name), "agent_name"@),
            ),
            (Ok(m), Ok(n)) => if agent_version == 0 {
                status == FeagiStatus::InvalidArgument && rejected(
                    *old(cfg),
                    *final(cfg),
                    *final(last_error),
                    "agent_version must be > 0"@,
                )
            } else if descriptor_error(m, n, agent_version) is Some {
                status == FeagiStatus::InvalidArgument && rejected(
                    *old(cfg),
                    *final(cfg),
                    *final(last_error),
                    descriptor_error(m, n, agent_version)->0,
                )
            } else {
                &&& accepted(status, *final(last_error))
                &&& final(cfg).config@ == (AgentConfigView {
                    descriptor: final(cfg).config@.descriptor,
                    ..old(cfg).config@
                })
                &&& final(cfg).config.descriptor matches Some(d) && descriptor_fields(d) == (
                    m,
                    n,
                    agent_version,
                )
            },
        },
{
    clear_last_error(last_error);
    let manufacturer = match cstr_to_string(manufacturer, "manufacturer", last_error) {
        Ok(s) => s,
        Err(st) => return st,
    };
    let agent_name = match cstr_to_string(agent_name, "agent_name", last_error) {
        Ok(s) => s,
        Err(st) => return st,
    };
    if agent_version == 0 {
        set_last_error(last_error, "agent_version must be > 0");
        return FeagiStatus::InvalidArgument;
    }
    let descriptor = match new_agent_descriptor(
        manufacturer.as_str(),
        agent_name.as_str(),
        agent_version,
    ) {
        Ok(d) => d,
        Err(e) => {
            set_last_error(last_error, e.as_str());
            return FeagiStatus::InvalidArgument;
        },
    };
    cfg.config.descriptor = Some(descriptor);
    FeagiStatus::Success
}

/// Sets the authentication token from its base64 text, which must decode to
/// exactly 32 bytes.
pub fn feagi_config_set_auth_token_base64(
    cfg: &mut FeagiAgentConfigHandle,
    auth_token_b64: Option<&[u8]>,
    last_error: &mut LastError,
) -> (status: FeagiStatus)
    ensures
        match c_text(c_bytes(auth_token_b64)) {
            Err(st) => status == st && rejected(
                *old(cfg),
                *final(cfg),
                *final(last_error),
                c_text_error(c_bytes(auth_token_b64), "auth_token_b64"@),
            ),
            Ok(t) => if base64_decode(t) matches Some(bytes) && bytes.len() == 32 {
                &&& accepted(status, *final(last_error))
                &&& final(cfg).config@ == (AgentConfigView {
                    auth_token: final(cfg).config@.auth_token,
                    ..old(cfg).config@
                })
                &&& final(cfg).config.auth_token matches Some(token) && Some(auth_token_bytes(token))
                    == base64_decode(t)
            } else {
                status == FeagiStatus::InvalidArgument && rejected(
                    *old(cfg),
                    *final(cfg),
                    *final(last_error),
                    "auth_token_b64 must decode to exactly 32 bytes"@,
                )
            },
        },
{
    clear_last_error(last_error);
    let auth_token_b64 = match cstr_to_string(auth_token_b64, "auth_token_b64", last_error) {
        Ok(s) => s,
        Err(st) => return st,
    };
    let auth_token = match auth_token_from_base64(auth_token_b64.as_str()) {
        Some(t) => t,
        None => {
            set_last_error(last_error, "auth_token_b64 must decode to exactly 32 bytes");
            return FeagiStatus::InvalidArgument;
        },
    };
    cfg.config.auth_token = Some(auth_token);
    FeagiStatus::Success
}

pub fn feagi_config_set_retry_backoff_ms(
    cfg: &mut FeagiAgentConfigHandle,
    retry_backoff_ms: u64,
    last_error: &mut LastError,
) -> (status: FeagiStatus)
    ensures
        if retry_backoff_ms == 0 {
            status == FeagiStatus::InvalidArgument && rejected(
                *old(cfg),
                *final(cfg),
                *final(last_error),
                "retry_backoff_ms must be > 0"@,
            )
        } else {
            accepted(status, *final(last_error)) && final(cfg).config@ == (AgentConfigView {
                retry_backoff_ms: Some(retry_backoff_ms),
                ..old(cfg).config@
            })
        },
{
    clear_last_error(last_error);
    if retry_backoff_ms == 0 {
        set_last_error(last_error, "retry_backoff_ms must be > 0");
        return FeagiStatus::InvalidArgument;
    }
    cfg.config = cfg.config.clone().with_retry_backoff_ms(retry_backoff_ms);
    FeagiStatus::Success
}

pub fn feagi_config_set_sensory_socket_config(
    cfg: &mut FeagiAgentConfigHandle,
    send_hwm: i32,
    linger_ms: i32,
    immediate: bool,
    last_error: &mut LastError,
) -> (status: FeagiStatus)
    ensures
        accepted(status, *final(last_error)),
        final(cfg).config@ == (AgentConfigView {
            sensory_send_hwm: send_hwm,
            sensory_linger_ms: linger_ms,
            sensory_immediate: immediate,
            ..old(cfg).config@
        }),
{
    clear_last_error(last_error);
    cfg.config = cfg.config.clone().with_sensory_socket_config(send_hwm, linger_ms, immediate);
    FeagiStatus::Success
}

/// The shared-memory path that a sensory capability keeps: none for an absent
/// or empty path.
pub open spec fn shm_path_of(text: Seq<char>) -> Option<Seq<char>> {
    if text.len() == 0 {
        None
    } else {
        Some(text)
    }
}

/// Sets the generic sensory capability. The rate arrives as the bits of an
/// `f64` together with whether it is at most zero (a floating-point
/// comparison the caller makes; NaN is not).
pub fn feagi_config_set_sensory_capability(
    cfg: &mut FeagiAgentConfigHandle,
    rate_hz_bits: u64,
    rate_hz_at_most_zero: bool,
    shm_path: Option<&[u8]>,
    last_error: &mut LastError,
) -> (status: FeagiStatus)
    ensures
        if rate_hz_at_most_zero {
            status == FeagiStatus::InvalidArgument && rejected(
                *old(cfg),
                *final(cfg),
                *final(last_error),
                "rate_hz must be > 0"@,
            )
        } else if shm_path is None {
            accepted(status, *final(last_error)) && final(cfg).config@ == (AgentConfigView {
                sensory_capability: Some(SensoryCapabilityView { rate_hz_bits, shm_path: None }),
                ..old(cfg).config@
            })
        } else {
            match c_text(c_bytes(shm_path)) {
                Err(st) => status == st && rejected(
                    *old(cfg),
                    *final(cfg),
                    *final(last_error),
                    c_text_error(c_bytes(shm_path), "shm_path"@),
                ),
                Ok(p) => accepted(status, *final(last_error)) && final(cfg).config@ == (
                AgentConfigView {
                    sensory_capability: Some(
                        SensoryCapabilityView { rate_hz_bits, shm_path: shm_path_of(p) },
                    ),
                    ..old(cfg).config@
                }),
            }
        },
{
    clear_last_error(last_error);
    if rate_hz_at_most_zero {
        set_last_error(last_error, "rate_hz must be > 0");
        return FeagiStatus::InvalidArgument;
    }
    let shm_path_opt = match shm_path {
        None => None,
        Some(_) => {
            let p = match cstr_to_string(shm_path, "shm_path", last_error) {
                Ok(s) => s,
                Err(st) => return st,
            };
            if p.as_str().is_empty() {
                None
            } else {
                Some(p)
            }
        },
    };
    cfg.config = cfg.config.clone().with_sensory_capability(rate_hz_bits, shm_path_opt);
    FeagiStatus::Success
}

/// Sets a vision capability aimed at a cortical area.
pub fn feagi_config_set_vision_capability(
    cfg: &mut FeagiAgentConfigHandle,
    modality: Option<&[u8]>,
    width: usize,
    height: usize,
    channels: usize,
    target_cortical_area: Option<&[u8]>,
    last_error: &mut LastError,
) -> (status: FeagiStatus)
    ensures
        if width == 0 || height == 0 || channels == 0 {
            status == FeagiStatus::InvalidArgument && rejected(
                *old(cfg),
                *final(cfg),
                *final(last_error),
                "width/height/channels must be > 0"@,
            )
        } else {
            match (c_text(c_bytes(modality)), c_text(c_bytes(target_cortical_area))) {
                (Err(st), _) => status == st && rejected(
                    *old(cfg),
                    *final(cfg),
                    *final(last_error),
                    c_text_error(c_bytes(modality), "modality"@),
                ),
                (Ok(_), Err(st)) => status == st && rejected(
                    *old(cfg),
                    *final(cfg),
                    *final(last_error),
                    c_text_error(c_bytes(target_cortical_area), "target_cortical_area"@),
                ),
                (Ok(m), Ok(t)) => accepted(status, *final(last_error)) && final(cfg).config@ == (
                AgentConfigView {
                    vision_capability: Some(
                        VisionCapabilityView::Target {
                            modality: m,
                            width,
                            height,
                            channels,
                            target_cortical_area: t,
                        },
                    ),
                    ..old(cfg).config@
                }),
            }
        },
{
    clear_last_error(last_error);
    if width == 0 || height == 0 || channels == 0 {
        set_last_error(last_error, "width/height/channels must be > 0");
        return FeagiStatus::InvalidArgument;
    }
    let modality = match cstr_to_string(modality, "modality", last_error) {
        Ok(s) => s,
        Err(st) => return st,
    };
    let target = match cstr_to_string(target_cortical_area, "target_cortical_area", last_error) {
        Ok(s) => s,
        Err(st) => return st,
    };
    cfg.config = cfg.config.clone().with_vision_capability(
        modality,
        (width, height),
        channels,
        target,
    );
    FeagiStatus::Success
}

/// Sets a vision capability given as a semantic unit and group.
pub fn feagi_config_set_vision_unit(
    cfg: &mut FeagiAgentConfigHandle,
    modality: Option<&[u8]>,
    width: usize,
    height: usize,
    channels: usize,
    unit: FeagiSensoryUnit,
    group: u8,
    last_error: &mut LastError,
) -> (status: FeagiStatus)
    ensures
        if width == 0 || height == 0 || channels == 0 {
            status == FeagiStatus::InvalidArgument && rejected(
                *old(cfg),
                *final(cfg),
                *final(last_error),
                "width/height/channels must be > 0"@,
            )
        } else {
            match c_text(c_bytes(modality)) {
                Err(st) => status == st && rejected(
                    *old(cfg),
                    *final(cfg),
                    *final(last_error),
                    c_text_error(c_bytes(modality), "modality"@),
                ),
                Ok(m) => accepted(status, *final(last_error)) && final(cfg).config@ == (
                AgentConfigView {
                    vision_capability: Some(
                        VisionCapabilityView::Unit {
                            modality: m,
                            width,
                            height,
                            channels,
                            unit: sensory_unit_name(unit),
                            group,
                        },
                    ),
                    ..old(cfg).config@
                }),
            }
        },
{
    clear_last_error(last_error);
    if width == 0 || height == 0 || channels == 0 {
        set_last_error(last_error, "width/height/channels must be > 0");
        return FeagiStatus::InvalidArgument;
    }
    let modality = match cstr_to_string(modality, "modality", last_error) {
        Ok(s) => s,
        Err(st) => return st,
    };
    cfg.config = cfg.config.clone().with_vision_unit(
        modality,
        (width, height),
        channels,
        owned(unit.as_contract_str()),
        group,
    );
    FeagiStatus::Success
}


/// Sets a motor capability fed by cortical areas, given as a JSON array of
/// strings.
pub fn feagi_config_set_motor_capability(
    cfg: &mut FeagiAgentConfigHandle,
    modality: Option<&[u8]>,
    output_count: usize,
    source_cortical_areas_json: Option<&[u8]>,
    last_error: &mut LastError,
) -> (status: FeagiStatus)
    ensures
        if output_count == 0 {
            status == FeagiStatus::InvalidArgument && rejected(
                *old(cfg),
                *final(cfg),
                *final(last_error),
                "output_count must be > 0"@,
            )
        } else {
            match (c_text(c_bytes(modality)), c_text(c_bytes(source_cortical_areas_json))) {
                (Err(st), _) => status == st && rejected(
                    *old(cfg),
                    *final(cfg),
                    *final(last_error),
                    c_text_error(c_bytes(modality), "modality"@),
                ),
                (Ok(_), Err(st)) => status == st && rejected(
                    *old(cfg),
                    *final(cfg),
                    *final(last_error),
                    c_text_error(c_bytes(source_cortical_areas_json), "source_cortical_areas_json"@),
                ),
                (Ok(m), Ok(j)) => match json_value_parse(j) {
                    Err(e) => status == FeagiStatus::JsonError && rejected(
                        *old(cfg),
                        *final(cfg),
                        *final(last_error),
                        "source_cortical_areas_json parse failed: "@ + e,
                    ),
                    Ok(_) => match json_string_array(j) {
                        None => status == FeagiStatus::InvalidArgument && rejected(
                            *old(cfg),
                            *final(cfg),
                            *final(last_error),
                            "source_cortical_areas_json must be a JSON array of strings"@,
                        ),
                        Some(areas) => accepted(status, *final(last_error)) && final(cfg).config@
                            == (AgentConfigView {
                            motor_capability: Some(
                                MotorCapabilityView::CorticalAreas {
                                    modality: m,
                                    output_count,
                                    source_cortical_areas: areas,
                                },
                            ),
                            ..old(cfg).config@
                        }),
                    },
                },
            }
        },
{
    clear_last_error(last_error);
    if output_count == 0 {
        set_last_error(last_error, "output_count must be > 0");
        return FeagiStatus::InvalidArgument;
    }
    let modality = match cstr_to_string(modality, "modality", last_error) {
        Ok(s) => s,
        Err(st) => return st,
    };
    let json_str = match cstr_to_string(
        source_cortical_areas_json,
        "source_cortical_areas_json",
        last_error,
    ) {
        Ok(s) => s,
        Err(st) => return st,
    };
    match parse_json_value(json_str.as_str()) {
        Ok(_) => {},
        Err(e) => {
            let mut m = owned("source_cortical_areas_json parse failed: ");
            m.append(e.as_str());
            set_last_error(last_error, m.as_str());
            return FeagiStatus::JsonError;
        },
    }
    let cortical_areas = match parse_json_string_array(json_str.as_str()) {
        Some(a) => a,
        None => {
            set_last_error(last_error, "source_cortical_areas_json must be a JSON array of strings");
            return FeagiStatus::InvalidArgument;
        },
    };
    cfg.config = cfg.config.clone().with_motor_capability(modality, output_count, cortical_areas);
    FeagiStatus::Success
}

/// Sets a motor capability fed by one semantic unit and group.
pub fn feagi_config_set_motor_unit(
    cfg: &mut FeagiAgentConfigHandle,
    modality: Option<&[u8]>,
    output_count: usize,
    unit: FeagiMotorUnit,
    group: u8,
    last_error: &mut LastError,
) -> (status: FeagiStatus)
    ensures
        if output_count == 0 {
            status == FeagiStatus::InvalidArgument && rejected(
                *old(cfg),
                *final(cfg),
                *final(last_error),
                "output_count must be > 0"@,
            )
        } else {
            match c_text(c_bytes(modality)) {
                Err(st) => status == st && rejected(
                    *old(cfg),
                    *final(cfg),
                    *final(last_error),
                    c_text_error(c_bytes(modality), "modality"@),
                ),
                Ok(m) => accepted(status, *final(last_error)) && final(cfg).config@ == (
                AgentConfigView {
                    motor_capability: Some(
                        MotorCapabilityView::Units {
                            modality: m,
                            output_count,
                            source_units: seq![(motor_unit_name(unit), group)],
                        },
                    ),
                    ..old(cfg).config@
                }),
            }
        },
{
    clear_last_error(last_error);
    if output_count == 0 {
        set_last_error(last_error, "output_count must be > 0");
        return FeagiStatus::InvalidArgument;
    }
    let modality = match cstr_to_string(modality, "modality", last_error) {
        Ok(s) => s,
        Err(st) => return st,
    };
    cfg.config = cfg.config.clone().with_motor_unit(
        modality,
        output_count,
        owned(unit.as_contract_str()),
        group,
    );
    FeagiStatus::Success
}

/// Sets a motor capability fed by several semantic units, given as JSON of
/// the form `[{"unit":"rotary_motor","group":0}, ...]`. Turning that text into
/// units is serde's derived parsing into `MotorUnitCompat`, which the caller
/// performs: `parsed_units` is its outcome for the same text, the error as
/// its displayed text.
pub fn feagi_config_set_motor_units_json(
    cfg: &mut FeagiAgentConfigHandle,
    modality: Option<&[u8]>,
    output_count: usize,
    motor_units_json: Option<&[u8]>,
    parsed_units: Result<Vec<MotorUnitCompat>, String>,
    last_error: &mut LastError,
) -> (status: FeagiStatus)
    ensures
        if output_count == 0 {
            status == FeagiStatus::InvalidArgument && rejected(
                *old(cfg),
                *final(cfg),
                *final(last_error),
                "output_count must be > 0"@,
            )
        } else {
            match (c_text(c_bytes(modality)), c_text(c_bytes(motor_units_json))) {
                (Err(st), _) => status == st && rejected(
                    *old(cfg),
                    *final(cfg),
                    *final(last_error),
                    c_text_error(c_bytes(modality), "modality"@),
                ),
                (Ok(_), Err(st)) => status == st && rejected(
                    *old(cfg),
                    *final(cfg),
                    *final(last_error),
                    c_text_error(c_bytes(motor_units_json), "motor_units_json"@),
                ),
                (Ok(m), Ok(_)) => match parsed_units {
                    Err(e) => status == FeagiStatus::JsonError && rejected(
                        *old(cfg),
                        *final(cfg),
                        *final(last_error),
                        "motor_units_json parse failed: "@ + e@,
                    ),
                    Ok(units) => if units.len() == 0 {
                        status == FeagiStatus::InvalidArgument && rejected(
                            *old(cfg),
                            *final(cfg),
                            *final(last_error),
                            "motor_units_json must include at least one unit"@,
                        )
                    } else {
                        accepted(status, *final(last_error)) && final(cfg).config@ == (
                        AgentConfigView {
                            motor_capability: Some(
                                MotorCapabilityView::Units {
                                    modality: m,
                                    output_count,
                                    source_units: units@.map_values(|u: MotorUnitCompat| u@),
                                },
                            ),
                            ..old(cfg).config@
                        })
                    },
                },
            }
        },
{
    clear_last_error(last_error);
    if output_count == 0 {
        set_last_error(last_error, "output_count must be > 0");
        return FeagiStatus::InvalidArgument;
    }
    let modality = match cstr_to_string(modality, "modality", last_error) {
        Ok(s) => s,
        Err(st) => return st,
    };
    match cstr_to_string(motor_units_json, "motor_units_json", last_error) {
        Ok(_) => {},
        Err(st) => return st,
    }
    let units = match parsed_units {
        Ok(u) => u,
        Err(e) => {
            let mut m = owned("motor_units_json parse failed: ");
            m.append(e.as_str());
            set_last_error(last_error, m.as_str());
            return FeagiStatus::JsonError;
        },
    };
    if units.len() == 0 {
        set_last_error(last_error, "motor_units_json must include at least one unit");
        return FeagiStatus::InvalidArgument;
    }
    cfg.config = cfg.config.clone().with_motor_units(modality, output_count, units);
    FeagiStatus::Success
}

/// Sets the visualization capability. The optional refresh rate arrives as
/// the bits of an `f64` together with whether it is at most zero (a
/// floating-point comparison the caller makes; NaN is not).
pub fn feagi_config_set_visualization_capability(
    cfg: &mut FeagiAgentConfigHandle,
    visualization_type: Option<&[u8]>,
    has_resolution: bool,
    resolution_width: usize,
    resolution_height: usize,
    has_refresh_rate: bool,
    refresh_rate_hz_bits: u64,
    refresh_rate_hz_at_most_zero: bool,
    bridge_proxy: bool,
    last_error: &mut LastError,
) -> (status: FeagiStatus)
    ensures
        match c_text(c_bytes(visualization_type)) {
            Err(st) => status == st && rejected(
                *old(cfg),
                *final(cfg),
                *final(last_error),
                c_text_error(c_bytes(visualization_type), "visualization_type"@),
            ),
            Ok(t) => if has_resolution && (resolution_width == 0 || resolution_height == 0) {
                status == FeagiStatus::InvalidArgument && rejected(
                    *old(cfg),
                    *final(cfg),
                    *final(last_error),
                    "resolution_width/height must be > 0 when has_resolution is true"@,
                )
            } else if has_refresh_rate && refresh_rate_hz_at_most_zero {
                status == FeagiStatus::InvalidArgument && rejected(
                    *old(cfg),
                    *final(cfg),
                    *final(last_error),
                    "refresh_rate_hz must be > 0 when has_refresh_rate is true"@,
                )
            } else {
                accepted(status, *final(last_error)) && final(cfg).config@ == (AgentConfigView {
                    visualization_capability: Some(
                        VisualizationCapabilityView {
                            visualization_type: t,
                            resolution: if has_resolution {
                                Some((resolution_width, resolution_height))
                            } else {
                                None
                            },
                            refresh_rate_hz_bits: if has_refresh_rate {
                                Some(refresh_rate_hz_bits)
                            } else {
                                None
                            },
                            bridge_proxy,
                        },
                    ),
                    ..old(cfg).config@
                })
            },
        },
{
    clear_last_error(last_error);
    let visualization_type = match cstr_to_string(
        visualization_type,
        "visualization_type",
        last_error,
    ) {
        Ok(s) => s,
        Err(st) => return st,
    };
    let resolution = if has_resolution {
        if resolution_width == 0 || resolution_height == 0 {
            set_last_error(
                last_error,
                "resolution_width/height must be > 0 when has_resolution is true",
            );
            return FeagiStatus::InvalidArgument;
        }
        Some((resolution_width, resolution_height))
    } else {
        None
    };
    let refresh_rate = if has_refresh_rate {
        if refresh_rate_hz_at_most_zero {
            set_last_error(last_error, "refresh_rate_hz must be > 0 when has_refresh_rate is true");
            return FeagiStatus::InvalidArgument;
        }
        Some(refresh_rate_hz_bits)
    } else {
        None
    };
    cfg.config = cfg.config.clone().with_visualization_capability(
        visualization_type,
        resolution,
        refresh_rate,
        bridge_proxy,
    );
    FeagiStatus::Success
}

/// Adds a custom capability: a non-empty key and a JSON value.
pub fn feagi_config_set_custom_capability_json(
    cfg: &mut FeagiAgentConfigHandle,
    key: Option<&[u8]>,
    json_value: Option<&[u8]>,
    last_error: &mut LastError,
) -> (status: FeagiStatus)
    ensures
        match c_text(c_bytes(key)) {
            Err(st) => status == st && rejected(
                *old(cfg),
                *final(cfg),
                *final(last_error),
                c_text_error(c_bytes(key), "key"@),
            ),
            Ok(k) => if k.len() == 0 {
                status == FeagiStatus::InvalidArgument && rejected(
                    *old(cfg),
                    *final(cfg),
                    *final(last_error),
                    "key must not be empty"@,
                )
            } else {
                match c_text(c_bytes(json_value)) {
                    Err(st) => status == st && rejected(
                        *old(cfg),
                        *final(cfg),
                        *final(last_error),
                        c_text_error(c_bytes(json_value), "json_value"@),
                    ),
                    Ok(j) => match json_value_parse(j) {
                        Err(e) => status == FeagiStatus::JsonError && rejected(
                            *old(cfg),
                            *final(cfg),
                            *final(last_error),
                            "json_value parse failed: "@ + e,
                        ),
                        Ok(v) => accepted(status, *final(last_error)) && final(cfg).config@ == (
                        AgentConfigView {
                            custom_capabilities: old(cfg).config@.custom_capabilities.push((k, v)),
                            ..old(cfg).config@
                        }),
                    },
                }
            },
        },
{
    clear_last_error(last_error);
    let key = match cstr_to_string(key, "key", last_error) {
        Ok(s) => s,
        Err(st) => return st,
    };
    if key.as_str().is_empty() {
        set_last_error(last_error, "key must not be empty");
        return FeagiStatus::InvalidArgument;
    }
    let json_str = match cstr_to_string(json_value, "json_value", last_error) {
        Ok(s) => s,
        Err(st) => return st,
    };
    let value = match parse_json_value(json_str.as_str()) {
        Ok(v) => v,
        Err(e) => {
            let mut m = owned("json_value parse failed: ");
            m.append(e.as_str());
            set_last_error(last_error, m.as_str());
            return FeagiStatus::JsonError;
        },
    };
    cfg.config = cfg.config.clone().with_custom_capability(key, value);
    FeagiStatus::Success
}

/// Checks the configuration by the same rules as client creation; an absent
/// configuration is refused.
pub fn feagi_config_validate(cfg: Option<&FeagiAgentConfigHandle>, last_error: &mut LastError) -> (status: FeagiStatus)
    ensures
        match cfg {
            None => status == FeagiStatus::NullPointer && records(
                *final(last_error),
                "cfg must not be null"@,
            ),
            Some(h) => match validation_error(h.config@) {
                None => accepted(status, *final(last_error)),
                Some(m) => status == FeagiStatus::SdkError && records(*final(last_error), m),
            },
        },
{
    clear_last_error(last_error);
    let h = match cfg {
        Some(h) => h,
        None => {
            set_last_error(last_error, "cfg must not be null");
            return FeagiStatus::NullPointer;
        },
    };
    match h.config.validate() {
        Ok(()) => FeagiStatus::Success,
        Err(e) => {
            set_last_error(last_error, e.as_str());
            FeagiStatus::SdkError
        },
    }
}

} // verus!
