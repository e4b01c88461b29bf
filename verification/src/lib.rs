//! A C-ABI facade for FEAGI agents: explicit agent configuration, client
//! creation and registration, and byte and JSON exchange, with every
//! decision verified. Opaque handles, null pointers and allocation belong to
//! the native shim that exposes these operations to C callers.

use vstd::prelude::*;

pub mod abi;
pub mod client;
pub mod config;
pub mod ffi_client;
pub mod ffi_config;
pub mod last_error;
pub mod outside;
pub mod registration;
pub mod text;

pub use abi::{AgentType, FeagiAgentType, FeagiMotorUnit, FeagiSensoryUnit, FeagiStatus};
pub use config::{AgentConfig, MotorUnitCompat};
pub use ffi_client::{
    feagi_buffer_len, feagi_client_new, feagi_client_registration_chosen_transport_json_alloc,
    feagi_client_registration_recommended_transport_alloc,
    feagi_client_registration_response_json_alloc,
    feagi_client_registration_zmq_ports_json_alloc, FeagiAgentClientHandle, FeagiByteBufferHandle,
};
pub use ffi_config::{
    feagi_config_new, feagi_config_set_agent_descriptor, feagi_config_set_auth_token_base64,
    feagi_config_set_connection_timeout_ms, feagi_config_set_control_endpoint,
    feagi_config_set_custom_capability_json, feagi_config_set_feagi_endpoints,
    feagi_config_set_heartbeat_interval_s, feagi_config_set_motor_capability,
    feagi_config_set_motor_endpoint, feagi_config_set_motor_unit,
    feagi_config_set_motor_units_json, feagi_config_set_registration_endpoint,
    feagi_config_set_registration_retries, feagi_config_set_retry_backoff_ms,
    feagi_config_set_sensory_capability, feagi_config_set_sensory_endpoint,
    feagi_config_set_sensory_socket_config, feagi_config_set_vision_capability,
    feagi_config_set_vision_unit, feagi_config_set_visualization_capability,
    feagi_config_set_visualization_endpoint, feagi_config_validate, FeagiAgentConfigHandle,
};
pub use last_error::{clear_last_error, LastError};

verus! {

/// Version of the C ABI. It changes only when the ABI changes in a breaking
/// way.
pub const FEAGI_JAVA_FFI_ABI_VERSION: u32 = 1;

/// The ABI version, which callers compare with the one they were built
/// against right after loading the library.
pub fn feagi_abi_version() -> (v: u32)
    ensures
        v == FEAGI_JAVA_FFI_ABI_VERSION,
        v == 1,
{
    FEAGI_JAVA_FFI_ABI_VERSION
}

} // verus!
