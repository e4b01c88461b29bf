use feagi_java_ffi::config::{tcp_endpoint_text, MotorCapability};
use feagi_java_ffi::ffi_client::{
    motor_buffer_outcome, motor_receive_arguments, sensory_send_arguments,
    sensory_try_send_arguments, try_send_status,
};
use feagi_java_ffi::last_error::{cstr_to_string, reject_null, set_last_error};
use feagi_java_ffi::{
    clear_last_error, feagi_abi_version, feagi_buffer_len, feagi_client_new,
    feagi_client_registration_chosen_transport_json_alloc,
    feagi_client_registration_recommended_transport_alloc,
    feagi_client_registration_response_json_alloc,
    feagi_client_registration_zmq_ports_json_alloc, feagi_config_new,
    feagi_config_set_agent_descriptor, feagi_config_set_auth_token_base64,
    feagi_config_set_connection_timeout_ms, feagi_config_set_custom_capability_json,
    feagi_config_set_feagi_endpoints, feagi_config_set_motor_unit,
    feagi_config_set_registration_endpoint, feagi_config_set_registration_retries,
    feagi_config_set_motor_endpoint, feagi_config_set_sensory_capability,
    feagi_config_set_sensory_endpoint, feagi_config_validate, FeagiAgentConfigHandle,
    FeagiAgentType, FeagiByteBufferHandle, FeagiMotorUnit, FeagiSensoryUnit, FeagiStatus,
    LastError,
};
use feagi_java_ffi::registration::{AgentCapability, RegisteredEndpoint, TransportKind};

const TOKEN: &str = "BwcHBwcHBwcHBwcHBwcHBwcHBwcHBwcHBwcHBwcHBwc=";

fn cstr(value: &str) -> Option<&[u8]> {
    Some(value.as_bytes())
}

fn message(err: &LastError) -> &str {
    err.message.as_deref().unwrap_or("")
}

fn sensory_config(err: &mut LastError) -> FeagiAgentConfigHandle {
    let mut cfg = feagi_config_new(cstr("agent"), FeagiAgentType::Sensory, err).unwrap();
    assert_eq!(
        feagi_config_set_feagi_endpoints(&mut cfg, cstr("127.0.0.1"), 30001, 5558, 5564, 5562, 5570, err),
        FeagiStatus::Success
    );
    assert_eq!(feagi_config_set_connection_timeout_ms(&mut cfg, 500, err), FeagiStatus::Success);
    assert_eq!(feagi_config_set_registration_retries(&mut cfg, 2, err), FeagiStatus::Success);
    assert_eq!(
        feagi_config_set_agent_descriptor(&mut cfg, cstr("neuraville"), cstr("agent"), 1, err),
        FeagiStatus::Success
    );
    assert_eq!(feagi_config_set_auth_token_base64(&mut cfg, cstr(TOKEN), err), FeagiStatus::Success);
    let rate_hz: f64 = 30.0;
    assert_eq!(
        feagi_config_set_sensory_capability(&mut cfg, rate_hz.to_bits(), rate_hz <= 0.0, None, err),
        FeagiStatus::Success
    );
    cfg
}

#[test]
fn abi_version_is_one() {
    assert_eq!(feagi_abi_version(), 1);
}

#[test]
fn config_new_rejects_null_invalid_and_empty_ids() {
    let mut err = LastError::new();
    assert!(feagi_config_new(None, FeagiAgentType::Sensory, &mut err).is_none());
    assert_eq!(message(&err), "agent_id must not be null");
    let bad: &[u8] = &[0x66, 0xff, 0x6f];
    assert!(feagi_config_new(Some(bad), FeagiAgentType::Sensory, &mut err).is_none());
    assert_eq!(message(&err), "agent_id must be valid UTF-8");
    assert!(feagi_config_new(cstr(""), FeagiAgentType::Motor, &mut err).is_none());
    assert_eq!(message(&err), "agent_id must not be empty");
    assert!(feagi_config_new(cstr("ok"), FeagiAgentType::Motor, &mut err).is_some());
    assert!(err.message.is_none());
}

#[test]
fn feagi_endpoints_are_tcp_urls_of_one_host() {
    let mut err = LastError::new();
    let cfg = sensory_config(&mut err);
    assert_eq!(cfg.config.registration_endpoint, "tcp://127.0.0.1:30001");
    assert_eq!(cfg.config.sensory_endpoint, "tcp://127.0.0.1:5558");
    assert_eq!(cfg.config.motor_endpoint, "tcp://127.0.0.1:5564");
    assert_eq!(cfg.config.visualization_endpoint, "tcp://127.0.0.1:5562");
    assert_eq!(cfg.config.control_endpoint, "tcp://127.0.0.1:5570");
    assert_eq!(tcp_endpoint_text(&"h".to_string(), 0), "tcp://h:0");
    assert_eq!(tcp_endpoint_text(&"feagi".to_string(), 65535), "tcp://feagi:65535");
}

#[test]
fn feagi_endpoints_reject_empty_host_and_zero_port() {
    let mut err = LastError::new();
    let mut cfg = sensory_config(&mut err);
    assert_eq!(
        feagi_config_set_feagi_endpoints(&mut cfg, cstr(""), 1, 2, 3, 4, 5, &mut err),
        FeagiStatus::InvalidArgument
    );
    assert_eq!(message(&err), "host must not be empty");
    assert_eq!(
        feagi_config_set_feagi_endpoints(&mut cfg, cstr("h"), 1, 2, 0, 4, 5, &mut err),
        FeagiStatus::InvalidArgument
    );
    assert_eq!(message(&err), "all ports must be > 0");
    assert_eq!(cfg.config.motor_endpoint, "tcp://127.0.0.1:5564");
    assert_eq!(
        feagi_config_set_feagi_endpoints(&mut cfg, None, 1, 2, 3, 4, 5, &mut err),
        FeagiStatus::NullPointer
    );
    assert_eq!(message(&err), "host must not be null");
}

#[test]
fn descriptor_errors_come_from_the_agent_sdk() {
    let mut err = LastError::new();
    let mut cfg = feagi_config_new(cstr("a"), FeagiAgentType::Sensory, &mut err).unwrap();
    assert_eq!(
        feagi_config_set_agent_descriptor(&mut cfg, cstr("neuraville"), cstr("x"), 0, &mut err),
        FeagiStatus::InvalidArgument
    );
    assert_eq!(message(&err), "agent_version must be > 0");
    assert_eq!(
        feagi_config_set_agent_descriptor(&mut cfg, cstr("neurävïlle"), cstr("x"), 1, &mut err),
        FeagiStatus::InvalidArgument
    );
    assert_eq!(message(&err), "Bad Parameters: Manufacturer must contain ASCII characters only!");
    let long_name = "n".repeat(65);
    assert_eq!(
        feagi_config_set_agent_descriptor(&mut cfg, cstr("m"), cstr(&long_name), 1, &mut err),
        FeagiStatus::InvalidArgument
    );
    assert_eq!(
        message(&err),
        "Bad Parameters: Agent name is too long! Max length is 64 bytes, got 65"
    );
    assert!(cfg.config.descriptor.is_none());
    assert_eq!(
        feagi_config_set_agent_descriptor(&mut cfg, cstr("m"), cstr(&"n".repeat(64)), 7, &mut err),
        FeagiStatus::Success
    );
    assert!(cfg.config.descriptor.is_some());
}

#[test]
fn auth_token_must_decode_to_32_bytes() {
    let mut err = LastError::new();
    let mut cfg = feagi_config_new(cstr("a"), FeagiAgentType::Sensory, &mut err).unwrap();
    assert_eq!(
        feagi_config_set_auth_token_base64(&mut cfg, cstr("AAAAAAAAAAAAAAAAAAAAAA=="), &mut err),
        FeagiStatus::InvalidArgument
    );
    assert_eq!(message(&err), "auth_token_b64 must decode to exactly 32 bytes");
    assert_eq!(
        feagi_config_set_auth_token_base64(&mut cfg, cstr("not base64!"), &mut err),
        FeagiStatus::InvalidArgument
    );
    assert!(cfg.config.auth_token.is_none());
    assert_eq!(feagi_config_set_auth_token_base64(&mut cfg, cstr(TOKEN), &mut err), FeagiStatus::Success);
    assert!(cfg.config.auth_token.is_some());
    assert!(err.message.is_none());
}

#[test]
fn custom_capability_json_is_parsed() {
    let mut err = LastError::new();
    let mut cfg = feagi_config_new(cstr("a"), FeagiAgentType::Sensory, &mut err).unwrap();
    assert_eq!(
        feagi_config_set_custom_capability_json(&mut cfg, cstr("extra"), cstr("{\"a\": "), &mut err),
        FeagiStatus::JsonError
    );
    assert!(message(&err).starts_with("json_value parse failed: "));
    assert!(message(&err).len() > "json_value parse failed: ".len());
    assert!(cfg.config.custom_capabilities.is_empty());
    assert_eq!(
        feagi_config_set_custom_capability_json(&mut cfg, cstr(""), cstr("1"), &mut err),
        FeagiStatus::InvalidArgument
    );
    assert_eq!(message(&err), "key must not be empty");
    assert_eq!(
        feagi_config_set_custom_capability_json(&mut cfg, cstr("extra"), cstr("{\"a\": [1, 2]}"), &mut err),
        FeagiStatus::Success
    );
    assert_eq!(cfg.config.custom_capabilities.len(), 1);
    assert_eq!(cfg.config.custom_capabilities[0].0, "extra");
    assert_eq!(cfg.config.custom_capabilities[0].1["a"][1], 2);
}

#[test]
fn motor_unit_sets_a_single_semantic_unit() {
    let mut err = LastError::new();
    let mut cfg = feagi_config_new(cstr("m"), FeagiAgentType::Motor, &mut err).unwrap();
    assert_eq!(
        feagi_config_set_motor_unit(&mut cfg, cstr("servo"), 0, FeagiMotorUnit::Gaze, 2, &mut err),
        FeagiStatus::InvalidArgument
    );
    assert_eq!(message(&err), "output_count must be > 0");
    assert_eq!(
        feagi_config_set_motor_unit(&mut cfg, cstr("servo"), 4, FeagiMotorUnit::Gaze, 2, &mut err),
        FeagiStatus::Success
    );
    match &cfg.config.motor_capability {
        Some(MotorCapability::Units { modality, output_count, source_units }) => {
            assert_eq!(modality, "servo");
            assert_eq!(*output_count, 4);
            assert_eq!(source_units.len(), 1);
            assert_eq!(source_units[0].unit, "gaze");
            assert_eq!(source_units[0].group, 2);
        }
        _ => panic!("motor capability not set"),
    }
}

#[test]
fn unit_contract_names() {
    assert_eq!(FeagiSensoryUnit::Vision.as_contract_str(), "vision");
    assert_eq!(FeagiSensoryUnit::SegmentedVision.as_contract_str(), "segmented_vision");
    assert_eq!(FeagiMotorUnit::RotaryMotor.as_contract_str(), "rotary_motor");
    assert_ne!(FeagiSensoryUnit::Vision.as_contract_str(), FeagiSensoryUnit::SegmentedVision.as_contract_str());
}

#[test]
fn validate_names_the_first_missing_setting() {
    let mut err = LastError::new();
    assert_eq!(feagi_config_validate(None, &mut err), FeagiStatus::NullPointer);
    assert_eq!(message(&err), "cfg must not be null");
    let mut cfg = feagi_config_new(cstr("agent"), FeagiAgentType::Sensory, &mut err).unwrap();
    assert_eq!(
        feagi_config_set_registration_endpoint(&mut cfg, cstr("tcp://h:1"), &mut err),
        FeagiStatus::Success
    );
    assert_eq!(
        feagi_config_set_sensory_endpoint(&mut cfg, cstr("   "), &mut err),
        FeagiStatus::Success
    );
    assert_eq!(feagi_config_validate(Some(&cfg), &mut err), FeagiStatus::SdkError);
    assert_eq!(message(&err), "sensory_endpoint must be set for sensory/both");
    let mut cfg = sensory_config(&mut err);
    assert_eq!(feagi_config_validate(Some(&cfg), &mut err), FeagiStatus::Success);
    assert_eq!(
        feagi_config_set_connection_timeout_ms(&mut cfg, 0, &mut err),
        FeagiStatus::InvalidArgument
    );
    assert_eq!(message(&err), "connection_timeout_ms must be > 0");
    cfg.config = cfg.config.clone().with_connection_timeout_ms(0);
    assert_eq!(feagi_config_validate(Some(&cfg), &mut err), FeagiStatus::SdkError);
    assert_eq!(message(&err), "connection_timeout_ms must be set and > 0");
}

#[test]
fn last_error_replaces_nul_and_clears() {
    let mut err = LastError::new();
    set_last_error(&mut err, "bad\0byte");
    assert_eq!(message(&err), "bad\\0byte");
    set_last_error(&mut err, "plain text");
    assert_eq!(message(&err), "plain text");
    clear_last_error(&mut err);
    assert!(err.message.is_none());
    assert_eq!(reject_null(&mut err, "out_buf"), FeagiStatus::NullPointer);
    assert_eq!(message(&err), "out_buf must not be null");
}

#[test]
fn cstr_to_string_reads_utf8() {
    let mut err = LastError::new();
    assert_eq!(cstr_to_string(cstr("héllo"), "x", &mut err), Ok("héllo".to_string()));
    assert!(err.message.is_none());
    let bad: &[u8] = &[0xc3, 0x28];
    assert_eq!(cstr_to_string(Some(bad), "x", &mut err), Err(FeagiStatus::InvalidUtf8));
    assert_eq!(message(&err), "x must be valid UTF-8");
}

#[test]
fn client_needs_valid_config_and_output() {
    let mut err = LastError::new();
    let (status, client) = feagi_client_new(None, true, &mut err);
    assert_eq!(status, FeagiStatus::NullPointer);
    assert!(client.is_none());
    let cfg = sensory_config(&mut err);
    let (status, _) = feagi_client_new(Some(&cfg), false, &mut err);
    assert_eq!(status, FeagiStatus::NullPointer);
    assert_eq!(message(&err), "out_client must not be null");
    let empty = feagi_config_new(cstr("x"), FeagiAgentType::Sensory, &mut err).unwrap();
    let (status, _) = feagi_client_new(Some(&empty), true, &mut err);
    assert_eq!(status, FeagiStatus::SdkError);
    assert_eq!(message(&err), "registration_endpoint must be set");
    let (status, client) = feagi_client_new(Some(&cfg), true, &mut err);
    assert_eq!(status, FeagiStatus::Success);
    assert!(client.unwrap().client.registration_body_json.is_none());
}

#[test]
fn registration_queries_before_and_after_connect() {
    let mut err = LastError::new();
    let cfg = sensory_config(&mut err);
    let (_, client) = feagi_client_new(Some(&cfg), true, &mut err);
    let mut client = client.unwrap();
    assert!(feagi_client_registration_response_json_alloc(Some(&client), &mut err).is_none());
    assert!(message(&err).starts_with("Registration response not available"));
    assert!(feagi_client_registration_response_json_alloc(None, &mut err).is_none());
    assert_eq!(message(&err), "client must not be null");

    let eps = vec![RegisteredEndpoint {
        capability: AgentCapability::SendSensorData,
        transport: TransportKind::Zmq,
        url: "tcp://127.0.0.1:5558".to_string(),
    }];
    client.client.complete_connect(&eps);
    assert!(feagi_client_registration_response_json_alloc(Some(&client), &mut err).is_some());
    let zmq = feagi_client_registration_zmq_ports_json_alloc(Some(&client), &mut err).unwrap();
    assert_eq!(zmq.ports, vec![("sensory".to_string(), 5558)]);
    assert_eq!(
        feagi_client_registration_recommended_transport_alloc(Some(&client), &mut err),
        Some("zmq".to_string())
    );
    let chosen =
        feagi_client_registration_chosen_transport_json_alloc(Some(&client), cstr("websocket"), &mut err)
            .unwrap();
    assert_eq!(chosen.name, "zmq");
    let bad: &[u8] = &[0xff];
    assert!(feagi_client_registration_chosen_transport_json_alloc(Some(&client), Some(bad), &mut err)
        .is_none());
    assert_eq!(message(&err), "preference must be valid UTF-8");
}

#[test]
fn send_and_receive_arguments() {
    let mut err = LastError::new();
    assert_eq!(sensory_send_arguments(None, &mut err), Err(FeagiStatus::NullPointer));
    assert_eq!(message(&err), "bytes must not be null");
    let empty: &[u8] = &[];
    assert_eq!(sensory_send_arguments(Some(empty), &mut err), Err(FeagiStatus::InvalidArgument));
    assert_eq!(message(&err), "len must be > 0");
    clear_last_error(&mut err);
    let data: &[u8] = &[1, 2, 3];
    assert_eq!(sensory_send_arguments(Some(data), &mut err), Ok(vec![1, 2, 3]));
    assert_eq!(
        sensory_try_send_arguments(Some(data), false, &mut err),
        Err(FeagiStatus::NullPointer)
    );
    assert_eq!(message(&err), "out_sent must not be null");
    assert_eq!(try_send_status(Ok(false), &mut err), (FeagiStatus::Success, Some(false)));
    assert_eq!(
        try_send_status(Err("busy".to_string()), &mut err),
        (FeagiStatus::SdkError, None)
    );
    assert_eq!(message(&err), "busy");
    assert_eq!(motor_receive_arguments(true, false, &mut err), Err(FeagiStatus::NullPointer));
    assert_eq!(message(&err), "out_buf/out_has_data must not be null");
}

#[test]
fn motor_buffer_only_for_nonempty_data() {
    let mut err = LastError::new();
    let (s, b) = motor_buffer_outcome(Ok(Some(vec![])), &mut err);
    assert_eq!(s, FeagiStatus::Success);
    assert!(b.is_none());
    let (s, b) = motor_buffer_outcome(Ok(Some(vec![9, 8])), &mut err);
    assert_eq!(s, FeagiStatus::Success);
    let b: FeagiByteBufferHandle = b.unwrap();
    assert_eq!(feagi_buffer_len(Some(&b)), 2);
    assert_eq!(feagi_buffer_len(None), 0);
    let (s, b) = motor_buffer_outcome(Err("socket closed".to_string()), &mut err);
    assert_eq!(s, FeagiStatus::SdkError);
    assert!(b.is_none());
    assert_eq!(message(&err), "socket closed");
}

#[test]
fn null_text_arguments_are_null_pointers() {
    let mut err = LastError::new();
    let mut cfg = sensory_config(&mut err);
    assert_eq!(
        feagi_config_set_registration_endpoint(&mut cfg, None, &mut err),
        FeagiStatus::NullPointer
    );
    assert_eq!(message(&err), "registration_endpoint must not be null");
    assert_eq!(cfg.config.registration_endpoint, "tcp://127.0.0.1:30001");
    let bad: &[u8] = &[0xfe, 0x41];
    assert_eq!(
        feagi_config_set_registration_endpoint(&mut cfg, Some(bad), &mut err),
        FeagiStatus::InvalidUtf8
    );
    assert_eq!(message(&err), "registration_endpoint must be valid UTF-8");
    assert_eq!(
        feagi_config_set_agent_descriptor(&mut cfg, cstr("m"), None, 1, &mut err),
        FeagiStatus::NullPointer
    );
    assert_eq!(message(&err), "agent_name must not be null");
    assert_eq!(feagi_config_set_auth_token_base64(&mut cfg, None, &mut err), FeagiStatus::NullPointer);
    assert_eq!(
        feagi_config_set_custom_capability_json(&mut cfg, cstr("k"), None, &mut err),
        FeagiStatus::NullPointer
    );
    assert_eq!(message(&err), "json_value must not be null");
}

#[test]
fn validation_asks_for_a_capability_by_agent_kind() {
    let mut err = LastError::new();
    let mut cfg = feagi_config_new(cstr("s"), FeagiAgentType::Sensory, &mut err).unwrap();
    assert_eq!(
        feagi_config_set_feagi_endpoints(&mut cfg, cstr("h"), 1, 2, 3, 4, 5, &mut err),
        FeagiStatus::Success
    );
    assert_eq!(feagi_config_set_connection_timeout_ms(&mut cfg, 1000, &mut err), FeagiStatus::Success);
    assert_eq!(feagi_config_set_registration_retries(&mut cfg, 3, &mut err), FeagiStatus::Success);
    assert_eq!(
        feagi_config_set_agent_descriptor(&mut cfg, cstr("m"), cstr("n"), 1, &mut err),
        FeagiStatus::Success
    );
    assert_eq!(feagi_config_set_auth_token_base64(&mut cfg, cstr(TOKEN), &mut err), FeagiStatus::Success);
    assert_eq!(feagi_config_validate(Some(&cfg), &mut err), FeagiStatus::SdkError);
    assert_eq!(message(&err), "a sensory or vision capability must be set for sensory/both");
    let (status, client) = feagi_client_new(Some(&cfg), true, &mut err);
    assert_eq!(status, FeagiStatus::SdkError);
    assert!(client.is_none());

    let mut both = cfg;
    both.config.agent_type = feagi_java_ffi::AgentType::Both;
    let rate_hz: f64 = 10.0;
    assert_eq!(
        feagi_config_set_sensory_capability(&mut both, rate_hz.to_bits(), rate_hz <= 0.0, None, &mut err),
        FeagiStatus::Success
    );
    assert_eq!(feagi_config_validate(Some(&both), &mut err), FeagiStatus::SdkError);
    assert_eq!(message(&err), "a motor capability must be set for motor/both");
    assert_eq!(
        feagi_config_set_motor_endpoint(&mut both, cstr("tcp://h:4"), &mut err),
        FeagiStatus::Success
    );
    assert_eq!(
        feagi_config_set_motor_unit(&mut both, cstr("servo"), 1, FeagiMotorUnit::RotaryMotor, 0, &mut err),
        FeagiStatus::Success
    );
    assert_eq!(feagi_config_validate(Some(&both), &mut err), FeagiStatus::Success);

    let mut viz = both;
    viz.config.agent_type = feagi_java_ffi::AgentType::Visualization;
    assert_eq!(feagi_config_validate(Some(&viz), &mut err), FeagiStatus::SdkError);
    assert_eq!(message(&err), "a visualization capability must be set for visualization");
    viz.config.agent_type = feagi_java_ffi::AgentType::Infrastructure;
    assert_eq!(feagi_config_validate(Some(&viz), &mut err), FeagiStatus::Success);
}

#[test]
fn stored_descriptor_token_and_json_follow_the_arguments() {
    let mut err = LastError::new();
    let mut cfg = feagi_config_new(cstr("a"), FeagiAgentType::Sensory, &mut err).unwrap();
    assert_eq!(
        feagi_config_set_agent_descriptor(&mut cfg, cstr("neuraville"), cstr("java_vision"), 3, &mut err),
        FeagiStatus::Success
    );
    let d = cfg.config.descriptor.clone().unwrap();
    assert_eq!(d.manufacturer(), "neuraville");
    assert_eq!(d.agent_name(), "java_vision");
    assert_eq!(d.agent_version(), 3);
    assert_eq!(
        feagi_config_set_agent_descriptor(&mut cfg, cstr("other"), cstr("name"), 4, &mut err),
        FeagiStatus::Success
    );
    assert_eq!(cfg.config.descriptor.clone().unwrap().manufacturer(), "other");

    assert_eq!(feagi_config_set_auth_token_base64(&mut cfg, cstr(TOKEN), &mut err), FeagiStatus::Success);
    assert_eq!(cfg.config.auth_token.clone().unwrap().as_bytes(), &[7u8; 32]);
    let zeros = "AAAAAAAAAAAAAAAAAAAAAAAAAAAAAAAAAAAAAAAAAAA=";
    assert_eq!(feagi_config_set_auth_token_base64(&mut cfg, cstr(zeros), &mut err), FeagiStatus::Success);
    assert_eq!(cfg.config.auth_token.clone().unwrap().as_bytes(), &[0u8; 32]);

    assert_eq!(
        feagi_config_set_custom_capability_json(&mut cfg, cstr("k"), cstr("{\"x\": \"y\"}"), &mut err),
        FeagiStatus::Success
    );
    assert_eq!(
        feagi_config_set_custom_capability_json(&mut cfg, cstr("k"), cstr("[true, 5]"), &mut err),
        FeagiStatus::Success
    );
    assert_eq!(cfg.config.custom_capabilities.len(), 2);
    assert_eq!(cfg.config.custom_capabilities[0].1["x"], "y");
    assert_eq!(cfg.config.custom_capabilities[1].0, "k");
    assert_eq!(cfg.config.custom_capabilities[1].1[0], true);
    assert_eq!(cfg.config.custom_capabilities[1].1[1], 5);
}
