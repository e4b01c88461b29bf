use feagi_io::traits_and_enums::shared::TransportProtocolEndpoint;
use feagi_java_ffi::client::{
    motor_receive_gate, registration_window_ms, sensory_send_gate, sensory_try_send_gate,
    AgentClient, EndpointState, RegistrationRound,
};
use feagi_java_ffi::registration::{
    build_registration_json, parse_endpoint_port, AgentCapability, JsonValue, RegisteredEndpoint,
    RegistrationResponse, TransportKind,
};
use feagi_java_ffi::AgentType;

fn endpoint(capability: AgentCapability, transport: TransportKind, url: &str) -> RegisteredEndpoint {
    RegisteredEndpoint { capability, transport, url: url.to_string() }
}

fn port_of(ports: &[(String, u16)], name: &str) -> Option<u16> {
    ports.iter().rev().find(|p| p.0 == name).map(|p| p.1)
}

fn granted() -> Vec<RegisteredEndpoint> {
    vec![
        endpoint(AgentCapability::SendSensorData, TransportKind::Zmq, "tcp://feagi.local:5558"),
        endpoint(AgentCapability::ReceiveMotorData, TransportKind::Zmq, "tcp://feagi.local:5564"),
        endpoint(
            AgentCapability::ReceiveNeuronVisualizations,
            TransportKind::WebSocket,
            "ws://feagi.local:9050",
        ),
    ]
}

#[test]
fn registration_body_reads_back_its_ports() {
    let body = build_registration_json(&granted());
    let parsed = RegistrationResponse::from_json(&body).unwrap();
    assert_eq!(parsed.recommended_transport.as_deref(), Some("websocket"));
    let zmq = parsed.get_transport("zmq").unwrap();
    assert_eq!(zmq.ports.len(), 2);
    assert_eq!(port_of(&zmq.ports, "sensory"), Some(5558));
    assert_eq!(port_of(&zmq.ports, "motor"), Some(5564));
    let ws = parsed.get_transport("websocket").unwrap();
    assert_eq!(port_of(&ws.ports, "visualization"), Some(9050));
    assert!(parsed.get_transport("udp").is_none());
}

#[test]
fn registration_body_recommends_zmq_without_websocket_ports() {
    let eps = vec![endpoint(AgentCapability::SendSensorData, TransportKind::Zmq, "tcp://h:7000")];
    let body = build_registration_json(&eps);
    let parsed = RegistrationResponse::from_json(&body).unwrap();
    assert_eq!(parsed.recommended_transport.as_deref(), Some("zmq"));
    assert!(parsed.get_transport("websocket").is_none());
    let chosen = parsed.choose_transport(None).unwrap();
    assert_eq!(chosen.name, "zmq");
    assert_eq!(port_of(&chosen.ports, "sensory"), Some(7000));
}

#[test]
fn endpoints_without_port_are_left_out_of_the_body() {
    let eps = vec![endpoint(AgentCapability::SendSensorData, TransportKind::Zmq, "ipc:///tmp/feagi")];
    let body = build_registration_json(&eps);
    let parsed = RegistrationResponse::from_json(&body).unwrap();
    assert!(parsed.get_transport("zmq").is_none());
    assert!(parsed.choose_transport(Some("zmq")).is_none());
}

#[test]
fn choose_transport_prefers_listed_preference() {
    let parsed = RegistrationResponse::from_json(&build_registration_json(&granted())).unwrap();
    let zmq = parsed.choose_transport(Some("zmq")).unwrap();
    assert_eq!(zmq.name, "zmq");
    assert_eq!(port_of(&zmq.ports, "motor"), Some(5564));
    let fallback = parsed.choose_transport(Some("udp")).unwrap();
    assert_eq!(fallback.name, "websocket");
    assert_eq!(port_of(&fallback.ports, "visualization"), Some(9050));
}

#[test]
fn from_json_rejects_missing_transports_and_bad_ports() {
    let no_transports = JsonValue::Object(vec![(
        "recommended_transport".to_string(),
        JsonValue::Str("zmq".to_string()),
    )]);
    assert!(RegistrationResponse::from_json(&no_transports).is_err());

    let big_port = JsonValue::Object(vec![(
        "transports".to_string(),
        JsonValue::Object(vec![(
            "zmq".to_string(),
            JsonValue::Object(vec![(
                "ports".to_string(),
                JsonValue::Object(vec![("sensory".to_string(), JsonValue::UInt(70000))]),
            )]),
        )]),
    )]);
    assert!(RegistrationResponse::from_json(&big_port).is_err());

    let fine = JsonValue::Object(vec![(
        "transports".to_string(),
        JsonValue::Object(vec![(
            "zmq".to_string(),
            JsonValue::Object(vec![(
                "ports".to_string(),
                JsonValue::Object(vec![("sensory".to_string(), JsonValue::UInt(65535))]),
            )]),
        )]),
    )]);
    let parsed = RegistrationResponse::from_json(&fine).unwrap();
    assert!(parsed.recommended_transport.is_none());
    assert_eq!(port_of(&parsed.get_transport("zmq").unwrap().ports, "sensory"), Some(65535));
    assert!(parsed.choose_transport(None).is_none());
}

#[test]
fn endpoint_port_is_the_text_after_the_last_colon() {
    let ep = |url: &str| endpoint(AgentCapability::SendSensorData, TransportKind::Zmq, url);
    assert_eq!(parse_endpoint_port(&ep("tcp://127.0.0.1:5558")), Some(5558));
    assert_eq!(parse_endpoint_port(&ep("tcp://host:+80")), Some(80));
    assert_eq!(parse_endpoint_port(&ep("tcp://host:65536")), None);
    assert_eq!(parse_endpoint_port(&ep("tcp://host:")), None);
    assert_eq!(parse_endpoint_port(&ep("ws://host:9050/path")), None);
    assert_eq!(parse_endpoint_port(&ep("5558")), Some(5558));
}

#[test]
fn registration_window_saturates_and_is_never_zero() {
    assert_eq!(registration_window_ms(1000, 3), 3000);
    assert_eq!(registration_window_ms(0, 3), 1);
    assert_eq!(registration_window_ms(1000, 0), 1);
    assert_eq!(registration_window_ms(u64::MAX, 2), u64::MAX);
}

#[test]
fn requested_capabilities_by_agent_type() {
    assert_eq!(
        AgentClient::requested_capabilities(AgentType::Both),
        vec![AgentCapability::SendSensorData, AgentCapability::ReceiveMotorData]
    );
    assert_eq!(
        AgentClient::requested_capabilities(AgentType::Visualization),
        vec![AgentCapability::ReceiveNeuronVisualizations]
    );
    assert_eq!(
        AgentClient::requested_capabilities(AgentType::Infrastructure),
        vec![AgentCapability::ReceiveSystemMessages]
    );
}

#[test]
fn registration_request_goes_out_once() {
    let mut round = RegistrationRound::new();
    assert!(!round.on_poll(&EndpointState::Pending));
    assert!(round.on_poll(&EndpointState::ActiveWaiting));
    assert!(!round.on_poll(&EndpointState::ActiveWaiting));
    assert!(!round.on_poll(&EndpointState::ActiveHasData));
    assert!(round.sent_registration);
}

#[test]
fn send_gates_follow_endpoint_state() {
    assert!(sensory_send_gate(&EndpointState::ActiveWaiting).is_ok());
    assert_eq!(
        sensory_send_gate(&EndpointState::Pending).unwrap_err(),
        "sensory endpoint is pending"
    );
    assert_eq!(
        sensory_send_gate(&EndpointState::Errored("boom".to_string())).unwrap_err(),
        "sensory endpoint errored: boom"
    );
    assert_eq!(sensory_try_send_gate(&EndpointState::ActiveWaiting), Ok(true));
    assert_eq!(sensory_try_send_gate(&EndpointState::Inactive), Ok(false));
    assert_eq!(motor_receive_gate(&EndpointState::ActiveHasData), Ok(true));
    assert_eq!(motor_receive_gate(&EndpointState::ActiveWaiting), Ok(false));
    assert_eq!(
        motor_receive_gate(&EndpointState::Errored("down".to_string())),
        Err("motor endpoint errored: down".to_string())
    );
}

#[test]
fn parse_endpoint_accepts_known_schemes() {
    assert!(AgentClient::parse_endpoint("tcp://127.0.0.1:30001").is_ok());
    assert!(AgentClient::parse_endpoint("ws://localhost:9050").is_ok());
    assert!(AgentClient::parse_endpoint("wss://feagi.example/ws").is_ok());
    assert_eq!(
        AgentClient::parse_endpoint("http://localhost:80").err().unwrap(),
        "Unsupported endpoint scheme; expected tcp://, ws://, or wss://"
    );
}

#[test]
fn parse_endpoint_reports_outside_url_errors() {
    assert_eq!(
        AgentClient::parse_endpoint("tcp://localhost").err().unwrap(),
        "FeagiNetworkError: Invalid socket properties: Invalid ZMQ TCP URL 'tcp://localhost': missing port (expected host:port)"
    );
    assert_eq!(
        AgentClient::parse_endpoint("tcp://").err().unwrap(),
        "FeagiNetworkError: Invalid socket properties: Invalid ZMQ URL: empty address after tcp://"
    );
    assert_eq!(
        AgentClient::parse_endpoint("ws://").err().unwrap(),
        "FeagiNetworkError: Invalid socket properties: Invalid WebSocket URL 'ws://': empty address after scheme"
    );
    assert_eq!(
        AgentClient::parse_endpoint("wss:///path").err().unwrap(),
        "FeagiNetworkError: Invalid socket properties: Invalid WebSocket URL 'wss:///path': empty host"
    );
}

fn transport(ports: Vec<(&str, JsonValue)>) -> JsonValue {
    JsonValue::Object(vec![(
        "ports".to_string(),
        JsonValue::Object(ports.into_iter().map(|(k, v)| (k.to_string(), v)).collect()),
    )])
}

fn body(transports: Vec<(&str, JsonValue)>) -> JsonValue {
    JsonValue::Object(vec![(
        "transports".to_string(),
        JsonValue::Object(transports.into_iter().map(|(k, v)| (k.to_string(), v)).collect()),
    )])
}

#[test]
fn from_json_reports_the_first_refused_key_in_key_order() {
    let b = body(vec![
        ("zmq", JsonValue::Object(vec![])),
        ("websocket", transport(vec![("sensory", JsonValue::UInt(70000))])),
    ]);
    assert_eq!(
        RegistrationResponse::from_json(&b).err().unwrap(),
        "transport 'websocket.sensory' port out of range"
    );
    let b = body(vec![(
        "zmq",
        transport(vec![
            ("sensory", JsonValue::UInt(70000)),
            ("motor", JsonValue::Str("x".to_string())),
        ]),
    )]);
    assert_eq!(
        RegistrationResponse::from_json(&b).err().unwrap(),
        "transport 'zmq.motor' port is not an integer"
    );
    let b = body(vec![("zmq", JsonValue::UInt(1))]);
    assert_eq!(
        RegistrationResponse::from_json(&b).err().unwrap(),
        "transport 'zmq' missing ports object"
    );
}

#[test]
fn from_json_keeps_the_later_of_repeated_keys() {
    let b = body(vec![
        ("zmq", JsonValue::Object(vec![])),
        ("zmq", transport(vec![("sensory", JsonValue::Str("x".to_string())), ("sensory", JsonValue::UInt(5558))])),
    ]);
    let parsed = RegistrationResponse::from_json(&b).unwrap();
    assert_eq!(port_of(&parsed.get_transport("zmq").unwrap().ports, "sensory"), Some(5558));
}

#[test]
fn parse_endpoint_keeps_the_given_url() {
    match AgentClient::parse_endpoint("tcp://10.0.0.7:30001").unwrap() {
        TransportProtocolEndpoint::Zmq(u) => assert_eq!(u.as_str(), "tcp://10.0.0.7:30001"),
        _ => panic!("expected a ZMQ endpoint"),
    }
    match AgentClient::parse_endpoint("wss://feagi.example:443/agents").unwrap() {
        TransportProtocolEndpoint::WebSocket(u) => {
            assert_eq!(u.as_str(), "wss://feagi.example:443/agents")
        }
        _ => panic!("expected a WebSocket endpoint"),
    }
}
