use feagi_java_ffi::{
    feagi_config_new, feagi_config_set_agent_descriptor, feagi_config_set_auth_token_base64,
    feagi_config_set_connection_timeout_ms, feagi_config_set_motor_endpoint,
    feagi_config_set_motor_units_json, feagi_config_set_registration_endpoint,
    feagi_config_set_registration_retries, feagi_config_set_sensory_endpoint,
    feagi_config_set_vision_unit, feagi_config_set_visualization_capability,
    feagi_config_set_visualization_endpoint, feagi_config_validate, FeagiAgentType,
    FeagiSensoryUnit, FeagiStatus, LastError, MotorUnitCompat,
};

fn cstr(value: &str) -> Option<&[u8]> {
    Some(value.as_bytes())
}

/// Reads `[{"unit": .., "group": ..}, ..]` the way the native shim does.
fn parse_motor_units(text: &str) -> Result<Vec<MotorUnitCompat>, String> {
    let value: serde_json::Value = serde_json::from_str(text).map_err(|e| e.to_string())?;
    let mut units = Vec::new();
    for item in value.as_array().ok_or("not an array")? {
        let unit = item["unit"].as_str().ok_or("unit")?.to_string();
        let group = item["group"].as_u64().ok_or("group")?;
        let group = u8::try_from(group).map_err(|e| e.to_string())?;
        units.push(MotorUnitCompat { unit, group });
    }
    Ok(units)
}

#[test]
fn test_config_set_vision_unit() {
    let mut err = LastError::new();
    let agent_id = cstr("vision_agent");
    let registration = cstr("tcp://feagi.invalid:30001");
    let sensory = cstr("tcp://feagi.invalid:5558");
    let modality = cstr("camera");
    let manufacturer = cstr("neuraville");
    let agent_name = cstr("java_vision");
    let auth_b64 = cstr("BwcHBwcHBwcHBwcHBwcHBwcHBwcHBwcHBwcHBwcHBwc=");

    let cfg = feagi_config_new(agent_id, FeagiAgentType::Sensory, &mut err);
    assert!(cfg.is_some());
    let mut cfg = cfg.unwrap();

    assert_eq!(
        feagi_config_set_registration_endpoint(&mut cfg, registration, &mut err),
        FeagiStatus::Success
    );
    assert_eq!(
        feagi_config_set_sensory_endpoint(&mut cfg, sensory, &mut err),
        FeagiStatus::Success
    );
    assert_eq!(
        feagi_config_set_connection_timeout_ms(&mut cfg, 1000, &mut err),
        FeagiStatus::Success
    );
    assert_eq!(
        feagi_config_set_registration_retries(&mut cfg, 3, &mut err),
        FeagiStatus::Success
    );
    assert_eq!(
        feagi_config_set_agent_descriptor(&mut cfg, manufacturer, agent_name, 1, &mut err),
        FeagiStatus::Success
    );
    assert_eq!(
        feagi_config_set_auth_token_base64(&mut cfg, auth_b64, &mut err),
        FeagiStatus::Success
    );
    assert_eq!(
        feagi_config_set_vision_unit(
            &mut cfg,
            modality,
            640,
            480,
            3,
            FeagiSensoryUnit::Vision,
            0,
            &mut err
        ),
        FeagiStatus::Success
    );
    assert_eq!(feagi_config_validate(Some(&cfg), &mut err), FeagiStatus::Success);

    drop(cfg);
}

#[test]
fn test_config_set_motor_units_json() {
    let mut err = LastError::new();
    let agent_id = cstr("motor_agent");
    let registration = cstr("tcp://feagi.invalid:30001");
    let motor = cstr("tcp://feagi.invalid:5564");
    let modality = cstr("servo");
    let manufacturer = cstr("neuraville");
    let agent_name = cstr("java_motor");
    let auth_b64 = cstr("BwcHBwcHBwcHBwcHBwcHBwcHBwcHBwcHBwcHBwcHBwc=");
    let units_text = r#"[{"unit":"rotary_motor","group":0},{"unit":"positional_servo","group":1}]"#;
    let motor_units_json = cstr(units_text);

    let cfg = feagi_config_new(agent_id, FeagiAgentType::Motor, &mut err);
    assert!(cfg.is_some());
    let mut cfg = cfg.unwrap();

    assert_eq!(
        feagi_config_set_registration_endpoint(&mut cfg, registration, &mut err),
        FeagiStatus::Success
    );
    assert_eq!(
        feagi_config_set_motor_endpoint(&mut cfg, motor, &mut err),
        FeagiStatus::Success
    );
    assert_eq!(
        feagi_config_set_connection_timeout_ms(&mut cfg, 1000, &mut err),
        FeagiStatus::Success
    );
    assert_eq!(
        feagi_config_set_registration_retries(&mut cfg, 3, &mut err),
        FeagiStatus::Success
    );
    assert_eq!(
        feagi_config_set_agent_descriptor(&mut cfg, manufacturer, agent_name, 1, &mut err),
        FeagiStatus::Success
    );
    assert_eq!(
        feagi_config_set_auth_token_base64(&mut cfg, auth_b64, &mut err),
        FeagiStatus::Success
    );
    assert_eq!(
        feagi_config_set_motor_units_json(
            &mut cfg,
            modality,
            2,
            motor_units_json,
            parse_motor_units(units_text),
            &mut err
        ),
        FeagiStatus::Success
    );
    assert_eq!(feagi_config_validate(Some(&cfg), &mut err), FeagiStatus::Success);

    drop(cfg);
}

#[test]
fn test_visualization_config_roundtrip() {
    let mut err = LastError::new();
    let agent_id = cstr("viz_agent");
    let registration = cstr("tcp://feagi.invalid:30001");
    let visualization = cstr("tcp://feagi.invalid:5562");
    let viz_type = cstr("3d_brain");
    let manufacturer = cstr("neuraville");
    let agent_name = cstr("java_viz");
    let auth_b64 = cstr("BwcHBwcHBwcHBwcHBwcHBwcHBwcHBwcHBwcHBwcHBwc=");

    let cfg = feagi_config_new(agent_id, FeagiAgentType::Visualization, &mut err);
    assert!(cfg.is_some());
    let mut cfg = cfg.unwrap();

    assert_eq!(
        feagi_config_set_registration_endpoint(&mut cfg, registration, &mut err),
        FeagiStatus::Success
    );
    assert_eq!(
        feagi_config_set_visualization_endpoint(&mut cfg, visualization, &mut err),
        FeagiStatus::Success
    );
    assert_eq!(
        feagi_config_set_connection_timeout_ms(&mut cfg, 1000, &mut err),
        FeagiStatus::Success
    );
    assert_eq!(
        feagi_config_set_registration_retries(&mut cfg, 3, &mut err),
        FeagiStatus::Success
    );
    assert_eq!(
        feagi_config_set_agent_descriptor(&mut cfg, manufacturer, agent_name, 1, &mut err),
        FeagiStatus::Success
    );
    assert_eq!(
        feagi_config_set_auth_token_base64(&mut cfg, auth_b64, &mut err),
        FeagiStatus::Success
    );
    let refresh_rate_hz: f64 = 0.0;
    assert_eq!(
        feagi_config_set_visualization_capability(
            &mut cfg,
            viz_type,
            false,
            0,
            0,
            false,
            refresh_rate_hz.to_bits(),
            refresh_rate_hz <= 0.0,
            false,
            &mut err
        ),
        FeagiStatus::Success
    );
    assert_eq!(feagi_config_validate(Some(&cfg), &mut err), FeagiStatus::Success);

    drop(cfg);
}
