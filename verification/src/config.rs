//! The agent configuration: its fields, the builders that set them, and the
//! validation that a client needs before it may be created.

use vstd::prelude::*;
use crate::abi::AgentType;
use crate::outside::{clone_agent_descriptor, clone_auth_token, clone_json_value};
use crate::text::{decimal, is_blank, owned, push_decimal, str_is_blank};
use feagi_agent::{AgentDescriptor, AuthToken};

verus! {

/// One motor source: a semantic unit name and its group.
pub struct MotorUnitCompat {
    pub unit: String,
    pub group: u8,
}

impl View for MotorUnitCompat {
    type V = (Seq<char>, u8);

    open spec fn view(&self) -> (Seq<char>, u8) {
        (self.unit@, self.group)
    }
}

impl Clone for MotorUnitCompat {
    fn clone(&self) -> (r: Self)
        ensures
            r@ == self@,
    {
        MotorUnitCompat { unit: self.unit.clone(), group: self.group }
    }
}

/// The generic sensory capability. The rate is kept as the bits of its `f64`.
pub struct SensoryCapability {
    pub rate_hz_bits: u64,
    pub shm_path: Option<String>,
}

pub struct SensoryCapabilityView {
    pub rate_hz_bits: u64,
    pub shm_path: Option<Seq<char>>,
}

impl View for SensoryCapability {
    type V = SensoryCapabilityView;

    open spec fn view(&self) -> SensoryCapabilityView {
        SensoryCapabilityView { rate_hz_bits: self.rate_hz_bits, shm_path: opt_text(self.shm_path) }
    }
}

/// The vision capability: either aimed at a cortical area, or given as a
/// semantic unit and group.
pub enum VisionCapability {
    Target {
        modality: String,
        width: usize,
        height: usize,
        channels: usize,
        target_cortical_area: String,
    },
    Unit { modality: String, width: usize, height: usize, channels: usize, unit: String, group: u8 },
}

pub enum VisionCapabilityView {
    Target {
        modality: Seq<char>,
        width: usize,
        height: usize,
        channels: usize,
        target_cortical_area: Seq<char>,
    },
    Unit {
        modality: Seq<char>,
        width: usize,
        height: usize,
        channels: usize,
        unit: Seq<char>,
        group: u8,
    },
}

impl View for VisionCapability {
    type V = VisionCapabilityView;

    open spec fn view(&self) -> VisionCapabilityView {
        match self {
            VisionCapability::Target { modality, width, height, channels, target_cortical_area } =>
                VisionCapabilityView::Target {
                modality: modality@,
                width: *width,
                height: *height,
                channels: *channels,
                target_cortical_area: target_cortical_area@,
            },
            VisionCapability::Unit { modality, width, height, channels, unit, group } =>
                VisionCapabilityView::Unit {
                modality: modality@,
                width: *width,
                height: *height,
                channels: *channels,
                unit: unit@,
                group: *group,
            },
        }
    }
}

/// The motor capability: either fed by cortical areas, or by semantic units.
pub enum MotorCapability {
    CorticalAreas { modality: String, output_count: usize, source_cortical_areas: Vec<String> },
    Units { modality: String, output_count: usize, source_units: Vec<MotorUnitCompat> },
}

pub enum MotorCapabilityView {
    CorticalAreas {
        modality: Seq<char>,
        output_count: usize,
        source_cortical_areas: Seq<Seq<char>>,
    },
    Units { modality: Seq<char>, output_count: usize, source_units: Seq<(Seq<char>, u8)> },
}

impl View for MotorCapability {
    type V = MotorCapabilityView;

    open spec fn view(&self) -> MotorCapabilityView {
        match self {
            MotorCapability::CorticalAreas { modality, output_count, source_cortical_areas } =>
                MotorCapabilityView::CorticalAreas {
                modality: modality@,
                output_count: *output_count,
                source_cortical_areas: texts(source_cortical_areas@),
            },
            MotorCapability::Units { modality, output_count, source_units } =>
                MotorCapabilityView::Units {
                modality: modality@,
                output_count: *output_count,
                source_units: source_units@.map_values(|u: MotorUnitCompat| u@),
            },
        }
    }
}

/// The visualization capability. The refresh rate is kept as the bits of its `f64`.
pub struct VisualizationCapability {
    pub visualization_type: String,
    pub resolution: Option<(usize, usize)>,
    pub refresh_rate_hz_bits: Option<u64>,
    pub bridge_proxy: bool,
}

pub struct VisualizationCapabilityView {
    pub visualization_type: Seq<char>,
    pub resolution: Option<(usize, usize)>,
    pub refresh_rate_hz_bits: Option<u64>,
    pub bridge_proxy: bool,
}

impl View for VisualizationCapability {
    type V = VisualizationCapabilityView;

    open spec fn view(&self) -> VisualizationCapabilityView {
        VisualizationCapabilityView {
            visualization_type: self.visualization_type@,
            resolution: self.resolution,
            refresh_rate_hz_bits: self.refresh_rate_hz_bits,
            bridge_proxy: self.bridge_proxy,
        }
    }
}

pub open spec fn opt_text(s: Option<String>) -> Option<Seq<char>> {
    match s {
        Some(t) => Some(t@),
        None => None,
    }
}

pub open spec fn texts(v: Seq<String>) -> Seq<Seq<char>> {
    v.map_values(|s: String| s@)
}

pub open spec fn opt_view<T: View>(o: Option<T>) -> Option<T::V> {
    match o {
        Some(t) => Some(t@),
        None => None,
    }
}

/// Everything an agent is configured with. The heartbeat interval is kept as
/// the bits of its `f64`.
pub struct AgentConfig {
    pub agent_id: String,
    pub agent_type: AgentType,
    pub registration_endpoint: String,
    pub sensory_endpoint: String,
    pub motor_endpoint: String,
    pub visualization_endpoint: String,
    pub control_endpoint: String,
    pub heartbeat_interval_s_bits: Option<u64>,
    pub connection_timeout_ms: Option<u64>,
    pub registration_retries: Option<u32>,
    pub retry_backoff_ms: Option<u64>,
    pub sensory_send_hwm: i32,
    pub sensory_linger_ms: i32,
    pub sensory_immediate: bool,
    pub descriptor: Option<AgentDescriptor>,
    pub auth_token: Option<AuthToken>,
    pub sensory_capability: Option<SensoryCapability>,
    pub vision_capability: Option<VisionCapability>,
    pub motor_capability: Option<MotorCapability>,
    pub visualization_capability: Option<VisualizationCapability>,
    pub custom_capabilities: Vec<(String, serde_json::Value)>,
}

pub struct AgentConfigView {
    pub agent_id: Seq<char>,
    pub agent_type: AgentType,
    pub registration_endpoint: Seq<char>,
    pub sensory_endpoint: Seq<char>,
    pub motor_endpoint: Seq<char>,
    pub visualization_endpoint: Seq<char>,
    pub control_endpoint: Seq<char>,
    pub heartbeat_interval_s_bits: Option<u64>,
    pub connection_timeout_ms: Option<u64>,
    pub registration_retries: Option<u32>,
    pub retry_backoff_ms: Option<u64>,
    pub sensory_send_hwm: i32,
    pub sensory_linger_ms: i32,
    pub sensory_immediate: bool,
    pub descriptor: Option<AgentDescriptor>,
    pub auth_token: Option<AuthToken>,
    pub sensory_capability: Option<SensoryCapabilityView>,
    pub vision_capability: Option<VisionCapabilityView>,
    pub motor_capability: Option<MotorCapabilityView>,
    pub visualization_capability: Option<VisualizationCapabilityView>,
    pub custom_capabilities: Seq<(Seq<char>, serde_json::Value)>,
}

impl View for AgentConfig {
    type V = AgentConfigView;

    open spec fn view(&self) -> AgentConfigView {
        AgentConfigView {
            agent_id: self.agent_id@,
            agent_type: self.agent_type,
            registration_endpoint: self.registration_endpoint@,
            sensory_endpoint: self.sensory_endpoint@,
            motor_endpoint: self.motor_endpoint@,
            visualization_endpoint: self.visualization_endpoint@,
            control_endpoint: self.control_endpoint@,
            heartbeat_interval_s_bits: self.heartbeat_interval_s_bits,
            connection_timeout_ms: self.connection_timeout_ms,
            registration_retries: self.registration_retries,
            retry_backoff_ms: self.retry_backoff_ms,
            sensory_send_hwm: self.sensory_send_hwm,
            sensory_linger_ms: self.sensory_linger_ms,
            sensory_immediate: self.sensory_immediate,
            descriptor: self.descriptor,
            auth_token: self.auth_token,
            sensory_capability: opt_view(self.sensory_capability),
            vision_capability: opt_view(self.vision_capability),
            motor_capability: opt_view(self.motor_capability),
            visualization_capability: opt_view(self.visualization_capability),
            custom_capabilities: self.custom_capabilities@.map_values(
                |p: (String, serde_json::Value)| (p.0@, p.1),
            ),
        }
    }
}

/// The configuration a new agent starts from: no endpoints, timing or
/// capabilities, one-message send queue, no linger, immediate sends.
pub open spec fn initial_config(agent_id: Seq<char>, agent_type: AgentType) -> AgentConfigView {
    AgentConfigView {
        agent_id,
        agent_type,
        registration_endpoint: Seq::empty(),
        sensory_endpoint: Seq::empty(),
        motor_endpoint: Seq::empty(),
        visualization_endpoint: Seq::empty(),
        control_endpoint: Seq::empty(),
        heartbeat_interval_s_bits: None,
        connection_timeout_ms: None,
        registration_retries: None,
        retry_backoff_ms: None,
        sensory_send_hwm: 1,
        sensory_linger_ms: 0,
        sensory_immediate: true,
        descriptor: None,
        auth_token: None,
        sensory_capability: None,
        vision_capability: None,
        motor_capability: None,
        visualization_capability: None,
        custom_capabilities: Seq::empty(),
    }
}

/// The endpoint `tcp://{host}:{port}`.
pub open spec fn tcp_endpoint(host: Seq<char>, port: u16) -> Seq<char> {
    "tcp://"@ + host + ":"@ + decimal(port as nat)
}

/// Why a configuration cannot make a client, checked in this order, or
/// `None` when it can.
pub open spec fn validation_error(c: AgentConfigView) -> Option<Seq<char>> {
    if is_blank(c.agent_id) {
        Some("agent_id must not be empty"@)
    } else if is_blank(c.registration_endpoint) {
        Some("registration_endpoint must be set"@)
    } else if (c.agent_type == AgentType::Sensory || c.agent_type == AgentType::Both) && is_blank(
        c.sensory_endpoint,
    ) {
        Some("sensory_endpoint must be set for sensory/both"@)
    } else if (c.agent_type == AgentType::Motor || c.agent_type == AgentType::Both) && is_blank(
        c.motor_endpoint,
    ) {
        Some("motor_endpoint must be set for motor/both"@)
    } else if c.descriptor is None {
        Some("agent descriptor must be set"@)
    } else if c.auth_token is None {
        Some("auth token must be set"@)
    } else if c.connection_timeout_ms.unwrap_or(0) == 0 {
        Some("connection_timeout_ms must be set and > 0"@)
    } else if c.registration_retries.unwrap_or(0) == 0 {
        Some("registration_retries must be set and > 0"@)
    } else if (c.agent_type == AgentType::Sensory || c.agent_type == AgentType::Both)
        && c.sensory_capability is None && c.vision_capability is None {
        Some("a sensory or vision capability must be set for sensory/both"@)
    } else if (c.agent_type == AgentType::Motor || c.agent_type == AgentType::Both)
        && c.motor_capability is None {
        Some("a motor capability must be set for motor/both"@)
    } else if c.agent_type == AgentType::Visualization && c.visualization_capability is None {
        Some("a visualization capability must be set for visualization"@)
    } else {
        None
    }
}

fn clone_texts(v: &Vec<String>) -> (r: Vec<String>)
    ensures
        texts(r@) == texts(v@),
{
    let mut r: Vec<String> = Vec::new();
    let mut i: usize = 0;
    while i < v.len()
        invariant
            i <= v.len(),
            texts(r@) == texts(v@.take(i as int)),
        decreases v.len() - i,
    {
        r.push(v[i].clone());
        assert(texts(v@.take(i + 1)) =~= texts(v@.take(i as int)).push(v@[i as int]@));
        assert(texts(r@) =~= texts(v@.take(i as int)).push(v@[i as int]@));
        i = i + 1;
    }
    assert(v@.take(v.len() as int) =~= v@);
    r
}

fn clone_units(v: &Vec<MotorUnitCompat>) -> (r: Vec<MotorUnitCompat>)
    ensures
        r@.map_values(|u: MotorUnitCompat| u@) == v@.map_values(|u: MotorUnitCompat| u@),
{
    let mut r: Vec<MotorUnitCompat> = Vec::new();
    let mut i: usize = 0;
    while i < v.len()
        invariant
            i <= v.len(),
            r@.map_values(|u: MotorUnitCompat| u@) == v@.take(i as int).map_values(
                |u: MotorUnitCompat| u@,
            ),
        decreases v.len() - i,
    {
        r.push(v[i].clone());
        assert(v@.take(i + 1).map_values(|u: MotorUnitCompat| u@) =~= v@.take(
            i as int,
        ).map_values(|u: MotorUnitCompat| u@).push(v@[i as int]@));
        assert(r@.map_values(|u: MotorUnitCompat| u@) =~= v@.take(i as int).map_values(
            |u: MotorUnitCompat| u@,
        ).push(v@[i as int]@));
        i = i + 1;
    }
    assert(v@.take(v.len() as int) =~= v@);
    r
}

fn clone_opt_text(s: &Option<String>) -> (r: Option<String>)
    ensures
        opt_text(r) == opt_text(*s),
{
    match s {
        Some(t) => Some(t.clone()),
        None => None,
    }
}

impl Clone for SensoryCapability {
    fn clone(&self) -> (r: Self)
        ensures
            r@ == self@,
    {
        SensoryCapability {
            rate_hz_bits: self.rate_hz_bits,
            shm_path: clone_opt_text(&self.shm_path),
        }
    }
}

impl Clone for VisionCapability {
    fn clone(&self) -> (r: Self)
        ensures
            r@ == self@,
    {
        match self {
            VisionCapability::Target { modality, width, height, channels, target_cortical_area } =>
                VisionCapability::Target {
                modality: modality.clone(),
                width: *width,
                height: *height,
                channels: *channels,
                target_cortical_area: target_cortical_area.clone(),
            },
            VisionCapability::Unit { modality, width, height, channels, unit, group } =>
                VisionCapability::Unit {
                modality: modality.clone(),
                width: *width,
                height: *height,
                channels: *channels,
                unit: unit.clone(),
                group: *group,
            },
        }
    }
}

impl Clone for MotorCapability {
    fn clone(&self) -> (r: Self)
        ensures
            r@ == self@,
    {
        match self {
            MotorCapability::CorticalAreas { modality, output_count, source_cortical_areas } =>
                MotorCapability::CorticalAreas {
                modality: modality.clone(),
                output_count: *output_count,
                source_cortical_areas: clone_texts(source_cortical_areas),
            },
            MotorCapability::Units { modality, output_count, source_units } =>
                MotorCapability::Units {
                modality: modality.clone(),
                output_count: *output_count,
                source_units: clone_units(source_units),
            },
        }
    }
}

impl Clone for VisualizationCapability {
    fn clone(&self) -> (r: Self)
        ensures
            r@ == self@,
    {
        VisualizationCapability {
            visualization_type: self.visualization_type.clone(),
            resolution: self.resolution,
            refresh_rate_hz_bits: self.refresh_rate_hz_bits,
            bridge_proxy: self.bridge_proxy,
        }
    }
}

fn clone_custom(v: &Vec<(String, serde_json::Value)>) -> (r: Vec<(String, serde_json::Value)>)
    ensures
        r@.map_values(|p: (String, serde_json::Value)| (p.0@, p.1)) == v@.map_values(
            |p: (String, serde_json::Value)| (p.0@, p.1),
        ),
{
    let mut r: Vec<(String, serde_json::Value)> = Vec::new();
    let mut i: usize = 0;
    while i < v.len()
        invariant
            i <= v.len(),
            r@.map_values(|p: (String, serde_json::Value)| (p.0@, p.1)) == v@.take(
                i as int,
            ).map_values(|p: (String, serde_json::Value)| (p.0@, p.1)),
        decreases v.len() - i,
    {
        let key = v[i].0.clone();
        let value = clone_json_value(&v[i].1);
        r.push((key, value));
        assert(v@.take(i + 1).map_values(|p: (String, serde_json::Value)| (p.0@, p.1)) =~= v@.take(
            i as int,
        ).map_values(|p: (String, serde_json::Value)| (p.0@, p.1)).push((v@[i as int].0@, v@[i as int].1)));
        assert(r@.map_values(|p: (String, serde_json::Value)| (p.0@, p.1)) =~= v@.take(
            i as int,
        ).map_values(|p: (String, serde_json::Value)| (p.0@, p.1)).push((v@[i as int].0@, v@[i as int].1)));
        i = i + 1;
    }
    assert(v@.take(v.len() as int) =~= v@);
    r
}

impl Clone for AgentConfig {
    fn clone(&self) -> (r: Self)
        ensures
            r@ == self@,
    {
        let descriptor = match &self.descriptor {
            Some(d) => Some(clone_agent_descriptor(d)),
            None => None,
        };
        let auth_token = match &self.auth_token {
            Some(t) => Some(clone_auth_token(t)),
            None => None,
        };
        let sensory_capability = match &self.sensory_capability {
            Some(c) => Some(c.clone()),
            None => None,
        };
        let vision_capability = match &self.vision_capability {
            Some(c) => Some(c.clone()),
            None => None,
        };
        let motor_capability = match &self.motor_capability {
            Some(c) => Some(c.clone()),
            None => None,
        };
        let visualization_capability = match &self.visualization_capability {
            Some(c) => Some(c.clone()),
            None => None,
        };
        let r = AgentConfig {
            agent_id: self.agent_id.clone(),
            agent_type: self.agent_type,
            registration_endpoint: self.registration_endpoint.clone(),
            sensory_endpoint: self.sensory_endpoint.clone(),
            motor_endpoint: self.motor_endpoint.clone(),
            visualization_endpoint: self.visualization_endpoint.clone(),
            control_endpoint: self.control_endpoint.clone(),
            heartbeat_interval_s_bits: self.heartbeat_interval_s_bits,
            connection_timeout_ms: self.connection_timeout_ms,
            registration_retries: self.registration_retries,
            retry_backoff_ms: self.retry_backoff_ms,
            sensory_send_hwm: self.sensory_send_hwm,
            sensory_linger_ms: self.sensory_linger_ms,
            sensory_immediate: self.sensory_immediate,
            descriptor,
            auth_token,
            sensory_capability,
            vision_capability,
            motor_capability,
            visualization_capability,
            custom_capabilities: clone_custom(&self.custom_capabilities),
        };
        assert(r@ =~= self@);
        r
    }
}

impl AgentConfig {
    /// A fresh configuration for `agent_id` of the given kind.
    pub fn new(agent_id: String, agent_type: AgentType) -> (r: Self)
        ensures
            r@ == initial_config(agent_id@, agent_type),
    {
        let ghost id = agent_id@;
        let r = AgentConfig {
            agent_id,
            agent_type,
            registration_endpoint: String::new(),
            sensory_endpoint: String::new(),
            motor_endpoint: String::new(),
            visualization_endpoint: String::new(),
            control_endpoint: String::new(),
            heartbeat_interval_s_bits: None,
            connection_timeout_ms: None,
            registration_retries: None,
            retry_backoff_ms: None,
            sensory_send_hwm: 1,
            sensory_linger_ms: 0,
            sensory_immediate: true,
            descriptor: None,
            auth_token: None,
            sensory_capability: None,
            vision_capability: None,
            motor_capability: None,
            visualization_capability: None,
            custom_capabilities: Vec::new(),
        };
        assert(r@.custom_capabilities =~= Seq::<(Seq<char>, serde_json::Value)>::empty());
        assert(r@ =~= initial_config(id, agent_type));
        r
    }

    pub fn with_registration_endpoint(self, endpoint: String) -> (r: Self)
        ensures
            r@ == (AgentConfigView { registration_endpoint: endpoint@, ..self@ }),
    {
        let mut c = self;
        c.registration_endpoint = endpoint;
        c
    }

    pub fn with_sensory_endpoint(self, endpoint: String) -> (r: Self)
        ensures
            r@ == (AgentConfigView { sensory_endpoint: endpoint@, ..self@ }),
    {
        let mut c = self;
        c.sensory_endpoint = endpoint;
        c
    }

    pub fn with_motor_endpoint(self, endpoint: String) -> (r: Self)
        ensures
            r@ == (AgentConfigView { motor_endpoint: endpoint@, ..self@ }),
    {
        let mut c = self;
        c.motor_endpoint = endpoint;
        c
    }

    pub fn with_visualization_endpoint(self, endpoint: String) -> (r: Self)
        ensures
            r@ == (AgentConfigView { visualization_endpoint: endpoint@, ..self@ }),
    {
        let mut c = self;
        c.visualization_endpoint = endpoint;
        c
    }

    pub fn with_control_endpoint(self, endpoint: String) -> (r: Self)
        ensures
            r@ == (AgentConfigView { control_endpoint: endpoint@, ..self@ }),
    {
        let mut c = self;
        c.control_endpoint = endpoint;
        c
    }

    /// Sets all five endpoints to `tcp://{host}:{port}` with their own ports.
    pub fn with_feagi_endpoints(
        self,
        host: String,
        registration_port: u16,
        sensory_port: u16,
        motor_port: u16,
        visualization_port: u16,
        control_port: u16,
    ) -> (r: Self)
        ensures
            r@ == (AgentConfigView {
                registration_endpoint: tcp_endpoint(host@, registration_port),
                sensory_endpoint: tcp_endpoint(host@, sensory_port),
                motor_endpoint: tcp_endpoint(host@, motor_port),
                visualization_endpoint: tcp_endpoint(host@, visualization_port),
                control_endpoint: tcp_endpoint(host@, control_port),
                ..self@
            }),
    {
        let mut c = self;
        c.registration_endpoint = tcp_endpoint_text(&host, registration_port);
        c.sensory_endpoint = tcp_endpoint_text(&host, sensory_port);
        c.motor_endpoint = tcp_endpoint_text(&host, motor_port);
        c.visualization_endpoint = tcp_endpoint_text(&host, visualization_port);
        c.control_endpoint = tcp_endpoint_text(&host, control_port);
        c
    }

    pub fn with_heartbeat_interval(self, heartbeat_interval_s_bits: u64) -> (r: Self)
        ensures
            r@ == (AgentConfigView {
                heartbeat_interval_s_bits: Some(heartbeat_interval_s_bits),
                ..self@
            }),
    {
        let mut c = self;
        c.heartbeat_interval_s_bits = Some(heartbeat_interval_s_bits);
        c
    }

    pub fn with_connection_timeout_ms(self, connection_timeout_ms: u64) -> (r: Self)
        ensures
            r@ == (AgentConfigView { connection_timeout_ms: Some(connection_timeout_ms), ..self@ }),
    {
        let mut c = self;
        c.connection_timeout_ms = Some(connection_timeout_ms);
        c
    }

    pub fn with_registration_retries(self, registration_retries: u32) -> (r: Self)
        ensures
            r@ == (AgentConfigView { registration_retries: Some(registration_retries), ..self@ }),
    {
        let mut c = self;
        c.registration_retries = Some(registration_retries);
        c
    }

    pub fn with_retry_backoff_ms(self, retry_backoff_ms: u64) -> (r: Self)
        ensures
            r@ == (AgentConfigView { retry_backoff_ms: Some(retry_backoff_ms), ..self@ }),
    {
        let mut c = self;
        c.retry_backoff_ms = Some(retry_backoff_ms);
        c
    }

    pub fn with_sensory_socket_config(self, send_hwm: i32, linger_ms: i32, immediate: bool) -> (r:
        Self)
        ensures
            r@ == (AgentConfigView {
                sensory_send_hwm: send_hwm,
                sensory_linger_ms: linger_ms,
                sensory_immediate: immediate,
                ..self@
            }),
    {
        let mut c = self;
        c.sensory_send_hwm = send_hwm;
        c.sensory_linger_ms = linger_ms;
        c.sensory_immediate = immediate;
        c
    }

    pub fn with_sensory_capability(self, rate_hz_bits: u64, shm_path: Option<String>) -> (r: Self)
        ensures
            r@ == (AgentConfigView {
                sensory_capability: Some(
                    SensoryCapabilityView { rate_hz_bits, shm_path: opt_text(shm_path) },
                ),
                ..self@
            }),
    {
        let mut c = self;
        c.sensory_capability = Some(SensoryCapability { rate_hz_bits, shm_path });
        c
    }

    pub fn with_vision_capability(
        self,
        modality: String,
        dimensions: (usize, usize),
        channels: usize,
        target_cortical_area: String,
    ) -> (r: Self)
        ensures
            r@ == (AgentConfigView {
                vision_capability: Some(
                    VisionCapabilityView::Target {
                        modality: modality@,
                        width: dimensions.0,
                        height: dimensions.1,
                        channels,
                        target_cortical_area: target_cortical_area@,
                    },
                ),
                ..self@
            }),
    {
        let mut c = self;
        c.vision_capability = Some(
            VisionCapability::Target {
                modality,
                width: dimensions.0,
                height: dimensions.1,
                channels,
                target_cortical_area,
            },
        );
        c
    }

    pub fn with_vision_unit(
        self,
        modality: String,
        dimensions: (usize, usize),
        channels: usize,
        unit: String,
        group: u8,
    ) -> (r: Self)
        ensures
            r@ == (AgentConfigView {
                vision_capability: Some(
                    VisionCapabilityView::Unit {
                        modality: modality@,
                        width: dimensions.0,
                        height: dimensions.1,
                        channels,
                        unit: unit@,
                        group,
                    },
                ),
                ..self@
            }),
    {
        let mut c = self;
        c.vision_capability = Some(
            VisionCapability::Unit {
                modality,
                width: dimensions.0,
                height: dimensions.1,
                channels,
                unit,
                group,
            },
        );
        c
    }

    pub fn with_motor_capability(
        self,
        modality: String,
        output_count: usize,
        source_cortical_areas: Vec<String>,
    ) -> (r: Self)
        ensures
            r@ == (AgentConfigView {
                motor_capability: Some(
                    MotorCapabilityView::CorticalAreas {
                        modality: modality@,
                        output_count,
                        source_cortical_areas: texts(source_cortical_areas@),
                    },
                ),
                ..self@
            }),
    {
        let mut c = self;
        c.motor_capability = Some(
            MotorCapability::CorticalAreas { modality, output_count, source_cortical_areas },
        );
        c
    }

    /// A motor capability fed by one semantic unit.
    pub fn with_motor_unit(self, modality: String, output_count: usize, unit: String, group: u8) -> (r:
        Self)
        ensures
            r@ == (AgentConfigView {
                motor_capability: Some(
                    MotorCapabilityView::Units {
                        modality: modality@,
                        output_count,
                        source_units: seq![(unit@, group)],
                    },
                ),
                ..self@
            }),
    {
        let mut units: Vec<MotorUnitCompat> = Vec::new();
        units.push(MotorUnitCompat { unit, group });
        let mut c = self;
        c.motor_capability = Some(
            MotorCapability::Units { modality, output_count, source_units: units },
        );
        proof {
            assert(units@.map_values(|u: MotorUnitCompat| u@) =~= seq![(unit@, group)]);
        }
        c
    }

    pub fn with_motor_units(
        self,
        modality: String,
        output_count: usize,
        source_units: Vec<MotorUnitCompat>,
    ) -> (r: Self)
        ensures
            r@ == (AgentConfigView {
                motor_capability: Some(
                    MotorCapabilityView::Units {
                        modality: modality@,
                        output_count,
                        source_units: source_units@.map_values(|u: MotorUnitCompat| u@),
                    },
                ),
                ..self@
            }),
    {
        let mut c = self;
        c.motor_capability = Some(MotorCapability::Units { modality, output_count, source_units });
        c
    }

    pub fn with_visualization_capability(
        self,
        visualization_type: String,
        resolution: Option<(usize, usize)>,
        refresh_rate_hz_bits: Option<u64>,
        bridge_proxy: bool,
    ) -> (r: Self)
        ensures
            r@ == (AgentConfigView {
                visualization_capability: Some(
                    VisualizationCapabilityView {
                        visualization_type: visualization_type@,
                        resolution,
                        refresh_rate_hz_bits,
                        bridge_proxy,
                    },
                ),
                ..self@
            }),
    {
        let mut c = self;
        c.visualization_capability = Some(
            VisualizationCapability {
                visualization_type,
                resolution,
                refresh_rate_hz_bits,
                bridge_proxy,
            },
        );
        c
    }

    /// Adds one custom capability after those already there.
    pub fn with_custom_capability(self, key: String, value: serde_json::Value) -> (r: Self)
        ensures
            r@ == (AgentConfigView {
                custom_capabilities: self@.custom_capabilities.push((key@, value)),
                ..self@
            }),
    {
        let mut c = self;
        let ghost k = key@;
        c.custom_capabilities.push((key, value));
        assert(c@.custom_capabilities =~= self@.custom_capabilities.push((k, value)));
        c
    }

    /// Checks that every field a client needs is set, in the order of
    /// `validation_error`, and names the first one that is not.
    pub fn validate(&self) -> (r: Result<(), String>)
        ensures
            r is Ok <==> validation_error(self@) is None,
            r matches Err(m) ==> Some(m@) == validation_error(self@),
    {
        if str_is_blank(self.agent_id.as_str()) {
            return Err(owned("agent_id must not be empty"));
        }
        if str_is_blank(self.registration_endpoint.as_str()) {
            return Err(owned("registration_endpoint must be set"));
        }
        let sensory = match self.agent_type {
            AgentType::Sensory | AgentType::Both => true,
            _ => false,
        };
        if sensory && str_is_blank(self.sensory_endpoint.as_str()) {
            return Err(owned("sensory_endpoint must be set for sensory/both"));
        }
        let motor = match self.agent_type {
            AgentType::Motor | AgentType::Both => true,
            _ => false,
        };
        if motor && str_is_blank(self.motor_endpoint.as_str()) {
            return Err(owned("motor_endpoint must be set for motor/both"));
        }
        if self.descriptor.is_none() {
            return Err(owned("agent descriptor must be set"));
        }
        if self.auth_token.is_none() {
            return Err(owned("auth token must be set"));
        }
        if self.connection_timeout_ms.unwrap_or(0) == 0 {
            return Err(owned("connection_timeout_ms must be set and > 0"));
        }
        if self.registration_retries.unwrap_or(0) == 0 {
            return Err(owned("registration_retries must be set and > 0"));
        }
        if sensory && self.sensory_capability.is_none() && self.vision_capability.is_none() {
            return Err(owned("a sensory or vision capability must be set for sensory/both"));
        }
        if motor && self.motor_capability.is_none() {
            return Err(owned("a motor capability must be set for motor/both"));
        }
        let visualization = match self.agent_type {
            AgentType::Visualization => true,
            _ => false,
        };
        if visualization && self.visualization_capability.is_none() {
            return Err(owned("a visualization capability must be set for visualization"));
        }
        Ok(())
    }
}

/// The text `tcp://{host}:{port}`.
pub fn tcp_endpoint_text(host: &String, port: u16) -> (r: String)
    ensures
        r@ == tcp_endpoint(host@, port),
{
    let mut r = owned("tcp://");
    r.append(host.as_str());
    r.append(":");
    push_decimal(&mut r, port as u64);
    r
}

/// A configuration fresh from `AgentConfig::new` does not validate: nothing
/// that a connection needs is filled in for the caller.
pub proof fn lemma_fresh_config_does_not_validate(agent_id: Seq<char>, agent_type: AgentType)
    ensures
        validation_error(initial_config(agent_id, agent_type)) is Some,
{
}

/// A configuration that validates names its registration endpoint, its
/// descriptor and token, and a positive timeout and attempt count; a sensory
/// agent also its sensory endpoint and a sensory or vision capability, a
/// motor agent its motor endpoint and a motor capability, and a
/// visualization agent its visualization capability.
pub proof fn lemma_valid_config_is_explicit(c: AgentConfigView)
    requires
        validation_error(c) is None,
    ensures
        !is_blank(c.agent_id),
        !is_blank(c.registration_endpoint),
        c.descriptor is Some,
        c.auth_token is Some,
        c.connection_timeout_ms matches Some(t) && t > 0,
        c.registration_retries matches Some(n) && n > 0,
        c.agent_type == AgentType::Sensory || c.agent_type == AgentType::Both ==> !is_blank(
            c.sensory_endpoint,
        ),
        c.agent_type == AgentType::Motor || c.agent_type == AgentType::Both ==> !is_blank(
            c.motor_endpoint,
        ),
        c.agent_type == AgentType::Sensory || c.agent_type == AgentType::Both ==> (
        c.sensory_capability is Some || c.vision_capability is Some),
        c.agent_type == AgentType::Motor || c.agent_type == AgentType::Both
            ==> c.motor_capability is Some,
        c.agent_type == AgentType::Visualization ==> c.visualization_capability is Some,
{
}

/// Conversely, a configuration validates as soon as it names its agent and
/// registration endpoint, its descriptor and token, any positive timeout and
/// attempt count, and the endpoints and capabilities its kind of agent
/// needs.
pub proof fn lemma_explicit_config_is_valid(c: AgentConfigView)
    requires
        !is_blank(c.agent_id),
        !is_blank(c.registration_endpoint),
        c.descriptor is Some,
        c.auth_token is Some,
        c.connection_timeout_ms is Some,
        c.connection_timeout_ms->0 > 0,
        c.registration_retries is Some,
        c.registration_retries->0 > 0,
        c.agent_type == AgentType::Sensory || c.agent_type == AgentType::Both ==> !is_blank(
            c.sensory_endpoint,
        ),
        c.agent_type == AgentType::Motor || c.agent_type == AgentType::Both ==> !is_blank(
            c.motor_endpoint,
        ),
        c.agent_type == AgentType::Sensory || c.agent_type == AgentType::Both ==> (
        c.sensory_capability is Some || c.vision_capability is Some),
        c.agent_type == AgentType::Motor || c.agent_type == AgentType::Both
            ==> c.motor_capability is Some,
        c.agent_type == AgentType::Visualization ==> c.visualization_capability is Some,
    ensures
        validation_error(c) is None,
{
}

} // verus!
