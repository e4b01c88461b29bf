//! The client: creation from a validated configuration, the decisions of
//! connecting and registering, the gates that endpoint states put on sending
//! and receiving.
//!
//! The sockets themselves are the caller's: it polls, sends and receives, and
//! hands the outcomes to these functions, which decide what follows.

use vstd::prelude::*;
use crate::abi::AgentType;
use crate::config::{validation_error, AgentConfig};
use crate::outside::{clone_agent_descriptor, clone_auth_token, endpoint_parts, websocket_endpoint,
    websocket_url_error, zmq_endpoint, zmq_url_error};
use crate::registration::{build_registration_json, is_registration_body, AgentCapability,
    JsonValue, RegisteredEndpoint};
use crate::text::{has_prefix, owned, str_starts_with};
use feagi_agent::{AgentDescriptor, AuthToken};
use feagi_io::traits_and_enums::shared::TransportProtocolEndpoint;

verus! {

/// What a client keeps besides its sockets: its configuration and, after a
/// successful connect, the registration body.
pub struct AgentClient {
    pub config: AgentConfig,
    pub registration_body_json: Option<JsonValue>,
}

/// The state an endpoint reports when polled; an error carries its
/// displayed text.
pub enum EndpointState {
    Inactive,
    Pending,
    ActiveWaiting,
    ActiveHasData,
    Errored(String),
}

/// What registering needs: who the agent is, its token, how long to keep
/// trying, and which channels to ask for.
pub struct RegistrationPlan {
    pub descriptor: AgentDescriptor,
    pub auth_token: AuthToken,
    pub window_ms: u64,
    pub capabilities: Vec<AgentCapability>,
}

/// The channels each kind of agent asks for.
pub open spec fn requested_capabilities_spec(agent_type: AgentType) -> Seq<AgentCapability> {
    match agent_type {
        AgentType::Sensory => seq![AgentCapability::SendSensorData],
        AgentType::Motor => seq![AgentCapability::ReceiveMotorData],
        AgentType::Both => seq![AgentCapability::SendSensorData, AgentCapability::ReceiveMotorData],
        AgentType::Visualization => seq![AgentCapability::ReceiveNeuronVisualizations],
        AgentType::Infrastructure => seq![AgentCapability::ReceiveSystemMessages],
    }
}

/// Whether an agent of this kind keeps the channel open after registering.
pub open spec fn uses_channel(agent_type: AgentType, capability: AgentCapability) -> bool {
    match capability {
        AgentCapability::SendSensorData => agent_type == AgentType::Sensory || agent_type
            == AgentType::Both,
        AgentCapability::ReceiveMotorData => agent_type == AgentType::Motor || agent_type
            == AgentType::Both,
        _ => false,
    }
}

/// The message for a channel that registration did not grant.
pub open spec fn missing_channel_message(capability: AgentCapability) -> Seq<char> {
    match capability {
        AgentCapability::SendSensorData => "missing sensory endpoint from registration"@,
        _ => "missing motor endpoint from registration"@,
    }
}

/// How long registration may take: the timeout times the attempts, at most
/// `u64::MAX` and at least one millisecond.
pub open spec fn registration_window(timeout_ms: u64, retries: u32) -> u64 {
    let product = timeout_ms as int * retries as int;
    if product > u64::MAX as int {
        u64::MAX
    } else if product < 1 {
        1
    } else {
        product as u64
    }
}

/// What parsing an endpoint URL gives: by its scheme, a ZMQ or WebSocket
/// endpoint, or the reason it is refused.
pub open spec fn endpoint_error(endpoint: Seq<char>) -> Option<Seq<char>> {
    if has_prefix(endpoint, "tcp://"@) {
        zmq_url_error(endpoint)
    } else if has_prefix(endpoint, "ws://"@) || has_prefix(endpoint, "wss://"@) {
        websocket_url_error(endpoint)
    } else {
        Some("Unsupported endpoint scheme; expected tcp://, ws://, or wss://"@)
    }
}

/// Whether polling left an endpoint ready to carry a request.
pub open spec fn is_active(state: EndpointState) -> bool {
    state is ActiveWaiting || state is ActiveHasData
}

/// The product of the timeout and the attempts, saturated at `u64::MAX`,
/// and at least one millisecond.
pub fn registration_window_ms(timeout_ms: u64, retries: u32) -> (w: u64)
    ensures
        w == registration_window(timeout_ms, retries),
{
    let saturated: u64 = match timeout_ms.checked_mul(retries as u64) {
        Some(p) => p,
        None => u64::MAX,
    };
    if saturated < 1 {
        1
    } else {
        saturated
    }
}

impl AgentClient {
    /// A client for a configuration that passes validation.
    pub fn new(config: AgentConfig) -> (r: Result<Self, String>)
        ensures
            match validation_error(config@) {
                None => r matches Ok(c) && c.config@ == config@ && c.registration_body_json is None,
                Some(m) => r matches Err(e) && e@ == m,
            },
    {
        match config.validate() {
            Ok(()) => Ok(AgentClient { config, registration_body_json: None }),
            Err(e) => Err(e),
        }
    }

    /// Reads an endpoint URL: `tcp://` gives a ZMQ endpoint, `ws://` and
    /// `wss://` a WebSocket endpoint, each holding the URL as given; any
    /// other scheme is refused.
    pub fn parse_endpoint(endpoint: &str) -> (r: Result<TransportProtocolEndpoint, String>)
        ensures
            r is Ok <==> endpoint_error(endpoint@) is None,
            r matches Err(e) ==> Some(e@) == endpoint_error(endpoint@),
            r matches Ok(p) ==> endpoint_parts(p) == (has_prefix(endpoint@, "tcp://"@), endpoint@),
    {
        if str_starts_with(endpoint, "tcp://") {
            zmq_endpoint(endpoint)
        } else if str_starts_with(endpoint, "ws://") || str_starts_with(endpoint, "wss://") {
            websocket_endpoint(endpoint)
        } else {
            Err(owned("Unsupported endpoint scheme; expected tcp://, ws://, or wss://"))
        }
    }

    /// The channels to ask for when registering an agent of this kind.
    pub fn requested_capabilities(agent_type: AgentType) -> (r: Vec<AgentCapability>)
        ensures
            r@ == requested_capabilities_spec(agent_type),
    {
        let mut r: Vec<AgentCapability> = Vec::new();
        match agent_type {
            AgentType::Sensory => {
                r.push(AgentCapability::SendSensorData);
            },
            AgentType::Motor => {
                r.push(AgentCapability::ReceiveMotorData);
            },
            AgentType::Both => {
                r.push(AgentCapability::SendSensorData);
                r.push(AgentCapability::ReceiveMotorData);
            },
            AgentType::Visualization => {
                r.push(AgentCapability::ReceiveNeuronVisualizations);
            },
            AgentType::Infrastructure => {
                r.push(AgentCapability::ReceiveSystemMessages);
            },
        }
        assert(r@ =~= requested_capabilities_spec(agent_type));
        r
    }

    /// Gathers what registering needs from the configuration, refusing it
    /// when the descriptor, token, timeout or attempt count is missing.
    pub fn registration_plan(&self) -> (r: Result<RegistrationPlan, String>)
        ensures
            match r {
                Ok(p) => {
                    &&& self.config.descriptor == Some(p.descriptor)
                    &&& self.config.auth_token == Some(p.auth_token)
                    &&& self.config.connection_timeout_ms is Some
                    &&& self.config.registration_retries is Some
                    &&& p.window_ms == registration_window(
                        self.config.connection_timeout_ms->0,
                        self.config.registration_retries->0,
                    )
                    &&& p.capabilities@ == requested_capabilities_spec(self.config.agent_type)
                },
                Err(e) => if self.config.descriptor is None {
                    e@ == "agent descriptor must be set"@
                } else if self.config.auth_token is None {
                    e@ == "auth token must be set"@
                } else if self.config.connection_timeout_ms is None {
                    e@ == "connection_timeout_ms must be set"@
                } else {
                    self.config.registration_retries is None && e@
                        == "registration_retries must be set"@
                },
            },
    {
        let descriptor = match &self.config.descriptor {
            Some(d) => clone_agent_descriptor(d),
            None => {
                return Err(owned("agent descriptor must be set"));
            },
        };
        let auth_token = match &self.config.auth_token {
            Some(t) => clone_auth_token(t),
            None => {
                return Err(owned("auth token must be set"));
            },
        };
        let timeout_ms = match self.config.connection_timeout_ms {
            Some(t) => t,
            None => {
                return Err(owned("connection_timeout_ms must be set"));
            },
        };
        let retries = match self.config.registration_retries {
            Some(n) => n,
            None => {
                return Err(owned("registration_retries must be set"));
            },
        };
        Ok(
            RegistrationPlan {
                descriptor,
                auth_token,
                window_ms: registration_window_ms(timeout_ms, retries),
                capabilities: Self::requested_capabilities(self.config.agent_type),
            },
        )
    }

    /// The endpoints registration granted, or the timeout when it granted
    /// none before the window closed.
    pub fn registration_result(granted: Option<Vec<RegisteredEndpoint>>) -> (r: Result<
        Vec<RegisteredEndpoint>,
        String,
    >)
        ensures
            match granted {
                Some(g) => r matches Ok(e) && e@ == g@,
                None => r matches Err(m) && m@ == "registration timed out"@,
            },
    {
        match granted {
            Some(g) => Ok(g),
            None => Err(owned("registration timed out")),
        }
    }

    /// Whether the agent opens the channel: only the channels its kind
    /// uses, and those only when registration granted them.
    pub fn channel_required(&self, endpoints: &Vec<RegisteredEndpoint>, capability: AgentCapability) -> (r:
        Result<bool, String>)
        requires
            capability == AgentCapability::SendSensorData || capability
                == AgentCapability::ReceiveMotorData,
        ensures
            if !uses_channel(self.config.agent_type, capability) {
                r == Ok::<bool, String>(false)
            } else if exists|i: int|
                0 <= i < endpoints@.len() && (#[trigger] endpoints@[i]).capability == capability {
                r == Ok::<bool, String>(true)
            } else {
                r matches Err(m) && m@ == missing_channel_message(capability)
            },
    {
        let uses = match capability {
            AgentCapability::SendSensorData => match self.config.agent_type {
                AgentType::Sensory | AgentType::Both => true,
                _ => false,
            },
            _ => match self.config.agent_type {
                AgentType::Motor | AgentType::Both => true,
                _ => false,
            },
        };
        if !uses {
            return Ok(false);
        }
        let mut i: usize = 0;
        while i < endpoints.len()
            invariant
                i <= endpoints@.len(),
                uses_channel(self.config.agent_type, capability),
                forall|j: int| 0 <= j < i ==> (#[trigger] endpoints@[j]).capability != capability,
            decreases endpoints@.len() - i,
        {
            if endpoints[i].capability == capability {
                assert(endpoints@[i as int].capability == capability);
                return Ok(true);
            }
            i = i + 1;
        }
        match capability {
            AgentCapability::SendSensorData => Err(
                owned("missing sensory endpoint from registration"),
            ),
            _ => Err(owned("missing motor endpoint from registration")),
        }
    }

    /// Records the registration body of the granted endpoints; the
    /// configuration stays as it was.
    pub fn complete_connect(&mut self, endpoints: &Vec<RegisteredEndpoint>)
        ensures
            final(self).config@ == old(self).config@,
            final(self).registration_body_json matches Some(b) && is_registration_body(
                b,
                endpoints@,
            ),
    {
        self.registration_body_json = Some(build_registration_json(endpoints));
    }

    /// The registration body, once a connect has succeeded.
    pub fn registration_body_json(&self) -> (r: Option<&JsonValue>)
        ensures
            match r {
                Some(b) => self.registration_body_json == Some(*b),
                None => self.registration_body_json is None,
            },
    {
        match &self.registration_body_json {
            Some(b) => Some(b),
            None => None,
        }
    }
}

/// Where a registration round stands: whether the request has gone out.
pub struct RegistrationRound {
    pub sent_registration: bool,
}

impl RegistrationRound {
    pub fn new() -> (r: Self)
        ensures
            !r.sent_registration,
    {
        RegistrationRound { sent_registration: false }
    }

    /// After a poll of the registration endpoint: send the registration
    /// request once, as soon as the endpoint is active.
    pub fn on_poll(&mut self, state: &EndpointState) -> (send: bool)
        ensures
            send == (!old(self).sent_registration && is_active(*state)),
            final(self).sent_registration == (old(self).sent_registration || send),
    {
        let active = match state {
            EndpointState::ActiveWaiting | EndpointState::ActiveHasData => true,
            _ => false,
        };
        let send = !self.sent_registration && active;
        if send {
            self.sent_registration = true;
        }
        send
    }
}

/// The verdict on a sensory send after polling: only an endpoint that is
/// active and waiting takes data.
pub open spec fn sensory_send_verdict(state: EndpointState) -> Result<(), Seq<char>> {
    match state {
        EndpointState::ActiveWaiting => Ok(()),
        EndpointState::ActiveHasData => Err("sensory endpoint is in ActiveHasData state"@),
        EndpointState::Pending => Err("sensory endpoint is pending"@),
        EndpointState::Inactive => Err("sensory endpoint is inactive"@),
        EndpointState::Errored(e) => Err("sensory endpoint errored: "@ + e@),
    }
}

/// The verdict on a non-blocking sensory send after polling: it goes out
/// when the endpoint is active and waiting, is skipped in the other live
/// states, and fails on an errored endpoint.
pub open spec fn sensory_try_send_verdict(state: EndpointState) -> Result<bool, Seq<char>> {
    match state {
        EndpointState::ActiveWaiting => Ok(true),
        EndpointState::Errored(e) => Err("sensory endpoint errored: "@ + e@),
        _ => Ok(false),
    }
}

/// The verdict on a motor receive after polling: data is taken when the
/// endpoint has some, nothing in the other live states, and an errored
/// endpoint fails.
pub open spec fn motor_receive_verdict(state: EndpointState) -> Result<bool, Seq<char>> {
    match state {
        EndpointState::ActiveHasData => Ok(true),
        EndpointState::Errored(e) => Err("motor endpoint errored: "@ + e@),
        _ => Ok(false),
    }
}

/// Whether a sensory send may go ahead after polling: only an endpoint that
/// is active and waiting takes data.
pub fn sensory_send_gate(state: &EndpointState) -> (r: Result<(), String>)
    ensures
        match sensory_send_verdict(*state) {
            Ok(_) => r is Ok,
            Err(m) => r matches Err(x) && x@ == m,
        },
{
    match state {
        EndpointState::ActiveWaiting => Ok(()),
        EndpointState::ActiveHasData => Err(owned("sensory endpoint is in ActiveHasData state")),
        EndpointState::Pending => Err(owned("sensory endpoint is pending")),
        EndpointState::Inactive => Err(owned("sensory endpoint is inactive")),
        EndpointState::Errored(e) => {
            let mut m = owned("sensory endpoint errored: ");
            m.append(e.as_str());
            Err(m)
        },
    }
}

/// Whether a non-blocking sensory send goes out after polling: it does when
/// the endpoint is active and waiting, is skipped in the other live states,
/// and fails on an errored endpoint.
pub fn sensory_try_send_gate(state: &EndpointState) -> (r: Result<bool, String>)
    ensures
        match sensory_try_send_verdict(*state) {
            Ok(b) => r == Ok::<bool, String>(b),
            Err(m) => r matches Err(x) && x@ == m,
        },
{
    match state {
        EndpointState::ActiveWaiting => Ok(true),
        EndpointState::Errored(e) => {
            let mut m = owned("sensory endpoint errored: ");
            m.append(e.as_str());
            Err(m)
        },
        _ => Ok(false),
    }
}

/// Whether motor data is taken after polling: when the endpoint has data;
/// nothing is taken in the other live states, and an errored endpoint fails.
pub fn motor_receive_gate(state: &EndpointState) -> (r: Result<bool, String>)
    ensures
        match motor_receive_verdict(*state) {
            Ok(b) => r == Ok::<bool, String>(b),
            Err(m) => r matches Err(x) && x@ == m,
        },
{
    match state {
        EndpointState::ActiveHasData => Ok(true),
        EndpointState::Errored(e) => {
            let mut m = owned("motor endpoint errored: ");
            m.append(e.as_str());
            Err(m)
        },
        _ => Ok(false),
    }
}

/// The message when a client has no sensory channel.
pub fn sensory_channel_missing() -> (m: String)
    ensures
        m@ == "sensory channel is not available"@,
{
    owned("sensory channel is not available")
}

/// The message when a client has no motor channel.
pub fn motor_channel_missing() -> (m: String)
    ensures
        m@ == "motor channel is not available"@,
{
    owned("motor channel is not available")
}

/// A client made by `AgentClient::new` has all that registering needs, so
/// `registration_plan` does not fail on it, and its window is the timeout
/// times the attempts, saturated at `u64::MAX`.
pub proof fn lemma_new_client_has_registration_plan(client: AgentClient)
    requires
        validation_error(client.config@) is None,
    ensures
        client.config.descriptor is Some,
        client.config.auth_token is Some,
        client.config.connection_timeout_ms matches Some(t) && client.config.registration_retries
            matches Some(n) && registration_window(t, n) == if t as int * n as int
            > u64::MAX as int {
            u64::MAX as int
        } else {
            t as int * n as int
        },
{
    let t = client.config.connection_timeout_ms->0;
    let n = client.config.registration_retries->0;
    assert(t as int * n as int >= 1) by (nonlinear_arith)
        requires
            t > 0,
            n > 0,
    ;
}

/// The channels an agent asks for at registration: sensor data exactly for
/// sensory and combined agents, motor data exactly for motor and combined
/// agents, neuron visualizations exactly for visualization agents, and
/// system messages exactly for infrastructure agents. So every channel an
/// agent keeps open after registering is one it asked for.
pub proof fn lemma_requested_capabilities_by_type(agent_type: AgentType, c: AgentCapability)
    ensures
        requested_capabilities_spec(agent_type).contains(c) == (match c {
            AgentCapability::SendSensorData => agent_type == AgentType::Sensory || agent_type
                == AgentType::Both,
            AgentCapability::ReceiveMotorData => agent_type == AgentType::Motor || agent_type
                == AgentType::Both,
            AgentCapability::ReceiveNeuronVisualizations => agent_type == AgentType::Visualization,
            AgentCapability::ReceiveSystemMessages => agent_type == AgentType::Infrastructure,
        }),
        uses_channel(agent_type, c) ==> requested_capabilities_spec(agent_type).contains(c),
{
    let r = requested_capabilities_spec(agent_type);
    if r.contains(c) {
        let i = choose|i: int| 0 <= i < r.len() && r[i] == c;
        assert(r[i] == c);
    }
    assert(r.contains(r[0]));
    if agent_type == AgentType::Both {
        assert(r.contains(r[1]));
    }
}

} // verus!
