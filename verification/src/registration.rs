//! The registration body: the JSON document that describes, after a
//! successful registration, which transports carry which channels on which
//! ports; how it is built from the registered endpoints, read back, and how
//! a transport is chosen from it.

use vstd::prelude::*;
use crate::text::{after_last_colon, key_before, lemma_key_before_irreflexive,
    lemma_key_before_total, lemma_key_before_transitive, owned, parse_u16, str_after_last_colon,
    str_before, str_eq, str_parse_u16};

verus! {

/// JSON values, as far as registration bodies are made of them. An object
/// keeps its entries in order; a key given twice means its later value, as
/// inserting into a JSON map does.
pub enum JsonValue {
    Str(String),
    UInt(u64),
    Object(Vec<(String, JsonValue)>),
}

/// A channel that an agent may be granted.
#[derive(Clone, Copy, Debug, PartialEq, Eq, Structural)]
pub enum AgentCapability {
    SendSensorData,
    ReceiveMotorData,
    ReceiveNeuronVisualizations,
    ReceiveSystemMessages,
}

/// The transport protocol of an endpoint.
#[derive(Clone, Copy, Debug, PartialEq, Eq, Structural)]
pub enum TransportKind {
    Zmq,
    WebSocket,
}

/// One endpoint that registration granted: the channel, its transport and
/// its URL.
pub struct RegisteredEndpoint {
    pub capability: AgentCapability,
    pub transport: TransportKind,
    pub url: String,
}

/// Ports by channel name for one transport.
pub struct TransportConfig {
    pub ports: Vec<(String, u16)>,
}

/// A registration body read back: the recommended transport, if named, and
/// the ports of each transport.
pub struct RegistrationResponse {
    pub recommended_transport: Option<String>,
    pub transports: Vec<(String, TransportConfig)>,
}

pub struct RegistrationResponseView {
    pub recommended_transport: Option<Seq<char>>,
    pub transports: Map<Seq<char>, Map<Seq<char>, u16>>,
}

/// A transport chosen from a registration body, with its ports.
pub struct ChosenTransport {
    pub name: String,
    pub ports: Vec<(String, u16)>,
}

/// The map that entries make when inserted in order: a later entry with the
/// same key replaces an earlier one.
pub open spec fn entries_map<V>(e: Seq<(Seq<char>, V)>) -> Map<Seq<char>, V>
    decreases e.len(),
{
    if e.len() == 0 {
        Map::empty()
    } else {
        entries_map(e.drop_last()).insert(e.last().0, e.last().1)
    }
}

pub open spec fn keyed<V>(e: Seq<(String, V)>) -> Seq<(Seq<char>, V)> {
    e.map_values(|p: (String, V)| (p.0@, p.1))
}

impl View for TransportConfig {
    type V = Map<Seq<char>, u16>;

    open spec fn view(&self) -> Map<Seq<char>, u16> {
        entries_map(keyed(self.ports@))
    }
}

pub open spec fn transports_view(t: Seq<(String, TransportConfig)>) -> Map<
    Seq<char>,
    Map<Seq<char>, u16>,
> {
    entries_map(t.map_values(|p: (String, TransportConfig)| (p.0@, p.1@)))
}

impl View for RegistrationResponse {
    type V = RegistrationResponseView;

    open spec fn view(&self) -> RegistrationResponseView {
        RegistrationResponseView {
            recommended_transport: match self.recommended_transport {
                Some(s) => Some(s@),
                None => None,
            },
            transports: transports_view(self.transports@),
        }
    }
}

impl View for ChosenTransport {
    type V = (Seq<char>, Map<Seq<char>, u16>);

    open spec fn view(&self) -> (Seq<char>, Map<Seq<char>, u16>) {
        (self.name@, entries_map(keyed(self.ports@)))
    }
}

/// An absent key leaves the map without it.
pub proof fn lemma_entries_map_absent<V>(e: Seq<(Seq<char>, V)>, k: Seq<char>)
    requires
        forall|j: int| 0 <= j < e.len() ==> (#[trigger] e[j]).0 != k,
    ensures
        !entries_map(e).contains_key(k),
    decreases e.len(),
{
    if e.len() > 0 {
        lemma_entries_map_absent(e.drop_last(), k);
    }
}

/// The last entry with a key gives that key's value.
pub proof fn lemma_entries_map_last<V>(e: Seq<(Seq<char>, V)>, k: Seq<char>, i: int)
    requires
        0 <= i < e.len(),
        e[i].0 == k,
        forall|j: int| i < j < e.len() ==> (#[trigger] e[j]).0 != k,
    ensures
        entries_map(e).contains_key(k),
        entries_map(e)[k] == e[i].1,
    decreases e.len(),
{
    if i < e.len() - 1 {
        lemma_entries_map_last(e.drop_last(), k, i);
    }
}

/// The index of the last entry with `key`.
pub fn find_last<V>(entries: &Vec<(String, V)>, key: &str) -> (r: Option<usize>)
    ensures
        match r {
            Some(i) => i < entries@.len() && entries@[i as int].0@ == key@ && entries_map(
                keyed(entries@),
            ).contains_key(key@) && entries_map(keyed(entries@))[key@] == entries@[i as int].1,
            None => !entries_map(keyed(entries@)).contains_key(key@),
        },
{
    let ghost e = keyed(entries@);
    let mut k: usize = entries.len();
    while k > 0
        invariant
            k <= entries@.len(),
            e == keyed(entries@),
            forall|j: int| k <= j < e.len() ==> (#[trigger] e[j]).0 != key@,
        decreases k,
    {
        if str_eq(entries[k - 1].0.as_str(), key) {
            proof {
                lemma_entries_map_last(e, key@, k - 1);
            }
            return Some(k - 1);
        }
        k = k - 1;
    }
    proof {
        lemma_entries_map_absent(e, key@);
    }
    None
}

/// The value that a JSON object gives for `key`; nothing for other values.
pub open spec fn json_lookup(v: JsonValue, key: Seq<char>) -> Option<JsonValue> {
    match v {
        JsonValue::Object(e) => {
            let m = entries_map(keyed(e@));
            if m.contains_key(key) {
                Some(m[key])
            } else {
                None
            }
        },
        _ => None,
    }
}

/// `value.get(key)` on a JSON value.
pub fn json_get<'a>(v: &'a JsonValue, key: &str) -> (r: Option<&'a JsonValue>)
    ensures
        match r {
            Some(x) => json_lookup(*v, key@) == Some(*x),
            None => json_lookup(*v, key@) is None,
        },
{
    match v {
        JsonValue::Object(e) => match find_last(e, key) {
            Some(i) => Some(&e[i].1),
            None => None,
        },
        _ => None,
    }
}

/// The name under which a channel's port is listed.
pub open spec fn capability_key(c: AgentCapability) -> Seq<char> {
    match c {
        AgentCapability::SendSensorData => "sensory"@,
        AgentCapability::ReceiveMotorData => "motor"@,
        AgentCapability::ReceiveNeuronVisualizations => "visualization"@,
        AgentCapability::ReceiveSystemMessages => "control"@,
    }
}

pub fn capability_key_text(c: AgentCapability) -> (r: &'static str)
    ensures
        r@ == capability_key(c),
{
    match c {
        AgentCapability::SendSensorData => "sensory",
        AgentCapability::ReceiveMotorData => "motor",
        AgentCapability::ReceiveNeuronVisualizations => "visualization",
        AgentCapability::ReceiveSystemMessages => "control",
    }
}

/// The port of an endpoint URL: the text after its last `:`, read as a `u16`.
pub open spec fn endpoint_port(url: Seq<char>) -> Option<u16> {
    parse_u16(after_last_colon(url))
}

/// The port of a registered endpoint, if its URL ends in one.
pub fn parse_endpoint_port(endpoint: &RegisteredEndpoint) -> (r: Option<u16>)
    ensures
        r == endpoint_port(endpoint.url@),
{
    let port_str = str_after_last_colon(endpoint.url.as_str());
    str_parse_u16(port_str.as_str())
}

/// The channel ports, in endpoint order, that the endpoints of one
/// transport contribute.
pub open spec fn endpoint_port_entries(eps: Seq<RegisteredEndpoint>, kind: TransportKind) -> Seq<
    (Seq<char>, u16),
>
    decreases eps.len(),
{
    if eps.len() == 0 {
        Seq::empty()
    } else {
        let prev = endpoint_port_entries(eps.drop_last(), kind);
        let ep = eps.last();
        if ep.transport == kind && endpoint_port(ep.url@) is Some {
            prev.push((capability_key(ep.capability), endpoint_port(ep.url@)->0))
        } else {
            prev
        }
    }
}

/// An entry of a ports object: an integer that fits a port.
pub open spec fn is_port_value(v: JsonValue) -> bool {
    match v {
        JsonValue::UInt(n) => n <= u16::MAX as u64,
        _ => false,
    }
}

/// The port an entry of a ports object holds.
pub open spec fn json_port(v: JsonValue) -> u16 {
    match v {
        JsonValue::UInt(n) => if n <= u16::MAX as u64 {
            n as u16
        } else {
            0
        },
        _ => 0,
    }
}

pub open spec fn port_values(e: Seq<(String, JsonValue)>) -> Seq<(Seq<char>, u16)> {
    e.map_values(|p: (String, JsonValue)| (p.0@, json_port(p.1)))
}

/// `v` is a JSON object of the given ports, each an integer.
pub open spec fn is_ports_object(v: JsonValue, ports: Seq<(Seq<char>, u16)>) -> bool {
    match v {
        JsonValue::Object(e) => port_values(e@) == ports && forall|i: int|
            0 <= i < e@.len() ==> is_port_value((#[trigger] e@[i]).1),
        _ => false,
    }
}

/// `v` is `{"ports": {...}}` with the given ports.
pub open spec fn is_transport_object(v: JsonValue, ports: Seq<(Seq<char>, u16)>) -> bool {
    match v {
        JsonValue::Object(e) => e@.len() == 1 && e@[0].0@ == "ports"@ && is_ports_object(
            e@[0].1,
            ports,
        ),
        _ => false,
    }
}

/// `v` lists the `zmq` transport when it has ports, then the `websocket`
/// transport when it has ports.
pub open spec fn is_transports_object(
    v: JsonValue,
    zmq: Seq<(Seq<char>, u16)>,
    ws: Seq<(Seq<char>, u16)>,
) -> bool {
    match v {
        JsonValue::Object(e) => {
            let nz: int = if zmq.len() > 0 {
                1
            } else {
                0
            };
            let nw: int = if ws.len() > 0 {
                1
            } else {
                0
            };
            &&& e@.len() == nz + nw
            &&& zmq.len() > 0 ==> e@[0].0@ == "zmq"@ && is_transport_object(e@[0].1, zmq)
            &&& ws.len() > 0 ==> e@[nz].0@ == "websocket"@ && is_transport_object(e@[nz].1, ws)
        },
        _ => false,
    }
}

/// The transport a body recommends: WebSocket when it has WebSocket ports,
/// else ZMQ.
pub open spec fn recommended_for(eps: Seq<RegisteredEndpoint>) -> Seq<char> {
    if endpoint_port_entries(eps, TransportKind::WebSocket).len() > 0 {
        "websocket"@
    } else {
        "zmq"@
    }
}

/// `r` is the registration body of the endpoints:
/// `{"recommended_transport": .., "transports": {"zmq": {"ports": {..}}, "websocket": {"ports": {..}}}}`.
pub open spec fn is_registration_body(r: JsonValue, eps: Seq<RegisteredEndpoint>) -> bool {
    match r {
        JsonValue::Object(top) => {
            &&& top@.len() == 2
            &&& top@[0].0@ == "recommended_transport"@
            &&& top@[0].1 matches JsonValue::Str(s) && s@ == recommended_for(eps)
            &&& top@[1].0@ == "transports"@
            &&& is_transports_object(
                top@[1].1,
                endpoint_port_entries(eps, TransportKind::Zmq),
                endpoint_port_entries(eps, TransportKind::WebSocket),
            )
        },
        _ => false,
    }
}

fn push_port(
    ports: &mut Vec<(String, JsonValue)>,
    key: AgentCapability,
    port: u16,
)
    ensures
        final(ports)@.len() == old(ports)@.len() + 1,
        port_values(final(ports)@) == port_values(old(ports)@).push((capability_key(key), port)),
        forall|i: int| 0 <= i < old(ports)@.len() ==> final(ports)@[i] == old(ports)@[i],
        final(ports)@.last().1 == JsonValue::UInt(port as u64),
{
    ports.push((owned(capability_key_text(key)), JsonValue::UInt(port as u64)));
    assert(port_values(final(ports)@) =~= port_values(old(ports)@).push((capability_key(key), port)));
}

fn transport_object(ports: Vec<(String, JsonValue)>) -> (r: JsonValue)
    ensures
        r matches JsonValue::Object(e) && e@.len() == 1 && e@[0].0@ == "ports"@ && e@[0].1
            == JsonValue::Object(ports),
{
    let mut e: Vec<(String, JsonValue)> = Vec::new();
    e.push((owned("ports"), JsonValue::Object(ports)));
    JsonValue::Object(e)
}

/// Builds the registration body from the granted endpoints: each endpoint
/// whose URL ends in a port lists that port under its channel name, in the
/// object of its transport; a transport without ports is left out; WebSocket
/// is recommended when it has ports, else ZMQ.
pub fn build_registration_json(endpoint_map: &Vec<RegisteredEndpoint>) -> (r: JsonValue)
    ensures
        is_registration_body(r, endpoint_map@),
{
    let mut zmq_ports: Vec<(String, JsonValue)> = Vec::new();
    let mut ws_ports: Vec<(String, JsonValue)> = Vec::new();
    let mut i: usize = 0;
    while i < endpoint_map.len()
        invariant
            i <= endpoint_map@.len(),
            port_values(zmq_ports@) == endpoint_port_entries(
                endpoint_map@.take(i as int),
                TransportKind::Zmq,
            ),
            port_values(ws_ports@) == endpoint_port_entries(
                endpoint_map@.take(i as int),
                TransportKind::WebSocket,
            ),
            forall|j: int|
                0 <= j < zmq_ports@.len() ==> is_port_value((#[trigger] zmq_ports@[j]).1),
            forall|j: int|
                0 <= j < ws_ports@.len() ==> is_port_value((#[trigger] ws_ports@[j]).1),
        decreases endpoint_map@.len() - i,
    {
        let endpoint = &endpoint_map[i];
        proof {
            assert(endpoint_map@.take(i + 1).drop_last() =~= endpoint_map@.take(i as int));
        }
        match parse_endpoint_port(endpoint) {
            Some(port) => match endpoint.transport {
                TransportKind::Zmq => {
                    push_port(&mut zmq_ports, endpoint.capability, port);
                },
                TransportKind::WebSocket => {
                    push_port(&mut ws_ports, endpoint.capability, port);
                },
            },
            None => {},
        }
        i = i + 1;
    }
    proof {
        assert(endpoint_map@.take(endpoint_map@.len() as int) =~= endpoint_map@);
    }
    let ghost z = zmq_ports@;
    let ghost w = ws_ports@;
    let has_zmq = zmq_ports.len() > 0;
    let has_ws = ws_ports.len() > 0;
    let mut transports: Vec<(String, JsonValue)> = Vec::new();
    if has_zmq {
        transports.push((owned("zmq"), transport_object(zmq_ports)));
    }
    if has_ws {
        transports.push((owned("websocket"), transport_object(ws_ports)));
    }
    let recommended = if has_ws {
        owned("websocket")
    } else {
        owned("zmq")
    };
    let mut top: Vec<(String, JsonValue)> = Vec::new();
    top.push((owned("recommended_transport"), JsonValue::Str(recommended)));
    top.push((owned("transports"), JsonValue::Object(transports)));
    proof {
        assert(port_values(z).len() == z.len());
        assert(port_values(w).len() == w.len());
    }
    JsonValue::Object(top)
}


/// Why one port entry of transport `tname` is refused, if it is.
pub open spec fn port_error(tname: Seq<char>, pname: Seq<char>, v: JsonValue) -> Option<Seq<char>> {
    match v {
        JsonValue::UInt(n) => if n > u16::MAX as u64 {
            Some("transport '"@ + tname + "."@ + pname + "' port out of range"@)
        } else {
            None
        },
        _ => Some("transport '"@ + tname + "."@ + pname + "' port is not an integer"@),
    }
}

/// Entry `i` is the one that a JSON object keeps for its key: no later
/// entry has the same key.
pub open spec fn is_kept<V>(e: Seq<(String, V)>, i: int) -> bool {
    0 <= i < e.len() && forall|j: int| i < j < e.len() ==> (#[trigger] e[j]).0@ != e[i].0@
}

/// Entry `i` of the ports object of transport `tname` is kept and refused.
pub open spec fn port_refused(tname: Seq<char>, e: Seq<(String, JsonValue)>, i: int) -> bool {
    is_kept(e, i) && port_error(tname, e[i].0@, e[i].1) is Some
}

/// Entry `i` is the refused port whose key comes first.
pub open spec fn first_port_refused(tname: Seq<char>, e: Seq<(String, JsonValue)>, i: int) -> bool {
    &&& port_refused(tname, e, i)
    &&& forall|j: int| #[trigger] port_refused(tname, e, j) ==> !key_before(e[j].0@, e[i].0@)
}

/// Reads a ports object: every key's port must be an integer that fits 16
/// bits. Where some are not, the error is that of the refused key that
/// comes first in key order, the order in which a JSON object walks its
/// keys.
pub open spec fn parse_ports(tname: Seq<char>, e: Seq<(String, JsonValue)>) -> Result<
    Map<Seq<char>, u16>,
    Seq<char>,
> {
    if exists|i: int| port_refused(tname, e, i) {
        let i = choose|i: int| first_port_refused(tname, e, i);
        Err(port_error(tname, e[i].0@, e[i].1)->0)
    } else {
        Ok(entries_map(port_values(e)))
    }
}

/// Reads the ports of one transport object.
pub open spec fn parse_transport(name: Seq<char>, v: JsonValue) -> Result<
    Map<Seq<char>, u16>,
    Seq<char>,
> {
    match json_lookup(v, "ports"@) {
        Some(JsonValue::Object(p)) => parse_ports(name, p@),
        _ => Err("transport '"@ + name + "' missing ports object"@),
    }
}

/// Entry `i` of the transports object is kept and refused.
pub open spec fn transport_refused(e: Seq<(String, JsonValue)>, i: int) -> bool {
    is_kept(e, i) && parse_transport(e[i].0@, e[i].1) is Err
}

/// Entry `i` is the refused transport whose key comes first.
pub open spec fn first_transport_refused(e: Seq<(String, JsonValue)>, i: int) -> bool {
    &&& transport_refused(e, i)
    &&& forall|j: int| #[trigger] transport_refused(e, j) ==> !key_before(e[j].0@, e[i].0@)
}

/// The ports that a transport entry gives; none where it is refused.
pub open spec fn transport_ports(name: Seq<char>, v: JsonValue) -> Map<Seq<char>, u16> {
    match parse_transport(name, v) {
        Ok(p) => p,
        Err(_) => Map::empty(),
    }
}

pub open spec fn transport_values(e: Seq<(String, JsonValue)>) -> Seq<
    (Seq<char>, Map<Seq<char>, u16>),
> {
    e.map_values(|p: (String, JsonValue)| (p.0@, transport_ports(p.0@, p.1)))
}

/// Reads the transports object: every key's transport must read. Where some
/// do not, the error is that of the refused key that comes first in key
/// order.
pub open spec fn parse_transports(e: Seq<(String, JsonValue)>) -> Result<
    Map<Seq<char>, Map<Seq<char>, u16>>,
    Seq<char>,
> {
    if exists|i: int| transport_refused(e, i) {
        let i = choose|i: int| first_transport_refused(e, i);
        Err(parse_transport(e[i].0@, e[i].1)->Err_0)
    } else {
        Ok(entries_map(transport_values(e)))
    }
}

/// What reading a registration body gives.
pub open spec fn registration_from_json(body: JsonValue) -> Result<RegistrationResponseView, Seq<char>> {
    let rec = match json_lookup(body, "recommended_transport"@) {
        Some(JsonValue::Str(s)) => Some(s@),
        _ => None,
    };
    match json_lookup(body, "transports"@) {
        Some(JsonValue::Object(t)) => match parse_transports(t@) {
            Ok(m) => Ok(RegistrationResponseView { recommended_transport: rec, transports: m }),
            Err(x) => Err(x),
        },
        _ => Err("registration body missing transports"@),
    }
}

/// Two kept entries, neither of whose keys comes before the other's, are
/// the same entry.
proof fn lemma_first_key_unique<V>(e: Seq<(String, V)>, i: int, j: int)
    requires
        is_kept(e, i),
        is_kept(e, j),
        !key_before(e[i].0@, e[j].0@),
        !key_before(e[j].0@, e[i].0@),
    ensures
        i == j,
{
    if e[i].0@ != e[j].0@ {
        lemma_key_before_total(e[i].0@, e[j].0@);
    } else if i < j {
        assert(e[j].0@ != e[i].0@);
    } else if j < i {
        assert(e[i].0@ != e[j].0@);
    }
}

/// Whether entry `i` is the one kept for its key.
fn entry_is_kept<V>(entries: &Vec<(String, V)>, i: usize) -> (r: bool)
    requires
        i < entries@.len(),
    ensures
        r == is_kept(entries@, i as int),
{
    let n = entries.len();
    let mut j: usize = i + 1;
    while j < n
        invariant
            i < j <= entries@.len(),
            n == entries@.len(),
            forall|k: int| i < k < j ==> (#[trigger] entries@[k]).0@ != entries@[i as int].0@,
        decreases entries@.len() - j,
    {
        if str_eq(entries[j].0.as_str(), entries[i].0.as_str()) {
            return false;
        }
        j = j + 1;
    }
    true
}

fn port_error_text(tname: &String, pname: &String, tail: &str) -> (r: String)
    ensures
        r@ == "transport '"@ + tname@ + "."@ + pname@ + tail@,
{
    let mut m = owned("transport '");
    m.append(tname.as_str());
    m.append(".");
    m.append(pname.as_str());
    m.append(tail);
    m
}

proof fn lemma_keyed_push<V>(e: Seq<(String, V)>, x: (String, V))
    ensures
        keyed(e.push(x)) == keyed(e).push((x.0@, x.1)),
{
    assert(keyed(e.push(x)) =~= keyed(e).push((x.0@, x.1)));
}

/// Reads one transport object of a registration body.
fn read_transport(name: &String, value: &JsonValue) -> (r: Result<TransportConfig, String>)
    ensures
        match parse_transport(name@, *value) {
            Ok(p) => r matches Ok(c) && c@ == p,
            Err(m) => r matches Err(x) && x@ == m,
        },
{
    let ports_obj = match json_get(value, "ports") {
        Some(JsonValue::Object(p)) => p,
        _ => {
            let mut m = owned("transport '");
            m.append(name.as_str());
            m.append("' missing ports object");
            return Err(m);
        },
    };
    let ghost tn = name@;
    let ghost p = ports_obj@;
    let mut ports: Vec<(String, u16)> = Vec::new();
    let mut best: Option<usize> = None;
    let mut j: usize = 0;
    while j < ports_obj.len()
        invariant
            j <= p.len(),
            p == ports_obj@,
            keyed(ports@) == port_values(p.take(j as int)),
            match best {
                None => forall|k: int| 0 <= k < j ==> !port_refused(tn, p, k),
                Some(b) => b < j && port_refused(tn, p, b as int) && forall|k: int|
                    0 <= k < j && #[trigger] port_refused(tn, p, k) ==> !key_before(
                        p[k].0@,
                        p[b as int].0@,
                    ),
            },
        decreases p.len() - j,
    {
        let key = &ports_obj[j].0;
        let port: u16;
        let refused: bool;
        match &ports_obj[j].1 {
            JsonValue::UInt(n) => {
                if *n <= 65535 {
                    port = *n as u16;
                    refused = false;
                } else {
                    port = 0;
                    refused = true;
                }
            },
            _ => {
                port = 0;
                refused = true;
            },
        }
        let ghost before = ports@;
        ports.push((key.clone(), port));
        proof {
            lemma_keyed_push(before, ports@.last());
            assert(p.take(j + 1) =~= p.take(j as int).push(p[j as int]));
            assert(port_values(p.take(j + 1)) =~= port_values(p.take(j as int)).push(
                (key@, json_port(p[j as int].1)),
            ));
            assert(refused == (port_error(tn, key@, p[j as int].1) is Some));
        }
        if refused && entry_is_kept(ports_obj, j) {
            let take = match best {
                None => true,
                Some(b) => str_before(key.as_str(), ports_obj[b].0.as_str()),
            };
            if take {
                proof {
                    assert forall|k: int|
                        0 <= k < j + 1 && #[trigger] port_refused(tn, p, k) implies !key_before(
                        p[k].0@,
                        key@,
                    ) by {
                        if k < j {
                            if key_before(p[k].0@, key@) {
                                let b = best->0;
                                lemma_key_before_transitive(p[k].0@, key@, p[b as int].0@);
                            }
                        } else {
                            lemma_key_before_irreflexive(key@);
                        }
                    }
                }
                best = Some(j);
            }
        }
        j = j + 1;
    }
    proof {
        assert(p.take(p.len() as int) =~= p);
    }
    match best {
        None => Ok(TransportConfig { ports }),
        Some(b) => {
            let bad = &ports_obj[b];
            let m = match &bad.1 {
                JsonValue::UInt(_) => port_error_text(name, &bad.0, "' port out of range"),
                _ => port_error_text(name, &bad.0, "' port is not an integer"),
            };
            proof {
                assert(first_port_refused(tn, p, b as int));
                let c = choose|i: int| first_port_refused(tn, p, i);
                lemma_first_key_unique(p, b as int, c);
            }
            Err(m)
        },
    }
}

impl RegistrationResponse {
    /// Reads a registration body: the recommended transport when it is a
    /// string, and every transport with its ports, each port an integer that
    /// fits 16 bits. Where several entries are refused, the error names the
    /// one whose key comes first, as a JSON object walks its keys in order.
    pub fn from_json(body: &JsonValue) -> (r: Result<Self, String>)
        ensures
            match registration_from_json(*body) {
                Ok(v) => r matches Ok(x) && x@ == v,
                Err(m) => r matches Err(e) && e@ == m,
            },
    {
        let recommended_transport = match json_get(body, "recommended_transport") {
            Some(JsonValue::Str(s)) => Some(s.clone()),
            _ => None,
        };
        let transports_obj = match json_get(body, "transports") {
            Some(JsonValue::Object(t)) => t,
            _ => {
                return Err(owned("registration body missing transports"));
            },
        };
        let ghost t = transports_obj@;
        let mut transports: Vec<(String, TransportConfig)> = Vec::new();
        let mut best: Option<(usize, String)> = None;
        let mut i: usize = 0;
        while i < transports_obj.len()
            invariant
                i <= t.len(),
                t == transports_obj@,
                transports@.map_values(|p: (String, TransportConfig)| (p.0@, p.1@))
                    == transport_values(t.take(i as int)),
                match best {
                    None => forall|k: int| 0 <= k < i ==> !transport_refused(t, k),
                    Some((b, m)) => b < i && transport_refused(t, b as int) && m@ == parse_transport(
                        t[b as int].0@,
                        t[b as int].1,
                    )->Err_0 && forall|k: int|
                        0 <= k < i && #[trigger] transport_refused(t, k) ==> !key_before(
                            t[k].0@,
                            t[b as int].0@,
                        ),
                },
            decreases t.len() - i,
        {
            let name = &transports_obj[i].0;
            let ghost before = transports@;
            let read = read_transport(name, &transports_obj[i].1);
            let config = match read {
                Ok(c) => c,
                Err(m) => {
                    if entry_is_kept(transports_obj, i) {
                        let take = match &best {
                            None => true,
                            Some(b) => str_before(name.as_str(), transports_obj[b.0].0.as_str()),
                        };
                        if take {
                            proof {
                                assert forall|k: int|
                                    0 <= k < i + 1 && #[trigger] transport_refused(t, k) implies !key_before(
                                    t[k].0@,
                                    name@,
                                ) by {
                                    if k < i {
                                        if key_before(t[k].0@, name@) {
                                            let b = (best->0).0;
                                            lemma_key_before_transitive(t[k].0@, name@, t[b as int].0@);
                                        }
                                    } else {
                                        lemma_key_before_irreflexive(name@);
                                    }
                                }
                            }
                            best = Some((i, m));
                        }
                    }
                    TransportConfig { ports: Vec::new() }
                },
            };
            proof {
                assert(keyed(Seq::<(String, u16)>::empty()) =~= Seq::<(Seq<char>, u16)>::empty());
                assert(config@ == transport_ports(name@, t[i as int].1));
            }
            transports.push((name.clone(), config));
            proof {
                assert(t.take(i + 1) =~= t.take(i as int).push(t[i as int]));
                assert(transport_values(t.take(i + 1)) =~= transport_values(t.take(i as int)).push(
                    (name@, transport_ports(name@, t[i as int].1)),
                ));
                assert(transports@.map_values(|p: (String, TransportConfig)| (p.0@, p.1@))
                    =~= before.map_values(|p: (String, TransportConfig)| (p.0@, p.1@)).push(
                    (name@, transport_ports(name@, t[i as int].1)),
                ));
            }
            i = i + 1;
        }
        proof {
            assert(t.take(t.len() as int) =~= t);
        }
        match best {
            None => Ok(RegistrationResponse { recommended_transport, transports }),
            Some((b, m)) => {
                proof {
                    assert(first_transport_refused(t, b as int));
                    let c = choose|k: int| first_transport_refused(t, k);
                    lemma_first_key_unique(t, b as int, c);
                }
                Err(m)
            },
        }
    }

    /// The ports of the transport called `name`, if the body lists it.
    pub fn get_transport(&self, name: &str) -> (r: Option<&TransportConfig>)
        ensures
            match r {
                Some(t) => self@.transports.contains_key(name@) && t@ == self@.transports[name@],
                None => !self@.transports.contains_key(name@),
            },
    {
        let ghost e = self.transports@.map_values(|p: (String, TransportConfig)| (p.0@, p.1@));
        let mut k: usize = self.transports.len();
        while k > 0
            invariant
                k <= self.transports@.len(),
                e == self.transports@.map_values(|p: (String, TransportConfig)| (p.0@, p.1@)),
                forall|j: int| k <= j < e.len() ==> (#[trigger] e[j]).0 != name@,
            decreases k,
        {
            if str_eq(self.transports[k - 1].0.as_str(), name) {
                proof {
                    lemma_entries_map_last(e, name@, k - 1);
                }
                return Some(&self.transports[k - 1].1);
            }
            k = k - 1;
        }
        proof {
            lemma_entries_map_absent(e, name@);
        }
        None
    }

    /// Chooses a transport: the preferred one when the body lists it, else
    /// the recommended one when the body lists that, else none.
    pub fn choose_transport(&self, preference: Option<&str>) -> (r: Option<ChosenTransport>)
        ensures
            match r {
                Some(c) => choose_transport_spec(self@, opt_str(preference)) == Some(c@),
                None => choose_transport_spec(self@, opt_str(preference)) is None,
            },
            preference is Some && self@.transports.contains_key(preference->0@) ==> (r matches Some(
                c,
            ) && c@ == (preference->0@, self@.transports[preference->0@])),
            !(preference is Some && self@.transports.contains_key(preference->0@))
                && self@.recommended_transport is Some && self@.transports.contains_key(
                self@.recommended_transport->0,
            ) ==> (r matches Some(c) && c@ == (
                self@.recommended_transport->0,
                self@.transports[self@.recommended_transport->0],
            )),
            !(preference is Some && self@.transports.contains_key(preference->0@)) && !(
            self@.recommended_transport is Some && self@.transports.contains_key(
                self@.recommended_transport->0,
            )) ==> r is None,
    {
        match preference {
            Some(pref) => match self.get_transport(pref) {
                Some(cfg) => {
                    return Some(ChosenTransport { name: owned(pref), ports: clone_ports(&cfg.ports) });
                },
                None => {},
            },
            None => {},
        }
        let recommended = match &self.recommended_transport {
            Some(r) => r,
            None => {
                return None;
            },
        };
        match self.get_transport(recommended.as_str()) {
            Some(cfg) => Some(
                ChosenTransport { name: recommended.clone(), ports: clone_ports(&cfg.ports) },
            ),
            None => None,
        }
    }
}

pub open spec fn opt_str(s: Option<&str>) -> Option<Seq<char>> {
    match s {
        Some(t) => Some(t@),
        None => None,
    }
}

/// The transport chosen for a preference: the preferred one when listed,
/// else the recommended one when listed.
pub open spec fn choose_transport_spec(
    resp: RegistrationResponseView,
    preference: Option<Seq<char>>,
) -> Option<(Seq<char>, Map<Seq<char>, u16>)> {
    if preference is Some && resp.transports.contains_key(preference->0) {
        Some((preference->0, resp.transports[preference->0]))
    } else if resp.recommended_transport is Some && resp.transports.contains_key(
        resp.recommended_transport->0,
    ) {
        Some((resp.recommended_transport->0, resp.transports[resp.recommended_transport->0]))
    } else {
        None
    }
}

fn clone_ports(ports: &Vec<(String, u16)>) -> (r: Vec<(String, u16)>)
    ensures
        keyed(r@) == keyed(ports@),
{
    let mut r: Vec<(String, u16)> = Vec::new();
    let mut i: usize = 0;
    while i < ports.len()
        invariant
            i <= ports@.len(),
            keyed(r@) == keyed(ports@.take(i as int)),
        decreases ports@.len() - i,
    {
        let ghost before = r@;
        r.push((ports[i].0.clone(), ports[i].1));
        proof {
            lemma_keyed_push(before, r@.last());
            assert(ports@.take(i + 1) =~= ports@.take(i as int).push(ports@[i as int]));
            lemma_keyed_push(ports@.take(i as int), ports@[i as int]);
        }
        i = i + 1;
    }
    assert(ports@.take(ports@.len() as int) =~= ports@);
    r
}


/// The transports a registration body of these endpoints lists: `zmq` and
/// `websocket`, each when it has ports, with those ports.
pub open spec fn expected_transports(eps: Seq<RegisteredEndpoint>) -> Map<
    Seq<char>,
    Map<Seq<char>, u16>,
> {
    let z = endpoint_port_entries(eps, TransportKind::Zmq);
    let w = endpoint_port_entries(eps, TransportKind::WebSocket);
    let m0 = Map::<Seq<char>, Map<Seq<char>, u16>>::empty();
    let m1 = if z.len() > 0 {
        m0.insert("zmq"@, entries_map(z))
    } else {
        m0
    };
    if w.len() > 0 {
        m1.insert("websocket"@, entries_map(w))
    } else {
        m1
    }
}

proof fn lemma_parse_ports_ok(t: Seq<char>, e: Seq<(String, JsonValue)>)
    requires
        forall|i: int| 0 <= i < e.len() ==> is_port_value((#[trigger] e[i]).1),
    ensures
        parse_ports(t, e) == Ok::<Map<Seq<char>, u16>, Seq<char>>(entries_map(port_values(e))),
{
    assert forall|i: int| !port_refused(t, e, i) by {
        if 0 <= i < e.len() {
            assert(is_port_value(e[i].1));
        }
    }
}

proof fn lemma_transport_object_reads(t: Seq<char>, v: JsonValue, ports: Seq<(Seq<char>, u16)>)
    requires
        is_transport_object(v, ports),
    ensures
        parse_transport(t, v) == Ok::<Map<Seq<char>, u16>, Seq<char>>(entries_map(ports)),
{
    let e = v->Object_0;
    lemma_entries_map_last(keyed(e@), "ports"@, 0);
    let p = e@[0].1->Object_0;
    lemma_parse_ports_ok(t, p@);
}

/// Reading back a registration body built from endpoints gives the
/// recommended transport and, for each transport that has ports, exactly
/// the ports that its endpoints' URLs end in.
pub proof fn lemma_registration_body_round_trip(r: JsonValue, eps: Seq<RegisteredEndpoint>)
    requires
        is_registration_body(r, eps),
    ensures
        registration_from_json(r) == Ok::<RegistrationResponseView, Seq<char>>(
            RegistrationResponseView {
                recommended_transport: Some(recommended_for(eps)),
                transports: expected_transports(eps),
            },
        ),
{
    reveal_strlit("recommended_transport");
    reveal_strlit("transports");
    reveal_strlit("zmq");
    reveal_strlit("websocket");
    let top = r->Object_0;
    let k = keyed(top@);
    assert(k[0].0 == "recommended_transport"@);
    assert(k[1].0 == "transports"@);
    assert(k[1].0.len() != k[0].0.len());
    lemma_entries_map_last(k, "recommended_transport"@, 0);
    lemma_entries_map_last(k, "transports"@, 1);
    let t = top@[1].1->Object_0;
    let z = endpoint_port_entries(eps, TransportKind::Zmq);
    let w = endpoint_port_entries(eps, TransportKind::WebSocket);
    let te = t@;
    if z.len() > 0 {
        lemma_transport_object_reads(te[0].0@, te[0].1, z);
    }
    if w.len() > 0 {
        let nz: int = if z.len() > 0 {
            1
        } else {
            0
        };
        lemma_transport_object_reads(te[nz].0@, te[nz].1, w);
    }
    let nz: int = if z.len() > 0 {
        1
    } else {
        0
    };
    assert forall|i: int| !transport_refused(te, i) by {
        if 0 <= i < te.len() {
            if z.len() > 0 && i == 0 {
                assert(parse_transport(te[i].0@, te[i].1) is Ok);
            } else {
                assert(i == nz);
                assert(parse_transport(te[i].0@, te[i].1) is Ok);
            }
        }
    }
    let tv = transport_values(te);
    let empty = Map::<Seq<char>, Map<Seq<char>, u16>>::empty();
    if z.len() > 0 {
        assert(tv[0] == ("zmq"@, entries_map(z)));
    }
    if w.len() > 0 {
        assert(tv[nz] == ("websocket"@, entries_map(w)));
    }
    if z.len() > 0 && w.len() > 0 {
        let s1 = tv.drop_last();
        assert(s1.drop_last() =~= Seq::<(Seq<char>, Map<Seq<char>, u16>)>::empty());
        assert(entries_map(s1.drop_last()) == empty);
        assert(s1.last() == tv[0]);
        assert(entries_map(s1) == empty.insert("zmq"@, entries_map(z)));
        assert(tv.last() == tv[1]);
        assert(entries_map(tv) == entries_map(s1).insert("websocket"@, entries_map(w)));
        assert(entries_map(tv) =~= expected_transports(eps));
    } else if z.len() > 0 || w.len() > 0 {
        assert(tv.drop_last() =~= Seq::<(Seq<char>, Map<Seq<char>, u16>)>::empty());
        assert(entries_map(tv.drop_last()) == empty);
        assert(tv.last() == tv[0]);
        assert(entries_map(tv) =~= expected_transports(eps));
    } else {
        assert(tv =~= Seq::<(Seq<char>, Map<Seq<char>, u16>)>::empty());
        assert(entries_map(tv) == expected_transports(eps));
    }
    assert(parse_transports(te) == Ok::<Map<Seq<char>, Map<Seq<char>, u16>>, Seq<char>>(
        expected_transports(eps),
    ));
}

/// The built body lists the ZMQ transport exactly when some ZMQ endpoint's
/// URL ends in a port, and then with exactly those ports.
pub proof fn lemma_registration_body_zmq_ports(r: JsonValue, eps: Seq<RegisteredEndpoint>)
    requires
        is_registration_body(r, eps),
    ensures
        registration_from_json(r) matches Ok(v) && (v.transports.contains_key("zmq"@)
            <==> endpoint_port_entries(eps, TransportKind::Zmq).len() > 0) && (
        v.transports.contains_key("zmq"@) ==> v.transports["zmq"@] == entries_map(
            endpoint_port_entries(eps, TransportKind::Zmq),
        )),
{
    reveal_strlit("zmq");
    reveal_strlit("websocket");
    lemma_registration_body_round_trip(r, eps);
    assert("zmq"@ != "websocket"@) by {
        assert("zmq"@.len() != "websocket"@.len());
    }
}


impl Clone for TransportConfig {
    fn clone(&self) -> (r: Self)
        ensures
            r@ == self@,
    {
        TransportConfig { ports: clone_ports(&self.ports) }
    }
}

/// A chosen transport is one that the body lists, with exactly its ports;
/// a preference that the body lists is always the one chosen.
pub proof fn lemma_chosen_transport_is_listed(
    resp: RegistrationResponseView,
    preference: Option<Seq<char>>,
)
    ensures
        choose_transport_spec(resp, preference) matches Some(c) ==> resp.transports.contains_key(
            c.0,
        ) && c.1 == resp.transports[c.0],
        preference is Some && resp.transports.contains_key(preference->0) ==> choose_transport_spec(
            resp,
            preference,
        ) == Some((preference->0, resp.transports[preference->0])),
        choose_transport_spec(resp, preference) is None ==> (preference is None
            || !resp.transports.contains_key(preference->0)) && (resp.recommended_transport is None
            || !resp.transports.contains_key(resp.recommended_transport->0)),
{
}

/// Each channel is listed under its own name: `sensory` for sensor data,
/// `motor` for motor data, `visualization` for neuron visualizations and
/// `control` for system messages; each name stands for exactly that channel.
pub proof fn lemma_capability_key_table(c: AgentCapability)
    ensures
        (capability_key(c) == "sensory"@) == (c == AgentCapability::SendSensorData),
        (capability_key(c) == "motor"@) == (c == AgentCapability::ReceiveMotorData),
        (capability_key(c) == "visualization"@) == (c
            == AgentCapability::ReceiveNeuronVisualizations),
        (capability_key(c) == "control"@) == (c == AgentCapability::ReceiveSystemMessages),
{
    reveal_strlit("sensory");
    reveal_strlit("motor");
    reveal_strlit("visualization");
    reveal_strlit("control");
    assert("sensory"@ != "motor"@) by {
        assert("sensory"@.len() != "motor"@.len());
    }
    assert("sensory"@ != "visualization"@) by {
        assert("sensory"@.len() != "visualization"@.len());
    }
    assert("sensory"@ != "control"@) by {
        assert("sensory"@[0] != "control"@[0]);
    }
    assert("motor"@ != "visualization"@) by {
        assert("motor"@.len() != "visualization"@.len());
    }
    assert("motor"@ != "control"@) by {
        assert("motor"@.len() != "control"@.len());
    }
    assert("visualization"@ != "control"@) by {
        assert("visualization"@.len() != "control"@.len());
    }
}

/// Distinct channels are listed under distinct names.
pub proof fn lemma_capability_keys_distinct(a: AgentCapability, b: AgentCapability)
    requires
        a != b,
    ensures
        capability_key(a) != capability_key(b),
{
    lemma_capability_key_table(a);
    lemma_capability_key_table(b);
}

/// With no listed preference, the recommended transport is chosen whenever
/// the body lists it, and nothing is chosen when it does not; a listed
/// preference always wins. In every case the ports are those the body gives
/// the chosen transport.
pub proof fn lemma_choose_transport_cases(
    resp: RegistrationResponseView,
    preference: Option<Seq<char>>,
)
    ensures
        preference is Some && resp.transports.contains_key(preference->0) ==> choose_transport_spec(
            resp,
            preference,
        ) == Some((preference->0, resp.transports[preference->0])),
        !(preference is Some && resp.transports.contains_key(preference->0))
            && resp.recommended_transport is Some && resp.transports.contains_key(
            resp.recommended_transport->0,
        ) ==> choose_transport_spec(resp, preference) == Some(
            (resp.recommended_transport->0, resp.transports[resp.recommended_transport->0]),
        ),
        !(preference is Some && resp.transports.contains_key(preference->0)) && !(
        resp.recommended_transport is Some && resp.transports.contains_key(
            resp.recommended_transport->0,
        )) ==> choose_transport_spec(resp, preference) is None,
{
}

} // verus!
