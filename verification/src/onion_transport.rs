//! The relay-mediated transport: circuits built and torn down over one
//! connection to a relay, for runtimes without raw sockets.
//!
//! The transport keeps the circuits it has asked for, each under its own
//! identifier, and the payloads that arrived. It builds the frames of the
//! onion protocol; the caller owns the socket, sends them, and reports the
//! socket's events.

use crate::registry::Registry;
use crate::shims::{base64_decode, base64_decoded, fresh_uuid, DecodeFailure};
use crate::text::{
    clone_bytes, concat2, concat3, decimal, decimal_string, replace, replace_all, split, split_on,
    starts_with, trim_end, trim_end_matches,
};
use crate::transport::{
    after_close, payloads, Reconnect, ReconnectPolicy, TransportState,
};
use std::collections::VecDeque;
use vstd::prelude::*;
use vstd::string::*;

verus! {

/// One link of a circuit: where to reach it, who it is, and its key.
#[derive(Debug, PartialEq, Eq)]
pub struct OnionHop {
    pub relay_url: String,
    pub peer_id: String,
    pub public_key: Vec<u8>,
}

/// The model of [`OnionHop`].
pub struct OnionHopView {
    pub relay_url: Seq<char>,
    pub peer_id: Seq<char>,
    pub public_key: Seq<u8>,
}

impl View for OnionHop {
    type V = OnionHopView;

    open spec fn view(&self) -> OnionHopView {
        OnionHopView {
            relay_url: self.relay_url@,
            peer_id: self.peer_id@,
            public_key: self.public_key@,
        }
    }
}

impl DeepView for OnionHop {
    type V = OnionHopView;

    open spec fn deep_view(&self) -> OnionHopView {
        self@
    }
}

impl Clone for OnionHop {
    fn clone(&self) -> (r: Self)
        ensures
            r@ == self@,
    {
        OnionHop {
            relay_url: self.relay_url.clone(),
            peer_id: self.peer_id.clone(),
            public_key: clone_bytes(&self.public_key),
        }
    }
}

/// A copy of a list of hops.
pub fn clone_hops(v: &Vec<OnionHop>) -> (r: Vec<OnionHop>)
    ensures
        r.deep_view() == v.deep_view(),
{
    let mut r: Vec<OnionHop> = Vec::new();
    let mut i: usize = 0;
    while i < v.len()
        invariant
            i <= v.len(),
            r.len() == i,
            forall|j: int| 0 <= j < i ==> r@[j]@ == v@[j]@,
        decreases v.len() - i,
    {
        r.push(v[i].clone());
        i += 1;
    }
    assert(r.deep_view() =~= v.deep_view());
    r
}

/// A circuit as the transport holds it: its identifier, its hops in order,
/// and the keys agreed so far.
#[derive(Debug, PartialEq, Eq)]
pub struct OnionCircuit {
    pub circuit_id: String,
    pub hops: Vec<OnionHop>,
    pub encryption_keys: Vec<Vec<u8>>,
}

/// The model of [`OnionCircuit`].
pub struct OnionCircuitView {
    pub circuit_id: Seq<char>,
    pub hops: Seq<OnionHopView>,
    pub encryption_keys: Seq<Seq<u8>>,
}

impl View for OnionCircuit {
    type V = OnionCircuitView;

    open spec fn view(&self) -> OnionCircuitView {
        OnionCircuitView {
            circuit_id: self.circuit_id@,
            hops: self.hops.deep_view(),
            encryption_keys: payloads(self.encryption_keys@),
        }
    }
}

/// The unit of the onion protocol.
#[derive(Debug, PartialEq, Eq)]
#[allow(inconsistent_fields)]
pub enum OnionMessage {
    /// Build a new circuit.
    BuildCircuit { circuit_id: String, hops: Vec<OnionHop> },
    /// The circuit stands.
    CircuitBuilt { circuit_id: String },
    /// Forward data through a circuit.
    ForwardData { circuit_id: String, data: Vec<u8> },
    /// Data that came out of a circuit.
    DataReceived { circuit_id: String, data: Vec<u8> },
    /// Tear a circuit down.
    TearDownCircuit { circuit_id: String },
    /// The circuit is gone.
    CircuitTornDown { circuit_id: String },
    /// The relay refuses.
    Error { circuit_id: Option<String>, code: String, message: String },
}

/// The model of [`OnionMessage`].
#[allow(inconsistent_fields)]
pub enum OnionMessageView {
    BuildCircuit { circuit_id: Seq<char>, hops: Seq<OnionHopView> },
    CircuitBuilt { circuit_id: Seq<char> },
    ForwardData { circuit_id: Seq<char>, data: Seq<u8> },
    DataReceived { circuit_id: Seq<char>, data: Seq<u8> },
    TearDownCircuit { circuit_id: Seq<char> },
    CircuitTornDown { circuit_id: Seq<char> },
    Error { circuit_id: Option<Seq<char>>, code: Seq<char>, message: Seq<char> },
}

impl View for OnionMessage {
    type V = OnionMessageView;

    open spec fn view(&self) -> OnionMessageView {
        match self {
            OnionMessage::BuildCircuit { circuit_id, hops } => OnionMessageView::BuildCircuit {
                circuit_id: circuit_id@,
                hops: hops.deep_view(),
            },
            OnionMessage::CircuitBuilt { circuit_id } => OnionMessageView::CircuitBuilt {
                circuit_id: circuit_id@,
            },
            OnionMessage::ForwardData { circuit_id, data } => OnionMessageView::ForwardData {
                circuit_id: circuit_id@,
                data: data@,
            },
            OnionMessage::DataReceived { circuit_id, data } => OnionMessageView::DataReceived {
                circuit_id: circuit_id@,
                data: data@,
            },
            OnionMessage::TearDownCircuit { circuit_id } => OnionMessageView::TearDownCircuit {
                circuit_id: circuit_id@,
            },
            OnionMessage::CircuitTornDown { circuit_id } => OnionMessageView::CircuitTornDown {
                circuit_id: circuit_id@,
            },
            OnionMessage::Error { circuit_id, code, message } => OnionMessageView::Error {
                circuit_id: match circuit_id {
                    Some(id) => Some(id@),
                    None => None,
                },
                code: code@,
                message: message@,
            },
        }
    }
}

/// How the relay transport connects, and how long its circuits may be.
#[derive(Debug, PartialEq, Eq)]
pub struct BrowserTransportConfig {
    pub relay_url: String,
    pub max_circuit_hops: u8,
    pub circuit_timeout_ms: u32,
    pub max_reconnect_attempts: u32,
    pub reconnect_delay_ms: u32,
}

/// The model of [`BrowserTransportConfig`].
pub struct BrowserTransportConfigView {
    pub relay_url: Seq<char>,
    pub max_circuit_hops: u8,
    pub circuit_timeout_ms: u32,
    pub max_reconnect_attempts: u32,
    pub reconnect_delay_ms: u32,
}

impl View for BrowserTransportConfig {
    type V = BrowserTransportConfigView;

    open spec fn view(&self) -> BrowserTransportConfigView {
        BrowserTransportConfigView {
            relay_url: self.relay_url@,
            max_circuit_hops: self.max_circuit_hops,
            circuit_timeout_ms: self.circuit_timeout_ms,
            max_reconnect_attempts: self.max_reconnect_attempts,
            reconnect_delay_ms: self.reconnect_delay_ms,
        }
    }
}

impl Clone for BrowserTransportConfig {
    fn clone(&self) -> (r: Self)
        ensures
            r@ == self@,
    {
        BrowserTransportConfig {
            relay_url: self.relay_url.clone(),
            max_circuit_hops: self.max_circuit_hops,
            circuit_timeout_ms: self.circuit_timeout_ms,
            max_reconnect_attempts: self.max_reconnect_attempts,
            reconnect_delay_ms: self.reconnect_delay_ms,
        }
    }
}

impl BrowserTransportConfig {
    /// The configuration for `relay_url`: three hops, thirty seconds to
    /// build a circuit, three reconnection attempts one second apart.
    pub fn new(relay_url: String) -> (c: BrowserTransportConfig)
        ensures
            c@ == (BrowserTransportConfigView {
                relay_url: relay_url@,
                max_circuit_hops: 3,
                circuit_timeout_ms: 30000,
                max_reconnect_attempts: 3,
                reconnect_delay_ms: 1000,
            }),
    {
        BrowserTransportConfig {
            relay_url,
            max_circuit_hops: 3,
            circuit_timeout_ms: 30000,
            max_reconnect_attempts: 3,
            reconnect_delay_ms: 1000,
        }
    }

    /// The same with circuits of at most `hops` hops.
    pub fn with_max_hops(self, hops: u8) -> (c: BrowserTransportConfig)
        ensures
            c@ == (BrowserTransportConfigView { max_circuit_hops: hops, ..self@ }),
    {
        let mut c = self;
        c.max_circuit_hops = hops;
        c
    }

    /// The same with `timeout_ms` milliseconds to build a circuit.
    pub fn with_circuit_timeout(self, timeout_ms: u32) -> (c: BrowserTransportConfig)
        ensures
            c@ == (BrowserTransportConfigView { circuit_timeout_ms: timeout_ms, ..self@ }),
    {
        let mut c = self;
        c.circuit_timeout_ms = timeout_ms;
        c
    }

    /// The same with at most `attempts` reconnection attempts.
    pub fn with_reconnect_attempts(self, attempts: u32) -> (c: BrowserTransportConfig)
        ensures
            c@ == (BrowserTransportConfigView { max_reconnect_attempts: attempts, ..self@ }),
    {
        let mut c = self;
        c.max_reconnect_attempts = attempts;
        c
    }

    /// The same with `delay_ms` milliseconds before a reconnection attempt.
    pub fn with_reconnect_delay(self, delay_ms: u32) -> (c: BrowserTransportConfig)
        ensures
            c@ == (BrowserTransportConfigView { reconnect_delay_ms: delay_ms, ..self@ }),
    {
        let mut c = self;
        c.reconnect_delay_ms = delay_ms;
        c
    }
}

/// The words for a text that is no base64.
pub open spec fn failure_text(failure: DecodeFailure) -> Seq<char> {
    match failure {
        DecodeFailure::InvalidByte(at, byte) => "Invalid symbol "@ + decimal(byte as nat)
            + ", offset "@ + decimal(at as nat) + "."@,
        DecodeFailure::InvalidLength(n) => "Invalid input length: "@ + decimal(n as nat),
        DecodeFailure::InvalidLastSymbol(at, byte) => "Invalid last symbol "@ + decimal(
            byte as nat,
        ) + ", offset "@ + decimal(at as nat) + "."@,
        DecodeFailure::InvalidPadding => "Invalid padding"@,
    }
}

/// The words for a text that is no base64, as a string.
pub fn describe_failure(failure: DecodeFailure) -> (s: String)
    ensures
        s@ == failure_text(failure),
{
    match failure {
        DecodeFailure::InvalidByte(at, byte) => {
            let b = decimal_string(byte as u64);
            let a = decimal_string(at as u64);
            let mut s = concat3("Invalid symbol ", b.as_str(), ", offset ");
            s.append(a.as_str());
            s.append(".");
            s
        },
        DecodeFailure::InvalidLength(n) => {
            let n = decimal_string(n as u64);
            concat2("Invalid input length: ", n.as_str())
        },
        DecodeFailure::InvalidLastSymbol(at, byte) => {
            let b = decimal_string(byte as u64);
            let a = decimal_string(at as u64);
            let mut s = concat3("Invalid last symbol ", b.as_str(), ", offset ");
            s.append(a.as_str());
            s.append(".");
            s
        },
        DecodeFailure::InvalidPadding => "Invalid padding".to_owned(),
    }
}

/// Why the relay transport refuses.
#[derive(Debug, PartialEq, Eq)]
pub enum OnionError {
    /// A hop descriptor that is no text.
    HopNotText,
    /// A hop descriptor without exactly three fields.
    HopFormat,
    /// A hop descriptor whose key is no base64.
    InvalidPublicKey(DecodeFailure),
    /// No circuit of that name is held.
    CircuitNotFound,
    /// A circuit is already held under the identifier drawn for a new one.
    IdentifierInUse,
    /// There is no socket to the relay.
    NotConnected,
    /// A frame could not be encoded, with the encoder's words.
    Serialization(String),
    /// The socket could not be made, with the runtime's words.
    Socket(String),
}

/// The model of [`OnionError`].
pub enum OnionErrorView {
    HopNotText,
    HopFormat,
    InvalidPublicKey(DecodeFailure),
    CircuitNotFound,
    IdentifierInUse,
    NotConnected,
    Serialization(Seq<char>),
    Socket(Seq<char>),
}

impl OnionErrorView {
    /// The error as a line of text.
    pub open spec fn text(self) -> Seq<char> {
        match self {
            OnionErrorView::HopNotText => "Invalid hop format"@,
            OnionErrorView::HopFormat => "Each hop must be in format: relay_url,peer_id,public_key"@,
            OnionErrorView::InvalidPublicKey(f) => "Invalid public key: "@ + failure_text(f),
            OnionErrorView::CircuitNotFound => "Circuit not found"@,
            OnionErrorView::IdentifierInUse => "Circuit identifier already in use"@,
            OnionErrorView::NotConnected => "Not connected to relay"@,
            OnionErrorView::Serialization(d) => "Failed to serialize message: "@ + d,
            OnionErrorView::Socket(d) => d,
        }
    }
}

impl View for OnionError {
    type V = OnionErrorView;

    open spec fn view(&self) -> OnionErrorView {
        match self {
            OnionError::HopNotText => OnionErrorView::HopNotText,
            OnionError::HopFormat => OnionErrorView::HopFormat,
            OnionError::InvalidPublicKey(f) => OnionErrorView::InvalidPublicKey(*f),
            OnionError::CircuitNotFound => OnionErrorView::CircuitNotFound,
            OnionError::IdentifierInUse => OnionErrorView::IdentifierInUse,
            OnionError::NotConnected => OnionErrorView::NotConnected,
            OnionError::Serialization(d) => OnionErrorView::Serialization(d@),
            OnionError::Socket(d) => OnionErrorView::Socket(d@),
        }
    }
}

impl OnionError {
    /// The error as a line of text.
    pub fn to_string(&self) -> (s: String)
        ensures
            s@ == self@.text(),
    {
        match self {
            OnionError::HopNotText => "Invalid hop format".to_owned(),
            OnionError::HopFormat => {
                "Each hop must be in format: relay_url,peer_id,public_key".to_owned()
            },
            OnionError::InvalidPublicKey(f) => {
                let why = describe_failure(*f);
                concat2("Invalid public key: ", why.as_str())
            },
            OnionError::CircuitNotFound => "Circuit not found".to_owned(),
            OnionError::IdentifierInUse => "Circuit identifier already in use".to_owned(),
            OnionError::NotConnected => "Not connected to relay".to_owned(),
            OnionError::Serialization(d) => concat2("Failed to serialize message: ", d.as_str()),
            OnionError::Socket(d) => d.clone(),
        }
    }
}

/// The socket address of a relay: an address with the `ws://` or `wss://`
/// scheme as it stands, `http://` written as `ws://` and `https://` as
/// `wss://`, and anything else as a host: the secure scheme, the host without
/// trailing slashes, and the path `/onion`.
pub open spec fn converted_relay_url(url: Seq<char>) -> Seq<char> {
    if "ws://"@.is_prefix_of(url) || "wss://"@.is_prefix_of(url) {
        url
    } else if "http://"@.is_prefix_of(url) {
        replace(url, "http://"@, "ws://"@)
    } else if "https://"@.is_prefix_of(url) {
        replace(url, "https://"@, "wss://"@)
    } else {
        "wss://"@ + trim_end(url, '/') + "/onion"@
    }
}

/// The socket address of the relay at `url`.
pub fn convert_relay_url(url: &str) -> (r: String)
    ensures
        r@ == converted_relay_url(url@),
{
    if starts_with(url, "ws://") || starts_with(url, "wss://") {
        url.to_owned()
    } else if starts_with(url, "http://") {
        replace_all(url, "http://", "ws://")
    } else if starts_with(url, "https://") {
        replace_all(url, "https://", "wss://")
    } else {
        let host = trim_end_matches(url, '/');
        concat3("wss://", host.as_str(), "/onion")
    }
}

/// The hop that three fields and a decoded key make: the key's bytes with
/// the first two fields, or the complaint about the key.
pub open spec fn hop_of(
    relay_url: Seq<char>,
    peer_id: Seq<char>,
    key: Result<Seq<u8>, DecodeFailure>,
) -> Result<OnionHopView, OnionErrorView> {
    match key {
        Ok(public_key) => Ok(OnionHopView { relay_url, peer_id, public_key }),
        Err(failure) => Err(OnionErrorView::InvalidPublicKey(failure)),
    }
}

/// What a hop descriptor says: `relay_url,peer_id,key` with the key in
/// base64. Exactly three fields between commas are a hop; any other count is
/// refused.
pub open spec fn parsed_hop(descriptor: Seq<char>) -> Result<OnionHopView, OnionErrorView> {
    let fields = split(descriptor, ',');
    if fields.len() != 3 {
        Err(OnionErrorView::HopFormat)
    } else {
        hop_of(fields[0], fields[1], base64_decoded(fields[2]))
    }
}

/// What a list of hop descriptors says: the hops in order, or the complaint
/// about the first descriptor that is no hop. `None` stands for a descriptor
/// that is no text.
pub open spec fn parsed_hops(descriptors: Seq<Option<Seq<char>>>) -> Result<
    Seq<OnionHopView>,
    OnionErrorView,
>
    decreases descriptors.len(),
{
    if descriptors.len() == 0 {
        Ok(Seq::empty())
    } else {
        match parsed_hops(descriptors.drop_last()) {
            Err(e) => Err(e),
            Ok(hops) => match descriptors.last() {
                None => Err(OnionErrorView::HopNotText),
                Some(d) => match parsed_hop(d) {
                    Err(e) => Err(e),
                    Ok(hop) => Ok(hops.push(hop)),
                },
            },
        }
    }
}

/// The text of each descriptor.
pub open spec fn descriptor_views(descriptors: Seq<Option<String>>) -> Seq<Option<Seq<char>>> {
    descriptors.map_values(
        |d: Option<String>|
            match d {
                Some(s) => Some(s@),
                None => None,
            },
    )
}

impl OnionHop {
    /// The hop for a relay address, a peer and the outcome of decoding its
    /// key.
    pub fn from_parts(relay_url: String, peer_id: String, key: Result<Vec<u8>, DecodeFailure>) -> (r:
        Result<OnionHop, OnionError>)
        ensures
            match hop_of(
                relay_url@,
                peer_id@,
                match key {
                    Ok(bytes) => Ok(bytes@),
                    Err(f) => Err(f),
                },
            ) {
                Ok(hop) => r matches Ok(h) && h@ == hop,
                Err(e) => r matches Err(x) && x@ == e,
            },
    {
        match key {
            Ok(public_key) => Ok(OnionHop { relay_url, peer_id, public_key }),
            Err(failure) => Err(OnionError::InvalidPublicKey(failure)),
        }
    }

    /// Reads one hop descriptor.
    pub fn parse(descriptor: &str) -> (r: Result<OnionHop, OnionError>)
        ensures
            match parsed_hop(descriptor@) {
                Ok(hop) => r matches Ok(h) && h@ == hop,
                Err(e) => r matches Err(x) && x@ == e,
            },
    {
        let mut fields = split_on(descriptor, ',');
        if fields.len() != 3 {
            return Err(OnionError::HopFormat);
        }
        let ghost parts = fields.deep_view();
        let key_text = fields.pop().unwrap();
        let peer_id = fields.pop().unwrap();
        let relay_url = fields.pop().unwrap();
        assert(relay_url@ == parts[0] && peer_id@ == parts[1] && key_text@ == parts[2]);
        let key = base64_decode(key_text.as_str());
        OnionHop::from_parts(relay_url, peer_id, key)
    }
}

/// Reads a list of hop descriptors, stopping at the first that is no hop.
pub fn parse_hops(descriptors: &Vec<Option<String>>) -> (r: Result<Vec<OnionHop>, OnionError>)
    ensures
        match parsed_hops(descriptor_views(descriptors@)) {
            Ok(hops) => r matches Ok(v) && v.deep_view() == hops,
            Err(e) => r matches Err(x) && x@ == e,
        },
{
    let mut hops: Vec<OnionHop> = Vec::new();
    let ghost all = descriptor_views(descriptors@);
    let mut i: usize = 0;
    assert(all.take(0) =~= Seq::<Option<Seq<char>>>::empty());
    assert(hops.deep_view() =~= Seq::<OnionHopView>::empty());
    while i < descriptors.len()
        invariant
            i <= descriptors.len(),
            all == descriptor_views(descriptors@),
            parsed_hops(all.take(i as int)) == Ok::<Seq<OnionHopView>, OnionErrorView>(
                hops.deep_view(),
            ),
        decreases descriptors.len() - i,
    {
        let ghost upto = all.take(i + 1);
        assert(upto.drop_last() =~= all.take(i as int));
        assert(upto.last() == all[i as int]);
        let ghost before = hops.deep_view();
        match &descriptors[i] {
            None => {
                proof {
                    lemma_first_failure(all, i + 1);
                }
                return Err(OnionError::HopNotText);
            },
            Some(d) => {
                match OnionHop::parse(d.as_str()) {
                    Err(e) => {
                        proof {
                            lemma_first_failure(all, i + 1);
                        }
                        return Err(e);
                    },
                    Ok(hop) => {
                        hops.push(hop);
                        assert(hops.deep_view() =~= before.push(hop@));
                    },
                }
            },
        }
        i += 1;
    }
    assert(all.take(i as int) =~= all);
    Ok(hops)
}

/// A list of descriptors that fails on a beginning of itself fails in the
/// same way as a whole.
pub proof fn lemma_first_failure(descriptors: Seq<Option<Seq<char>>>, n: int)
    requires
        0 <= n <= descriptors.len(),
        parsed_hops(descriptors.take(n)) is Err,
    ensures
        parsed_hops(descriptors) == parsed_hops(descriptors.take(n)),
    decreases descriptors.len() - n,
{
    if n < descriptors.len() {
        let longer = descriptors.take(n + 1);
        assert(longer.drop_last() =~= descriptors.take(n));
        lemma_first_failure(descriptors, n + 1);
    } else {
        assert(descriptors.take(n) =~= descriptors);
    }
}

/// The relay transport's state.
pub struct BrowserOnionTransport {
    has_socket: bool,
    circuits: Registry<OnionCircuit>,
    message_queue: VecDeque<Vec<u8>>,
    state: TransportState,
    relay_url: String,
    max_circuit_hops: u8,
    circuit_timeout_ms: u32,
    retry: ReconnectPolicy,
}

/// The model of [`BrowserOnionTransport`].
pub struct BrowserOnionTransportView {
    /// Whether the caller holds a socket to the relay.
    pub has_socket: bool,
    /// The circuits held, by identifier.
    pub circuits: Map<Seq<char>, OnionCircuitView>,
    /// Payloads that arrived and were not received yet, oldest first.
    pub queue: Seq<Seq<u8>>,
    pub state: TransportState,
    pub config: BrowserTransportConfigView,
    /// Reconnection attempts since the last open.
    pub reconnect_attempts: u32,
}

/// A circuit that was just asked for: its hops, and no key yet.
pub open spec fn fresh_circuit(id: Seq<char>, hops: Seq<OnionHopView>) -> OnionCircuitView {
    OnionCircuitView { circuit_id: id, hops, encryption_keys: Seq::empty() }
}

/// The state with a fresh circuit of `hops` under the identifier `id`.
pub open spec fn with_circuit(
    before: BrowserOnionTransportView,
    id: Seq<char>,
    hops: Seq<OnionHopView>,
) -> BrowserOnionTransportView {
    BrowserOnionTransportView {
        circuits: before.circuits.insert(id, fresh_circuit(id, hops)),
        ..before
    }
}

/// `after` is `before` with a fresh circuit of `hops` under the identifier
/// `id`, which named no circuit before, and nothing else changed. So every
/// circuit that was held is still held, as it was.
pub open spec fn circuit_stored(
    before: BrowserOnionTransportView,
    after: BrowserOnionTransportView,
    id: Seq<char>,
    hops: Seq<OnionHopView>,
) -> bool {
    &&& id.len() == 36
    &&& !before.circuits.contains_key(id)
    &&& after == with_circuit(before, id, hops)
}

/// A circuit is held under the identifier `id` of the length that is drawn
/// for new circuits.
pub open spec fn holds_identifier(before: BrowserOnionTransportView, id: Seq<char>) -> bool {
    id.len() == 36 && before.circuits.contains_key(id)
}

/// Some identifier that could be drawn for a new circuit is in use.
pub open spec fn identifier_taken(before: BrowserOnionTransportView) -> bool {
    exists|id: Seq<char>| holds_identifier(before, id)
}

/// Storing a circuit never lets go of one: every circuit held before is held
/// afterwards, unchanged, and the new one stands under its identifier.
pub proof fn lemma_stored_keeps_circuits(
    before: BrowserOnionTransportView,
    after: BrowserOnionTransportView,
    id: Seq<char>,
    hops: Seq<OnionHopView>,
)
    requires
        circuit_stored(before, after, id, hops),
    ensures
        after.circuits.contains_key(id),
        after.circuits[id] == fresh_circuit(id, hops),
        forall|held: Seq<char>| #[trigger]
            before.circuits.contains_key(held) ==> after.circuits.contains_key(held)
                && after.circuits[held] == before.circuits[held],
{
}

/// `after` is `before` with a fresh circuit of `hops` under some identifier.
pub open spec fn some_circuit_stored(
    before: BrowserOnionTransportView,
    after: BrowserOnionTransportView,
    hops: Seq<OnionHopView>,
) -> bool {
    exists|id: Seq<char>| circuit_stored(before, after, id, hops)
}

/// The state without the circuit `id`.
pub open spec fn torn_down(before: BrowserOnionTransportView, id: Seq<char>) -> BrowserOnionTransportView {
    BrowserOnionTransportView { circuits: before.circuits.remove(id), ..before }
}

/// The state with nothing held: no circuit, no payload.
pub open spec fn emptied(before: BrowserOnionTransportView) -> BrowserOnionTransportView {
    BrowserOnionTransportView { circuits: Map::empty(), queue: Seq::empty(), ..before }
}

/// What a frame from the relay does to the state: data joins the queue, a
/// teardown in either direction drops the circuit it names, and every other
/// frame leaves the state as it is.
pub open spec fn after_message(
    before: BrowserOnionTransportView,
    message: OnionMessageView,
) -> BrowserOnionTransportView {
    match message {
        OnionMessageView::DataReceived { circuit_id, data } => BrowserOnionTransportView {
            queue: before.queue.push(data),
            ..before
        },
        OnionMessageView::CircuitTornDown { circuit_id } => torn_down(before, circuit_id),
        OnionMessageView::TearDownCircuit { circuit_id } => torn_down(before, circuit_id),
        _ => before,
    }
}

/// What sending through, or tearing down, a circuit answers with a socket
/// (`frame`) and without (`NotConnected`).
pub open spec fn sent(has_socket: bool, frame: OnionMessageView) -> Result<
    OnionMessageView,
    OnionErrorView,
> {
    if has_socket {
        Ok(frame)
    } else {
        Err(OnionErrorView::NotConnected)
    }
}

/// Tearing a circuit down twice leaves what tearing it down once leaves, and
/// the second call answers as the first did.
pub proof fn lemma_teardown_idempotent(before: BrowserOnionTransportView, id: Seq<char>)
    ensures
        torn_down(torn_down(before, id), id) == torn_down(before, id),
        !torn_down(before, id).circuits.contains_key(id),
        torn_down(before, id).has_socket == before.has_socket,
{
    assert(before.circuits.remove(id).remove(id) =~= before.circuits.remove(id));
}

impl View for BrowserOnionTransport {
    type V = BrowserOnionTransportView;

    closed spec fn view(&self) -> BrowserOnionTransportView {
        BrowserOnionTransportView {
            has_socket: self.has_socket,
            circuits: self.circuits@.map_values(|c: OnionCircuit| c@),
            queue: payloads(self.message_queue@),
            state: self.state,
            config: BrowserTransportConfigView {
                relay_url: self.relay_url@,
                max_circuit_hops: self.max_circuit_hops,
                circuit_timeout_ms: self.circuit_timeout_ms,
                max_reconnect_attempts: self.retry@.max_attempts,
                reconnect_delay_ms: self.retry@.delay_ms,
            },
            reconnect_attempts: self.retry@.attempts,
        }
    }
}

impl BrowserOnionTransport {
    /// What every transport satisfies: each circuit is held under its own
    /// identifier, so no two circuits held share one.
    pub closed spec fn wf(&self) -> bool {
        &&& self.circuits.wf()
        &&& forall|id: Seq<char>| #[trigger]
            self.circuits@.contains_key(id) ==> self.circuits@[id].circuit_id@ == id
    }

    /// Each circuit of a transport carries the identifier it is held under.
    pub proof fn lemma_circuits_keyed_by_id(&self)
        requires
            self.wf(),
        ensures
            forall|id: Seq<char>| #[trigger]
                self@.circuits.contains_key(id) ==> self@.circuits[id].circuit_id == id,
    {
    }

    /// A transport for the relay at `relay_url` under the usual limits:
    /// disconnected, without socket, holding nothing.
    pub fn new(relay_url: String, max_reconnect_attempts: u32) -> (t: BrowserOnionTransport)
        ensures
            t.wf(),
            t@ == (BrowserOnionTransportView {
                has_socket: false,
                circuits: Map::empty(),
                queue: Seq::empty(),
                state: TransportState::Disconnected,
                config: BrowserTransportConfigView {
                    relay_url: relay_url@,
                    max_circuit_hops: 3,
                    circuit_timeout_ms: 30000,
                    max_reconnect_attempts,
                    reconnect_delay_ms: 1000,
                },
                reconnect_attempts: 0,
            }),
    {
        let config = BrowserTransportConfig::new(relay_url).with_reconnect_attempts(
            max_reconnect_attempts,
        );
        BrowserOnionTransport::with_config(config)
    }

    /// A transport under `config`: disconnected, without socket, holding
    /// nothing.
    pub fn with_config(config: BrowserTransportConfig) -> (t: BrowserOnionTransport)
        ensures
            t.wf(),
            t@ == (BrowserOnionTransportView {
                has_socket: false,
                circuits: Map::empty(),
                queue: Seq::empty(),
                state: TransportState::Disconnected,
                config: config@,
                reconnect_attempts: 0,
            }),
    {
        let t = BrowserOnionTransport {
            has_socket: false,
            circuits: Registry::new(),
            message_queue: VecDeque::new(),
            state: TransportState::Disconnected,
            relay_url: config.relay_url,
            max_circuit_hops: config.max_circuit_hops,
            circuit_timeout_ms: config.circuit_timeout_ms,
            retry: ReconnectPolicy::new(config.max_reconnect_attempts, config.reconnect_delay_ms),
        };
        assert(payloads(t.message_queue@) =~= Seq::<Seq<u8>>::empty());
        assert(t@.circuits =~= Map::<Seq<char>, OnionCircuitView>::empty());
        t
    }

    /// The configuration this transport runs under.
    pub fn config(&self) -> (c: BrowserTransportConfig)
        ensures
            c@ == self@.config,
    {
        BrowserTransportConfig {
            relay_url: self.relay_url.clone(),
            max_circuit_hops: self.max_circuit_hops,
            circuit_timeout_ms: self.circuit_timeout_ms,
            max_reconnect_attempts: self.retry.max_attempts(),
            reconnect_delay_ms: self.retry.delay_ms(),
        }
    }

    /// The address at which the caller opens the socket to the relay.
    pub fn connect_url(&self) -> (r: String)
        ensures
            r@ == converted_relay_url(self@.config.relay_url),
    {
        convert_relay_url(self.relay_url.as_str())
    }

    /// Takes note of the socket the caller made at `connect_url()`. With a
    /// socket the transport is connecting; a socket that could not be made
    /// changes nothing and is reported.
    pub fn connect(&mut self, socket: Result<(), String>) -> (r: Result<(), OnionError>)
        ensures
            final(self).wf() == old(self).wf(),
            match socket {
                Ok(_) => r is Ok && final(self)@ == (BrowserOnionTransportView {
                    has_socket: true,
                    state: TransportState::Connecting,
                    ..old(self)@
                }),
                Err(why) => r matches Err(e) && e@ == OnionErrorView::Socket(why@) && final(self)@
                    == old(self)@,
            },
    {
        match socket {
            Ok(_) => {
                self.state = TransportState::Connecting;
                self.has_socket = true;
                Ok(())
            },
            Err(why) => Err(OnionError::Socket(why)),
        }
    }

    /// Stores a fresh circuit of `hops` under the identifier `circuit_id` and
    /// answers with the `BuildCircuit` frame to send.
    ///
    /// An identifier under which a circuit is held is refused, and nothing
    /// changes: a circuit ends by teardown or disconnect, never by another
    /// taking its place. Otherwise the circuit is stored, with no keys.
    /// Without a socket it stays stored and the call answers `NotConnected`.
    pub fn store_circuit(&mut self, circuit_id: String, hops: Vec<OnionHop>) -> (r: Result<
        OnionMessage,
        OnionError,
    >)
        requires
            old(self).wf(),
        ensures
            final(self).wf(),
            old(self)@.circuits.contains_key(circuit_id@) ==> (r matches Err(x) && x@
                == OnionErrorView::IdentifierInUse && final(self)@ == old(self)@),
            !old(self)@.circuits.contains_key(circuit_id@) ==> final(self)@ == with_circuit(
                old(self)@,
                circuit_id@,
                hops.deep_view(),
            ) && match sent(
                old(self)@.has_socket,
                OnionMessageView::BuildCircuit { circuit_id: circuit_id@, hops: hops.deep_view() },
            ) {
                Ok(frame) => r matches Ok(m) && m@ == frame,
                Err(e) => r matches Err(x) && x@ == e,
            },
    {
        if self.circuits.contains_key(circuit_id.as_str()) {
            return Err(OnionError::IdentifierInUse);
        }
        let encryption_keys: Vec<Vec<u8>> = Vec::new();
        assert(payloads(encryption_keys@) =~= Seq::<Seq<u8>>::empty());
        let circuit = OnionCircuit {
            circuit_id: circuit_id.clone(),
            hops: clone_hops(&hops),
            encryption_keys,
        };
        let ghost held = self.circuits@;
        self.circuits.insert(circuit_id.clone(), circuit);
        proof {
            assert(self.circuits@ == held.insert(circuit_id@, circuit));
            assert(self@.circuits =~= old(self)@.circuits.insert(
                circuit_id@,
                fresh_circuit(circuit_id@, hops.deep_view()),
            ));
        }
        if self.has_socket {
            Ok(OnionMessage::BuildCircuit { circuit_id, hops })
        } else {
            Err(OnionError::NotConnected)
        }
    }

    /// Asks for a circuit through the hops that `hops` describes.
    ///
    /// The descriptors are read first, in order; the first that is no hop
    /// ends the call with its complaint, and nothing is stored or sent.
    /// Otherwise an identifier is drawn and a fresh circuit with these hops
    /// and no keys is stored under it, beside the circuits already held. With
    /// a socket the call answers with that identifier and the `BuildCircuit`
    /// frame to send; without one the circuit stays stored and the call
    /// answers `NotConnected`. Should the identifier drawn name a circuit
    /// that is held, nothing is stored and the call answers
    /// `IdentifierInUse`; that cannot happen while no circuit is held.
    pub fn build_circuit(&mut self, hops: Vec<Option<String>>) -> (r: Result<
        (String, OnionMessage),
        OnionError,
    >)
        requires
            old(self).wf(),
        ensures
            final(self).wf(),
            match parsed_hops(descriptor_views(hops@)) {
                Err(e) => r matches Err(x) && x@ == e && final(self)@ == old(self)@,
                Ok(route) => {
                    ||| (r matches Err(x) && x@ == OnionErrorView::IdentifierInUse && final(self)@
                        == old(self)@ && identifier_taken(old(self)@))
                    ||| (r matches Ok(pair) && old(self)@.has_socket && circuit_stored(
                        old(self)@,
                        final(self)@,
                        pair.0@,
                        route,
                    ) && pair.1@ == (OnionMessageView::BuildCircuit {
                        circuit_id: pair.0@,
                        hops: route,
                    }))
                    ||| (r matches Err(x) && !old(self)@.has_socket && x@
                        == OnionErrorView::NotConnected && some_circuit_stored(
                        old(self)@,
                        final(self)@,
                        route,
                    ))
                },
            },
    {
        let onion_hops = match parse_hops(&hops) {
            Err(e) => {
                return Err(e);
            },
            Ok(v) => v,
        };
        let ghost route = onion_hops.deep_view();
        let circuit_id = fresh_uuid();
        let stored = self.store_circuit(circuit_id.clone(), onion_hops);
        proof {
            if old(self)@.circuits.contains_key(circuit_id@) {
                assert(holds_identifier(old(self)@, circuit_id@));
            } else {
                assert(circuit_stored(old(self)@, self@, circuit_id@, route));
            }
        }
        match stored {
            Ok(frame) => Ok((circuit_id, frame)),
            Err(e) => Err(e),
        }
    }

    /// The frame that forwards `data` through the circuit `circuit_id`:
    /// `CircuitNotFound` for a circuit that is not held, `NotConnected`
    /// without a socket.
    pub fn send_through_circuit(&self, circuit_id: &str, data: &[u8]) -> (r: Result<
        OnionMessage,
        OnionError,
    >)
        requires
            self.wf(),
        ensures
            !self@.circuits.contains_key(circuit_id@) ==> (r matches Err(e) && e@
                == OnionErrorView::CircuitNotFound),
            self@.circuits.contains_key(circuit_id@) ==> match sent(
                self@.has_socket,
                OnionMessageView::ForwardData { circuit_id: circuit_id@, data: data@ },
            ) {
                Ok(frame) => r matches Ok(m) && m@ == frame,
                Err(e) => r matches Err(x) && x@ == e,
            },
    {
        if !self.circuits.contains_key(circuit_id) {
            return Err(OnionError::CircuitNotFound);
        }
        if self.has_socket {
            Ok(
                OnionMessage::ForwardData {
                    circuit_id: circuit_id.to_owned(),
                    data: vstd::slice::slice_to_vec(data),
                },
            )
        } else {
            Err(OnionError::NotConnected)
        }
    }

    /// The oldest payload that arrived, if any, whichever circuit it came
    /// out of.
    pub fn receive_from_circuit(&mut self, circuit_id: &str) -> (r: Option<Vec<u8>>)
        ensures
            final(self).wf() == old(self).wf(),
            old(self)@.queue.len() == 0 ==> r is None && final(self)@ == old(self)@,
            old(self)@.queue.len() > 0 ==> (r matches Some(data) && data@ == old(self)@.queue[0]
                && final(self)@ == (BrowserOnionTransportView {
                queue: old(self)@.queue.drop_first(),
                ..old(self)@
            })),
    {
        let r = self.message_queue.pop_front();
        assert(r is Some ==> payloads(self.message_queue@) =~= payloads(
            old(self).message_queue@,
        ).drop_first());
        r
    }

    /// Lets go of the circuit `circuit_id`, held or not, and answers with
    /// the `TearDownCircuit` frame to send, or `NotConnected` without a
    /// socket.
    pub fn teardown_circuit(&mut self, circuit_id: &str) -> (r: Result<OnionMessage, OnionError>)
        requires
            old(self).wf(),
        ensures
            final(self).wf(),
            final(self)@ == torn_down(old(self)@, circuit_id@),
            match sent(
                old(self)@.has_socket,
                OnionMessageView::TearDownCircuit { circuit_id: circuit_id@ },
            ) {
                Ok(frame) => r matches Ok(m) && m@ == frame,
                Err(e) => r matches Err(x) && x@ == e,
            },
    {
        self.circuits.remove(circuit_id);
        assert(self@.circuits =~= old(self)@.circuits.remove(circuit_id@));
        if self.has_socket {
            Ok(OnionMessage::TearDownCircuit { circuit_id: circuit_id.to_owned() })
        } else {
            Err(OnionError::NotConnected)
        }
    }

    /// Lets go of the socket and of everything held: disconnected, no
    /// circuit, no payload, attempts at zero.
    pub fn disconnect(&mut self)
        ensures
            final(self).wf(),
            final(self)@ == (BrowserOnionTransportView {
                has_socket: false,
                state: TransportState::Disconnected,
                reconnect_attempts: 0,
                ..emptied(old(self)@)
            }),
    {
        self.state = TransportState::Disconnected;
        self.has_socket = false;
        self.drop_everything();
        self.retry.reset();
    }

    /// Drops every circuit and every payload.
    fn drop_everything(&mut self)
        ensures
            final(self).wf(),
            final(self)@ == emptied(old(self)@),
    {
        self.circuits.clear();
        self.message_queue.clear();
        assert(payloads(self.message_queue@) =~= Seq::<Seq<u8>>::empty());
        assert(self@.circuits =~= Map::<Seq<char>, OnionCircuitView>::empty());
    }

    /// The socket's state.
    pub fn get_state(&self) -> (s: TransportState)
        ensures
            s == self@.state,
    {
        self.state
    }

    /// Whether the socket is open.
    pub fn is_connected(&self) -> (b: bool)
        ensures
            b == (self@.state == TransportState::Connected),
    {
        self.state == TransportState::Connected
    }

    /// How many reconnection attempts were made since the last open: in
    /// every state at most the configured maximum.
    pub fn reconnect_attempts(&self) -> (n: u32)
        ensures
            n == self@.reconnect_attempts,
            n <= self@.config.max_reconnect_attempts,
    {
        self.retry.attempts()
    }

    /// The socket opened: connected, and the attempts start again from zero.
    pub fn on_open(&mut self)
        ensures
            final(self).wf() == old(self).wf(),
            final(self)@ == (BrowserOnionTransportView {
                state: TransportState::Connected,
                reconnect_attempts: 0,
                ..old(self)@
            }),
    {
        self.state = TransportState::Connected;
        self.retry.reset();
    }

    /// A frame arrived from the relay.
    pub fn on_message(&mut self, message: OnionMessage)
        requires
            old(self).wf(),
        ensures
            final(self).wf(),
            final(self)@ == after_message(old(self)@, message@),
    {
        match message {
            OnionMessage::DataReceived { circuit_id, data } => {
                let ghost bytes = data@;
                self.message_queue.push_back(data);
                assert(payloads(self.message_queue@) =~= payloads(old(self).message_queue@).push(
                    bytes,
                ));
            },
            OnionMessage::CircuitTornDown { circuit_id } => {
                self.circuits.remove(circuit_id.as_str());
                assert(self@.circuits =~= old(self)@.circuits.remove(circuit_id@));
            },
            OnionMessage::TearDownCircuit { circuit_id } => {
                self.circuits.remove(circuit_id.as_str());
                assert(self@.circuits =~= old(self)@.circuits.remove(circuit_id@));
            },
            _ => {},
        }
    }

    /// The socket failed: everything held is dropped.
    pub fn on_error(&mut self)
        ensures
            final(self).wf(),
            final(self)@ == (BrowserOnionTransportView {
                state: TransportState::Error,
                ..emptied(old(self)@)
            }),
    {
        self.state = TransportState::Error;
        self.drop_everything();
    }

    /// The socket closed: disconnected, and everything held is dropped. While
    /// the attempts made are under the maximum, one more is counted and the
    /// caller is told to try again after the configured delay; after that the
    /// caller is told to give up.
    pub fn on_close(&mut self) -> (r: Reconnect)
        ensures
            final(self).wf(),
            final(self)@ == (BrowserOnionTransportView {
                state: TransportState::Disconnected,
                reconnect_attempts: after_close(
                    old(self)@.reconnect_attempts,
                    old(self)@.config.max_reconnect_attempts,
                    old(self)@.config.reconnect_delay_ms,
                ).0,
                ..emptied(old(self)@)
            }),
            r == after_close(
                old(self)@.reconnect_attempts,
                old(self)@.config.max_reconnect_attempts,
                old(self)@.config.reconnect_delay_ms,
            ).1,
            final(self)@.reconnect_attempts <= final(self)@.config.max_reconnect_attempts,
    {
        self.state = TransportState::Disconnected;
        self.drop_everything();
        self.retry.on_close()
    }
}

} // verus!
