//! The native transport's table of connected peers.
//!
//! The swarm itself, with its sockets, relay and hole punching, belongs to
//! the caller. What stands here is what the event loop decides: which peers
//! count as connected, at which addresses, and what is worth a log line.
//! Identities and addresses pass through as text.

use crate::registry::Registry;
use crate::text::{clone_strings, concat2};
use vstd::prelude::*;
use vstd::string::*;

verus! {

/// An event of one of the swarm's protocols, with what it printed.
#[derive(Debug, PartialEq, Eq)]
pub enum NativeSwarmEvent {
    /// Liveness probing.
    Ping(String),
    /// Relay-assisted reachability.
    Relay(String),
    /// Upgrade to a direct connection through a relay.
    Dcutr(String),
}

/// An event of the swarm, as the event loop sees it.
#[derive(Debug, PartialEq, Eq)]
pub enum TransportEvent {
    /// The swarm listens on a new address.
    NewListenAddr { address: String },
    /// One of the protocols reports.
    Behaviour(NativeSwarmEvent),
    /// A connection to `peer_id` stands, at `address`.
    ConnectionEstablished { peer_id: String, address: String },
    /// A connection to `peer_id` closed.
    ConnectionClosed { peer_id: String },
    /// Someone connects.
    IncomingConnection,
    /// Someone failed to connect.
    IncomingConnectionError,
    /// The swarm dials.
    Dialing,
    /// A dial failed.
    OutgoingConnectionError,
    /// An event this table knows nothing of.
    Other,
}

/// How loud a log line is.
#[derive(Debug, Clone, Copy, PartialEq, Eq, Structural)]
pub enum Level {
    Debug,
    Info,
    Warn,
    Error,
}

/// What the caller logs for an event: `None` for nothing.
pub open spec fn log_level(event: TransportEvent) -> Option<Level> {
    match event {
        TransportEvent::NewListenAddr { .. } => Some(Level::Info),
        TransportEvent::Behaviour(_) => Some(Level::Debug),
        TransportEvent::ConnectionEstablished { .. } => Some(Level::Info),
        TransportEvent::ConnectionClosed { .. } => Some(Level::Warn),
        TransportEvent::IncomingConnection => Some(Level::Debug),
        TransportEvent::IncomingConnectionError => Some(Level::Error),
        TransportEvent::Dialing => Some(Level::Debug),
        TransportEvent::OutgoingConnectionError => Some(Level::Error),
        TransportEvent::Other => None,
    }
}

/// What an event does to the table: a connection adds its address to the
/// peer's addresses, a close forgets the peer, and nothing else changes it.
pub open spec fn after_event(
    peers: Map<Seq<char>, Seq<Seq<char>>>,
    event: TransportEvent,
) -> Map<Seq<char>, Seq<Seq<char>>> {
    match event {
        TransportEvent::ConnectionEstablished { peer_id, address } => peers.insert(
            peer_id@,
            if peers.contains_key(peer_id@) {
                peers[peer_id@].push(address@)
            } else {
                seq![address@]
            },
        ),
        TransportEvent::ConnectionClosed { peer_id } => peers.remove(peer_id@),
        _ => peers,
    }
}

/// What can go wrong in the native transport, each with the words of the
/// library underneath.
#[derive(Debug, PartialEq, Eq)]
pub enum NativeP2PError {
    Transport(String),
    Swarm(String),
    Dial(String),
    DialError(String),
    NoiseError(String),
    Infallible,
    Io(String),
    Noise(String),
}

/// The model of [`NativeP2PError`].
pub enum NativeP2PErrorView {
    Transport(Seq<char>),
    Swarm(Seq<char>),
    Dial(Seq<char>),
    DialError(Seq<char>),
    NoiseError(Seq<char>),
    Infallible,
    Io(Seq<char>),
    Noise(Seq<char>),
}

impl NativeP2PErrorView {
    /// The error as a line of text.
    pub open spec fn text(self) -> Seq<char> {
        match self {
            NativeP2PErrorView::Transport(d) => "Transport error: "@ + d,
            NativeP2PErrorView::Swarm(d) => "Swarm error: "@ + d,
            NativeP2PErrorView::Dial(d) => "Dial error: "@ + d,
            NativeP2PErrorView::DialError(d) => "Dial error: "@ + d,
            NativeP2PErrorView::NoiseError(d) => "Noise error: "@ + d,
            NativeP2PErrorView::Infallible => "Infallible error"@,
            NativeP2PErrorView::Io(d) => "IO error: "@ + d,
            NativeP2PErrorView::Noise(d) => "Noise error: "@ + d,
        }
    }
}

impl View for NativeP2PError {
    type V = NativeP2PErrorView;

    open spec fn view(&self) -> NativeP2PErrorView {
        match self {
            NativeP2PError::Transport(d) => NativeP2PErrorView::Transport(d@),
            NativeP2PError::Swarm(d) => NativeP2PErrorView::Swarm(d@),
            NativeP2PError::Dial(d) => NativeP2PErrorView::Dial(d@),
            NativeP2PError::DialError(d) => NativeP2PErrorView::DialError(d@),
            NativeP2PError::NoiseError(d) => NativeP2PErrorView::NoiseError(d@),
            NativeP2PError::Infallible => NativeP2PErrorView::Infallible,
            NativeP2PError::Io(d) => NativeP2PErrorView::Io(d@),
            NativeP2PError::Noise(d) => NativeP2PErrorView::Noise(d@),
        }
    }
}

impl NativeP2PError {
    /// The error as a line of text.
    pub fn to_string(&self) -> (s: String)
        ensures
            s@ == self@.text(),
    {
        match self {
            NativeP2PError::Transport(d) => concat2("Transport error: ", d.as_str()),
            NativeP2PError::Swarm(d) => concat2("Swarm error: ", d.as_str()),
            NativeP2PError::Dial(d) => concat2("Dial error: ", d.as_str()),
            NativeP2PError::DialError(d) => concat2("Dial error: ", d.as_str()),
            NativeP2PError::NoiseError(d) => concat2("Noise error: ", d.as_str()),
            NativeP2PError::Infallible => "Infallible error".to_owned(),
            NativeP2PError::Io(d) => concat2("IO error: ", d.as_str()),
            NativeP2PError::Noise(d) => concat2("Noise error: ", d.as_str()),
        }
    }
}

/// The addresses of each entry of a table, as text.
pub open spec fn address_views(table: Map<Seq<char>, Vec<String>>) -> Map<
    Seq<char>,
    Seq<Seq<char>>,
> {
    table.map_values(|v: Vec<String>| v.deep_view())
}

/// The native transport's side of the event loop.
pub struct NativeP2PTransport {
    local_peer_id: String,
    connected_peers: Registry<Vec<String>>,
}

/// The model of [`NativeP2PTransport`].
pub struct NativeP2PTransportView {
    pub local_peer_id: Seq<char>,
    /// The peers that count as connected, each with the addresses at which
    /// connections to it were made, oldest first.
    pub peers: Map<Seq<char>, Seq<Seq<char>>>,
}

impl View for NativeP2PTransport {
    type V = NativeP2PTransportView;

    closed spec fn view(&self) -> NativeP2PTransportView {
        NativeP2PTransportView {
            local_peer_id: self.local_peer_id@,
            peers: address_views(self.connected_peers@),
        }
    }
}

impl NativeP2PTransport {
    /// What every transport satisfies: no peer stands in the table twice.
    pub closed spec fn wf(&self) -> bool {
        self.connected_peers.wf()
    }

    /// A transport for the identity `local_peer_id`, with no peer connected.
    pub fn new(local_peer_id: String) -> (t: NativeP2PTransport)
        ensures
            t.wf(),
            t@ == (NativeP2PTransportView { local_peer_id: local_peer_id@, peers: Map::empty() }),
    {
        let t = NativeP2PTransport { local_peer_id, connected_peers: Registry::new() };
        assert(t@.peers =~= Map::<Seq<char>, Seq<Seq<char>>>::empty());
        t
    }

    /// This transport's identity.
    pub fn local_peer_id(&self) -> (id: &str)
        ensures
            id@ == self@.local_peer_id,
    {
        self.local_peer_id.as_str()
    }

    /// One turn of the event loop: the table after `event`, and the level at
    /// which the caller logs it. Every event the swarm knows is logged; a
    /// protocol event that the table has no use for is logged too, at debug
    /// level; only an unknown event passes in silence.
    pub fn handle_event(&mut self, event: TransportEvent) -> (level: Option<Level>)
        requires
            old(self).wf(),
        ensures
            final(self).wf(),
            final(self)@ == (NativeP2PTransportView {
                peers: after_event(old(self)@.peers, event),
                ..old(self)@
            }),
            level == log_level(event),
    {
        match event {
            TransportEvent::NewListenAddr { address } => Some(Level::Info),
            TransportEvent::Behaviour(_) => Some(Level::Debug),
            TransportEvent::ConnectionEstablished { peer_id, address } => {
                let ghost before = self.connected_peers@;
                let ghost shown = address@;
                let mut addresses = match self.connected_peers.remove(peer_id.as_str()) {
                    Some(known) => known,
                    None => Vec::new(),
                };
                let ghost known = addresses.deep_view();
                addresses.push(address);
                assert(addresses.deep_view() =~= known.push(shown));
                self.connected_peers.insert(peer_id, addresses);
                proof {
                    assert(!before.contains_key(peer_id@) ==> known =~= Seq::<Seq<char>>::empty());
                    assert(known.push(shown) =~= if before.contains_key(peer_id@) {
                        before[peer_id@].deep_view().push(shown)
                    } else {
                        seq![shown]
                    });
                    assert(self.connected_peers@ =~= before.insert(peer_id@, addresses));
                    assert(self@.peers =~= after_event(old(self)@.peers, event));
                }
                Some(Level::Info)
            },
            TransportEvent::ConnectionClosed { peer_id } => {
                self.connected_peers.remove(peer_id.as_str());
                assert(self@.peers =~= after_event(old(self)@.peers, event));
                Some(Level::Warn)
            },
            TransportEvent::IncomingConnection => Some(Level::Debug),
            TransportEvent::IncomingConnectionError => Some(Level::Error),
            TransportEvent::Dialing => Some(Level::Debug),
            TransportEvent::OutgoingConnectionError => Some(Level::Error),
            TransportEvent::Other => None,
        }
    }

    /// The peers that count as connected, each once, in no order that a
    /// caller may rely on.
    pub fn connected_peers(&self) -> (r: Vec<String>)
        requires
            self.wf(),
        ensures
            r.deep_view().no_duplicates(),
            forall|id: Seq<char>| r.deep_view().contains(id) <==> self@.peers.contains_key(id),
    {
        self.connected_peers.keys()
    }

    /// Whether `peer_id` counts as connected.
    pub fn is_connected(&self, peer_id: &str) -> (b: bool)
        requires
            self.wf(),
        ensures
            b == self@.peers.contains_key(peer_id@),
    {
        self.connected_peers.contains_key(peer_id)
    }

    /// The addresses at which connections to `peer_id` were made, oldest
    /// first; none for a peer that does not count as connected.
    pub fn addresses_of(&self, peer_id: &str) -> (r: Vec<String>)
        requires
            self.wf(),
        ensures
            r.deep_view() == if self@.peers.contains_key(peer_id@) {
                self@.peers[peer_id@]
            } else {
                Seq::empty()
            },
    {
        match self.connected_peers.get(peer_id) {
            Some(known) => clone_strings(known),
            None => {
                let r: Vec<String> = Vec::new();
                assert(r.deep_view() =~= Seq::<Seq<char>>::empty());
                r
            },
        }
    }
}

} // verus!
