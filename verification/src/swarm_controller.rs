//! The swarm controller: one signaling client, the platform's transport
//! bounds, and the planning of onion circuits.
//!
//! The controller decides; the caller performs. A request method hands back
//! the frame to send, and the caller hands back what came of it.

use crate::shims::{fresh_uuid, shuffle};
use crate::signaling::{
    default_capabilities, delivers, normalized_url, Incoming, PeerCapabilities, PeerInfo,
    PeerInfoView, SignalingClient, SignalingClientView, SignalingError, SignalingErrorView,
    SignalingMessage, SignalingMessageView,
};
use crate::text::{concat2, concat3, decimal, decimal_string, same_text};
use std::collections::VecDeque;
use vstd::prelude::*;
use vstd::string::*;

verus! {

/// Where the controller runs.
#[derive(Debug, Clone, Copy, PartialEq, Eq, Structural)]
pub enum Platform {
    /// Raw sockets are at hand: direct peer connections.
    Native,
    /// No raw sockets: everything goes through a relay.
    WebAssembly,
}

impl Platform {
    /// The platform of a runtime that can (`true`) or cannot open raw sockets.
    pub fn detect(raw_sockets: bool) -> (p: Platform)
        ensures
            p == if raw_sockets {
                Platform::Native
            } else {
                Platform::WebAssembly
            },
    {
        if raw_sockets {
            Platform::Native
        } else {
            Platform::WebAssembly
        }
    }
}

/// What the transport of a platform can do, and how long its circuits may be.
#[derive(Debug, Clone, Copy, PartialEq, Eq, Structural)]
pub struct TransportCapabilities {
    pub supports_direct_p2p: bool,
    pub supports_nat_traversal: bool,
    pub supports_relay: bool,
    pub max_hops: u8,
    pub min_hops: u8,
}

/// The bounds of each platform: two to eight hops with direct transport,
/// three to six through a relay.
pub open spec fn capabilities_of(platform: Platform) -> TransportCapabilities {
    match platform {
        Platform::Native => TransportCapabilities {
            supports_direct_p2p: true,
            supports_nat_traversal: true,
            supports_relay: true,
            max_hops: 8,
            min_hops: 2,
        },
        Platform::WebAssembly => TransportCapabilities {
            supports_direct_p2p: false,
            supports_nat_traversal: false,
            supports_relay: true,
            max_hops: 6,
            min_hops: 3,
        },
    }
}

/// What can go wrong in the controller.
#[derive(Debug, PartialEq, Eq)]
pub enum SwarmControllerError {
    NotConnected,
    SignalingError(String),
    TransportError(String),
    InvalidCircuitConfig(String),
    NotEnoughPeers(String),
    CircuitError(String),
    Io(String),
}

/// The model of [`SwarmControllerError`].
pub enum SwarmControllerErrorView {
    NotConnected,
    SignalingError(Seq<char>),
    TransportError(Seq<char>),
    InvalidCircuitConfig(Seq<char>),
    NotEnoughPeers(Seq<char>),
    CircuitError(Seq<char>),
    Io(Seq<char>),
}

impl SwarmControllerErrorView {
    /// The error as a line of text.
    pub open spec fn text(self) -> Seq<char> {
        match self {
            SwarmControllerErrorView::NotConnected => "Not connected to swarm"@,
            SwarmControllerErrorView::SignalingError(d) => "Signaling error: "@ + d,
            SwarmControllerErrorView::TransportError(d) => "Transport error: "@ + d,
            SwarmControllerErrorView::InvalidCircuitConfig(d) => "Invalid circuit configuration: "@
                + d,
            SwarmControllerErrorView::NotEnoughPeers(d) => "Not enough peers available: "@ + d,
            SwarmControllerErrorView::CircuitError(d) => "Circuit error: "@ + d,
            SwarmControllerErrorView::Io(d) => "IO error: "@ + d,
        }
    }
}

impl View for SwarmControllerError {
    type V = SwarmControllerErrorView;

    open spec fn view(&self) -> SwarmControllerErrorView {
        match self {
            SwarmControllerError::NotConnected => SwarmControllerErrorView::NotConnected,
            SwarmControllerError::SignalingError(d) => SwarmControllerErrorView::SignalingError(d@),
            SwarmControllerError::TransportError(d) => SwarmControllerErrorView::TransportError(d@),
            SwarmControllerError::InvalidCircuitConfig(d) => {
                SwarmControllerErrorView::InvalidCircuitConfig(d@)
            },
            SwarmControllerError::NotEnoughPeers(d) => SwarmControllerErrorView::NotEnoughPeers(d@),
            SwarmControllerError::CircuitError(d) => SwarmControllerErrorView::CircuitError(d@),
            SwarmControllerError::Io(d) => SwarmControllerErrorView::Io(d@),
        }
    }
}

impl SwarmControllerError {
    /// The error as a line of text.
    pub fn to_string(&self) -> (s: String)
        ensures
            s@ == self@.text(),
    {
        match self {
            SwarmControllerError::NotConnected => "Not connected to swarm".to_owned(),
            SwarmControllerError::SignalingError(d) => concat2("Signaling error: ", d.as_str()),
            SwarmControllerError::TransportError(d) => concat2("Transport error: ", d.as_str()),
            SwarmControllerError::InvalidCircuitConfig(d) => concat2(
                "Invalid circuit configuration: ",
                d.as_str(),
            ),
            SwarmControllerError::NotEnoughPeers(d) => concat2(
                "Not enough peers available: ",
                d.as_str(),
            ),
            SwarmControllerError::CircuitError(d) => concat2("Circuit error: ", d.as_str()),
            SwarmControllerError::Io(d) => concat2("IO error: ", d.as_str()),
        }
    }
}

/// A signaling error as the controller reports it: `context`, a colon, and
/// the error's own line.
pub open spec fn signaling_failure(context: Seq<char>, e: SignalingErrorView) -> SwarmControllerErrorView {
    SwarmControllerErrorView::SignalingError(context + ": "@ + e.text())
}

/// The complaint about hop counts outside the platform's bounds.
pub open spec fn config_complaint(caps: TransportCapabilities) -> Seq<char> {
    "Hops must be between "@ + decimal(caps.min_hops as nat) + " and "@ + decimal(
        caps.max_hops as nat,
    )
}

/// The complaint about a room with too few peers for `max_hops` hops, where
/// `found` peers besides the target were discovered.
pub open spec fn peers_complaint(max_hops: u8, found: nat) -> Seq<char> {
    "Need at least "@ + decimal((max_hops - 1) as nat) + " peers for "@ + decimal(max_hops as nat)
        + "-hop circuit, found "@ + decimal(found)
}

/// Whether `min_hops` and `max_hops` both lie within the bounds `caps`.
pub open spec fn config_allowed(caps: TransportCapabilities, min_hops: u8, max_hops: u8) -> bool {
    &&& caps.min_hops <= min_hops <= caps.max_hops
    &&& caps.min_hops <= max_hops <= caps.max_hops
}

/// How many relays stand before the target in a circuit of `max_hops` hops.
pub open spec fn relay_count(max_hops: u8) -> nat {
    if max_hops >= 1 {
        (max_hops - 1) as nat
    } else {
        0
    }
}

/// The last hop of a circuit to `target`: a peer of that name of which
/// nothing else is known.
pub open spec fn target_hop(target: Seq<char>) -> PeerInfoView {
    PeerInfoView {
        peer_id: target,
        public_key: Seq::empty(),
        capabilities: default_capabilities(),
        last_seen: 0,
        addresses: Seq::empty(),
    }
}

/// The circuit through `candidates` in the order given: the first
/// `relay_count(max_hops)` of them, or all if there are fewer, then the
/// target.
pub open spec fn route(candidates: Seq<PeerInfoView>, target: Seq<char>, max_hops: u8) -> Seq<
    PeerInfoView,
> {
    let n = if relay_count(max_hops) <= candidates.len() {
        relay_count(max_hops) as int
    } else {
        candidates.len() as int
    };
    candidates.take(n).push(target_hop(target))
}

/// The peers that may relay a circuit to `target`: the discovered peers that
/// are not the target itself, in the order of discovery.
pub open spec fn candidates(peers: Seq<PeerInfoView>, target: Seq<char>) -> Seq<PeerInfoView>
    decreases peers.len(),
{
    if peers.len() == 0 {
        Seq::empty()
    } else if peers.last().peer_id != target {
        candidates(peers.drop_last(), target).push(peers.last())
    } else {
        candidates(peers.drop_last(), target)
    }
}

/// Candidates are discovered peers, none of them the target, and no more
/// than were discovered. Where the target was not discovered, every peer is a
/// candidate.
pub proof fn lemma_candidates(peers: Seq<PeerInfoView>, target: Seq<char>)
    ensures
        candidates(peers, target).len() <= peers.len(),
        forall|i: int|
            0 <= i < candidates(peers, target).len() ==> {
                &&& (#[trigger] candidates(peers, target)[i]).peer_id != target
                &&& peers.contains(candidates(peers, target)[i])
            },
        (forall|j: int| 0 <= j < peers.len() ==> (#[trigger] peers[j]).peer_id != target)
            ==> candidates(peers, target) == peers,
    decreases peers.len(),
{
    if peers.len() > 0 {
        let shorter = peers.drop_last();
        lemma_candidates(shorter, target);
        let found = candidates(peers, target);
        assert forall|i: int| 0 <= i < found.len() implies {
            &&& (#[trigger] found[i]).peer_id != target
            &&& peers.contains(found[i])
        } by {
            if i < candidates(shorter, target).len() {
                let c = candidates(shorter, target)[i];
                assert(found[i] == c);
                let j = choose|j: int| 0 <= j < shorter.len() && shorter[j] == c;
                assert(peers[j] == c);
            } else {
                assert(found[i] == peers[peers.len() - 1]);
            }
        }
        if forall|j: int| 0 <= j < peers.len() ==> (#[trigger] peers[j]).peer_id != target {
            assert forall|j: int| 0 <= j < shorter.len() implies (#[trigger] shorter[j]).peer_id
                != target by {
                assert(shorter[j] == peers[j]);
            }
            assert(peers[peers.len() - 1].peer_id != target);
            assert(candidates(peers, target) =~= peers);
        }
    }
}

/// `picks` names `picks.len()` different positions below `n`.
pub open spec fn is_selection(picks: Seq<int>, n: nat) -> bool {
    &&& picks.no_duplicates()
    &&& forall|i: int| 0 <= i < picks.len() ==> 0 <= #[trigger] picks[i] < n
}

/// `hops` is a circuit of `max_hops` hops to `target` whose relays are the
/// peers at the positions `picks`, all different, with the target last.
pub open spec fn routes_through(
    hops: Seq<PeerInfoView>,
    peers: Seq<PeerInfoView>,
    picks: Seq<int>,
    target: Seq<char>,
    max_hops: u8,
) -> bool {
    &&& picks.len() == relay_count(max_hops)
    &&& is_selection(picks, peers.len())
    &&& hops.len() == picks.len() + 1
    &&& forall|i: int| 0 <= i < picks.len() ==> #[trigger] hops[i] == peers[picks[i]]
    &&& hops.last() == target_hop(target)
}

/// `hops` is a circuit of `max_hops` hops to `target` through `peers`: its
/// relays are `max_hops - 1` peers from different positions of `peers`, in
/// any order, and the target comes last.
pub open spec fn is_route(
    hops: Seq<PeerInfoView>,
    peers: Seq<PeerInfoView>,
    target: Seq<char>,
    max_hops: u8,
) -> bool {
    exists|picks: Seq<int>| routes_through(hops, peers, picks, target, max_hops)
}

/// A planned circuit keeps to the platform's bounds. Where `min_hops` and
/// `max_hops` are allowed on a platform, a circuit of `max_hops` hops has
/// exactly `max_hops` hops, which is at least the platform's minimum and at
/// most its maximum.
pub proof fn lemma_route_within_bounds(
    platform: Platform,
    min_hops: u8,
    max_hops: u8,
    hops: Seq<PeerInfoView>,
    peers: Seq<PeerInfoView>,
    target: Seq<char>,
)
    requires
        config_allowed(capabilities_of(platform), min_hops, max_hops),
        is_route(hops, peers, target, max_hops),
    ensures
        hops.len() == max_hops,
        capabilities_of(platform).min_hops <= hops.len() <= capabilities_of(platform).max_hops,
{
}

/// The relays of a planned circuit are discovered peers, and the circuit ends
/// at the target.
pub proof fn lemma_route_through_peers(
    hops: Seq<PeerInfoView>,
    peers: Seq<PeerInfoView>,
    target: Seq<char>,
    max_hops: u8,
)
    requires
        is_route(hops, peers, target, max_hops),
    ensures
        hops.len() == relay_count(max_hops) + 1,
        relay_count(max_hops) <= peers.len(),
        hops.last().peer_id == target,
        forall|i: int| 0 <= i < hops.len() - 1 ==> peers.contains(#[trigger] hops[i]),
{
    let picks = choose|picks: Seq<int>| routes_through(hops, peers, picks, target, max_hops);
    assert forall|i: int| 0 <= i < hops.len() - 1 implies peers.contains(#[trigger] hops[i]) by {
        assert(hops[i] == peers[picks[i]]);
    }
    lemma_selection_fits(picks, peers.len());
}

/// No relay of a circuit planned through the candidates is the target: every
/// hop before the last is a discovered peer of another name.
pub proof fn lemma_relays_are_not_the_target(
    hops: Seq<PeerInfoView>,
    peers: Seq<PeerInfoView>,
    target: Seq<char>,
    max_hops: u8,
)
    requires
        is_route(hops, candidates(peers, target), target, max_hops),
    ensures
        forall|i: int|
            0 <= i < hops.len() - 1 ==> (#[trigger] hops[i]).peer_id != target && peers.contains(
                hops[i],
            ),
{
    let among = candidates(peers, target);
    let picks = choose|picks: Seq<int>| routes_through(hops, among, picks, target, max_hops);
    lemma_candidates(peers, target);
    assert forall|i: int| 0 <= i < hops.len() - 1 implies (#[trigger] hops[i]).peer_id != target
        && peers.contains(hops[i]) by {
        assert(hops[i] == among[picks[i]]);
    }
}

/// No more different positions can be named below `n` than `n`.
pub proof fn lemma_selection_fits(picks: Seq<int>, n: nat)
    requires
        is_selection(picks, n),
    ensures
        picks.len() <= n,
{
    let below = Set::new(|i: int| 0 <= i < n);
    assert(below =~= vstd::set_lib::set_int_range(0, n as int));
    vstd::set_lib::lemma_int_range(0, n as int);
    picks.unique_seq_to_set();
    assert(picks.to_set().subset_of(below)) by {
        assert forall|x: int| picks.to_set().contains(x) implies below.contains(x) by {
            let i = choose|i: int| 0 <= i < picks.len() && picks[i] == x;
            assert(0 <= picks[i] < n);
        }
    }
    vstd::set_lib::lemma_len_subset(picks.to_set(), below);
}

/// The name under which circuits are planned: `circuit_` and an identifier.
pub open spec fn is_circuit_id(id: Seq<char>) -> bool {
    "circuit_"@.is_prefix_of(id) && id.len() == "circuit_"@.len() + 36
}

/// The room in which peers for a circuit are sought.
pub const CIRCUIT_ROOM: &'static str = "default";

/// A planned circuit: its name and its hops, the target last.
#[derive(Debug, PartialEq, Eq)]
pub struct CircuitPlan {
    pub circuit_id: String,
    pub hops: Vec<PeerInfo>,
}

/// A byte stream bound to one circuit.
pub struct OnionStream {
    circuit_id: String,
    read_buffer: VecDeque<u8>,
    write_buffer: VecDeque<u8>,
}

/// The model of [`OnionStream`].
pub struct OnionStreamView {
    pub circuit_id: Seq<char>,
    /// Bytes that arrived and were not read yet, oldest first.
    pub readable: Seq<u8>,
    /// Bytes that were written and not sent yet, oldest first.
    pub written: Seq<u8>,
}

impl View for OnionStream {
    type V = OnionStreamView;

    closed spec fn view(&self) -> OnionStreamView {
        OnionStreamView {
            circuit_id: self.circuit_id@,
            readable: self.read_buffer@,
            written: self.write_buffer@,
        }
    }
}

impl OnionStream {
    /// An empty stream for the circuit `circuit_id`.
    pub fn new(circuit_id: String) -> (s: OnionStream)
        ensures
            s@ == (OnionStreamView {
                circuit_id: circuit_id@,
                readable: Seq::empty(),
                written: Seq::empty(),
            }),
    {
        OnionStream { circuit_id, read_buffer: VecDeque::new(), write_buffer: VecDeque::new() }
    }

    /// The circuit this stream belongs to.
    pub fn circuit_id(&self) -> (id: &str)
        ensures
            id@ == self@.circuit_id,
    {
        self.circuit_id.as_str()
    }

    /// Takes up to `capacity` bytes, oldest first, from what arrived.
    pub fn read(&mut self, capacity: usize) -> (data: Vec<u8>)
        ensures
            data@.len() == if capacity <= old(self)@.readable.len() {
                capacity as int
            } else {
                old(self)@.readable.len() as int
            },
            data@ == old(self)@.readable.take(data@.len() as int),
            final(self)@ == (OnionStreamView {
                readable: old(self)@.readable.skip(data@.len() as int),
                ..old(self)@
            }),
    {
        let mut data: Vec<u8> = Vec::new();
        let ghost all = self.read_buffer@;
        assert(all.skip(0) =~= all);
        while data.len() < capacity && self.read_buffer.len() > 0
            invariant
                data@.len() <= capacity,
                data@.len() <= all.len(),
                data@ == all.take(data@.len() as int),
                self.read_buffer@ == all.skip(data@.len() as int),
                self.circuit_id == old(self).circuit_id,
                self.write_buffer == old(self).write_buffer,
                all == old(self).read_buffer@,
            decreases self.read_buffer@.len(),
        {
            let ghost before = data@;
            let b = self.read_buffer.pop_front().unwrap();
            data.push(b);
            assert(data@ =~= all.take(data@.len() as int));
            assert(self.read_buffer@ =~= all.skip(data@.len() as int));
        }
        data
    }

    /// Queues `buf` for sending and says how many bytes were taken: all.
    pub fn write(&mut self, buf: &[u8]) -> (n: usize)
        ensures
            n == buf@.len(),
            final(self)@ == (OnionStreamView {
                written: old(self)@.written + buf@,
                ..old(self)@
            }),
    {
        let mut i: usize = 0;
        assert(self.write_buffer@ + buf@.take(0) =~= self.write_buffer@);
        while i < buf.len()
            invariant
                i <= buf.len(),
                self.write_buffer@ == old(self).write_buffer@ + buf@.take(i as int),
                self.circuit_id == old(self).circuit_id,
                self.read_buffer == old(self).read_buffer,
            decreases buf.len() - i,
        {
            self.write_buffer.push_back(buf[i]);
            i += 1;
            assert(self.write_buffer@ =~= old(self).write_buffer@ + buf@.take(i as int));
        }
        assert(buf@.take(i as int) =~= buf@);
        i
    }

    /// Hands bytes that arrived on the circuit to the reading side.
    pub fn deliver(&mut self, data: &[u8])
        ensures
            final(self)@ == (OnionStreamView {
                readable: old(self)@.readable + data@,
                ..old(self)@
            }),
    {
        let mut i: usize = 0;
        assert(self.read_buffer@ + data@.take(0) =~= self.read_buffer@);
        while i < data.len()
            invariant
                i <= data.len(),
                self.read_buffer@ == old(self).read_buffer@ + data@.take(i as int),
                self.circuit_id == old(self).circuit_id,
                self.write_buffer == old(self).write_buffer,
            decreases data.len() - i,
        {
            self.read_buffer.push_back(data[i]);
            i += 1;
            assert(self.read_buffer@ =~= old(self).read_buffer@ + data@.take(i as int));
        }
        assert(data@.take(i as int) =~= data@);
    }

    /// Takes everything that was written, oldest first, for sending.
    pub fn take_written(&mut self) -> (data: Vec<u8>)
        ensures
            data@ == old(self)@.written,
            final(self)@ == (OnionStreamView { written: Seq::empty(), ..old(self)@ }),
    {
        let mut data: Vec<u8> = Vec::new();
        let ghost all = self.write_buffer@;
        assert(all.skip(0) =~= all);
        while self.write_buffer.len() > 0
            invariant
                data@.len() <= all.len(),
                data@ == all.take(data@.len() as int),
                self.write_buffer@ == all.skip(data@.len() as int),
                self.circuit_id == old(self).circuit_id,
                self.read_buffer == old(self).read_buffer,
                all == old(self).write_buffer@,
            decreases self.write_buffer@.len(),
        {
            let b = self.write_buffer.pop_front().unwrap();
            data.push(b);
            assert(data@ =~= all.take(data@.len() as int));
            assert(self.write_buffer@ =~= all.skip(data@.len() as int));
        }
        assert(data@ =~= all);
        assert(self.write_buffer@ =~= Seq::<u8>::empty());
        data
    }
}

/// The controller: the platform, the signaling client if there is one, and
/// what was set at the last connect. It is connected exactly while it has a
/// signaling client.
pub struct SwarmController {
    platform: Platform,
    signaling_client: Option<SignalingClient>,
    local_peer_id: Option<String>,
}

/// The model of [`SwarmController`].
pub struct SwarmControllerView {
    pub platform: Platform,
    pub client: Option<SignalingClientView>,
    pub local_peer_id: Option<Seq<char>>,
}

impl SwarmControllerView {
    /// Whether the controller is connected: it has a signaling client. So a
    /// controller that is not connected answers every request for a frame
    /// with `NotConnected`, and a connected one with the frame.
    pub open spec fn is_connected(self) -> bool {
        self.client is Some
    }
}

impl View for SwarmController {
    type V = SwarmControllerView;

    closed spec fn view(&self) -> SwarmControllerView {
        SwarmControllerView {
            platform: self.platform,
            client: match self.signaling_client {
                Some(c) => Some(c@),
                None => None,
            },
            local_peer_id: match self.local_peer_id {
                Some(id) => Some(id@),
                None => None,
            },
        }
    }
}

/// A signaling result as the controller reports it: the value, or the error
/// under `context`.
fn in_context<T>(context: &str, outcome: Result<T, SignalingError>) -> (r: Result<
    T,
    SwarmControllerError,
>)
    ensures
        match outcome {
            Ok(v) => r == Ok::<T, SwarmControllerError>(v),
            Err(e) => r matches Err(x) && x@ == signaling_failure(context@, e@),
        },
{
    match outcome {
        Ok(v) => Ok(v),
        Err(e) => {
            let line = e.to_string();
            let text = concat3(context, ": ", line.as_str());
            Err(SwarmControllerError::SignalingError(text))
        },
    }
}

/// The complaint about hop counts outside `caps`, as text.
fn config_complaint_text(caps: &TransportCapabilities) -> (r: String)
    ensures
        r@ == config_complaint(*caps),
{
    let low = decimal_string(caps.min_hops as u64);
    let high = decimal_string(caps.max_hops as u64);
    let mut r = concat3("Hops must be between ", low.as_str(), " and ");
    r.append(high.as_str());
    r
}

/// The complaint about too few peers, as text.
fn peers_complaint_text(max_hops: u8, found: usize) -> (r: String)
    requires
        max_hops >= 1,
    ensures
        r@ == peers_complaint(max_hops, found as nat),
{
    let need = decimal_string((max_hops - 1) as u64);
    let hops = decimal_string(max_hops as u64);
    let have = decimal_string(found as u64);
    let mut r = concat3("Need at least ", need.as_str(), " peers for ");
    r.append(hops.as_str());
    r.append("-hop circuit, found ");
    r.append(have.as_str());
    r
}

/// The peers among `peers` that may relay a circuit to `target_peer`: those
/// of another name, in the order in which they stand.
pub fn relay_candidates(peers: Vec<PeerInfo>, target_peer: &str) -> (kept: Vec<PeerInfo>)
    ensures
        kept.deep_view() == candidates(peers.deep_view(), target_peer@),
{
    let ghost all = peers.deep_view();
    let ghost values = peers@;
    let mut kept: Vec<PeerInfo> = Vec::new();
    assert(all.take(0) =~= Seq::<PeerInfoView>::empty());
    assert(kept.deep_view() =~= Seq::<PeerInfoView>::empty());
    for peer in it: peers.into_iter()
        invariant
            it.seq() == values,
            all.len() == values.len(),
            forall|j: int| 0 <= j < values.len() ==> all[j] == (#[trigger] values[j])@,
            kept.deep_view() == candidates(all.take(it.index() as int), target_peer@),
    {
        let ghost upto = all.take(it.index() + 1);
        let ghost before = kept.deep_view();
        assert(upto.drop_last() =~= all.take(it.index() as int));
        assert(upto.last() == peer@);
        if !same_text(peer.peer_id.as_str(), target_peer) {
            kept.push(peer);
            assert(kept.deep_view() =~= before.push(peer@));
        }
    }
    assert(all.take(all.len() as int) =~= all);
    kept
}

/// The circuit to `target_peer` through `candidates` as they stand: the
/// first `max_hops - 1` of them, or all if there are fewer, then the target.
pub fn select_route(candidates: Vec<PeerInfo>, target_peer: &str, max_hops: u8) -> (hops: Vec<
    PeerInfo,
>)
    ensures
        hops.deep_view() == route(candidates.deep_view(), target_peer@, max_hops),
{
    let mut hops = candidates;
    let relays: usize = if max_hops >= 1 {
        (max_hops - 1) as usize
    } else {
        0
    };
    let ghost all = hops.deep_view();
    if relays < hops.len() {
        hops.truncate(relays);
    }
    let ghost kept = hops.deep_view();
    assert(kept =~= all.take(kept.len() as int));
    let public_key: Vec<u8> = Vec::new();
    let addresses: Vec<String> = Vec::new();
    assert(addresses.deep_view() =~= Seq::<Seq<char>>::empty());
    let target = PeerInfo {
        peer_id: target_peer.to_owned(),
        public_key,
        capabilities: PeerCapabilities::default(),
        last_seen: 0,
        addresses,
    };
    hops.push(target);
    assert(hops.deep_view() =~= kept.push(target_hop(target_peer@)));
    hops
}

impl SwarmController {
    /// A controller for the platform of a runtime that can (`true`) or cannot
    /// open raw sockets: not connected, no client, no peer id. The platform
    /// stays for the controller's life.
    pub fn new(raw_sockets: bool) -> (r: Result<SwarmController, SwarmControllerError>)
        ensures
            r matches Ok(c) && c@ == (SwarmControllerView {
                platform: if raw_sockets {
                    Platform::Native
                } else {
                    Platform::WebAssembly
                },
                client: None,
                local_peer_id: None,
            }) && !c@.is_connected(),
    {
        Ok(
            SwarmController {
                platform: Platform::detect(raw_sockets),
                signaling_client: None,
                local_peer_id: None,
            },
        )
    }

    /// The platform this controller was made for.
    pub fn platform(&self) -> (p: Platform)
        ensures
            p == self@.platform,
    {
        self.platform
    }

    /// The peer id given at the last connect, if any.
    pub fn local_peer_id(&self) -> (id: Option<String>)
        ensures
            match id {
                Some(s) => self@.local_peer_id == Some(s@),
                None => self@.local_peer_id is None,
            },
    {
        match &self.local_peer_id {
            Some(s) => Some(s.clone()),
            None => None,
        }
    }

    /// Whether the last connect succeeded and no disconnect followed: whether
    /// there is a signaling client.
    pub fn is_connected(&self) -> (b: bool)
        ensures
            b == self@.is_connected(),
            b == (self@.client is Some),
    {
        self.signaling_client.is_some()
    }

    /// The transport bounds of this controller's platform.
    pub fn transport_capabilities(&self) -> (caps: TransportCapabilities)
        ensures
            caps == capabilities_of(self@.platform),
    {
        match self.platform {
            Platform::Native => TransportCapabilities {
                supports_direct_p2p: true,
                supports_nat_traversal: true,
                supports_relay: true,
                max_hops: 8,
                min_hops: 2,
            },
            Platform::WebAssembly => TransportCapabilities {
                supports_direct_p2p: false,
                supports_nat_traversal: false,
                supports_relay: true,
                max_hops: 6,
                min_hops: 3,
            },
        }
    }

    /// Takes note of a connect to `signaling_url` as `local_peer_id`, once the
    /// caller has tried the handshake. The peer id is kept whatever came of
    /// it. A handshake that succeeded leaves a connected client; one that
    /// failed leaves client and connection flag as they were and is reported
    /// as a signaling error.
    pub fn connect(
        &mut self,
        signaling_url: &str,
        local_peer_id: String,
        handshake: Result<(), String>,
    ) -> (r: Result<(), SwarmControllerError>)
        ensures
            final(self)@.platform == old(self)@.platform,
            final(self)@.local_peer_id == Some(local_peer_id@),
            match handshake {
                Ok(_) => {
                    &&& r is Ok
                    &&& final(self)@.is_connected()
                    &&& final(self)@.client == Some(
                        SignalingClientView {
                            peer_id: local_peer_id@,
                            url: normalized_url(signaling_url@),
                            is_connected: true,
                        },
                    )
                },
                Err(why) => {
                    &&& r matches Err(e) && e@ == signaling_failure(
                        "Failed to connect to signaling server"@,
                        SignalingErrorView::ConnectionFailed(
                            "WebSocket connection failed: "@ + why@,
                        ),
                    )
                    &&& final(self)@.is_connected() == old(self)@.is_connected()
                    &&& final(self)@.client == old(self)@.client
                },
            },
    {
        self.local_peer_id = Some(local_peer_id.clone());
        let made = SignalingClient::connect(signaling_url, local_peer_id, handshake);
        match in_context("Failed to connect to signaling server", made) {
            Ok(client) => {
                self.signaling_client = Some(client);
                Ok(())
            },
            Err(e) => Err(e),
        }
    }

    /// The frame that joins `room_id`, or `NotConnected` without a client.
    pub fn join_room(&self, room_id: &str, capabilities: PeerCapabilities, now: u64) -> (r: Result<
        SignalingMessage,
        SwarmControllerError,
    >)
        ensures
            r is Ok <==> self@.is_connected(),
            match self@.client {
                Some(c) => r matches Ok(msg) && msg@ == (SignalingMessageView::Join {
                    room_id: room_id@,
                    peer_info: PeerInfoView {
                        peer_id: c.peer_id,
                        public_key: Seq::empty(),
                        capabilities: capabilities@,
                        last_seen: now,
                        addresses: Seq::empty(),
                    },
                }),
                None => r matches Err(e) && e@ == SwarmControllerErrorView::NotConnected,
            },
    {
        match &self.signaling_client {
            Some(client) => Ok(client.join_room(room_id, capabilities, now)),
            None => Err(SwarmControllerError::NotConnected),
        }
    }

    /// What a join came to, from what became of its frame.
    pub fn room_joined(sent: Result<(), SignalingError>) -> (r: Result<(), SwarmControllerError>)
        ensures
            match sent {
                Ok(_) => r is Ok,
                Err(e) => r matches Err(x) && x@ == signaling_failure("Failed to join room"@, e@),
            },
    {
        in_context("Failed to join room", sent)
    }

    /// The frame that asks for the peers of `room_id`, or `NotConnected`
    /// without a client.
    pub fn discover_peers(&self, room_id: &str) -> (r: Result<
        SignalingMessage,
        SwarmControllerError,
    >)
        ensures
            r is Ok <==> self@.is_connected(),
            match self@.client {
                Some(c) => r matches Ok(msg) && msg@ == (SignalingMessageView::Discover {
                    room_id: room_id@,
                }),
                None => r matches Err(e) && e@ == SwarmControllerErrorView::NotConnected,
            },
    {
        match &self.signaling_client {
            Some(client) => Ok(client.discover_peers(room_id)),
            None => Err(SwarmControllerError::NotConnected),
        }
    }

    /// What a discovery came to: the peers as the client read them, or its
    /// error as a signaling error of the controller.
    pub fn peers_discovered(found: Result<Vec<PeerInfo>, SignalingError>) -> (r: Result<
        Vec<PeerInfo>,
        SwarmControllerError,
    >)
        ensures
            match found {
                Ok(peers) => r == Ok::<Vec<PeerInfo>, SwarmControllerError>(peers),
                Err(e) => r matches Err(x) && x@ == signaling_failure(
                    "Failed to discover peers"@,
                    e@,
                ),
            },
    {
        in_context("Failed to discover peers", found)
    }

    /// The frame that asks the swarm of `room_id` for entropy, with the fresh
    /// identifier it carries, or `NotConnected` without a client.
    pub fn get_swarm_entropy(&self, room_id: &str) -> (r: Result<
        (SignalingMessage, String),
        SwarmControllerError,
    >)
        ensures
            r is Ok <==> self@.is_connected(),
            match self@.client {
                Some(c) => r matches Ok(pair) && pair.0@ == (SignalingMessageView::EntropyRequest {
                    room_id: room_id@,
                    request_id: pair.1@,
                }) && pair.1@.len() == 36,
                None => r matches Err(e) && e@ == SwarmControllerErrorView::NotConnected,
            },
    {
        match &self.signaling_client {
            Some(client) => Ok(client.get_swarm_entropy(room_id)),
            None => Err(SwarmControllerError::NotConnected),
        }
    }

    /// What an entropy request came to: the 32 bytes as the client read them,
    /// or its error as a signaling error of the controller.
    pub fn entropy_received(got: Result<[u8; 32], SignalingError>) -> (r: Result<
        [u8; 32],
        SwarmControllerError,
    >)
        ensures
            match got {
                Ok(bytes) => r == Ok::<[u8; 32], SwarmControllerError>(bytes),
                Err(e) => r matches Err(x) && x@ == signaling_failure(
                    "Failed to get swarm entropy"@,
                    e@,
                ),
            },
    {
        in_context("Failed to get swarm entropy", got)
    }

    /// One turn of the wait for a reply, taken by the signaling client:
    /// `Ok(None)` asks for the next frame. A close frame or the end of the
    /// stream marks the client disconnected; nothing else changes. Without a
    /// client the call answers `NotConnected`.
    pub fn receive_frame(&mut self, frame: Incoming) -> (r: Result<
        Option<Result<SignalingMessage, SignalingError>>,
        SwarmControllerError,
    >)
        ensures
            match old(self)@.client {
                Some(c) => {
                    &&& r matches Ok(got)
                    &&& delivers(got, frame.reply())
                    &&& final(self)@ == (SwarmControllerView {
                        client: Some(
                            SignalingClientView {
                                is_connected: c.is_connected && !frame.closes(),
                                ..c
                            },
                        ),
                        ..old(self)@
                    })
                },
                None => {
                    &&& r matches Err(e)
                    &&& e@ == SwarmControllerErrorView::NotConnected
                    &&& final(self)@ == old(self)@
                },
            },
    {
        match self.signaling_client.take() {
            Some(client) => {
                let mut client = client;
                let got = client.receive_frame(frame);
                self.signaling_client = Some(client);
                Ok(got)
            },
            None => Err(SwarmControllerError::NotConnected),
        }
    }

    /// Drops the signaling client, if any, and marks the controller
    /// disconnected. Platform and peer id stay.
    pub fn disconnect(&mut self) -> (r: Result<(), SwarmControllerError>)
        ensures
            r is Ok,
            final(self)@ == (SwarmControllerView {
                client: None,
                ..old(self)@
            }),
            !final(self)@.is_connected(),
    {
        self.signaling_client = None;
        Ok(())
    }

    /// Whether circuits of `min_hops` to `max_hops` hops may be built here:
    /// `InvalidCircuitConfig` exactly when one of the two lies outside the
    /// platform's bounds. So a `min_hops` under the platform's minimum is
    /// refused, and so is a `max_hops` over its maximum.
    pub fn check_circuit_config(&self, min_hops: u8, max_hops: u8) -> (r: Result<
        (),
        SwarmControllerError,
    >)
        ensures
            r is Ok <==> config_allowed(capabilities_of(self@.platform), min_hops, max_hops),
            r matches Err(e) ==> e@ == SwarmControllerErrorView::InvalidCircuitConfig(
                config_complaint(capabilities_of(self@.platform)),
            ),
            min_hops < capabilities_of(self@.platform).min_hops ==> r is Err,
            max_hops > capabilities_of(self@.platform).max_hops ==> r is Err,
    {
        let caps = self.transport_capabilities();
        if min_hops < caps.min_hops || min_hops > caps.max_hops || max_hops < caps.min_hops
            || max_hops > caps.max_hops {
            Err(SwarmControllerError::InvalidCircuitConfig(config_complaint_text(&caps)))
        } else {
            Ok(())
        }
    }

    /// Plans a circuit of `max_hops` hops to `target_peer`, given what the
    /// discovery in [`CIRCUIT_ROOM`] came to.
    ///
    /// Hop counts outside the platform's bounds are refused first, whatever
    /// was discovered: a `min_hops` under the platform's minimum and a
    /// `max_hops` over its maximum among them. A discovery that failed is
    /// handed on. The candidates for relaying are the discovered peers
    /// besides the target; fewer than `max_hops - 1` of them are not enough,
    /// and so are fewer than `max_hops - 1` peers discovered. Otherwise the
    /// plan names `max_hops - 1` of the candidates, each at most once and in
    /// an order left to chance, then the target, under a fresh name.
    pub fn build_onion_circuit(
        &self,
        target_peer: &str,
        min_hops: u8,
        max_hops: u8,
        discovered: Result<Vec<PeerInfo>, SwarmControllerError>,
    ) -> (r: Result<CircuitPlan, SwarmControllerError>)
        ensures
            !config_allowed(capabilities_of(self@.platform), min_hops, max_hops) ==> (r matches Err(
                e,
            ) && e@ == SwarmControllerErrorView::InvalidCircuitConfig(
                config_complaint(capabilities_of(self@.platform)),
            )),
            (min_hops < capabilities_of(self@.platform).min_hops || max_hops > capabilities_of(
                self@.platform,
            ).max_hops) ==> (r matches Err(e) && e@ is InvalidCircuitConfig),
            config_allowed(capabilities_of(self@.platform), min_hops, max_hops) ==> match discovered {
                Err(failure) => r matches Err(e) && e@ == failure@,
                Ok(peers) => if candidates(peers.deep_view(), target_peer@).len() < max_hops - 1 {
                    r matches Err(e) && e@ == SwarmControllerErrorView::NotEnoughPeers(
                        peers_complaint(
                            max_hops,
                            candidates(peers.deep_view(), target_peer@).len(),
                        ),
                    )
                } else {
                    &&& r matches Ok(plan)
                    &&& is_circuit_id(plan.circuit_id@)
                    &&& is_route(
                        plan.hops.deep_view(),
                        candidates(peers.deep_view(), target_peer@),
                        target_peer@,
                        max_hops,
                    )
                },
            },
            config_allowed(capabilities_of(self@.platform), min_hops, max_hops) ==> (
            discovered matches Ok(peers) ==> (peers.len() < max_hops - 1 ==> (r matches Err(e)
                && e@ is NotEnoughPeers))),
            r matches Ok(plan) ==> plan.hops.len() == max_hops && capabilities_of(
                self@.platform,
            ).min_hops <= plan.hops.len() <= capabilities_of(self@.platform).max_hops,
    {
        match self.check_circuit_config(min_hops, max_hops) {
            Err(e) => {
                return Err(e);
            },
            Ok(_) => {},
        }
        let peers = match discovered {
            Err(failure) => {
                return Err(failure);
            },
            Ok(peers) => peers,
        };
        proof {
            lemma_candidates(peers.deep_view(), target_peer@);
        }
        let able = relay_candidates(peers, target_peer);
        if able.len() < (max_hops - 1) as usize {
            return Err(
                SwarmControllerError::NotEnoughPeers(peers_complaint_text(max_hops, able.len())),
            );
        }
        let ghost found = able.deep_view();
        let ghost peers_before = able@;
        let mut candidates = able;
        shuffle(&mut candidates);
        let ghost candidates_after = candidates@;
        let ghost p = choose|p: Seq<int>|
            crate::shims::is_rearrangement(candidates_after, peers_before, p);
        let ghost shuffled = candidates.deep_view();
        let hops = select_route(candidates, target_peer, max_hops);
        let id = fresh_uuid();
        let circuit_id = concat2("circuit_", id.as_str());
        let plan = CircuitPlan { circuit_id, hops };
        proof {
            reveal_strlit("circuit_");
            assert(plan.circuit_id@.subrange(0, "circuit_"@.len() as int) =~= "circuit_"@);
            let picks = p.take(relay_count(max_hops) as int);
            let view = plan.hops.deep_view();
            assert forall|i: int| 0 <= i < picks.len() implies 0 <= #[trigger] picks[i]
                < found.len() by {
                assert(picks[i] == p[i]);
            }
            assert forall|i: int| 0 <= i < picks.len() implies #[trigger] view[i]
                == found[picks[i]] by {
                assert(picks[i] == p[i]);
                assert(view[i] == shuffled[i]);
                assert(candidates_after[i] == peers_before[p[i]]);
            }
            assert(routes_through(view, found, picks, target_peer@, max_hops));
        }
        Ok(plan)
    }

    /// Accepts `data` for the circuit `circuit_id`. The controller holds no
    /// data path of its own: the call succeeds for every circuit and leaves
    /// the controller as it was.
    pub fn send_through_circuit(&self, circuit_id: &str, data: &[u8]) -> (r: Result<
        (),
        SwarmControllerError,
    >)
        ensures
            r is Ok,
    {
        Ok(())
    }

    /// What arrived on the circuit `circuit_id`. The controller holds no
    /// data path of its own: the call succeeds with no data.
    pub fn receive_from_circuit(&self, circuit_id: &str) -> (r: Result<
        Option<Vec<u8>>,
        SwarmControllerError,
    >)
        ensures
            r == Ok::<Option<Vec<u8>>, SwarmControllerError>(None),
    {
        Ok(None)
    }

    /// Tears down the circuit `circuit_id`. The controller keeps no circuit
    /// of its own, so the call succeeds for every name, as often as it is
    /// made.
    pub fn teardown_circuit(&self, circuit_id: &str) -> (r: Result<(), SwarmControllerError>)
        ensures
            r is Ok,
    {
        Ok(())
    }

    /// An empty stream for the circuit `circuit_id`.
    pub fn create_onion_stream(&self, circuit_id: &str) -> (r: Result<
        OnionStream,
        SwarmControllerError,
    >)
        ensures
            r matches Ok(s) && s@ == (OnionStreamView {
                circuit_id: circuit_id@,
                readable: Seq::empty(),
                written: Seq::empty(),
            }),
    {
        Ok(OnionStream::new(circuit_id.to_owned()))
    }
}

} // verus!
