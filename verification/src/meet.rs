//! Matchmaking over the signaling client: one peer at a time, found in a
//! shared room.
//!
//! The client keeps who it is, whether it is matching or matched, and its
//! signaling client. As everywhere in this crate the caller does the talking:
//! it dials, sends the frames, and hands back what was discovered.

use crate::shims::fresh_uuid;
use crate::signaling::{
    default_capabilities, delivers, normalized_url, Incoming, PeerCapabilities,
    PeerCapabilitiesView, PeerInfoView, SignalingClient, SignalingClientView, SignalingError,
    SignalingErrorView, SignalingMessage, SignalingMessageView,
};
use crate::text::{clone_bytes, concat2};
use vstd::prelude::*;
use vstd::string::*;

verus! {

/// The rendezvous server that matchmaking dials when it was given none.
pub const DEFAULT_SIGNALING_URL: &'static str = "wss://signal.zks-protocol.org";

/// The room in which everyone looks for a match.
pub const MEET_ROOM: &'static str = "zks-meet-global";

/// What can go wrong while matching.
#[derive(Debug, PartialEq, Eq)]
pub enum ZksError {
    NotConnected,
    ConnectionFailed { message: String },
    MatchFailed { message: String },
    AsyncError { message: String },
}

/// The model of [`ZksError`].
pub enum ZksErrorView {
    NotConnected,
    ConnectionFailed { message: Seq<char> },
    MatchFailed { message: Seq<char> },
    AsyncError { message: Seq<char> },
}

impl ZksErrorView {
    /// The error as a line of text.
    pub open spec fn text(self) -> Seq<char> {
        match self {
            ZksErrorView::NotConnected => "Not connected"@,
            ZksErrorView::ConnectionFailed { message } => "Connection failed: "@ + message,
            ZksErrorView::MatchFailed { message } => "Match failed: "@ + message,
            ZksErrorView::AsyncError { message } => "Async operation failed: "@ + message,
        }
    }
}

impl View for ZksError {
    type V = ZksErrorView;

    open spec fn view(&self) -> ZksErrorView {
        match self {
            ZksError::NotConnected => ZksErrorView::NotConnected,
            ZksError::ConnectionFailed { message } => ZksErrorView::ConnectionFailed {
                message: message@,
            },
            ZksError::MatchFailed { message } => ZksErrorView::MatchFailed { message: message@ },
            ZksError::AsyncError { message } => ZksErrorView::AsyncError { message: message@ },
        }
    }
}

impl ZksError {
    /// The error as a line of text.
    pub fn to_string(&self) -> (s: String)
        ensures
            s@ == self@.text(),
    {
        match self {
            ZksError::NotConnected => "Not connected".to_owned(),
            ZksError::ConnectionFailed { message } => concat2(
                "Connection failed: ",
                message.as_str(),
            ),
            ZksError::MatchFailed { message } => concat2("Match failed: ", message.as_str()),
            ZksError::AsyncError { message } => concat2(
                "Async operation failed: ",
                message.as_str(),
            ),
        }
    }
}

/// A matched peer, as a caller in another language sees it.
#[derive(Debug, PartialEq, Eq)]
pub struct PeerInfo {
    pub peer_id: String,
    pub public_key: Vec<u8>,
    pub endpoint_hint: Option<String>,
}

/// The model of [`PeerInfo`].
pub struct MeetPeerView {
    pub peer_id: Seq<char>,
    pub public_key: Seq<u8>,
    pub endpoint_hint: Option<Seq<char>>,
}

impl View for PeerInfo {
    type V = MeetPeerView;

    open spec fn view(&self) -> MeetPeerView {
        MeetPeerView {
            peer_id: self.peer_id@,
            public_key: self.public_key@,
            endpoint_hint: match self.endpoint_hint {
                Some(hint) => Some(hint@),
                None => None,
            },
        }
    }
}

impl Clone for PeerInfo {
    fn clone(&self) -> (r: Self)
        ensures
            r@ == self@,
    {
        PeerInfo {
            peer_id: self.peer_id.clone(),
            public_key: clone_bytes(&self.public_key),
            endpoint_hint: match &self.endpoint_hint {
                Some(hint) => Some(hint.clone()),
                None => None,
            },
        }
    }
}

/// Where matchmaking stands.
#[derive(Debug, PartialEq, Eq)]
pub enum ConnectionState {
    Disconnected,
    Matching,
    Connected { peer: PeerInfo },
}

/// The model of [`ConnectionState`].
pub enum ConnectionStateView {
    Disconnected,
    Matching,
    Connected { peer: MeetPeerView },
}

impl View for ConnectionState {
    type V = ConnectionStateView;

    open spec fn view(&self) -> ConnectionStateView {
        match self {
            ConnectionState::Disconnected => ConnectionStateView::Disconnected,
            ConnectionState::Matching => ConnectionStateView::Matching,
            ConnectionState::Connected { peer } => ConnectionStateView::Connected { peer: peer@ },
        }
    }
}

impl Clone for ConnectionState {
    fn clone(&self) -> (r: Self)
        ensures
            r@ == self@,
    {
        match self {
            ConnectionState::Disconnected => ConnectionState::Disconnected,
            ConnectionState::Matching => ConnectionState::Matching,
            ConnectionState::Connected { peer } => ConnectionState::Connected {
                peer: peer.clone(),
            },
        }
    }
}

/// A discovered peer as a matched peer: its identity and key, and the first
/// of its addresses as the hint.
pub open spec fn as_meet_peer(wire_peer: PeerInfoView) -> MeetPeerView {
    MeetPeerView {
        peer_id: wire_peer.peer_id,
        public_key: wire_peer.public_key,
        endpoint_hint: if wire_peer.addresses.len() > 0 {
            Some(wire_peer.addresses[0])
        } else {
            None
        },
    }
}

/// A discovered peer as a matched peer.
pub fn wire_peer_to_uniffi_peer(wire_peer: &crate::signaling::PeerInfo) -> (r: PeerInfo)
    ensures
        r@ == as_meet_peer(wire_peer@),
{
    PeerInfo {
        peer_id: wire_peer.peer_id.clone(),
        public_key: clone_bytes(&wire_peer.public_key),
        endpoint_hint: if wire_peer.addresses.len() > 0 {
            Some(wire_peer.addresses[0].clone())
        } else {
            None
        },
    }
}

/// A signaling error as matchmaking reports it.
pub open spec fn as_zks_error(error: SignalingErrorView) -> ZksErrorView {
    ZksErrorView::ConnectionFailed { message: "Signaling error: "@ + error.text() }
}

/// A signaling error as matchmaking reports it.
pub fn signaling_error_to_zks_error(error: SignalingError) -> (r: ZksError)
    ensures
        r@ == as_zks_error(error@),
{
    let line = error.to_string();
    ZksError::ConnectionFailed { message: concat2("Signaling error: ", line.as_str()) }
}

/// What a discovery amounts to for a client that looks for a peer: the first
/// peer discovered, the signaling error, or `MatchFailed` with `nobody` when
/// the room is empty.
pub open spec fn first_match(
    discovered: Result<Seq<PeerInfoView>, SignalingErrorView>,
    nobody: Seq<char>,
) -> Result<MeetPeerView, ZksErrorView> {
    match discovered {
        Err(e) => Err(as_zks_error(e)),
        Ok(peers) => if peers.len() == 0 {
            Err(ZksErrorView::MatchFailed { message: nobody })
        } else {
            Ok(as_meet_peer(peers[0]))
        },
    }
}

/// The model of a discovery outcome.
pub open spec fn discovery_view(
    discovered: Result<Vec<crate::signaling::PeerInfo>, SignalingError>,
) -> Result<Seq<PeerInfoView>, SignalingErrorView> {
    match discovered {
        Ok(peers) => Ok(peers.deep_view()),
        Err(e) => Err(e@),
    }
}

/// The capabilities a client announces when it looks for peers with
/// `interests`: the usual ones, with the interests as its protocols.
pub open spec fn match_capabilities(interests: Seq<Seq<char>>) -> PeerCapabilitiesView {
    PeerCapabilitiesView { supported_protocols: interests, ..default_capabilities() }
}

/// The matchmaking client.
pub struct ZksMeetClient {
    peer_id: String,
    state: ConnectionState,
    signaling_client: Option<SignalingClient>,
}

/// The model of [`ZksMeetClient`].
pub struct ZksMeetClientView {
    pub peer_id: Seq<char>,
    pub state: ConnectionStateView,
    pub client: Option<SignalingClientView>,
}

impl View for ZksMeetClient {
    type V = ZksMeetClientView;

    closed spec fn view(&self) -> ZksMeetClientView {
        ZksMeetClientView {
            peer_id: self.peer_id@,
            state: self.state@,
            client: match self.signaling_client {
                Some(c) => Some(c@),
                None => None,
            },
        }
    }
}

impl ZksMeetClient {
    /// A client for the identity `peer_id`: disconnected, with no signaling
    /// client.
    pub fn new(peer_id: String) -> (c: ZksMeetClient)
        ensures
            c@ == (ZksMeetClientView {
                peer_id: peer_id@,
                state: ConnectionStateView::Disconnected,
                client: None,
            }),
    {
        ZksMeetClient { peer_id, state: ConnectionState::Disconnected, signaling_client: None }
    }

    /// A client under a fresh identity: `peer_` and an identifier.
    pub fn new_random() -> (c: ZksMeetClient)
        ensures
            "peer_"@.is_prefix_of(c@.peer_id),
            c@.peer_id.len() == "peer_"@.len() + 36,
            c@.state == ConnectionStateView::Disconnected,
            c@.client is None,
    {
        let id = fresh_uuid();
        let peer_id = concat2("peer_", id.as_str());
        assert(peer_id@.subrange(0, "peer_"@.len() as int) =~= "peer_"@);
        ZksMeetClient::new(peer_id)
    }

    /// This client's identity.
    pub fn get_peer_id(&self) -> (id: String)
        ensures
            id@ == self@.peer_id,
    {
        self.peer_id.clone()
    }

    /// Where matchmaking stands.
    pub fn get_state(&self) -> (s: ConnectionState)
        ensures
            s@ == self@.state,
    {
        self.state.clone()
    }

    /// Whether a connection to a rendezvous server must be made before a
    /// match can be sought: there is no signaling client.
    pub fn needs_connection(&self) -> (b: bool)
        ensures
            b == (self@.client is None),
    {
        self.signaling_client.is_none()
    }

    /// Takes note of a connect to the rendezvous server at `url`, once the
    /// caller has tried the handshake. The client is matching from here on,
    /// whatever came of the handshake; one that succeeded leaves a signaling
    /// client, one that failed is reported.
    pub fn connect_matchmaking(&mut self, url: String, handshake: Result<(), String>) -> (r: Result<
        (),
        ZksError,
    >)
        ensures
            final(self)@.peer_id == old(self)@.peer_id,
            final(self)@.state == ConnectionStateView::Matching,
            match handshake {
                Ok(_) => r is Ok && final(self)@.client == Some(
                    SignalingClientView {
                        peer_id: old(self)@.peer_id,
                        url: normalized_url(url@),
                        is_connected: true,
                    },
                ),
                Err(why) => r matches Err(e) && e@ == as_zks_error(
                    SignalingErrorView::ConnectionFailed("WebSocket connection failed: "@ + why@),
                ) && final(self)@.client == old(self)@.client,
            },
    {
        self.state = ConnectionState::Matching;
        match SignalingClient::connect(url.as_str(), self.peer_id.clone(), handshake) {
            Ok(client) => {
                self.signaling_client = Some(client);
                Ok(())
            },
            Err(e) => Err(signaling_error_to_zks_error(e)),
        }
    }

    /// Whether data may be sent: only to a matched peer.
    pub fn send(&self, data: Vec<u8>) -> (r: Result<(), ZksError>)
        ensures
            self@.state is Connected ==> r is Ok,
            !(self@.state is Connected) ==> (r matches Err(e) && e@ == ZksErrorView::NotConnected),
    {
        match &self.state {
            ConnectionState::Connected { peer } => Ok(()),
            _ => Err(ZksError::NotConnected),
        }
    }

    /// What arrived from the matched peer: an empty payload, and
    /// `NotConnected` without a match.
    pub fn receive(&self) -> (r: Result<Vec<u8>, ZksError>)
        ensures
            self@.state is Connected ==> (r matches Ok(data) && data@.len() == 0),
            !(self@.state is Connected) ==> (r matches Err(e) && e@ == ZksErrorView::NotConnected),
    {
        match &self.state {
            ConnectionState::Connected { peer } => Ok(Vec::new()),
            _ => Err(ZksError::NotConnected),
        }
    }

    /// The frames that start a search for peers with `interests`: the join
    /// of the meeting room, seen at `now`, and the discovery that follows it.
    /// The client is matching from here on. Without a signaling client there
    /// is nothing to send, and the call reports that none could be made.
    pub fn find_match(&mut self, interests: Vec<String>, now: u64) -> (r: Result<
        (SignalingMessage, SignalingMessage),
        ZksError,
    >)
        ensures
            final(self)@ == (ZksMeetClientView {
                state: ConnectionStateView::Matching,
                ..old(self)@
            }),
            match old(self)@.client {
                Some(c) => r matches Ok(frames) && frames.0@ == (SignalingMessageView::Join {
                    room_id: MEET_ROOM@,
                    peer_info: PeerInfoView {
                        peer_id: c.peer_id,
                        public_key: Seq::empty(),
                        capabilities: match_capabilities(interests.deep_view()),
                        last_seen: now,
                        addresses: Seq::empty(),
                    },
                }) && frames.1@ == (SignalingMessageView::Discover { room_id: MEET_ROOM@ }),
                None => r matches Err(e) && e@ == (ZksErrorView::ConnectionFailed {
                    message: "Failed to create signaling client"@,
                }),
            },
    {
        self.state = ConnectionState::Matching;
        match &self.signaling_client {
            Some(client) => {
                let usual = PeerCapabilities::default();
                let capabilities = PeerCapabilities {
                    supports_p2p: usual.supports_p2p,
                    supports_relay: usual.supports_relay,
                    supports_onion_routing: usual.supports_onion_routing,
                    max_message_size: usual.max_message_size,
                    supported_protocols: interests,
                    max_hops: usual.max_hops,
                };
                let join = client.join_room(MEET_ROOM, capabilities, now);
                let discover = client.discover_peers(MEET_ROOM);
                Ok((join, discover))
            },
            None => Err(
                ZksError::ConnectionFailed {
                    message: "Failed to create signaling client".to_owned(),
                },
            ),
        }
    }

    /// One turn of the wait for a reply, taken by the signaling client:
    /// `Ok(None)` asks for the next frame. A close frame or the end of the
    /// stream marks the signaling client disconnected; nothing else changes.
    /// Without a signaling client the call answers `NotConnected`.
    pub fn receive_frame(&mut self, frame: Incoming) -> (r: Result<
        Option<Result<SignalingMessage, SignalingError>>,
        ZksError,
    >)
        ensures
            match old(self)@.client {
                Some(c) => {
                    &&& r matches Ok(got)
                    &&& delivers(got, frame.reply())
                    &&& final(self)@ == (ZksMeetClientView {
                        client: Some(
                            SignalingClientView {
                                is_connected: c.is_connected && !frame.closes(),
                                ..c
                            },
                        ),
                        ..old(self)@
                    })
                },
                None => {
                    &&& r matches Err(e)
                    &&& e@ == ZksErrorView::NotConnected
                    &&& final(self)@ == old(self)@
                },
            },
    {
        match self.signaling_client.take() {
            Some(client) => {
                let mut client = client;
                let got = client.receive_frame(frame);
                self.signaling_client = Some(client);
                Ok(got)
            },
            None => Err(ZksError::NotConnected),
        }
    }

    /// What the search came to: the first peer discovered becomes the match.
    /// An empty room, or a signaling error, leaves the client as it was.
    pub fn match_found(
        &mut self,
        discovered: Result<Vec<crate::signaling::PeerInfo>, SignalingError>,
    ) -> (r: Result<PeerInfo, ZksError>)
        ensures
            match first_match(discovery_view(discovered), "No matching peers found"@) {
                Ok(peer) => r matches Ok(p) && p@ == peer && final(self)@ == (ZksMeetClientView {
                    state: ConnectionStateView::Connected { peer },
                    ..old(self)@
                }),
                Err(e) => r matches Err(x) && x@ == e && final(self)@ == old(self)@,
            },
    {
        self.settle(discovered, "No matching peers found")
    }

    /// The frame that asks for another peer: a discovery in the meeting room,
    /// for a client that is matched and has a signaling client; `NotConnected`
    /// for any other.
    pub fn skip(&self) -> (r: Result<SignalingMessage, ZksError>)
        ensures
            (self@.state is Connected && self@.client is Some) ==> (r matches Ok(frame) && frame@
                == (SignalingMessageView::Discover { room_id: MEET_ROOM@ })),
            !(self@.state is Connected && self@.client is Some) ==> (r matches Err(e) && e@
                == ZksErrorView::NotConnected),
    {
        match &self.state {
            ConnectionState::Connected { peer } => match &self.signaling_client {
                Some(client) => Ok(client.discover_peers(MEET_ROOM)),
                None => Err(ZksError::NotConnected),
            },
            _ => Err(ZksError::NotConnected),
        }
    }

    /// What the skip came to: the first peer discovered replaces the match.
    /// An empty room, or a signaling error, leaves the client as it was.
    pub fn skipped(
        &mut self,
        discovered: Result<Vec<crate::signaling::PeerInfo>, SignalingError>,
    ) -> (r: Result<PeerInfo, ZksError>)
        ensures
            match first_match(discovery_view(discovered), "No more peers available"@) {
                Ok(peer) => r matches Ok(p) && p@ == peer && final(self)@ == (ZksMeetClientView {
                    state: ConnectionStateView::Connected { peer },
                    ..old(self)@
                }),
                Err(e) => r matches Err(x) && x@ == e && final(self)@ == old(self)@,
            },
    {
        self.settle(discovered, "No more peers available")
    }

    /// The common end of a search and of a skip.
    fn settle(
        &mut self,
        discovered: Result<Vec<crate::signaling::PeerInfo>, SignalingError>,
        nobody: &str,
    ) -> (r: Result<PeerInfo, ZksError>)
        ensures
            match first_match(discovery_view(discovered), nobody@) {
                Ok(peer) => r matches Ok(p) && p@ == peer && final(self)@ == (ZksMeetClientView {
                    state: ConnectionStateView::Connected { peer },
                    ..old(self)@
                }),
                Err(e) => r matches Err(x) && x@ == e && final(self)@ == old(self)@,
            },
    {
        match discovered {
            Err(e) => Err(signaling_error_to_zks_error(e)),
            Ok(peers) => {
                if peers.len() == 0 {
                    return Err(ZksError::MatchFailed { message: nobody.to_owned() });
                }
                let peer = wire_peer_to_uniffi_peer(&peers[0]);
                self.state = ConnectionState::Connected { peer: peer.clone() };
                Ok(peer)
            },
        }
    }

    /// Lets go of the match and of the signaling client.
    pub fn disconnect(&mut self)
        ensures
            final(self)@ == (ZksMeetClientView {
                peer_id: old(self)@.peer_id,
                state: ConnectionStateView::Disconnected,
                client: None,
            }),
    {
        self.state = ConnectionState::Disconnected;
        self.signaling_client = None;
    }
}

} // verus!
