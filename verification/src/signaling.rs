//! Signaling client: room membership, peer discovery and swarm entropy over
//! one duplex connection to a rendezvous server.
//!
//! The client never touches a socket. Each request method builds the frame to
//! send; the caller sends it, reads frames, and hands each one to
//! [`SignalingClient::receive_frame`] until a reply is there. The reply is then
//! read by [`SignalingClient::peers_from`] or [`SignalingClient::entropy_from`].
//! Requests are answered in turn: a caller keeps one request in flight per
//! client.

use crate::shims::fresh_uuid;
use crate::text::{
    clone_bytes, clone_strings, concat2, concat3, same_text, starts_with, trim_end,
    trim_end_matches,
};
use vstd::prelude::*;
use vstd::string::*;

verus! {

/// What a peer supports.
#[derive(Debug, PartialEq, Eq)]
pub struct PeerCapabilities {
    pub supports_p2p: bool,
    pub supports_relay: bool,
    pub supports_onion_routing: bool,
    pub max_message_size: usize,
    pub supported_protocols: Vec<String>,
    pub max_hops: u32,
}

/// The model of [`PeerCapabilities`].
pub struct PeerCapabilitiesView {
    pub supports_p2p: bool,
    pub supports_relay: bool,
    pub supports_onion_routing: bool,
    pub max_message_size: usize,
    pub supported_protocols: Seq<Seq<char>>,
    pub max_hops: u32,
}

impl View for PeerCapabilities {
    type V = PeerCapabilitiesView;

    open spec fn view(&self) -> PeerCapabilitiesView {
        PeerCapabilitiesView {
            supports_p2p: self.supports_p2p,
            supports_relay: self.supports_relay,
            supports_onion_routing: self.supports_onion_routing,
            max_message_size: self.max_message_size,
            supported_protocols: self.supported_protocols.deep_view(),
            max_hops: self.max_hops,
        }
    }
}

impl DeepView for PeerCapabilities {
    type V = PeerCapabilitiesView;

    open spec fn deep_view(&self) -> PeerCapabilitiesView {
        self@
    }
}

/// The capabilities a peer announces when it says nothing else: direct and
/// relayed transport, no onion routing, 64 KiB messages, protocol `zks/1.0`,
/// three hops.
pub open spec fn default_capabilities() -> PeerCapabilitiesView {
    PeerCapabilitiesView {
        supports_p2p: true,
        supports_relay: true,
        supports_onion_routing: false,
        max_message_size: 65536,
        supported_protocols: seq!["zks/1.0"@],
        max_hops: 3,
    }
}

impl Default for PeerCapabilities {
    fn default() -> (r: Self)
        ensures
            r@ == default_capabilities(),
    {
        let mut supported_protocols: Vec<String> = Vec::new();
        supported_protocols.push("zks/1.0".to_owned());
        assert(supported_protocols.deep_view() =~= seq!["zks/1.0"@]);
        PeerCapabilities {
            supports_p2p: true,
            supports_relay: true,
            supports_onion_routing: false,
            max_message_size: 65536,
            supported_protocols,
            max_hops: 3,
        }
    }
}

impl Clone for PeerCapabilities {
    fn clone(&self) -> (r: Self)
        ensures
            r@ == self@,
    {
        PeerCapabilities {
            supports_p2p: self.supports_p2p,
            supports_relay: self.supports_relay,
            supports_onion_routing: self.supports_onion_routing,
            max_message_size: self.max_message_size,
            supported_protocols: clone_strings(&self.supported_protocols),
            max_hops: self.max_hops,
        }
    }
}

/// One discovered peer. A discovery call makes these afresh; what an earlier
/// call returned is stale after the next.
#[derive(Debug, PartialEq, Eq)]
pub struct PeerInfo {
    pub peer_id: String,
    pub public_key: Vec<u8>,
    pub capabilities: PeerCapabilities,
    pub last_seen: u64,
    pub addresses: Vec<String>,
}

/// The model of [`PeerInfo`].
pub struct PeerInfoView {
    pub peer_id: Seq<char>,
    pub public_key: Seq<u8>,
    pub capabilities: PeerCapabilitiesView,
    pub last_seen: u64,
    pub addresses: Seq<Seq<char>>,
}

impl View for PeerInfo {
    type V = PeerInfoView;

    open spec fn view(&self) -> PeerInfoView {
        PeerInfoView {
            peer_id: self.peer_id@,
            public_key: self.public_key@,
            capabilities: self.capabilities@,
            last_seen: self.last_seen,
            addresses: self.addresses.deep_view(),
        }
    }
}

impl DeepView for PeerInfo {
    type V = PeerInfoView;

    open spec fn deep_view(&self) -> PeerInfoView {
        self@
    }
}

impl Clone for PeerInfo {
    fn clone(&self) -> (r: Self)
        ensures
            r@ == self@,
    {
        PeerInfo {
            peer_id: self.peer_id.clone(),
            public_key: clone_bytes(&self.public_key),
            capabilities: self.capabilities.clone(),
            last_seen: self.last_seen,
            addresses: clone_strings(&self.addresses),
        }
    }
}

/// A copy of a list of peers.
pub fn clone_peers(v: &Vec<PeerInfo>) -> (r: Vec<PeerInfo>)
    ensures
        r.deep_view() == v.deep_view(),
{
    let mut r: Vec<PeerInfo> = Vec::new();
    let mut i: usize = 0;
    while i < v.len()
        invariant
            i <= v.len(),
            r.len() == i,
            forall|j: int| 0 <= j < i ==> r@[j]@ == v@[j]@,
        decreases v.len() - i,
    {
        r.push(v[i].clone());
        i += 1;
    }
    assert(r.deep_view() =~= v.deep_view());
    r
}

/// The unit of the signaling wire protocol.
#[derive(Debug, PartialEq, Eq)]
pub enum SignalingMessage {
    /// Join a swarm room.
    Join { room_id: String, peer_info: PeerInfo },
    /// Leave a swarm room.
    Leave { room_id: String },
    /// Ask for the peers of a room.
    Discover { room_id: String },
    /// The peers of a room.
    Peers { peers: Vec<PeerInfo> },
    /// Ask the swarm for entropy.
    EntropyRequest { room_id: String, request_id: String },
    /// Entropy from the swarm, for the request named.
    EntropyResponse { request_id: String, entropy: Vec<u8>, signature: Vec<u8> },
    /// The server refuses.
    Error { code: String, message: String },
}

/// The model of [`SignalingMessage`].
pub enum SignalingMessageView {
    Join { room_id: Seq<char>, peer_info: PeerInfoView },
    Leave { room_id: Seq<char> },
    Discover { room_id: Seq<char> },
    Peers { peers: Seq<PeerInfoView> },
    EntropyRequest { room_id: Seq<char>, request_id: Seq<char> },
    EntropyResponse { request_id: Seq<char>, entropy: Seq<u8>, signature: Seq<u8> },
    Error { code: Seq<char>, message: Seq<char> },
}

impl View for SignalingMessage {
    type V = SignalingMessageView;

    open spec fn view(&self) -> SignalingMessageView {
        match self {
            SignalingMessage::Join { room_id, peer_info } => SignalingMessageView::Join {
                room_id: room_id@,
                peer_info: peer_info@,
            },
            SignalingMessage::Leave { room_id } => SignalingMessageView::Leave { room_id: room_id@ },
            SignalingMessage::Discover { room_id } => SignalingMessageView::Discover {
                room_id: room_id@,
            },
            SignalingMessage::Peers { peers } => SignalingMessageView::Peers {
                peers: peers.deep_view(),
            },
            SignalingMessage::EntropyRequest { room_id, request_id } => {
                SignalingMessageView::EntropyRequest { room_id: room_id@, request_id: request_id@ }
            },
            SignalingMessage::EntropyResponse { request_id, entropy, signature } => {
                SignalingMessageView::EntropyResponse {
                    request_id: request_id@,
                    entropy: entropy@,
                    signature: signature@,
                }
            },
            SignalingMessage::Error { code, message } => SignalingMessageView::Error {
                code: code@,
                message: message@,
            },
        }
    }
}

/// What can go wrong while signaling.
#[derive(Debug, PartialEq, Eq)]
pub enum SignalingError {
    ConnectionFailed(String),
    ConnectionClosed,
    SendFailed(String),
    ReceiveFailed(String),
    SerializationFailed(String),
    DeserializationFailed(String),
    ServerError(String),
    UnexpectedMessage(&'static str),
    InvalidEntropy(&'static str),
}

/// The model of [`SignalingError`].
pub enum SignalingErrorView {
    ConnectionFailed(Seq<char>),
    ConnectionClosed,
    SendFailed(Seq<char>),
    ReceiveFailed(Seq<char>),
    SerializationFailed(Seq<char>),
    DeserializationFailed(Seq<char>),
    ServerError(Seq<char>),
    UnexpectedMessage(Seq<char>),
    InvalidEntropy(Seq<char>),
}

impl SignalingErrorView {
    /// The error as a line of text.
    pub open spec fn text(self) -> Seq<char> {
        match self {
            SignalingErrorView::ConnectionFailed(d) => "Connection failed: "@ + d,
            SignalingErrorView::ConnectionClosed => "Connection closed"@,
            SignalingErrorView::SendFailed(d) => "Send failed: "@ + d,
            SignalingErrorView::ReceiveFailed(d) => "Receive failed: "@ + d,
            SignalingErrorView::SerializationFailed(d) => "Serialization failed: "@ + d,
            SignalingErrorView::DeserializationFailed(d) => "Deserialization failed: "@ + d,
            SignalingErrorView::ServerError(d) => "Server error: "@ + d,
            SignalingErrorView::UnexpectedMessage(d) => "Unexpected message: "@ + d,
            SignalingErrorView::InvalidEntropy(d) => "Invalid entropy: "@ + d,
        }
    }
}

impl View for SignalingError {
    type V = SignalingErrorView;

    open spec fn view(&self) -> SignalingErrorView {
        match self {
            SignalingError::ConnectionFailed(d) => SignalingErrorView::ConnectionFailed(d@),
            SignalingError::ConnectionClosed => SignalingErrorView::ConnectionClosed,
            SignalingError::SendFailed(d) => SignalingErrorView::SendFailed(d@),
            SignalingError::ReceiveFailed(d) => SignalingErrorView::ReceiveFailed(d@),
            SignalingError::SerializationFailed(d) => SignalingErrorView::SerializationFailed(d@),
            SignalingError::DeserializationFailed(d) => SignalingErrorView::DeserializationFailed(
                d@,
            ),
            SignalingError::ServerError(d) => SignalingErrorView::ServerError(d@),
            SignalingError::UnexpectedMessage(d) => SignalingErrorView::UnexpectedMessage(d@),
            SignalingError::InvalidEntropy(d) => SignalingErrorView::InvalidEntropy(d@),
        }
    }
}

impl SignalingError {
    /// The error as a line of text.
    pub fn to_string(&self) -> (s: String)
        ensures
            s@ == self@.text(),
    {
        match self {
            SignalingError::ConnectionFailed(d) => concat2("Connection failed: ", d.as_str()),
            SignalingError::ConnectionClosed => "Connection closed".to_owned(),
            SignalingError::SendFailed(d) => concat2("Send failed: ", d.as_str()),
            SignalingError::ReceiveFailed(d) => concat2("Receive failed: ", d.as_str()),
            SignalingError::SerializationFailed(d) => concat2(
                "Serialization failed: ",
                d.as_str(),
            ),
            SignalingError::DeserializationFailed(d) => concat2(
                "Deserialization failed: ",
                d.as_str(),
            ),
            SignalingError::ServerError(d) => concat2("Server error: ", d.as_str()),
            SignalingError::UnexpectedMessage(d) => concat2("Unexpected message: ", d),
            SignalingError::InvalidEntropy(d) => concat2("Invalid entropy: ", d),
        }
    }
}

/// The address a client dials for `url`: `url` itself where it names the
/// `ws://` or `wss://` scheme, else the secure scheme, `url` without trailing
/// slashes, and the path `/signaling`.
pub open spec fn normalized_url(url: Seq<char>) -> Seq<char> {
    if "ws://"@.is_prefix_of(url) || "wss://"@.is_prefix_of(url) {
        url
    } else {
        "wss://"@ + trim_end(url, '/') + "/signaling"@
    }
}

/// The address to dial for `url`.
pub fn normalize_url(url: &str) -> (r: String)
    ensures
        r@ == normalized_url(url@),
{
    if starts_with(url, "ws://") || starts_with(url, "wss://") {
        url.to_owned()
    } else {
        let host = trim_end_matches(url, '/');
        concat3("wss://", host.as_str(), "/signaling")
    }
}

/// One thing read from the connection.
#[derive(Debug, PartialEq, Eq)]
pub enum Incoming {
    /// A text frame that decoded to a message.
    Text(SignalingMessage),
    /// A text frame that did not decode, with the decoder's words.
    Undecodable(String),
    /// A binary frame.
    Binary,
    /// A ping.
    Ping,
    /// A pong.
    Pong,
    /// A raw frame.
    Raw,
    /// The peer's close frame.
    Close,
    /// The end of the stream.
    End,
    /// A failure of the connection, with the transport's words.
    Failed(String),
}

/// What a frame, or a run of frames, amounts to for a caller that waits for a
/// reply.
pub enum Reply {
    /// Nothing yet: keep reading.
    Pending,
    /// The reply.
    Message(SignalingMessage),
    /// The wait ends in this error.
    Failure(SignalingErrorView),
}

impl Incoming {
    /// A frame that a waiting caller passes over.
    pub open spec fn is_control(self) -> bool {
        self is Binary || self is Ping || self is Pong || self is Raw
    }

    /// A frame after which the connection is gone.
    pub open spec fn closes(self) -> bool {
        self is Close || self is End
    }

    /// What this one frame amounts to.
    pub open spec fn reply(self) -> Reply {
        match self {
            Incoming::Text(m) => Reply::Message(m),
            Incoming::Undecodable(d) => Reply::Failure(
                SignalingErrorView::DeserializationFailed("Failed to deserialize message: "@ + d@),
            ),
            Incoming::Binary | Incoming::Ping | Incoming::Pong | Incoming::Raw => Reply::Pending,
            Incoming::Close | Incoming::End => Reply::Failure(SignalingErrorView::ConnectionClosed),
            Incoming::Failed(d) => Reply::Failure(
                SignalingErrorView::ReceiveFailed("WebSocket error: "@ + d@),
            ),
        }
    }
}

/// What a run of frames amounts to: the reply of the first frame that is no
/// control frame.
pub open spec fn first_reply(frames: Seq<Incoming>) -> Reply
    decreases frames.len(),
{
    if frames.len() == 0 {
        Reply::Pending
    } else if frames[0].is_control() {
        first_reply(frames.drop_first())
    } else {
        frames[0].reply()
    }
}

/// Whether the frame that decides a run of frames closes the connection.
pub open spec fn first_closes(frames: Seq<Incoming>) -> bool
    decreases frames.len(),
{
    if frames.len() == 0 {
        false
    } else if frames[0].is_control() {
        first_closes(frames.drop_first())
    } else {
        frames[0].closes()
    }
}

/// Whether what a receive call returned is what `reply` says.
pub open spec fn delivers(
    got: Option<Result<SignalingMessage, SignalingError>>,
    reply: Reply,
) -> bool {
    match reply {
        Reply::Pending => got is None,
        Reply::Message(m) => got == Some(Ok::<SignalingMessage, SignalingError>(m)),
        Reply::Failure(e) => got matches Some(Err(x)) && x@ == e,
    }
}

/// What became of a frame handed to the connection.
#[derive(Debug, PartialEq, Eq)]
pub enum SendOutcome {
    /// It went out.
    Sent,
    /// It could not be encoded, with the encoder's words.
    EncodeFailed(String),
    /// The connection refused it, with the transport's words.
    Failed(String),
}

/// The signaling client's side of one connection.
pub struct SignalingClient {
    peer_id: String,
    url: String,
    is_connected: bool,
}

/// The model of [`SignalingClient`].
pub struct SignalingClientView {
    pub peer_id: Seq<char>,
    pub url: Seq<char>,
    pub is_connected: bool,
}

impl View for SignalingClient {
    type V = SignalingClientView;

    closed spec fn view(&self) -> SignalingClientView {
        SignalingClientView {
            peer_id: self.peer_id@,
            url: self.url@,
            is_connected: self.is_connected,
        }
    }
}

/// What a discovery reply holds: the peers of a `Peers` message, the server's
/// refusal, or the complaint that the message is neither.
pub open spec fn peers_reply(response: SignalingMessageView) -> Result<
    Seq<PeerInfoView>,
    SignalingErrorView,
> {
    match response {
        SignalingMessageView::Peers { peers } => Ok(peers),
        SignalingMessageView::Error { code, message } => Err(
            SignalingErrorView::ServerError(code + ": "@ + message),
        ),
        _ => Err(SignalingErrorView::UnexpectedMessage("Expected Peers response"@)),
    }
}

/// What an entropy reply holds for the request `request_id`: the 32 bytes of
/// an `EntropyResponse` that names this request, or why there are none.
pub open spec fn entropy_reply(request_id: Seq<char>, response: SignalingMessageView) -> Result<
    Seq<u8>,
    SignalingErrorView,
> {
    match response {
        SignalingMessageView::EntropyResponse { request_id: answered, entropy, signature } => {
            if answered != request_id {
                Err(SignalingErrorView::UnexpectedMessage("Request ID mismatch"@))
            } else if entropy.len() != 32 {
                Err(SignalingErrorView::InvalidEntropy("Entropy must be 32 bytes"@))
            } else {
                Ok(entropy)
            }
        },
        SignalingMessageView::Error { code, message } => Err(
            SignalingErrorView::ServerError(code + ": "@ + message),
        ),
        _ => Err(SignalingErrorView::UnexpectedMessage("Expected EntropyResponse"@)),
    }
}

/// The first frame that is no control frame decides a wait: when every frame
/// before position `n` is a control frame and the frame at `n` is not, the
/// run of frames amounts to what the frame at `n` amounts to.
pub proof fn lemma_first_reply(frames: Seq<Incoming>, n: int)
    requires
        0 <= n < frames.len(),
        forall|i: int| 0 <= i < n ==> frames[i].is_control(),
        !frames[n].is_control(),
    ensures
        first_reply(frames) == frames[n].reply(),
        first_closes(frames) == frames[n].closes(),
    decreases n,
{
    if n > 0 {
        let rest = frames.drop_first();
        assert forall|i: int| 0 <= i < n - 1 implies rest[i].is_control() by {
            assert(rest[i] == frames[i + 1]);
        }
        assert(rest[n - 1] == frames[n]);
        lemma_first_reply(rest, n - 1);
    }
}

/// A discovery is never surprised by a `Peers` message. Whatever control
/// frames come first, a wait that meets the message ends with it, leaves the
/// connection open, and the discovery yields the peers it holds.
pub proof fn lemma_peers_are_accepted(frames: Seq<Incoming>, n: int, answer: SignalingMessage)
    requires
        0 <= n < frames.len(),
        forall|i: int| 0 <= i < n ==> frames[i].is_control(),
        frames[n] == Incoming::Text(answer),
        answer is Peers,
    ensures
        first_reply(frames) == Reply::Message(answer),
        !first_closes(frames),
        peers_reply(answer@) is Ok,
        peers_reply(answer@) == Ok::<Seq<PeerInfoView>, SignalingErrorView>(
            answer->peers.deep_view(),
        ),
{
    lemma_first_reply(frames, n);
}

/// Entropy is taken only from an `EntropyResponse` that names the request
/// and carries exactly 32 bytes. A response to another request is an
/// unexpected message; one of another length is invalid entropy.
pub proof fn lemma_entropy_is_checked(
    request_id: Seq<char>,
    answered: Seq<char>,
    entropy: Seq<u8>,
    signature: Seq<u8>,
)
    ensures
        entropy_reply(
            request_id,
            SignalingMessageView::EntropyResponse { request_id: answered, entropy, signature },
        ) is Ok <==> answered == request_id && entropy.len() == 32,
        answered != request_id ==> entropy_reply(
            request_id,
            SignalingMessageView::EntropyResponse { request_id: answered, entropy, signature },
        ) == Err::<Seq<u8>, SignalingErrorView>(
            SignalingErrorView::UnexpectedMessage("Request ID mismatch"@),
        ),
        answered == request_id && entropy.len() != 32 ==> entropy_reply(
            request_id,
            SignalingMessageView::EntropyResponse { request_id: answered, entropy, signature },
        ) == Err::<Seq<u8>, SignalingErrorView>(
            SignalingErrorView::InvalidEntropy("Entropy must be 32 bytes"@),
        ),
{
}

/// No message but an `EntropyResponse` yields entropy.
pub proof fn lemma_entropy_needs_a_response(request_id: Seq<char>, response: SignalingMessageView)
    requires
        !(response is EntropyResponse),
    ensures
        entropy_reply(request_id, response) is Err,
{
}

impl SignalingClient {
    /// The client for a connection to `url`, made once the caller has tried
    /// the handshake with `normalize_url(url)`: a connected client where it
    /// succeeded, `ConnectionFailed` with the transport's words where not.
    pub fn connect(url: &str, peer_id: String, handshake: Result<(), String>) -> (r: Result<
        SignalingClient,
        SignalingError,
    >)
        ensures
            match handshake {
                Ok(_) => r matches Ok(c) && c@ == (SignalingClientView {
                    peer_id: peer_id@,
                    url: normalized_url(url@),
                    is_connected: true,
                }),
                Err(why) => r matches Err(e) && e@ == SignalingErrorView::ConnectionFailed(
                    "WebSocket connection failed: "@ + why@,
                ),
            },
    {
        match handshake {
            Ok(_) => Ok(SignalingClient { peer_id, url: normalize_url(url), is_connected: true }),
            Err(why) => Err(
                SignalingError::ConnectionFailed(
                    concat2("WebSocket connection failed: ", why.as_str()),
                ),
            ),
        }
    }

    /// The identity this client announces.
    pub fn peer_id(&self) -> (r: &String)
        ensures
            r@ == self@.peer_id,
    {
        &self.peer_id
    }

    /// The address this client was connected to.
    pub fn url(&self) -> (r: &String)
        ensures
            r@ == self@.url,
    {
        &self.url
    }

    /// Whether the connection is still there.
    pub fn is_connected(&self) -> (b: bool)
        ensures
            b == self@.is_connected,
    {
        self.is_connected
    }

    /// The frame that joins `room_id`: this peer with `capabilities`, seen at
    /// `now` (seconds since the epoch), with no key and no address yet.
    pub fn join_room(&self, room_id: &str, capabilities: PeerCapabilities, now: u64) -> (msg:
        SignalingMessage)
        ensures
            msg@ == (SignalingMessageView::Join {
                room_id: room_id@,
                peer_info: PeerInfoView {
                    peer_id: self@.peer_id,
                    public_key: Seq::empty(),
                    capabilities: capabilities@,
                    last_seen: now,
                    addresses: Seq::empty(),
                },
            }),
    {
        let public_key: Vec<u8> = Vec::new();
        let addresses: Vec<String> = Vec::new();
        assert(addresses.deep_view() =~= Seq::<Seq<char>>::empty());
        let peer_info = PeerInfo {
            peer_id: self.peer_id.clone(),
            public_key,
            capabilities,
            last_seen: now,
            addresses,
        };
        SignalingMessage::Join { room_id: room_id.to_owned(), peer_info }
    }

    /// The frame that leaves `room_id`.
    pub fn leave_room(&self, room_id: &str) -> (msg: SignalingMessage)
        ensures
            msg@ == (SignalingMessageView::Leave { room_id: room_id@ }),
    {
        SignalingMessage::Leave { room_id: room_id.to_owned() }
    }

    /// The frame that asks for the peers of `room_id`. The reply is read with
    /// [`SignalingClient::peers_from`].
    pub fn discover_peers(&self, room_id: &str) -> (msg: SignalingMessage)
        ensures
            msg@ == (SignalingMessageView::Discover { room_id: room_id@ }),
    {
        SignalingMessage::Discover { room_id: room_id.to_owned() }
    }

    /// The frame that asks the swarm of `room_id` for entropy, and the fresh
    /// identifier it carries. The reply is read with
    /// [`SignalingClient::entropy_from`], which takes that identifier.
    pub fn get_swarm_entropy(&self, room_id: &str) -> (r: (SignalingMessage, String))
        ensures
            r.0@ == (SignalingMessageView::EntropyRequest {
                room_id: room_id@,
                request_id: r.1@,
            }),
            r.1@.len() == 36,
    {
        let request_id = fresh_uuid();
        let msg = SignalingMessage::EntropyRequest {
            room_id: room_id.to_owned(),
            request_id: request_id.clone(),
        };
        (msg, request_id)
    }

    /// The result of a send, from what became of the frame.
    pub fn send_message(outcome: SendOutcome) -> (r: Result<(), SignalingError>)
        ensures
            match outcome {
                SendOutcome::Sent => r is Ok,
                SendOutcome::EncodeFailed(why) => r matches Err(e) && e@
                    == SignalingErrorView::SerializationFailed(
                    "Failed to serialize message: "@ + why@,
                ),
                SendOutcome::Failed(why) => r matches Err(e) && e@
                    == SignalingErrorView::SendFailed("Failed to send message: "@ + why@),
            },
    {
        match outcome {
            SendOutcome::Sent => Ok(()),
            SendOutcome::EncodeFailed(why) => Err(
                SignalingError::SerializationFailed(
                    concat2("Failed to serialize message: ", why.as_str()),
                ),
            ),
            SendOutcome::Failed(why) => Err(
                SignalingError::SendFailed(concat2("Failed to send message: ", why.as_str())),
            ),
        }
    }

    /// One turn of the wait for a reply. `None` asks for the next frame. A
    /// close frame or the end of the stream marks the client disconnected;
    /// nothing else changes it.
    pub fn receive_frame(&mut self, frame: Incoming) -> (r: Option<
        Result<SignalingMessage, SignalingError>,
    >)
        ensures
            delivers(r, frame.reply()),
            final(self)@ == (SignalingClientView {
                is_connected: old(self)@.is_connected && !frame.closes(),
                ..old(self)@
            }),
    {
        match frame {
            Incoming::Text(m) => Some(Ok(m)),
            Incoming::Undecodable(why) => Some(
                Err(
                    SignalingError::DeserializationFailed(
                        concat2("Failed to deserialize message: ", why.as_str()),
                    ),
                ),
            ),
            Incoming::Binary => None,
            Incoming::Ping => None,
            Incoming::Pong => None,
            Incoming::Raw => None,
            Incoming::Close => {
                self.is_connected = false;
                Some(Err(SignalingError::ConnectionClosed))
            },
            Incoming::End => {
                self.is_connected = false;
                Some(Err(SignalingError::ConnectionClosed))
            },
            Incoming::Failed(why) => Some(
                Err(SignalingError::ReceiveFailed(concat2("WebSocket error: ", why.as_str()))),
            ),
        }
    }

    /// The wait for a reply over the frames in hand: control frames are
    /// passed over, and the first other frame decides. `None` says that every
    /// frame was a control frame, so the caller reads on. Frames after the one
    /// that decides are not looked at.
    pub fn receive_message(&mut self, frames: Vec<Incoming>) -> (r: Option<
        Result<SignalingMessage, SignalingError>,
    >)
        ensures
            delivers(r, first_reply(frames@)),
            final(self)@ == (SignalingClientView {
                is_connected: old(self)@.is_connected && !first_closes(frames@),
                ..old(self)@
            }),
    {
        let ghost all = frames@;
        assert(all.skip(0) =~= all);
        for frame in it: frames.into_iter()
            invariant
                it.seq() == all,
                self@ == old(self)@,
                first_reply(all) == first_reply(all.skip(it.index() as int)),
                first_closes(all) == first_closes(all.skip(it.index() as int)),
        {
            proof {
                let rest = all.skip(it.index() as int);
                assert(rest[0] == frame);
                assert(rest.drop_first() =~= all.skip(it.index() + 1));
            }
            let got = self.receive_frame(frame);
            if got.is_some() {
                return got;
            }
        }
        None
    }

    /// The peers that a discovery reply holds. A `Peers` message always
    /// yields its peers; an `Error` message the server's refusal; any other
    /// message is unexpected.
    pub fn peers_from(response: SignalingMessage) -> (r: Result<Vec<PeerInfo>, SignalingError>)
        ensures
            match peers_reply(response@) {
                Ok(peers) => r matches Ok(v) && v.deep_view() == peers,
                Err(e) => r matches Err(x) && x@ == e,
            },
    {
        match response {
            SignalingMessage::Peers { peers } => Ok(peers),
            SignalingMessage::Error { code, message } => Err(
                SignalingError::ServerError(concat3(code.as_str(), ": ", message.as_str())),
            ),
            _ => Err(SignalingError::UnexpectedMessage("Expected Peers response")),
        }
    }

    /// The entropy that a reply holds for the request `request_id`. Only an
    /// `EntropyResponse` that names `request_id` and carries exactly 32 bytes
    /// yields them.
    pub fn entropy_from(request_id: &str, response: SignalingMessage) -> (r: Result<
        [u8; 32],
        SignalingError,
    >)
        ensures
            match entropy_reply(request_id@, response@) {
                Ok(entropy) => r matches Ok(bytes) && bytes@ == entropy,
                Err(e) => r matches Err(x) && x@ == e,
            },
    {
        match response {
            SignalingMessage::EntropyResponse { request_id: answered, entropy, signature } => {
                if !same_text(answered.as_str(), request_id) {
                    return Err(SignalingError::UnexpectedMessage("Request ID mismatch"));
                }
                if entropy.len() != 32 {
                    return Err(SignalingError::InvalidEntropy("Entropy must be 32 bytes"));
                }
                let mut bytes = [0u8; 32];
                let mut i: usize = 0;
                while i < 32
                    invariant
                        i <= 32,
                        entropy.len() == 32,
                        forall|j: int| 0 <= j < i ==> bytes@[j] == entropy@[j],
                    decreases 32 - i,
                {
                    bytes[i] = entropy[i];
                    i += 1;
                }
                assert(bytes@ =~= entropy@);
                Ok(bytes)
            },
            SignalingMessage::Error { code, message } => Err(
                SignalingError::ServerError(concat3(code.as_str(), ": ", message.as_str())),
            ),
            _ => Err(SignalingError::UnexpectedMessage("Expected EntropyResponse")),
        }
    }

    /// The result of closing the connection, from what became of the close
    /// frame. The client is gone either way.
    pub fn close(self, outcome: Result<(), String>) -> (r: Result<(), SignalingError>)
        ensures
            match outcome {
                Ok(_) => r is Ok,
                Err(why) => r matches Err(e) && e@ == SignalingErrorView::SendFailed(
                    "Failed to send close message: "@ + why@,
                ),
            },
    {
        match outcome {
            Ok(_) => Ok(()),
            Err(why) => Err(
                SignalingError::SendFailed(
                    concat2("Failed to send close message: ", why.as_str()),
                ),
            ),
        }
    }
}

} // verus!
