use zks_wire::signaling::{
    normalize_url, Incoming, PeerCapabilities, PeerInfo, SendOutcome, SignalingClient,
    SignalingError, SignalingMessage,
};

fn peer(id: &str) -> PeerInfo {
    PeerInfo {
        peer_id: id.to_string(),
        public_key: vec![1, 2, 3],
        capabilities: PeerCapabilities::default(),
        last_seen: 1_700_000_000,
        addresses: vec!["/ip4/10.0.0.1/tcp/4001".to_string()],
    }
}

fn connected(peer_id: &str) -> SignalingClient {
    SignalingClient::connect("localhost:8080", peer_id.to_string(), Ok(())).unwrap()
}

#[test]
fn default_capabilities_are_as_documented() {
    let caps = PeerCapabilities::default();
    assert!(caps.supports_p2p);
    assert!(caps.supports_relay);
    assert!(!caps.supports_onion_routing);
    assert_eq!(caps.max_message_size, 65536);
    assert_eq!(caps.supported_protocols, vec!["zks/1.0".to_string()]);
    assert_eq!(caps.max_hops, 3);
}

#[test]
fn url_without_scheme_gets_secure_scheme_and_path() {
    assert_eq!(normalize_url("localhost:8080"), "wss://localhost:8080/signaling");
    assert_eq!(normalize_url("example.org///"), "wss://example.org/signaling");
    assert_eq!(normalize_url(""), "wss:///signaling");
}

#[test]
fn url_with_stream_scheme_is_kept() {
    assert_eq!(normalize_url("ws://a/b"), "ws://a/b");
    assert_eq!(normalize_url("wss://a/"), "wss://a/");
    assert_eq!(normalize_url("http://a"), "wss://http://a/signaling");
}

#[test]
fn connect_reports_a_failed_handshake() {
    let r = SignalingClient::connect("localhost:8080", "me".to_string(), Err("refused".to_string()));
    match r {
        Err(e) => {
            assert_eq!(
                e,
                SignalingError::ConnectionFailed("WebSocket connection failed: refused".to_string())
            );
            assert_eq!(e.to_string(), "Connection failed: WebSocket connection failed: refused");
        }
        Ok(_) => panic!("a failed handshake made a client"),
    }
}

#[test]
fn connect_keeps_identity_and_address() {
    let client = connected("test-peer");
    assert!(client.is_connected());
    assert_eq!(client.peer_id(), "test-peer");
    assert_eq!(client.url(), "wss://localhost:8080/signaling");
}

#[test]
fn test_signaling_client() {
    let mut client =
        SignalingClient::connect("localhost:8080", "test-peer".to_string(), Ok(())).unwrap();

    let capabilities = PeerCapabilities {
        supports_p2p: true,
        supports_relay: true,
        supports_onion_routing: false,
        max_message_size: 1024 * 1024,
        supported_protocols: vec!["zks-v1".to_string()],
        max_hops: 3,
    };

    let join = client.join_room("test-room", capabilities.clone(), 42);
    assert_eq!(
        join,
        SignalingMessage::Join {
            room_id: "test-room".to_string(),
            peer_info: PeerInfo {
                peer_id: "test-peer".to_string(),
                public_key: vec![],
                capabilities,
                last_seen: 42,
                addresses: vec![],
            },
        }
    );
    SignalingClient::send_message(SendOutcome::Sent).unwrap();

    let discover = client.discover_peers("test-room");
    assert_eq!(discover, SignalingMessage::Discover { room_id: "test-room".to_string() });
    let reply = client
        .receive_message(vec![Incoming::Text(SignalingMessage::Peers { peers: vec![] })])
        .unwrap()
        .unwrap();
    let peers = SignalingClient::peers_from(reply).unwrap();
    println!("Discovered {} peers", peers.len());

    let leave = client.leave_room("test-room");
    assert_eq!(leave, SignalingMessage::Leave { room_id: "test-room".to_string() });
    client.close(Ok(())).unwrap();
}

#[test]
fn discovery_returns_the_one_peer_of_the_room() {
    let mut client = connected("me");
    let _join = client.join_room("test-room", PeerCapabilities::default(), 7);
    let _ask = client.discover_peers("test-room");
    let frames = vec![
        Incoming::Ping,
        Incoming::Binary,
        Incoming::Text(SignalingMessage::Peers { peers: vec![peer("p1")] }),
    ];
    let reply = client.receive_message(frames).unwrap().unwrap();
    let peers = SignalingClient::peers_from(reply).unwrap();
    assert_eq!(peers.len(), 1);
    assert_eq!(peers[0].peer_id, "p1");
    assert!(client.is_connected());
}

#[test]
fn discovery_reports_the_servers_refusal() {
    let r = SignalingClient::peers_from(SignalingMessage::Error {
        code: "E42".to_string(),
        message: "no such room".to_string(),
    });
    assert_eq!(r, Err(SignalingError::ServerError("E42: no such room".to_string())));
}

#[test]
fn discovery_rejects_any_other_message() {
    let r = SignalingClient::peers_from(SignalingMessage::Leave { room_id: "x".to_string() });
    assert_eq!(r, Err(SignalingError::UnexpectedMessage("Expected Peers response")));
    let r = SignalingClient::peers_from(SignalingMessage::EntropyResponse {
        request_id: "r".to_string(),
        entropy: vec![0; 32],
        signature: vec![],
    });
    assert_eq!(r, Err(SignalingError::UnexpectedMessage("Expected Peers response")));
}

#[test]
fn entropy_request_carries_a_fresh_identifier() {
    let client = connected("me");
    let (first, first_id) = client.get_swarm_entropy("test-room");
    let (_second, second_id) = client.get_swarm_entropy("test-room");
    assert_eq!(first_id.len(), 36);
    assert_ne!(first_id, second_id);
    assert_eq!(
        first,
        SignalingMessage::EntropyRequest { room_id: "test-room".to_string(), request_id: first_id }
    );
}

#[test]
fn entropy_with_the_same_request_id_is_returned() {
    let client = connected("me");
    let (_frame, request_id) = client.get_swarm_entropy("test-room");
    let entropy: Vec<u8> = (0u8..32).collect();
    let reply = SignalingMessage::EntropyResponse {
        request_id: request_id.clone(),
        entropy: entropy.clone(),
        signature: vec![9, 9],
    };
    let got = SignalingClient::entropy_from(&request_id, reply).unwrap();
    assert_eq!(got.to_vec(), entropy);
}

#[test]
fn entropy_of_sixteen_bytes_is_invalid() {
    let reply = SignalingMessage::EntropyResponse {
        request_id: "abc".to_string(),
        entropy: vec![7; 16],
        signature: vec![],
    };
    assert_eq!(
        SignalingClient::entropy_from("abc", reply),
        Err(SignalingError::InvalidEntropy("Entropy must be 32 bytes"))
    );
}

#[test]
fn entropy_of_thirty_three_bytes_is_invalid() {
    let reply = SignalingMessage::EntropyResponse {
        request_id: "abc".to_string(),
        entropy: vec![7; 33],
        signature: vec![],
    };
    assert_eq!(
        SignalingClient::entropy_from("abc", reply),
        Err(SignalingError::InvalidEntropy("Entropy must be 32 bytes"))
    );
}

#[test]
fn entropy_for_another_request_is_rejected() {
    let reply = SignalingMessage::EntropyResponse {
        request_id: "other".to_string(),
        entropy: vec![7; 32],
        signature: vec![],
    };
    assert_eq!(
        SignalingClient::entropy_from("abc", reply),
        Err(SignalingError::UnexpectedMessage("Request ID mismatch"))
    );
}

#[test]
fn entropy_mismatch_is_reported_before_length() {
    let reply = SignalingMessage::EntropyResponse {
        request_id: "other".to_string(),
        entropy: vec![7; 16],
        signature: vec![],
    };
    assert_eq!(
        SignalingClient::entropy_from("abc", reply),
        Err(SignalingError::UnexpectedMessage("Request ID mismatch"))
    );
}

#[test]
fn entropy_rejects_other_messages() {
    assert_eq!(
        SignalingClient::entropy_from("abc", SignalingMessage::Peers { peers: vec![] }),
        Err(SignalingError::UnexpectedMessage("Expected EntropyResponse"))
    );
    assert_eq!(
        SignalingClient::entropy_from(
            "abc",
            SignalingMessage::Error { code: "c".to_string(), message: "m".to_string() }
        ),
        Err(SignalingError::ServerError("c: m".to_string()))
    );
}

#[test]
fn control_frames_alone_leave_the_wait_pending() {
    let mut client = connected("me");
    let got = client.receive_message(vec![
        Incoming::Ping,
        Incoming::Pong,
        Incoming::Binary,
        Incoming::Raw,
    ]);
    assert_eq!(got, None);
    assert_eq!(client.receive_message(vec![]), None);
    assert!(client.is_connected());
}

#[test]
fn close_frame_ends_the_wait_and_the_connection() {
    let mut client = connected("me");
    let got = client.receive_message(vec![Incoming::Ping, Incoming::Close]);
    assert_eq!(got, Some(Err(SignalingError::ConnectionClosed)));
    assert!(!client.is_connected());
}

#[test]
fn end_of_stream_ends_the_connection() {
    let mut client = connected("me");
    assert_eq!(client.receive_frame(Incoming::End), Some(Err(SignalingError::ConnectionClosed)));
    assert!(!client.is_connected());
}

#[test]
fn frames_after_the_deciding_one_are_not_looked_at() {
    let mut client = connected("me");
    let got = client.receive_message(vec![
        Incoming::Text(SignalingMessage::Peers { peers: vec![] }),
        Incoming::Close,
    ]);
    assert_eq!(got, Some(Ok(SignalingMessage::Peers { peers: vec![] })));
    assert!(client.is_connected());
}

#[test]
fn transport_failure_keeps_the_connection_flag() {
    let mut client = connected("me");
    let got = client.receive_frame(Incoming::Failed("reset".to_string()));
    assert_eq!(got, Some(Err(SignalingError::ReceiveFailed("WebSocket error: reset".to_string()))));
    assert!(client.is_connected());
}

#[test]
fn undecodable_text_is_a_deserialization_failure() {
    let mut client = connected("me");
    let got = client.receive_frame(Incoming::Undecodable("expected value".to_string()));
    assert_eq!(
        got,
        Some(Err(SignalingError::DeserializationFailed(
            "Failed to deserialize message: expected value".to_string()
        )))
    );
}

#[test]
fn send_outcomes_map_to_errors() {
    assert_eq!(SignalingClient::send_message(SendOutcome::Sent), Ok(()));
    assert_eq!(
        SignalingClient::send_message(SendOutcome::EncodeFailed("bad".to_string())),
        Err(SignalingError::SerializationFailed("Failed to serialize message: bad".to_string()))
    );
    assert_eq!(
        SignalingClient::send_message(SendOutcome::Failed("pipe".to_string())),
        Err(SignalingError::SendFailed("Failed to send message: pipe".to_string()))
    );
}

#[test]
fn close_reports_a_failed_close_frame() {
    assert_eq!(connected("me").close(Ok(())), Ok(()));
    assert_eq!(
        connected("me").close(Err("gone".to_string())),
        Err(SignalingError::SendFailed("Failed to send close message: gone".to_string()))
    );
}

#[test]
fn every_signaling_error_has_its_line() {
    assert_eq!(SignalingError::ConnectionClosed.to_string(), "Connection closed");
    assert_eq!(SignalingError::SendFailed("x".to_string()).to_string(), "Send failed: x");
    assert_eq!(SignalingError::ReceiveFailed("x".to_string()).to_string(), "Receive failed: x");
    assert_eq!(
        SignalingError::SerializationFailed("x".to_string()).to_string(),
        "Serialization failed: x"
    );
    assert_eq!(
        SignalingError::DeserializationFailed("x".to_string()).to_string(),
        "Deserialization failed: x"
    );
    assert_eq!(SignalingError::ServerError("x".to_string()).to_string(), "Server error: x");
    assert_eq!(SignalingError::UnexpectedMessage("x").to_string(), "Unexpected message: x");
    assert_eq!(SignalingError::InvalidEntropy("x").to_string(), "Invalid entropy: x");
}

#[test]
fn peer_clone_is_equal() {
    let p = peer("p1");
    assert_eq!(p.clone(), p);
}
