use zks_wire::meet::{
    signaling_error_to_zks_error, wire_peer_to_uniffi_peer, ConnectionState, PeerInfo,
    ZksError, ZksMeetClient, DEFAULT_SIGNALING_URL, MEET_ROOM,
};
use zks_wire::signaling::{Incoming, PeerCapabilities, SignalingError, SignalingMessage};

fn wire_peer(id: &str, addresses: Vec<&str>) -> zks_wire::signaling::PeerInfo {
    zks_wire::signaling::PeerInfo {
        peer_id: id.to_string(),
        public_key: vec![4, 5],
        capabilities: PeerCapabilities::default(),
        last_seen: 1,
        addresses: addresses.into_iter().map(|a| a.to_string()).collect(),
    }
}

fn matching() -> ZksMeetClient {
    let mut c = ZksMeetClient::new("me".to_string());
    c.connect_matchmaking(DEFAULT_SIGNALING_URL.to_string(), Ok(())).unwrap();
    c
}

#[test]
fn a_wire_peer_becomes_a_meet_peer_with_its_first_address() {
    let p = wire_peer_to_uniffi_peer(&wire_peer("p", vec!["a1", "a2"]));
    assert_eq!(
        p,
        PeerInfo {
            peer_id: "p".to_string(),
            public_key: vec![4, 5],
            endpoint_hint: Some("a1".to_string())
        }
    );
    let p = wire_peer_to_uniffi_peer(&wire_peer("q", vec![]));
    assert_eq!(p.endpoint_hint, None);
    assert_eq!(p.clone(), p);
}

#[test]
fn a_signaling_error_becomes_a_connection_failure() {
    let e = signaling_error_to_zks_error(SignalingError::ConnectionClosed);
    assert_eq!(
        e,
        ZksError::ConnectionFailed { message: "Signaling error: Connection closed".to_string() }
    );
    assert_eq!(e.to_string(), "Connection failed: Signaling error: Connection closed");
}

#[test]
fn every_meet_error_has_its_line() {
    assert_eq!(ZksError::NotConnected.to_string(), "Not connected");
    assert_eq!(ZksError::MatchFailed { message: "m".to_string() }.to_string(), "Match failed: m");
    assert_eq!(
        ZksError::AsyncError { message: "m".to_string() }.to_string(),
        "Async operation failed: m"
    );
}

#[test]
fn a_new_client_is_disconnected() {
    let c = ZksMeetClient::new("me".to_string());
    assert_eq!(c.get_peer_id(), "me");
    assert_eq!(c.get_state(), ConnectionState::Disconnected);
    assert!(c.needs_connection());
    assert_eq!(c.send(vec![1]), Err(ZksError::NotConnected));
    assert_eq!(c.receive(), Err(ZksError::NotConnected));
    assert_eq!(c.skip(), Err(ZksError::NotConnected));
}

#[test]
fn a_random_client_has_a_fresh_name() {
    let a = ZksMeetClient::new_random();
    let b = ZksMeetClient::new_random();
    assert!(a.get_peer_id().starts_with("peer_"));
    assert_eq!(a.get_peer_id().len(), 5 + 36);
    assert_ne!(a.get_peer_id(), b.get_peer_id());
}

#[test]
fn connecting_starts_matching_even_when_it_fails() {
    let mut c = ZksMeetClient::new("me".to_string());
    let r = c.connect_matchmaking("sig".to_string(), Err("down".to_string()));
    assert_eq!(
        r,
        Err(ZksError::ConnectionFailed {
            message: "Signaling error: Connection failed: WebSocket connection failed: down"
                .to_string()
        })
    );
    assert_eq!(c.get_state(), ConnectionState::Matching);
    assert!(c.needs_connection());
}

#[test]
fn find_match_without_a_client_reports_it() {
    let mut c = ZksMeetClient::new("me".to_string());
    let r = c.find_match(vec!["chess".to_string()], 3);
    assert_eq!(
        r,
        Err(ZksError::ConnectionFailed { message: "Failed to create signaling client".to_string() })
    );
    assert_eq!(c.get_state(), ConnectionState::Matching);
}

#[test]
fn find_match_joins_the_room_with_the_interests_and_discovers() {
    let mut c = matching();
    let (join, discover) = c.find_match(vec!["chess".to_string(), "go".to_string()], 3).unwrap();
    match join {
        SignalingMessage::Join { room_id, peer_info } => {
            assert_eq!(room_id, MEET_ROOM);
            assert_eq!(room_id, "zks-meet-global");
            assert_eq!(peer_info.peer_id, "me");
            assert_eq!(peer_info.last_seen, 3);
            assert_eq!(peer_info.capabilities.supported_protocols, vec!["chess", "go"]);
            assert_eq!(peer_info.capabilities.max_message_size, 65536);
            assert!(peer_info.capabilities.supports_p2p);
        }
        other => panic!("unexpected {:?}", other),
    }
    assert_eq!(discover, SignalingMessage::Discover { room_id: "zks-meet-global".to_string() });
    assert_eq!(c.get_state(), ConnectionState::Matching);
}

#[test]
fn the_first_discovered_peer_is_the_match() {
    let mut c = matching();
    c.find_match(vec![], 0).unwrap();
    let p = c.match_found(Ok(vec![wire_peer("a", vec!["x"]), wire_peer("b", vec![])])).unwrap();
    assert_eq!(p.peer_id, "a");
    assert_eq!(c.get_state(), ConnectionState::Connected { peer: p });
    assert_eq!(c.send(vec![1]), Ok(()));
    assert_eq!(c.receive(), Ok(vec![]));
}

#[test]
fn an_empty_room_is_no_match() {
    let mut c = matching();
    assert_eq!(
        c.match_found(Ok(vec![])),
        Err(ZksError::MatchFailed { message: "No matching peers found".to_string() })
    );
    assert_eq!(c.get_state(), ConnectionState::Matching);
    assert_eq!(
        c.match_found(Err(SignalingError::ConnectionClosed)),
        Err(ZksError::ConnectionFailed { message: "Signaling error: Connection closed".to_string() })
    );
}

#[test]
fn skip_asks_again_and_replaces_the_match() {
    let mut c = matching();
    c.match_found(Ok(vec![wire_peer("a", vec![])])).unwrap();
    assert_eq!(
        c.skip(),
        Ok(SignalingMessage::Discover { room_id: "zks-meet-global".to_string() })
    );
    let p = c.skipped(Ok(vec![wire_peer("b", vec!["y"])])).unwrap();
    assert_eq!(p.peer_id, "b");
    assert_eq!(c.get_state(), ConnectionState::Connected { peer: p });
    assert_eq!(
        c.skipped(Ok(vec![])),
        Err(ZksError::MatchFailed { message: "No more peers available".to_string() })
    );
    match c.get_state() {
        ConnectionState::Connected { peer } => assert_eq!(peer.peer_id, "b"),
        other => panic!("unexpected {:?}", other),
    }
}

#[test]
fn disconnect_forgets_match_and_client() {
    let mut c = matching();
    c.match_found(Ok(vec![wire_peer("a", vec![])])).unwrap();
    c.disconnect();
    assert_eq!(c.get_state(), ConnectionState::Disconnected);
    assert!(c.needs_connection());
    assert_eq!(c.get_peer_id(), "me");
    assert_eq!(c.skip(), Err(ZksError::NotConnected));
}

#[test]
fn meet_frames_go_to_the_signaling_client() {
    let mut c = ZksMeetClient::new("me".to_string());
    assert_eq!(c.receive_frame(Incoming::Ping), Err(ZksError::NotConnected));
    let mut c = matching();
    assert_eq!(c.receive_frame(Incoming::Ping), Ok(None));
    assert_eq!(
        c.receive_frame(Incoming::Text(SignalingMessage::Peers { peers: vec![] })),
        Ok(Some(Ok(SignalingMessage::Peers { peers: vec![] })))
    );
    assert_eq!(c.receive_frame(Incoming::Close), Ok(Some(Err(SignalingError::ConnectionClosed))));
}
