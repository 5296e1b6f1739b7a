use zks_wire::signaling::{
    Incoming, PeerCapabilities, PeerInfo, SignalingError, SignalingMessage,
};
use zks_wire::swarm_controller::{
    relay_candidates, select_route, OnionStream, Platform, SwarmController, SwarmControllerError,
    CIRCUIT_ROOM,
};

fn peer(id: &str) -> PeerInfo {
    PeerInfo {
        peer_id: id.to_string(),
        public_key: vec![],
        capabilities: PeerCapabilities::default(),
        last_seen: 5,
        addresses: vec![],
    }
}

fn peers(n: usize) -> Vec<PeerInfo> {
    let mut v = Vec::new();
    for i in 0..n {
        v.push(peer(&format!("p{}", i)));
    }
    v
}

fn native() -> SwarmController {
    SwarmController::new(true).unwrap()
}

fn constrained() -> SwarmController {
    SwarmController::new(false).unwrap()
}

#[test]
fn test_platform_detection() {
    let platform = Platform::detect(true);
    assert_eq!(platform, Platform::Native);
    assert_eq!(Platform::detect(false), Platform::WebAssembly);
}

#[test]
fn test_swarm_controller_creation() {
    let controller = SwarmController::new(true).unwrap();
    assert!(controller.is_connected() == false);
}

#[test]
fn test_transport_capabilities() {
    for raw_sockets in [true, false] {
        let controller = SwarmController::new(raw_sockets).unwrap();
        let capabilities = controller.transport_capabilities();

        match controller.platform() {
            Platform::Native => {
                assert!(capabilities.supports_direct_p2p);
                assert!(capabilities.supports_nat_traversal);
                assert!(capabilities.max_hops >= 6);
            }
            Platform::WebAssembly => {
                assert!(!capabilities.supports_direct_p2p);
                assert!(capabilities.supports_relay);
                assert!(capabilities.max_hops <= 6);
            }
        }
    }
}

#[test]
fn platform_bounds_are_exact() {
    let n = native().transport_capabilities();
    assert_eq!((n.min_hops, n.max_hops), (2, 8));
    assert!(n.supports_relay);
    let w = constrained().transport_capabilities();
    assert_eq!((w.min_hops, w.max_hops), (3, 6));
    assert!(!w.supports_nat_traversal);
}

#[test]
fn fresh_controller_has_nothing() {
    let c = native();
    assert_eq!(c.local_peer_id(), None);
    assert_eq!(c.platform(), Platform::Native);
    assert_eq!(c.discover_peers("room"), Err(SwarmControllerError::NotConnected));
    assert_eq!(
        c.join_room("room", PeerCapabilities::default(), 1),
        Err(SwarmControllerError::NotConnected)
    );
    assert_eq!(c.get_swarm_entropy("room"), Err(SwarmControllerError::NotConnected));
}

#[test]
fn connect_keeps_the_peer_id_even_when_it_fails() {
    let mut c = native();
    let r = c.connect("sig.example", "me".to_string(), Err("refused".to_string()));
    assert_eq!(
        r,
        Err(SwarmControllerError::SignalingError(
            "Failed to connect to signaling server: Connection failed: WebSocket connection failed: refused"
                .to_string()
        ))
    );
    assert_eq!(c.local_peer_id(), Some("me".to_string()));
    assert!(!c.is_connected());
    assert_eq!(c.discover_peers("room"), Err(SwarmControllerError::NotConnected));
}

#[test]
fn connect_then_requests_are_frames() {
    let mut c = native();
    c.connect("sig.example", "me".to_string(), Ok(())).unwrap();
    assert!(c.is_connected());
    assert_eq!(
        c.discover_peers("test-room"),
        Ok(SignalingMessage::Discover { room_id: "test-room".to_string() })
    );
    match c.join_room("test-room", PeerCapabilities::default(), 99) {
        Ok(SignalingMessage::Join { room_id, peer_info }) => {
            assert_eq!(room_id, "test-room");
            assert_eq!(peer_info.peer_id, "me");
            assert_eq!(peer_info.last_seen, 99);
            assert_eq!(peer_info.capabilities.max_hops, 3);
            assert!(peer_info.public_key.is_empty());
            assert!(peer_info.addresses.is_empty());
        }
        other => panic!("unexpected {:?}", other),
    }
    let (frame, id) = c.get_swarm_entropy("test-room").unwrap();
    assert_eq!(
        frame,
        SignalingMessage::EntropyRequest { room_id: "test-room".to_string(), request_id: id }
    );
}

#[test]
fn disconnect_drops_the_client() {
    let mut c = native();
    c.connect("sig.example", "me".to_string(), Ok(())).unwrap();
    assert_eq!(c.disconnect(), Ok(()));
    assert!(!c.is_connected());
    assert_eq!(c.local_peer_id(), Some("me".to_string()));
    assert_eq!(c.discover_peers("r"), Err(SwarmControllerError::NotConnected));
    assert_eq!(c.disconnect(), Ok(()));
}

#[test]
fn signaling_outcomes_are_wrapped_with_context() {
    assert_eq!(SwarmController::room_joined(Ok(())), Ok(()));
    assert_eq!(
        SwarmController::room_joined(Err(SignalingError::ConnectionClosed)),
        Err(SwarmControllerError::SignalingError(
            "Failed to join room: Connection closed".to_string()
        ))
    );
    assert_eq!(
        SwarmController::peers_discovered(Err(SignalingError::UnexpectedMessage(
            "Expected Peers response"
        ))),
        Err(SwarmControllerError::SignalingError(
            "Failed to discover peers: Unexpected message: Expected Peers response".to_string()
        ))
    );
    assert_eq!(SwarmController::peers_discovered(Ok(peers(2))), Ok(peers(2)));
    assert_eq!(
        SwarmController::entropy_received(Err(SignalingError::InvalidEntropy(
            "Entropy must be 32 bytes"
        ))),
        Err(SwarmControllerError::SignalingError(
            "Failed to get swarm entropy: Invalid entropy: Entropy must be 32 bytes".to_string()
        ))
    );
    assert_eq!(SwarmController::entropy_received(Ok([3u8; 32])), Ok([3u8; 32]));
}

#[test]
fn min_hops_under_the_platform_minimum_is_invalid() {
    let r = native().build_onion_circuit("peerX", 1, 5, Ok(peers(10)));
    assert_eq!(
        r,
        Err(SwarmControllerError::InvalidCircuitConfig("Hops must be between 2 and 8".to_string()))
    );
}

#[test]
fn max_hops_over_the_platform_maximum_is_invalid() {
    let r = native().build_onion_circuit("peerX", 2, 9, Ok(peers(10)));
    assert_eq!(
        r,
        Err(SwarmControllerError::InvalidCircuitConfig("Hops must be between 2 and 8".to_string()))
    );
    let r = constrained().build_onion_circuit("peerX", 3, 7, Ok(peers(10)));
    assert_eq!(
        r,
        Err(SwarmControllerError::InvalidCircuitConfig("Hops must be between 3 and 6".to_string()))
    );
    let r = constrained().build_onion_circuit("peerX", 2, 6, Ok(peers(10)));
    assert_eq!(
        r,
        Err(SwarmControllerError::InvalidCircuitConfig("Hops must be between 3 and 6".to_string()))
    );
}

#[test]
fn invalid_config_wins_over_a_failed_discovery() {
    let r = native().build_onion_circuit("peerX", 1, 5, Err(SwarmControllerError::NotConnected));
    assert_eq!(
        r,
        Err(SwarmControllerError::InvalidCircuitConfig("Hops must be between 2 and 8".to_string()))
    );
    assert_eq!(
        native().check_circuit_config(1, 5),
        Err(SwarmControllerError::InvalidCircuitConfig("Hops must be between 2 and 8".to_string()))
    );
    assert_eq!(native().check_circuit_config(2, 8), Ok(()));
}

#[test]
fn failed_discovery_is_handed_on() {
    let r = native().build_onion_circuit("peerX", 2, 5, Err(SwarmControllerError::NotConnected));
    assert_eq!(r, Err(SwarmControllerError::NotConnected));
}

#[test]
fn two_peers_are_not_enough_for_five_hops() {
    let r = native().build_onion_circuit("peerX", 2, 5, Ok(peers(2)));
    assert_eq!(
        r,
        Err(SwarmControllerError::NotEnoughPeers(
            "Need at least 4 peers for 5-hop circuit, found 2".to_string()
        ))
    );
    assert_eq!(
        r.unwrap_err().to_string(),
        "Not enough peers available: Need at least 4 peers for 5-hop circuit, found 2"
    );
}

#[test]
fn exactly_enough_peers_make_a_circuit() {
    let found = peers(4);
    let plan = native().build_onion_circuit("peerX", 2, 5, Ok(found.clone())).unwrap();
    assert!(plan.circuit_id.starts_with("circuit_"));
    assert_eq!(plan.circuit_id.len(), 8 + 36);
    assert_eq!(plan.hops.len(), 5);
    assert_eq!(plan.hops[4].peer_id, "peerX");
    assert_eq!(plan.hops[4].last_seen, 0);
    assert_eq!(plan.hops[4].capabilities, PeerCapabilities::default());
    let mut relays: Vec<String> = plan.hops[..4].iter().map(|p| p.peer_id.clone()).collect();
    relays.sort();
    assert_eq!(relays, vec!["p0", "p1", "p2", "p3"]);
}

#[test]
fn relays_are_different_discovered_peers() {
    let found = peers(8);
    for _ in 0..20 {
        let plan = native().build_onion_circuit("target", 2, 4, Ok(found.clone())).unwrap();
        assert_eq!(plan.hops.len(), 4);
        assert_eq!(plan.hops[3].peer_id, "target");
        let relays = &plan.hops[..3];
        for r in relays {
            assert!(found.contains(r));
        }
        assert_ne!(relays[0].peer_id, relays[1].peer_id);
        assert_ne!(relays[0].peer_id, relays[2].peer_id);
        assert_ne!(relays[1].peer_id, relays[2].peer_id);
    }
}

#[test]
fn the_order_of_relays_is_left_to_chance() {
    let found = peers(8);
    let mut orders = Vec::new();
    for _ in 0..60 {
        let plan = native().build_onion_circuit("target", 2, 8, Ok(found.clone())).unwrap();
        let order: Vec<String> = plan.hops[..7].iter().map(|p| p.peer_id.clone()).collect();
        if !orders.contains(&order) {
            orders.push(order);
        }
    }
    assert!(orders.len() > 1);
}

#[test]
fn circuit_names_are_fresh() {
    let a = native().build_onion_circuit("t", 2, 2, Ok(peers(1))).unwrap();
    let b = native().build_onion_circuit("t", 2, 2, Ok(peers(1))).unwrap();
    assert_eq!(a.hops.len(), 2);
    assert_ne!(a.circuit_id, b.circuit_id);
}

#[test]
fn a_circuit_has_max_hops_hops_whatever_min_hops_is() {
    let plan = native().build_onion_circuit("t", 5, 3, Ok(peers(2))).unwrap();
    assert_eq!(plan.hops.len(), 3);
    let plan = native().build_onion_circuit("t", 8, 2, Ok(peers(1))).unwrap();
    assert_eq!(plan.hops.len(), 2);
    assert_eq!(
        native().build_onion_circuit("t", 2, 2, Ok(peers(0))),
        Err(SwarmControllerError::NotEnoughPeers(
            "Need at least 1 peers for 2-hop circuit, found 0".to_string()
        ))
    );
}

#[test]
fn either_hop_count_outside_the_bounds_is_invalid() {
    let invalid =
        Err(SwarmControllerError::InvalidCircuitConfig("Hops must be between 2 and 8".to_string()));
    assert_eq!(native().check_circuit_config(2, 1), invalid);
    assert_eq!(native().check_circuit_config(2, 0), invalid);
    assert_eq!(native().check_circuit_config(9, 8), invalid);
    assert_eq!(native().check_circuit_config(0, 0), invalid);
    assert_eq!(native().check_circuit_config(8, 2), Ok(()));
    assert_eq!(native().check_circuit_config(2, 2), Ok(()));
    assert_eq!(native().check_circuit_config(8, 8), Ok(()));
    assert_eq!(constrained().check_circuit_config(3, 6), Ok(()));
    assert_eq!(constrained().check_circuit_config(6, 3), Ok(()));
}

#[test]
fn planned_circuits_keep_to_the_platform_bounds() {
    for min_hops in 0u8..=10 {
        for max_hops in 0u8..=10 {
            for controller in [native(), constrained()] {
                let caps = controller.transport_capabilities();
                match controller.build_onion_circuit("t", min_hops, max_hops, Ok(peers(12))) {
                    Ok(plan) => {
                        assert_eq!(plan.hops.len(), max_hops as usize);
                        assert!(caps.min_hops as usize <= plan.hops.len());
                        assert!(plan.hops.len() <= caps.max_hops as usize);
                    }
                    Err(SwarmControllerError::InvalidCircuitConfig(_)) => {
                        assert!(
                            min_hops < caps.min_hops
                                || min_hops > caps.max_hops
                                || max_hops < caps.min_hops
                                || max_hops > caps.max_hops
                        );
                    }
                    Err(other) => panic!("unexpected {:?}", other),
                }
            }
        }
    }
}

#[test]
fn select_route_takes_the_first_candidates_in_order() {
    let hops = select_route(peers(5), "target", 4);
    let ids: Vec<&str> = hops.iter().map(|p| p.peer_id.as_str()).collect();
    assert_eq!(ids, vec!["p0", "p1", "p2", "target"]);
    let hops = select_route(peers(1), "target", 4);
    let ids: Vec<&str> = hops.iter().map(|p| p.peer_id.as_str()).collect();
    assert_eq!(ids, vec!["p0", "target"]);
    let hops = select_route(peers(3), "target", 1);
    assert_eq!(hops.len(), 1);
    let hops = select_route(peers(3), "target", 0);
    assert_eq!(hops.len(), 1);
}

#[test]
fn data_path_calls_succeed_without_effect() {
    let c = native();
    assert_eq!(c.send_through_circuit("circuit_x", &[1, 2, 3]), Ok(()));
    assert_eq!(c.receive_from_circuit("circuit_x"), Ok(None));
}

#[test]
fn teardown_twice_does_not_fail() {
    let c = native();
    assert_eq!(c.teardown_circuit("circuit_x"), Ok(()));
    assert_eq!(c.teardown_circuit("circuit_x"), Ok(()));
}

#[test]
fn circuit_room_is_default() {
    assert_eq!(CIRCUIT_ROOM, "default");
}

#[test]
fn onion_stream_is_bound_to_its_circuit() {
    let s = OnionStream::new("circuit_1".to_string());
    assert_eq!(s.circuit_id(), "circuit_1");
    let s = native().create_onion_stream("circuit_2").ok().unwrap();
    assert_eq!(s.circuit_id(), "circuit_2");
}

#[test]
fn onion_stream_reads_what_was_delivered_in_order() {
    let mut s = OnionStream::new("c".to_string());
    assert_eq!(s.read(16), Vec::<u8>::new());
    s.deliver(&[1, 2, 3, 4, 5]);
    assert_eq!(s.read(2), vec![1, 2]);
    s.deliver(&[6]);
    assert_eq!(s.read(0), Vec::<u8>::new());
    assert_eq!(s.read(10), vec![3, 4, 5, 6]);
    assert_eq!(s.read(10), Vec::<u8>::new());
}

#[test]
fn onion_stream_queues_what_was_written() {
    let mut s = OnionStream::new("c".to_string());
    assert_eq!(s.write(&[1, 2, 3]), 3);
    assert_eq!(s.write(&[]), 0);
    assert_eq!(s.write(&[4]), 1);
    assert_eq!(s.take_written(), vec![1, 2, 3, 4]);
    assert_eq!(s.take_written(), Vec::<u8>::new());
    assert_eq!(s.read(4), Vec::<u8>::new());
}

#[test]
fn every_controller_error_has_its_line() {
    assert_eq!(SwarmControllerError::NotConnected.to_string(), "Not connected to swarm");
    assert_eq!(
        SwarmControllerError::SignalingError("x".to_string()).to_string(),
        "Signaling error: x"
    );
    assert_eq!(
        SwarmControllerError::TransportError("x".to_string()).to_string(),
        "Transport error: x"
    );
    assert_eq!(
        SwarmControllerError::InvalidCircuitConfig("x".to_string()).to_string(),
        "Invalid circuit configuration: x"
    );
    assert_eq!(
        SwarmControllerError::NotEnoughPeers("x".to_string()).to_string(),
        "Not enough peers available: x"
    );
    assert_eq!(SwarmControllerError::CircuitError("x".to_string()).to_string(), "Circuit error: x");
    assert_eq!(SwarmControllerError::Io("x".to_string()).to_string(), "IO error: x");
}

#[test]
fn frames_go_to_the_signaling_client() {
    let mut c = native();
    assert_eq!(c.receive_frame(Incoming::Ping), Err(SwarmControllerError::NotConnected));
    c.connect("sig.example", "me".to_string(), Ok(())).unwrap();
    assert_eq!(c.receive_frame(Incoming::Pong), Ok(None));
    assert_eq!(
        c.receive_frame(Incoming::Text(SignalingMessage::Peers { peers: peers(1) })),
        Ok(Some(Ok(SignalingMessage::Peers { peers: peers(1) })))
    );
    assert_eq!(c.receive_frame(Incoming::End), Ok(Some(Err(SignalingError::ConnectionClosed))));
    assert!(c.is_connected());
}

#[test]
fn the_target_is_no_candidate_for_relaying() {
    let mut found = peers(3);
    found.insert(1, peer("target"));
    let kept = relay_candidates(found, "target");
    assert_eq!(kept, peers(3));
    assert_eq!(relay_candidates(peers(2), "target"), peers(2));
    assert_eq!(relay_candidates(vec![peer("target"), peer("target")], "target"), vec![]);
    assert_eq!(relay_candidates(vec![], "target"), vec![]);
}

#[test]
fn a_discovered_target_does_not_count_towards_the_relays() {
    let r = native().build_onion_circuit("target", 2, 2, Ok(vec![peer("target")]));
    assert_eq!(
        r,
        Err(SwarmControllerError::NotEnoughPeers(
            "Need at least 1 peers for 2-hop circuit, found 0".to_string()
        ))
    );
    let mut found = peers(3);
    found.push(peer("p9"));
    let r = native().build_onion_circuit("p9", 2, 5, Ok(found));
    assert_eq!(
        r,
        Err(SwarmControllerError::NotEnoughPeers(
            "Need at least 4 peers for 5-hop circuit, found 3".to_string()
        ))
    );
}

#[test]
fn the_target_never_relays_its_own_circuit() {
    let mut found = peers(4);
    found.insert(2, peer("p9"));
    for _ in 0..30 {
        let plan = native().build_onion_circuit("p9", 2, 5, Ok(found.clone())).unwrap();
        assert_eq!(plan.hops.len(), 5);
        assert_eq!(plan.hops[4].peer_id, "p9");
        assert_eq!(plan.hops[4].last_seen, 0);
        for relay in &plan.hops[..4] {
            assert_ne!(relay.peer_id, "p9");
        }
        let mut relays: Vec<String> = plan.hops[..4].iter().map(|p| p.peer_id.clone()).collect();
        relays.sort();
        assert_eq!(relays, vec!["p0", "p1", "p2", "p3"]);
    }
}

#[test]
fn connected_means_that_requests_are_answered_with_frames() {
    let mut c = native();
    assert!(!c.is_connected());
    assert!(c.discover_peers("r").is_err());
    c.connect("sig.example", "me".to_string(), Err("down".to_string())).unwrap_err();
    assert!(!c.is_connected());
    assert!(c.join_room("r", PeerCapabilities::default(), 0).is_err());
    c.connect("sig.example", "me".to_string(), Ok(())).unwrap();
    assert!(c.is_connected());
    assert!(c.discover_peers("r").is_ok());
    assert!(c.get_swarm_entropy("r").is_ok());
    c.connect("sig.example", "me".to_string(), Err("down".to_string())).unwrap_err();
    assert!(c.is_connected());
    assert!(c.discover_peers("r").is_ok());
    c.disconnect().unwrap();
    assert!(!c.is_connected());
    assert!(c.get_swarm_entropy("r").is_err());
}
