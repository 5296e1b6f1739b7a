use zks_wire::onion_transport::{
    convert_relay_url, describe_failure, parse_hops, BrowserOnionTransport,
    BrowserTransportConfig, OnionError, OnionHop, OnionMessage,
};
use zks_wire::shims::DecodeFailure;
use zks_wire::transport::{Reconnect, TransportState};

fn hop(text: &str) -> Option<String> {
    Some(text.to_string())
}

fn connected() -> BrowserOnionTransport {
    let mut t = BrowserOnionTransport::new("relay.example".to_string(), 3);
    t.connect(Ok(())).unwrap();
    t.on_open();
    t
}

#[test]
fn relay_addresses_become_socket_addresses() {
    assert_eq!(convert_relay_url("ws://r/x"), "ws://r/x");
    assert_eq!(convert_relay_url("wss://r/x"), "wss://r/x");
    assert_eq!(convert_relay_url("http://r/x"), "ws://r/x");
    assert_eq!(convert_relay_url("https://r/x"), "wss://r/x");
    assert_eq!(convert_relay_url("relay.example"), "wss://relay.example/onion");
    assert_eq!(convert_relay_url("relay.example//"), "wss://relay.example/onion");
    assert_eq!(convert_relay_url("http://r/?u=http://q"), "ws://r/?u=ws://q");
}

#[test]
fn config_builders_change_one_field_each() {
    let c = BrowserTransportConfig::new("r".to_string());
    assert_eq!(c.relay_url, "r");
    assert_eq!(c.max_circuit_hops, 3);
    assert_eq!(c.circuit_timeout_ms, 30000);
    assert_eq!(c.max_reconnect_attempts, 3);
    assert_eq!(c.reconnect_delay_ms, 1000);
    let c = c
        .with_max_hops(5)
        .with_circuit_timeout(10)
        .with_reconnect_attempts(7)
        .with_reconnect_delay(20);
    assert_eq!(c.relay_url, "r");
    assert_eq!(c.max_circuit_hops, 5);
    assert_eq!(c.circuit_timeout_ms, 10);
    assert_eq!(c.max_reconnect_attempts, 7);
    assert_eq!(c.reconnect_delay_ms, 20);
    assert_eq!(c.clone(), c);
}

#[test]
fn a_hop_descriptor_has_three_fields() {
    let h = OnionHop::parse("wss://relayA,peerA,aGVsbG8=").unwrap();
    assert_eq!(h.relay_url, "wss://relayA");
    assert_eq!(h.peer_id, "peerA");
    assert_eq!(h.public_key, b"hello".to_vec());
    assert_eq!(h.clone(), h);
}

#[test]
fn a_hop_with_an_empty_key_is_a_hop() {
    let h = OnionHop::parse("r,p,").unwrap();
    assert_eq!(h.public_key, Vec::<u8>::new());
    let h = OnionHop::parse(",,").unwrap();
    assert_eq!(h.relay_url, "");
    assert_eq!(h.peer_id, "");
}

#[test]
fn two_fields_are_no_hop() {
    let e = OnionHop::parse("relayA,peerA").unwrap_err();
    assert_eq!(e, OnionError::HopFormat);
    assert_eq!(e.to_string(), "Each hop must be in format: relay_url,peer_id,public_key");
}

#[test]
fn four_fields_or_none_are_no_hop() {
    assert_eq!(OnionHop::parse("a,b,c,d"), Err(OnionError::HopFormat));
    assert_eq!(OnionHop::parse(""), Err(OnionError::HopFormat));
    assert_eq!(OnionHop::parse("abc"), Err(OnionError::HopFormat));
}

#[test]
fn a_key_that_is_no_base64_is_reported_with_the_decoders_words() {
    let e = OnionHop::parse("r,p,!!!!").unwrap_err();
    assert_eq!(e, OnionError::InvalidPublicKey(DecodeFailure::InvalidByte(0, b'!')));
    assert_eq!(e.to_string(), "Invalid public key: Invalid symbol 33, offset 0.");
    let e = OnionHop::parse("r,p,aGVsbG8").unwrap_err();
    assert_eq!(e, OnionError::InvalidPublicKey(DecodeFailure::InvalidPadding));
    assert_eq!(e.to_string(), "Invalid public key: Invalid padding");
}

#[test]
fn decode_failures_read_as_the_decoder_writes_them() {
    assert_eq!(describe_failure(DecodeFailure::InvalidLength(13)), "Invalid input length: 13");
    assert_eq!(
        describe_failure(DecodeFailure::InvalidLastSymbol(5, 66)),
        "Invalid last symbol 66, offset 5."
    );
    assert_eq!(
        describe_failure(DecodeFailure::InvalidByte(120, 0)),
        "Invalid symbol 0, offset 120."
    );
}

#[test]
fn from_parts_takes_the_decoded_key() {
    let h = OnionHop::from_parts("r".to_string(), "p".to_string(), Ok(vec![1, 2])).unwrap();
    assert_eq!(h, OnionHop { relay_url: "r".to_string(), peer_id: "p".to_string(), public_key: vec![1, 2] });
    let e = OnionHop::from_parts(
        "r".to_string(),
        "p".to_string(),
        Err(DecodeFailure::InvalidLength(1)),
    );
    assert_eq!(e, Err(OnionError::InvalidPublicKey(DecodeFailure::InvalidLength(1))));
}

#[test]
fn the_first_bad_descriptor_decides() {
    assert_eq!(parse_hops(&vec![]), Ok(vec![]));
    assert_eq!(parse_hops(&vec![hop("a,b,"), None, hop("bad")]), Err(OnionError::HopNotText));
    assert_eq!(parse_hops(&vec![hop("bad"), None]), Err(OnionError::HopFormat));
    assert_eq!(OnionError::HopNotText.to_string(), "Invalid hop format");
    let hops = parse_hops(&vec![hop("a,b,AQ=="), hop("c,d,Ag==")]).unwrap();
    assert_eq!(hops.len(), 2);
    assert_eq!(hops[0].public_key, vec![1]);
    assert_eq!(hops[1].relay_url, "c");
}

#[test]
fn new_transport_holds_nothing() {
    let mut t = BrowserOnionTransport::new("relay.example".to_string(), 4);
    assert_eq!(t.get_state(), TransportState::Disconnected);
    assert!(!t.is_connected());
    assert_eq!(t.reconnect_attempts(), 0);
    assert_eq!(t.receive_from_circuit("any"), None);
    assert_eq!(t.connect_url(), "wss://relay.example/onion");
    let c = t.config();
    assert_eq!(c.max_reconnect_attempts, 4);
    assert_eq!(c.max_circuit_hops, 3);
    assert_eq!(c.reconnect_delay_ms, 1000);
}

#[test]
fn a_malformed_hop_is_rejected_before_anything_is_stored_or_sent() {
    let mut t = connected();
    let r = t.build_circuit(vec![hop("relayA,peerA")]);
    assert_eq!(r, Err(OnionError::HopFormat));
    let r = t.build_circuit(vec![hop("r,p,AQ=="), hop("relayA,peerA")]);
    assert_eq!(r, Err(OnionError::HopFormat));
    assert_eq!(t.send_through_circuit("anything", &[1]), Err(OnionError::CircuitNotFound));
}

#[test]
fn build_circuit_stores_the_circuit_and_frames_the_request() {
    let mut t = connected();
    let (id, frame) = t.build_circuit(vec![hop("r1,p1,AQ=="), hop("r2,p2,Ag==")]).unwrap();
    assert_eq!(id.len(), 36);
    match frame {
        OnionMessage::BuildCircuit { circuit_id, hops } => {
            assert_eq!(circuit_id, id);
            assert_eq!(hops.len(), 2);
            assert_eq!(hops[0].peer_id, "p1");
            assert_eq!(hops[1].public_key, vec![2]);
        }
        other => panic!("unexpected {:?}", other),
    }
    assert_eq!(
        t.send_through_circuit(&id, &[9, 8]),
        Ok(OnionMessage::ForwardData { circuit_id: id.clone(), data: vec![9, 8] })
    );
}

#[test]
fn circuits_get_different_identifiers() {
    let mut t = connected();
    let (a, _) = t.build_circuit(vec![hop("r,p,")]).unwrap();
    let (b, _) = t.build_circuit(vec![hop("r,p,")]).unwrap();
    assert_ne!(a, b);
    assert!(t.send_through_circuit(&a, &[]).is_ok());
    assert!(t.send_through_circuit(&b, &[]).is_ok());
}

#[test]
fn without_a_socket_nothing_is_sent() {
    let mut t = BrowserOnionTransport::new("relay.example".to_string(), 3);
    assert_eq!(t.build_circuit(vec![hop("r,p,")]), Err(OnionError::NotConnected));
    assert_eq!(t.teardown_circuit("x"), Err(OnionError::NotConnected));
    assert_eq!(OnionError::NotConnected.to_string(), "Not connected to relay");
}

#[test]
fn sending_through_an_unknown_circuit_is_refused() {
    let t = connected();
    let e = t.send_through_circuit("nope", &[1]).unwrap_err();
    assert_eq!(e, OnionError::CircuitNotFound);
    assert_eq!(e.to_string(), "Circuit not found");
}

#[test]
fn teardown_forgets_the_circuit() {
    let mut t = connected();
    let (id, _) = t.build_circuit(vec![hop("r,p,")]).unwrap();
    assert_eq!(
        t.teardown_circuit(&id),
        Ok(OnionMessage::TearDownCircuit { circuit_id: id.clone() })
    );
    assert_eq!(t.send_through_circuit(&id, &[1]), Err(OnionError::CircuitNotFound));
}

#[test]
fn teardown_twice_answers_twice_the_same() {
    let mut t = connected();
    let (id, _) = t.build_circuit(vec![hop("r,p,")]).unwrap();
    let (other, _) = t.build_circuit(vec![hop("r,p,")]).unwrap();
    let first = t.teardown_circuit(&id);
    let second = t.teardown_circuit(&id);
    assert_eq!(first, second);
    assert!(first.is_ok());
    assert!(t.send_through_circuit(&other, &[1]).is_ok());
}

#[test]
fn payloads_come_out_in_order_whatever_the_circuit() {
    let mut t = connected();
    t.on_message(OnionMessage::DataReceived { circuit_id: "a".to_string(), data: vec![1] });
    t.on_message(OnionMessage::CircuitBuilt { circuit_id: "a".to_string() });
    t.on_message(OnionMessage::DataReceived { circuit_id: "b".to_string(), data: vec![2] });
    assert_eq!(t.receive_from_circuit("b"), Some(vec![1]));
    assert_eq!(t.receive_from_circuit("a"), Some(vec![2]));
    assert_eq!(t.receive_from_circuit("a"), None);
}

#[test]
fn a_teardown_from_the_relay_drops_the_circuit() {
    let mut t = connected();
    let (a, _) = t.build_circuit(vec![hop("r,p,")]).unwrap();
    let (b, _) = t.build_circuit(vec![hop("r,p,")]).unwrap();
    t.on_message(OnionMessage::CircuitTornDown { circuit_id: a.clone() });
    assert_eq!(t.send_through_circuit(&a, &[1]), Err(OnionError::CircuitNotFound));
    t.on_message(OnionMessage::TearDownCircuit { circuit_id: b.clone() });
    assert_eq!(t.send_through_circuit(&b, &[1]), Err(OnionError::CircuitNotFound));
}

#[test]
fn other_frames_change_nothing() {
    let mut t = connected();
    let (a, _) = t.build_circuit(vec![hop("r,p,")]).unwrap();
    t.on_message(OnionMessage::Error {
        circuit_id: Some(a.clone()),
        code: "E".to_string(),
        message: "m".to_string(),
    });
    t.on_message(OnionMessage::ForwardData { circuit_id: a.clone(), data: vec![1] });
    t.on_message(OnionMessage::BuildCircuit { circuit_id: a.clone(), hops: vec![] });
    assert!(t.send_through_circuit(&a, &[1]).is_ok());
    assert_eq!(t.receive_from_circuit(&a), None);
}

#[test]
fn close_clears_circuits_and_queue() {
    let mut t = connected();
    let (a, _) = t.build_circuit(vec![hop("r,p,")]).unwrap();
    t.on_message(OnionMessage::DataReceived { circuit_id: a.clone(), data: vec![1] });
    assert_eq!(t.on_close(), Reconnect::After(1000));
    assert_eq!(t.get_state(), TransportState::Disconnected);
    assert_eq!(t.send_through_circuit(&a, &[1]), Err(OnionError::CircuitNotFound));
    assert_eq!(t.receive_from_circuit(&a), None);
}

#[test]
fn error_clears_circuits_and_queue() {
    let mut t = connected();
    let (a, _) = t.build_circuit(vec![hop("r,p,")]).unwrap();
    t.on_message(OnionMessage::DataReceived { circuit_id: a.clone(), data: vec![1] });
    t.on_error();
    assert_eq!(t.get_state(), TransportState::Error);
    assert_eq!(t.send_through_circuit(&a, &[1]), Err(OnionError::CircuitNotFound));
    assert_eq!(t.receive_from_circuit(&a), None);
}

#[test]
fn exactly_three_reconnections_are_scheduled() {
    let config = BrowserTransportConfig::new("relay.example".to_string())
        .with_reconnect_attempts(3)
        .with_reconnect_delay(750);
    let mut t = BrowserOnionTransport::with_config(config);
    t.connect(Ok(())).unwrap();
    t.on_open();
    assert_eq!(t.on_close(), Reconnect::After(750));
    assert_eq!(t.on_close(), Reconnect::After(750));
    assert_eq!(t.on_close(), Reconnect::After(750));
    assert_eq!(t.on_close(), Reconnect::GiveUp);
    assert_eq!(t.on_close(), Reconnect::GiveUp);
    assert_eq!(t.reconnect_attempts(), 3);
    assert_eq!(t.get_state(), TransportState::Disconnected);
    assert!(!t.is_connected());
    t.on_open();
    assert_eq!(t.reconnect_attempts(), 0);
    assert!(t.is_connected());
}

#[test]
fn disconnect_lets_go_of_everything() {
    let mut t = connected();
    let (a, _) = t.build_circuit(vec![hop("r,p,")]).unwrap();
    t.on_message(OnionMessage::DataReceived { circuit_id: a.clone(), data: vec![1] });
    t.on_close();
    t.disconnect();
    assert_eq!(t.get_state(), TransportState::Disconnected);
    assert_eq!(t.reconnect_attempts(), 0);
    assert_eq!(t.receive_from_circuit(&a), None);
    assert_eq!(t.teardown_circuit(&a), Err(OnionError::NotConnected));
}

#[test]
fn a_socket_that_could_not_be_made_is_reported() {
    let mut t = BrowserOnionTransport::new("relay.example".to_string(), 3);
    assert_eq!(t.connect(Err("bad url".to_string())), Err(OnionError::Socket("bad url".to_string())));
    assert_eq!(t.get_state(), TransportState::Disconnected);
    assert_eq!(OnionError::Socket("bad url".to_string()).to_string(), "bad url");
    assert_eq!(
        OnionError::Serialization("x".to_string()).to_string(),
        "Failed to serialize message: x"
    );
}

#[test]
fn an_identifier_in_use_is_not_given_to_another_circuit() {
    let mut t = connected();
    let first = OnionHop::parse("r1,p1,AQ==").unwrap();
    let second = OnionHop::parse("r2,p2,Ag==").unwrap();
    assert_eq!(
        t.store_circuit("id-1".to_string(), vec![first.clone()]),
        Ok(OnionMessage::BuildCircuit { circuit_id: "id-1".to_string(), hops: vec![first] })
    );
    let e = t.store_circuit("id-1".to_string(), vec![second.clone()]);
    assert_eq!(e, Err(OnionError::IdentifierInUse));
    assert_eq!(OnionError::IdentifierInUse.to_string(), "Circuit identifier already in use");
    assert!(t.send_through_circuit("id-1", &[1]).is_ok());
    assert!(t.store_circuit("id-2".to_string(), vec![second]).is_ok());
    t.teardown_circuit("id-1").unwrap();
    assert!(t.store_circuit("id-1".to_string(), vec![]).is_ok());
}

#[test]
fn a_circuit_stored_without_a_socket_stays_stored() {
    let mut t = BrowserOnionTransport::new("relay.example".to_string(), 3);
    assert_eq!(t.store_circuit("id-1".to_string(), vec![]), Err(OnionError::NotConnected));
    assert_eq!(t.store_circuit("id-1".to_string(), vec![]), Err(OnionError::IdentifierInUse));
    t.connect(Ok(())).unwrap();
    assert!(t.send_through_circuit("id-1", &[1]).is_ok());
}
