use zks_wire::transport::{
    convert_zk_url, Reconnect, ReconnectPolicy, TransportConfig, TransportError, TransportState,
    WebSocketTransport,
};

#[test]
fn zk_schemes_become_socket_schemes() {
    assert_eq!(convert_zk_url("zk://host:1"), "ws://host:1");
    assert_eq!(convert_zk_url("zks://host:1/path"), "wss://host:1/path");
    assert_eq!(convert_zk_url("ws://host"), "ws://host");
    assert_eq!(convert_zk_url("host"), "host");
    assert_eq!(convert_zk_url(""), "");
}

#[test]
fn every_occurrence_of_a_scheme_is_rewritten() {
    assert_eq!(convert_zk_url("zk://a?next=zk://b"), "ws://a?next=ws://b");
    assert_eq!(convert_zk_url("zks://a?next=zk://b"), "wss://a?next=ws://b");
    assert_eq!(convert_zk_url("zzk://a"), "zws://a");
}

#[test]
fn default_config_reconnects_three_times_a_second_apart() {
    let c = TransportConfig::new("zk://relay".to_string());
    assert_eq!(c.url(), "zk://relay");
    assert_eq!(c.max_reconnect_attempts(), 3);
    assert_eq!(c.reconnect_delay_ms(), 1000);
    assert_eq!(c.clone(), c);
}

#[test]
fn new_transport_is_disconnected_and_empty() {
    let mut t = WebSocketTransport::new("zk://relay".to_string(), 5);
    assert_eq!(t.get_state(), TransportState::Disconnected);
    assert!(!t.is_connected());
    assert_eq!(t.get_pending_message_count(), 0);
    assert_eq!(t.reconnect_attempts(), 0);
    assert_eq!(t.receive(), None);
    assert_eq!(t.send(&[1]), Err(TransportError::NotConnected));
    assert_eq!(t.connect_url(), "ws://relay");
    let c = t.config();
    assert_eq!(c.url, "zk://relay");
    assert_eq!(c.max_reconnect_attempts, 5);
    assert_eq!(c.reconnect_delay_ms, 1000);
}

#[test]
fn connect_then_open_then_send() {
    let mut t = WebSocketTransport::new("zks://relay".to_string(), 3);
    assert_eq!(t.connect(Ok(())), Ok(()));
    assert_eq!(t.get_state(), TransportState::Connecting);
    assert!(!t.is_connected());
    assert_eq!(t.send(&[1, 2]), Ok(()));
    t.on_open();
    assert!(t.is_connected());
    assert_eq!(t.get_state(), TransportState::Connected);
}

#[test]
fn a_socket_that_could_not_be_made_changes_nothing() {
    let mut t = WebSocketTransport::new("zks://relay".to_string(), 3);
    assert_eq!(
        t.connect(Err("SyntaxError".to_string())),
        Err(TransportError::Socket("SyntaxError".to_string()))
    );
    assert_eq!(t.get_state(), TransportState::Disconnected);
    assert_eq!(t.send(&[1]), Err(TransportError::NotConnected));
    assert_eq!(TransportError::Socket("SyntaxError".to_string()).to_string(), "SyntaxError");
    assert_eq!(TransportError::NotConnected.to_string(), "Not connected");
}

#[test]
fn payloads_are_received_in_the_order_of_arrival() {
    let mut t = WebSocketTransport::new("zk://relay".to_string(), 3);
    t.on_message(vec![1]);
    t.on_message(vec![2, 2]);
    t.on_message(vec![]);
    assert_eq!(t.get_pending_message_count(), 3);
    assert_eq!(t.receive(), Some(vec![1]));
    assert_eq!(t.receive(), Some(vec![2, 2]));
    assert_eq!(t.get_pending_message_count(), 1);
    assert_eq!(t.receive(), Some(vec![]));
    assert_eq!(t.receive(), None);
}

#[test]
fn error_event_sets_the_error_state() {
    let mut t = WebSocketTransport::new("zk://relay".to_string(), 3);
    t.connect(Ok(())).unwrap();
    t.on_open();
    t.on_message(vec![1]);
    t.on_error();
    assert_eq!(t.get_state(), TransportState::Error);
    assert_eq!(t.get_pending_message_count(), 1);
}

#[test]
fn three_attempts_are_scheduled_and_then_none() {
    let mut t = WebSocketTransport::new("zk://relay".to_string(), 3);
    t.connect(Ok(())).unwrap();
    t.on_open();
    assert_eq!(t.on_close(), Reconnect::After(1000));
    assert_eq!(t.reconnect_attempts(), 1);
    assert_eq!(t.on_close(), Reconnect::After(1000));
    assert_eq!(t.on_close(), Reconnect::After(1000));
    assert_eq!(t.reconnect_attempts(), 3);
    assert_eq!(t.on_close(), Reconnect::GiveUp);
    assert_eq!(t.on_close(), Reconnect::GiveUp);
    assert_eq!(t.reconnect_attempts(), 3);
    assert_eq!(t.get_state(), TransportState::Disconnected);
}

#[test]
fn a_successful_open_resets_the_attempts() {
    let mut t = WebSocketTransport::new("zk://relay".to_string(), 2);
    assert_eq!(t.on_close(), Reconnect::After(1000));
    assert_eq!(t.on_close(), Reconnect::After(1000));
    assert_eq!(t.on_close(), Reconnect::GiveUp);
    t.on_open();
    assert_eq!(t.reconnect_attempts(), 0);
    assert_eq!(t.on_close(), Reconnect::After(1000));
    assert_eq!(t.reconnect_attempts(), 1);
}

#[test]
fn no_attempt_is_allowed_with_a_maximum_of_zero() {
    let mut t = WebSocketTransport::new("zk://relay".to_string(), 0);
    assert_eq!(t.on_close(), Reconnect::GiveUp);
    assert_eq!(t.reconnect_attempts(), 0);
}

#[test]
fn attempts_never_pass_the_maximum() {
    for max in 0u32..6 {
        let mut t = WebSocketTransport::new("zk://relay".to_string(), max);
        for _ in 0..10 {
            t.on_close();
            assert!(t.reconnect_attempts() <= max);
        }
        assert_eq!(t.reconnect_attempts(), max);
    }
}

#[test]
fn disconnect_clears_queue_and_attempts() {
    let mut t = WebSocketTransport::new("zk://relay".to_string(), 3);
    t.connect(Ok(())).unwrap();
    t.on_open();
    t.on_message(vec![1]);
    t.on_close();
    t.disconnect();
    assert_eq!(t.get_state(), TransportState::Disconnected);
    assert_eq!(t.get_pending_message_count(), 0);
    assert_eq!(t.reconnect_attempts(), 0);
    assert_eq!(t.send(&[1]), Err(TransportError::NotConnected));
}

#[test]
fn policy_counts_on_its_own() {
    let mut p = ReconnectPolicy::new(2, 250);
    assert_eq!(p.max_attempts(), 2);
    assert_eq!(p.delay_ms(), 250);
    assert_eq!(p.attempts(), 0);
    assert_eq!(p.on_close(), Reconnect::After(250));
    assert_eq!(p.on_close(), Reconnect::After(250));
    assert_eq!(p.on_close(), Reconnect::GiveUp);
    assert_eq!(p.attempts(), 2);
    p.reset();
    assert_eq!(p.attempts(), 0);
}

#[test]
fn policy_at_the_largest_maximum_does_not_overflow() {
    let mut p = ReconnectPolicy::new(u32::MAX, 1);
    assert_eq!(p.on_close(), Reconnect::After(1));
    assert_eq!(p.attempts(), 1);
}
