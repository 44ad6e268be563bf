use embedded_nal::IpAddr;
use embedded_nal::Ipv4Addr;
use mqtt_session::SessionError;
use mqtt_session::SessionState;

fn local_broker() -> IpAddr {
    IpAddr::V4(Ipv4Addr::new(127, 0, 0, 1))
}

#[test]
fn construct_defaults() {
    let broker = local_broker();
    let mut session = SessionState::new(broker, "IntegrationTest").unwrap();
    assert_eq!(session.connected, false);
    assert_eq!(session.keep_alive_interval, 10);
    assert!(session.maximum_packet_size.is_none());
    assert_eq!(session.get_packet_identifier(), 1);
    assert_eq!(session.pending_count(), 0);
    assert!(!session.has_pending());
    assert_eq!(session.client_id.as_str(), "IntegrationTest");
    assert_eq!(session.broker, broker);
}

#[test]
fn pending_subscriptions_roundtrip() {
    // The subscribe requests for the "response" and "request" topics carry
    // packet identifiers 1 and 2; both acknowledgements retire them, which
    // unblocks a dependent publish action.
    let mut session = SessionState::new(local_broker(), "IntegrationTest").unwrap();
    session.insert_pending_subscription(1).unwrap();
    session.insert_pending_subscription(2).unwrap();
    assert_eq!(session.pending_count(), 2);
    assert!(session.has_pending());
    session.remove_pending_subscription(1);
    session.remove_pending_subscription(2);
    assert_eq!(session.pending_count(), 0);
    assert!(!session.has_pending());
}

#[test]
fn advance_five_then_reset() {
    let mut session = SessionState::new(local_broker(), "IntegrationTest").unwrap();
    for _ in 0..5 {
        session.increment_packet_identifier();
    }
    assert_eq!(session.get_packet_identifier(), 6);
    session.reset();
    assert_eq!(session.get_packet_identifier(), 1);
}

#[test]
fn reset_restores_defaults_and_keeps_identity() {
    let broker = local_broker();
    let mut session = SessionState::new(broker, "IntegrationTest").unwrap();
    session.connected = true;
    session.keep_alive_interval = 60;
    session.maximum_packet_size = Some(1024);
    session.insert_pending_subscription(7).unwrap();
    for _ in 0..3 {
        session.increment_packet_identifier();
    }
    session.reset();
    assert_eq!(session.connected, false);
    assert_eq!(session.keep_alive_interval, 10);
    assert!(session.maximum_packet_size.is_none());
    assert_eq!(session.pending_count(), 0);
    assert_eq!(session.get_packet_identifier(), 1);
    assert_eq!(session.broker, broker);
    assert_eq!(session.client_id.as_str(), "IntegrationTest");
    // A second reset observes exactly the same state: reset is idempotent.
    session.reset();
    assert_eq!(session.connected, false);
    assert_eq!(session.keep_alive_interval, 10);
    assert!(session.maximum_packet_size.is_none());
    assert_eq!(session.pending_count(), 0);
    assert_eq!(session.get_packet_identifier(), 1);
    assert_eq!(session.broker, broker);
    assert_eq!(session.client_id.as_str(), "IntegrationTest");
}

#[test]
fn full_cycle_never_emits_zero() {
    let mut session = SessionState::new(local_broker(), "IntegrationTest").unwrap();
    for _ in 0..65535u32 {
        session.increment_packet_identifier();
        assert_ne!(session.get_packet_identifier(), 0);
    }
    // After exactly 65535 advances from 1 the allocator is back at 1.
    assert_eq!(session.get_packet_identifier(), 1);
}

#[test]
fn wraparound_skips_zero() {
    let mut session = SessionState::new(local_broker(), "IntegrationTest").unwrap();
    for _ in 0..65534u32 {
        session.increment_packet_identifier();
    }
    assert_eq!(session.get_packet_identifier(), 65535);
    session.increment_packet_identifier();
    assert_eq!(session.get_packet_identifier(), 1);
}

#[test]
fn pending_capacity_is_exactly_32() {
    let mut session = SessionState::new(local_broker(), "IntegrationTest").unwrap();
    for id in 0..32u16 {
        assert_eq!(session.insert_pending_subscription(id), Ok(()));
    }
    assert_eq!(session.pending_count(), 32);
    // The 33rd insertion fails loudly and changes nothing.
    assert_eq!(
        session.insert_pending_subscription(32),
        Err(SessionError::Capacity)
    );
    assert_eq!(session.pending_count(), 32);
}

#[test]
fn over_long_identifier_is_rejected() {
    let exact = "a".repeat(32);
    assert!(SessionState::new(local_broker(), &exact).is_ok());
    let over = "a".repeat(33);
    match SessionState::new(local_broker(), &over) {
        Err(e) => assert_eq!(e, SessionError::InvalidIdentifier),
        Ok(_) => panic!("over-long identifier accepted"),
    }
    // The bound is on bytes, not characters: twenty two-byte characters
    // exceed it.
    let wide = "\u{e9}".repeat(20);
    match SessionState::new(local_broker(), &wide) {
        Err(e) => assert_eq!(e, SessionError::InvalidIdentifier),
        Ok(_) => panic!("over-long identifier accepted"),
    }
}

#[test]
fn remove_of_absent_id_is_a_noop() {
    let mut session = SessionState::new(local_broker(), "IntegrationTest").unwrap();
    session.insert_pending_subscription(4).unwrap();
    session.remove_pending_subscription(9);
    assert_eq!(session.pending_count(), 1);
    session.remove_pending_subscription(4);
    assert_eq!(session.pending_count(), 0);
    session.remove_pending_subscription(4);
    assert_eq!(session.pending_count(), 0);
}

#[test]
fn remove_takes_only_the_first_match() {
    let mut session = SessionState::new(local_broker(), "IntegrationTest").unwrap();
    session.insert_pending_subscription(5).unwrap();
    session.insert_pending_subscription(7).unwrap();
    session.insert_pending_subscription(5).unwrap();
    session.remove_pending_subscription(5);
    assert_eq!(session.pending_subscriptions.as_slice(), &[7, 5]);
}
