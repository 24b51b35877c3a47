use bytes::BytesMut;
use consul_api_sidecar::dns::forwarder::{tcp, udp};
use consul_api_sidecar::dns::relay::ReceiveError;
use consul_api_sidecar::dns::{DNSMessage, NotEnoughData};
use consul_api_sidecar::net::{IoError, IoErrorKind, SocketAddress};
use consul_api_sidecar::tcp::fwd::{after_read, after_write, ForwardAction};

fn message(data: &[u8]) -> DNSMessage {
    match DNSMessage::try_new(BytesMut::from(data)) {
        Ok(msg) => msg,
        Err(_) => panic!("no message"),
    }
}

fn io_error(message: &str) -> IoError {
    IoError { kind: IoErrorKind::Other, message: message.to_owned() }
}

fn v4(port: u16) -> SocketAddress {
    SocketAddress::V4 { ip: 0x0a000001, port }
}

fn v6(port: u16) -> SocketAddress {
    SocketAddress::V6 { ip6: 1, port, flowinfo: 0, scope_id: 0 }
}

#[test]
fn udp_forwarder_uses_the_ipv4_addresses() {
    let mut forwarder = udp::Forwarder::new();
    assert_eq!(forwarder.current_phase(), udp::Phase::Lookup);
    forwarder.on_lookup(udp::LookupEvent::LookupResult(Ok(vec![v6(1), v4(2), v6(3), v4(4)])));
    assert_eq!(forwarder.current_phase(), udp::Phase::Forward);
    assert_eq!(forwarder.current_hosts(), &vec![v4(2), v4(4)]);
}

#[test]
fn udp_forwarder_looks_up_again() {
    let mut forwarder = udp::Forwarder::new();
    forwarder.on_lookup(udp::LookupEvent::LookupResult(Err(io_error("no dns"))));
    assert_eq!(forwarder.current_phase(), udp::Phase::Sleep);
    forwarder.on_sleep(false);
    assert_eq!(forwarder.current_phase(), udp::Phase::Lookup);
    forwarder.on_lookup(udp::LookupEvent::LookupResult(Ok(vec![v6(1)])));
    assert_eq!(forwarder.current_phase(), udp::Phase::Sleep);
    forwarder.on_sleep(true);
    assert_eq!(forwarder.current_phase(), udp::Phase::Ended);
}

#[test]
fn udp_forwarder_stops_during_lookup() {
    let mut forwarder = udp::Forwarder::new();
    forwarder.on_lookup(udp::LookupEvent::Shutdown);
    assert_eq!(forwarder.current_phase(), udp::Phase::Ended);
}

#[test]
fn lookups_are_five_seconds_apart() {
    assert_eq!(udp::retry_delay(100, 100), 5_000_000_000);
    assert_eq!(udp::retry_delay(100, 2_000_000_100), 3_000_000_000);
    assert_eq!(udp::retry_delay(100, 5_000_000_100), 0);
    assert_eq!(udp::retry_delay(100, 5_000_000_101), 5_000_000_000);
    assert_eq!(udp::retry_delay(100, 50), 5_000_000_000);
}

fn forwarding() -> udp::Forwarder {
    let mut forwarder = udp::Forwarder::new();
    forwarder.on_lookup(udp::LookupEvent::LookupResult(Ok(vec![v4(1)])));
    forwarder
}

#[test]
fn udp_forwarder_carries_messages_both_ways() {
    let mut forwarder = forwarding();
    let buf = [0x31, 0x4f, 7, 0, 0];
    match forwarder.on_event(udp::ForwarderEvent::from_socket(Ok((3, v4(9)))), &buf) {
        udp::ForwarderAction::SendToBridge(msg) => assert_eq!(msg.data(), &[0x31, 0x4f, 7]),
        _ => panic!("expected a message for the bridge"),
    }
    match forwarder.on_event(udp::ForwarderEvent::from_bridge(Some(message(&[1, 2, 3]))), &buf) {
        udp::ForwarderAction::SendToHosts(msg) => assert_eq!(msg.data(), &[1, 2, 3]),
        _ => panic!("expected a message for the hosts"),
    }
    assert!(matches!(
        forwarder.on_event(udp::ForwarderEvent::DNSFromNet(1, v4(9)), &buf),
        udp::ForwarderAction::Continue
    ));
    assert_eq!(forwarder.current_phase(), udp::Phase::Forward);
}

#[test]
fn udp_forwarder_ends() {
    let mut forwarder = forwarding();
    match forwarder.on_event(udp::ForwarderEvent::from_socket(Err(io_error("socket"))), &[]) {
        udp::ForwarderAction::Stop(Err(error)) => assert_eq!(error.message, "socket"),
        _ => panic!("expected the error"),
    }
    assert_eq!(forwarder.current_phase(), udp::Phase::Ended);
    let mut forwarder = forwarding();
    assert!(matches!(
        forwarder.on_event(udp::ForwarderEvent::from_bridge(None), &[]),
        udp::ForwarderAction::Stop(Ok(()))
    ));
    let mut forwarder = forwarding();
    assert!(matches!(
        forwarder.on_event(udp::ForwarderEvent::Shutdown, &[]),
        udp::ForwarderAction::Stop(Ok(()))
    ));
}

fn connected() -> tcp::Forwarder {
    let mut forwarder = tcp::Forwarder::new();
    assert_eq!(forwarder.current_state(), tcp::ForwarderState::Waiting);
    forwarder.on_waiting(tcp::ForwarderEventWaiting::from_peek(true));
    assert_eq!(forwarder.current_state(), tcp::ForwarderState::Connecting);
    forwarder.on_connecting(tcp::ForwarderEventNotConnected::Connected);
    assert_eq!(forwarder.current_state(), tcp::ForwarderState::Connected);
    forwarder
}

#[test]
fn tcp_forwarder_carries_messages_both_ways() {
    let mut forwarder = connected();
    match forwarder.on_connected(tcp::ForwarderEventConnected::from_bridge(Some(message(&[1, 2])))) {
        tcp::ForwarderAction::SendToNet(msg) => assert_eq!(msg.data(), &[1, 2]),
        _ => panic!("expected a message for the server"),
    }
    forwarder.sent_to_net(true);
    assert_eq!(forwarder.current_state(), tcp::ForwarderState::Connected);
    match forwarder.on_connected(tcp::ForwarderEventConnected::DnsFromNet(Ok(message(&[3, 4])))) {
        tcp::ForwarderAction::SendToBridge(msg) => assert_eq!(msg.data(), &[3, 4]),
        _ => panic!("expected a message for the bridge"),
    }
    forwarder.sent_to_bridge(true);
    assert_eq!(forwarder.current_state(), tcp::ForwarderState::Connected);
}

#[test]
fn tcp_forwarder_outlives_its_connection() {
    let failures = [
        ReceiveError::Io(io_error("reset")),
        ReceiveError::Io(IoError { kind: IoErrorKind::UnexpectedEof, message: String::new() }),
        ReceiveError::Message(NotEnoughData),
    ];
    for error in failures {
        let mut forwarder = connected();
        let event = tcp::ForwarderEventConnected::DnsFromNet(Err(error));
        assert!(matches!(forwarder.on_connected(event), tcp::ForwarderAction::Disconnect));
        assert_eq!(forwarder.current_state(), tcp::ForwarderState::Waiting);
    }
    let mut forwarder = connected();
    forwarder.on_connected(tcp::ForwarderEventConnected::DnsFromBridge(message(&[1, 2])));
    forwarder.sent_to_net(false);
    assert_eq!(forwarder.current_state(), tcp::ForwarderState::Waiting);
}

#[test]
fn tcp_forwarder_ends() {
    let mut forwarder = tcp::Forwarder::new();
    forwarder.on_waiting(tcp::ForwarderEventWaiting::from_peek(false));
    assert_eq!(forwarder.current_state(), tcp::ForwarderState::Ended);

    let mut forwarder = tcp::Forwarder::new();
    forwarder.on_waiting(tcp::ForwarderEventWaiting::ConnectNow);
    forwarder.on_connecting(tcp::ForwarderEventNotConnected::Shutdown);
    assert_eq!(forwarder.current_state(), tcp::ForwarderState::Ended);

    let mut forwarder = connected();
    assert!(matches!(
        forwarder.on_connected(tcp::ForwarderEventConnected::from_bridge(None)),
        tcp::ForwarderAction::Stop
    ));
    assert_eq!(forwarder.current_state(), tcp::ForwarderState::Ended);

    let mut forwarder = connected();
    forwarder.on_connected(tcp::ForwarderEventConnected::DnsFromNet(Ok(message(&[3, 4]))));
    forwarder.sent_to_bridge(false);
    assert_eq!(forwarder.current_state(), tcp::ForwarderState::Ended);
}

#[test]
fn stream_forwarder_copies_what_was_read() {
    let buf = [1, 2, 3, 4];
    match after_read::<()>(Some(Ok(3)), &buf) {
        ForwardAction::Write(data) => assert_eq!(data, &[1, 2, 3]),
        ForwardAction::Stop => panic!("expected bytes to write"),
    }
    assert!(matches!(after_read::<()>(Some(Ok(0)), &buf), ForwardAction::Stop));
    assert!(matches!(after_read(Some(Err("reset")), &buf), ForwardAction::Stop));
    assert!(matches!(after_read::<()>(None, &buf), ForwardAction::Stop));
    assert!(after_write::<()>(&Ok(())));
    assert!(!after_write(&Err("reset")));
}

#[test]
fn failed_attempt_to_connect_is_followed_by_another_one() {
    assert!(matches!(
        tcp::after_connect::<u8, &str>(Ok(7)),
        tcp::ConnectStep::Connected(7)
    ));
    assert!(matches!(
        tcp::after_connect::<u8, &str>(Err("refused")),
        tcp::ConnectStep::WaitThenRetry
    ));
    assert_eq!(tcp::CONNECT_RETRY_SECS, 5);
}
