use bytes::BytesMut;
use consul_api_sidecar::dns::egress_bridge::{Bridge, BridgeAction, BridgeEvent, BridgeMessage, Config};
use consul_api_sidecar::dns::relay::{Action, Event, ReceiveError, Relay, RelayError, RelayKind};
use consul_api_sidecar::dns::server::Server;
use consul_api_sidecar::dns::wire::{length_prefix, DNSMessageReader};
use consul_api_sidecar::dns::{DNSMessage, NotEnoughData};
use consul_api_sidecar::net::{IoError, IoErrorKind};
use futures::channel::mpsc::unbounded;
use std::collections::VecDeque;

fn message(data: &[u8]) -> DNSMessage {
    match DNSMessage::try_new(BytesMut::from(data)) {
        Ok(msg) => msg,
        Err(_) => panic!("no message"),
    }
}

fn send(stream: &mut Vec<u8>, msg: &DNSMessage) {
    stream.extend_from_slice(&length_prefix(msg));
    stream.extend_from_slice(msg.data());
}

fn receive(reader: &mut DNSMessageReader, stream: &mut Vec<u8>) -> Option<DNSMessage> {
    while !stream.is_empty() {
        let n = reader.wanted().min(stream.len());
        let piece: Vec<u8> = stream.drain(0..n).collect();
        if let Some(result) = reader.advance(&piece) {
            return result.ok();
        }
    }
    None
}

fn io_error(kind: IoErrorKind) -> IoError {
    IoError { kind, message: "io".to_owned() }
}

#[test]
fn server_e2e() {
    for kind in [RelayKind::ServerSession, RelayKind::ChannelSession] {
        let relay = Relay { kind };
        let mut server: Server<&str> = Server::new();
        let mut bridge = Bridge::new(Config::default());
        let mut looped: VecDeque<DNSMessage> = VecDeque::new();
        let mut to_server = Vec::new();
        let mut to_client = Vec::new();

        // the session registers with the bridge
        let (responder, mut from_bridge) = unbounded();
        bridge.handle(BridgeEvent::from_clients(Some(BridgeMessage::register(
            "test_1".to_owned(),
            responder,
        ))));
        assert!(server.accept::<()>("test_1", Ok("session")).is_none());
        server.cleanup(&vec![false]);
        assert_eq!(server.session_count(), 1);

        // the client sends three requests
        send(&mut to_server, &message(&[0xff, 0xee]));
        send(&mut to_server, &message(&[0xff, 0xff]));
        send(&mut to_server, &message(&[0xff, 0x33]));

        // the session hands them to the bridge, the bridge to the forwarder
        let mut reader = DNSMessageReader::new();
        while let Some(msg) = receive(&mut reader, &mut to_server) {
            let request = match relay.on_event(Event::DNSFromPeer(Ok(msg))) {
                Action::SendToBridge(msg) => BridgeMessage::dns("test_1".to_owned(), msg),
                _ => panic!("expected a message for the bridge"),
            };
            match bridge.handle(BridgeEvent::from_clients(Some(request))) {
                BridgeAction::Forward { client, msg } => {
                    let id = msg.id();
                    looped.push_back(msg);
                    bridge.forwarded(client, id, true, 0);
                }
                _ => panic!("expected a message for the forwarder"),
            }
            bridge.cleanup(0);
        }

        // the forwarder loops them back, and the bridge delivers
        while let Some(msg) = looped.pop_front() {
            match bridge.handle(BridgeEvent::from_forwarder(Some(msg))) {
                BridgeAction::Deliver { client, msg } => {
                    bridge.responder(&client).unwrap().unbounded_send(msg).ok();
                }
                _ => panic!("expected an answer to deliver"),
            }
            bridge.cleanup(1);
        }

        // the session sends the answers to the client
        while let Ok(Some(msg)) = from_bridge.try_next() {
            match relay.on_event(Event::from_bridge(Some(msg))) {
                Action::SendToPeer(msg) => send(&mut to_client, &msg),
                _ => panic!("expected a message for the client"),
            }
            assert!(relay.sent_to_peer(Ok(())).is_none());
        }

        let mut reader = DNSMessageReader::new();
        assert_eq!(receive(&mut reader, &mut to_client).unwrap().id(), 0xffee);
        assert_eq!(receive(&mut reader, &mut to_client).unwrap().id(), 0xffff);
        assert_eq!(receive(&mut reader, &mut to_client).unwrap().id(), 0xff33);

        let gone = server.shutdown();
        assert_eq!(gone.len(), 1);
        assert_eq!(gone[0].0, "test_1");
        assert_eq!(server.session_count(), 0);
        assert!(matches!(bridge.handle(BridgeEvent::Shutdown), BridgeAction::Stop));
    }
}

#[test]
fn second_session_of_a_client_replaces_the_first() {
    let mut server: Server<u8> = Server::new();
    assert_eq!(server.accept::<()>("a", Ok(1)), None);
    assert_eq!(server.accept::<()>("b", Ok(2)), None);
    assert_eq!(server.accept::<()>("a", Ok(3)), Some(1));
    assert_eq!(server.session_count(), 2);
}

#[test]
fn session_that_could_not_be_launched_changes_nothing() {
    let mut server: Server<u8> = Server::new();
    server.accept::<()>("a", Ok(1));
    assert_eq!(server.accept("a", Err("no bridge")), None);
    assert_eq!(server.session_count(), 1);
    assert_eq!(*server.session_at(0), 1);
}

#[test]
fn cleanup_takes_out_the_sessions_that_are_done() {
    let mut server: Server<u8> = Server::new();
    server.accept::<()>("a", Ok(1));
    server.accept::<()>("b", Ok(2));
    server.accept::<()>("c", Ok(3));
    let gone = server.cleanup(&vec![true, false, true]);
    assert_eq!(gone, vec![("a".to_owned(), 1), ("c".to_owned(), 3)]);
    assert_eq!(server.session_count(), 1);
    assert_eq!(*server.session_at(0), 2);
}

#[test]
fn relay_stops_when_told_to() {
    let relay = Relay { kind: RelayKind::Client };
    assert!(matches!(relay.on_event(Event::Shutdown), Action::Stop(Ok(()))));
    assert!(matches!(relay.on_event(Event::from_bridge(None)), Action::Stop(Ok(()))));
}

#[test]
fn closed_stream_ends_a_relay_without_an_error() {
    for kind in [RelayKind::Client, RelayKind::ChannelSession, RelayKind::ServerSession] {
        let relay = Relay { kind };
        let error = ReceiveError::Io(io_error(IoErrorKind::UnexpectedEof));
        assert!(matches!(relay.on_event(Event::DNSFromPeer(Err(error))), Action::Stop(Ok(()))));
    }
}

#[test]
fn other_failures_end_a_relay_with_the_error() {
    let cases = [
        (RelayKind::Client, "failed to receive dns message from channel"),
        (RelayKind::ChannelSession, "failed to receive dns message from channel"),
        (RelayKind::ServerSession, "receive dns message from client"),
    ];
    for (kind, context) in cases {
        let relay = Relay { kind };
        for error in [
            ReceiveError::Io(io_error(IoErrorKind::Other)),
            ReceiveError::Message(NotEnoughData),
        ] {
            match relay.on_event(Event::DNSFromPeer(Err(error))) {
                Action::Stop(Err(error)) => {
                    assert!(matches!(error, RelayError::Receive(_)));
                    assert_eq!(relay.context(&error), context);
                }
                _ => panic!("expected an error"),
            }
        }
    }
}

#[test]
fn only_a_server_session_ends_when_sending_fails() {
    for kind in [RelayKind::Client, RelayKind::ChannelSession] {
        let relay = Relay { kind };
        assert!(relay.sent_to_peer(Err(io_error(IoErrorKind::BrokenPipe))).is_none());
    }
    let relay = Relay { kind: RelayKind::ServerSession };
    match relay.sent_to_peer(Err(io_error(IoErrorKind::BrokenPipe))) {
        Some(Err(error)) => assert_eq!(relay.context(&error), "send dns message to client"),
        _ => panic!("expected an error"),
    }
}

#[test]
fn only_a_server_session_keeps_partial_messages() {
    assert!(Relay { kind: RelayKind::ServerSession }.keeps_partial_messages());
    assert!(!Relay { kind: RelayKind::ChannelSession }.keeps_partial_messages());
    assert!(!Relay { kind: RelayKind::Client }.keeps_partial_messages());
}
