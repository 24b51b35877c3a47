use bytes::BytesMut;
use consul_api_sidecar::dns::egress_bridge as egress;
use consul_api_sidecar::dns::ingress_bridge as ingress;
use consul_api_sidecar::dns::DNSMessage;
use consul_api_sidecar::net::{IoError, IoErrorKind, SocketAddress};
use futures::channel::mpsc::{unbounded, UnboundedReceiver};
use std::collections::VecDeque;

const SECOND: u128 = 1_000_000_000;

fn message(id: u16) -> DNSMessage {
    match DNSMessage::try_new(BytesMut::from(id.to_be_bytes().as_slice())) {
        Ok(msg) => msg,
        Err(_) => panic!("no message"),
    }
}

fn next_message(rx: &mut UnboundedReceiver<DNSMessage>) -> Option<DNSMessage> {
    match rx.try_next() {
        Ok(msg) => msg,
        Err(_) => None,
    }
}

/// A bridge with a queue in place of its forwarder.
struct Egress {
    bridge: egress::Bridge,
    forwarder: VecDeque<DNSMessage>,
    stopped: bool,
}

impl Egress {
    fn new(config: egress::Config) -> Egress {
        Egress {
            bridge: egress::Bridge::new(config),
            forwarder: VecDeque::new(),
            stopped: false,
        }
    }

    fn round(&mut self, event: egress::BridgeEvent, now: u128) {
        match self.bridge.handle(event) {
            egress::BridgeAction::Stop => self.stopped = true,
            egress::BridgeAction::Continue => {}
            egress::BridgeAction::Deliver { client, msg } => {
                self.bridge.responder(&client).unwrap().unbounded_send(msg).ok();
            }
            egress::BridgeAction::Forward { client, msg } => {
                let id = msg.id();
                self.forwarder.push_back(msg);
                self.bridge.forwarded(client, id, true, now);
            }
        }
        self.bridge.cleanup(now);
    }

    fn register(&mut self, name: &str, now: u128) -> UnboundedReceiver<DNSMessage> {
        let (responder, rx) = unbounded();
        let registration = egress::BridgeMessage::register(name.to_owned(), responder);
        self.round(egress::BridgeEvent::from_clients(Some(registration)), now);
        rx
    }

    fn send_dns_msg(&mut self, name: &str, id: u16, now: u128) {
        let request = egress::BridgeMessage::dns(name.to_owned(), message(id));
        self.round(egress::BridgeEvent::from_clients(Some(request)), now);
    }

    fn loop_back(&mut self, now: u128) {
        let msg = self.forwarder.pop_front();
        assert!(msg.is_some());
        self.round(egress::BridgeEvent::from_forwarder(msg), now);
    }
}

#[test]
fn shutdown() {
    let mut egress = Egress::new(egress::Config::default());
    egress.round(egress::BridgeEvent::Timeout, SECOND);
    assert!(!egress.stopped);
    egress.round(egress::BridgeEvent::Shutdown, SECOND);
    assert!(egress.stopped);
}

#[test]
fn bridge_stops_when_either_side_is_gone() {
    let mut egress = Egress::new(egress::Config::default());
    egress.round(egress::BridgeEvent::from_forwarder(None), 0);
    assert!(egress.stopped);
    let mut egress = Egress::new(egress::Config::default());
    egress.round(egress::BridgeEvent::from_clients(None), 0);
    assert!(egress.stopped);
}

#[test]
fn loopback() {
    let mut egress = Egress::new(egress::Config::default());
    let mut client = egress.register("client", 0);
    egress.send_dns_msg("client", 0xffff, 1);
    egress.loop_back(2);
    assert_eq!(next_message(&mut client).unwrap().id(), 0xffff);
    assert!(next_message(&mut client).is_none());
}

#[test]
fn egress_bridge_collision() {
    let mut egress = Egress::new(egress::Config::default());
    let mut client = egress.register("client", 0);
    egress.send_dns_msg("client", 0xffff, 1);
    egress.send_dns_msg("client", 0xffff, 2);
    egress.loop_back(3);
    assert_eq!(next_message(&mut client).unwrap().id(), 0xffff);
    egress.loop_back(4);
    assert!(next_message(&mut client).is_none());
}

#[test]
fn colliding_answer_goes_to_the_first_client() {
    let mut egress = Egress::new(egress::Config::default());
    let mut first = egress.register("first", 0);
    let mut second = egress.register("second", 0);
    egress.send_dns_msg("first", 7, 1);
    egress.send_dns_msg("second", 7, 2);
    egress.send_dns_msg("second", 8, 3);
    egress.loop_back(4);
    egress.loop_back(5);
    egress.loop_back(6);
    assert_eq!(next_message(&mut first).unwrap().id(), 7);
    assert!(next_message(&mut first).is_none());
    assert_eq!(next_message(&mut second).unwrap().id(), 8);
    assert!(next_message(&mut second).is_none());
}

#[test]
fn client_cleanup() {
    let mut egress = Egress::new(egress::Config::default());
    {
        let mut client = egress.register("static", 0);
        egress.send_dns_msg("static", 0xffff, 1);
        egress.loop_back(2);
        assert_eq!(next_message(&mut client).unwrap().id(), 0xffff);
    }
    assert_eq!(egress.bridge.client_count(), 1);
    egress.round(egress::BridgeEvent::Timeout, 5 * SECOND);
    assert_eq!(egress.bridge.client_count(), 0);
    assert!(egress.bridge.responder("static").is_none());
    {
        let mut client = egress.register("static", 5 * SECOND);
        egress.send_dns_msg("static", 0xffff, 5 * SECOND);
        egress.loop_back(5 * SECOND);
        assert_eq!(next_message(&mut client).unwrap().id(), 0xffff);
    }
}

#[test]
fn answer_for_a_client_that_is_gone_is_dropped() {
    let mut egress = Egress::new(egress::Config::default());
    let client = egress.register("client", 0);
    let mut other = egress.register("other", 0);
    egress.send_dns_msg("client", 1, 1);
    egress.send_dns_msg("other", 2, 1);
    drop(client);
    egress.round(egress::BridgeEvent::Timeout, 2);
    egress.loop_back(3);
    egress.loop_back(4);
    assert_eq!(next_message(&mut other).unwrap().id(), 2);
}

#[test]
fn msg_timeout() {
    let mut egress = Egress::new(egress::Config { message_timeout: SECOND });
    let mut client = egress.register("client", 0);
    egress.send_dns_msg("client", 0xffff, 0);
    egress.round(egress::BridgeEvent::Timeout, 3 * SECOND);
    egress.loop_back(5 * SECOND);
    assert!(next_message(&mut client).is_none());
    egress.send_dns_msg("client", 0xffff, 6 * SECOND);
    egress.loop_back(6 * SECOND);
    assert_eq!(next_message(&mut client).unwrap().id(), 0xffff);
}

#[test]
fn request_waits_until_just_before_the_timeout() {
    let mut egress = Egress::new(egress::Config { message_timeout: 10 });
    let mut client = egress.register("client", 0);
    egress.send_dns_msg("client", 1, 100);
    egress.round(egress::BridgeEvent::Timeout, 109);
    egress.loop_back(109);
    assert_eq!(next_message(&mut client).unwrap().id(), 1);
    egress.send_dns_msg("client", 2, 200);
    egress.round(egress::BridgeEvent::Timeout, 210);
    egress.loop_back(210);
    assert!(next_message(&mut client).is_none());
}

#[test]
fn request_that_could_not_be_sent_is_not_waited_for() {
    let mut egress = Egress::new(egress::Config::default());
    let mut client = egress.register("client", 0);
    match egress.bridge.handle(egress::BridgeEvent::DNSFromBridge("client".to_owned(), message(9))) {
        egress::BridgeAction::Forward { client, msg } => {
            egress.bridge.forwarded(client, msg.id(), false, 1);
        }
        _ => panic!("expected a request to forward"),
    }
    egress.round(egress::BridgeEvent::DNSFromNet(message(9)), 2);
    assert!(next_message(&mut client).is_none());
}

#[test]
fn answers_go_to_the_latest_registration() {
    let mut egress = Egress::new(egress::Config::default());
    let mut old = egress.register("client", 0);
    egress.send_dns_msg("client", 3, 1);
    let mut new = egress.register("client", 2);
    egress.loop_back(3);
    assert!(next_message(&mut old).is_none());
    assert_eq!(next_message(&mut new).unwrap().id(), 3);
}

#[test]
fn default_timeout_is_a_hundred_seconds() {
    assert_eq!(egress::Config::default().message_timeout, 100 * SECOND);
    assert_eq!(egress::Config::from_secs(7).message_timeout, 7 * SECOND);
}

/// A bridge with a queue in place of the channel that it hands requests to.
struct Ingress {
    bridge: ingress::Bridge,
    buf: Vec<u8>,
    channel: VecDeque<DNSMessage>,
    sent: Vec<(SocketAddress, Vec<u8>)>,
    stopped: Option<Result<(), IoError>>,
}

fn localhost(port: u16) -> SocketAddress {
    SocketAddress::V4 { ip: 0x7f000001, port }
}

impl Ingress {
    fn new(timeout: u128) -> Ingress {
        Ingress {
            bridge: ingress::Bridge::new(ingress::Config { listen: localhost(5355), timeout }),
            buf: vec![0; ingress::RECEIVE_BUFFER],
            channel: VecDeque::new(),
            sent: Vec::new(),
            stopped: None,
        }
    }

    fn round(&mut self, event: ingress::BridgeEvent, now: u128) {
        match self.bridge.handle(event, &self.buf) {
            ingress::BridgeAction::Stop(result) => self.stopped = Some(result),
            ingress::BridgeAction::Continue => {}
            ingress::BridgeAction::Reply { addr, msg } => {
                self.sent.push((addr, msg.data().to_vec()));
            }
            ingress::BridgeAction::Forward { addr, msg } => {
                let id = msg.id();
                self.channel.push_back(msg);
                self.bridge.forwarded(id, addr, now);
            }
        }
        self.bridge.cleanup(now);
    }

    fn datagram(&mut self, data: &[u8], addr: SocketAddress, now: u128) {
        self.buf[0..data.len()].copy_from_slice(data);
        self.round(ingress::BridgeEvent::from_socket(Ok((data.len(), addr))), now);
    }

    fn loop_back(&mut self, now: u128) {
        let msg = self.channel.pop_front();
        assert!(msg.is_some());
        self.round(ingress::BridgeEvent::from_channel(msg), now);
    }
}

#[test]
fn test() {
    let mut ingress = Ingress::new(100 * SECOND);
    ingress.datagram(&[0x31, 0x4f], localhost(40001), 0);
    ingress.loop_back(1);
    assert_eq!(ingress.sent.len(), 1);
    assert_eq!(ingress.sent[0].0, localhost(40001));
    assert_eq!(ingress.sent[0].1.len(), 2);
    let reply = DNSMessage::try_new(BytesMut::from(ingress.sent[0].1.as_slice()));
    assert_eq!(reply.ok().unwrap().id(), 0x314f);
}

#[test]
fn timeout() {
    let mut ingress = Ingress::new(SECOND);
    ingress.datagram(&[0x31, 0x4f], localhost(40001), 0);
    ingress.round(ingress::BridgeEvent::Timeout, 3 * SECOND);
    ingress.loop_back(5 * SECOND);
    assert!(ingress.sent.is_empty());
}

#[test]
fn ingress_bridge_collision() {
    let mut ingress = Ingress::new(100 * SECOND);
    ingress.datagram(&[0x31, 0x4f], localhost(40001), 0);
    ingress.datagram(&[0x31, 0x4f], localhost(40002), 1);
    ingress.loop_back(2);
    assert_eq!(ingress.sent.len(), 1);
    assert_eq!(ingress.sent[0].0, localhost(40001));
    assert_eq!(ingress.sent[0].1, vec![0x31, 0x4f]);
    ingress.loop_back(3);
    assert_eq!(ingress.sent.len(), 1);
}

#[test]
fn replies_carry_the_whole_message_to_its_source() {
    let mut ingress = Ingress::new(100 * SECOND);
    let v6 = SocketAddress::V6 { ip6: 1, port: 9, flowinfo: 2, scope_id: 3 };
    ingress.datagram(&[0, 1, 2, 3], localhost(1), 0);
    ingress.datagram(&[0, 2, 9], v6, 1);
    ingress.loop_back(2);
    ingress.loop_back(3);
    assert_eq!(
        ingress.sent,
        vec![(localhost(1), vec![0, 1, 2, 3]), (v6, vec![0, 2, 9])]
    );
}

#[test]
fn short_datagrams_are_ignored() {
    let mut ingress = Ingress::new(100 * SECOND);
    ingress.datagram(&[], localhost(1), 0);
    ingress.datagram(&[0x31], localhost(1), 0);
    assert!(ingress.channel.is_empty());
    assert!(ingress.stopped.is_none());
}

#[test]
fn unknown_answers_are_ignored() {
    let mut ingress = Ingress::new(100 * SECOND);
    ingress.round(ingress::BridgeEvent::DNSFromBridge(message(5)), 0);
    assert!(ingress.sent.is_empty());
    assert!(ingress.stopped.is_none());
}

#[test]
fn socket_error_ends_the_bridge() {
    let mut ingress = Ingress::new(100 * SECOND);
    let error = IoError { kind: IoErrorKind::Other, message: "gone".to_owned() };
    ingress.round(ingress::BridgeEvent::from_socket(Err(error)), 0);
    match ingress.stopped {
        Some(Err(error)) => assert_eq!(error.message, "gone"),
        _ => panic!("expected the error"),
    }
}

#[test]
fn closed_channel_ends_the_bridge() {
    let mut ingress = Ingress::new(100 * SECOND);
    ingress.round(ingress::BridgeEvent::from_channel(None), 0);
    assert!(matches!(ingress.stopped, Some(Ok(()))));
    let mut ingress = Ingress::new(100 * SECOND);
    ingress.round(ingress::BridgeEvent::Shutdown, 0);
    assert!(matches!(ingress.stopped, Some(Ok(()))));
}

#[test]
fn ingress_timeout_in_seconds() {
    let config = ingress::Config::from_secs(localhost(53), 100);
    assert_eq!(config.listen, localhost(53));
    assert_eq!(config.timeout, 100 * SECOND);
}

#[test]
fn flagged_clients_are_dropped() {
    let mut egress = Egress::new(egress::Config::default());
    let _a = egress.register("a", 0);
    let _b = egress.register("b", 0);
    let _c = egress.register("c", 0);
    assert_eq!(egress.bridge.client_count(), 3);
    assert_eq!(egress.bridge.drop_clients(&vec![true, false, true]), vec!["a", "c"]);
    assert_eq!(egress.bridge.client_count(), 1);
    assert!(egress.bridge.responder("b").is_some());
    assert!(egress.bridge.responder("a").is_none());
}
