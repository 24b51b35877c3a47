use consul_api_sidecar::dns::ingress_bridge::DNSMsgState;
use consul_api_sidecar::net::SocketAddress;
use consul_api_sidecar::pending::{is_fresh, PendingTable};
use consul_api_sidecar::string_map::StringMap;

#[test]
fn map_by_name() {
    let mut map = StringMap::new();
    assert_eq!(map.insert("a".to_string(), 1), None);
    assert_eq!(map.insert("b".to_string(), 2), None);
    assert_eq!(map.insert("c".to_string(), 3), None);
    assert_eq!(map.insert("b".to_string(), 20), Some(2));
    assert_eq!(map.len(), 3);
    assert_eq!(map.get("b"), Some(&20));
    assert_eq!(map.get("d"), None);
    assert_eq!(map.remove("a"), Some(1));
    assert_eq!(map.remove("a"), None);
    assert!(!map.contains_key("a"));
    assert_eq!(map.key_at(0), "c");
    assert_eq!(*map.value_at(1), 20);
    assert_eq!(map.remove_flagged(&vec![true, false]), vec![("c".to_string(), 3)]);
    assert_eq!(map.drain(), vec![("b".to_string(), 20)]);
    assert_eq!(map.len(), 0);
}

fn request(port: u16, now: u128) -> DNSMsgState {
    DNSMsgState::new(SocketAddress::V4 { ip: 1, port }, now)
}

#[test]
fn first_request_keeps_its_place() {
    let mut table = PendingTable::new();
    assert!(table.register(7, request(1, 0)));
    assert!(!table.register(7, request(2, 0)));
    assert_eq!(table.len(), 1);
    assert_eq!(table.take(7), Some(request(1, 0)));
    assert_eq!(table.take(7), None);
}

#[test]
fn old_requests_expire() {
    let mut table = PendingTable::new();
    table.register(1, request(1, 10));
    table.register(2, request(2, 20));
    table.register(3, request(3, 40));
    table.expire(10, 29);
    assert_eq!(table.len(), 1);
    assert_eq!(table.take(1), None);
    assert_eq!(table.take(2), Some(request(2, 20)));
    assert_eq!(table.take(3), None);
}

#[test]
fn request_is_fresh_below_the_timeout() {
    assert!(is_fresh(5, 10, 5));
    assert!(is_fresh(5, 10, 14));
    assert!(!is_fresh(5, 10, 15));
    assert!(!is_fresh(5, 0, 5));
    assert!(!is_fresh(6, 10, 5));
}
