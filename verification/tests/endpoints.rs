use consul_api_sidecar::dns::forwarder;
use consul_api_sidecar::random::random_id;
use consul_api_sidecar::tcp;
use consul_api_sidecar::text::decimal_text;
use consul_api_sidecar::url_parts::UrlParts;

fn tcp_error(text: &str) -> String {
    tcp::Address::parse(text).unwrap_err().message()
}

#[test]
fn tcp_endpoint() {
    let address = tcp::Address::parse("tcp://localhost:8500").unwrap();
    assert_eq!(address, tcp::Address { host: "localhost".to_string(), port: 8500 });
    assert_eq!(address.clone(), address);
    assert_eq!(tcp::Address::parse("tcp://[::1]:80").unwrap().host, "[::1]");
    assert_ne!(address, tcp::Address::parse("tcp://localhost:8501").unwrap());
}

#[test]
fn texts_that_name_no_tcp_endpoint() {
    assert_eq!(tcp_error("udp://localhost:8500"), "expected 'tcp' scheme");
    assert_eq!(tcp_error("tcp:///path"), "missing host");
    assert_eq!(tcp_error("tcp:localhost"), "missing host");
    assert_eq!(tcp_error("tcp://localhost"), "missing port");
    assert_eq!(tcp_error("localhost"), "relative URL without a base");
    assert_eq!(tcp_error("tcp://localhost:70000"), "invalid port number");
}

#[test]
fn scheme_is_looked_at_before_host_and_port() {
    let parts = UrlParts { scheme: "http".to_string(), host: None, port: None };
    assert_eq!(tcp::Address::from_parts(parts).unwrap_err().message(), "expected 'tcp' scheme");
    let parts = UrlParts { scheme: "tcp".to_string(), host: None, port: None };
    assert_eq!(tcp::Address::from_parts(parts).unwrap_err().message(), "missing host");
}

fn dns_error(text: &str) -> String {
    forwarder::Address::parse(text).unwrap_err().message()
}

#[test]
fn dns_servers() {
    match forwarder::Address::parse("udp://localhost:8600").unwrap() {
        forwarder::Address::Udp(config) => {
            assert_eq!((config.host.as_str(), config.port), ("localhost", 8600));
        }
        _ => panic!("expected udp"),
    }
    match forwarder::Address::parse("tcp://10.0.0.1").unwrap() {
        forwarder::Address::Tcp(config) => {
            assert_eq!((config.host.as_str(), config.port), ("10.0.0.1", 53));
        }
        _ => panic!("expected tcp"),
    }
    assert!(
        forwarder::Address::parse("udp://a").unwrap()
            == forwarder::Address::parse("udp://a:53").unwrap().clone()
    );
}

#[test]
fn texts_that_name_no_dns_server() {
    assert_eq!(dns_error("http://localhost:53"), "invalid url scheme 'http'");
    assert_eq!(dns_error("udp:///x"), "missing host in url");
    assert_eq!(dns_error("mailto:a@b"), "missing host in url");
    assert_eq!(dns_error(""), "relative URL without a base");
}

#[test]
fn numbers_in_decimal() {
    assert_eq!(decimal_text(0), "0");
    assert_eq!(decimal_text(9), "9");
    assert_eq!(decimal_text(10), "10");
    assert_eq!(decimal_text(90210), "90210");
    assert_eq!(decimal_text(u64::MAX), "18446744073709551615");
}

#[test]
fn random_ids_are_seven_letters_and_digits() {
    let ids: Vec<String> = (0..50).map(|_| random_id()).collect();
    for id in &ids {
        assert_eq!(id.len(), 7);
        assert!(id.chars().all(|c| c.is_ascii_alphanumeric()));
    }
    assert!(ids.iter().any(|id| *id != ids[0]));
}
