//! Where DNS requests are forwarded to.
use vstd::prelude::*;
use vstd::std_specs::cmp::PartialEqSpec;

use crate::url_parts::{parse_url, parsed_url, UrlParts, UrlView};

pub mod tcp;
pub mod udp;

verus! {

/// The port of a DNS server where a URL names none.
pub const DNS_PORT: u16 = 53;

/// The address of a DNS server.
#[derive(Debug)]
pub enum Address {
    Tcp(tcp::Config),
    Udp(udp::Config),
}

/// The address of a DNS server, as plain values.
pub enum AddressView {
    Tcp(tcp::ConfigView),
    Udp(udp::ConfigView),
}

impl View for Address {
    type V = AddressView;

    open spec fn view(&self) -> AddressView {
        match self {
            Address::Tcp(config) => AddressView::Tcp(config@),
            Address::Udp(config) => AddressView::Udp(config@),
        }
    }
}

impl Clone for Address {
    fn clone(&self) -> (r: Address)
        ensures
            r == *self,
    {
        match self {
            Address::Tcp(config) => Address::Tcp(config.clone()),
            Address::Udp(config) => Address::Udp(config.clone()),
        }
    }
}

impl PartialEq for Address {
    fn eq(&self, other: &Address) -> (r: bool) {
        match (self, other) {
            (Address::Tcp(a), Address::Tcp(b)) => *a == *b,
            (Address::Udp(a), Address::Udp(b)) => *a == *b,
            _ => false,
        }
    }
}

impl vstd::std_specs::cmp::PartialEqSpecImpl for Address {
    open spec fn obeys_eq_spec() -> bool {
        true
    }

    open spec fn eq_spec(&self, other: &Address) -> bool {
        self@ == other@
    }
}

impl Eq for Address {

}

/// Why a text names no DNS server.
#[derive(Debug)]
pub enum AddressError {
    /// The text is no URL.
    Url(String),
    /// The URL names no host.
    MissingHost,
    /// The scheme is neither `tcp` nor `udp`.
    InvalidScheme(String),
}

/// The host of an address.
pub open spec fn address_host(address: Address) -> Seq<char> {
    match address {
        Address::Tcp(config) => config.host@,
        Address::Udp(config) => config.host@,
    }
}

/// The port of an address.
pub open spec fn address_port(address: Address) -> u16 {
    match address {
        Address::Tcp(config) => config.port,
        Address::Udp(config) => config.port,
    }
}

impl AddressError {
    /// The error in words.
    pub fn message(&self) -> (text: String)
        ensures
            text@ == match self {
                AddressError::Url(error) => error@,
                AddressError::MissingHost => "missing host in url"@,
                AddressError::InvalidScheme(scheme) => "invalid url scheme '"@ + scheme@ + "'"@,
            },
    {
        match self {
            AddressError::Url(error) => error.clone(),
            AddressError::MissingHost => "missing host in url".to_owned(),
            AddressError::InvalidScheme(scheme) => {
                let mut text = "invalid url scheme '".to_owned();
                text.append(scheme.as_str());
                text.append("'");
                text
            },
        }
    }
}

/// A DNS server or the reason why there is none, as plain values.
pub enum Upstream {
    Tcp { host: Seq<char>, port: u16 },
    Udp { host: Seq<char>, port: u16 },
    BadUrl(Seq<char>),
    MissingHost,
    InvalidScheme(Seq<char>),
}

/// What an address or an error says.
pub open spec fn upstream_view(r: Result<Address, AddressError>) -> Upstream {
    match r {
        Ok(Address::Tcp(config)) => Upstream::Tcp { host: config.host@, port: config.port },
        Ok(Address::Udp(config)) => Upstream::Udp { host: config.host@, port: config.port },
        Err(AddressError::Url(error)) => Upstream::BadUrl(error@),
        Err(AddressError::MissingHost) => Upstream::MissingHost,
        Err(AddressError::InvalidScheme(scheme)) => Upstream::InvalidScheme(scheme@),
    }
}

/// The DNS server that the parts of a URL name: the scheme says how it is asked, the host has
/// to be there, and the port is [`DNS_PORT`] where none is named.
pub open spec fn upstream_of(url: UrlView) -> Upstream {
    match url.host {
        None => Upstream::MissingHost,
        Some(host) => {
            let port = match url.port {
                Some(port) => port,
                None => DNS_PORT,
            };
            if url.scheme == "tcp"@ {
                Upstream::Tcp { host, port }
            } else if url.scheme == "udp"@ {
                Upstream::Udp { host, port }
            } else {
                Upstream::InvalidScheme(url.scheme)
            }
        },
    }
}

impl Address {
    /// The DNS server that the parts of a URL name.
    pub fn from_parts(parts: UrlParts) -> (r: Result<Address, AddressError>)
        ensures
            upstream_view(r) == upstream_of(parts@),
            r matches Ok(address) ==> parts.host is Some && address_host(address)
                == parts.host->Some_0@ && address_port(address) == match parts.port {
                Some(port) => port,
                None => 53,
            },
    {
        match parts.host {
            None => Err(AddressError::MissingHost),
            Some(host) => {
                let port: u16 = match parts.port {
                    Some(port) => port,
                    None => DNS_PORT,
                };
                if parts.scheme == "tcp".to_owned() {
                    Ok(Address::Tcp(tcp::Config { host, port }))
                } else if parts.scheme == "udp".to_owned() {
                    Ok(Address::Udp(udp::Config { host, port }))
                } else {
                    Err(AddressError::InvalidScheme(parts.scheme))
                }
            },
        }
    }

    /// Reads an address such as `udp://localhost:8600`.
    pub fn parse(text: &str) -> (r: Result<Address, AddressError>)
        ensures
            upstream_view(r) == match parsed_url(text@) {
                Ok(url) => upstream_of(url),
                Err(error) => Upstream::BadUrl(error),
            },
    {
        match parse_url(text) {
            Ok(parts) => Address::from_parts(parts),
            Err(error) => Err(AddressError::Url(error)),
        }
    }
}

/// An address is what its URL says: where `r` is what reading the parts of a URL comes to, it is
/// an address exactly if there is a host and the scheme is `tcp` or `udp`; the scheme decides
/// how the server is asked, the host is that of the URL, and the port is the one that the URL
/// names, or else 53. Without a host that is the error, whatever the scheme; otherwise the
/// scheme is.
pub proof fn address_is_what_the_url_says(parts: UrlParts, r: Result<Address, AddressError>)
    requires
        upstream_view(r) == upstream_of(parts@),
    ensures
        r is Ok <==> parts.host is Some && (parts.scheme@ == "tcp"@ || parts.scheme@ == "udp"@),
        r matches Ok(Address::Tcp(config)) ==> parts.scheme@ == "tcp"@ && config.host@
            == parts.host->Some_0@,
        r matches Ok(Address::Udp(config)) ==> parts.scheme@ == "udp"@ && config.host@
            == parts.host->Some_0@,
        r matches Ok(Address::Tcp(config)) ==> (parts.port matches Some(port) ==> config.port
            == port),
        r matches Ok(Address::Udp(config)) ==> (parts.port matches Some(port) ==> config.port
            == port),
        r matches Ok(Address::Tcp(config)) ==> (parts.port is None ==> config.port == 53),
        r matches Ok(Address::Udp(config)) ==> (parts.port is None ==> config.port == 53),
        r matches Err(AddressError::MissingHost) <==> parts.host is None,
        r matches Err(AddressError::InvalidScheme(scheme)) ==> scheme@ == parts.scheme@,
        !(r matches Err(AddressError::Url(_))),
{
    reveal_strlit("tcp");
    reveal_strlit("udp");
    assert("tcp"@[0] != "udp"@[0]);
}

/// A URL that cannot be read gives the error of reading it, and nothing else does.
pub proof fn bad_url_is_told(error: Seq<char>, url: UrlView, r: Result<Address, AddressError>)
    ensures
        upstream_view(r) == Upstream::BadUrl(error) <==> (r matches Err(AddressError::Url(text))
            && text@ == error),
        upstream_of(url) != Upstream::BadUrl(error),
{
}

/// Two addresses are equal exactly if they are of one kind, and host and port agree.
pub proof fn equal_addresses_agree(a: Address, b: Address)
    ensures
        a.eq_spec(&b) <==> (a is Tcp <==> b is Tcp) && address_host(a) == address_host(b)
            && address_port(a) == address_port(b),
        a@ == b@ <==> a.eq_spec(&b),
{
}

/// Host and port of an address are those of its configuration.
pub proof fn host_and_port_of_an_address(tcp_config: tcp::Config, udp_config: udp::Config)
    ensures
        address_host(Address::Tcp(tcp_config)) == tcp_config.host@,
        address_port(Address::Tcp(tcp_config)) == tcp_config.port,
        address_host(Address::Udp(udp_config)) == udp_config.host@,
        address_port(Address::Udp(udp_config)) == udp_config.port,
{
}

} // verus!
