//! TCP endpoints and the traffic between them.
use vstd::prelude::*;
use vstd::std_specs::cmp::PartialEqSpec;

use crate::url_parts::{parse_url, parsed_url, UrlParts, UrlView};

pub mod fwd;
pub mod service;

verus! {

/// A TCP endpoint.
#[derive(Debug)]
pub struct Address {
    pub host: String,
    pub port: u16,
}

/// A TCP endpoint, as plain values.
pub struct AddressView {
    pub host: Seq<char>,
    pub port: u16,
}

impl View for Address {
    type V = AddressView;

    open spec fn view(&self) -> AddressView {
        AddressView { host: self.host@, port: self.port }
    }
}

impl Clone for Address {
    fn clone(&self) -> (r: Address)
        ensures
            r == *self,
    {
        Address { host: self.host.clone(), port: self.port }
    }
}

impl PartialEq for Address {
    fn eq(&self, other: &Address) -> (r: bool) {
        self.host == other.host && self.port == other.port
    }
}

impl vstd::std_specs::cmp::PartialEqSpecImpl for Address {
    open spec fn obeys_eq_spec() -> bool {
        true
    }

    open spec fn eq_spec(&self, other: &Address) -> bool {
        self@ == other@
    }
}

impl Eq for Address {

}

/// Why a text names no endpoint.
#[derive(Debug)]
pub enum AddressError {
    /// The text is no URL.
    Url(String),
    /// The scheme is not `tcp`.
    WrongScheme,
    /// The URL names no host.
    MissingHost,
    /// The URL names no port.
    MissingPort,
}

impl AddressError {
    /// The error in words.
    pub fn message(&self) -> (text: String)
        ensures
            text@ == match self {
                AddressError::Url(error) => error@,
                AddressError::WrongScheme => "expected 'tcp' scheme"@,
                AddressError::MissingHost => "missing host"@,
                AddressError::MissingPort => "missing port"@,
            },
    {
        match self {
            AddressError::Url(error) => error.clone(),
            AddressError::WrongScheme => "expected 'tcp' scheme".to_owned(),
            AddressError::MissingHost => "missing host".to_owned(),
            AddressError::MissingPort => "missing port".to_owned(),
        }
    }
}

/// An endpoint or the reason why there is none, as plain values.
pub enum Endpoint {
    At { host: Seq<char>, port: u16 },
    BadUrl(Seq<char>),
    WrongScheme,
    MissingHost,
    MissingPort,
}

/// What an address or an error says.
pub open spec fn endpoint_view(r: Result<Address, AddressError>) -> Endpoint {
    match r {
        Ok(address) => Endpoint::At { host: address.host@, port: address.port },
        Err(AddressError::Url(error)) => Endpoint::BadUrl(error@),
        Err(AddressError::WrongScheme) => Endpoint::WrongScheme,
        Err(AddressError::MissingHost) => Endpoint::MissingHost,
        Err(AddressError::MissingPort) => Endpoint::MissingPort,
    }
}

/// The endpoint that the parts of a URL name: the scheme has to be `tcp`, and host and port
/// have to be there.
pub open spec fn endpoint_of(url: UrlView) -> Endpoint {
    if url.scheme != "tcp"@ {
        Endpoint::WrongScheme
    } else {
        match (url.host, url.port) {
            (None, _) => Endpoint::MissingHost,
            (Some(_), None) => Endpoint::MissingPort,
            (Some(host), Some(port)) => Endpoint::At { host, port },
        }
    }
}

impl Address {
    /// The endpoint that the parts of a URL name.
    pub fn from_parts(parts: UrlParts) -> (r: Result<Address, AddressError>)
        ensures
            endpoint_view(r) == endpoint_of(parts@),
            r matches Ok(address) ==> parts.host is Some && address.host@ == parts.host->Some_0@
                && parts.port == Some(address.port),
    {
        if parts.scheme != "tcp".to_owned() {
            return Err(AddressError::WrongScheme);
        }
        match parts.host {
            None => Err(AddressError::MissingHost),
            Some(host) => match parts.port {
                None => Err(AddressError::MissingPort),
                Some(port) => Ok(Address { host, port }),
            },
        }
    }

    /// Reads an endpoint such as `tcp://localhost:8500`.
    pub fn parse(text: &str) -> (r: Result<Address, AddressError>)
        ensures
            endpoint_view(r) == match parsed_url(text@) {
                Ok(url) => endpoint_of(url),
                Err(error) => Endpoint::BadUrl(error),
            },
    {
        match parse_url(text) {
            Ok(parts) => Address::from_parts(parts),
            Err(error) => Err(AddressError::Url(error)),
        }
    }
}

/// An endpoint is what its URL says: where `r` is what reading the parts of a URL comes to, it
/// is an endpoint exactly if the scheme is `tcp` and there are a host and a port, and these are
/// those of the URL. The scheme is looked at first, then the host, then the port.
pub proof fn endpoint_is_what_the_url_says(parts: UrlParts, r: Result<Address, AddressError>)
    requires
        endpoint_view(r) == endpoint_of(parts@),
    ensures
        r is Ok <==> parts.scheme@ == "tcp"@ && parts.host is Some && parts.port is Some,
        r matches Ok(address) ==> address.host@ == parts.host->Some_0@ && address.port
            == parts.port->Some_0,
        r matches Err(AddressError::WrongScheme) <==> parts.scheme@ != "tcp"@,
        r matches Err(AddressError::MissingHost) <==> parts.scheme@ == "tcp"@ && parts.host is None,
        r matches Err(AddressError::MissingPort) <==> parts.scheme@ == "tcp"@ && parts.host is Some
            && parts.port is None,
        !(r matches Err(AddressError::Url(_))),
{
}

/// A URL that cannot be read gives the error of reading it, and nothing else does.
pub proof fn bad_url_is_told(error: Seq<char>, url: UrlView, r: Result<Address, AddressError>)
    ensures
        endpoint_view(r) == Endpoint::BadUrl(error) <==> (r matches Err(AddressError::Url(text))
            && text@ == error),
        endpoint_of(url) != Endpoint::BadUrl(error),
{
}

/// Two endpoints are equal exactly if host and port agree.
pub proof fn equal_endpoints_agree(a: Address, b: Address)
    ensures
        a.eq_spec(&b) <==> a.host@ == b.host@ && a.port == b.port,
        a@ == b@ <==> a.eq_spec(&b),
{
}

} // verus!
