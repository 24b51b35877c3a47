//! The handshake that opens a channel: the caller asks for a channel of a type at an address,
//! the listener offers one or denies, and the caller accepts the offer or rejects it.
use vstd::prelude::*;
use vstd::std_specs::cmp::PartialEqSpec;

use crate::text::{decimal, decimal_text};

pub mod caller;
pub mod frame;
pub mod law;
pub mod listener;

verus! {

/// Why a channel is refused.
#[derive(Debug)]
pub struct ChannelError {
    pub reason: String,
    pub code: u32,
}

/// Why a channel is refused, as plain values.
pub struct ErrorView {
    pub reason: Seq<char>,
    pub code: u32,
}

impl View for ChannelError {
    type V = ErrorView;

    open spec fn view(&self) -> ErrorView {
        ErrorView { reason: self.reason@, code: self.code }
    }
}

impl Clone for ChannelError {
    fn clone(&self) -> (r: ChannelError)
        ensures
            r == *self,
    {
        ChannelError { reason: self.reason.clone(), code: self.code }
    }
}

impl ChannelError {
    /// The error in words.
    pub fn message(&self) -> (text: String)
        ensures
            text@ == "channel negotiation failed: "@ + self.reason@ + ", code: "@ + decimal(
                self.code as nat,
            ),
    {
        let mut text = "channel negotiation failed: ".to_owned();
        text.append(self.reason.as_str());
        text.append(", code: ");
        text.append(decimal_text(self.code as u64).as_str());
        text
    }
}

/// The address of a channel. An IP address is given by its text.
#[derive(Debug)]
pub enum ChannelAddress {
    IpAddressAndPort { address: String, port: u16 },
    Virtual(String),
}

/// The address of a channel, as plain values.
pub enum AddressView {
    IpAddressAndPort { address: Seq<char>, port: u16 },
    Virtual(Seq<char>),
}

impl View for ChannelAddress {
    type V = AddressView;

    open spec fn view(&self) -> AddressView {
        match self {
            ChannelAddress::IpAddressAndPort { address, port } => AddressView::IpAddressAndPort {
                address: address@,
                port: *port,
            },
            ChannelAddress::Virtual(name) => AddressView::Virtual(name@),
        }
    }
}

impl Clone for ChannelAddress {
    fn clone(&self) -> (r: ChannelAddress)
        ensures
            r == *self,
    {
        match self {
            ChannelAddress::IpAddressAndPort {
                address,
                port,
            } => ChannelAddress::IpAddressAndPort { address: address.clone(), port: *port },
            ChannelAddress::Virtual(name) => ChannelAddress::Virtual(name.clone()),
        }
    }
}

impl PartialEq for ChannelAddress {
    fn eq(&self, other: &ChannelAddress) -> (r: bool) {
        match (self, other) {
            (
                ChannelAddress::IpAddressAndPort { address: a, port: p },
                ChannelAddress::IpAddressAndPort { address: b, port: q },
            ) => *a == *b && *p == *q,
            (ChannelAddress::Virtual(a), ChannelAddress::Virtual(b)) => *a == *b,
            _ => false,
        }
    }
}

impl vstd::std_specs::cmp::PartialEqSpecImpl for ChannelAddress {
    open spec fn obeys_eq_spec() -> bool {
        true
    }

    open spec fn eq_spec(&self, other: &ChannelAddress) -> bool {
        self@ == other@
    }
}

impl Eq for ChannelAddress {

}

impl ChannelAddress {
    /// The address in words.
    pub fn text(&self) -> (text: String)
        ensures
            text@ == match self@ {
                AddressView::IpAddressAndPort { address, port } => "ip:"@ + address + ":"@
                    + decimal(port as nat),
                AddressView::Virtual(name) => "virtual:"@ + name,
            },
    {
        match self {
            ChannelAddress::IpAddressAndPort { address, port } => {
                let mut text = "ip:".to_owned();
                text.append(address.as_str());
                text.append(":");
                text.append(decimal_text(*port as u64).as_str());
                text
            },
            ChannelAddress::Virtual(name) => {
                let mut text = "virtual:".to_owned();
                text.append(name.as_str());
                text
            },
        }
    }
}

/// A channel that the listener offers.
#[derive(Debug)]
pub struct ChannelOffer {
    pub address: ChannelAddress,
    pub info: Option<String>,
}

/// A channel that the listener offers, as plain values.
pub struct OfferView {
    pub address: AddressView,
    pub info: Option<Seq<char>>,
}

impl View for ChannelOffer {
    type V = OfferView;

    open spec fn view(&self) -> OfferView {
        OfferView {
            address: self.address@,
            info: match self.info {
                Some(info) => Some(info@),
                None => None,
            },
        }
    }
}

/// Decides for the caller whether an offer is good.
pub trait ChannelAcceptor: Send + Sync {
    /// The decisions that the acceptor may take, as it stands, about an offer that came for a
    /// channel of type `ty` at `requested_address`, and how it may stand `after` that. An
    /// acceptor that says nothing may take any.
    open spec fn may_accept(
        &self,
        after: &Self,
        ty: Seq<char>,
        requested_address: AddressView,
        offer: OfferView,
        verdict: Result<(), ErrorView>,
    ) -> bool {
        true
    }

    /// Accepts or rejects the offer that came for a channel of type `ty` at
    /// `requested_address`.
    fn accept(
        &mut self,
        ty: &str,
        requested_address: &ChannelAddress,
        offer: &ChannelOffer,
    ) -> (r: Result<(), ChannelError>)
        ensures
            old(self).may_accept(
                final(self),
                ty@,
                requested_address@,
                offer@,
                verdict_view(r),
            ),
    ;
}

/// Decides for the listener what to offer.
pub trait ChannelSelector: Send + Sync {
    /// What the listener takes away from a handshake.
    type Selection;

    /// The choices that the selector may make, as it stands, when a channel of type `ty` at
    /// `address` is asked for, and how it may stand `after` that. A selector that says nothing
    /// may make any.
    open spec fn may_select(
        &self,
        after: &Self,
        ty: Seq<char>,
        address: AddressView,
        choice: Result<(OfferView, Self::Selection), ErrorView>,
    ) -> bool {
        true
    }

    /// Offers a channel of type `ty` at `address`, or denies it.
    fn select(&mut self, ty: &str, address: &ChannelAddress) -> (r: Result<
        (ChannelOffer, Self::Selection),
        ChannelError,
    >)
        ensures
            old(self).may_select(final(self), ty@, address@, choice_view(r)),
    ;
}

/// The caller asks for a channel.
#[derive(Debug)]
pub struct RequestMessage {
    pub ty: String,
    pub address: ChannelAddress,
}

/// The caller's request, as plain values.
pub struct RequestView {
    pub ty: Seq<char>,
    pub address: AddressView,
}

impl View for RequestMessage {
    type V = RequestView;

    open spec fn view(&self) -> RequestView {
        RequestView { ty: self.ty@, address: self.address@ }
    }
}

/// The listener's answer to a request.
#[derive(Debug)]
pub enum OfferMessage {
    Offer { ty: String, offer: ChannelOffer },
    Deny { ty: String, detail: ChannelError },
}

/// The listener's answer, as plain values.
pub enum OfferMessageView {
    Offer { ty: Seq<char>, offer: OfferView },
    Deny { ty: Seq<char>, detail: ErrorView },
}

impl View for OfferMessage {
    type V = OfferMessageView;

    open spec fn view(&self) -> OfferMessageView {
        match self {
            OfferMessage::Offer { ty, offer } => OfferMessageView::Offer {
                ty: ty@,
                offer: offer@,
            },
            OfferMessage::Deny { ty, detail } => OfferMessageView::Deny {
                ty: ty@,
                detail: detail@,
            },
        }
    }
}

/// The caller's answer to an offer.
#[derive(Debug)]
pub enum AcceptMessage {
    Accept { ty: String },
    Reject { ty: String, detail: ChannelError },
}

/// The caller's answer, as plain values.
pub enum AcceptMessageView {
    Accept { ty: Seq<char> },
    Reject { ty: Seq<char>, detail: ErrorView },
}

impl View for AcceptMessage {
    type V = AcceptMessageView;

    open spec fn view(&self) -> AcceptMessageView {
        match self {
            AcceptMessage::Accept { ty } => AcceptMessageView::Accept { ty: ty@ },
            AcceptMessage::Reject { ty, detail } => AcceptMessageView::Reject {
                ty: ty@,
                detail: detail@,
            },
        }
    }
}

/// Why a handshake failed.
#[derive(Debug)]
pub enum HandshakeError<E> {
    /// A message could not be sent or received.
    Transport(E),
    /// The offer is for a channel of another type.
    WrongType,
    /// One of the two sides refuses the channel.
    Channel(ChannelError),
    /// The handshake is over.
    AlreadyEnded,
}

/// Why a handshake failed, as plain values.
pub enum FailureView<E> {
    Transport(E),
    WrongType,
    Channel(ErrorView),
    AlreadyEnded,
}

impl<E> View for HandshakeError<E> {
    type V = FailureView<E>;

    open spec fn view(&self) -> FailureView<E> {
        match *self {
            HandshakeError::Transport(error) => FailureView::Transport(error),
            HandshakeError::WrongType => FailureView::WrongType,
            HandshakeError::Channel(error) => FailureView::Channel(error@),
            HandshakeError::AlreadyEnded => FailureView::AlreadyEnded,
        }
    }
}

/// The offer and the selection that a request is met with, or the reason why it is denied.
pub open spec fn choice_view<Selection>(
    choice: Result<(ChannelOffer, Selection), ChannelError>,
) -> Result<(OfferView, Selection), ErrorView> {
    match choice {
        Ok((offer, selection)) => Ok((offer@, selection)),
        Err(error) => Err(error@),
    }
}

/// What the caller thinks of an offer.
pub open spec fn verdict_view(verdict: Result<(), ChannelError>) -> Result<(), ErrorView> {
    match verdict {
        Ok(_) => Ok(()),
        Err(error) => Err(error@),
    }
}

/// Two refusals read the same exactly if reason and code agree; two addresses exactly if they
/// are of one kind and agree in name or in IP address and port, and that is also when they are
/// equal; two offers exactly if their addresses read the same and both have no information or
/// both the same.
pub proof fn parts_are_told_apart(
    e: ChannelError,
    f: ChannelError,
    a: ChannelAddress,
    b: ChannelAddress,
    o: ChannelOffer,
    p: ChannelOffer,
)
    ensures
        e@ == f@ <==> e.reason@ == f.reason@ && e.code == f.code,
        a.eq_spec(&b) <==> a@ == b@,
        a@ == b@ <==> match (a, b) {
            (
                ChannelAddress::IpAddressAndPort { address: x, port: m },
                ChannelAddress::IpAddressAndPort { address: y, port: n },
            ) => x@ == y@ && m == n,
            (ChannelAddress::Virtual(x), ChannelAddress::Virtual(y)) => x@ == y@,
            _ => false,
        },
        o@ == p@ <==> o.address@ == p.address@ && match (o.info, p.info) {
            (Some(x), Some(y)) => x@ == y@,
            (None, None) => true,
            _ => false,
        },
{
}

/// Two requests read the same exactly if type and address agree; two answers to a request, or to
/// an offer, exactly if they say the same of the same type, with the same offer or the same
/// reason.
pub proof fn messages_are_told_apart(
    r: RequestMessage,
    s: RequestMessage,
    o: OfferMessage,
    p: OfferMessage,
    a: AcceptMessage,
    b: AcceptMessage,
)
    ensures
        r@ == s@ <==> r.ty@ == s.ty@ && r.address@ == s.address@,
        o@ == p@ <==> match (o, p) {
            (
                OfferMessage::Offer { ty: x, offer: m },
                OfferMessage::Offer { ty: y, offer: n },
            ) => x@ == y@ && m@ == n@,
            (
                OfferMessage::Deny { ty: x, detail: m },
                OfferMessage::Deny { ty: y, detail: n },
            ) => x@ == y@ && m@ == n@,
            _ => false,
        },
        a@ == b@ <==> match (a, b) {
            (AcceptMessage::Accept { ty: x }, AcceptMessage::Accept { ty: y }) => x@ == y@,
            (
                AcceptMessage::Reject { ty: x, detail: m },
                AcceptMessage::Reject { ty: y, detail: n },
            ) => x@ == y@ && m@ == n@,
            _ => false,
        },
{
}

/// Two decisions of an acceptor read the same exactly if both accept or both reject for the same
/// reason; two of a selector exactly if both offer the same and keep the same selection, or both
/// deny for the same reason.
pub proof fn decisions_are_told_apart<Selection>(
    v: Result<(), ChannelError>,
    w: Result<(), ChannelError>,
    c: Result<(ChannelOffer, Selection), ChannelError>,
    d: Result<(ChannelOffer, Selection), ChannelError>,
)
    ensures
        verdict_view(v) == verdict_view(w) <==> match (v, w) {
            (Ok(_), Ok(_)) => true,
            (Err(e), Err(f)) => e@ == f@,
            _ => false,
        },
        choice_view(c) == choice_view(d) <==> match (c, d) {
            (Ok((o, s)), Ok((p, t))) => o@ == p@ && s == t,
            (Err(e), Err(f)) => e@ == f@,
            _ => false,
        },
{
}

} // verus!
