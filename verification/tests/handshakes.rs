use consul_api_sidecar::handshake::caller::{caller_failure, to_judge, CallerAction, CallerHandshake, CallerHandshakeState};
use consul_api_sidecar::handshake::listener::{listener_failure, ListenerAction, ListenerHandshake};
use consul_api_sidecar::handshake::{
    AcceptMessage, ChannelAcceptor, ChannelAddress, ChannelError, ChannelOffer, ChannelSelector,
    HandshakeError, OfferMessage, RequestMessage,
};

struct SimpleChannelSelector(String, ChannelAddress, Option<String>);

struct SimpleAcceptor(Option<String>, ChannelAddress);

impl ChannelSelector for SimpleChannelSelector {
    type Selection = ChannelAddress;

    fn select(
        &mut self,
        ty: &str,
        address: &ChannelAddress,
    ) -> Result<(ChannelOffer, ChannelAddress), ChannelError> {
        if ty != self.0 {
            Err(ChannelError { reason: "invalid type".to_string(), code: 1 })
        } else if *address != self.1 {
            Err(ChannelError { reason: "invalid address".to_string(), code: 2 })
        } else {
            Ok((
                ChannelOffer { address: address.clone(), info: self.2.clone() },
                address.clone(),
            ))
        }
    }
}

impl ChannelAcceptor for SimpleAcceptor {
    fn accept(
        &mut self,
        _ty: &str,
        _requested_address: &ChannelAddress,
        offer: &ChannelOffer,
    ) -> Result<(), ChannelError> {
        if offer.info == self.0 && offer.address == self.1 {
            Err(ChannelError { reason: "error".to_string(), code: 1 })
        } else {
            Ok(())
        }
    }
}

type Failure = HandshakeError<&'static str>;

/// Lets the two sides talk to each other, every message arriving.
fn perform(
    caller: &mut CallerHandshake<SimpleAcceptor>,
    listener: &mut ListenerHandshake<SimpleChannelSelector>,
) -> (Result<(), Failure>, Result<ChannelAddress, Failure>) {
    let request = match caller.start::<&'static str>() {
        CallerAction::SendRequest(request) => request,
        _ => panic!("expected a request"),
    };
    assert!(matches!(caller.sent::<&'static str>(Ok(())), CallerAction::ReceiveOffer));
    assert!(matches!(listener.start::<&'static str>(), ListenerAction::ReceiveRequest));
    let offer = match listener.requested::<&'static str>(Ok(request)) {
        ListenerAction::SendOffer(offer) => offer,
        _ => panic!("expected an answer to the request"),
    };
    let listener_done = match listener.sent::<&'static str>(Ok(())) {
        ListenerAction::Done(result) => Some(result),
        ListenerAction::ReceiveAnswer => None,
        _ => panic!("expected to wait or to be done"),
    };
    match caller.received::<&'static str>(Ok(offer)) {
        CallerAction::SendAnswer(answer) => {
            let caller_done = match caller.sent::<&'static str>(Ok(())) {
                CallerAction::Done(result) => result,
                _ => panic!("expected to be done"),
            };
            match listener.answered::<&'static str>(Ok(answer)) {
                ListenerAction::Done(result) => (caller_done, result),
                _ => panic!("expected to be done"),
            }
        }
        CallerAction::Done(result) => (result, listener_done.unwrap()),
        _ => panic!("expected an answer or to be done"),
    }
}

fn virtual_address(name: &str) -> ChannelAddress {
    ChannelAddress::Virtual(name.to_string())
}

fn caller_for(ty: &str, address: &str, acceptor: SimpleAcceptor) -> CallerHandshake<SimpleAcceptor> {
    CallerHandshake::new(ty.to_string(), virtual_address(address), acceptor)
}

fn listener_for(ty: &str, address: &str, info: Option<&str>) -> ListenerHandshake<SimpleChannelSelector> {
    ListenerHandshake::new(SimpleChannelSelector(
        ty.to_string(),
        virtual_address(address),
        info.map(|info| info.to_string()),
    ))
}

#[test]
fn handshake() {
    let mut listener = listener_for("http/api", "test1234", Some("some info"));
    let mut caller = caller_for("http/api", "test1234", SimpleAcceptor(None, virtual_address("test1234")));
    let (caller_result, listener_result) = perform(&mut caller, &mut listener);
    assert!(caller_result.is_ok());
    assert_eq!(listener_result.unwrap(), virtual_address("test1234"));
}

#[test]
fn deny() {
    let mut listener = listener_for("http/api", "valid", None);
    let mut caller = caller_for("http/api", "invalid", SimpleAcceptor(None, virtual_address("")));
    let (caller_result, listener_result) = perform(&mut caller, &mut listener);
    match (caller_result, listener_result) {
        (Err(HandshakeError::Channel(a)), Err(HandshakeError::Channel(b))) => {
            assert_eq!((a.reason.as_str(), a.code), ("invalid address", 2));
            assert_eq!((b.reason.as_str(), b.code), ("invalid address", 2));
        }
        _ => panic!("handshake should have failed"),
    }
}

#[test]
fn reject() {
    let mut listener = listener_for("http/api", "valid", None);
    let mut caller = caller_for("http/api", "valid", SimpleAcceptor(None, virtual_address("valid")));
    let (caller_result, listener_result) = perform(&mut caller, &mut listener);
    match (caller_result, listener_result) {
        (Err(HandshakeError::Channel(a)), Err(HandshakeError::Channel(b))) => {
            assert_eq!((a.reason.as_str(), a.code), ("error", 1));
            assert_eq!((b.reason.as_str(), b.code), ("error", 1));
        }
        _ => panic!("handshake should have failed"),
    }
}

#[test]
fn unknown_type_is_denied() {
    let mut listener = listener_for("http/api", "valid", None);
    let mut caller = caller_for("dns", "valid", SimpleAcceptor(None, virtual_address("")));
    let (caller_result, _) = perform(&mut caller, &mut listener);
    match caller_result {
        Err(HandshakeError::Channel(error)) => assert_eq!(error.reason, "invalid type"),
        _ => panic!("handshake should have failed"),
    }
}

#[test]
fn handshake_happens_once() {
    let mut listener = listener_for("http/api", "valid", Some("info"));
    let mut caller = caller_for("http/api", "valid", SimpleAcceptor(None, virtual_address("")));
    perform(&mut caller, &mut listener);
    assert!(caller.can_start());
    assert!(listener.can_start());
    match caller.start::<&'static str>() {
        CallerAction::Done(Err(error)) => {
            assert_eq!(caller_failure(&error), Some("handshake already ended"));
        }
        _ => panic!("expected an error"),
    }
    match listener.start::<&'static str>() {
        ListenerAction::Done(Err(error)) => {
            assert_eq!(listener_failure(&error), Some("handshake already completed"));
        }
        _ => panic!("expected an error"),
    }
}

fn asked() -> CallerHandshake<SimpleAcceptor> {
    let mut caller = caller_for("http/api", "valid", SimpleAcceptor(None, virtual_address("no")));
    match caller.start::<&'static str>() {
        CallerAction::SendRequest(request) => {
            assert_eq!(request.ty, "http/api");
            assert_eq!(request.address, virtual_address("valid"));
        }
        _ => panic!("expected a request"),
    }
    caller.sent::<&'static str>(Ok(()));
    caller
}

fn offer_of(ty: &str) -> OfferMessage {
    OfferMessage::Offer {
        ty: ty.to_string(),
        offer: ChannelOffer { address: virtual_address("valid"), info: None },
    }
}

#[test]
fn offer_of_another_type_ends_the_handshake() {
    let mut caller = asked();
    match caller.received::<&'static str>(Ok(offer_of("dns"))) {
        CallerAction::Done(Err(error)) => {
            assert!(matches!(error, HandshakeError::WrongType));
            assert_eq!(caller_failure(&error), Some("offer contained wrong type"));
        }
        _ => panic!("expected an error"),
    }
    assert!(caller.can_start());
}

#[test]
fn answers_name_the_type_that_was_asked_for() {
    let mut caller = asked();
    match caller.received_with::<&'static str>(Ok(offer_of("http/api")), Ok(())) {
        CallerAction::SendAnswer(AcceptMessage::Accept { ty }) => assert_eq!(ty, "http/api"),
        _ => panic!("expected an acceptance"),
    }
    assert!(matches!(caller.sent::<&'static str>(Ok(())), CallerAction::Done(Ok(()))));

    let mut caller = asked();
    let error = ChannelError { reason: "no".to_string(), code: 9 };
    match caller.received_with::<&'static str>(Ok(offer_of("http/api")), Err(error)) {
        CallerAction::SendAnswer(AcceptMessage::Reject { ty, detail }) => {
            assert_eq!(ty, "http/api");
            assert_eq!((detail.reason.as_str(), detail.code), ("no", 9));
        }
        _ => panic!("expected a rejection"),
    }
}

#[test]
fn offers_name_the_type_that_was_asked_for() {
    let request = || RequestMessage { ty: "x".to_string(), address: virtual_address("y") };
    let mut listener = listener_for("x", "y", None);
    let offer = ChannelOffer { address: virtual_address("z"), info: Some("i".to_string()) };
    match listener.requested_with::<&'static str>(request(), Ok((offer, virtual_address("s")))) {
        ListenerAction::SendOffer(OfferMessage::Offer { ty, offer }) => {
            assert_eq!(ty, "x");
            assert_eq!(offer.address, virtual_address("z"));
            assert_eq!(offer.info, Some("i".to_string()));
        }
        _ => panic!("expected an offer"),
    }
    assert!(matches!(listener.sent::<&'static str>(Ok(())), ListenerAction::ReceiveAnswer));
    match listener.answered::<&'static str>(Ok(AcceptMessage::Accept { ty: "other".to_string() })) {
        ListenerAction::Done(Ok(selection)) => assert_eq!(selection, virtual_address("s")),
        _ => panic!("expected success"),
    }
}

#[test]
fn lost_messages_end_the_handshake() {
    // the request cannot be sent
    let mut caller = caller_for("x", "y", SimpleAcceptor(None, virtual_address("")));
    caller.start::<&'static str>();
    match caller.sent(Err("lost")) {
        CallerAction::Done(Err(HandshakeError::Transport(error))) => assert_eq!(error, "lost"),
        _ => panic!("expected an error"),
    }
    assert!(!caller.can_start());

    // the offer cannot be received
    let mut caller = asked();
    assert!(matches!(
        caller.received(Err("lost")),
        CallerAction::Done(Err(HandshakeError::Transport("lost")))
    ));
    assert!(!caller.can_start());

    // the acceptance cannot be sent
    let mut caller = asked();
    caller.received_with::<&'static str>(Ok(offer_of("http/api")), Ok(()));
    assert!(matches!(
        caller.sent(Err("lost")),
        CallerAction::Done(Err(HandshakeError::Transport("lost")))
    ));
    assert!(!caller.can_start());

    // the rejection cannot be sent: the handshake is over all the same
    let mut caller = asked();
    let error = ChannelError { reason: "no".to_string(), code: 9 };
    caller.received_with::<&'static str>(Ok(offer_of("http/api")), Err(error));
    assert!(matches!(
        caller.sent(Err("lost")),
        CallerAction::Done(Err(HandshakeError::Transport("lost")))
    ));
    assert!(caller.can_start());

    // the request cannot be received
    let mut listener = listener_for("x", "y", None);
    assert!(matches!(
        listener.requested(Err("lost")),
        ListenerAction::Done(Err(HandshakeError::Transport("lost")))
    ));
    assert!(!listener.can_start());

    // the denial cannot be sent
    let mut listener = listener_for("x", "y", None);
    let request = RequestMessage { ty: "z".to_string(), address: virtual_address("y") };
    listener.requested::<&'static str>(Ok(request));
    assert!(matches!(
        listener.sent(Err("lost")),
        ListenerAction::Done(Err(HandshakeError::Transport("lost")))
    ));
    assert!(!listener.can_start());

    // the answer cannot be received
    let mut listener = listener_for("x", "y", None);
    let request = RequestMessage { ty: "x".to_string(), address: virtual_address("y") };
    listener.requested::<&'static str>(Ok(request));
    listener.sent::<&'static str>(Ok(()));
    assert!(matches!(
        listener.answered(Err("lost")),
        ListenerAction::Done(Err(HandshakeError::Transport("lost")))
    ));
    assert!(!listener.can_start());
}

#[test]
fn acceptor_judges_offers_of_the_right_type_only() {
    let state = CallerHandshakeState::WaitOffer {
        ty: "http/api".to_string(),
        address: virtual_address("here"),
    };
    let right: Result<OfferMessage, ()> = Ok(offer_of("http/api"));
    match to_judge(&state, &right) {
        Some((ty, address, offer)) => {
            assert_eq!(ty, "http/api");
            assert_eq!(*address, virtual_address("here"));
            assert_eq!(offer.address, virtual_address("valid"));
        }
        None => panic!("expected something to judge"),
    }
    let wrong: Result<OfferMessage, ()> = Ok(offer_of("dns"));
    assert!(to_judge(&state, &wrong).is_none());
    let detail = ChannelError { reason: "no".to_string(), code: 1 };
    let denied: Result<OfferMessage, ()> = Ok(OfferMessage::Deny { ty: "http/api".to_string(), detail });
    assert!(to_judge(&state, &denied).is_none());
    assert!(to_judge(&state, &Err("lost")).is_none());
}

#[test]
fn errors_and_addresses_in_words() {
    let error = ChannelError { reason: "busy".to_string(), code: 4294967295 };
    assert_eq!(error.message(), "channel negotiation failed: busy, code: 4294967295");
    assert_eq!(error.clone().message(), error.message());
    assert_eq!(virtual_address("a b").text(), "virtual:a b");
    let address = ChannelAddress::IpAddressAndPort { address: "::1".to_string(), port: 80 };
    assert_eq!(address.text(), "ip:::1:80");
    assert_eq!(address, address.clone());
    assert_ne!(
        address,
        ChannelAddress::IpAddressAndPort { address: "::1".to_string(), port: 81 }
    );
    assert_ne!(virtual_address("::1"), address);
}
