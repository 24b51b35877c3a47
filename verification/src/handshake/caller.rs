//! The caller's side of the handshake.
use vstd::prelude::*;

use crate::handshake::{
    verdict_view, AcceptMessage, AcceptMessageView, ChannelAcceptor, ChannelAddress, ChannelError,
    ChannelOffer, ErrorView, FailureView, HandshakeError, OfferMessage, OfferMessageView,
    OfferView, RequestMessage, RequestView,
};

verus! {

/// How far the caller has come.
pub enum CallerHandshakeState {
    /// Nothing has been sent yet.
    Initial { ty: String, address: ChannelAddress },
    /// The request is on its way.
    Requesting { ty: String, address: ChannelAddress },
    /// The listener's answer has to come.
    WaitOffer { ty: String, address: ChannelAddress },
    /// The acceptance is on its way.
    Accepting,
    /// The rejection is on its way.
    Rejecting { detail: ChannelError },
    /// The handshake is over.
    Ended,
    /// A message could not be sent or received; the handshake cannot go on.
    Invalid,
}

/// How far the caller has come, as plain values.
pub enum CallerPhase {
    Initial(RequestView),
    Requesting(RequestView),
    WaitOffer(RequestView),
    Accepting,
    Rejecting(ErrorView),
    Ended,
    Invalid,
}

impl View for CallerHandshakeState {
    type V = CallerPhase;

    open spec fn view(&self) -> CallerPhase {
        match self {
            CallerHandshakeState::Initial { ty, address } => CallerPhase::Initial(
                RequestView { ty: ty@, address: address@ },
            ),
            CallerHandshakeState::Requesting { ty, address } => CallerPhase::Requesting(
                RequestView { ty: ty@, address: address@ },
            ),
            CallerHandshakeState::WaitOffer { ty, address } => CallerPhase::WaitOffer(
                RequestView { ty: ty@, address: address@ },
            ),
            CallerHandshakeState::Accepting => CallerPhase::Accepting,
            CallerHandshakeState::Rejecting { detail } => CallerPhase::Rejecting(detail@),
            CallerHandshakeState::Ended => CallerPhase::Ended,
            CallerHandshakeState::Invalid => CallerPhase::Invalid,
        }
    }
}

/// What the caller wants done.
pub enum CallerAction<E> {
    /// Send the request, and report to [`CallerHandshake::sent`].
    SendRequest(RequestMessage),
    /// Receive the listener's answer, and hand it to [`CallerHandshake::received`].
    ReceiveOffer,
    /// Send the answer to an offer, and report to [`CallerHandshake::sent`].
    SendAnswer(AcceptMessage),
    /// The handshake is over.
    Done(Result<(), HandshakeError<E>>),
}

/// What the caller wants done, as plain values.
pub enum CallerStep<E> {
    SendRequest(RequestView),
    ReceiveOffer,
    SendAnswer(AcceptMessageView),
    Done(Result<(), FailureView<E>>),
}

impl<E> View for CallerAction<E> {
    type V = CallerStep<E>;

    open spec fn view(&self) -> CallerStep<E> {
        match *self {
            CallerAction::SendRequest(message) => CallerStep::SendRequest(message@),
            CallerAction::ReceiveOffer => CallerStep::ReceiveOffer,
            CallerAction::SendAnswer(message) => CallerStep::SendAnswer(message@),
            CallerAction::Done(Ok(_)) => CallerStep::Done(Ok(())),
            CallerAction::Done(Err(error)) => CallerStep::Done(Err(error@)),
        }
    }
}

/// What the caller does when the handshake is started.
pub open spec fn caller_start<E>(phase: CallerPhase) -> (CallerPhase, CallerStep<E>) {
    match phase {
        CallerPhase::Initial(request) => (
            CallerPhase::Requesting(request),
            CallerStep::SendRequest(request),
        ),
        _ => (CallerPhase::Ended, CallerStep::Done(Err(FailureView::AlreadyEnded))),
    }
}

/// What the caller does after a message was sent. A rejection that could not be sent ends the
/// handshake all the same; otherwise it cannot go on after a failure. In the other phases nothing
/// is sent.
pub open spec fn caller_sent<E>(phase: CallerPhase, sent: Result<(), E>) -> (
    CallerPhase,
    CallerStep<E>,
) {
    match (phase, sent) {
        (CallerPhase::Requesting(request), Ok(_)) => (
            CallerPhase::WaitOffer(request),
            CallerStep::ReceiveOffer,
        ),
        (CallerPhase::Accepting, Ok(_)) => (CallerPhase::Ended, CallerStep::Done(Ok(()))),
        (CallerPhase::Rejecting(detail), Ok(_)) => (
            CallerPhase::Ended,
            CallerStep::Done(Err(FailureView::Channel(detail))),
        ),
        (CallerPhase::Rejecting(_), Err(error)) => (
            CallerPhase::Ended,
            CallerStep::Done(Err(FailureView::Transport(error))),
        ),
        (_, Err(error)) => (
            CallerPhase::Invalid,
            CallerStep::Done(Err(FailureView::Transport(error))),
        ),
        (_, Ok(_)) => (CallerPhase::Invalid, CallerStep::ReceiveOffer),
    }
}

/// What the listener's answer says.
pub open spec fn offer_view<E>(received: Result<OfferMessage, E>) -> Result<OfferMessageView, E> {
    match received {
        Ok(message) => Ok(message@),
        Err(error) => Err(error),
    }
}

/// What the caller does with the listener's answer, where `verdict` is what it thinks of an
/// offer of the type that it asked for. In the other phases nothing is received.
pub open spec fn caller_received<E>(
    phase: CallerPhase,
    received: Result<OfferMessageView, E>,
    verdict: Result<(), ErrorView>,
) -> (CallerPhase, CallerStep<E>) {
    match (phase, received) {
        (CallerPhase::WaitOffer(request), Ok(OfferMessageView::Offer { ty, offer })) => {
            if request.ty != ty {
                (CallerPhase::Ended, CallerStep::Done(Err(FailureView::WrongType)))
            } else {
                match verdict {
                    Ok(_) => (
                        CallerPhase::Accepting,
                        CallerStep::SendAnswer(AcceptMessageView::Accept { ty: request.ty }),
                    ),
                    Err(detail) => (
                        CallerPhase::Rejecting(detail),
                        CallerStep::SendAnswer(
                            AcceptMessageView::Reject { ty: request.ty, detail },
                        ),
                    ),
                }
            }
        },
        (CallerPhase::WaitOffer(_), Ok(OfferMessageView::Deny { ty, detail })) => (
            CallerPhase::Ended,
            CallerStep::Done(Err(FailureView::Channel(detail))),
        ),
        (_, Err(error)) => (
            CallerPhase::Invalid,
            CallerStep::Done(Err(FailureView::Transport(error))),
        ),
        (_, Ok(_)) => (CallerPhase::Invalid, CallerStep::ReceiveOffer),
    }
}

/// The caller's side of a handshake.
pub struct CallerHandshake<Acceptor> where Acceptor: ChannelAcceptor {
    state: CallerHandshakeState,
    acceptor: Acceptor,
}

/// What there is to decide about the listener's answer: the request and the offer, if it is an
/// offer of the type that was asked for.
pub open spec fn judged<E>(phase: CallerPhase, received: Result<OfferMessageView, E>) -> Option<
    (RequestView, OfferView),
> {
    match (phase, received) {
        (CallerPhase::WaitOffer(request), Ok(OfferMessageView::Offer { ty, offer })) => {
            if request.ty == ty {
                Some((request, offer))
            } else {
                None
            }
        },
        _ => None,
    }
}

/// What there is to decide about the listener's answer: the type and address that were asked
/// for and the offer, if it is an offer of that type.
pub fn to_judge<'a, E>(
    state: &'a CallerHandshakeState,
    received: &'a Result<OfferMessage, E>,
) -> (r: Option<(&'a String, &'a ChannelAddress, &'a ChannelOffer)>)
    ensures
        match r {
            Some((ty, address, offer)) => judged(state@, offer_view(*received)) == Some(
                (RequestView { ty: ty@, address: address@ }, offer@),
            ),
            None => judged(state@, offer_view(*received)) is None,
        },
{
    match (state, received) {
        (
            CallerHandshakeState::WaitOffer { ty, address },
            Ok(OfferMessage::Offer { ty: offer_ty, offer }),
        ) => {
            if *ty == *offer_ty {
                Some((ty, address, offer))
            } else {
                None
            }
        },
        _ => None,
    }
}

impl<Acceptor> CallerHandshake<Acceptor> where Acceptor: ChannelAcceptor {
    /// How far the handshake has come.
    pub closed spec fn phase(&self) -> CallerPhase {
        self.state@
    }

    /// Who decides whether an offer is good.
    pub closed spec fn acceptor(&self) -> Acceptor {
        self.acceptor
    }

    /// A handshake that asks for a channel of a type at an address.
    pub fn new(ty: String, address: ChannelAddress, acceptor: Acceptor) -> (handshake:
        CallerHandshake<Acceptor>)
        ensures
            handshake.phase() == CallerPhase::Initial(RequestView { ty: ty@, address: address@ }),
            handshake.acceptor() == acceptor,
    {
        CallerHandshake { state: CallerHandshakeState::Initial { ty, address }, acceptor }
    }

    /// Whether the handshake can be started: it has not been broken off.
    pub fn can_start(&self) -> (r: bool)
        ensures
            r == (self.phase() is Initial || self.phase() is Ended),
    {
        match &self.state {
            CallerHandshakeState::Initial { .. } => true,
            CallerHandshakeState::Ended => true,
            _ => false,
        }
    }

    /// Starts the handshake. One that is over cannot be started again.
    pub fn start<E>(&mut self) -> (action: CallerAction<E>)
        requires
            old(self).phase() is Initial || old(self).phase() is Ended,
        ensures
            (final(self).phase(), action@) == caller_start::<E>(old(self).phase()),
            final(self).acceptor() == old(self).acceptor(),
            match old(self).phase() {
                CallerPhase::Initial(request) => action matches CallerAction::SendRequest(message)
                    && message.ty@ == request.ty && message.address@ == request.address,
                _ => action == CallerAction::<E>::Done(Err(HandshakeError::AlreadyEnded)),
            },
    {
        let mut state = CallerHandshakeState::Ended;
        std::mem::swap(&mut state, &mut self.state);
        match state {
            CallerHandshakeState::Initial { ty, address } => {
                let request = RequestMessage { ty: ty.clone(), address: address.clone() };
                self.state = CallerHandshakeState::Requesting { ty, address };
                CallerAction::SendRequest(request)
            },
            _ => CallerAction::Done(Err(HandshakeError::AlreadyEnded)),
        }
    }

    /// Goes on after a message was sent.
    pub fn sent<E>(&mut self, sent: Result<(), E>) -> (action: CallerAction<E>)
        requires
            old(self).phase() is Requesting || old(self).phase() is Accepting
                || old(self).phase() is Rejecting,
        ensures
            (final(self).phase(), action@) == caller_sent(old(self).phase(), sent),
            final(self).acceptor() == old(self).acceptor(),
    {
        let mut state = CallerHandshakeState::Invalid;
        std::mem::swap(&mut state, &mut self.state);
        match (state, sent) {
            (CallerHandshakeState::Requesting { ty, address }, Ok(_)) => {
                self.state = CallerHandshakeState::WaitOffer { ty, address };
                CallerAction::ReceiveOffer
            },
            (CallerHandshakeState::Rejecting { detail }, Ok(_)) => {
                self.state = CallerHandshakeState::Ended;
                CallerAction::Done(Err(HandshakeError::Channel(detail)))
            },
            (CallerHandshakeState::Rejecting { .. }, Err(error)) => {
                self.state = CallerHandshakeState::Ended;
                CallerAction::Done(Err(HandshakeError::Transport(error)))
            },
            (_, Ok(_)) => {
                self.state = CallerHandshakeState::Ended;
                CallerAction::Done(Ok(()))
            },
            (_, Err(error)) => CallerAction::Done(Err(HandshakeError::Transport(error))),
        }
    }

    /// Goes on with the listener's answer. An offer of the type that was asked for is put to
    /// the acceptor once, together with the type and the address that were asked for; whatever
    /// it decides is answered to the listener. Nothing else is put to it.
    pub fn received<E>(&mut self, received: Result<OfferMessage, E>) -> (action: CallerAction<E>)
        requires
            old(self).phase() is WaitOffer,
        ensures
            match judged(old(self).phase(), offer_view(received)) {
                Some((request, offer)) => exists|verdict: Result<(), ErrorView>| #[trigger]
                    old(self).acceptor().may_accept(
                        &final(self).acceptor(),
                        request.ty,
                        request.address,
                        offer,
                        verdict,
                    ) && (final(self).phase(), action@) == caller_received(
                        old(self).phase(),
                        offer_view(received),
                        verdict,
                    ),
                None => (final(self).phase(), action@) == caller_received(
                    old(self).phase(),
                    offer_view(received),
                    Ok(()),
                ) && final(self).acceptor() == old(self).acceptor(),
            },
            old(self).phase() matches CallerPhase::WaitOffer(request) ==> match received {
                Ok(OfferMessage::Offer { ty, offer }) => if ty@ == request.ty {
                    exists|verdict: Result<(), ErrorView>| #[trigger]
                        old(self).acceptor().may_accept(
                            &final(self).acceptor(),
                            request.ty,
                            request.address,
                            offer@,
                            verdict,
                        ) && match verdict {
                            Ok(_) => final(self).phase() == CallerPhase::Accepting && (
                            action matches CallerAction::SendAnswer(AcceptMessage::Accept {
                                ty: answer_ty,
                            }) && answer_ty@ == request.ty),
                            Err(reason) => final(self).phase() == CallerPhase::Rejecting(reason)
                                && (action matches CallerAction::SendAnswer(
                                AcceptMessage::Reject { ty: answer_ty, detail },
                            ) && answer_ty@ == request.ty && detail@ == reason),
                        }
                } else {
                    &&& final(self).phase() == CallerPhase::Ended
                    &&& action == CallerAction::<E>::Done(Err(HandshakeError::WrongType))
                    &&& final(self).acceptor() == old(self).acceptor()
                },
                Ok(OfferMessage::Deny { ty, detail }) => {
                    &&& final(self).phase() == CallerPhase::Ended
                    &&& action matches CallerAction::Done(Err(HandshakeError::Channel(error)))
                        && error@ == detail@
                    &&& final(self).acceptor() == old(self).acceptor()
                },
                Err(error) => {
                    &&& final(self).phase() == CallerPhase::Invalid
                    &&& action == CallerAction::Done(Err(HandshakeError::Transport(error)))
                    &&& final(self).acceptor() == old(self).acceptor()
                },
            },
    {
        let verdict = match to_judge(&self.state, &received) {
            Some((ty, address, offer)) => self.acceptor.accept(ty.as_str(), address, offer),
            None => Ok(()),
        };
        let ghost decided = verdict_view(verdict);
        assert(judged(old(self).phase(), offer_view(received)) matches Some((request, offer)) ==> old(
            self,
        ).acceptor().may_accept(
            &self.acceptor(),
            request.ty,
            request.address,
            offer,
            decided,
        ));
        self.received_with(received, verdict)
    }

    /// Goes on with the listener's answer, where `verdict` is the decision about an offer of
    /// the type that was asked for.
    pub fn received_with<E>(
        &mut self,
        received: Result<OfferMessage, E>,
        verdict: Result<(), ChannelError>,
    ) -> (action: CallerAction<E>)
        requires
            old(self).phase() is WaitOffer,
        ensures
            (final(self).phase(), action@) == caller_received(
                old(self).phase(),
                offer_view(received),
                verdict_view(verdict),
            ),
            final(self).acceptor() == old(self).acceptor(),
    {
        let mut state = CallerHandshakeState::Invalid;
        std::mem::swap(&mut state, &mut self.state);
        match (state, received) {
            (
                CallerHandshakeState::WaitOffer { ty, .. },
                Ok(OfferMessage::Offer { ty: offer_ty, .. }),
            ) => {
                if ty != offer_ty {
                    self.state = CallerHandshakeState::Ended;
                    CallerAction::Done(Err(HandshakeError::WrongType))
                } else {
                    match verdict {
                        Ok(_) => {
                            self.state = CallerHandshakeState::Accepting;
                            CallerAction::SendAnswer(AcceptMessage::Accept { ty })
                        },
                        Err(error) => {
                            self.state = CallerHandshakeState::Rejecting { detail: error.clone() };
                            CallerAction::SendAnswer(AcceptMessage::Reject { ty, detail: error })
                        },
                    }
                }
            },
            (_, Ok(OfferMessage::Deny { detail, .. })) => {
                self.state = CallerHandshakeState::Ended;
                CallerAction::Done(Err(HandshakeError::Channel(detail)))
            },
            (_, Ok(OfferMessage::Offer { .. })) => CallerAction::ReceiveOffer,
            (_, Err(error)) => CallerAction::Done(Err(HandshakeError::Transport(error))),
        }
    }
}

/// The words for a handshake of the caller that is over.
pub fn caller_failure<E>(error: &HandshakeError<E>) -> (text: Option<&'static str>)
    ensures
        match error {
            HandshakeError::WrongType => text matches Some(t) && t@ == "offer contained wrong type"@,
            HandshakeError::AlreadyEnded => text matches Some(t) && t@ == "handshake already ended"@,
            _ => text is None,
        },
{
    match error {
        HandshakeError::WrongType => Some("offer contained wrong type"),
        HandshakeError::AlreadyEnded => Some("handshake already ended"),
        _ => None,
    }
}

} // verus!
