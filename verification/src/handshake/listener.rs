//! The listener's side of the handshake.
use vstd::prelude::*;

use crate::handshake::{
    choice_view, AcceptMessage, AcceptMessageView, ChannelError, ChannelOffer, ChannelSelector, ErrorView,
    FailureView, HandshakeError, OfferMessage, OfferMessageView, OfferView, RequestMessage,
    RequestView,
};

verus! {

/// How far the listener has come.
pub enum ListenerHandshakeState<Selection> {
    /// The caller's request has to come.
    WaitRequest,
    /// The offer is on its way.
    Offering { selection: Selection },
    /// The denial is on its way.
    Denying { detail: ChannelError },
    /// The caller's answer to the offer has to come.
    WaitAccept { selection: Selection },
    /// The handshake is over.
    Ended,
    /// A message could not be sent or received; the handshake cannot go on.
    Invalid,
}

/// How far the listener has come, as plain values.
pub enum ListenerPhase<Selection> {
    WaitRequest,
    Offering(Selection),
    Denying(ErrorView),
    WaitAccept(Selection),
    Ended,
    Invalid,
}

impl<Selection> View for ListenerHandshakeState<Selection> {
    type V = ListenerPhase<Selection>;

    open spec fn view(&self) -> ListenerPhase<Selection> {
        match *self {
            ListenerHandshakeState::WaitRequest => ListenerPhase::WaitRequest,
            ListenerHandshakeState::Offering { selection } => ListenerPhase::Offering(selection),
            ListenerHandshakeState::Denying { detail } => ListenerPhase::Denying(detail@),
            ListenerHandshakeState::WaitAccept { selection } => ListenerPhase::WaitAccept(
                selection,
            ),
            ListenerHandshakeState::Ended => ListenerPhase::Ended,
            ListenerHandshakeState::Invalid => ListenerPhase::Invalid,
        }
    }
}

/// What the listener wants done.
pub enum ListenerAction<Selection, E> {
    /// Receive the caller's request, and hand it to [`ListenerHandshake::requested`].
    ReceiveRequest,
    /// Send the answer to the request, and report to [`ListenerHandshake::sent`].
    SendOffer(OfferMessage),
    /// Receive the caller's answer, and hand it to [`ListenerHandshake::answered`].
    ReceiveAnswer,
    /// The handshake is over.
    Done(Result<Selection, HandshakeError<E>>),
}

/// What the listener wants done, as plain values.
pub enum ListenerStep<Selection, E> {
    ReceiveRequest,
    SendOffer(OfferMessageView),
    ReceiveAnswer,
    Done(Result<Selection, FailureView<E>>),
}

impl<Selection, E> View for ListenerAction<Selection, E> {
    type V = ListenerStep<Selection, E>;

    open spec fn view(&self) -> ListenerStep<Selection, E> {
        match *self {
            ListenerAction::ReceiveRequest => ListenerStep::ReceiveRequest,
            ListenerAction::SendOffer(message) => ListenerStep::SendOffer(message@),
            ListenerAction::ReceiveAnswer => ListenerStep::ReceiveAnswer,
            ListenerAction::Done(Ok(selection)) => ListenerStep::Done(Ok(selection)),
            ListenerAction::Done(Err(error)) => ListenerStep::Done(Err(error@)),
        }
    }
}

/// What the listener does when the handshake is started.
pub open spec fn listener_start<Selection, E>(phase: ListenerPhase<Selection>) -> (
    ListenerPhase<Selection>,
    ListenerStep<Selection, E>,
) {
    match phase {
        ListenerPhase::WaitRequest => (phase, ListenerStep::ReceiveRequest),
        _ => (ListenerPhase::Ended, ListenerStep::Done(Err(FailureView::AlreadyEnded))),
    }
}

/// What the listener does with the caller's request, where `choice` is what it has to offer.
/// Offer and denial name the type that was asked for.
pub open spec fn listener_requested<Selection, E>(
    received: Result<RequestView, E>,
    choice: Result<(OfferView, Selection), ErrorView>,
) -> (ListenerPhase<Selection>, ListenerStep<Selection, E>) {
    match (received, choice) {
        (Ok(request), Ok((offer, selection))) => (
            ListenerPhase::Offering(selection),
            ListenerStep::SendOffer(OfferMessageView::Offer { ty: request.ty, offer }),
        ),
        (Ok(request), Err(detail)) => (
            ListenerPhase::Denying(detail),
            ListenerStep::SendOffer(OfferMessageView::Deny { ty: request.ty, detail }),
        ),
        (Err(error), _) => (
            ListenerPhase::Invalid,
            ListenerStep::Done(Err(FailureView::Transport(error))),
        ),
    }
}

/// What the listener does after a message was sent. In the other phases nothing is sent.
pub open spec fn listener_sent<Selection, E>(
    phase: ListenerPhase<Selection>,
    sent: Result<(), E>,
) -> (ListenerPhase<Selection>, ListenerStep<Selection, E>) {
    match (phase, sent) {
        (ListenerPhase::Offering(selection), Ok(_)) => (
            ListenerPhase::WaitAccept(selection),
            ListenerStep::ReceiveAnswer,
        ),
        (ListenerPhase::Denying(detail), Ok(_)) => (
            ListenerPhase::Ended,
            ListenerStep::Done(Err(FailureView::Channel(detail))),
        ),
        (_, Err(error)) => (
            ListenerPhase::Invalid,
            ListenerStep::Done(Err(FailureView::Transport(error))),
        ),
        (_, Ok(_)) => (ListenerPhase::Invalid, ListenerStep::ReceiveAnswer),
    }
}

/// What the caller's request says.
pub open spec fn request_view<E>(received: Result<RequestMessage, E>) -> Result<RequestView, E> {
    match received {
        Ok(message) => Ok(message@),
        Err(error) => Err(error),
    }
}

/// What the caller's answer says.
pub open spec fn answer_view<E>(received: Result<AcceptMessage, E>) -> Result<
    AcceptMessageView,
    E,
> {
    match received {
        Ok(message) => Ok(message@),
        Err(error) => Err(error),
    }
}

/// What the listener does with the caller's answer to an offer. In the other phases no answer is
/// received.
pub open spec fn listener_answered<Selection, E>(
    phase: ListenerPhase<Selection>,
    received: Result<AcceptMessageView, E>,
) -> (ListenerPhase<Selection>, ListenerStep<Selection, E>) {
    match (phase, received) {
        (ListenerPhase::WaitAccept(selection), Ok(AcceptMessageView::Accept { ty })) => (
            ListenerPhase::Ended,
            ListenerStep::Done(Ok(selection)),
        ),
        (ListenerPhase::WaitAccept(_), Ok(AcceptMessageView::Reject { ty, detail })) => (
            ListenerPhase::Ended,
            ListenerStep::Done(Err(FailureView::Channel(detail))),
        ),
        (_, Err(error)) => (
            ListenerPhase::Invalid,
            ListenerStep::Done(Err(FailureView::Transport(error))),
        ),
        (_, Ok(_)) => (ListenerPhase::Invalid, ListenerStep::ReceiveAnswer),
    }
}

/// The listener's side of a handshake.
pub struct ListenerHandshake<Selector> where Selector: ChannelSelector {
    state: ListenerHandshakeState<Selector::Selection>,
    selector: Selector,
}

impl<Selector> ListenerHandshake<Selector> where Selector: ChannelSelector {
    /// How far the handshake has come.
    pub closed spec fn phase(&self) -> ListenerPhase<Selector::Selection> {
        self.state@
    }

    /// Who decides what to offer.
    pub closed spec fn selector(&self) -> Selector {
        self.selector
    }

    /// A handshake that waits for a request.
    pub fn new(selector: Selector) -> (handshake: ListenerHandshake<Selector>)
        ensures
            handshake.phase() is WaitRequest,
            handshake.selector() == selector,
    {
        ListenerHandshake { state: ListenerHandshakeState::WaitRequest, selector }
    }

    /// Whether the handshake can be started: it has not been broken off.
    pub fn can_start(&self) -> (r: bool)
        ensures
            r == (self.phase() is WaitRequest || self.phase() is Ended),
    {
        match &self.state {
            ListenerHandshakeState::WaitRequest => true,
            ListenerHandshakeState::Ended => true,
            _ => false,
        }
    }

    /// Starts the handshake. One that is over cannot be started again.
    pub fn start<E>(&mut self) -> (action: ListenerAction<Selector::Selection, E>)
        requires
            old(self).phase() is WaitRequest || old(self).phase() is Ended,
        ensures
            (final(self).phase(), action@) == listener_start::<Selector::Selection, E>(
                old(self).phase(),
            ),
            final(self).selector() == old(self).selector(),
    {
        match &self.state {
            ListenerHandshakeState::WaitRequest => ListenerAction::ReceiveRequest,
            _ => ListenerAction::Done(Err(HandshakeError::AlreadyEnded)),
        }
    }

    /// Goes on with the caller's request. The selector is handed, once, the type and the address
    /// that are asked for; whatever it decides is answered to the caller.
    pub fn requested<E>(&mut self, received: Result<RequestMessage, E>) -> (action: ListenerAction<
        Selector::Selection,
        E,
    >)
        requires
            old(self).phase() is WaitRequest,
        ensures
            match received {
                Ok(request) => exists|
                    choice: Result<(OfferView, Selector::Selection), ErrorView>,
                | #[trigger]
                    old(self).selector().may_select(
                        &final(self).selector(),
                        request@.ty,
                        request@.address,
                        choice,
                    ) && (
                    final(self).phase(),
                    action@,
                ) == listener_requested(request_view(received), choice),
                Err(error) => final(self).phase() is Invalid && action@ == ListenerStep::<
                    Selector::Selection,
                    E,
                >::Done(Err(FailureView::Transport(error))) && final(self).selector() == old(
                    self,
                ).selector(),
            },
            received matches Ok(request) ==> exists|
                choice: Result<(OfferView, Selector::Selection), ErrorView>,
            | #[trigger]
                old(self).selector().may_select(
                    &final(self).selector(),
                    request.ty@,
                    request.address@,
                    choice,
                ) && match choice {
                    Ok((chosen, selection)) => final(self).phase() == ListenerPhase::Offering(
                        selection,
                    ) && (action matches ListenerAction::SendOffer(
                        OfferMessage::Offer { ty, offer },
                    ) && ty@ == request.ty@ && offer@ == chosen),
                    Err(reason) => final(self).phase() == ListenerPhase::<
                        Selector::Selection,
                    >::Denying(reason) && (action matches ListenerAction::SendOffer(
                        OfferMessage::Deny { ty, detail },
                    ) && ty@ == request.ty@ && detail@ == reason),
                },
    {
        match received {
            Ok(request) => {
                let choice = self.selector.select(request.ty.as_str(), &request.address);
                let ghost made = choice_view(choice);
                assert(old(self).selector().may_select(
                    &self.selector(),
                    request@.ty,
                    request@.address,
                    made,
                ));
                self.requested_with(request, choice)
            },
            Err(error) => {
                self.state = ListenerHandshakeState::Invalid;
                ListenerAction::Done(Err(HandshakeError::Transport(error)))
            },
        }
    }

    /// Goes on with the caller's request, where `choice` is the decision about it.
    pub fn requested_with<E>(
        &mut self,
        request: RequestMessage,
        choice: Result<(ChannelOffer, Selector::Selection), ChannelError>,
    ) -> (action: ListenerAction<Selector::Selection, E>)
        requires
            old(self).phase() is WaitRequest,
        ensures
            (final(self).phase(), action@) == listener_requested::<Selector::Selection, E>(
                Ok(request@),
                choice_view(choice),
            ),
            final(self).selector() == old(self).selector(),
    {
        match choice {
            Ok((offer, selection)) => {
                self.state = ListenerHandshakeState::Offering { selection };
                ListenerAction::SendOffer(OfferMessage::Offer { ty: request.ty, offer })
            },
            Err(rejection) => {
                self.state = ListenerHandshakeState::Denying { detail: rejection.clone() };
                ListenerAction::SendOffer(
                    OfferMessage::Deny { ty: request.ty, detail: rejection },
                )
            },
        }
    }

    /// Goes on after a message was sent.
    pub fn sent<E>(&mut self, sent: Result<(), E>) -> (action: ListenerAction<
        Selector::Selection,
        E,
    >)
        requires
            old(self).phase() is Offering || old(self).phase() is Denying,
        ensures
            (final(self).phase(), action@) == listener_sent(old(self).phase(), sent),
            final(self).selector() == old(self).selector(),
    {
        let mut state = ListenerHandshakeState::Invalid;
        std::mem::swap(&mut state, &mut self.state);
        match (state, sent) {
            (ListenerHandshakeState::Offering { selection }, Ok(_)) => {
                self.state = ListenerHandshakeState::WaitAccept { selection };
                ListenerAction::ReceiveAnswer
            },
            (ListenerHandshakeState::Denying { detail }, Ok(_)) => {
                self.state = ListenerHandshakeState::Ended;
                ListenerAction::Done(Err(HandshakeError::Channel(detail)))
            },
            (_, Ok(_)) => ListenerAction::ReceiveAnswer,
            (_, Err(error)) => ListenerAction::Done(Err(HandshakeError::Transport(error))),
        }
    }

    /// Goes on with the caller's answer to the offer.
    pub fn answered<E>(&mut self, received: Result<AcceptMessage, E>) -> (action: ListenerAction<
        Selector::Selection,
        E,
    >)
        requires
            old(self).phase() is WaitAccept,
        ensures
            (final(self).phase(), action@) == listener_answered(
                old(self).phase(),
                answer_view(received),
            ),
            final(self).selector() == old(self).selector(),
    {
        let mut state = ListenerHandshakeState::Invalid;
        std::mem::swap(&mut state, &mut self.state);
        match (state, received) {
            (
                ListenerHandshakeState::WaitAccept { selection },
                Ok(AcceptMessage::Accept { .. }),
            ) => {
                self.state = ListenerHandshakeState::Ended;
                ListenerAction::Done(Ok(selection))
            },
            (_, Ok(AcceptMessage::Reject { detail, .. })) => {
                self.state = ListenerHandshakeState::Ended;
                ListenerAction::Done(Err(HandshakeError::Channel(detail)))
            },
            (_, Ok(_)) => ListenerAction::ReceiveAnswer,
            (_, Err(error)) => ListenerAction::Done(Err(HandshakeError::Transport(error))),
        }
    }
}

/// The words for a handshake of the listener that is over.
pub fn listener_failure<E>(error: &HandshakeError<E>) -> (text: Option<&'static str>)
    ensures
        match error {
            HandshakeError::AlreadyEnded => text matches Some(t) && t@
                == "handshake already completed"@,
            _ => text is None,
        },
{
    match error {
        HandshakeError::AlreadyEnded => Some("handshake already completed"),
        _ => None,
    }
}

} // verus!
