//! What holds of the two sides of a handshake together.
use vstd::prelude::*;

use crate::handshake::caller::{
    caller_received, caller_sent, caller_start, judged, offer_view, CallerPhase, CallerStep,
};
use crate::handshake::listener::{
    answer_view, listener_answered, listener_requested, listener_sent, listener_start,
    request_view, ListenerPhase, ListenerStep,
};
use crate::handshake::{
    AcceptMessage, AcceptMessageView, ChannelOffer, ErrorView, FailureView, OfferMessage,
    OfferMessageView, OfferView, RequestMessage, RequestView,
};

verus! {

/// How a handshake has ended on its two sides.
pub struct Outcome<Selection, E> {
    pub caller_phase: CallerPhase,
    pub caller: CallerStep<E>,
    pub listener_phase: ListenerPhase<Selection>,
    pub listener: ListenerStep<Selection, E>,
}

/// A handshake in which every message arrives: the caller asks with `request`, the listener
/// meets that with `choice`, and `verdict` is what the caller thinks of the offer.
pub open spec fn conversation<Selection, E>(
    request: RequestView,
    choice: Result<(OfferView, Selection), ErrorView>,
    verdict: Result<(), ErrorView>,
) -> Outcome<Selection, E> {
    let (c1, asked) = caller_start::<E>(CallerPhase::Initial(request));
    let (c2, _) = caller_sent::<E>(c1, Ok(()));
    let (l1, offered) = listener_requested::<Selection, E>(Ok(asked->SendRequest_0), choice);
    let (l2, waits) = listener_sent::<Selection, E>(l1, Ok(()));
    let (c3, decided) = caller_received::<E>(c2, Ok(offered->SendOffer_0), verdict);
    match decided {
        CallerStep::SendAnswer(answer) => {
            let (c4, done) = caller_sent::<E>(c3, Ok(()));
            let (l3, told) = listener_answered::<Selection, E>(l2, Ok(answer));
            Outcome { caller_phase: c4, caller: done, listener_phase: l3, listener: told }
        },
        _ => Outcome {
            caller_phase: c3,
            caller: decided,
            listener_phase: l2,
            listener: waits,
        },
    }
}

/// The two sides agree. Where the listener offers and the caller accepts, both succeed and the
/// listener has what it selected; where the listener denies, or the caller rejects, both end
/// with the reason that was given.
pub proof fn both_sides_agree<Selection, E>(
    request: RequestView,
    choice: Result<(OfferView, Selection), ErrorView>,
    verdict: Result<(), ErrorView>,
)
    ensures
        ({
            let outcome = conversation::<Selection, E>(request, choice, verdict);
            &&& outcome.caller_phase is Ended
            &&& outcome.listener_phase is Ended
            &&& match (choice, verdict) {
                (Ok((_, selection)), Ok(_)) => {
                    &&& outcome.caller == CallerStep::<E>::Done(Ok(()))
                    &&& outcome.listener == ListenerStep::<Selection, E>::Done(Ok(selection))
                },
                (Ok(_), Err(detail)) => {
                    &&& outcome.caller == CallerStep::<E>::Done(Err(FailureView::Channel(detail)))
                    &&& outcome.listener == ListenerStep::<Selection, E>::Done(
                        Err(FailureView::Channel(detail)),
                    )
                },
                (Err(detail), _) => {
                    &&& outcome.caller == CallerStep::<E>::Done(Err(FailureView::Channel(detail)))
                    &&& outcome.listener == ListenerStep::<Selection, E>::Done(
                        Err(FailureView::Channel(detail)),
                    )
                },
            }
        }),
{
}

/// A handshake that is over stays over: starting it again gives an error and sends nothing.
pub proof fn over_is_over<Selection, E>()
    ensures
        caller_start::<E>(CallerPhase::Ended) == (
            CallerPhase::Ended,
            CallerStep::<E>::Done(Err(FailureView::AlreadyEnded)),
        ),
        listener_start::<Selection, E>(ListenerPhase::Ended) == (
            ListenerPhase::<Selection>::Ended,
            ListenerStep::<Selection, E>::Done(Err(FailureView::AlreadyEnded)),
        ),
{
}

/// An offer of another type than the one that was asked for is never accepted: whatever the
/// acceptor would say of it, the handshake ends and nothing is sent.
pub proof fn wrong_type_is_never_accepted<E>(
    request: RequestView,
    ty: Seq<char>,
    offer: OfferView,
    verdict: Result<(), ErrorView>,
)
    requires
        ty != request.ty,
    ensures
        caller_received::<E>(
            CallerPhase::WaitOffer(request),
            Ok(OfferMessageView::Offer { ty, offer }),
            verdict,
        ) == (CallerPhase::Ended, CallerStep::<E>::Done(Err(FailureView::WrongType))),
{
}

/// The caller succeeds only where it has sent its acceptance, and the listener only where an
/// acceptance has come.
pub proof fn success_needs_an_acceptance<Selection, E>(
    phase: CallerPhase,
    sent: Result<(), E>,
    listener: ListenerPhase<Selection>,
    received: Result<AcceptMessageView, E>,
)
    ensures
        caller_sent(phase, sent).1 == CallerStep::<E>::Done(Ok(())) ==> phase is Accepting
            && sent is Ok,
        listener_answered(listener, received).1 matches ListenerStep::Done(Ok(selection))
            ==> listener == ListenerPhase::WaitAccept(selection) && received is Ok
            && received->Ok_0 is Accept,
{
}

/// Whether the acceptor is asked depends on nothing but the type: every offer of the type that
/// was asked for is put to it, with the request and just as it came, whatever its address and
/// its information; an offer of another type, a denial and a failure are not.
pub proof fn every_offer_of_the_type_is_put_to_the_acceptor<E>(
    request: RequestView,
    ty: String,
    offer: ChannelOffer,
    received: Result<OfferMessage, E>,
)
    ensures
        ty@ == request.ty ==> judged::<E>(
            CallerPhase::WaitOffer(request),
            offer_view(Ok::<OfferMessage, E>(OfferMessage::Offer { ty, offer })),
        ) == Some((request, offer@)),
        judged(CallerPhase::WaitOffer(request), offer_view(received)) is Some <==> (
        received matches Ok(OfferMessage::Offer { ty: t, offer: o }) && t@ == request.ty),
{
}

/// What the caller answers to an offer of the type that it asked for follows from the decision
/// about it alone: an acceptance exactly if that accepts, and otherwise a rejection with the
/// reason given; two offers with the same decision are answered alike.
pub proof fn the_decision_is_the_answer<E>(
    request: RequestView,
    offer: OfferView,
    other: OfferView,
    verdict: Result<(), ErrorView>,
)
    ensures
        ({
            let step = caller_received::<E>(
                CallerPhase::WaitOffer(request),
                Ok(OfferMessageView::Offer { ty: request.ty, offer }),
                verdict,
            );
            &&& step == caller_received::<E>(
                CallerPhase::WaitOffer(request),
                Ok(OfferMessageView::Offer { ty: request.ty, offer: other }),
                verdict,
            )
            &&& verdict is Ok ==> step.0 is Accepting && step.1 == CallerStep::<E>::SendAnswer(
                AcceptMessageView::Accept { ty: request.ty },
            )
            &&& verdict matches Err(detail) ==> step.0 == CallerPhase::Rejecting(detail) && step.1
                == CallerStep::<E>::SendAnswer(
                AcceptMessageView::Reject { ty: request.ty, detail },
            )
        }),
{
}

/// A denial ends the handshake of the caller with its reason, whatever type it names and
/// whatever the acceptor would say.
pub proof fn a_denial_is_told<E>(
    request: RequestView,
    ty: Seq<char>,
    detail: ErrorView,
    verdict: Result<(), ErrorView>,
)
    ensures
        caller_received::<E>(
            CallerPhase::WaitOffer(request),
            Ok(OfferMessageView::Deny { ty, detail }),
            verdict,
        ) == (CallerPhase::Ended, CallerStep::<E>::Done(Err(FailureView::Channel(detail)))),
{
}

/// The request that the caller sends is the one that it was made with, and it remembers it until
/// an answer comes; what it has decided is what it ends with once that is sent.
pub proof fn the_caller_keeps_to_its_request<E>(request: RequestView, detail: ErrorView)
    ensures
        ({
            let (asking, asked) = caller_start::<E>(CallerPhase::Initial(request));
            &&& asked == CallerStep::<E>::SendRequest(request)
            &&& caller_sent::<E>(asking, Ok(())) == (
                CallerPhase::WaitOffer(request),
                CallerStep::<E>::ReceiveOffer,
            )
        }),
        caller_sent::<E>(CallerPhase::Accepting, Ok(())) == (
            CallerPhase::Ended,
            CallerStep::<E>::Done(Ok(())),
        ),
        caller_sent::<E>(CallerPhase::Rejecting(detail), Ok(())) == (
            CallerPhase::Ended,
            CallerStep::<E>::Done(Err(FailureView::Channel(detail))),
        ),
{
}

/// A message that cannot be sent or received breaks a handshake off with that failure, on either
/// side and in every phase. It cannot be taken up again, save that a caller that was rejecting
/// is over.
pub proof fn a_broken_connection_is_told<Selection, E>(
    caller: CallerPhase,
    listener: ListenerPhase<Selection>,
    verdict: Result<(), ErrorView>,
    choice: Result<(OfferView, Selection), ErrorView>,
    error: E,
)
    ensures
        ({
            let told = CallerStep::<E>::Done(Err(FailureView::Transport(error)));
            &&& caller_sent(caller, Err(error)).1 == told
            &&& caller_received(caller, Err(error), verdict) == (CallerPhase::Invalid, told)
            &&& caller is Rejecting ==> caller_sent(caller, Err(error)).0 is Ended
            &&& !(caller is Rejecting) ==> caller_sent(caller, Err(error)).0 is Invalid
        }),
        ({
            let told = (
                ListenerPhase::<Selection>::Invalid,
                ListenerStep::<Selection, E>::Done(Err(FailureView::Transport(error))),
            );
            &&& listener_requested(Err(error), choice) == told
            &&& listener_sent(listener, Err(error)) == told
            &&& listener_answered(listener, Err(error)) == told
        }),
{
}

/// What the listener sends names the type of the request, whatever address that has, and holds
/// what was chosen; it remembers the selection or the reason, and ends with the reason once a
/// denial is sent.
pub proof fn the_choice_is_offered<Selection, E>(
    request: RequestMessage,
    offer: OfferView,
    selection: Selection,
    detail: ErrorView,
)
    ensures
        ({
            let received = request_view(Ok::<RequestMessage, E>(request));
            &&& listener_requested::<Selection, E>(received, Ok((offer, selection))) == (
                ListenerPhase::Offering(selection),
                ListenerStep::<Selection, E>::SendOffer(
                    OfferMessageView::Offer { ty: request.ty@, offer },
                ),
            )
            &&& listener_requested::<Selection, E>(received, Err(detail)) == (
                ListenerPhase::<Selection>::Denying(detail),
                ListenerStep::<Selection, E>::SendOffer(
                    OfferMessageView::Deny { ty: request.ty@, detail },
                ),
            )
        }),
        listener_start::<Selection, E>(ListenerPhase::WaitRequest) == (
            ListenerPhase::<Selection>::WaitRequest,
            ListenerStep::<Selection, E>::ReceiveRequest,
        ),
        listener_sent::<Selection, E>(ListenerPhase::Offering(selection), Ok(())) == (
            ListenerPhase::WaitAccept(selection),
            ListenerStep::<Selection, E>::ReceiveAnswer,
        ),
        listener_sent::<Selection, E>(ListenerPhase::Denying(detail), Ok(())) == (
            ListenerPhase::<Selection>::Ended,
            ListenerStep::<Selection, E>::Done(Err(FailureView::Channel(detail))),
        ),
{
}

/// The listener ends with its selection exactly if the caller accepts, and else with the reason
/// that the caller gives, whatever type the answer names.
pub proof fn the_answer_is_taken<Selection, E>(selection: Selection, answer: AcceptMessage)
    ensures
        ({
            let (phase, step) = listener_answered(
                ListenerPhase::WaitAccept(selection),
                answer_view(Ok::<AcceptMessage, E>(answer)),
            );
            &&& phase is Ended
            &&& match answer {
                AcceptMessage::Accept { ty } => step == ListenerStep::<Selection, E>::Done(
                    Ok(selection),
                ),
                AcceptMessage::Reject { ty, detail } => step == ListenerStep::<Selection, E>::Done(
                    Err(FailureView::Channel(detail@)),
                ),
            }
        }),
{
}

} // verus!
