//! Senders of the unbounded channels between tasks.
use futures::channel::mpsc::UnboundedSender;
use vstd::prelude::*;

use crate::dns::DNSMessage;

verus! {

/// `futures::channel::mpsc::UnboundedSender`, the sending end of a channel between tasks.
#[verifier::external_type_specification]
#[verifier::external_body]
#[verifier::reject_recursive_types(T)]
pub struct ExUnboundedSender<T>(futures::channel::mpsc::UnboundedSender<T>);

/// `UnboundedSender::is_closed`: whether the receiving end is gone. Another task drops that end
/// at any time, so nothing is claimed of the answer.
#[verifier::external_body]
pub(crate) fn is_closed(sender: &UnboundedSender<DNSMessage>) -> (closed: bool) {
    sender.is_closed()
}

/// Whether asking a sender with [`is_closed`] can have given this answer.
pub closed spec fn answered(sender: UnboundedSender<DNSMessage>, closed: bool) -> bool {
    call_ensures(is_closed, (&sender,), closed)
}

/// Asks whether the receiving end is gone.
pub(crate) fn ask(sender: &UnboundedSender<DNSMessage>) -> (closed: bool)
    ensures
        answered(*sender, closed),
{
    is_closed(sender)
}

} // verus!
