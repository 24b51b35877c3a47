//! The loop at each end of a DNS channel: messages of the bridge go to the peer, messages of the
//! peer go to the bridge.
use vstd::prelude::*;

use crate::dns::{DNSMessage, NotEnoughData};
use crate::net::{IoError, IoErrorKind};

verus! {

/// Why no message came from the peer.
#[derive(Debug)]
pub enum ReceiveError {
    /// Reading failed.
    Io(IoError),
    /// What came is too short for a message.
    Message(NotEnoughData),
}

/// The peer has closed the stream.
pub open spec fn is_closed(error: ReceiveError) -> bool {
    error matches ReceiveError::Io(e) && e.kind == IoErrorKind::UnexpectedEof
}

/// Which end of a channel a relay stands at.
#[derive(Debug, Clone, Copy, PartialEq, Eq, Structural)]
pub enum RelayKind {
    /// The client's end of a channel.
    Client,
    /// The server's end of a channel, which outlives a message that could not be sent.
    ChannelSession,
    /// The server's end of a client connection, which ends when a message cannot be sent.
    ServerSession,
}

/// What a relay has to react to.
pub enum Event {
    Shutdown,
    DNSFromBridge(DNSMessage),
    DNSFromPeer(Result<DNSMessage, ReceiveError>),
}

impl Event {
    /// What the bridge's side says: a message, or that there is nothing more to come.
    pub fn from_bridge(received: Option<DNSMessage>) -> (event: Event)
        ensures
            event == match received {
                Some(msg) => Event::DNSFromBridge(msg),
                None => Event::Shutdown,
            },
    {
        match received {
            Some(msg) => Event::DNSFromBridge(msg),
            None => Event::Shutdown,
        }
    }
}

/// Why a relay ends early.
#[derive(Debug)]
pub enum RelayError {
    /// No message could be received from the peer.
    Receive(ReceiveError),
    /// No message could be sent to the peer.
    Send(IoError),
}

/// What a relay wants done.
pub enum Action {
    /// Leave the loop.
    Stop(Result<(), RelayError>),
    /// Send a message to the peer, and ask [`Relay::sent_to_peer`] how to go on.
    SendToPeer(DNSMessage),
    /// Send a message to the bridge, and go on whether or not that worked.
    SendToBridge(DNSMessage),
}

/// One end of a DNS channel.
#[derive(Debug, Clone, Copy, PartialEq, Eq, Structural)]
pub struct Relay {
    pub kind: RelayKind,
}

impl Relay {
    /// Reacts to an event. A stream that the peer has closed ends the relay without an error;
    /// any other failure to receive ends it with one.
    pub fn on_event(&self, event: Event) -> (action: Action)
        ensures
            action == match event {
                Event::Shutdown => Action::Stop(Ok(())),
                Event::DNSFromBridge(msg) => Action::SendToPeer(msg),
                Event::DNSFromPeer(Ok(msg)) => Action::SendToBridge(msg),
                Event::DNSFromPeer(Err(error)) => if is_closed(error) {
                    Action::Stop(Ok(()))
                } else {
                    Action::Stop(Err(RelayError::Receive(error)))
                },
            },
    {
        match event {
            Event::Shutdown => Action::Stop(Ok(())),
            Event::DNSFromBridge(msg) => Action::SendToPeer(msg),
            Event::DNSFromPeer(Ok(msg)) => Action::SendToBridge(msg),
            Event::DNSFromPeer(Err(error)) => {
                let closed = match &error {
                    ReceiveError::Io(e) => e.kind == IoErrorKind::UnexpectedEof,
                    ReceiveError::Message(_) => false,
                };
                if closed {
                    Action::Stop(Ok(()))
                } else {
                    Action::Stop(Err(RelayError::Receive(error)))
                }
            },
        }
    }

    /// Whether what has come of a message is kept when another event comes first. Only a session
    /// with a client connection keeps it.
    pub fn keeps_partial_messages(&self) -> (r: bool)
        ensures
            r == (self.kind == RelayKind::ServerSession),
    {
        match self.kind {
            RelayKind::ServerSession => true,
            _ => false,
        }
    }

    /// How to go on after a message was sent to the peer: `None` to go on, else how the relay
    /// ends. Only a session with a client connection ends when sending has failed.
    pub fn sent_to_peer(&self, sent: Result<(), IoError>) -> (end: Option<Result<(), RelayError>>)
        ensures
            end == match sent {
                Ok(_) => None,
                Err(error) => if self.kind == RelayKind::ServerSession {
                    Some(Err::<(), RelayError>(RelayError::Send(error)))
                } else {
                    None
                },
            },
    {
        match sent {
            Ok(_) => None,
            Err(error) => match self.kind {
                RelayKind::ServerSession => Some(Err(RelayError::Send(error))),
                _ => None,
            },
        }
    }

    /// What was being done when the relay ended with an error.
    pub fn context(&self, error: &RelayError) -> (text: &'static str)
        ensures
            text@ == context_text(self.kind, *error),
    {
        match error {
            RelayError::Send(_) => "send dns message to client",
            RelayError::Receive(_) => match self.kind {
                RelayKind::ServerSession => "receive dns message from client",
                _ => "failed to receive dns message from channel",
            },
        }
    }
}

/// What was being done when a relay ended with an error.
pub open spec fn context_text(kind: RelayKind, error: RelayError) -> Seq<char> {
    match error {
        RelayError::Send(_) => "send dns message to client"@,
        RelayError::Receive(_) => if kind == RelayKind::ServerSession {
            "receive dns message from client"@
        } else {
            "failed to receive dns message from channel"@
        },
    }
}

/// Only a stream that ended counts as closed by the peer: neither another failure to read nor a
/// message that is too short does.
pub proof fn only_an_ended_stream_is_closed(error: IoError, short: NotEnoughData)
    ensures
        is_closed(ReceiveError::Io(error)) <==> error.kind == IoErrorKind::UnexpectedEof,
        !is_closed(ReceiveError::Message(short)),
{
}

/// An error says what failed: sending and receiving are told apart, and receiving from a client
/// connection from receiving from a channel.
pub proof fn context_says_what_failed(kind: RelayKind, sent: IoError, received: ReceiveError)
    ensures
        context_text(kind, RelayError::Send(sent)) == "send dns message to client"@,
        kind == RelayKind::ServerSession ==> context_text(kind, RelayError::Receive(received))
            == "receive dns message from client"@,
        kind != RelayKind::ServerSession ==> context_text(kind, RelayError::Receive(received))
            == "failed to receive dns message from channel"@,
{
}

} // verus!
