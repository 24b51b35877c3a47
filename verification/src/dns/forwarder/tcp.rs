//! Forwarding DNS messages over TCP: the connection is made when there is something to send,
//! and made again after it was lost.
use vstd::prelude::*;
use vstd::std_specs::cmp::PartialEqSpec;

use crate::dns::relay::ReceiveError;
use crate::dns::DNSMessage;

verus! {

/// A DNS server that is asked over TCP.
#[derive(Debug)]
pub struct Config {
    pub host: String,
    pub port: u16,
}

/// A DNS server, as plain values.
pub struct ConfigView {
    pub host: Seq<char>,
    pub port: u16,
}

impl View for Config {
    type V = ConfigView;

    open spec fn view(&self) -> ConfigView {
        ConfigView { host: self.host@, port: self.port }
    }
}

impl Clone for Config {
    fn clone(&self) -> (r: Config)
        ensures
            r == *self,
    {
        Config { host: self.host.clone(), port: self.port }
    }
}

impl PartialEq for Config {
    fn eq(&self, other: &Config) -> (r: bool) {
        self.host == other.host && self.port == other.port
    }
}

impl vstd::std_specs::cmp::PartialEqSpecImpl for Config {
    open spec fn obeys_eq_spec() -> bool {
        true
    }

    open spec fn eq_spec(&self, other: &Config) -> bool {
        self@ == other@
    }
}

impl Eq for Config {

}

/// How long to wait before the next attempt to connect, in seconds.
pub const CONNECT_RETRY_SECS: u64 = 5;

/// What an attempt to connect leads to.
pub enum ConnectStep<C> {
    /// There is a connection.
    Connected(C),
    /// Wait for [`CONNECT_RETRY_SECS`] and try again.
    WaitThenRetry,
}

/// Goes on after an attempt to connect: one that failed is followed by another one.
pub fn after_connect<C, E>(attempt: Result<C, E>) -> (step: ConnectStep<C>)
    ensures
        step == match attempt {
            Ok(connection) => ConnectStep::Connected(connection),
            Err(_) => ConnectStep::WaitThenRetry,
        },
{
    match attempt {
        Ok(connection) => ConnectStep::Connected(connection),
        Err(_) => ConnectStep::WaitThenRetry,
    }
}

/// How a forwarder stands with its server.
#[derive(Debug, Clone, Copy, PartialEq, Eq, Structural)]
pub enum ForwarderState {
    /// There is no connection, and nothing to send.
    Waiting,
    /// A connection is being made.
    Connecting,
    /// There is a connection.
    Connected,
    /// There is a connection, and a message is on its way to the bridge.
    SendingToBridge,
    /// There is a connection, and a message is on its way to the server.
    SendingToNet,
    /// The forwarder is done.
    Ended,
}

/// What a waiting forwarder has to react to.
#[derive(Debug, Clone, Copy, PartialEq, Eq, Structural)]
pub enum ForwarderEventWaiting {
    ConnectNow,
    Shutdown,
}

impl ForwarderEventWaiting {
    /// What a look at the bridge's channel says: that there is something to send, or that there
    /// is nothing more to come.
    pub fn from_peek(message_waits: bool) -> (event: ForwarderEventWaiting)
        ensures
            event == if message_waits {
                ForwarderEventWaiting::ConnectNow
            } else {
                ForwarderEventWaiting::Shutdown
            },
    {
        if message_waits {
            ForwarderEventWaiting::ConnectNow
        } else {
            ForwarderEventWaiting::Shutdown
        }
    }
}

/// What a forwarder without a connection has to react to.
#[derive(Debug, Clone, Copy, PartialEq, Eq, Structural)]
pub enum ForwarderEventNotConnected {
    Connected,
    Shutdown,
}

/// What a forwarder with a connection has to react to.
pub enum ForwarderEventConnected {
    DnsFromNet(Result<DNSMessage, ReceiveError>),
    DnsFromBridge(DNSMessage),
    Shutdown,
}

impl ForwarderEventConnected {
    /// What the bridge says: a message, or that there is nothing more to come.
    pub fn from_bridge(received: Option<DNSMessage>) -> (event: ForwarderEventConnected)
        ensures
            event == match received {
                Some(msg) => ForwarderEventConnected::DnsFromBridge(msg),
                None => ForwarderEventConnected::Shutdown,
            },
    {
        match received {
            Some(msg) => ForwarderEventConnected::DnsFromBridge(msg),
            None => ForwarderEventConnected::Shutdown,
        }
    }
}

/// What a forwarder with a connection wants done.
pub enum ForwarderAction {
    /// Leave the loop.
    Stop,
    /// Let go of the connection.
    Disconnect,
    /// Send a message to the bridge, and tell whether that worked.
    SendToBridge(DNSMessage),
    /// Send a message to the server, and tell whether that worked.
    SendToNet(DNSMessage),
}

/// What happens to a forwarder, as far as it decides how the forwarder stands then.
pub enum Input {
    /// To one that waits.
    Waited(ForwarderEventWaiting),
    /// To one that connects.
    Connecting(ForwarderEventNotConnected),
    /// To one with a connection: a message from the server, or a failure to receive one.
    FromNet { received: bool },
    /// To one with a connection: a message from the bridge.
    FromBridge,
    /// To one with a connection: it is to shut down.
    Shutdown,
    /// To one with a message on its way.
    Sent(bool),
}

/// How a forwarder stands after something has happened to it.
pub open spec fn next(state: ForwarderState, input: Input) -> ForwarderState {
    match (state, input) {
        (ForwarderState::Waiting, Input::Waited(event)) => match event {
            ForwarderEventWaiting::ConnectNow => ForwarderState::Connecting,
            ForwarderEventWaiting::Shutdown => ForwarderState::Ended,
        },
        (ForwarderState::Connecting, Input::Connecting(event)) => match event {
            ForwarderEventNotConnected::Connected => ForwarderState::Connected,
            ForwarderEventNotConnected::Shutdown => ForwarderState::Ended,
        },
        (ForwarderState::Connected, Input::FromNet { received }) => if received {
            ForwarderState::SendingToBridge
        } else {
            ForwarderState::Waiting
        },
        (ForwarderState::Connected, Input::FromBridge) => ForwarderState::SendingToNet,
        (ForwarderState::Connected, Input::Shutdown) => ForwarderState::Ended,
        (ForwarderState::SendingToBridge, Input::Sent(sent)) => if sent {
            ForwarderState::Connected
        } else {
            ForwarderState::Ended
        },
        (ForwarderState::SendingToNet, Input::Sent(sent)) => if sent {
            ForwarderState::Connected
        } else {
            ForwarderState::Waiting
        },
        _ => state,
    }
}

/// What an event on the connection means to a forwarder.
pub open spec fn connected_input(event: ForwarderEventConnected) -> Input {
    match event {
        ForwarderEventConnected::DnsFromNet(message) => Input::FromNet { received: message is Ok },
        ForwarderEventConnected::DnsFromBridge(_) => Input::FromBridge,
        ForwarderEventConnected::Shutdown => Input::Shutdown,
    }
}

/// A forwarder outlives every failure of its server: only the request to shut down ends it, or
/// that the bridge no longer takes messages.
pub proof fn only_shutdown_ends_it(state: ForwarderState, input: Input)
    requires
        state != ForwarderState::Ended,
        next(state, input) == ForwarderState::Ended,
    ensures
        match input {
            Input::Waited(event) => event == ForwarderEventWaiting::Shutdown,
            Input::Connecting(event) => event == ForwarderEventNotConnected::Shutdown,
            Input::Shutdown => true,
            Input::Sent(sent) => state == ForwarderState::SendingToBridge && !sent,
            _ => false,
        },
{
}

/// A connection is made only when there is a message to send, and a lost one is made again when
/// there is the next one.
pub proof fn connects_for_messages(state: ForwarderState, input: Input)
    ensures
        state != ForwarderState::Connecting && next(state, input) == ForwarderState::Connecting
            ==> state == ForwarderState::Waiting && input == Input::Waited(
            ForwarderEventWaiting::ConnectNow,
        ),
        next(ForwarderState::Connected, Input::FromNet { received: false })
            == ForwarderState::Waiting,
        next(ForwarderState::SendingToNet, Input::Sent(false)) == ForwarderState::Waiting,
        next(ForwarderState::Waiting, Input::Waited(ForwarderEventWaiting::ConnectNow))
            == ForwarderState::Connecting,
{
}

/// A forwarder over TCP.
pub struct Forwarder {
    state: ForwarderState,
}

impl Forwarder {
    /// How the forwarder stands with its server.
    pub closed spec fn state(&self) -> ForwarderState {
        self.state
    }

    /// A forwarder with nothing to send yet.
    pub fn new() -> (forwarder: Forwarder)
        ensures
            forwarder.state() == ForwarderState::Waiting,
    {
        Forwarder { state: ForwarderState::Waiting }
    }

    /// How the forwarder stands with its server.
    pub fn current_state(&self) -> (state: ForwarderState)
        ensures
            state == self.state(),
    {
        self.state
    }

    /// Goes on when there is something to send, or when it is time to shut down.
    pub fn on_waiting(&mut self, event: ForwarderEventWaiting)
        requires
            old(self).state() == ForwarderState::Waiting,
        ensures
            final(self).state() == next(old(self).state(), Input::Waited(event)),
    {
        self.state = match event {
            ForwarderEventWaiting::ConnectNow => ForwarderState::Connecting,
            ForwarderEventWaiting::Shutdown => ForwarderState::Ended,
        };
    }

    /// Goes on when the connection is there, or when it is time to shut down.
    pub fn on_connecting(&mut self, event: ForwarderEventNotConnected)
        requires
            old(self).state() == ForwarderState::Connecting,
        ensures
            final(self).state() == next(old(self).state(), Input::Connecting(event)),
    {
        self.state = match event {
            ForwarderEventNotConnected::Connected => ForwarderState::Connected,
            ForwarderEventNotConnected::Shutdown => ForwarderState::Ended,
        };
    }

    /// Reacts to an event on the connection. Whatever goes wrong with receiving, the connection
    /// is given up, and made again when there is something to send.
    pub fn on_connected(&mut self, event: ForwarderEventConnected) -> (action: ForwarderAction)
        requires
            old(self).state() == ForwarderState::Connected,
        ensures
            final(self).state() == next(old(self).state(), connected_input(event)),
            action == match event {
                ForwarderEventConnected::DnsFromNet(Ok(msg)) => ForwarderAction::SendToBridge(msg),
                ForwarderEventConnected::DnsFromNet(Err(_)) => ForwarderAction::Disconnect,
                ForwarderEventConnected::DnsFromBridge(msg) => ForwarderAction::SendToNet(msg),
                ForwarderEventConnected::Shutdown => ForwarderAction::Stop,
            },
    {
        match event {
            ForwarderEventConnected::DnsFromNet(Ok(msg)) => {
                self.state = ForwarderState::SendingToBridge;
                ForwarderAction::SendToBridge(msg)
            },
            ForwarderEventConnected::DnsFromNet(Err(_)) => {
                self.state = ForwarderState::Waiting;
                ForwarderAction::Disconnect
            },
            ForwarderEventConnected::DnsFromBridge(msg) => {
                self.state = ForwarderState::SendingToNet;
                ForwarderAction::SendToNet(msg)
            },
            ForwarderEventConnected::Shutdown => {
                self.state = ForwarderState::Ended;
                ForwarderAction::Stop
            },
        }
    }

    /// Goes on after a message was sent to the bridge. Without a bridge there is nothing left
    /// to do.
    pub fn sent_to_bridge(&mut self, sent: bool)
        requires
            old(self).state() == ForwarderState::SendingToBridge,
        ensures
            final(self).state() == next(old(self).state(), Input::Sent(sent)),
    {
        self.state = if sent {
            ForwarderState::Connected
        } else {
            ForwarderState::Ended
        };
    }

    /// Goes on after a message was sent to the server. Where that failed, the connection is
    /// given up.
    pub fn sent_to_net(&mut self, sent: bool)
        requires
            old(self).state() == ForwarderState::SendingToNet,
        ensures
            final(self).state() == next(old(self).state(), Input::Sent(sent)),
    {
        self.state = if sent {
            ForwarderState::Connected
        } else {
            ForwarderState::Waiting
        };
    }
}

/// Two configurations are equal exactly if host and port agree.
pub proof fn equal_configs_agree(a: Config, b: Config)
    ensures
        a.eq_spec(&b) <==> a.host@ == b.host@ && a.port == b.port,
        a@ == b@ <==> a.eq_spec(&b),
{
}

/// Waiting ends with a message to send or with the request to shut down, connecting with a
/// connection or with that request.
pub proof fn connections_are_made_or_given_up(message_waits: bool, made: bool)
    ensures
        next(
            ForwarderState::Waiting,
            Input::Waited(
                if message_waits {
                    ForwarderEventWaiting::ConnectNow
                } else {
                    ForwarderEventWaiting::Shutdown
                },
            ),
        ) == if message_waits {
            ForwarderState::Connecting
        } else {
            ForwarderState::Ended
        },
        next(
            ForwarderState::Connecting,
            Input::Connecting(
                if made {
                    ForwarderEventNotConnected::Connected
                } else {
                    ForwarderEventNotConnected::Shutdown
                },
            ),
        ) == if made {
            ForwarderState::Connected
        } else {
            ForwarderState::Ended
        },
{
}

/// On a connection every message that comes from the server is sent to the bridge and every
/// message that comes from the bridge is sent to the server, whatever it holds; the connection
/// is given up when receiving fails, whatever the failure, and the forwarder ends when it is to
/// shut down.
pub proof fn a_connection_carries_every_message(
    msg: DNSMessage,
    error: ReceiveError,
    sent: bool,
)
    ensures
        next(
            ForwarderState::Connected,
            connected_input(ForwarderEventConnected::DnsFromNet(Ok(msg))),
        ) == ForwarderState::SendingToBridge,
        next(
            ForwarderState::Connected,
            connected_input(ForwarderEventConnected::DnsFromNet(Err(error))),
        ) == ForwarderState::Waiting,
        next(
            ForwarderState::Connected,
            connected_input(ForwarderEventConnected::DnsFromBridge(msg)),
        ) == ForwarderState::SendingToNet,
        next(ForwarderState::Connected, connected_input(ForwarderEventConnected::Shutdown))
            == ForwarderState::Ended,
        next(ForwarderState::SendingToBridge, Input::Sent(sent)) == if sent {
            ForwarderState::Connected
        } else {
            ForwarderState::Ended
        },
        next(ForwarderState::SendingToNet, Input::Sent(sent)) == if sent {
            ForwarderState::Connected
        } else {
            ForwarderState::Waiting
        },
{
}

} // verus!
