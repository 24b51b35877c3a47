//! Services that carry DNS over local sockets: the server's side keeps accepting clients, the
//! client's side keeps a connection to the server.
use vstd::prelude::*;

verus! {

/// How long a client waits before it starts again, and how often it looks after its connection,
/// in seconds.
pub const CHECK_SECS: u64 = 5;

/// What a server has to react to.
pub enum ServerEvent<S, E> {
    Shutdown,
    Accepted(Result<S, E>),
}

/// What a server wants done.
pub enum ServerAction<S> {
    /// Leave the loop; then shut the sessions down, then the bridge, then the forwarder.
    Stop,
    /// Take in a client.
    Accept(S),
}

/// Reacts to an event: a listening socket that fails ends the server.
pub fn on_server_event<S, E>(event: ServerEvent<S, E>) -> (action: ServerAction<S>)
    ensures
        action == match event {
            ServerEvent::Accepted(Ok(stream)) => ServerAction::Accept(stream),
            _ => ServerAction::Stop,
        },
{
    match event {
        ServerEvent::Accepted(Ok(stream)) => ServerAction::Accept(stream),
        _ => ServerAction::Stop,
    }
}

/// How a client is configured; there is nothing to configure.
#[derive(Debug, Clone, Copy, PartialEq, Eq, Structural)]
pub struct ClientConfig {}

/// How a client stands.
pub enum ClientState<B, C> {
    /// Its parts are being started.
    Starting,
    /// Its parts could not be started; the next attempt has to wait.
    Waiting,
    /// Its parts run.
    Running { bridge: B, client: C },
    /// It is done.
    Ended,
}

/// What a client wants done.
pub enum ClientAction<B, C> {
    /// Start the parts.
    Start,
    /// Wait for [`CHECK_SECS`], or until the client is to shut down.
    Wait,
    /// Shut the bridge down, then start the parts again.
    Restart { bridge: B },
    /// Shut the connection down, then the bridge, and end.
    Stop { client: C, bridge: B },
    /// End.
    Done,
}

/// How a client stands after a wait, where `client_done` says whether its connection is gone.
pub open spec fn after_wait<B, C>(
    state: ClientState<B, C>,
    shutdown: bool,
    client_done: bool,
) -> ClientState<B, C> {
    if shutdown {
        ClientState::Ended
    } else {
        match state {
            ClientState::Running { bridge, client } => if client_done {
                ClientState::Starting
            } else {
                state
            },
            _ => ClientState::Starting,
        }
    }
}

/// What a client wants done after a wait.
pub open spec fn action_after_wait<B, C>(
    state: ClientState<B, C>,
    shutdown: bool,
    client_done: bool,
) -> ClientAction<B, C> {
    match state {
        ClientState::Running { bridge, client } => if shutdown {
            ClientAction::Stop { client, bridge }
        } else if client_done {
            ClientAction::Restart { bridge }
        } else {
            ClientAction::Wait
        },
        _ => if shutdown {
            ClientAction::Done
        } else {
            ClientAction::Start
        },
    }
}

/// The client's side of a DNS service: a bridge `B` that takes requests in, and the connection
/// `C` to the server.
pub struct Client<B, C> {
    state: ClientState<B, C>,
}

impl<B, C> Client<B, C> {
    /// How the client stands.
    pub closed spec fn state(&self) -> ClientState<B, C> {
        self.state
    }

    /// A client whose parts are to be started.
    pub fn new() -> (client: Client<B, C>)
        ensures
            client.state() is Starting,
    {
        Client { state: ClientState::Starting }
    }

    /// The connection to the server, while the parts run.
    pub fn connection(&self) -> (connection: Option<&C>)
        ensures
            match connection {
                Some(c) => self.state() is Running && *c == self.state()->client,
                None => !(self.state() is Running),
            },
    {
        match &self.state {
            ClientState::Running { client, .. } => Some(client),
            _ => None,
        }
    }

    /// Goes on when the parts have been started, or not. Either way the client then waits.
    pub fn on_started<E>(&mut self, started: Result<(B, C), E>) -> (action: ClientAction<B, C>)
        requires
            old(self).state() is Starting,
        ensures
            action is Wait,
            final(self).state() == match started {
                Ok((bridge, client)) => ClientState::Running { bridge, client },
                Err(_) => ClientState::Waiting,
            },
    {
        match started {
            Ok((bridge, client)) => {
                self.state = ClientState::Running { bridge, client };
            },
            Err(_) => {
                self.state = ClientState::Waiting;
            },
        }
        ClientAction::Wait
    }

    /// Goes on after a wait: `shutdown` says that it was cut short by the request to shut down,
    /// `client_done` that the connection to the server is gone.
    pub fn on_waited(&mut self, shutdown: bool, client_done: bool) -> (action: ClientAction<B, C>)
        requires
            old(self).state() is Running || old(self).state() is Waiting,
        ensures
            final(self).state() == after_wait(old(self).state(), shutdown, client_done),
            action == action_after_wait(old(self).state(), shutdown, client_done),
    {
        let mut state = ClientState::Ended;
        std::mem::swap(&mut state, &mut self.state);
        match state {
            ClientState::Running { bridge, client } => {
                if shutdown {
                    ClientAction::Stop { client, bridge }
                } else if client_done {
                    self.state = ClientState::Starting;
                    ClientAction::Restart { bridge }
                } else {
                    self.state = ClientState::Running { bridge, client };
                    ClientAction::Wait
                }
            },
            _ => {
                if shutdown {
                    ClientAction::Done
                } else {
                    self.state = ClientState::Starting;
                    ClientAction::Start
                }
            },
        }
    }
}

/// A client keeps going until it is told to stop: without that, a lost connection or a failed
/// start leads to another start, and nothing else changes.
pub proof fn keeps_going<B, C>(state: ClientState<B, C>, client_done: bool)
    requires
        state is Running || state is Waiting,
    ensures
        !(after_wait(state, false, client_done) is Ended),
        after_wait(state, true, client_done) is Ended,
        state is Waiting || client_done ==> after_wait(state, false, client_done) is Starting,
        state is Running && !client_done ==> after_wait(state, false, client_done) == state,
{
}

/// Parts that run are never forgotten: after a wait they go on running, or the bridge is handed
/// out to be shut down, and with it the connection unless that is gone.
pub proof fn running_parts_are_not_forgotten<B, C>(
    bridge: B,
    client: C,
    shutdown: bool,
    client_done: bool,
)
    ensures
        ({
            let state = ClientState::Running { bridge, client };
            let action = action_after_wait(state, shutdown, client_done);
            ||| after_wait(state, shutdown, client_done) == state && action is Wait
            ||| action == (ClientAction::Stop { client, bridge })
            ||| client_done && action == (ClientAction::<B, C>::Restart { bridge })
        }),
{
}

/// What a client with running parts does after a wait: told to stop, it stops connection and
/// bridge, whether or not the connection is gone; else it starts again exactly if the connection
/// is gone, and goes on waiting with both parts if it is not.
pub proof fn running_client_after_a_wait<B, C>(
    bridge: B,
    client: C,
    shutdown: bool,
    client_done: bool,
)
    ensures
        ({
            let state = ClientState::Running { bridge, client };
            let next = after_wait(state, shutdown, client_done);
            let action = action_after_wait(state, shutdown, client_done);
            &&& shutdown ==> next is Ended && action == (ClientAction::Stop { client, bridge })
            &&& !shutdown && client_done ==> next is Starting && action == (ClientAction::<
                B,
                C,
            >::Restart { bridge })
            &&& !shutdown && !client_done ==> next == state && action is Wait
        }),
{
}

/// What a client whose parts did not start does after a wait: it ends exactly if it was told to
/// stop, and else tries again.
pub proof fn waiting_client_after_a_wait<B, C>(shutdown: bool, client_done: bool)
    ensures
        ({
            let next = after_wait(ClientState::<B, C>::Waiting, shutdown, client_done);
            let action = action_after_wait(ClientState::<B, C>::Waiting, shutdown, client_done);
            &&& shutdown ==> next is Ended && action is Done
            &&& !shutdown ==> next is Starting && action is Start
        }),
{
}

} // verus!
