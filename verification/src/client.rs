//! A client: it connects to a server, keeps a session with it, and connects again when the
//! session is lost.
use vstd::prelude::*;

use crate::meta::{ClientMeta, ServerMeta};

verus! {

/// How long to wait before the next attempt to connect, in seconds.
pub const RETRY_SECS: u64 = 5;

/// Where the server is, and what the client is called.
#[derive(Debug)]
pub struct Config {
    pub socket_path: String,
    pub name: String,
}

impl Clone for Config {
    fn clone(&self) -> (r: Config)
        ensures
            r == *self,
    {
        Config { socket_path: self.socket_path.clone(), name: self.name.clone() }
    }
}

impl Config {
    /// What the client tells of itself.
    pub fn to_client_meta(&self) -> (meta: ClientMeta)
        ensures
            meta.name == self.name,
    {
        ClientMeta { name: self.name.clone() }
    }

    /// Whether the client wants to work with a server. Every server will do.
    pub fn validate_server_meta<E>(&self, server_meta: &ServerMeta) -> (r: Result<(), E>)
        ensures
            r is Ok,
    {
        Ok(())
    }
}

/// How far a client has come.
#[derive(Debug, Clone, Copy, PartialEq, Eq, Structural)]
pub enum Phase {
    /// A connection is being made.
    Connect,
    /// Client and server tell each other who they are.
    Discover,
    /// The last attempt failed; the next one has to wait.
    Retry,
    /// There is a session, and its services are being started.
    StartServices,
    /// The session's services run.
    Session,
    /// The client is done.
    Ended,
}

/// How a session has ended.
#[derive(Debug, Clone, Copy, PartialEq, Eq, Structural)]
pub enum SessionEnd {
    /// The connection was lost.
    Lost,
    /// The session's worker was told to stop.
    Finished,
    /// The session's worker broke down.
    WorkerFailed,
    /// The client was told to stop while the session went on.
    Shutdown,
}

/// What a client has to react to.
pub enum ClientEvent<E> {
    /// Whether a connection could be made.
    Connected(bool),
    /// What the server told of itself; nothing where that failed or was cut short.
    Discovered(Option<ServerMeta>),
    /// The wait before the next attempt is over, or was cut short by the request to shut down.
    Waited { shutdown: bool },
    /// Whether the services could be started.
    ServicesStarted(Result<(), E>),
    /// The session has ended.
    SessionEnded(SessionEnd),
}

/// What a client wants done.
pub enum ClientAction<E> {
    /// Connect to the server.
    Connect,
    /// Tell the server about the client, and receive what it tells of itself.
    Discover,
    /// Wait for [`RETRY_SECS`], or until the client is to shut down.
    Wait,
    /// Start the session's worker and its services.
    StartServices,
    /// Wait until the session ends, or the client is to shut down.
    WaitSession,
    /// Tell the session's worker to stop, wait for it if `join` is set, and end.
    StopWorker { join: bool, result: Result<(), E> },
    /// End.
    Done(Result<(), E>),
}

/// Whether an event can occur in a phase.
pub open spec fn expected<E>(phase: Phase, event: ClientEvent<E>) -> bool {
    match event {
        ClientEvent::Connected(_) => phase == Phase::Connect,
        ClientEvent::Discovered(_) => phase == Phase::Discover,
        ClientEvent::Waited { .. } => phase == Phase::Retry,
        ClientEvent::ServicesStarted(_) => phase == Phase::StartServices,
        ClientEvent::SessionEnded(_) => phase == Phase::Session,
    }
}

/// The phase that an event leads to.
pub open spec fn next_phase<E>(event: ClientEvent<E>) -> Phase {
    match event {
        ClientEvent::Connected(true) => Phase::Discover,
        ClientEvent::Connected(false) => Phase::Retry,
        ClientEvent::Discovered(Some(_)) => Phase::StartServices,
        ClientEvent::Discovered(None) => Phase::Retry,
        ClientEvent::Waited { shutdown } => if shutdown {
            Phase::Ended
        } else {
            Phase::Connect
        },
        ClientEvent::ServicesStarted(Ok(_)) => Phase::Session,
        ClientEvent::ServicesStarted(Err(_)) => Phase::Ended,
        ClientEvent::SessionEnded(SessionEnd::Lost) => Phase::Connect,
        ClientEvent::SessionEnded(_) => Phase::Ended,
    }
}

/// What a client wants done after an event.
pub open spec fn next_action<E>(event: ClientEvent<E>) -> ClientAction<E> {
    match event {
        ClientEvent::Connected(true) => ClientAction::Discover,
        ClientEvent::Connected(false) => ClientAction::Wait,
        ClientEvent::Discovered(Some(_)) => ClientAction::StartServices,
        ClientEvent::Discovered(None) => ClientAction::Wait,
        ClientEvent::Waited { shutdown } => if shutdown {
            ClientAction::Done(Ok(()))
        } else {
            ClientAction::Connect
        },
        ClientEvent::ServicesStarted(Ok(_)) => ClientAction::WaitSession,
        ClientEvent::ServicesStarted(Err(error)) => ClientAction::StopWorker {
            join: true,
            result: Err(error),
        },
        ClientEvent::SessionEnded(SessionEnd::Lost) => ClientAction::Connect,
        ClientEvent::SessionEnded(SessionEnd::Shutdown) => ClientAction::StopWorker {
            join: false,
            result: Ok(()),
        },
        ClientEvent::SessionEnded(_) => ClientAction::Done(Ok(())),
    }
}

/// A client.
pub struct Client {
    config: Config,
    phase: Phase,
    server_meta: Option<ServerMeta>,
}

impl Client {
    /// The configuration that the client was made with.
    pub closed spec fn config(&self) -> Config {
        self.config
    }

    /// How far the client has come.
    pub closed spec fn phase(&self) -> Phase {
        self.phase
    }

    /// What the server told of itself when it was last met.
    pub closed spec fn server_meta(&self) -> Option<ServerMeta> {
        self.server_meta
    }

    /// While there is a session, the server is known.
    pub open spec fn wf(&self) -> bool {
        self.phase() == Phase::StartServices || self.phase() == Phase::Session
            ==> self.server_meta() is Some
    }

    /// A client that has yet to connect.
    pub fn new(config: Config) -> (client: Client)
        ensures
            client.wf(),
            client.config() == config,
            client.phase() == Phase::Connect,
            client.server_meta() is None,
    {
        Client { config, phase: Phase::Connect, server_meta: None }
    }

    /// The configuration that the client was made with.
    pub fn current_config(&self) -> (config: &Config)
        ensures
            *config == self.config(),
    {
        &self.config
    }

    /// How far the client has come.
    pub fn current_phase(&self) -> (phase: Phase)
        ensures
            phase == self.phase(),
    {
        self.phase
    }

    /// What the server told of itself when it was last met.
    pub fn current_server(&self) -> (meta: Option<&ServerMeta>)
        ensures
            match meta {
                Some(m) => self.server_meta() == Some(*m),
                None => self.server_meta() is None,
            },
    {
        self.server_meta.as_ref()
    }

    /// Reacts to an event.
    pub fn on_event<E>(&mut self, event: ClientEvent<E>) -> (action: ClientAction<E>)
        requires
            old(self).wf(),
            expected(old(self).phase(), event),
        ensures
            final(self).wf(),
            final(self).config() == old(self).config(),
            final(self).phase() == next_phase(event),
            action == next_action(event),
            final(self).server_meta() == match event {
                ClientEvent::Discovered(Some(meta)) => Some(meta),
                _ => old(self).server_meta(),
            },
    {
        match event {
            ClientEvent::Connected(connected) => {
                if connected {
                    self.phase = Phase::Discover;
                    ClientAction::Discover
                } else {
                    self.phase = Phase::Retry;
                    ClientAction::Wait
                }
            },
            ClientEvent::Discovered(Some(meta)) => {
                self.server_meta = Some(meta);
                self.phase = Phase::StartServices;
                ClientAction::StartServices
            },
            ClientEvent::Discovered(None) => {
                self.phase = Phase::Retry;
                ClientAction::Wait
            },
            ClientEvent::Waited { shutdown } => {
                if shutdown {
                    self.phase = Phase::Ended;
                    ClientAction::Done(Ok(()))
                } else {
                    self.phase = Phase::Connect;
                    ClientAction::Connect
                }
            },
            ClientEvent::ServicesStarted(Ok(_)) => {
                self.phase = Phase::Session;
                ClientAction::WaitSession
            },
            ClientEvent::ServicesStarted(Err(error)) => {
                self.phase = Phase::Ended;
                ClientAction::StopWorker { join: true, result: Err(error) }
            },
            ClientEvent::SessionEnded(end) => match end {
                SessionEnd::Lost => {
                    self.phase = Phase::Connect;
                    ClientAction::Connect
                },
                SessionEnd::Shutdown => {
                    self.phase = Phase::Ended;
                    ClientAction::StopWorker { join: false, result: Ok(()) }
                },
                _ => {
                    self.phase = Phase::Ended;
                    ClientAction::Done(Ok(()))
                },
            },
        }
    }
}

/// What the worker of a session has to react to.
pub enum ClientSessionEvent<S, E> {
    Shutdown,
    Accepted(S),
    Error(E),
}

impl<S, E> ClientSessionEvent<S, E> {
    /// What the connection says: a new stream, or an error; a connection with nothing more to
    /// come is `closed`.
    pub fn from_connection(received: Option<Result<S, E>>, closed: E) -> (event: ClientSessionEvent<
        S,
        E,
    >)
        ensures
            event == match received {
                Some(Ok(stream)) => ClientSessionEvent::Accepted(stream),
                Some(Err(error)) => ClientSessionEvent::Error(error),
                None => ClientSessionEvent::Error(closed),
            },
    {
        match received {
            Some(Ok(stream)) => ClientSessionEvent::Accepted(stream),
            Some(Err(error)) => ClientSessionEvent::Error(error),
            None => ClientSessionEvent::Error(closed),
        }
    }

    /// How the session ends, if it does: a stream that the server opens is let go of, an error
    /// loses the session.
    pub fn outcome(self) -> (end: Option<SessionEnd>)
        ensures
            end == match self {
                ClientSessionEvent::Accepted(_) => None,
                ClientSessionEvent::Shutdown => Some(SessionEnd::Finished),
                ClientSessionEvent::Error(_) => Some(SessionEnd::Lost),
            },
    {
        match self {
            ClientSessionEvent::Accepted(_) => None,
            ClientSessionEvent::Shutdown => Some(SessionEnd::Finished),
            ClientSessionEvent::Error(_) => Some(SessionEnd::Lost),
        }
    }
}

/// A client gives up only for a reason: it was told to stop, its services did not start, or the
/// worker of its session stopped or broke down. Whatever else happens, it goes on.
pub proof fn gives_up_only_for_a_reason<E>(event: ClientEvent<E>)
    ensures
        next_phase(event) == Phase::Ended <==> match event {
            ClientEvent::Waited { shutdown } => shutdown,
            ClientEvent::ServicesStarted(started) => started is Err,
            ClientEvent::SessionEnded(end) => end != SessionEnd::Lost,
            _ => false,
        },
        next_phase(event) == Phase::Ended <==> next_action(event) is Done || next_action(
            event,
        ) is StopWorker,
{
}

/// A lost session is followed by a new attempt to connect, and a failed attempt by another one
/// after a wait.
pub proof fn connects_again<E>()
    ensures
        next_phase(ClientEvent::<E>::SessionEnded(SessionEnd::Lost)) == Phase::Connect,
        next_phase(ClientEvent::<E>::Connected(false)) == Phase::Retry,
        next_phase(ClientEvent::<E>::Discovered(None)) == Phase::Retry,
        next_phase(ClientEvent::<E>::Waited { shutdown: false }) == Phase::Connect,
{
}

/// Each phase is reached by just the event that it takes: the introduction by a connection, the
/// services by what the server told of itself, the session by services that have started.
pub proof fn phases_are_reached_step_by_step<E>(event: ClientEvent<E>)
    ensures
        next_phase(event) == Phase::Discover <==> event == ClientEvent::<E>::Connected(true),
        next_phase(event) == Phase::StartServices <==> (event matches ClientEvent::Discovered(meta)
            && meta is Some),
        next_phase(event) == Phase::Session <==> (event matches ClientEvent::ServicesStarted(r)
            && r is Ok),
        next_phase(event) == Phase::Retry <==> event == ClientEvent::<E>::Connected(false) || (
        event matches ClientEvent::Discovered(meta) && meta is None),
        next_phase(event) == Phase::Connect <==> event == ClientEvent::<E>::SessionEnded(
            SessionEnd::Lost,
        ) || event == (ClientEvent::<E>::Waited { shutdown: false }),
{
}

/// What a client wants done is what its phase is for; when it ends, the result is an error
/// exactly if its services did not start, and then it is theirs. A worker that still runs is
/// told to stop, and awaited only where the services did not start.
pub proof fn actions_fit_the_phase<E>(event: ClientEvent<E>)
    ensures
        next_action(event) is Connect <==> next_phase(event) == Phase::Connect,
        next_action(event) is Discover <==> next_phase(event) == Phase::Discover,
        next_action(event) is Wait <==> next_phase(event) == Phase::Retry,
        next_action(event) is StartServices <==> next_phase(event) == Phase::StartServices,
        next_action(event) is WaitSession <==> next_phase(event) == Phase::Session,
        next_action(event) matches ClientAction::Done(result) ==> result is Ok && !(
        event is ServicesStarted) && event != ClientEvent::<E>::SessionEnded(SessionEnd::Shutdown),
        next_action(event) matches ClientAction::StopWorker { join, result } ==> match event {
            ClientEvent::ServicesStarted(Err(error)) => join && result == Err::<(), E>(error),
            ClientEvent::SessionEnded(end) => end == SessionEnd::Shutdown && !join && result is Ok,
            _ => false,
        },
{
}

/// In each phase just one kind of event is expected, and none once the client is done.
pub proof fn each_phase_has_its_event<E>(phase: Phase, event: ClientEvent<E>)
    ensures
        event is Connected ==> (expected(phase, event) <==> phase == Phase::Connect),
        event is Discovered ==> (expected(phase, event) <==> phase == Phase::Discover),
        event is Waited ==> (expected(phase, event) <==> phase == Phase::Retry),
        event is ServicesStarted ==> (expected(phase, event) <==> phase == Phase::StartServices),
        event is SessionEnded ==> (expected(phase, event) <==> phase == Phase::Session),
        phase == Phase::Ended ==> !expected(phase, event),
{
}

} // verus!
