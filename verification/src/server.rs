//! A server: it accepts clients, learns who they are, and keeps a session with each.
use vstd::prelude::*;

use crate::meta::{ClientMeta, ServerMeta};
use crate::sessions::{select, split_done};

verus! {

/// What the server is called, and where it listens.
#[derive(Debug)]
pub struct Config {
    pub name: String,
    pub socket_path: String,
}

impl Clone for Config {
    fn clone(&self) -> (r: Config)
        ensures
            r == *self,
    {
        Config { name: self.name.clone(), socket_path: self.socket_path.clone() }
    }
}

impl Config {
    /// What the server tells of itself.
    pub fn to_server_meta(&self) -> (meta: ServerMeta)
        ensures
            meta.name == self.name,
    {
        ServerMeta { name: self.name.clone() }
    }
}

/// Why a session ends with an error.
#[derive(Debug)]
pub enum SessionError<E> {
    /// It was told to stop before client and server knew each other.
    ShutDownDuringHandshake,
    /// Client and server could not get to know each other.
    Handshake(E),
    /// The connection broke down.
    Connection(E),
}

/// How the connection under a session fails.
pub enum ConnectionFault<E> {
    /// The client has closed it.
    Closed,
    /// Anything else.
    Other(E),
}

/// What a session has to react to.
pub enum SessionEvent<S, E> {
    Shutdown,
    Accepted(Result<S, ConnectionFault<E>>),
}

impl<S, E> SessionEvent<S, E> {
    /// What the connection says: a new stream or a failure, or that there is nothing more to
    /// come.
    pub fn from_connection(received: Option<Result<S, ConnectionFault<E>>>) -> (event: SessionEvent<
        S,
        E,
    >)
        ensures
            event == match received {
                Some(r) => SessionEvent::Accepted(r),
                None => SessionEvent::Shutdown,
            },
    {
        match received {
            Some(r) => SessionEvent::Accepted(r),
            None => SessionEvent::Shutdown,
        }
    }
}

/// What a session wants done.
pub enum SessionAction<E> {
    /// Receive what the client tells of itself.
    ReceiveMeta,
    /// Tell the client about the server.
    SendMeta(ServerMeta),
    /// Wait for the next event on the connection.
    Wait,
    /// End.
    Done(Result<(), SessionError<E>>),
}

/// What a session wants done, as plain values.
pub enum SessionStep<E> {
    ReceiveMeta,
    SendMeta(Seq<char>),
    Wait,
    Done(Result<(), SessionError<E>>),
}

impl<E> View for SessionAction<E> {
    type V = SessionStep<E>;

    open spec fn view(&self) -> SessionStep<E> {
        match *self {
            SessionAction::ReceiveMeta => SessionStep::ReceiveMeta,
            SessionAction::SendMeta(meta) => SessionStep::SendMeta(meta.name@),
            SessionAction::Wait => SessionStep::Wait,
            SessionAction::Done(result) => SessionStep::Done(result),
        }
    }
}

/// How far a session has come.
#[derive(Debug, Clone, Copy, PartialEq, Eq, Structural)]
pub enum SessionPhase {
    /// The client has to tell who it is.
    ReceiveMeta,
    /// The server tells who it is.
    SendMeta,
    /// Client and server know each other.
    Running,
    /// The session is over.
    Ended,
}

/// The session with a client.
pub struct Session {
    config: Config,
    phase: SessionPhase,
    client: Option<ClientMeta>,
}

impl Session {
    /// The configuration of the server.
    pub closed spec fn config(&self) -> Config {
        self.config
    }

    /// How far the session has come.
    pub closed spec fn phase(&self) -> SessionPhase {
        self.phase
    }

    /// What the client told of itself.
    pub closed spec fn client(&self) -> Option<ClientMeta> {
        self.client
    }

    /// The server tells who it is, and works for the client, only once the client is known.
    pub open spec fn wf(&self) -> bool {
        self.phase() == SessionPhase::SendMeta || self.phase() == SessionPhase::Running
            ==> self.client() is Some
    }

    /// The session with a client that has just connected.
    pub fn new(config: Config) -> (session: Session)
        ensures
            session.wf(),
            session.config() == config,
            session.phase() == SessionPhase::ReceiveMeta,
            session.client() is None,
    {
        Session { config, phase: SessionPhase::ReceiveMeta, client: None }
    }

    /// The name that the client goes by.
    pub fn client_name(&self) -> (name: Option<&String>)
        ensures
            match name {
                Some(n) => self.client() matches Some(meta) && *n == meta.name,
                None => self.client() is None,
            },
    {
        match &self.client {
            Some(meta) => Some(&meta.name),
            None => None,
        }
    }

    /// Goes on with what the client told of itself. The server answers with its own name.
    pub fn meta_received<E>(&mut self, received: Result<ClientMeta, E>) -> (action: SessionAction<
        E,
    >)
        requires
            old(self).phase() == SessionPhase::ReceiveMeta,
        ensures
            final(self).wf(),
            final(self).config() == old(self).config(),
            match received {
                Ok(meta) => final(self).phase() == SessionPhase::SendMeta && final(self).client()
                    == Some(meta) && action@ == SessionStep::<E>::SendMeta(
                    old(self).config().name@,
                ),
                Err(error) => final(self).phase() == SessionPhase::Ended && final(self).client()
                    == old(self).client() && action@ == SessionStep::<E>::Done(
                    Err(SessionError::Handshake(error)),
                ),
            },
    {
        match received {
            Ok(meta) => {
                self.client = Some(meta);
                self.phase = SessionPhase::SendMeta;
                SessionAction::SendMeta(self.config.to_server_meta())
            },
            Err(error) => {
                self.phase = SessionPhase::Ended;
                SessionAction::Done(Err(SessionError::Handshake(error)))
            },
        }
    }

    /// Goes on after the server told of itself.
    pub fn meta_sent<E>(&mut self, sent: Result<(), E>) -> (action: SessionAction<E>)
        requires
            old(self).wf(),
            old(self).phase() == SessionPhase::SendMeta,
        ensures
            final(self).wf(),
            final(self).config() == old(self).config(),
            final(self).client() == old(self).client(),
            match sent {
                Ok(_) => final(self).phase() == SessionPhase::Running && action@ == SessionStep::<
                    E,
                >::Wait,
                Err(error) => final(self).phase() == SessionPhase::Ended && action@
                    == SessionStep::<E>::Done(Err(SessionError::Handshake(error))),
            },
    {
        match sent {
            Ok(_) => {
                self.phase = SessionPhase::Running;
                SessionAction::Wait
            },
            Err(error) => {
                self.phase = SessionPhase::Ended;
                SessionAction::Done(Err(SessionError::Handshake(error)))
            },
        }
    }

    /// Ends a session that is told to stop before client and server know each other.
    pub fn interrupted<E>(&mut self) -> (action: SessionAction<E>)
        requires
            old(self).phase() == SessionPhase::ReceiveMeta || old(self).phase()
                == SessionPhase::SendMeta,
        ensures
            final(self).wf(),
            final(self).config() == old(self).config(),
            final(self).client() == old(self).client(),
            final(self).phase() == SessionPhase::Ended,
            action@ == SessionStep::<E>::Done(Err(SessionError::ShutDownDuringHandshake)),
    {
        self.phase = SessionPhase::Ended;
        SessionAction::Done(Err(SessionError::ShutDownDuringHandshake))
    }

    /// Reacts to an event. Streams that the client opens are let go of; a connection that the
    /// client has closed ends the session without an error.
    pub fn on_event<S, E>(&mut self, event: SessionEvent<S, E>) -> (action: SessionAction<E>)
        requires
            old(self).wf(),
            old(self).phase() == SessionPhase::Running,
        ensures
            final(self).wf(),
            final(self).config() == old(self).config(),
            final(self).client() == old(self).client(),
            match event {
                SessionEvent::Accepted(Ok(_)) => final(self).phase() == SessionPhase::Running
                    && action@ == SessionStep::<E>::Wait,
                SessionEvent::Accepted(Err(ConnectionFault::Other(error))) => final(self).phase()
                    == SessionPhase::Ended && action@ == SessionStep::<E>::Done(
                    Err(SessionError::Connection(error)),
                ),
                SessionEvent::Accepted(Err(ConnectionFault::Closed)) => final(self).phase()
                    == SessionPhase::Ended && action@ == SessionStep::<E>::Done(Ok(())),
                SessionEvent::Shutdown => final(self).phase() == SessionPhase::Ended && action@
                    == SessionStep::<E>::Done(Ok(())),
            },
    {
        match event {
            SessionEvent::Accepted(Ok(_)) => SessionAction::Wait,
            SessionEvent::Accepted(Err(ConnectionFault::Other(error))) => {
                self.phase = SessionPhase::Ended;
                SessionAction::Done(Err(SessionError::Connection(error)))
            },
            SessionEvent::Accepted(Err(ConnectionFault::Closed)) => {
                self.phase = SessionPhase::Ended;
                SessionAction::Done(Ok(()))
            },
            SessionEvent::Shutdown => {
                self.phase = SessionPhase::Ended;
                SessionAction::Done(Ok(()))
            },
        }
    }
}

/// What a server has to react to.
pub enum ServerEvent<S, E> {
    Accepted(Result<S, E>),
    Shutdown,
}

/// What a server wants done.
pub enum ServerAction<S, E> {
    /// Start a session on a connection, and tell the server whether that worked.
    StartSession(S),
    /// Leave the loop, shut the sessions down, and end.
    Stop(Result<(), E>),
}

/// The sessions of a server, in the order in which they were started.
pub struct Server<T> {
    sessions: Vec<T>,
}

impl<T> Server<T> {
    /// The sessions in their order.
    pub closed spec fn sessions(&self) -> Seq<T> {
        self.sessions@
    }

    /// A server without sessions.
    pub fn new() -> (server: Server<T>)
        ensures
            server.sessions() == Seq::<T>::empty(),
    {
        Server { sessions: Vec::new() }
    }

    /// The number of sessions.
    pub fn session_count(&self) -> (n: usize)
        ensures
            n == self.sessions().len(),
    {
        self.sessions.len()
    }

    /// The session at a position.
    pub fn session_at(&self, index: usize) -> (session: &T)
        requires
            index < self.sessions().len(),
        ensures
            *session == self.sessions()[index as int],
    {
        &self.sessions[index]
    }

    /// Reacts to an event. A connection becomes a session; a listening socket that fails ends
    /// the server with the error.
    pub fn on_event<S, E>(&self, event: ServerEvent<S, E>) -> (action: ServerAction<S, E>)
        ensures
            action == match event {
                ServerEvent::Accepted(Ok(stream)) => ServerAction::StartSession(stream),
                ServerEvent::Accepted(Err(error)) => ServerAction::Stop(Err(error)),
                ServerEvent::Shutdown => ServerAction::Stop(Ok(())),
            },
    {
        match event {
            ServerEvent::Accepted(Ok(stream)) => ServerAction::StartSession(stream),
            ServerEvent::Accepted(Err(error)) => ServerAction::Stop(Err(error)),
            ServerEvent::Shutdown => ServerAction::Stop(Ok(())),
        }
    }

    /// Takes in a session, if it could be started.
    pub fn on_accept<E>(&mut self, started: Result<T, E>)
        ensures
            final(self).sessions() == match started {
                Ok(session) => old(self).sessions().push(session),
                Err(_) => old(self).sessions(),
            },
    {
        match started {
            Ok(session) => {
                self.sessions.push(session);
            },
            Err(_) => {},
        }
    }

    /// Takes out the sessions that are done, to be shut down. The others keep their order.
    pub fn cleanup(&mut self, done: &Vec<bool>) -> (gone: Vec<T>)
        requires
            done@.len() == old(self).sessions().len(),
        ensures
            final(self).sessions() == select(old(self).sessions(), done@, false),
            gone@ == select(old(self).sessions(), done@, true),
    {
        let mut all: Vec<T> = Vec::new();
        std::mem::swap(&mut all, &mut self.sessions);
        let (live, gone) = split_done(all, done);
        self.sessions = live;
        gone
    }

    /// Takes out all sessions, to be shut down.
    pub fn shutdown(&mut self) -> (gone: Vec<T>)
        ensures
            final(self).sessions() == Seq::<T>::empty(),
            gone@ == old(self).sessions(),
    {
        let mut all: Vec<T> = Vec::new();
        std::mem::swap(&mut all, &mut self.sessions);
        all
    }
}

} // verus!
