//! Services that carry TCP connections over local sockets: each connection that is accepted
//! gets a session of its own.
use vstd::prelude::*;

use crate::sessions::{select, split_done};

verus! {

/// What a service has to react to.
pub enum ServiceEvent<S, E> {
    Shutdown,
    Accepted(Result<S, E>),
}

/// What a service wants done.
pub enum ServiceAction<S> {
    /// Leave the loop.
    Stop,
    /// Start a session on a connection and hand it to the service.
    StartSession(S),
}

/// The connection that a session works on. There is none where the session was told to stop
/// while the connection was being made, or where that failed.
pub fn connected<C, E>(connect: Option<Result<C, E>>) -> (connection: Option<C>)
    ensures
        connection == match connect {
            Some(Ok(c)) => Some(c),
            _ => None,
        },
{
    match connect {
        Some(Ok(c)) => Some(c),
        _ => None,
    }
}

/// The sessions of a service, in the order in which they were started.
pub struct Service<T> {
    sessions: Vec<T>,
}

impl<T> Service<T> {
    /// The sessions in their order.
    pub closed spec fn sessions(&self) -> Seq<T> {
        self.sessions@
    }

    /// A service without sessions.
    pub fn new() -> (service: Service<T>)
        ensures
            service.sessions() == Seq::<T>::empty(),
    {
        Service { sessions: Vec::new() }
    }

    /// The number of sessions.
    pub fn session_count(&self) -> (n: usize)
        ensures
            n == self.sessions().len(),
    {
        self.sessions.len()
    }

    /// The session at a position.
    pub fn session_at(&self, index: usize) -> (session: &T)
        requires
            index < self.sessions().len(),
        ensures
            *session == self.sessions()[index as int],
    {
        &self.sessions[index]
    }

    /// Reacts to an event: a connection gets a session, and a listening socket that fails ends
    /// the service.
    pub fn on_event<S, E>(&self, event: ServiceEvent<S, E>) -> (action: ServiceAction<S>)
        ensures
            action == match event {
                ServiceEvent::Accepted(Ok(stream)) => ServiceAction::StartSession(stream),
                _ => ServiceAction::Stop,
            },
    {
        match event {
            ServiceEvent::Accepted(Ok(stream)) => ServiceAction::StartSession(stream),
            _ => ServiceAction::Stop,
        }
    }

    /// Takes in a session that was started.
    pub fn started(&mut self, session: T)
        ensures
            final(self).sessions() == old(self).sessions().push(session),
    {
        self.sessions.push(session);
    }

    /// Takes out the sessions that are done, to be shut down. The others keep their order.
    pub fn sessions_cleanup(&mut self, done: &Vec<bool>) -> (gone: Vec<T>)
        requires
            done@.len() == old(self).sessions().len(),
        ensures
            final(self).sessions() == select(old(self).sessions(), done@, false),
            gone@ == select(old(self).sessions(), done@, true),
    {
        let mut all: Vec<T> = Vec::new();
        std::mem::swap(&mut all, &mut self.sessions);
        let (live, gone) = split_done(all, done);
        self.sessions = live;
        gone
    }
}

} // verus!
