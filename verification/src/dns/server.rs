//! The sessions of a DNS server, by client id.
use vstd::prelude::*;

use crate::sessions::select;
use crate::string_map::{distinct, entry_pairs, pair_keys, to_map, StringMap};

verus! {

/// The sessions that run, by client id.
pub struct Server<T> {
    sessions: StringMap<T>,
}

impl<T> Server<T> {
    /// The sessions by client id.
    pub closed spec fn sessions(&self) -> Map<Seq<char>, T> {
        self.sessions@
    }

    /// The sessions in the order in which they are counted.
    pub closed spec fn order(&self) -> Seq<(Seq<char>, T)> {
        self.sessions.pairs()
    }

    /// Every client has at most one session.
    pub closed spec fn wf(&self) -> bool {
        self.sessions.wf()
    }

    /// Every session is counted once, and nothing else is counted.
    pub proof fn every_session_is_counted(&self)
        ensures
            to_map(self.order()) == self.sessions(),
            self.wf() ==> distinct(self.order()),
    {
    }

    /// A server without sessions.
    pub fn new() -> (server: Server<T>)
        ensures
            server.wf(),
            server.sessions() == Map::<Seq<char>, T>::empty(),
            server.order() == Seq::<(Seq<char>, T)>::empty(),
    {
        Server { sessions: StringMap::new() }
    }

    /// The number of sessions.
    pub fn session_count(&self) -> (n: usize)
        ensures
            n == self.order().len(),
    {
        self.sessions.len()
    }

    /// The session at a position.
    pub fn session_at(&self, index: usize) -> (session: &T)
        requires
            index < self.order().len(),
        ensures
            *session == self.order()[index as int].1,
    {
        self.sessions.value_at(index)
    }

    /// Takes in the session of a client, if it could be launched. The session that the client
    /// had before comes back, to be shut down.
    pub fn accept<E>(&mut self, id: &str, launched: Result<T, E>) -> (replaced: Option<T>)
        ensures
            final(self).wf(),
            match launched {
                Ok(session) => final(self).sessions() == old(self).sessions().insert(id@, session),
                Err(_) => final(self).sessions() == old(self).sessions(),
            },
            match replaced {
                Some(previous) => launched is Ok && old(self).sessions().contains_key(id@)
                    && previous == old(self).sessions()[id@],
                None => launched is Err || !old(self).sessions().contains_key(id@),
            },
    {
        proof {
            use_type_invariant(&self.sessions);
        }
        match launched {
            Ok(session) => self.sessions.insert(id.to_owned(), session),
            Err(_) => None,
        }
    }

    /// Takes the sessions that are done out of the table.
    pub fn cleanup(&mut self, done: &Vec<bool>) -> (gone: Vec<(String, T)>)
        requires
            done@.len() == old(self).order().len(),
        ensures
            final(self).wf(),
            final(self).order() == select(old(self).order(), done@, false),
            entry_pairs(gone@) == select(old(self).order(), done@, true),
            final(self).sessions() == old(self).sessions().remove_keys(
                pair_keys(entry_pairs(gone@)),
            ),
    {
        self.sessions.remove_flagged(done)
    }

    /// Takes all sessions out of the table, to be shut down.
    pub fn shutdown(&mut self) -> (gone: Vec<(String, T)>)
        ensures
            final(self).wf(),
            final(self).sessions() == Map::<Seq<char>, T>::empty(),
            final(self).order() == Seq::<(Seq<char>, T)>::empty(),
            entry_pairs(gone@) == old(self).order(),
    {
        self.sessions.drain()
    }
}

} // verus!
