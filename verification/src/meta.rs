//! What client and server tell each other when they meet.
use vstd::prelude::*;

verus! {

/// What a server tells of itself.
#[derive(Debug)]
pub struct ServerMeta {
    pub name: String,
}

/// What a client tells of itself.
#[derive(Debug)]
pub struct ClientMeta {
    pub name: String,
}

} // verus!
