//! Plain values that stand for addresses and errors of the network layer.
use vstd::prelude::*;

verus! {

/// The address of a socket. IP addresses are the numbers of their bits.
#[derive(Debug, Clone, Copy, PartialEq, Eq, Structural)]
pub enum SocketAddress {
    V4 { ip: u32, port: u16 },
    V6 { ip6: u128, port: u16, flowinfo: u32, scope_id: u32 },
}

impl SocketAddress {
    /// Whether the address is an IPv4 address.
    pub fn is_ipv4(&self) -> (r: bool)
        ensures
            r == (self is V4),
    {
        match self {
            SocketAddress::V4 { .. } => true,
            SocketAddress::V6 { .. } => false,
        }
    }
}

/// The kinds of I/O errors that are told apart.
#[derive(Debug, Clone, Copy, PartialEq, Eq, Structural)]
pub enum IoErrorKind {
    /// The stream ended before all bytes had been read.
    UnexpectedEof,
    /// The other end of a channel is gone.
    BrokenPipe,
    /// Any other error.
    Other,
}

/// A failed I/O operation.
#[derive(Debug)]
pub struct IoError {
    pub kind: IoErrorKind,
    pub message: String,
}

} // verus!
