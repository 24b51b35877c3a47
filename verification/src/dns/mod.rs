//! DNS messages and how they are framed on a byte stream.
use bytes::BytesMut;
use vstd::prelude::*;

use crate::buffer;

pub mod egress_bridge;
pub mod forwarder;
pub mod ingress_bridge;
pub mod relay;
pub mod server;
pub mod service;
pub mod wire;

verus! {

/// The data is too short to hold a DNS message.
#[derive(Debug, Clone, Copy, PartialEq, Eq, Structural)]
pub struct NotEnoughData;

impl NotEnoughData {
    /// The error in words.
    pub fn message(&self) -> (text: &'static str)
        ensures
            text@ == "not enough data"@,
    {
        "not enough data"
    }
}

/// A DNS message: at least the two bytes of its id.
pub struct DNSMessage {
    data: BytesMut,
}

/// The id in the first two bytes of a message, most significant byte first.
pub open spec fn message_id(data: Seq<u8>) -> int {
    data[0] * 256 + data[1]
}

impl View for DNSMessage {
    type V = Seq<u8>;

    closed spec fn view(&self) -> Seq<u8> {
        buffer::contents(self.data)
    }
}

impl DNSMessage {
    #[verifier::type_invariant]
    spec fn holds_an_id(self) -> bool {
        self@.len() >= 2
    }

    /// Wraps `data` as a message; fewer than two bytes are no message.
    pub fn try_new(data: BytesMut) -> (r: Result<DNSMessage, NotEnoughData>)
        ensures
            match r {
                Ok(msg) => buffer::contents(data).len() >= 2 && msg@ == buffer::contents(data),
                Err(_) => buffer::contents(data).len() < 2,
            },
    {
        if buffer::len(&data) >= 2 {
            Ok(DNSMessage { data })
        } else {
            Err(NotEnoughData)
        }
    }

    /// The id of the message.
    pub fn id(&self) -> (id: u16)
        ensures
            id == message_id(self@),
            self@.len() >= 2,
    {
        proof {
            use_type_invariant(self);
        }
        let data = buffer::as_slice(&self.data);
        data[0] as u16 * 256 + data[1] as u16
    }

    /// The bytes of the message.
    pub fn data(&self) -> (data: &[u8])
        ensures
            data@ == self@,
            self@.len() >= 2,
    {
        proof {
            use_type_invariant(self);
        }
        buffer::as_slice(&self.data)
    }
}

/// The id of a message is a number of two bytes, the first of which is the more significant one.
pub proof fn id_is_the_first_two_bytes(data: Seq<u8>)
    ensures
        0 <= message_id(data) < 65536,
        message_id(data) / 256 == data[0],
        message_id(data) % 256 == data[1],
{
}

/// Two messages have the same id exactly if their first two bytes agree.
pub proof fn same_id_same_first_bytes(a: Seq<u8>, b: Seq<u8>)
    ensures
        message_id(a) == message_id(b) <==> a[0] == b[0] && a[1] == b[1],
{
}

} // verus!
