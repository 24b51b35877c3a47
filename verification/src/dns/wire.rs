//! DNS messages on a byte stream: two bytes of length, most significant byte first, then the
//! message.
use vstd::prelude::*;

use crate::buffer;
use crate::dns::{DNSMessage, NotEnoughData};

verus! {

/// A length below 65536 as two bytes, most significant byte first.
pub open spec fn be16(n: int) -> Seq<u8> {
    seq![(n / 256) as u8, (n % 256) as u8]
}

/// A message as it goes over the stream. A length that does not fit in two bytes is cut off.
pub open spec fn dns_wire(data: Seq<u8>) -> Seq<u8> {
    be16((data.len() % 65536) as int) + data
}

/// Messages one after the other on the stream.
pub open spec fn dns_stream(messages: Seq<Seq<u8>>) -> Seq<u8>
    decreases messages.len(),
{
    if messages.len() == 0 {
        Seq::empty()
    } else {
        dns_wire(messages[0]) + dns_stream(messages.drop_first())
    }
}

/// The length that the first two bytes announce.
pub open spec fn announced(bytes: Seq<u8>) -> int {
    bytes[0] * 256 + bytes[1]
}

/// Whether the bytes hold a length and all that it announces.
pub open spec fn complete(bytes: Seq<u8>) -> bool {
    bytes.len() >= 2 && bytes.len() >= 2 + announced(bytes)
}

/// What has been read when `input` arrives behind the bytes in `pending`: the bodies of the
/// messages, and the bytes of the message that is not complete yet.
pub open spec fn feed(pending: Seq<u8>, input: Seq<u8>) -> (Seq<Seq<u8>>, Seq<u8>)
    decreases input.len(),
{
    if input.len() == 0 {
        (Seq::empty(), pending)
    } else {
        let bytes = pending.push(input[0]);
        if complete(bytes) {
            let (bodies, rest) = feed(Seq::empty(), input.drop_first());
            (seq![bytes.skip(2)] + bodies, rest)
        } else {
            feed(bytes, input.drop_first())
        }
    }
}

/// How the stream is cut into pieces does not matter to what is read from it.
pub proof fn feed_in_pieces(pending: Seq<u8>, first: Seq<u8>, second: Seq<u8>)
    ensures
        feed(pending, first + second).0 == feed(pending, first).0 + feed(
            feed(pending, first).1,
            second,
        ).0,
        feed(pending, first + second).1 == feed(feed(pending, first).1, second).1,
    decreases first.len(),
{
    let input = first + second;
    if first.len() == 0 {
        assert(input =~= second);
        assert(feed(pending, input).0 =~= feed(pending, first).0 + feed(pending, second).0);
    } else {
        let bytes = pending.push(first[0]);
        assert(input.drop_first() =~= first.drop_first() + second);
        assert(input[0] == first[0]);
        if complete(bytes) {
            feed_in_pieces(Seq::empty(), first.drop_first(), second);
            assert(feed(pending, input).0 =~= feed(pending, first).0 + feed(
                feed(pending, first).1,
                second,
            ).0);
        } else {
            feed_in_pieces(bytes, first.drop_first(), second);
        }
    }
}

/// Bytes that do not complete the message only join those that wait.
proof fn feed_incomplete(pending: Seq<u8>, input: Seq<u8>)
    requires
        !complete(pending + input),
    ensures
        feed(pending, input) == (Seq::<Seq<u8>>::empty(), pending + input),
    decreases input.len(),
{
    if input.len() == 0 {
        assert(pending + input =~= pending);
    } else {
        let bytes = pending.push(input[0]);
        assert(bytes + input.drop_first() =~= pending + input);
        if complete(bytes) {
            assert((pending + input)[0] == bytes[0]);
            assert((pending + input)[1] == bytes[1]);
        }
        feed_incomplete(bytes, input.drop_first());
    }
}

/// Bytes that complete the message, and no more, give its body.
proof fn feed_completing(pending: Seq<u8>, input: Seq<u8>)
    requires
        !complete(pending),
        (pending + input).len() >= 2,
        (pending + input).len() == 2 + announced(pending + input),
    ensures
        feed(pending, input) == (seq![(pending + input).skip(2)], Seq::<u8>::empty()),
    decreases input.len(),
{
    let all = pending + input;
    if input.len() == 0 {
        assert(all =~= pending);
    } else {
        let bytes = pending.push(input[0]);
        let rest = input.drop_first();
        assert(bytes + rest =~= all);
        if complete(bytes) {
            assert(all[0] == bytes[0] && all[1] == bytes[1]);
            assert(rest.len() == 0);
            assert(bytes =~= all);
            assert(feed(Seq::empty(), rest) == (Seq::<Seq<u8>>::empty(), Seq::<u8>::empty()));
            assert(feed(pending, input).0 =~= seq![all.skip(2)]);
        } else {
            feed_completing(bytes, rest);
        }
    }
}

/// What is written comes back: a message of at most 65535 bytes is read as it was sent, and
/// nothing stays behind.
pub proof fn wire_round_trip(data: Seq<u8>)
    requires
        data.len() <= 65535,
    ensures
        feed(Seq::empty(), dns_wire(data)) == (seq![data], Seq::<u8>::empty()),
{
    let wire = dns_wire(data);
    let n = data.len() as int;
    assert((n / 256) * 256 + n % 256 == n);
    assert(Seq::<u8>::empty() + wire =~= wire);
    assert(announced(wire) == n);
    feed_completing(Seq::empty(), wire);
    assert(wire.skip(2) =~= data);
}

/// Messages of at most 65535 bytes come out of the stream as they went in, in their order.
pub proof fn stream_round_trip(messages: Seq<Seq<u8>>)
    requires
        forall|i: int| 0 <= i < messages.len() ==> (#[trigger] messages[i]).len() <= 65535,
    ensures
        feed(Seq::empty(), dns_stream(messages)) == (messages, Seq::<u8>::empty()),
    decreases messages.len(),
{
    if messages.len() == 0 {
        assert(messages =~= Seq::empty());
    } else {
        let rest = messages.drop_first();
        assert forall|i: int| 0 <= i < rest.len() implies (#[trigger] rest[i]).len() <= 65535 by {
            assert(rest[i] == messages[i + 1]);
        }
        stream_round_trip(rest);
        wire_round_trip(messages[0]);
        feed_in_pieces(Seq::empty(), dns_wire(messages[0]), dns_stream(rest));
        assert(seq![messages[0]] + rest =~= messages);
    }
}

/// The two bytes of length that go before the bytes of a message.
pub fn length_prefix(msg: &DNSMessage) -> (prefix: [u8; 2])
    ensures
        prefix@ + msg@ == dns_wire(msg@),
        prefix@ == be16((msg@.len() % 65536) as int),
{
    let n = msg.data().len() % 65536;
    let prefix = [(n / 256) as u8, (n % 256) as u8];
    assert(prefix@ =~= be16((msg@.len() % 65536) as int));
    prefix
}

/// Puts DNS messages together from the pieces of a stream. Between two pieces it can be left
/// and taken up again: no byte is lost.
pub struct DNSMessageReader {
    pending: Vec<u8>,
}

impl DNSMessageReader {
    /// The bytes read so far of a message that is not complete.
    pub closed spec fn pending(&self) -> Seq<u8> {
        self.pending@
    }

    /// No complete message waits.
    pub open spec fn wf(&self) -> bool {
        !complete(self.pending())
    }

    /// A reader at the start of a message.
    pub fn new() -> (reader: DNSMessageReader)
        ensures
            reader.wf(),
            reader.pending() == Seq::<u8>::empty(),
    {
        DNSMessageReader { pending: Vec::new() }
    }

    /// How many bytes to read next: first the length, then what it announces.
    pub fn wanted(&self) -> (n: usize)
        requires
            self.wf(),
        ensures
            n >= 1,
            n == if self.pending().len() < 2 {
                2 - self.pending().len()
            } else {
                2 + announced(self.pending()) - self.pending().len()
            },
    {
        let len = self.pending.len();
        if len < 2 {
            2 - len
        } else {
            2 + self.pending[0] as usize * 256 + self.pending[1] as usize - len
        }
    }

    /// Takes the bytes that were read. Where they complete a message, it comes back; a body
    /// that is too short for a message is an error.
    pub fn advance(&mut self, piece: &[u8]) -> (r: Option<Result<DNSMessage, NotEnoughData>>)
        requires
            old(self).wf(),
            piece@.len() <= if old(self).pending().len() < 2 {
                2 - old(self).pending().len()
            } else {
                2 + announced(old(self).pending()) - old(self).pending().len()
            },
        ensures
            final(self).wf(),
            final(self).pending() == feed(old(self).pending(), piece@).1,
            match r {
                None => feed(old(self).pending(), piece@).0 == Seq::<Seq<u8>>::empty(),
                Some(Ok(msg)) => feed(old(self).pending(), piece@).0 == seq![msg@]
                    && msg@.len() >= 2,
                Some(Err(_)) => feed(old(self).pending(), piece@).0.len() == 1 && feed(
                    old(self).pending(),
                    piece@,
                ).0[0].len() < 2,
            },
    {
        let ghost before = self.pending@;
        self.pending.extend_from_slice(piece);
        assert(self.pending@ =~= before + piece@);
        let len = self.pending.len();
        proof {
            if before.len() >= 2 {
                assert(self.pending@[0] == before[0] && self.pending@[1] == before[1]);
            }
        }
        if len < 2 || len < 2 + self.pending[0] as usize * 256 + self.pending[1] as usize {
            proof {
                feed_incomplete(before, piece@);
            }
            None
        } else {
            let mut bytes: Vec<u8> = Vec::new();
            std::mem::swap(&mut bytes, &mut self.pending);
            proof {
                feed_completing(before, piece@);
            }
            let body = vstd::slice::slice_subrange(bytes.as_slice(), 2, bytes.len());
            assert(body@ =~= (before + piece@).skip(2));
            Some(DNSMessage::try_new(buffer::from_slice(body)))
        }
    }
}

/// On the stream a message is two bytes longer than it is; the two bytes before it give its
/// length, the more significant one first, and then it follows unchanged.
pub proof fn length_goes_before_the_message(data: Seq<u8>)
    ensures
        dns_wire(data).len() == data.len() + 2,
        dns_wire(data)[0] * 256 + dns_wire(data)[1] == data.len() % 65536,
        dns_wire(data).skip(2) == data,
{
    let n = (data.len() % 65536) as int;
    assert((n / 256) * 256 + n % 256 == n);
    assert(dns_wire(data).skip(2) =~= data);
}

/// A message that has not arrived in full is waited for, and no byte of it is lost.
pub proof fn cut_message_is_waited_for(data: Seq<u8>, seen: int)
    requires
        data.len() <= 65535,
        0 <= seen < 2 + data.len(),
    ensures
        feed(Seq::empty(), dns_wire(data).take(seen)) == (
            Seq::<Seq<u8>>::empty(),
            dns_wire(data).take(seen),
        ),
{
    let part = dns_wire(data).take(seen);
    length_goes_before_the_message(data);
    assert(Seq::<u8>::empty() + part =~= part);
    if seen >= 2 {
        assert(part[0] == dns_wire(data)[0] && part[1] == dns_wire(data)[1]);
    }
    feed_incomplete(Seq::empty(), part);
}

} // verus!
