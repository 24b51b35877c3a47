//! Connections within one process, and free ports, for trying the other parts out.
use bytes::BytesMut;
use vstd::prelude::*;

use crate::buffer;
use crate::net::{IoError, IoErrorKind};
use crate::random::{draw, drawn_from};

verus! {

/// How many ports are tried before the search for a free one is given up.
pub const PORT_ATTEMPTS: u32 = 10000;

/// The ports that are tried are from here on,
pub const PORT_LOW: u16 = 20000;

/// and below this one.
pub const PORT_HIGH: u16 = 40000;

/// A search for a free port.
pub struct PortSearch {
    tried: u32,
}

impl PortSearch {
    /// How many ports have been tried.
    pub closed spec fn tried(&self) -> u32 {
        self.tried
    }

    /// No more than [`PORT_ATTEMPTS`] ports have been tried.
    pub open spec fn wf(&self) -> bool {
        self.tried() <= PORT_ATTEMPTS
    }

    /// A search that has tried nothing.
    pub fn new() -> (search: PortSearch)
        ensures
            search.wf(),
            search.tried() == 0,
    {
        PortSearch { tried: 0 }
    }

    /// The next port to try, drawn at random; none once [`PORT_ATTEMPTS`] have been tried.
    pub fn candidate(&mut self) -> (port: Option<u16>)
        requires
            old(self).wf(),
        ensures
            final(self).wf(),
            match port {
                Some(p) => old(self).tried() < PORT_ATTEMPTS && final(self).tried() == old(
                    self,
                ).tried() + 1 && PORT_LOW <= p < PORT_HIGH && drawn_from(PORT_LOW, PORT_HIGH, p),
                None => old(self).tried() == PORT_ATTEMPTS && final(self).tried() == old(
                    self,
                ).tried(),
            },
            port is Some <==> old(self).tried() < 10000,
            port matches Some(p) ==> 20000 <= p < 40000,
    {
        if self.tried < PORT_ATTEMPTS {
            self.tried = self.tried + 1;
            Some(draw(PORT_LOW, PORT_HIGH))
        } else {
            None
        }
    }
}

/// The error of a connection whose other end is gone.
pub fn closed_error() -> (error: IoError)
    ensures
        error.kind == IoErrorKind::BrokenPipe,
        error.message@ == "underlying channel closed"@,
{
    IoError { kind: IoErrorKind::BrokenPipe, message: "underlying channel closed".to_owned() }
}

/// The start of `buf` replaced by `data`.
pub open spec fn filled(buf: Seq<u8>, data: Seq<u8>) -> Seq<u8> {
    data + buf.skip(data.len() as int)
}

/// Copies `data` to the start of `buf`.
fn fill(buf: &mut [u8], data: &[u8])
    requires
        data@.len() <= old(buf)@.len(),
    ensures
        final(buf)@ == filled(old(buf)@, data@),
{
    let ghost before = buf@;
    let mut i: usize = 0;
    while i < data.len()
        invariant
            i <= data@.len() <= before.len(),
            buf@.len() == before.len(),
            buf@ == filled(before, data@.take(i as int)),
        decreases data@.len() - i,
    {
        buf[i] = data[i];
        i = i + 1;
        assert(buf@ =~= filled(before, data@.take(i as int)));
    }
    assert(data@.take(i as int) =~= data@);
}

/// What a read of at most `room` bytes hands out, and the bytes that then wait, where `waiting`
/// are the bytes that already wait and `chunk` comes in only if there are none. Waiting bytes
/// that fit into the room are handed out and go on waiting.
pub open spec fn read_step(waiting: Seq<u8>, chunk: Seq<u8>, room: int) -> (Seq<u8>, Seq<u8>) {
    if waiting.len() == 0 {
        if chunk.len() <= room {
            (chunk, Seq::empty())
        } else {
            (chunk.take(room), chunk.skip(room))
        }
    } else if waiting.len() <= room {
        (waiting, waiting)
    } else {
        (waiting.take(room), waiting.skip(room))
    }
}

/// The reading half of a connection within one process: the bytes of a chunk that did not fit
/// into a read wait for the next one.
pub struct TestConnection {
    rx_buf: BytesMut,
}

impl TestConnection {
    /// The bytes that wait.
    pub closed spec fn waiting(&self) -> Seq<u8> {
        buffer::contents(self.rx_buf)
    }

    /// A connection on which nothing waits.
    pub fn new() -> (connection: TestConnection)
        ensures
            connection.waiting() == Seq::<u8>::empty(),
    {
        TestConnection { rx_buf: buffer::new() }
    }

    /// Whether the next read needs a chunk from the other end.
    pub fn needs_chunk(&self) -> (r: bool)
        ensures
            r == (self.waiting().len() == 0),
    {
        buffer::len(&self.rx_buf) == 0
    }

    /// Reads from a chunk that came from the other end.
    pub fn read_chunk(&mut self, chunk: &[u8], buf: &mut [u8]) -> (n: usize)
        requires
            old(self).waiting().len() == 0,
        ensures
            ({
                let (out, rest) = read_step(Seq::empty(), chunk@, old(buf)@.len() as int);
                &&& n == out.len()
                &&& final(buf)@ == filled(old(buf)@, out)
                &&& final(self).waiting() == rest
            }),
    {
        let room = buf.len();
        if chunk.len() <= room {
            fill(buf, chunk);
            assert(self.waiting() =~= Seq::<u8>::empty());
            chunk.len()
        } else {
            let now = vstd::slice::slice_subrange(chunk, 0, room);
            let later = vstd::slice::slice_subrange(chunk, room, chunk.len());
            assert(now@ =~= chunk@.take(room as int));
            assert(later@ =~= chunk@.skip(room as int));
            fill(buf, now);
            buffer::put(&mut self.rx_buf, later);
            room
        }
    }

    /// Reads from the bytes that wait.
    pub fn read_waiting(&mut self, buf: &mut [u8]) -> (n: usize)
        requires
            old(self).waiting().len() > 0,
        ensures
            ({
                let (out, rest) = read_step(
                    old(self).waiting(),
                    Seq::empty(),
                    old(buf)@.len() as int,
                );
                &&& n == out.len()
                &&& final(buf)@ == filled(old(buf)@, out)
                &&& final(self).waiting() == rest
            }),
    {
        let room = buf.len();
        let len = buffer::len(&self.rx_buf);
        if len <= room {
            fill(buf, buffer::as_slice(&self.rx_buf));
            len
        } else {
            let head = buffer::split_to(&mut self.rx_buf, room);
            fill(buf, buffer::as_slice(&head));
            room
        }
    }
}

/// A read hands bytes out in their order and leaves the rest waiting, as long as it does not
/// find waiting bytes that all fit into its room.
pub proof fn read_keeps_the_bytes(waiting: Seq<u8>, chunk: Seq<u8>, room: int)
    requires
        room >= 0,
        waiting.len() == 0 || room < waiting.len(),
    ensures
        ({
            let (out, rest) = read_step(waiting, chunk, room);
            out + rest == if waiting.len() == 0 {
                chunk
            } else {
                waiting
            }
        }),
{
    let (out, rest) = read_step(waiting, chunk, room);
    if waiting.len() == 0 {
        assert(out + rest =~= chunk);
    } else {
        assert(out + rest =~= waiting);
    }
}

/// The room of several reads together.
pub open spec fn total(rooms: Seq<int>) -> int
    decreases rooms.len(),
{
    if rooms.len() == 0 {
        0
    } else {
        total(rooms.drop_last()) + rooms.last()
    }
}

/// What several reads hand out, one after the other, when `chunk` comes in, and the bytes that
/// then wait.
pub open spec fn reads(chunk: Seq<u8>, rooms: Seq<int>) -> (Seq<Seq<u8>>, Seq<u8>)
    decreases rooms.len(),
{
    if rooms.len() == 0 {
        (Seq::empty(), Seq::empty())
    } else {
        let (outs, waiting) = reads(chunk, rooms.drop_last());
        let (out, rest) = read_step(waiting, chunk, rooms.last());
        (outs.push(out), rest)
    }
}

/// Successive reads hand out consecutive pieces of a chunk, each as long as its room, as long as
/// they have no more room than the chunk is long, and each but the first finds something left.
pub proof fn reads_hand_out_consecutive_pieces(chunk: Seq<u8>, rooms: Seq<int>)
    requires
        forall|k: int| 0 <= k < rooms.len() ==> #[trigger] rooms[k] >= 0,
        total(rooms) <= chunk.len(),
        rooms.len() > 1 ==> total(rooms.drop_last()) < chunk.len(),
    ensures
        reads(chunk, rooms).0.len() == rooms.len(),
        forall|k: int|
            0 <= k < rooms.len() ==> #[trigger] reads(chunk, rooms).0[k] == chunk.subrange(
                total(rooms.take(k)),
                total(rooms.take(k + 1)),
            ),
        0 < rooms.len() && total(rooms) < chunk.len() ==> reads(chunk, rooms).1 == chunk.skip(
            total(rooms),
        ),
    decreases rooms.len(),
{
    if rooms.len() > 0 {
        let head = rooms.drop_last();
        let room = rooms.last();
        assert(rooms[rooms.len() - 1] == room);
        total_is_not_negative(head);
        assert forall|k: int| 0 <= k < head.len() implies #[trigger] head[k] >= 0 by {
            assert(head[k] == rooms[k]);
        }
        if head.len() > 1 {
            assert(head[head.len() - 1] >= 0);
        }
        reads_hand_out_consecutive_pieces(chunk, head);
        let (outs, waiting) = reads(chunk, head);
        let (out, rest) = read_step(waiting, chunk, room);
        let at = total(head);
        assert(rooms.take(head.len() as int) =~= head);
        assert(rooms.take(rooms.len() as int) =~= rooms);
        if head.len() == 0 {
            assert(out =~= chunk.subrange(0, room));
        } else {
            assert(waiting == chunk.skip(at));
            assert(out =~= chunk.subrange(at, at + room));
        }
        if at + room < chunk.len() {
            assert(rest =~= chunk.skip(at + room));
        }
        assert forall|k: int| 0 <= k < rooms.len() implies #[trigger] reads(chunk, rooms).0[k]
            == chunk.subrange(total(rooms.take(k)), total(rooms.take(k + 1))) by {
            if k < head.len() {
                assert(rooms.take(k) =~= head.take(k));
                assert(rooms.take(k + 1) =~= head.take(k + 1));
                assert(reads(chunk, rooms).0[k] == outs[k]);
            }
        }
    }
}

proof fn total_is_not_negative(rooms: Seq<int>)
    requires
        forall|k: int| 0 <= k < rooms.len() ==> #[trigger] rooms[k] >= 0,
    ensures
        total(rooms) >= 0,
    decreases rooms.len(),
{
    if rooms.len() > 0 {
        assert(rooms[rooms.len() - 1] >= 0);
        assert forall|k: int| 0 <= k < rooms.drop_last().len() implies #[trigger] rooms.drop_last()[k]
            >= 0 by {
            assert(rooms.drop_last()[k] == rooms[k]);
        }
        total_is_not_negative(rooms.drop_last());
    }
}

/// The position of the first slice that holds anything: the one that a write of several slices
/// writes.
pub fn first_to_write(lens: &Vec<usize>) -> (r: Option<usize>)
    ensures
        match r {
            Some(i) => i < lens@.len() && lens@[i as int] > 0 && forall|j: int|
                0 <= j < i ==> lens@[j] == 0,
            None => forall|j: int| 0 <= j < lens@.len() ==> lens@[j] == 0,
        },
{
    let mut i: usize = 0;
    while i < lens.len()
        invariant
            i <= lens@.len(),
            forall|j: int| 0 <= j < i ==> lens@[j] == 0,
        decreases lens@.len() - i,
    {
        if lens[i] != 0 {
            return Some(i);
        }
        i = i + 1;
    }
    None
}

/// A read hands out as much as there is room for and no more, from the start of what there is:
/// of the bytes that wait if any do, and else of the chunk.
pub proof fn a_read_hands_out_what_fits(waiting: Seq<u8>, chunk: Seq<u8>, room: int)
    requires
        room >= 0,
    ensures
        ({
            let there = if waiting.len() > 0 {
                waiting
            } else {
                chunk
            };
            let (out, rest) = read_step(waiting, chunk, room);
            &&& out.len() == if there.len() <= room {
                there.len() as int
            } else {
                room
            }
            &&& forall|i: int| 0 <= i < out.len() ==> out[i] == there[i]
            &&& waiting.len() == 0 && chunk.len() <= room ==> rest.len() == 0
            &&& 0 < waiting.len() <= room ==> rest == waiting
            &&& room < there.len() ==> rest == there.skip(room)
        }),
{
}

/// Filling a buffer puts the data at its start, and leaves its length and what lies behind the
/// data alone.
pub proof fn filling_leaves_the_rest_alone(buf: Seq<u8>, data: Seq<u8>, i: int)
    requires
        data.len() <= buf.len(),
        0 <= i < buf.len(),
    ensures
        filled(buf, data).len() == buf.len(),
        i < data.len() ==> filled(buf, data)[i] == data[i],
        i >= data.len() ==> filled(buf, data)[i] == buf[i],
{
}

} // verus!
