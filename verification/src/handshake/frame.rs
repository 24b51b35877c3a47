//! Frames on a byte stream: four bytes of length, most significant byte first, then the data.
use vstd::prelude::*;

use crate::text::{decimal, decimal_text};

verus! {

/// The largest length that is accepted from the stream.
pub const MSG_LEN_MAX: usize = 0x400000;

/// The data of one message.
#[derive(Debug)]
pub struct Frame {
    data: Vec<u8>,
}

/// A length that is too large.
#[derive(Debug, Clone, Copy, PartialEq, Eq, Structural)]
pub struct InvalidLength {
    pub len: u32,
}

impl InvalidLength {
    /// The error in words.
    pub fn message(&self) -> (text: String)
        ensures
            text@ == "message length invalid, was: "@ + decimal(self.len as nat) + ", must be < "@
                + decimal(MSG_LEN_MAX as nat),
    {
        let mut text = "message length invalid, was: ".to_owned();
        text.append(decimal_text(self.len as u64).as_str());
        text.append(", must be < ");
        text.append(decimal_text(MSG_LEN_MAX as u64).as_str());
        text
    }
}

/// A number below 2^32 as four bytes, most significant byte first.
pub open spec fn be32(n: int) -> Seq<u8> {
    seq![
        (n / 0x1000000) as u8,
        (n / 0x10000 % 0x100) as u8,
        (n / 0x100 % 0x100) as u8,
        (n % 0x100) as u8,
    ]
}

/// A frame as it goes over the stream. A length that does not fit in four bytes is cut off.
pub open spec fn frame_wire(data: Seq<u8>) -> Seq<u8> {
    be32((data.len() % 0x1_0000_0000) as int) + data
}

/// The length that the first four bytes announce.
pub open spec fn announced(bytes: Seq<u8>) -> int {
    bytes[0] * 0x1000000 + bytes[1] * 0x10000 + bytes[2] * 0x100 + bytes[3]
}

/// What has been read of a frame.
pub enum Progress {
    /// The bytes of a frame that is not complete.
    Partial(Seq<u8>),
    /// The data of a frame, and the bytes behind it.
    Frame(Seq<u8>, Seq<u8>),
    /// A length that is too large, and the bytes behind it.
    TooLong(int, Seq<u8>),
}

/// Reads one frame from the start of the bytes.
pub open spec fn read_frame(bytes: Seq<u8>) -> Progress {
    if bytes.len() < 4 {
        Progress::Partial(bytes)
    } else if announced(bytes) > MSG_LEN_MAX {
        Progress::TooLong(announced(bytes), bytes.skip(4))
    } else if bytes.len() < 4 + announced(bytes) {
        Progress::Partial(bytes)
    } else {
        Progress::Frame(
            bytes.subrange(4, 4 + announced(bytes)),
            bytes.skip(4 + announced(bytes)),
        )
    }
}

proof fn announced_of_be32(n: int, rest: Seq<u8>)
    requires
        0 <= n < 0x1_0000_0000,
    ensures
        announced(be32(n) + rest) == n,
        (be32(n) + rest).skip(4) =~= rest,
{
    let b = be32(n) + rest;
    assert(b[0] == n / 0x1000000);
    assert(b[1] == n / 0x10000 % 0x100);
    assert(b[2] == n / 0x100 % 0x100);
    assert(b[3] == n % 0x100);
}

/// What is written comes back: a frame of at most [`MSG_LEN_MAX`] bytes is read as it was
/// written, and what follows it is left alone.
pub proof fn frame_round_trip(data: Seq<u8>, rest: Seq<u8>)
    requires
        data.len() <= MSG_LEN_MAX,
    ensures
        read_frame(frame_wire(data) + rest) == Progress::Frame(data, rest),
{
    let n = data.len() as int;
    assert(frame_wire(data) + rest =~= be32(n) + (data + rest));
    announced_of_be32(n, data + rest);
    let bytes = frame_wire(data) + rest;
    assert(bytes.subrange(4, 4 + n) =~= data);
    assert(bytes.skip(4 + n) =~= rest);
}

/// A frame of more than [`MSG_LEN_MAX`] bytes is refused as soon as its length has been read.
pub proof fn long_frame_is_refused(data: Seq<u8>, seen: int)
    requires
        MSG_LEN_MAX < data.len() < 0x1_0000_0000,
        0 <= seen <= data.len(),
    ensures
        read_frame(frame_wire(data).take(4 + seen)) == Progress::TooLong(
            data.len() as int,
            data.take(seen),
        ),
{
    let n = data.len() as int;
    assert(frame_wire(data).take(4 + seen) =~= be32(n) + data.take(seen));
    announced_of_be32(n, data.take(seen));
}

/// A frame that has not arrived in full is waited for.
pub proof fn cut_frame_is_waited_for(data: Seq<u8>, seen: int)
    requires
        data.len() <= MSG_LEN_MAX,
        0 <= seen < 4 + data.len(),
    ensures
        read_frame(frame_wire(data).take(seen)) == Progress::Partial(frame_wire(data).take(seen)),
{
    let n = data.len() as int;
    if seen >= 4 {
        assert(frame_wire(data).take(seen) =~= be32(n) + data.take(seen - 4));
        announced_of_be32(n, data.take(seen - 4));
    }
}

impl View for Frame {
    type V = Seq<u8>;

    closed spec fn view(&self) -> Seq<u8> {
        self.data@
    }
}

impl Frame {
    /// A frame with the given data.
    pub fn new(data: Vec<u8>) -> (frame: Frame)
        ensures
            frame@ == data@,
    {
        Frame { data }
    }

    /// The data of the frame.
    pub fn data(&self) -> (data: &[u8])
        ensures
            data@ == self@,
    {
        self.data.as_slice()
    }

    /// The four bytes of length that go before the data.
    pub fn length_prefix(&self) -> (prefix: [u8; 4])
        ensures
            prefix@ + self@ == frame_wire(self@),
    {
        let n: u64 = self.data.len() as u64 % 0x1_0000_0000;
        let prefix = [
            (n / 0x1000000) as u8,
            (n / 0x10000 % 0x100) as u8,
            (n / 0x100 % 0x100) as u8,
            (n % 0x100) as u8,
        ];
        assert(prefix@ =~= be32((self@.len() % 0x1_0000_0000) as int));
        prefix
    }
}

/// Puts a frame together from the pieces of a stream.
pub struct FrameReader {
    pending: Vec<u8>,
}

impl FrameReader {
    /// The bytes read so far.
    pub closed spec fn pending(&self) -> Seq<u8> {
        self.pending@
    }

    /// The frame is not complete.
    pub open spec fn wf(&self) -> bool {
        read_frame(self.pending()) is Partial
    }

    /// How many bytes are missing from the length, or else from the data.
    pub open spec fn missing(&self) -> int {
        if self.pending().len() < 4 {
            4 - self.pending().len()
        } else {
            4 + announced(self.pending()) - self.pending().len()
        }
    }

    /// A reader at the start of a frame.
    pub fn new() -> (reader: FrameReader)
        ensures
            reader.wf(),
            reader.pending() == Seq::<u8>::empty(),
    {
        FrameReader { pending: Vec::new() }
    }

    fn announced_len(&self) -> (len: u32)
        requires
            self.pending().len() >= 4,
        ensures
            len == announced(self.pending()),
    {
        self.pending[0] as u32 * 0x1000000 + self.pending[1] as u32 * 0x10000
            + self.pending[2] as u32 * 0x100 + self.pending[3] as u32
    }

    /// How many bytes to read next: first the length, then the data.
    pub fn wanted(&self) -> (n: usize)
        requires
            self.wf(),
        ensures
            n >= 1,
            n == self.missing(),
    {
        let len = self.pending.len();
        if len < 4 {
            4 - len
        } else {
            4 + self.announced_len() as usize - len
        }
    }

    /// Takes the bytes that were read. A length that is too large ends the reading; a frame
    /// that is complete comes back.
    pub fn advance(&mut self, piece: &[u8]) -> (r: Option<Result<Frame, InvalidLength>>)
        requires
            old(self).wf(),
            piece@.len() <= old(self).missing(),
        ensures
            final(self).wf(),
            match read_frame(old(self).pending() + piece@) {
                Progress::Partial(bytes) => r is None && final(self).pending() == bytes,
                Progress::Frame(data, rest) => r matches Some(Ok(frame)) && frame@ == data
                    && rest.len() == 0 && final(self).pending() == rest,
                Progress::TooLong(len, rest) => r matches Some(Err(error)) && error.len == len
                    && rest.len() == 0 && final(self).pending() == rest,
            },
    {
        let ghost before = self.pending@;
        self.pending.extend_from_slice(piece);
        let ghost all = self.pending@;
        assert(all =~= before + piece@);
        proof {
            if before.len() >= 4 {
                assert(announced(all) == announced(before));
            }
        }
        if self.pending.len() < 4 {
            return None;
        }
        let len = self.announced_len();
        if len > MSG_LEN_MAX as u32 {
            self.pending = Vec::new();
            assert(all.skip(4) =~= Seq::<u8>::empty());
            return Some(Err(InvalidLength { len }));
        }
        if self.pending.len() < 4 + len as usize {
            return None;
        }
        let data = self.pending.split_off(4);
        self.pending = Vec::new();
        assert(data@ =~= all.subrange(4, 4 + announced(all)));
        assert(all.skip(4 + announced(all)) =~= Seq::<u8>::empty());
        Some(Ok(Frame { data }))
    }
}

/// On the stream a frame is four bytes longer than its data; the four bytes before the data give
/// its length, the most significant one first, and then the data follows unchanged.
pub proof fn length_goes_before_the_data(data: Seq<u8>)
    ensures
        frame_wire(data).len() == data.len() + 4,
        frame_wire(data)[0] * 0x1000000 + frame_wire(data)[1] * 0x10000 + frame_wire(data)[2]
            * 0x100 + frame_wire(data)[3] == data.len() % 0x1_0000_0000,
        frame_wire(data).skip(4) == data,
{
    let n = (data.len() % 0x1_0000_0000) as int;
    assert(frame_wire(data) =~= be32(n) + data);
    announced_of_be32(n, data);
    assert(frame_wire(data).skip(4) =~= data);
}

/// Data comes back exactly if it is at most four mebibytes long; longer data is refused.
pub proof fn four_mebibytes_are_accepted(data: Seq<u8>)
    requires
        data.len() < 0x1_0000_0000,
    ensures
        read_frame(frame_wire(data)) == if data.len() <= 4194304 {
            Progress::Frame(data, Seq::empty())
        } else {
            Progress::TooLong(data.len() as int, data)
        },
{
    if data.len() <= 4194304 {
        frame_round_trip(data, Seq::empty());
        assert(frame_wire(data) + Seq::<u8>::empty() =~= frame_wire(data));
    } else {
        long_frame_is_refused(data, data.len() as int);
        assert(frame_wire(data).take(4 + data.len() as int) =~= frame_wire(data));
        assert(data.take(data.len() as int) =~= data);
    }
}

/// A reader within a frame always wants something, and never more than is left of the frame.
pub proof fn never_wants_more_than_the_frame(reader: FrameReader, data: Seq<u8>, seen: int)
    requires
        data.len() <= 4194304,
        0 <= seen < 4 + data.len(),
        reader.pending() == frame_wire(data).take(seen),
    ensures
        1 <= reader.missing() <= 4 + data.len() - seen,
        seen >= 4 ==> reader.missing() == 4 + data.len() - seen,
{
    length_goes_before_the_data(data);
}

} // verus!
