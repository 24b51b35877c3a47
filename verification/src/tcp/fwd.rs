//! Copies what comes in on one stream to another one.
use vstd::prelude::*;

verus! {

/// The size of the buffer between the two streams.
pub const FORWARD_BUFFER: usize = 4096;

/// What a forwarder wants done.
pub enum ForwardAction<'a> {
    /// Leave the loop.
    Stop,
    /// Write these bytes, and ask [`after_write`] how to go on.
    Write(&'a [u8]),
}

/// The bytes that a read makes the forwarder write: none where it has to stop, because it was
/// told to (there is no read), or the stream ended or failed.
pub open spec fn to_write<E>(read: Option<Result<usize, E>>, buf: Seq<u8>) -> Option<Seq<u8>> {
    match read {
        Some(Ok(len)) => if len == 0 {
            None
        } else {
            Some(buf.take(len as int))
        },
        _ => None,
    }
}

/// Reacts to a read into `buf`, or to the request to stop, for which there is no read.
pub fn after_read<'a, E>(read: Option<Result<usize, E>>, buf: &'a [u8]) -> (action: ForwardAction<
    'a,
>)
    requires
        read matches Some(Ok(len)) ==> len <= buf@.len(),
    ensures
        match action {
            ForwardAction::Stop => to_write(read, buf@) is None,
            ForwardAction::Write(data) => to_write(read, buf@) == Some(data@),
        },
        match (read, action) {
            (Some(Ok(len)), ForwardAction::Write(data)) => len > 0 && data@ == buf@.take(
                len as int,
            ),
            (Some(Ok(len)), ForwardAction::Stop) => len == 0,
            (_, ForwardAction::Write(_)) => false,
            (_, ForwardAction::Stop) => true,
        },
{
    match read {
        Some(Ok(len)) => {
            if len == 0 {
                ForwardAction::Stop
            } else {
                let data = vstd::slice::slice_subrange(buf, 0, len);
                assert(data@ =~= buf@.take(len as int));
                ForwardAction::Write(data)
            }
        },
        _ => ForwardAction::Stop,
    }
}

/// Whether the forwarder goes on after a write.
pub fn after_write<E>(written: &Result<(), E>) -> (go_on: bool)
    ensures
        go_on == (written is Ok),
{
    match written {
        Ok(_) => true,
        Err(_) => false,
    }
}

/// What happens in one round: what came of the read, the buffer after it, and whether the bytes
/// that it calls for could be written.
pub struct Round<E> {
    pub read: Option<Result<usize, E>>,
    pub buf: Seq<u8>,
    pub written: bool,
}

/// Whether the forwarder goes on after a round.
pub open spec fn goes_on<E>(round: Round<E>) -> bool {
    to_write(round.read, round.buf) is Some && round.written
}

/// All that is written in full in the given rounds, up to the one after which the forwarder
/// stops.
pub open spec fn output<E>(rounds: Seq<Round<E>>) -> Seq<u8>
    decreases rounds.len(),
{
    if rounds.len() == 0 || !goes_on(rounds[0]) {
        Seq::empty()
    } else {
        to_write(rounds[0].read, rounds[0].buf)->Some_0 + output(rounds.drop_first())
    }
}

/// All that is read in the given rounds.
pub open spec fn input<E>(rounds: Seq<Round<E>>) -> Seq<u8>
    decreases rounds.len(),
{
    if rounds.len() == 0 {
        Seq::empty()
    } else {
        (match rounds[0].read {
            Some(Ok(len)) => rounds[0].buf.take(len as int),
            _ => Seq::empty(),
        }) + input(rounds.drop_first())
    }
}

/// The bytes come out as they went in: what is written is what was read, in its order, from the
/// start on; and all of it, as long as no round stops the forwarder.
pub proof fn bytes_come_out_as_they_went_in<E>(rounds: Seq<Round<E>>)
    ensures
        output(rounds).is_prefix_of(input(rounds)),
        (forall|i: int| 0 <= i < rounds.len() ==> goes_on(#[trigger] rounds[i])) ==> output(rounds)
            == input(rounds),
    decreases rounds.len(),
{
    if rounds.len() > 0 {
        let rest = rounds.drop_first();
        bytes_come_out_as_they_went_in(rest);
        if forall|i: int| 0 <= i < rounds.len() ==> goes_on(#[trigger] rounds[i]) {
            assert forall|i: int| 0 <= i < rest.len() implies goes_on(#[trigger] rest[i]) by {
                assert(rest[i] == rounds[i + 1]);
            }
        }
        if goes_on(rounds[0]) {
            let first = to_write(rounds[0].read, rounds[0].buf)->Some_0;
            assert(input(rounds) == first + input(rest));
            assert(output(rounds) == first + output(rest));
            assert(output(rounds) =~= input(rounds).take(output(rounds).len() as int));
        }
    }
}

/// A read stops the forwarder exactly if it came to the end of the stream, failed, or was cut
/// short; whatever else was read is written, in full and unchanged.
pub proof fn what_was_read_is_written<E>(len: usize, error: E, buf: Seq<u8>)
    requires
        len <= buf.len(),
    ensures
        to_write(Some(Ok::<usize, E>(len)), buf) is None <==> len == 0,
        len > 0 ==> to_write(Some(Ok::<usize, E>(len)), buf) == Some(buf.take(len as int)),
        to_write(Some(Err::<usize, E>(error)), buf) is None,
        to_write(None::<Result<usize, E>>, buf) is None,
{
}

/// The bytes that a round reads: the first `lens[i]` bytes of the buffer `bufs[i]`, for all
/// rounds one after the other.
pub open spec fn all_read(lens: Seq<usize>, bufs: Seq<Seq<u8>>) -> Seq<u8>
    decreases lens.len(),
{
    if lens.len() == 0 {
        Seq::empty()
    } else {
        bufs[0].take(lens[0] as int) + all_read(lens.drop_first(), bufs.drop_first())
    }
}

/// As long as every read gives something and every write works, all that was read is written, in
/// its order: however many bytes each read gave, a full buffer included.
pub proof fn everything_is_copied<E>(rounds: Seq<Round<E>>, lens: Seq<usize>, bufs: Seq<Seq<u8>>)
    requires
        lens.len() == rounds.len(),
        bufs.len() == rounds.len(),
        forall|i: int|
            0 <= i < rounds.len() ==> 0 < #[trigger] lens[i] <= bufs[i].len() && rounds[i] == (Round {
                read: Some(Ok::<usize, E>(lens[i])),
                buf: bufs[i],
                written: true,
            }),
    ensures
        output(rounds) == all_read(lens, bufs),
    decreases rounds.len(),
{
    if rounds.len() > 0 {
        assert(0 < lens[0] <= bufs[0].len());
        assert forall|i: int| 0 <= i < rounds.drop_first().len() implies 0
            < #[trigger] lens.drop_first()[i] <= bufs.drop_first()[i].len()
            && rounds.drop_first()[i] == (Round {
            read: Some(Ok::<usize, E>(lens.drop_first()[i])),
            buf: bufs.drop_first()[i],
            written: true,
        }) by {
            assert(lens.drop_first()[i] == lens[i + 1]);
        }
        everything_is_copied(rounds.drop_first(), lens.drop_first(), bufs.drop_first());
    }
}

/// Nothing more is written after a round that reads nothing, or whose write fails.
pub proof fn copying_ends<E>(rounds: Seq<Round<E>>)
    requires
        rounds.len() > 0,
        !rounds[0].written || !(rounds[0].read matches Some(Ok(len)) && len > 0),
    ensures
        output(rounds) == Seq::<u8>::empty(),
{
}

} // verus!
