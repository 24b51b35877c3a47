//! Takes DNS requests from a UDP socket, hands them on, and sends the answers back to where the
//! requests came from.
use vstd::prelude::*;

use crate::buffer;
use crate::dns::{message_id, DNSMessage};
use crate::net::{IoError, SocketAddress};
use crate::pending::{
    fresh_ids, only_what_was_asked_waits, pending_since, registered, waiting,
    what_was_asked_waits, Change, PendingTable, Round, Timed,
};

verus! {

/// The size of the receive buffer.
pub const RECEIVE_BUFFER: usize = 1524;

/// How long a bridge waits for an event before it drops old requests, in seconds.
pub const CLEANUP_SECS: u64 = 3;

/// How a bridge works.
#[derive(Debug, Clone, Copy, PartialEq, Eq, Structural)]
pub struct Config {
    /// Where requests are received.
    pub listen: SocketAddress,
    /// How long a request waits for its answer, in nanoseconds.
    pub timeout: u128,
}

impl Config {
    /// A configuration with a timeout in seconds.
    pub fn from_secs(listen: SocketAddress, timeout: u64) -> (config: Config)
        ensures
            config.listen == listen,
            config.timeout == timeout * 1_000_000_000,
    {
        Config { listen, timeout: timeout as u128 * 1_000_000_000 }
    }
}

/// A request that waits for its answer.
#[derive(Debug, Clone, Copy, PartialEq, Eq, Structural)]
pub struct DNSMsgState {
    pub creation_time: u128,
    pub source_address: SocketAddress,
}

impl DNSMsgState {
    /// A request that came from an address at `now`.
    pub fn new(addr: SocketAddress, now: u128) -> (state: DNSMsgState)
        ensures
            state == (DNSMsgState { creation_time: now, source_address: addr }),
    {
        DNSMsgState { creation_time: now, source_address: addr }
    }
}

impl Timed for DNSMsgState {
    open spec fn created(&self) -> u128 {
        self.creation_time
    }

    fn creation_time(&self) -> (t: u128) {
        self.creation_time
    }
}

/// What the bridge has to react to. A datagram is given by its length in the receive buffer and
/// by the address that it came from.
pub enum BridgeEvent {
    Shutdown,
    Timeout,
    SocketError(IoError),
    DNSFromNet(usize, SocketAddress),
    DNSFromBridge(DNSMessage),
}

impl BridgeEvent {
    /// What the channel says: an answer, or that there is nothing more to come.
    pub fn from_channel(received: Option<DNSMessage>) -> (event: BridgeEvent)
        ensures
            event == match received {
                Some(msg) => BridgeEvent::DNSFromBridge(msg),
                None => BridgeEvent::Shutdown,
            },
    {
        match received {
            Some(msg) => BridgeEvent::DNSFromBridge(msg),
            None => BridgeEvent::Shutdown,
        }
    }

    /// What the socket says: a datagram, or an error.
    pub fn from_socket(received: Result<(usize, SocketAddress), IoError>) -> (event: BridgeEvent)
        ensures
            event == match received {
                Ok((len, addr)) => BridgeEvent::DNSFromNet(len, addr),
                Err(error) => BridgeEvent::SocketError(error),
            },
    {
        match received {
            Ok((len, addr)) => BridgeEvent::DNSFromNet(len, addr),
            Err(error) => BridgeEvent::SocketError(error),
        }
    }
}

/// What the bridge wants done.
pub enum BridgeAction {
    /// Leave the loop, with the error on the listening socket if there was one.
    Stop(Result<(), IoError>),
    /// Nothing more to do for this event.
    Continue,
    /// Send an answer to an address.
    Reply { addr: SocketAddress, msg: DNSMessage },
    /// Hand a request on, and then register it, whether or not that worked.
    Forward { addr: SocketAddress, msg: DNSMessage },
}

/// The address to which the answer with an id goes, if any.
pub open spec fn receiver(requests: Map<u16, DNSMsgState>, id: u16) -> Option<SocketAddress> {
    if requests.contains_key(id) {
        Some(requests[id].source_address)
    } else {
        None
    }
}

/// The waiting requests after an event: an answer takes the request under its id with it.
pub open spec fn after_event(
    requests: Map<u16, DNSMsgState>,
    event: BridgeEvent,
) -> Map<u16, DNSMsgState> {
    match event {
        BridgeEvent::DNSFromBridge(msg) => requests.remove(message_id(msg@) as u16),
        _ => requests,
    }
}

/// The bridge: which request came from where.
pub struct Bridge {
    config: Config,
    mtx_state: PendingTable<DNSMsgState>,
}

impl Bridge {
    /// The configuration that the bridge was made with.
    pub closed spec fn config(&self) -> Config {
        self.config
    }

    /// The requests that wait for their answer.
    pub closed spec fn requests(&self) -> Map<u16, DNSMsgState> {
        self.mtx_state@
    }

    /// A bridge that waits for nothing.
    pub fn new(config: Config) -> (bridge: Bridge)
        ensures
            bridge.config() == config,
            bridge.requests() == Map::<u16, DNSMsgState>::empty(),
            bridge.requests() == waiting(Seq::<Round<DNSMsgState>>::empty(), config.timeout),
    {
        Bridge { config, mtx_state: PendingTable::new() }
    }

    /// Reacts to an event; `buf` is the receive buffer of the socket. A datagram too short for
    /// a message is ignored. An answer goes to where the request under its id came from, and
    /// the request is then no longer waited for.
    pub fn handle(&mut self, event: BridgeEvent, buf: &[u8]) -> (action: BridgeAction)
        requires
            event matches BridgeEvent::DNSFromNet(len, _) ==> len <= buf@.len(),
        ensures
            final(self).config() == old(self).config(),
            final(self).requests() == after_event(old(self).requests(), event),
            match event {
                BridgeEvent::Shutdown => action == BridgeAction::Stop(Ok(())),
                BridgeEvent::Timeout => action is Continue,
                BridgeEvent::SocketError(error) => action == BridgeAction::Stop(Err(error)),
                BridgeEvent::DNSFromBridge(msg) => match receiver(
                    old(self).requests(),
                    message_id(msg@) as u16,
                ) {
                    Some(addr) => action == (BridgeAction::Reply { addr, msg }),
                    None => action is Continue,
                },
                BridgeEvent::DNSFromNet(len, source) => if len >= 2 {
                    action matches BridgeAction::Forward { addr, msg } && addr == source && msg@
                        == buf@.take(len as int)
                } else {
                    action is Continue
                },
            },
    {
        match event {
            BridgeEvent::Shutdown => BridgeAction::Stop(Ok(())),
            BridgeEvent::Timeout => BridgeAction::Continue,
            BridgeEvent::SocketError(error) => BridgeAction::Stop(Err(error)),
            BridgeEvent::DNSFromBridge(msg) => match self.mtx_state.take(msg.id()) {
                Some(state) => BridgeAction::Reply { addr: state.source_address, msg },
                None => BridgeAction::Continue,
            },
            BridgeEvent::DNSFromNet(len, addr) => {
                let datagram = vstd::slice::slice_subrange(buf, 0, len);
                assert(datagram@ =~= buf@.take(len as int));
                match DNSMessage::try_new(buffer::from_slice(datagram)) {
                    Ok(msg) => BridgeAction::Forward { addr, msg },
                    Err(_) => BridgeAction::Continue,
                }
            },
        }
    }

    /// Takes note of a request that was handed on: it waits for its answer from `now` on, unless
    /// another one already waits under the same id.
    pub fn forwarded(&mut self, id: u16, addr: SocketAddress, now: u128)
        ensures
            final(self).config() == old(self).config(),
            final(self).requests() == registered(
                old(self).requests(),
                id,
                DNSMsgState { creation_time: now, source_address: addr },
            ),
    {
        self.mtx_state.register(id, DNSMsgState::new(addr, now));
    }

    /// Drops the requests that have waited too long at `now`.
    pub fn cleanup(&mut self, now: u128)
        ensures
            final(self).config() == old(self).config(),
            final(self).requests() == old(self).requests().restrict(
                fresh_ids(old(self).requests(), old(self).config().timeout, now),
            ),
            forall|id: u16| #[trigger]
                final(self).requests().contains_key(id) <==> old(self).requests().contains_key(id)
                    && old(self).requests()[id].creation_time <= now && now - old(
                    self,
                ).requests()[id].creation_time < old(self).config().timeout,
    {
        self.mtx_state.expire(self.config.timeout, now);
    }
}

/// An answer goes back to where the request came from, as long as the request has not waited
/// for the timeout and its id was free.
pub proof fn answer_goes_back_to_the_source(
    requests: Map<u16, DNSMsgState>,
    id: u16,
    request: DNSMsgState,
    timeout: u128,
    now: u128,
)
    requires
        !requests.contains_key(id),
        request.creation_time <= now < request.creation_time + timeout,
    ensures
        ({
            let waiting = registered(requests, id, request);
            receiver(waiting.restrict(fresh_ids(waiting, timeout, now)), id) == Some(
                request.source_address,
            )
        }),
{
}

/// Where two requests collide under one id, the answer goes to the source of the first.
pub proof fn first_request_gets_the_answer(
    requests: Map<u16, DNSMsgState>,
    id: u16,
    first: DNSMsgState,
    second: DNSMsgState,
)
    requires
        !requests.contains_key(id),
    ensures
        registered(registered(requests, id, first), id, second) == registered(requests, id, first),
        receiver(registered(registered(requests, id, first), id, second), id) == Some(
            first.source_address,
        ),
{
}

/// A request is answered once: what comes under its id after the answer goes nowhere.
pub proof fn answer_comes_once(requests: Map<u16, DNSMsgState>, id: u16)
    ensures
        receiver(requests.remove(id), id) is None,
{
}

/// An answer to a request that has waited for the timeout goes nowhere, and the id is free for
/// the next request.
pub proof fn late_answer_is_dropped(
    requests: Map<u16, DNSMsgState>,
    id: u16,
    timeout: u128,
    now: u128,
    next: DNSMsgState,
)
    requires
        requests.contains_key(id),
        !(requests[id].creation_time <= now < requests[id].creation_time + timeout),
    ensures
        ({
            let waiting = requests.restrict(fresh_ids(requests, timeout, now));
            &&& receiver(waiting, id) is None
            &&& receiver(registered(waiting, id, next), id) == Some(next.source_address)
        }),
{
}

/// What happens under one id leaves the requests under the others alone.
pub proof fn other_requests_stay(
    requests: Map<u16, DNSMsgState>,
    id: u16,
    request: DNSMsgState,
    other: u16,
)
    requires
        other != id,
    ensures
        receiver(registered(requests, id, request), other) == receiver(requests, other),
        receiver(requests.remove(id), other) == receiver(requests, other),
{
}

/// What a round does to the waiting requests: an event is handled, where `buf` is the receive
/// buffer, a request that it calls for is registered at `asked`, and the round ends at `now`.
pub open spec fn round_of(event: BridgeEvent, buf: Seq<u8>, asked: u128, now: u128) -> Round<
    DNSMsgState,
> {
    Round {
        change: match event {
            BridgeEvent::DNSFromBridge(msg) => Change::Answer(message_id(msg@) as u16),
            BridgeEvent::DNSFromNet(len, addr) => if len >= 2 {
                Change::Request(
                    message_id(buf.take(len as int)) as u16,
                    DNSMsgState { creation_time: asked, source_address: addr },
                )
            } else {
                Change::Nothing
            },
            _ => Change::Nothing,
        },
        now,
    }
}

/// A round of a bridge is one more round of its history: where `before`, `handled`, `forwarded`
/// and `after` are the bridge as [`Bridge::handle`], [`Bridge::forwarded`] and
/// [`Bridge::cleanup`] leave it one after the other, the requests that wait at the end are those
/// that [`waiting`] gives for the rounds so far and this one.
pub proof fn round_extends_the_history(
    rounds: Seq<Round<DNSMsgState>>,
    before: Bridge,
    event: BridgeEvent,
    buf: Seq<u8>,
    handled: Bridge,
    asked: u128,
    forwarded: Bridge,
    now: u128,
    after: Bridge,
)
    requires
        before.requests() == waiting(rounds, before.config().timeout),
        handled.requests() == after_event(before.requests(), event),
        match event {
            BridgeEvent::DNSFromNet(len, addr) => if len >= 2 {
                forwarded.requests() == registered(
                    handled.requests(),
                    message_id(buf.take(len as int)) as u16,
                    DNSMsgState { creation_time: asked, source_address: addr },
                )
            } else {
                forwarded == handled
            },
            _ => forwarded == handled,
        },
        after.config() == before.config(),
        after.requests() == forwarded.requests().restrict(
            fresh_ids(forwarded.requests(), before.config().timeout, now),
        ),
    ensures
        after.requests() == waiting(
            rounds.push(round_of(event, buf, asked, now)),
            after.config().timeout,
        ),
{
    assert(rounds.push(round_of(event, buf, asked, now)).drop_last() =~= rounds);
}

/// Only who asked is answered: an answer that comes after the given rounds goes to an address
/// from which a request under its id came in one of them, which has neither been answered nor
/// been too old since.
pub proof fn only_who_asked_is_answered(
    rounds: Seq<Round<DNSMsgState>>,
    timeout: u128,
    id: u16,
) -> (asked: (int, DNSMsgState))
    requires
        receiver(waiting(rounds, timeout), id) is Some,
    ensures
        pending_since(rounds, timeout, asked.0, id, asked.1),
        receiver(waiting(rounds, timeout), id) == Some(asked.1.source_address),
{
    (only_what_was_asked_waits(rounds, timeout, id), waiting(rounds, timeout)[id])
}

/// Who asked is answered: the first answer under the id of a request goes to where that request
/// came from, as long as the id was free and the request has not been too old until then.
pub proof fn who_asked_is_answered(
    rounds: Seq<Round<DNSMsgState>>,
    timeout: u128,
    made: int,
    id: u16,
    request: DNSMsgState,
)
    requires
        pending_since(rounds, timeout, made, id, request),
        !waiting(rounds.take(made), timeout).contains_key(id),
    ensures
        receiver(waiting(rounds, timeout), id) == Some(request.source_address),
{
    what_was_asked_waits(rounds, timeout, made, id, request);
}

/// A request waits for the timeout of its bridge, no shorter and no longer: what a clean-up at
/// `now` leaves are the requests made at or before `now` whose age is below the timeout.
pub proof fn requests_wait_for_the_timeout(
    requests: Map<u16, DNSMsgState>,
    timeout: u128,
    now: u128,
    id: u16,
)
    requires
        requests.contains_key(id),
    ensures
        ({
            let left = requests.restrict(fresh_ids(requests, timeout, now));
            &&& left.contains_key(id) <==> requests[id].creation_time <= now && now
                - requests[id].creation_time < timeout
            &&& left.contains_key(id) ==> left[id] == requests[id]
        }),
{
}

/// An answer goes to where the request came from that waits under its id, and nowhere else.
pub proof fn an_answer_goes_to_who_waits(requests: Map<u16, DNSMsgState>, id: u16)
    ensures
        receiver(requests, id) is Some <==> requests.contains_key(id),
        receiver(requests, id) matches Some(addr) ==> addr == requests[id].source_address,
{
}

/// An answer ends the wait of the request under its id, and of no other; nothing else that the
/// bridge has to react to ends a wait or begins one.
pub proof fn only_an_answer_ends_a_wait(
    requests: Map<u16, DNSMsgState>,
    event: BridgeEvent,
    id: u16,
)
    ensures
        after_event(requests, event).contains_key(id) <==> requests.contains_key(id) && !(
        event is DNSFromBridge && event->DNSFromBridge_0@[0] * 256 + event->DNSFromBridge_0@[1]
            == id),
        after_event(requests, event).contains_key(id) ==> after_event(requests, event)[id]
            == requests[id],
{
}

/// A request that is registered under a free id, with a clean-up at `now`, is answered to where
/// it came from exactly if it was not made after the clean-up and its age is then below the
/// timeout.
pub proof fn an_answer_in_time_is_delivered(
    requests: Map<u16, DNSMsgState>,
    id: u16,
    request: DNSMsgState,
    timeout: u128,
    now: u128,
)
    requires
        !requests.contains_key(id),
    ensures
        ({
            let waits = registered(requests, id, request);
            let left = waits.restrict(fresh_ids(waits, timeout, now));
            receiver(left, id) == if request.creation_time <= now && now - request.creation_time
                < timeout {
                Some(request.source_address)
            } else {
                None
            }
        }),
{
}

} // verus!
