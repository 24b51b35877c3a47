//! Carries DNS requests of several clients to one forwarder, and the answers back to the client
//! that asked.
use futures::channel::mpsc::UnboundedSender;
use vstd::prelude::*;

use crate::dns::{message_id, DNSMessage};
use crate::pending::{
    fresh_ids, only_what_was_asked_waits, pending_since, registered, waiting,
    what_was_asked_waits, Change, PendingTable, Round, Timed,
};
use crate::responder;
use crate::string_map::{entry_pairs, pair_keys, select_keys, to_map, to_map_holds_pairs, StringMap};

verus! {

/// How long a bridge waits for an event before it drops old requests, in seconds.
pub const CLEANUP_SECS: u64 = 3;

/// How a bridge works.
#[derive(Debug, Clone, Copy, PartialEq, Eq, Structural)]
pub struct Config {
    /// How long a request waits for its answer, in nanoseconds.
    pub message_timeout: u128,
}

impl Config {
    /// A configuration with a timeout in seconds.
    pub fn from_secs(timeout: u64) -> (config: Config)
        ensures
            config.message_timeout == timeout * 1_000_000_000,
    {
        Config { message_timeout: timeout as u128 * 1_000_000_000 }
    }
}

impl Default for Config {
    fn default() -> (config: Config)
        ensures
            config.message_timeout == 100 * 1_000_000_000,
    {
        Config::from_secs(100)
    }
}

/// What clients tell the bridge.
pub enum BridgeMessage {
    /// A client and where its answers go.
    Register(String, UnboundedSender<DNSMessage>),
    /// A request of a client.
    DnsMessage(String, DNSMessage),
}

impl BridgeMessage {
    /// Announces a client and where its answers go.
    pub fn register(id: String, responder: UnboundedSender<DNSMessage>) -> (r: BridgeMessage)
        ensures
            r == BridgeMessage::Register(id, responder),
    {
        BridgeMessage::Register(id, responder)
    }

    /// Hands over a request of a client.
    pub fn dns(id: String, msg: DNSMessage) -> (r: BridgeMessage)
        ensures
            r == BridgeMessage::DnsMessage(id, msg),
    {
        BridgeMessage::DnsMessage(id, msg)
    }
}

/// What the bridge has to react to.
pub enum BridgeEvent {
    Shutdown,
    Timeout,
    Registration(String, UnboundedSender<DNSMessage>),
    DNSFromNet(DNSMessage),
    DNSFromBridge(String, DNSMessage),
}

impl BridgeEvent {
    /// What the forwarder's side says: an answer, or that there is nothing more to come.
    pub fn from_forwarder(received: Option<DNSMessage>) -> (event: BridgeEvent)
        ensures
            event == match received {
                Some(msg) => BridgeEvent::DNSFromNet(msg),
                None => BridgeEvent::Shutdown,
            },
    {
        match received {
            Some(msg) => BridgeEvent::DNSFromNet(msg),
            None => BridgeEvent::Shutdown,
        }
    }

    /// What the clients' side says: a message, or that there is nothing more to come.
    pub fn from_clients(received: Option<BridgeMessage>) -> (event: BridgeEvent)
        ensures
            event == match received {
                Some(BridgeMessage::Register(id, responder)) => BridgeEvent::Registration(
                    id,
                    responder,
                ),
                Some(BridgeMessage::DnsMessage(id, msg)) => BridgeEvent::DNSFromBridge(id, msg),
                None => BridgeEvent::Shutdown,
            },
    {
        match received {
            Some(BridgeMessage::Register(id, responder)) => BridgeEvent::Registration(
                id,
                responder,
            ),
            Some(BridgeMessage::DnsMessage(id, msg)) => BridgeEvent::DNSFromBridge(id, msg),
            None => BridgeEvent::Shutdown,
        }
    }
}

/// What the bridge wants done.
pub enum BridgeAction {
    /// Leave the loop.
    Stop,
    /// Nothing more to do for this event.
    Continue,
    /// Send an answer to a client.
    Deliver { client: String, msg: DNSMessage },
    /// Send a request to the forwarder, and tell the bridge whether that worked.
    Forward { client: String, msg: DNSMessage },
}

/// A request that waits for its answer.
pub struct MessageState {
    pub creation_time: u128,
    pub client: String,
}

impl MessageState {
    /// A request that a client made at `now`.
    pub fn new(client: String, now: u128) -> (state: MessageState)
        ensures
            state == (MessageState { creation_time: now, client }),
    {
        MessageState { creation_time: now, client }
    }
}

impl Timed for MessageState {
    open spec fn created(&self) -> u128 {
        self.creation_time
    }

    fn creation_time(&self) -> (t: u128) {
        self.creation_time
    }
}

/// The client to which the answer with an id goes, if any.
pub open spec fn receiver<R>(
    messages: Map<u16, MessageState>,
    clients: Map<Seq<char>, R>,
    id: u16,
) -> Option<Seq<char>> {
    if messages.contains_key(id) && clients.contains_key(messages[id].client@) {
        Some(messages[id].client@)
    } else {
        None
    }
}

/// The waiting requests after an event: an answer takes the request under its id with it.
pub open spec fn after_event(
    messages: Map<u16, MessageState>,
    event: BridgeEvent,
) -> Map<u16, MessageState> {
    match event {
        BridgeEvent::DNSFromNet(msg) => messages.remove(message_id(msg@) as u16),
        _ => messages,
    }
}

/// The waiting requests after one was handed to the forwarder, where `sent` says whether that
/// worked.
pub open spec fn after_forward(
    messages: Map<u16, MessageState>,
    id: u16,
    request: MessageState,
    sent: bool,
) -> Map<u16, MessageState> {
    if sent {
        registered(messages, id, request)
    } else {
        messages
    }
}

/// The bridge: who asked for what.
pub struct Bridge {
    config: Config,
    clients: StringMap<UnboundedSender<DNSMessage>>,
    messages: PendingTable<MessageState>,
}

impl Bridge {
    /// The configuration that the bridge was made with.
    pub closed spec fn config(&self) -> Config {
        self.config
    }

    /// The clients and where their answers go.
    pub closed spec fn clients(&self) -> Map<Seq<char>, UnboundedSender<DNSMessage>> {
        self.clients@
    }

    /// The requests that wait for their answer.
    pub closed spec fn messages(&self) -> Map<u16, MessageState> {
        self.messages@
    }

    /// Every client is registered once.
    pub closed spec fn wf(&self) -> bool {
        self.clients.wf()
    }

    /// A bridge without clients.
    pub fn new(config: Config) -> (bridge: Bridge)
        ensures
            bridge.wf(),
            bridge.config() == config,
            bridge.clients() == Map::<Seq<char>, UnboundedSender<DNSMessage>>::empty(),
            bridge.messages() == Map::<u16, MessageState>::empty(),
            bridge.messages() == waiting(Seq::<Round<MessageState>>::empty(), config.message_timeout),
    {
        Bridge { config, clients: StringMap::new(), messages: PendingTable::new() }
    }

    /// Where the answers of a client go.
    pub fn responder(&self, client: &str) -> (r: Option<&UnboundedSender<DNSMessage>>)
        ensures
            match r {
                Some(responder) => self.clients().contains_key(client@) && *responder
                    == self.clients()[client@],
                None => !self.clients().contains_key(client@),
            },
    {
        self.clients.get(client)
    }

    /// Reacts to an event. An answer goes to the client whose request waits under its id, and
    /// the request is then no longer waited for; an answer that nobody waits for, or whose
    /// client is gone, is dropped.
    pub fn handle(&mut self, event: BridgeEvent) -> (action: BridgeAction)
        ensures
            final(self).wf(),
            final(self).config() == old(self).config(),
            match event {
                BridgeEvent::Registration(id, responder) => final(self).clients()
                    == old(self).clients().insert(id@, responder),
                _ => final(self).clients() == old(self).clients(),
            },
            final(self).messages() == after_event(old(self).messages(), event),
            match event {
                BridgeEvent::Shutdown => action is Stop,
                BridgeEvent::Timeout => action is Continue,
                BridgeEvent::Registration(_, _) => action is Continue,
                BridgeEvent::DNSFromNet(msg) => match receiver(
                    old(self).messages(),
                    old(self).clients(),
                    message_id(msg@) as u16,
                ) {
                    Some(name) => action matches BridgeAction::Deliver { client, msg: answer }
                        && client@ == name && answer == msg,
                    None => action is Continue,
                },
                BridgeEvent::DNSFromBridge(client, msg) => action == (BridgeAction::Forward {
                    client,
                    msg,
                }),
            },
    {
        proof {
            use_type_invariant(&self.clients);
        }
        match event {
            BridgeEvent::Shutdown => BridgeAction::Stop,
            BridgeEvent::Timeout => BridgeAction::Continue,
            BridgeEvent::Registration(id, responder) => {
                self.clients.insert(id, responder);
                BridgeAction::Continue
            },
            BridgeEvent::DNSFromNet(msg) => match self.messages.take(msg.id()) {
                Some(state) => {
                    if self.clients.contains_key(state.client.as_str()) {
                        BridgeAction::Deliver { client: state.client, msg }
                    } else {
                        BridgeAction::Continue
                    }
                },
                None => BridgeAction::Continue,
            },
            BridgeEvent::DNSFromBridge(client, msg) => BridgeAction::Forward { client, msg },
        }
    }

    /// Takes note of a request that was handed to the forwarder at `now`: if that worked, the
    /// request waits for its answer, unless another one already waits under the same id.
    pub fn forwarded(&mut self, client: String, id: u16, sent: bool, now: u128)
        ensures
            final(self).wf(),
            final(self).config() == old(self).config(),
            final(self).clients() == old(self).clients(),
            final(self).messages() == after_forward(
                old(self).messages(),
                id,
                MessageState { creation_time: now, client },
                sent,
            ),
    {
        proof {
            use_type_invariant(&self.clients);
        }
        if sent {
            self.messages.register(id, MessageState::new(client, now));
        }
    }

    /// Drops the requests that have waited too long at `now`.
    pub fn cleanup_messages(&mut self, now: u128)
        ensures
            final(self).wf(),
            final(self).config() == old(self).config(),
            final(self).clients() == old(self).clients(),
            final(self).messages() == old(self).messages().restrict(
                fresh_ids(old(self).messages(), old(self).config().message_timeout, now),
            ),
            forall|id: u16| #[trigger]
                final(self).messages().contains_key(id) <==> old(self).messages().contains_key(id)
                    && old(self).messages()[id].creation_time <= now && now - old(
                    self,
                ).messages()[id].creation_time < old(self).config().message_timeout,
    {
        proof {
            use_type_invariant(&self.clients);
        }
        self.messages.expire(self.config.message_timeout, now);
    }

    /// Asks each client's channel whether it is closed, drops the clients whose channel says so,
    /// and says which these were.
    pub fn cleanup_clients(&mut self) -> (gone: Vec<String>)
        ensures
            final(self).wf(),
            final(self).config() == old(self).config(),
            final(self).messages() == old(self).messages(),
            final(self).clients() == old(self).clients().remove_keys(names(gone@)),
            names(gone@).subset_of(old(self).clients().dom()),
            forall|name: Seq<char>| #[trigger]
                old(self).clients().contains_key(name) ==> responder::answered(
                    old(self).clients()[name],
                    names(gone@).contains(name),
                ),
    {
        proof {
            use_type_invariant(&self.clients);
        }
        let ghost pairs = self.clients.pairs();
        let closed = self.closed_clients();
        let gone = self.drop_clients(&closed);
        proof {
            to_map_holds_pairs(pairs);
            assert forall|name: Seq<char>| #[trigger]
                old(self).clients().contains_key(name) implies responder::answered(
                old(self).clients()[name],
                names(gone@).contains(name),
            ) by {
                let i = choose|i: int| 0 <= i < pairs.len() && pairs[i].0 == name;
                assert(old(self).client_order()[i] == name);
                assert(responder::answered(pairs[i].1, closed@[i]));
            }
        }
        gone
    }

    /// Ends a round at `now`: drops the clients whose channel has been found closed, then the
    /// requests that have waited too long, and says which clients are gone.
    pub fn cleanup(&mut self, now: u128) -> (gone: Vec<String>)
        ensures
            final(self).wf(),
            final(self).config() == old(self).config(),
            final(self).clients() == old(self).clients().remove_keys(names(gone@)),
            names(gone@).subset_of(old(self).clients().dom()),
            forall|name: Seq<char>| #[trigger]
                old(self).clients().contains_key(name) ==> responder::answered(
                    old(self).clients()[name],
                    names(gone@).contains(name),
                ),
            final(self).messages() == old(self).messages().restrict(
                fresh_ids(old(self).messages(), old(self).config().message_timeout, now),
            ),
            forall|id: u16| #[trigger]
                final(self).messages().contains_key(id) <==> old(self).messages().contains_key(id)
                    && old(self).messages()[id].creation_time <= now && now - old(
                    self,
                ).messages()[id].creation_time < old(self).config().message_timeout,
    {
        let gone = self.cleanup_clients();
        self.cleanup_messages(now);
        gone
    }

    fn closed_clients(&self) -> (closed: Vec<bool>)
        ensures
            closed@.len() == self.clients.pairs().len(),
            forall|i: int|
                0 <= i < closed@.len() ==> responder::answered(
                    #[trigger] self.clients.pairs()[i].1,
                    closed@[i],
                ),
    {
        let mut closed: Vec<bool> = Vec::new();
        let mut i: usize = 0;
        while i < self.clients.len()
            invariant
                i <= self.clients.pairs().len(),
                closed@.len() == i,
                forall|j: int|
                    0 <= j < i ==> responder::answered(
                        #[trigger] self.clients.pairs()[j].1,
                        closed@[j],
                    ),
            decreases self.clients.pairs().len() - i,
        {
            closed.push(responder::ask(self.clients.value_at(i)));
            i = i + 1;
        }
        closed
    }

    /// The names of the clients, in the order in which [`Bridge::drop_clients`] counts them.
    pub closed spec fn client_order(&self) -> Seq<Seq<char>> {
        Seq::new(self.clients.pairs().len(), |i: int| self.clients.pairs()[i].0)
    }

    /// Every client is counted once, and nothing else is counted.
    pub proof fn every_client_is_counted(&self)
        requires
            self.wf(),
        ensures
            self.client_order().no_duplicates(),
            self.client_order().to_set() == self.clients().dom(),
    {
        let order = self.client_order();
        let pairs = self.clients.pairs();
        to_map_holds_pairs(pairs);
        assert forall|i: int, j: int| 0 <= i < j < order.len() implies order[i] != order[j] by {
            assert(pairs[i].0 != pairs[j].0);
        }
        assert forall|name: Seq<char>| order.to_set().contains(name)
            <==> self.clients().dom().contains(name) by {
            if order.contains(name) {
                let i = choose|i: int| 0 <= i < order.len() && order[i] == name;
                assert(pairs[i].0 == name);
            }
            if to_map(pairs).contains_key(name) {
                let i = choose|i: int| 0 <= i < pairs.len() && pairs[i].0 == name;
                assert(order[i] == name);
            }
        }
        assert(order.to_set() =~= self.clients().dom());
    }

    /// The number of clients, each of which is counted once.
    pub fn client_count(&self) -> (n: usize)
        ensures
            n == self.client_order().len(),
            self.client_order().no_duplicates(),
            self.client_order().to_set() == self.clients().dom(),
    {
        proof {
            use_type_invariant(&self.clients);
            self.every_client_is_counted();
        }
        self.clients.len()
    }

    /// Drops the clients whose flag says that their channel is closed, and says which these
    /// were. The others stay.
    pub fn drop_clients(&mut self, closed: &Vec<bool>) -> (gone: Vec<String>)
        requires
            closed@.len() == old(self).client_order().len(),
        ensures
            final(self).wf(),
            final(self).config() == old(self).config(),
            final(self).messages() == old(self).messages(),
            final(self).clients() == old(self).clients().remove_keys(names(gone@)),
            names(gone@).subset_of(old(self).clients().dom()),
            forall|i: int|
                0 <= i < closed@.len() ==> (closed@[i] <==> names(gone@).contains(
                    #[trigger] old(self).client_order()[i],
                )),
    {
        proof {
            use_type_invariant(&self.clients);
        }
        let ghost before = self.clients.pairs();
        let entries = self.clients.remove_flagged(closed);
        let mut gone: Vec<String> = Vec::new();
        let ghost pairs = entry_pairs(entries@);
        for entry in it: entries
            invariant
                it.seq() == entries@,
                pairs == entry_pairs(entries@),
                gone@.len() == it.index(),
                forall|i: int| 0 <= i < gone@.len() ==> (#[trigger] gone@[i])@ == pairs[i].0,
        {
            let (name, _) = entry;
            gone.push(name);
        }
        proof {
            assert(names(gone@) =~= pair_keys(pairs)) by {
                assert forall|k: Seq<char>| names(gone@).contains(k) <==> pair_keys(pairs).contains(
                    k,
                ) by {
                    if names(gone@).contains(k) {
                        let i = choose|i: int| 0 <= i < gone@.len() && (#[trigger] gone@[i])@ == k;
                        assert(pairs[i].0 == k);
                    }
                    if pair_keys(pairs).contains(k) {
                        let i = choose|i: int| 0 <= i < pairs.len() && pairs[i].0 == k;
                        assert(gone@[i]@ == k);
                    }
                }
            }
            select_keys(before, closed@);
        }
        gone
    }
}

/// The texts in a list.
pub open spec fn names(list: Seq<String>) -> Set<Seq<char>> {
    Set::new(|k: Seq<char>| exists|i: int| 0 <= i < list.len() && (#[trigger] list[i])@ == k)
}

/// An answer reaches the client that asked: a request of a registered client under an id that
/// was free is answered to that client, as long as it has not waited for the timeout.
pub proof fn answer_reaches_the_client_that_asked<R>(
    messages: Map<u16, MessageState>,
    clients: Map<Seq<char>, R>,
    id: u16,
    request: MessageState,
    timeout: u128,
    now: u128,
)
    requires
        !messages.contains_key(id),
        clients.contains_key(request.client@),
        request.creation_time <= now < request.creation_time + timeout,
    ensures
        ({
            let waiting = registered(messages, id, request);
            receiver(waiting.restrict(fresh_ids(waiting, timeout, now)), clients, id) == Some(
                request.client@,
            )
        }),
{
}

/// Where two requests collide under one id, the answer goes to the first.
pub proof fn first_request_gets_the_answer<R>(
    messages: Map<u16, MessageState>,
    clients: Map<Seq<char>, R>,
    id: u16,
    first: MessageState,
    second: MessageState,
)
    requires
        !messages.contains_key(id),
    ensures
        registered(registered(messages, id, first), id, second) == registered(messages, id, first),
        clients.contains_key(first.client@) ==> receiver(
            registered(registered(messages, id, first), id, second),
            clients,
            id,
        ) == Some(first.client@),
{
}

/// A request is answered once: what comes under its id after the answer goes nowhere.
pub proof fn answer_comes_once<R>(
    messages: Map<u16, MessageState>,
    clients: Map<Seq<char>, R>,
    id: u16,
)
    ensures
        receiver(messages.remove(id), clients, id) is None,
{
}

/// An answer to a request that has waited for the timeout goes nowhere, and the id is free for
/// the next request.
pub proof fn late_answer_is_dropped<R>(
    messages: Map<u16, MessageState>,
    clients: Map<Seq<char>, R>,
    id: u16,
    timeout: u128,
    now: u128,
    next: MessageState,
)
    requires
        messages.contains_key(id),
        !(messages[id].creation_time <= now < messages[id].creation_time + timeout),
    ensures
        ({
            let waiting = messages.restrict(fresh_ids(messages, timeout, now));
            &&& receiver(waiting, clients, id) is None
            &&& registered(waiting, id, next)[id] == next
        }),
{
}

/// What happens under one id leaves the requests under the others alone.
pub proof fn other_requests_stay<R>(
    messages: Map<u16, MessageState>,
    clients: Map<Seq<char>, R>,
    id: u16,
    request: MessageState,
    other: u16,
)
    requires
        other != id,
    ensures
        receiver(registered(messages, id, request), clients, other) == receiver(
            messages,
            clients,
            other,
        ),
        receiver(messages.remove(id), clients, other) == receiver(messages, clients, other),
{
}

/// Nothing is delivered to a client that has been dropped.
pub proof fn dropped_client_gets_nothing<R>(
    messages: Map<u16, MessageState>,
    clients: Map<Seq<char>, R>,
    gone: Set<Seq<char>>,
    id: u16,
)
    ensures
        receiver(messages, clients.remove_keys(gone), id) matches Some(name) ==> !gone.contains(
            name,
        ),
{
}

/// What a round does to the waiting requests: an event is handled, a request that it calls for
/// is handed to the forwarder at `asked`, and the round ends at `now`.
pub open spec fn round_of(event: BridgeEvent, sent: bool, asked: u128, now: u128) -> Round<
    MessageState,
> {
    Round {
        change: match event {
            BridgeEvent::DNSFromNet(msg) => Change::Answer(message_id(msg@) as u16),
            BridgeEvent::DNSFromBridge(client, msg) => if sent {
                Change::Request(
                    message_id(msg@) as u16,
                    MessageState { creation_time: asked, client },
                )
            } else {
                Change::Nothing
            },
            _ => Change::Nothing,
        },
        now,
    }
}

/// A round of a bridge is one more round of its history: where `before`, `handled`, `forwarded`
/// and `after` are the bridge as [`Bridge::handle`], [`Bridge::forwarded`] and
/// [`Bridge::cleanup`] leave it one after the other, the requests that wait at the end are those
/// that [`waiting`] gives for the rounds so far and this one.
pub proof fn round_extends_the_history(
    rounds: Seq<Round<MessageState>>,
    before: Bridge,
    event: BridgeEvent,
    handled: Bridge,
    sent: bool,
    asked: u128,
    forwarded: Bridge,
    now: u128,
    after: Bridge,
)
    requires
        before.messages() == waiting(rounds, before.config().message_timeout),
        handled.messages() == after_event(before.messages(), event),
        match event {
            BridgeEvent::DNSFromBridge(client, msg) => forwarded.messages() == after_forward(
                handled.messages(),
                message_id(msg@) as u16,
                MessageState { creation_time: asked, client },
                sent,
            ),
            _ => forwarded == handled,
        },
        after.config() == before.config(),
        after.messages() == forwarded.messages().restrict(
            fresh_ids(forwarded.messages(), before.config().message_timeout, now),
        ),
    ensures
        after.messages() == waiting(
            rounds.push(round_of(event, sent, asked, now)),
            after.config().message_timeout,
        ),
{
    assert(rounds.push(round_of(event, sent, asked, now)).drop_last() =~= rounds);
}

/// Only who asked is answered: an answer that comes after the given rounds goes to a client that
/// made a request under its id in one of them, which has neither been answered nor been too old
/// since.
pub proof fn only_who_asked_is_answered<R>(
    rounds: Seq<Round<MessageState>>,
    timeout: u128,
    clients: Map<Seq<char>, R>,
    id: u16,
) -> (asked: (int, MessageState))
    requires
        receiver(waiting(rounds, timeout), clients, id) is Some,
    ensures
        pending_since(rounds, timeout, asked.0, id, asked.1),
        receiver(waiting(rounds, timeout), clients, id) == Some(asked.1.client@),
        clients.contains_key(asked.1.client@),
{
    (only_what_was_asked_waits(rounds, timeout, id), waiting(rounds, timeout)[id])
}

/// Who asked is answered: a request made under a free id is answered to its client, as long as
/// the client is registered when the first answer under that id comes, and the request has not
/// been too old until then.
pub proof fn who_asked_is_answered<R>(
    rounds: Seq<Round<MessageState>>,
    timeout: u128,
    clients: Map<Seq<char>, R>,
    made: int,
    id: u16,
    request: MessageState,
)
    requires
        pending_since(rounds, timeout, made, id, request),
        !waiting(rounds.take(made), timeout).contains_key(id),
        clients.contains_key(request.client@),
    ensures
        receiver(waiting(rounds, timeout), clients, id) == Some(request.client@),
{
    what_was_asked_waits(rounds, timeout, made, id, request);
}

/// A request waits for the timeout of its bridge, no shorter and no longer: what a clean-up at
/// `now` leaves are the requests made at or before `now` whose age is below the timeout.
pub proof fn requests_wait_for_the_timeout(
    messages: Map<u16, MessageState>,
    timeout: u128,
    now: u128,
    id: u16,
)
    requires
        messages.contains_key(id),
    ensures
        ({
            let left = messages.restrict(fresh_ids(messages, timeout, now));
            &&& left.contains_key(id) <==> messages[id].creation_time <= now && now
                - messages[id].creation_time < timeout
            &&& left.contains_key(id) ==> left[id] == messages[id]
        }),
{
}

/// An answer goes to the client whose request waits under its id, if that client is registered,
/// and to nobody else.
pub proof fn an_answer_goes_to_who_waits<R>(
    messages: Map<u16, MessageState>,
    clients: Map<Seq<char>, R>,
    id: u16,
)
    ensures
        receiver(messages, clients, id) is Some <==> messages.contains_key(id)
            && clients.contains_key(messages[id].client@),
        receiver(messages, clients, id) matches Some(name) ==> name == messages[id].client@,
{
}

/// An answer ends the wait of the request under its id, and of no other; nothing else that the
/// bridge has to react to ends a wait or begins one.
pub proof fn only_an_answer_ends_a_wait(
    messages: Map<u16, MessageState>,
    event: BridgeEvent,
    id: u16,
)
    ensures
        after_event(messages, event).contains_key(id) <==> messages.contains_key(id) && !(
        event is DNSFromNet && event->DNSFromNet_0@[0] * 256 + event->DNSFromNet_0@[1] == id),
        after_event(messages, event).contains_key(id) ==> after_event(messages, event)[id]
            == messages[id],
{
}

/// A request begins to wait when it has been handed to the forwarder and its id is free; one
/// that could not be handed over changes nothing.
pub proof fn a_request_waits_once_it_is_sent(
    messages: Map<u16, MessageState>,
    id: u16,
    request: MessageState,
    other: u16,
)
    ensures
        after_forward(messages, id, request, false) == messages,
        after_forward(messages, id, request, true).contains_key(id),
        !messages.contains_key(id) ==> after_forward(messages, id, request, true)[id] == request,
        messages.contains_key(id) ==> after_forward(messages, id, request, true) == messages,
        other != id ==> after_forward(messages, id, request, true).remove(id).contains_key(other)
            == messages.contains_key(other),
        other != id && messages.contains_key(other) ==> after_forward(
            messages,
            id,
            request,
            true,
        )[other] == messages[other],
{
}

/// A request that is sent at `asked` under a free id, with a clean-up at `now`, is answered to
/// its client exactly if it was not made after the clean-up, its age is then below the timeout,
/// and its client is registered.
pub proof fn an_answer_in_time_is_delivered<R>(
    messages: Map<u16, MessageState>,
    clients: Map<Seq<char>, R>,
    id: u16,
    request: MessageState,
    timeout: u128,
    now: u128,
)
    requires
        !messages.contains_key(id),
    ensures
        ({
            let waits = after_forward(messages, id, request, true);
            let left = waits.restrict(fresh_ids(waits, timeout, now));
            receiver(left, clients, id) == if request.creation_time <= now && now
                - request.creation_time < timeout && clients.contains_key(request.client@) {
                Some(request.client@)
            } else {
                None
            }
        }),
{
}

/// A name is among those of a list exactly if one of its texts is that name.
pub proof fn names_are_the_texts(list: Seq<String>, i: int, name: Seq<char>)
    ensures
        0 <= i < list.len() ==> names(list).contains(list[i]@),
        (forall|k: int| 0 <= k < list.len() ==> (#[trigger] list[k])@ != name) ==> !names(
            list,
        ).contains(name),
{
}

} // verus!
