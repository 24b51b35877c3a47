//! Forwarding DNS messages over UDP: first the server's addresses are looked up, then messages
//! go to each of them.
use vstd::prelude::*;
use vstd::std_specs::cmp::PartialEqSpec;

use crate::buffer;
use crate::dns::DNSMessage;
use crate::net::{IoError, SocketAddress};

verus! {

/// A DNS server that is asked over UDP.
#[derive(Debug)]
pub struct Config {
    pub host: String,
    pub port: u16,
}

/// A DNS server, as plain values.
pub struct ConfigView {
    pub host: Seq<char>,
    pub port: u16,
}

impl View for Config {
    type V = ConfigView;

    open spec fn view(&self) -> ConfigView {
        ConfigView { host: self.host@, port: self.port }
    }
}

impl Clone for Config {
    fn clone(&self) -> (r: Config)
        ensures
            r == *self,
    {
        Config { host: self.host.clone(), port: self.port }
    }
}

impl PartialEq for Config {
    fn eq(&self, other: &Config) -> (r: bool) {
        self.host == other.host && self.port == other.port
    }
}

impl vstd::std_specs::cmp::PartialEqSpecImpl for Config {
    open spec fn obeys_eq_spec() -> bool {
        true
    }

    open spec fn eq_spec(&self, other: &Config) -> bool {
        self@ == other@
    }
}

impl Eq for Config {

}

/// The time between the starts of two lookups, in nanoseconds.
pub const LOOKUP_INTERVAL: u128 = 5_000_000_000;

/// The size of the receive buffer.
pub const RECEIVE_BUFFER: usize = 2048;

/// What a forwarder that knows its server has to react to. A datagram is given by its length in
/// the receive buffer and by the address that it came from.
pub enum ForwarderEvent {
    Shutdown,
    SocketError(IoError),
    DNSFromBridge(DNSMessage),
    DNSFromNet(usize, SocketAddress),
}

impl ForwarderEvent {
    /// What the bridge says: a message, or that there is nothing more to come.
    pub fn from_bridge(received: Option<DNSMessage>) -> (event: ForwarderEvent)
        ensures
            event == match received {
                Some(msg) => ForwarderEvent::DNSFromBridge(msg),
                None => ForwarderEvent::Shutdown,
            },
    {
        match received {
            Some(msg) => ForwarderEvent::DNSFromBridge(msg),
            None => ForwarderEvent::Shutdown,
        }
    }

    /// What the socket says: a datagram, or an error.
    pub fn from_socket(received: Result<(usize, SocketAddress), IoError>) -> (event: ForwarderEvent)
        ensures
            event == match received {
                Ok((len, addr)) => ForwarderEvent::DNSFromNet(len, addr),
                Err(error) => ForwarderEvent::SocketError(error),
            },
    {
        match received {
            Ok((len, addr)) => ForwarderEvent::DNSFromNet(len, addr),
            Err(error) => ForwarderEvent::SocketError(error),
        }
    }
}

/// What a forwarder that looks its server up has to react to.
pub enum LookupEvent {
    Shutdown,
    LookupResult(Result<Vec<SocketAddress>, IoError>),
}

/// What the forwarder wants done with an event.
pub enum ForwarderAction {
    /// Leave the loop, with the error on the socket if there was one.
    Stop(Result<(), IoError>),
    /// Nothing more to do for this event.
    Continue,
    /// Send a message to each of the hosts.
    SendToHosts(DNSMessage),
    /// Send a message to the bridge.
    SendToBridge(DNSMessage),
}

/// How far a forwarder has come.
#[derive(Debug, Clone, Copy, PartialEq, Eq, Structural)]
pub enum Phase {
    /// The server's addresses are being looked up.
    Lookup,
    /// The last lookup found nothing; the next one has to wait.
    Sleep,
    /// The server's addresses are known.
    Forward,
    /// The forwarder is done.
    Ended,
}

/// The IPv4 addresses among those that were found.
pub open spec fn ipv4_addresses(found: Seq<SocketAddress>) -> Seq<SocketAddress> {
    found.filter(|addr: SocketAddress| addr is V4)
}

/// How long to sleep at `now` after a lookup that began at `begin`: what is left of the
/// interval, or the whole interval where the lookup took longer than that.
pub open spec fn sleep_time(begin: u128, now: u128) -> u128 {
    let elapsed = if begin <= now {
        now - begin
    } else {
        0
    };
    if elapsed <= LOOKUP_INTERVAL {
        (LOOKUP_INTERVAL - elapsed) as u128
    } else {
        LOOKUP_INTERVAL
    }
}

/// How long to sleep at `now` after a lookup that began at `begin`.
pub fn retry_delay(begin: u128, now: u128) -> (delay: u128)
    ensures
        delay == sleep_time(begin, now),
{
    let elapsed: u128 = if begin <= now {
        now - begin
    } else {
        0
    };
    if elapsed <= LOOKUP_INTERVAL {
        LOOKUP_INTERVAL - elapsed
    } else {
        LOOKUP_INTERVAL
    }
}

/// A sleep never takes longer than the interval, and a lookup that took no longer than the
/// interval is followed by the next one an interval after it began.
pub proof fn lookups_keep_their_interval(begin: u128, now: u128)
    ensures
        sleep_time(begin, now) <= LOOKUP_INTERVAL,
        begin <= now <= begin + LOOKUP_INTERVAL ==> now + sleep_time(begin, now) == begin
            + LOOKUP_INTERVAL,
{
}

/// A forwarder over UDP.
pub struct Forwarder {
    phase: Phase,
    hosts: Vec<SocketAddress>,
}

fn keep_ipv4(found: &Vec<SocketAddress>) -> (hosts: Vec<SocketAddress>)
    ensures
        hosts@ == ipv4_addresses(found@),
{
    let mut hosts: Vec<SocketAddress> = Vec::new();
    let mut i: usize = 0;
    while i < found.len()
        invariant
            i <= found.len(),
            hosts@ == ipv4_addresses(found@.take(i as int)),
        decreases found.len() - i,
    {
        proof {
            reveal(Seq::filter);
            assert(found@.take(i + 1).drop_last() =~= found@.take(i as int));
        }
        if found[i].is_ipv4() {
            hosts.push(found[i]);
        }
        i = i + 1;
    }
    proof {
        assert(found@.take(i as int) =~= found@);
    }
    hosts
}

impl Forwarder {
    /// How far the forwarder has come.
    pub closed spec fn phase(&self) -> Phase {
        self.phase
    }

    /// The addresses that messages go to.
    pub closed spec fn hosts(&self) -> Seq<SocketAddress> {
        self.hosts@
    }

    /// A forwarder that forwards knows an address, and it knows IPv4 addresses only.
    pub open spec fn wf(&self) -> bool {
        &&& self.phase() == Phase::Forward ==> self.hosts().len() > 0
        &&& forall|i: int| 0 <= i < self.hosts().len() ==> self.hosts()[i] is V4
    }

    /// A forwarder that has yet to look its server up.
    pub fn new() -> (forwarder: Forwarder)
        ensures
            forwarder.wf(),
            forwarder.phase() == Phase::Lookup,
            forwarder.hosts() == Seq::<SocketAddress>::empty(),
    {
        Forwarder { phase: Phase::Lookup, hosts: Vec::new() }
    }

    /// How far the forwarder has come.
    pub fn current_phase(&self) -> (phase: Phase)
        ensures
            phase == self.phase(),
    {
        self.phase
    }

    /// The addresses that messages go to.
    pub fn current_hosts(&self) -> (hosts: &Vec<SocketAddress>)
        ensures
            hosts@ == self.hosts(),
    {
        &self.hosts
    }

    /// Takes the outcome of a lookup. The IPv4 addresses are used; where there are none, or the
    /// lookup failed, it is tried again later.
    pub fn on_lookup(&mut self, event: LookupEvent)
        requires
            old(self).wf(),
            old(self).phase() == Phase::Lookup,
        ensures
            final(self).wf(),
            match event {
                LookupEvent::Shutdown => final(self).phase() == Phase::Ended
                    && final(self).hosts() == old(self).hosts(),
                LookupEvent::LookupResult(Ok(found)) => if ipv4_addresses(found@).len() > 0 {
                    final(self).phase() == Phase::Forward && final(self).hosts() == ipv4_addresses(
                        found@,
                    )
                } else {
                    final(self).phase() == Phase::Sleep && final(self).hosts() == old(self).hosts()
                },
                LookupEvent::LookupResult(Err(_)) => final(self).phase() == Phase::Sleep
                    && final(self).hosts() == old(self).hosts(),
            },
    {
        match event {
            LookupEvent::Shutdown => {
                self.phase = Phase::Ended;
            },
            LookupEvent::LookupResult(Ok(found)) => {
                let hosts = keep_ipv4(&found);
                if hosts.len() > 0 {
                    proof {
                        broadcast use vstd::seq_lib::group_filter_ensures;

                    }
                    self.hosts = hosts;
                    self.phase = Phase::Forward;
                } else {
                    self.phase = Phase::Sleep;
                }
            },
            LookupEvent::LookupResult(Err(_)) => {
                self.phase = Phase::Sleep;
            },
        }
    }

    /// Goes on after a sleep between two lookups; `interrupted` says that it was cut short by
    /// the request to shut down.
    pub fn on_sleep(&mut self, interrupted: bool)
        requires
            old(self).wf(),
            old(self).phase() == Phase::Sleep,
        ensures
            final(self).wf(),
            final(self).hosts() == old(self).hosts(),
            final(self).phase() == if interrupted {
                Phase::Ended
            } else {
                Phase::Lookup
            },
    {
        self.phase = if interrupted {
            Phase::Ended
        } else {
            Phase::Lookup
        };
    }

    /// Reacts to an event; `buf` is the receive buffer of the socket. Messages of the bridge go
    /// to the hosts, datagrams go to the bridge unless they are too short for a message.
    pub fn on_event(&mut self, event: ForwarderEvent, buf: &[u8]) -> (action: ForwarderAction)
        requires
            old(self).wf(),
            old(self).phase() == Phase::Forward,
            event matches ForwarderEvent::DNSFromNet(len, _) ==> len <= buf@.len(),
        ensures
            final(self).wf(),
            final(self).hosts() == old(self).hosts(),
            final(self).phase() == if action is Stop {
                Phase::Ended
            } else {
                Phase::Forward
            },
            match event {
                ForwarderEvent::Shutdown => action == ForwarderAction::Stop(Ok(())),
                ForwarderEvent::SocketError(error) => action == ForwarderAction::Stop(Err(error)),
                ForwarderEvent::DNSFromBridge(msg) => action == ForwarderAction::SendToHosts(msg),
                ForwarderEvent::DNSFromNet(len, _) => if len >= 2 {
                    action matches ForwarderAction::SendToBridge(msg) && msg@ == buf@.take(
                        len as int,
                    )
                } else {
                    action is Continue
                },
            },
    {
        match event {
            ForwarderEvent::Shutdown => {
                self.phase = Phase::Ended;
                ForwarderAction::Stop(Ok(()))
            },
            ForwarderEvent::SocketError(error) => {
                self.phase = Phase::Ended;
                ForwarderAction::Stop(Err(error))
            },
            ForwarderEvent::DNSFromBridge(msg) => ForwarderAction::SendToHosts(msg),
            ForwarderEvent::DNSFromNet(len, _) => {
                let datagram = vstd::slice::slice_subrange(buf, 0, len);
                assert(datagram@ =~= buf@.take(len as int));
                match DNSMessage::try_new(buffer::from_slice(datagram)) {
                    Ok(msg) => ForwarderAction::SendToBridge(msg),
                    Err(_) => ForwarderAction::Continue,
                }
            },
        }
    }
}

/// Two configurations are equal exactly if host and port agree.
pub proof fn equal_configs_agree(a: Config, b: Config)
    ensures
        a.eq_spec(&b) <==> a.host@ == b.host@ && a.port == b.port,
        a@ == b@ <==> a.eq_spec(&b),
{
}

/// Of what a lookup finds exactly the IPv4 addresses are used, each as often as it was found and
/// in the order in which they were found: what two lists give together is what they give one
/// after the other, and one address is used if it is an IPv4 address.
pub proof fn ipv4_addresses_are_used_in_order(
    first: Seq<SocketAddress>,
    second: Seq<SocketAddress>,
    addr: SocketAddress,
)
    ensures
        ipv4_addresses(first + second) == ipv4_addresses(first) + ipv4_addresses(second),
        ipv4_addresses(seq![addr]) == match addr {
            SocketAddress::V4 { ip, port } => seq![addr],
            SocketAddress::V6 { ip6, port, flowinfo, scope_id } => Seq::empty(),
        },
        ipv4_addresses(Seq::empty()) == Seq::<SocketAddress>::empty(),
{
    let pred = |addr: SocketAddress| addr is V4;
    Seq::filter_distributes_over_add(first, second, pred);
    reveal_with_fuel(Seq::filter, 2);
    assert(seq![addr].drop_last() =~= Seq::<SocketAddress>::empty());
    assert(ipv4_addresses(seq![addr]) =~= if addr is V4 {
        seq![addr]
    } else {
        Seq::empty()
    });
}

/// After a failed lookup the next one begins five seconds after this one began, or, where this
/// one took longer than that or the clock went back, five seconds from now.
pub proof fn lookups_begin_five_seconds_apart(begin: u128, now: u128)
    ensures
        now + sleep_time(begin, now) == if begin <= now && now - begin <= 5_000_000_000 {
            begin + 5_000_000_000
        } else {
            now + 5_000_000_000
        },
{
}

} // verus!
