//! Requests that wait for their answer, by message id.
use std::collections::HashMap;
use vstd::prelude::*;

verus! {

broadcast use vstd::std_specs::hash::group_hash_axioms;

/// What is remembered of a request. Points in time are nanoseconds since a common origin.
pub trait Timed {
    /// When the request was made.
    spec fn created(&self) -> u128;

    /// When the request was made.
    fn creation_time(&self) -> (t: u128)
        ensures
            t == self.created(),
    ;
}

/// Whether a request made at `created` still waits at `now`: its age is below the timeout, and
/// it was not made later than `now`.
pub open spec fn fresh(created: u128, timeout: u128, now: u128) -> bool {
    created <= now && now - created < timeout
}

/// The ids of the requests that still wait.
pub open spec fn fresh_ids<T: Timed>(requests: Map<u16, T>, timeout: u128, now: u128) -> Set<u16> {
    Set::new(|id: u16| requests.contains_key(id) && fresh(requests[id].created(), timeout, now))
}

/// The waiting requests after another one has come: the first under an id keeps its place.
pub open spec fn registered<T>(requests: Map<u16, T>, id: u16, request: T) -> Map<u16, T> {
    if requests.contains_key(id) {
        requests
    } else {
        requests.insert(id, request)
    }
}

/// Whether a request made at `created` still waits at `now`.
pub fn is_fresh(created: u128, timeout: u128, now: u128) -> (r: bool)
    ensures
        r == fresh(created, timeout, now),
{
    if created <= now {
        now - created < timeout
    } else {
        false
    }
}

/// The requests that wait for their answer.
pub struct PendingTable<T> {
    requests: HashMap<u16, T>,
}

impl<T> View for PendingTable<T> {
    type V = Map<u16, T>;

    closed spec fn view(&self) -> Map<u16, T> {
        self.requests@
    }
}

impl<T: Timed> PendingTable<T> {
    /// A table without requests.
    pub fn new() -> (table: PendingTable<T>)
        ensures
            table@ == Map::<u16, T>::empty(),
    {
        PendingTable { requests: HashMap::new() }
    }

    /// Remembers a request. A request under the same id that still waits keeps its place, and
    /// the answer is `false`.
    pub fn register(&mut self, id: u16, request: T) -> (taken: bool)
        ensures
            taken == !old(self)@.contains_key(id),
            final(self)@ == registered(old(self)@, id, request),
    {
        match self.requests.insert(id, request) {
            Some(previous) => {
                self.requests.insert(id, previous);
                proof {
                    assert(self@ =~= old(self)@);
                }
                false
            },
            None => true,
        }
    }

    /// Takes the request with an id out of the table.
    pub fn take(&mut self, id: u16) -> (r: Option<T>)
        ensures
            final(self)@ == old(self)@.remove(id),
            match r {
                Some(request) => old(self)@.contains_key(id) && request == old(self)@[id],
                None => !old(self)@.contains_key(id),
            },
    {
        self.requests.remove(&id)
    }

    /// The number of requests.
    pub fn len(&self) -> (n: usize)
        ensures
            n == self@.len(),
    {
        self.requests.len()
    }

    /// Drops the requests that have waited for the timeout or longer.
    pub fn expire(&mut self, timeout: u128, now: u128)
        ensures
            final(self)@ == old(self)@.restrict(fresh_ids(old(self)@, timeout, now)),
            forall|id: u16| #[trigger]
                final(self)@.contains_key(id) <==> old(self)@.contains_key(id) && old(
                    self,
                )@[id].created() <= now && now - old(self)@[id].created() < timeout,
    {
        let ghost before = self.requests@;
        let mut expired: Vec<u16> = Vec::new();
        for entry in it: self.requests.iter()
            invariant
                before == self.requests@,
                it.seq().len() == before.dom().len(),
                forall|i: int| #![trigger it.seq()[i]]
                    0 <= i < it.seq().len() ==> before.contains_key(*it.seq()[i].0)
                        && before[*it.seq()[i].0] == *it.seq()[i].1,
                forall|k: u16| #[trigger]
                    before.contains_key(k) ==> it.seq().contains((&k, &before[k])),
                forall|j: int|
                    0 <= j < expired.len() ==> before.contains_key(#[trigger] expired[j])
                        && !fresh(before[expired[j]].created(), timeout, now),
                forall|i: int| #![trigger it.seq()[i]]
                    0 <= i < it.index() && !fresh(it.seq()[i].1.created(), timeout, now)
                        ==> expired@.contains(*it.seq()[i].0),
        {
            let ghost earlier = expired@;
            let (id, request) = entry;
            if !is_fresh(request.creation_time(), timeout, now) {
                expired.push(*id);
                proof {
                    assert(expired@.last() == *id);
                    assert forall|x: u16| earlier.contains(x) implies expired@.contains(x) by {
                        let j = choose|j: int| 0 <= j < earlier.len() && earlier[j] == x;
                        assert(expired@[j] == x);
                    }
                }
            }
        }
        proof {
            assert forall|k: u16| #[trigger] before.contains_key(k) && !fresh(
                before[k].created(),
                timeout,
                now,
            ) implies expired@.contains(k) by {}
        }
        let mut j: usize = 0;
        while j < expired.len()
            invariant
                j <= expired.len(),
                forall|k: u16| #[trigger]
                    self.requests@.contains_key(k) <==> before.contains_key(k)
                        && !expired@.take(j as int).contains(k),
                forall|k: u16| #[trigger]
                    self.requests@.contains_key(k) ==> self.requests@[k] == before[k],
            decreases expired.len() - j,
        {
            let ghost earlier = expired@.take(j as int);
            self.requests.remove(&expired[j]);
            j = j + 1;
            proof {
                assert(expired@.take(j as int) =~= earlier.push(expired@[j - 1]));
                assert forall|k: u16| expired@.take(j as int).contains(k) <==> earlier.contains(k)
                    || k == expired@[j - 1] by {
                    if earlier.contains(k) {
                        let i = choose|i: int| 0 <= i < earlier.len() && earlier[i] == k;
                        assert(expired@.take(j as int)[i] == k);
                    }
                    if k == expired@[j - 1] {
                        assert(expired@.take(j as int)[j - 1] == k);
                    }
                }
            }
        }
        proof {
            assert(expired@.take(j as int) =~= expired@);
            assert(self@ =~= before.restrict(fresh_ids(before, timeout, now)));
        }
    }
}

/// What one round of a bridge does to the requests that wait.
pub enum Change<T> {
    /// A request comes under an id.
    Request(u16, T),
    /// An answer comes under an id.
    Answer(u16),
    /// Nothing.
    Nothing,
}

/// One round of a bridge; requests that have waited too long at `now` are then dropped.
pub struct Round<T> {
    pub change: Change<T>,
    pub now: u128,
}

/// The requests that wait after the given rounds.
pub open spec fn waiting<T: Timed>(rounds: Seq<Round<T>>, timeout: u128) -> Map<u16, T>
    decreases rounds.len(),
{
    if rounds.len() == 0 {
        Map::empty()
    } else {
        let before = waiting(rounds.drop_last(), timeout);
        let after = match rounds.last().change {
            Change::Request(id, request) => registered(before, id, request),
            Change::Answer(id) => before.remove(id),
            Change::Nothing => before,
        };
        after.restrict(fresh_ids(after, timeout, rounds.last().now))
    }
}

/// Whether a request was made in a round, and neither answered nor too old since.
pub open spec fn pending_since<T: Timed>(
    rounds: Seq<Round<T>>,
    timeout: u128,
    made: int,
    id: u16,
    request: T,
) -> bool {
    &&& 0 <= made < rounds.len()
    &&& rounds[made].change == Change::Request(id, request)
    &&& forall|k: int|
        made < k < rounds.len() ==> (#[trigger] rounds[k]).change != Change::<T>::Answer(id)
    &&& forall|k: int|
        made <= k < rounds.len() ==> request.created() <= (#[trigger] rounds[k]).now && rounds[k].now
            - request.created() < timeout
}

/// Only what was asked waits: a request that waits under an id was made under it in some round,
/// and has neither been answered nor been too old since.
pub proof fn only_what_was_asked_waits<T: Timed>(
    rounds: Seq<Round<T>>,
    timeout: u128,
    id: u16,
) -> (made: int)
    requires
        waiting(rounds, timeout).contains_key(id),
    ensures
        pending_since(rounds, timeout, made, id, waiting(rounds, timeout)[id]),
    decreases rounds.len(),
{
    let head = rounds.drop_last();
    let last = rounds.last();
    let before = waiting(head, timeout);
    let request = waiting(rounds, timeout)[id];
    assert(rounds[rounds.len() - 1] == last);
    if before.contains_key(id) && before[id] == request && last.change != Change::<T>::Answer(
        id,
    ) {
        let made = only_what_was_asked_waits(head, timeout, id);
        assert(rounds[made] == head[made]);
        assert forall|k: int| made < k < rounds.len() implies (#[trigger] rounds[k]).change
            != Change::<T>::Answer(id) by {
            if k < head.len() {
                assert(rounds[k] == head[k]);
            }
        }
        assert forall|k: int| made <= k < rounds.len() implies request.created() <= (
        #[trigger] rounds[k]).now && rounds[k].now - request.created() < timeout by {
            if k < head.len() {
                assert(rounds[k] == head[k]);
            }
        }
        made
    } else {
        rounds.len() - 1
    }
}

/// What was asked waits: a request made under a free id waits as long as it is neither answered
/// nor too old.
pub proof fn what_was_asked_waits<T: Timed>(
    rounds: Seq<Round<T>>,
    timeout: u128,
    made: int,
    id: u16,
    request: T,
)
    requires
        pending_since(rounds, timeout, made, id, request),
        !waiting(rounds.take(made), timeout).contains_key(id),
    ensures
        waiting(rounds, timeout).contains_key(id),
        waiting(rounds, timeout)[id] == request,
    decreases rounds.len(),
{
    let head = rounds.drop_last();
    assert(rounds[rounds.len() - 1] == rounds.last());
    if made == rounds.len() - 1 {
        assert(head =~= rounds.take(made));
    } else {
        assert(head.take(made) =~= rounds.take(made));
        assert forall|k: int| made <= k < head.len() implies head[k] == #[trigger] rounds[k] by {}
        assert(pending_since(head, timeout, made, id, request)) by {
            assert(head[made] == rounds[made]);
            assert forall|k: int| made < k < head.len() implies (#[trigger] head[k]).change
                != Change::<T>::Answer(id) by {
                assert(head[k] == rounds[k]);
            }
            assert forall|k: int| made <= k < head.len() implies request.created() <= (
            #[trigger] head[k]).now && head[k].now - request.created() < timeout by {
                assert(head[k] == rounds[k]);
            }
        }
        what_was_asked_waits(head, timeout, made, id, request);
    }
}

/// A request waits for its timeout, no shorter and no longer: what is left of the requests at
/// `now` are those made at or before `now` whose age is below the timeout, unchanged.
pub proof fn requests_wait_for_their_timeout<T: Timed>(
    requests: Map<u16, T>,
    timeout: u128,
    now: u128,
    id: u16,
)
    ensures
        ({
            let left = requests.restrict(fresh_ids(requests, timeout, now));
            &&& left.contains_key(id) <==> requests.contains_key(id) && requests[id].created()
                <= now && now < requests[id].created() + timeout
            &&& left.contains_key(id) ==> left[id] == requests[id]
        }),
{
}

/// A clean-up at a later time leaves no more than one at an earlier time, and what a shorter
/// timeout leaves, a longer one leaves too, at any time at which the requests had been made.
pub proof fn age_and_timeout_are_monotone<T: Timed>(
    requests: Map<u16, T>,
    timeout: u128,
    longer: u128,
    now: u128,
    later: u128,
    id: u16,
)
    requires
        timeout <= longer,
        requests.contains_key(id),
        requests[id].created() <= now <= later,
    ensures
        requests.restrict(fresh_ids(requests, timeout, later)).contains_key(id)
            ==> requests.restrict(fresh_ids(requests, timeout, now)).contains_key(id),
        requests.restrict(fresh_ids(requests, timeout, now)).contains_key(id)
            ==> requests.restrict(fresh_ids(requests, longer, now)).contains_key(id),
{
}

/// A request takes a free place, leaves a taken one to who has it, and touches no other.
pub proof fn a_request_takes_a_free_place<T>(
    requests: Map<u16, T>,
    id: u16,
    request: T,
    other: u16,
)
    ensures
        registered(requests, id, request).contains_key(id),
        registered(requests, id, request)[id] == if requests.contains_key(id) {
            requests[id]
        } else {
            request
        },
        other != id ==> registered(requests, id, request).contains_key(other)
            == requests.contains_key(other),
        other != id && requests.contains_key(other) ==> registered(requests, id, request)[other]
            == requests[other],
{
}

} // verus!
