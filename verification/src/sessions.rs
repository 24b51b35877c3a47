//! Telling apart the sessions that go on from those that are done.
use vstd::prelude::*;

verus! {

/// The items whose flag is `want`, in their order.
pub open spec fn select<T>(items: Seq<T>, flags: Seq<bool>, want: bool) -> Seq<T>
    decreases items.len(),
{
    if items.len() == 0 {
        Seq::empty()
    } else {
        let rest = select(items.drop_last(), flags, want);
        if flags[items.len() - 1] == want {
            rest.push(items.last())
        } else {
            rest
        }
    }
}

/// Splits `sessions` into those that are not done and those that are, each in their order.
pub fn split_done<T>(sessions: Vec<T>, done: &Vec<bool>) -> (r: (Vec<T>, Vec<T>))
    requires
        done.len() == sessions.len(),
    ensures
        r.0@ == select(sessions@, done@, false),
        r.1@ == select(sessions@, done@, true),
{
    let ghost all = sessions@;
    let mut live: Vec<T> = Vec::new();
    let mut finished: Vec<T> = Vec::new();
    let mut i: usize = 0;
    for session in it: sessions
        invariant
            it.seq() == all,
            i == it.index(),
            done.len() == all.len(),
            live@ == select(all.take(i as int), done@, false),
            finished@ == select(all.take(i as int), done@, true),
    {
        proof {
            assert(all.take(i + 1).drop_last() =~= all.take(i as int));
            assert(all.take(i + 1).last() == all[i as int]);
        }
        if done[i] {
            finished.push(session);
        } else {
            live.push(session);
        }
        i = i + 1;
    }
    proof {
        assert(all.take(i as int) =~= all);
    }
    (live, finished)
}

/// No session is lost and none is made up: splitting keeps the sessions as a multiset.
pub proof fn split_keeps_every_session<T>(sessions: Seq<T>, done: Seq<bool>)
    requires
        done.len() == sessions.len(),
    ensures
        select(sessions, done, false).to_multiset().add(
            select(sessions, done, true).to_multiset(),
        ) == sessions.to_multiset(),
    decreases sessions.len(),
{
    broadcast use vstd::seq_lib::group_to_multiset_ensures;

    if sessions.len() == 0 {
        assert(sessions =~= Seq::empty());
        assert(select(sessions, done, false).to_multiset().add(
            select(sessions, done, true).to_multiset(),
        ) =~= sessions.to_multiset());
    } else {
        let head = sessions.drop_last();
        select_ignores_later_flags(head, done, done.drop_last(), false);
        select_ignores_later_flags(head, done, done.drop_last(), true);
        split_keeps_every_session(head, done.drop_last());
        assert(head.push(sessions.last()) =~= sessions);
        assert(select(sessions, done, false).to_multiset().add(
            select(sessions, done, true).to_multiset(),
        ) =~= sessions.to_multiset());
    }
}

proof fn select_ignores_later_flags<T>(items: Seq<T>, a: Seq<bool>, b: Seq<bool>, want: bool)
    requires
        items.len() <= a.len(),
        items.len() <= b.len(),
        forall|i: int| 0 <= i < items.len() ==> a[i] == b[i],
    ensures
        select(items, a, want) == select(items, b, want),
    decreases items.len(),
{
    if items.len() > 0 {
        select_ignores_later_flags(items.drop_last(), a, b, want);
    }
}

/// Where no session is done, all of them go on.
pub proof fn nothing_done_keeps_all<T>(sessions: Seq<T>, done: Seq<bool>)
    requires
        done.len() == sessions.len(),
        forall|i: int| 0 <= i < done.len() ==> !done[i],
    ensures
        select(sessions, done, false) == sessions,
        select(sessions, done, true) == Seq::<T>::empty(),
    decreases sessions.len(),
{
    if sessions.len() > 0 {
        let head = sessions.drop_last();
        select_ignores_later_flags(head, done, done.drop_last(), false);
        select_ignores_later_flags(head, done, done.drop_last(), true);
        nothing_done_keeps_all(head, done.drop_last());
        assert(head.push(sessions.last()) =~= sessions);
    } else {
        assert(sessions =~= Seq::empty());
    }
}

/// Selecting picks every item with the wanted flag, no other, once and in order: the result
/// gives the positions that were picked, which grow, whose flags are the wanted ones, and which
/// are all the positions with that flag.
pub proof fn select_picks_the_flagged<T>(items: Seq<T>, flags: Seq<bool>, want: bool) -> (picks:
    Seq<int>)
    requires
        flags.len() >= items.len(),
    ensures
        picks.len() == select(items, flags, want).len(),
        forall|k: int|
            0 <= k < picks.len() ==> 0 <= #[trigger] picks[k] < items.len() && flags[picks[k]]
                == want && select(items, flags, want)[k] == items[picks[k]],
        forall|k: int, l: int| 0 <= k < l < picks.len() ==> picks[k] < picks[l],
        forall|i: int| 0 <= i < items.len() && flags[i] == want ==> #[trigger] picks.contains(i),
    decreases items.len(),
{
    if items.len() == 0 {
        Seq::empty()
    } else {
        let head = items.drop_last();
        let last = items.len() - 1;
        let before = select_picks_the_flagged(head, flags, want);
        let picks = if flags[last] == want {
            before.push(last)
        } else {
            before
        };
        assert forall|i: int|
            0 <= i < items.len() && flags[i] == want implies #[trigger] picks.contains(i) by {
            if i < last {
                assert(before.contains(i));
                let k = choose|k: int| 0 <= k < before.len() && before[k] == i;
                assert(picks[k] == i);
            } else {
                assert(picks[picks.len() - 1] == i);
            }
        }
        picks
    }
}

} // verus!
