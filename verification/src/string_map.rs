//! A map with text keys that keeps its entries in the order in which they came.
use vstd::prelude::*;

use crate::sessions::{select, split_done};

verus! {

/// A map from names to values.
pub struct StringMap<V> {
    entries: Vec<(String, V)>,
}

/// No key occurs twice.
pub open spec fn distinct<V>(pairs: Seq<(Seq<char>, V)>) -> bool {
    forall|i: int, j: int| 0 <= i < j < pairs.len() ==> pairs[i].0 != pairs[j].0
}

/// The map that the pairs describe.
pub open spec fn to_map<V>(pairs: Seq<(Seq<char>, V)>) -> Map<Seq<char>, V>
    decreases pairs.len(),
{
    if pairs.len() == 0 {
        Map::empty()
    } else {
        to_map(pairs.drop_last()).insert(pairs.last().0, pairs.last().1)
    }
}

/// The pairs of a list of entries.
pub open spec fn entry_pairs<V>(entries: Seq<(String, V)>) -> Seq<(Seq<char>, V)> {
    Seq::new(entries.len(), |i: int| (entries[i].0@, entries[i].1))
}

/// The keys of a list of pairs.
pub open spec fn pair_keys<V>(pairs: Seq<(Seq<char>, V)>) -> Set<Seq<char>> {
    Set::new(|k: Seq<char>| exists|i: int| 0 <= i < pairs.len() && pairs[i].0 == k)
}

/// The map of the pairs holds each pair and nothing else.
pub proof fn to_map_holds_pairs<V>(pairs: Seq<(Seq<char>, V)>)
    requires
        distinct(pairs),
    ensures
        forall|i: int|
            0 <= i < pairs.len() ==> to_map(pairs).contains_key(#[trigger] pairs[i].0) && to_map(
                pairs,
            )[pairs[i].0] == pairs[i].1,
        forall|k: Seq<char>| #[trigger]
            to_map(pairs).contains_key(k) <==> exists|i: int| 0 <= i < pairs.len() && pairs[i].0 == k,
    decreases pairs.len(),
{
    if pairs.len() > 0 {
        let head = pairs.drop_last();
        let last = pairs.last();
        to_map_holds_pairs(head);
        assert forall|i: int| 0 <= i < pairs.len() implies to_map(pairs).contains_key(
            #[trigger] pairs[i].0,
        ) && to_map(pairs)[pairs[i].0] == pairs[i].1 by {
            if i < head.len() {
                assert(head[i] == pairs[i]);
                assert(pairs[i].0 != pairs[pairs.len() - 1].0);
            }
        }
        assert forall|k: Seq<char>| #[trigger] to_map(pairs).contains_key(k) <==> exists|i: int|
            0 <= i < pairs.len() && pairs[i].0 == k by {
            if to_map(pairs).contains_key(k) {
                if k == last.0 {
                    assert(pairs[pairs.len() - 1].0 == k);
                } else {
                    assert(to_map(head).contains_key(k));
                    let i = choose|i: int| 0 <= i < head.len() && head[i].0 == k;
                    assert(pairs[i].0 == k);
                }
            }
            if exists|i: int| 0 <= i < pairs.len() && pairs[i].0 == k {
                let i = choose|i: int| 0 <= i < pairs.len() && pairs[i].0 == k;
                if i < head.len() {
                    assert(head[i].0 == k);
                }
            }
        }
    }
}

/// Two lists of pairs over the same keys and values describe the same map.
proof fn same_pairs_same_map<V>(a: Seq<(Seq<char>, V)>, m: Map<Seq<char>, V>)
    requires
        distinct(a),
        forall|i: int| 0 <= i < a.len() ==> m.contains_key(#[trigger] a[i].0) && m[a[i].0] == a[i].1,
        forall|k: Seq<char>| #[trigger]
            m.contains_key(k) ==> exists|i: int| 0 <= i < a.len() && a[i].0 == k,
    ensures
        to_map(a) == m,
{
    to_map_holds_pairs(a);
    assert(to_map(a) =~= m);
}

/// The pair at a position has the wanted flag.
spec fn picked<T>(items: Seq<T>, flags: Seq<bool>, want: bool, i: int, x: T) -> bool {
    0 <= i < items.len() && flags[i] == want && items[i] == x
}

/// A pair is selected where it stands in the list under the wanted flag.
proof fn select_contains<T>(items: Seq<T>, flags: Seq<bool>, want: bool)
    requires
        flags.len() >= items.len(),
    ensures
        forall|x: T| #[trigger]
            select(items, flags, want).contains(x) <==> exists|i: int| #[trigger]
                picked(items, flags, want, i, x),
    decreases items.len(),
{
    let s = select(items, flags, want);
    if items.len() > 0 {
        let head = items.drop_last();
        let h = select(head, flags, want);
        select_contains(head, flags, want);
        assert forall|x: T| #[trigger] s.contains(x) <==> exists|i: int| #[trigger]
            picked(items, flags, want, i, x) by {
            if s.contains(x) {
                let j = choose|j: int| 0 <= j < s.len() && s[j] == x;
                if j < h.len() {
                    assert(h[j] == x);
                    assert(h.contains(x));
                    let i = choose|i: int| picked(head, flags, want, i, x);
                    assert(picked(items, flags, want, i, x));
                } else {
                    assert(picked(items, flags, want, items.len() - 1, x));
                }
            }
            if exists|i: int| #[trigger] picked(items, flags, want, i, x) {
                let i = choose|i: int| picked(items, flags, want, i, x);
                if i < head.len() {
                    assert(picked(head, flags, want, i, x));
                    assert(h.contains(x));
                    let j = choose|j: int| 0 <= j < h.len() && h[j] == x;
                    assert(s[j] == x);
                } else {
                    assert(s[s.len() - 1] == x);
                }
            }
        }
    }
}

proof fn select_distinct<V>(pairs: Seq<(Seq<char>, V)>, flags: Seq<bool>, want: bool)
    requires
        flags.len() >= pairs.len(),
        distinct(pairs),
    ensures
        distinct(select(pairs, flags, want)),
    decreases pairs.len(),
{
    if pairs.len() > 0 {
        let head = pairs.drop_last();
        let s = select(pairs, flags, want);
        let h = select(head, flags, want);
        select_distinct(head, flags, want);
        select_contains(head, flags, want);
        assert forall|a: int, b: int| 0 <= a < b < s.len() implies s[a].0 != s[b].0 by {
            assert(s[a] == h[a]);
            if b < h.len() {
                assert(s[b] == h[b]);
            } else {
                assert(h.contains(h[a]));
                let i = choose|i: int| picked(head, flags, want, i, h[a]);
                assert(pairs[i].0 != pairs[pairs.len() - 1].0);
            }
        }
    }
}

/// Dropping the selected pairs drops their keys from the map.
pub proof fn select_removes_keys<V>(pairs: Seq<(Seq<char>, V)>, flags: Seq<bool>)
    requires
        distinct(pairs),
        flags.len() == pairs.len(),
    ensures
        distinct(select(pairs, flags, false)),
        distinct(select(pairs, flags, true)),
        to_map(select(pairs, flags, false)) == to_map(pairs).remove_keys(
            pair_keys(select(pairs, flags, true)),
        ),
        pair_keys(select(pairs, flags, true)).subset_of(to_map(pairs).dom()),
{
    let kept = select(pairs, flags, false);
    let gone = select(pairs, flags, true);
    select_contains(pairs, flags, false);
    select_contains(pairs, flags, true);
    select_distinct(pairs, flags, false);
    select_distinct(pairs, flags, true);
    to_map_holds_pairs(pairs);
    let m = to_map(pairs).remove_keys(pair_keys(gone));
    assert forall|k: Seq<char>| pair_keys(gone).contains(k) implies to_map(
        pairs,
    ).dom().contains(k) by {
        let j = choose|j: int| 0 <= j < gone.len() && gone[j].0 == k;
        assert(gone.contains(gone[j]));
        let i = choose|i: int| picked(pairs, flags, true, i, gone[j]);
        assert(pairs[i].0 == k);
    }
    assert forall|i: int| 0 <= i < kept.len() implies m.contains_key(#[trigger] kept[i].0)
        && m[kept[i].0] == kept[i].1 by {
        assert(kept.contains(kept[i]));
        let a = choose|a: int| picked(pairs, flags, false, a, kept[i]);
        assert(pairs[a].0 == kept[i].0);
        if pair_keys(gone).contains(kept[i].0) {
            let j = choose|j: int| 0 <= j < gone.len() && gone[j].0 == kept[i].0;
            assert(gone.contains(gone[j]));
            let b = choose|b: int| picked(pairs, flags, true, b, gone[j]);
            assert(pairs[a].0 == pairs[b].0);
            assert(a == b);
        }
    }
    assert forall|k: Seq<char>| #[trigger] m.contains_key(k) implies exists|i: int|
        0 <= i < kept.len() && kept[i].0 == k by {
        assert(to_map(pairs).contains_key(k));
        let a = choose|a: int| 0 <= a < pairs.len() && pairs[a].0 == k;
        if flags[a] {
            assert(picked(pairs, flags, true, a, pairs[a]));
            assert(gone.contains(pairs[a]));
            let j = choose|j: int| 0 <= j < gone.len() && gone[j] == pairs[a];
            assert(gone[j].0 == k);
            assert(pair_keys(gone).contains(k));
        }
        assert(picked(pairs, flags, false, a, pairs[a]));
        assert(kept.contains(pairs[a]));
        let i = choose|i: int| 0 <= i < kept.len() && kept[i] == pairs[a];
        assert(kept[i].0 == k);
    }
    same_pairs_same_map(kept, m);
}

/// The keys that are dropped are those whose flag is set.
pub proof fn select_keys<V>(pairs: Seq<(Seq<char>, V)>, flags: Seq<bool>)
    requires
        distinct(pairs),
        flags.len() == pairs.len(),
    ensures
        forall|i: int|
            0 <= i < pairs.len() ==> (flags[i] <==> pair_keys(select(pairs, flags, true)).contains(
                #[trigger] pairs[i].0,
            )),
{
    let gone = select(pairs, flags, true);
    select_contains(pairs, flags, true);
    assert forall|i: int| 0 <= i < pairs.len() implies (flags[i] <==> pair_keys(gone).contains(
        #[trigger] pairs[i].0,
    )) by {
        if flags[i] {
            assert(picked(pairs, flags, true, i, pairs[i]));
            assert(gone.contains(pairs[i]));
            let j = choose|j: int| 0 <= j < gone.len() && gone[j] == pairs[i];
            assert(gone[j].0 == pairs[i].0);
        }
        if pair_keys(gone).contains(pairs[i].0) {
            let j = choose|j: int| 0 <= j < gone.len() && gone[j].0 == pairs[i].0;
            assert(gone.contains(gone[j]));
            let k = choose|k: int| picked(pairs, flags, true, k, gone[j]);
            assert(k == i);
        }
    }
}

impl<V> View for StringMap<V> {
    type V = Map<Seq<char>, V>;

    open spec fn view(&self) -> Map<Seq<char>, V> {
        to_map(self.pairs())
    }
}

impl<V> StringMap<V> {
    /// The entries in their order.
    pub closed spec fn pairs(&self) -> Seq<(Seq<char>, V)> {
        entry_pairs(self.entries@)
    }

    /// Every name has one entry.
    #[verifier::type_invariant]
    pub open spec fn wf(&self) -> bool {
        distinct(self.pairs())
    }

    /// A map without entries.
    pub fn new() -> (map: StringMap<V>)
        ensures
            map.wf(),
            map.pairs() == Seq::<(Seq<char>, V)>::empty(),
            map@ == Map::<Seq<char>, V>::empty(),
    {
        let map = StringMap { entries: Vec::new() };
        assert(map.pairs() =~= Seq::<(Seq<char>, V)>::empty());
        map
    }

    /// The number of entries.
    pub fn len(&self) -> (n: usize)
        ensures
            n == self.pairs().len(),
    {
        self.entries.len()
    }

    /// The name of the entry at a position.
    pub fn key_at(&self, index: usize) -> (key: &String)
        requires
            index < self.pairs().len(),
        ensures
            key@ == self.pairs()[index as int].0,
    {
        &self.entries[index].0
    }

    /// The value of the entry at a position.
    pub fn value_at(&self, index: usize) -> (value: &V)
        requires
            index < self.pairs().len(),
        ensures
            *value == self.pairs()[index as int].1,
    {
        &self.entries[index].1
    }

    fn position(&self, key: &str) -> (r: Option<usize>)
        ensures
            match r {
                Some(i) => i < self.pairs().len() && self.pairs()[i as int].0 == key@
                    && self@.contains_key(key@) && self@[key@] == self.pairs()[i as int].1,
                None => !self@.contains_key(key@),
            },
    {
        proof {
            use_type_invariant(self);
            to_map_holds_pairs(self.pairs());
        }
        let wanted = key.to_owned();
        let mut i: usize = 0;
        while i < self.entries.len()
            invariant
                i <= self.entries.len(),
                wanted@ == key@,
                forall|j: int| 0 <= j < i ==> (#[trigger] self.pairs()[j]).0 != key@,
                forall|j: int|
                    0 <= j < self.pairs().len() ==> self@.contains_key(
                        #[trigger] self.pairs()[j].0,
                    ) && self@[self.pairs()[j].0] == self.pairs()[j].1,
            decreases self.entries.len() - i,
        {
            assert(self.pairs()[i as int].0 == self.entries[i as int].0@);
            if self.entries[i].0 == wanted {
                return Some(i);
            }
            i = i + 1;
        }
        None
    }

    /// The value under a name.
    pub fn get(&self, key: &str) -> (r: Option<&V>)
        ensures
            match r {
                Some(value) => self@.contains_key(key@) && *value == self@[key@],
                None => !self@.contains_key(key@),
            },
    {
        match self.position(key) {
            Some(i) => Some(&self.entries[i].1),
            None => None,
        }
    }

    /// Whether a name has an entry.
    pub fn contains_key(&self, key: &str) -> (r: bool)
        ensures
            r == self@.contains_key(key@),
    {
        self.position(key).is_some()
    }

    /// Takes the entry of a name out of the map.
    pub fn remove(&mut self, key: &str) -> (r: Option<V>)
        ensures
            final(self).wf(),
            final(self)@ == old(self)@.remove(key@),
            match r {
                Some(value) => old(self)@.contains_key(key@) && value == old(self)@[key@],
                None => !old(self)@.contains_key(key@),
            },
    {
        proof {
            use_type_invariant(&*self);
        }
        let ghost before = self.pairs();
        match self.position(key) {
            None => {
                proof {
                    assert(self@.remove(key@) =~= self@);
                }
                None
            },
            Some(i) => {
                let mut entries: Vec<(String, V)> = Vec::new();
                std::mem::swap(&mut entries, &mut self.entries);
                let (_, value) = entries.remove(i);
                proof {
                    let after = entry_pairs(entries@);
                    assert(after =~= before.remove(i as int));
                    to_map_holds_pairs(before);
                    assert forall|a: int, b: int| 0 <= a < b < after.len() implies after[a].0
                        != after[b].0 by {
                        let a0 = if a < i { a } else { a + 1 };
                        let b0 = if b < i { b } else { b + 1 };
                        assert(before[a0].0 != before[b0].0);
                    }
                    let m = to_map(before).remove(key@);
                    assert forall|j: int| 0 <= j < after.len() implies m.contains_key(
                        #[trigger] after[j].0,
                    ) && m[after[j].0] == after[j].1 by {
                        let j0 = if j < i { j } else { j + 1 };
                        assert(before[j0] == after[j]);
                        assert(before[j0].0 != before[i as int].0);
                    }
                    assert forall|k: Seq<char>| #[trigger] m.contains_key(k) implies exists|j: int|
                        0 <= j < after.len() && after[j].0 == k by {
                        let j0 = choose|j0: int| 0 <= j0 < before.len() && before[j0].0 == k;
                        let j = if j0 < i { j0 } else { j0 - 1 };
                        assert(after[j] == before[j0]);
                    }
                    same_pairs_same_map(after, m);
                }
                self.entries = entries;
                Some(value)
            },
        }
    }

    /// Puts a value under a name; the value that stood there before comes back.
    pub fn insert(&mut self, key: String, value: V) -> (r: Option<V>)
        ensures
            final(self).wf(),
            final(self)@ == old(self)@.insert(key@, value),
            match r {
                Some(previous) => old(self)@.contains_key(key@) && previous == old(self)@[key@],
                None => !old(self)@.contains_key(key@),
            },
    {
        let previous = self.remove(key.as_str());
        let ghost before = self.pairs();
        let ghost name = key@;
        proof {
            to_map_holds_pairs(before);
        }
        let mut entries: Vec<(String, V)> = Vec::new();
        std::mem::swap(&mut entries, &mut self.entries);
        entries.push((key, value));
        proof {
            let after = entry_pairs(entries@);
            assert(after =~= before.push((name, value)));
            assert(after.drop_last() =~= before);
            assert forall|a: int, b: int| 0 <= a < b < after.len() implies after[a].0
                != after[b].0 by {
                assert(after[a] == before[a]);
                if b < before.len() {
                    assert(after[b] == before[b]);
                } else {
                    assert(to_map(before).contains_key(before[a].0));
                }
            }
            assert(to_map(after) =~= old(self)@.insert(name, value));
        }
        self.entries = entries;
        previous
    }

    /// Takes out the entries whose flag is set and hands them back, in their order.
    pub fn remove_flagged(&mut self, flags: &Vec<bool>) -> (gone: Vec<(String, V)>)
        requires
            flags.len() == old(self).pairs().len(),
        ensures
            final(self).wf(),
            final(self).pairs() == select(old(self).pairs(), flags@, false),
            entry_pairs(gone@) == select(old(self).pairs(), flags@, true),
            final(self)@ == old(self)@.remove_keys(pair_keys(entry_pairs(gone@))),
            pair_keys(entry_pairs(gone@)).subset_of(old(self)@.dom()),
    {
        proof {
            use_type_invariant(&*self);
        }
        let mut all: Vec<(String, V)> = Vec::new();
        std::mem::swap(&mut all, &mut self.entries);
        let ghost before = all@;
        let (kept, gone) = split_done(all, flags);
        proof {
            select_of_pairs(before, flags@, false);
            select_of_pairs(before, flags@, true);
            select_removes_keys(entry_pairs(before), flags@);
        }
        self.entries = kept;
        gone
    }

    /// Empties the map and hands its entries back, in their order.
    pub fn drain(&mut self) -> (gone: Vec<(String, V)>)
        ensures
            final(self).wf(),
            final(self).pairs() == Seq::<(Seq<char>, V)>::empty(),
            final(self)@ == Map::<Seq<char>, V>::empty(),
            entry_pairs(gone@) == old(self).pairs(),
    {
        let mut all: Vec<(String, V)> = Vec::new();
        std::mem::swap(&mut all, &mut self.entries);
        assert(self.pairs() =~= Seq::<(Seq<char>, V)>::empty());
        all
    }
}

proof fn select_of_pairs<V>(entries: Seq<(String, V)>, flags: Seq<bool>, want: bool)
    ensures
        entry_pairs(select(entries, flags, want)) == select(entry_pairs(entries), flags, want),
    decreases entries.len(),
{
    let pairs = entry_pairs(entries);
    if entries.len() == 0 {
        assert(entry_pairs(select(entries, flags, want)) =~= select(pairs, flags, want));
    } else {
        select_of_pairs(entries.drop_last(), flags, want);
        assert(pairs.drop_last() =~= entry_pairs(entries.drop_last()));
        assert(entry_pairs(select(entries, flags, want)) =~= select(pairs, flags, want));
    }
}

/// The pairs of entries are their names and values, in their order; a key is among those of a
/// list of pairs exactly if one of them has it.
pub proof fn pairs_say_what_entries_say<V>(entries: Seq<(String, V)>, i: int, key: Seq<char>)
    ensures
        entry_pairs(entries).len() == entries.len(),
        0 <= i < entries.len() ==> entry_pairs(entries)[i].0 == entries[i].0@ && entry_pairs(
            entries,
        )[i].1 == entries[i].1 && pair_keys(entry_pairs(entries)).contains(entries[i].0@),
        (forall|k: int| 0 <= k < entries.len() ==> (#[trigger] entries[k]).0@ != key)
            ==> !pair_keys(entry_pairs(entries)).contains(key),
{
    if 0 <= i < entries.len() {
        assert(entry_pairs(entries)[i].0 == entries[i].0@);
    }
    if pair_keys(entry_pairs(entries)).contains(key) {
        let k = choose|k: int|
            0 <= k < entry_pairs(entries).len() && entry_pairs(entries)[k].0 == key;
        assert(entries[k].0@ == key);
    }
}

} // verus!
