//! The price cache: for each requested pair, what the exchanges reported of
//! it during the window.

use crate::number::is_float_literal;
use crate::text::str_equal;
use crate::types::{all_priced, PairsCache, PricesPairs, PricesPairsView};
use vstd::prelude::*;

verus! {

/// Position of the first entry of `entries` under `key`, or their number.
pub open spec fn key_index(entries: Seq<(String, PairsCache)>, key: Seq<char>) -> int
    decreases entries.len(),
{
    if entries.len() == 0 || entries[0].0@ == key {
        0
    } else {
        1 + key_index(entries.drop_first(), key)
    }
}

/// No key stands at two places.
spec fn distinct_keys(entries: Seq<(String, PairsCache)>) -> bool {
    forall|i: int, j: int|
        0 <= i < j < entries.len() ==> (#[trigger] entries[i]).0@ != (#[trigger] entries[j]).0@
}

/// Every price is a floating-point literal.
spec fn priced_entries(entries: Seq<(String, PairsCache)>) -> bool {
    forall|i: int| 0 <= i < entries.len() ==> all_priced((#[trigger] entries[i]).1@)
}

/// `key_index` is the least position under `key`, and stays in bounds.
proof fn lemma_key_index(entries: Seq<(String, PairsCache)>, key: Seq<char>)
    ensures
        0 <= key_index(entries, key) <= entries.len(),
        key_index(entries, key) < entries.len() ==> entries[key_index(entries, key)].0@ == key,
        forall|i: int| 0 <= i < key_index(entries, key) ==> entries[i].0@ != key,
    decreases entries.len(),
{
    if entries.len() == 0 || entries[0].0@ == key {
    } else {
        let rest = entries.drop_first();
        lemma_key_index(rest, key);
        assert forall|i: int| 0 <= i < key_index(entries, key) implies entries[i].0@ != key by {
            if i > 0 {
                assert(entries[i] == rest[i - 1]);
            }
        }
    }
}

/// A position under `key` with none before it is the key index.
proof fn lemma_key_index_is(entries: Seq<(String, PairsCache)>, key: Seq<char>, k: int)
    requires
        0 <= k <= entries.len(),
        k < entries.len() ==> entries[k].0@ == key,
        forall|i: int| 0 <= i < k ==> entries[i].0@ != key,
    ensures
        key_index(entries, key) == k,
{
    lemma_key_index(entries, key);
    let f = key_index(entries, key);
    if f < k {
        assert(entries[f].0@ != key);
    } else if f > k {
        assert(entries[k].0@ != key);
    }
}

/// Where the value at one place changes and its key stays, every key is
/// found where it was, and under every other key stands what stood there.
proof fn lemma_changed_value(
    before: Seq<(String, PairsCache)>,
    after: Seq<(String, PairsCache)>,
    place: int,
)
    requires
        0 <= place < before.len(),
        after.len() == before.len(),
        after[place].0@ == before[place].0@,
        forall|j: int| 0 <= j < before.len() && j != place ==> after[j] == before[j],
        distinct_keys(before),
    ensures
        distinct_keys(after),
        forall|k: Seq<char>| #[trigger] key_index(after, k) == key_index(before, k),
        forall|k: Seq<char>|
            k != before[place].0@ && key_index(before, k) < before.len() ==> after[(
            #[trigger] key_index(after, k))] == before[key_index(before, k)],
        key_index(before, before[place].0@) == place,
{
    assert forall|j: int| 0 <= j < after.len() implies (#[trigger] after[j]).0@ == before[j].0@ by {
        if j != place {
            assert(after[j] == before[j]);
        }
    }
    assert forall|k: Seq<char>| #[trigger] key_index(after, k) == key_index(before, k) by {
        lemma_key_index(before, k);
        let f = key_index(before, k);
        assert forall|j: int| 0 <= j < f implies after[j].0@ != k by {
            assert(before[j].0@ != k);
        }
        if f < before.len() {
            assert(after[f].0@ == before[f].0@);
        }
        lemma_key_index_is(after, k, f);
    }
    assert forall|k: Seq<char>|
        k != before[place].0@ && key_index(before, k) < before.len() implies after[(
        #[trigger] key_index(after, k))] == before[key_index(before, k)] by {
        lemma_key_index(before, k);
    }
    lemma_key_index(before, before[place].0@);
    let f = key_index(before, before[place].0@);
    if f < place {
        assert(before[f].0@ != before[place].0@);
    }
    assert forall|i: int, j: int| 0 <= i < j < after.len() implies (#[trigger] after[i]).0@ != (
    #[trigger] after[j]).0@ by {
        assert(before[i].0@ != before[j].0@);
    }
}

/// Where an entry with a new key goes behind the others, the new key is
/// found at the end and every other key where it was.
proof fn lemma_added_entry(before: Seq<(String, PairsCache)>, entry: (String, PairsCache))
    requires
        key_index(before, entry.0@) == before.len(),
        distinct_keys(before),
    ensures
        distinct_keys(before.push(entry)),
        key_index(before.push(entry), entry.0@) == before.len(),
        forall|k: Seq<char>|
            k != entry.0@ ==> (#[trigger] key_index(before.push(entry), k) < before.len() + 1
                <==> key_index(before, k) < before.len()),
        forall|k: Seq<char>|
            k != entry.0@ && key_index(before, k) < before.len() ==> #[trigger] key_index(
                before.push(entry),
                k,
            ) == key_index(before, k) && before.push(entry)[key_index(before, k)]
                == before[key_index(before, k)],
{
    let after = before.push(entry);
    let n = before.len() as int;
    lemma_key_index(before, entry.0@);
    assert forall|j: int| 0 <= j < n implies after[j].0@ != entry.0@ by {
        assert(before[j].0@ != entry.0@);
    }
    lemma_key_index_is(after, entry.0@, n);
    assert forall|k: Seq<char>| k != entry.0@ implies (if key_index(before, k) < n {
        #[trigger] key_index(after, k) == key_index(before, k) && after[key_index(before, k)]
            == before[key_index(before, k)]
    } else {
        key_index(after, k) == n + 1
    }) by {
        lemma_key_index(before, k);
        let f = key_index(before, k);
        assert forall|j: int| 0 <= j < f implies after[j].0@ != k by {
            assert(before[j].0@ != k);
        }
        if f < n {
            assert(after[f] == before[f]);
            lemma_key_index_is(after, k, f);
        } else {
            lemma_key_index_is(after, k, n + 1);
        }
    }
    assert forall|i: int, j: int| 0 <= i < j < after.len() implies (#[trigger] after[i]).0@ != (
    #[trigger] after[j]).0@ by {
        if j < n {
            assert(before[i].0@ != before[j].0@);
        } else {
            assert(before[i].0@ != entry.0@);
        }
    }
}

/// The pairs that a run follows, each with its observations. A key stands
/// in the cache at most once, and every price in it is a floating-point
/// literal.
#[derive(Debug, PartialEq, Eq)]
pub struct PriceCache {
    entries: Vec<(String, PairsCache)>,
}

impl View for PriceCache {
    type V = Map<Seq<char>, Seq<PricesPairsView>>;

    closed spec fn view(&self) -> Map<Seq<char>, Seq<PricesPairsView>> {
        Map::new(
            |k: Seq<char>| key_index(self.entries@, k) < self.entries@.len(),
            |k: Seq<char>| self.entries@[key_index(self.entries@, k)].1@,
        )
    }
}

impl PriceCache {
    /// No key twice, and only floating-point literals as prices.
    pub closed spec fn wf(&self) -> bool {
        distinct_keys(self.entries@) && priced_entries(self.entries@)
    }

    /// The keys in the order in which they first came, each with its
    /// observations.
    pub closed spec fn listing(&self) -> Seq<(Seq<char>, Seq<PricesPairsView>)> {
        self.entries@.map_values(|e: (String, PairsCache)| (e.0@, e.1@))
    }

    /// The listing holds each key of the cache once, with what the cache
    /// holds under it, and nothing else.
    pub proof fn lemma_listing(&self)
        requires
            self.wf(),
        ensures
            forall|i: int|
                0 <= i < self.listing().len() ==> self@.contains_key(
                    (#[trigger] self.listing()[i]).0,
                ) && self@[self.listing()[i].0] == self.listing()[i].1,
            forall|i: int, j: int|
                0 <= i < j < self.listing().len() ==> (#[trigger] self.listing()[i]).0 != (
                #[trigger] self.listing()[j]).0,
            forall|k: Seq<char>|
                self@.contains_key(k) ==> exists|i: int|
                    0 <= i < self.listing().len() && (#[trigger] self.listing()[i]).0 == k,
            forall|k: Seq<char>| self@.contains_key(k) ==> all_priced(#[trigger] self@[k]),
    {
        let e = self.entries@;
        assert forall|i: int| 0 <= i < self.listing().len() implies self@.contains_key(
            (#[trigger] self.listing()[i]).0,
        ) && self@[self.listing()[i].0] == self.listing()[i].1 by {
            lemma_key_index(e, e[i].0@);
            let f = key_index(e, e[i].0@);
            if f < i {
                assert(e[f].0@ != e[i].0@);
            }
        }
        assert forall|k: Seq<char>| self@.contains_key(k) implies exists|i: int|
            0 <= i < self.listing().len() && (#[trigger] self.listing()[i]).0 == k by {
            lemma_key_index(e, k);
            assert(self.listing()[key_index(e, k)].0 == k);
        }
        assert forall|k: Seq<char>| self@.contains_key(k) implies all_priced(
            #[trigger] self@[k],
        ) by {
            lemma_key_index(e, k);
        }
    }

    /// An empty cache.
    pub fn new() -> (cache: PriceCache)
        ensures
            cache.wf(),
            cache@ == Map::<Seq<char>, Seq<PricesPairsView>>::empty(),
    {
        let cache = PriceCache { entries: Vec::new() };
        cache
    }

    /// The number of keys.
    pub fn len(&self) -> (n: usize)
        ensures
            n == self.listing().len(),
    {
        self.entries.len()
    }

    /// The key and the observations at one place of the listing.
    pub fn entry(&self, index: usize) -> (r: (&String, &PairsCache))
        requires
            index < self.listing().len(),
        ensures
            (r.0@, r.1@) == self.listing()[index as int],
    {
        (&self.entries[index].0, &self.entries[index].1)
    }

    /// The place of `key` among the entries.
    fn position(&self, key: &str) -> (r: Option<usize>)
        ensures
            match r {
                Some(i) => i == key_index(self.entries@, key@) && i < self.entries@.len(),
                None => key_index(self.entries@, key@) == self.entries@.len(),
            },
    {
        let mut i: usize = 0;
        while i < self.entries.len()
            invariant
                i <= self.entries@.len(),
                forall|j: int| 0 <= j < i ==> self.entries@[j].0@ != key@,
            decreases self.entries@.len() - i,
        {
            if str_equal(self.entries[i].0.as_str(), key) {
                proof {
                    lemma_key_index_is(self.entries@, key@, i as int);
                }
                return Some(i);
            }
            i += 1;
        }
        proof {
            lemma_key_index_is(self.entries@, key@, i as int);
        }
        None
    }

    /// Whether the cache follows `key`.
    pub fn contains_key(&self, key: &str) -> (r: bool)
        ensures
            r == self@.contains_key(key@),
    {
        self.position(key).is_some()
    }

    /// What the cache holds under `key`.
    pub fn get(&self, key: &str) -> (r: Option<&PairsCache>)
        ensures
            match r {
                Some(v) => self@.contains_key(key@) && self@[key@] == v@,
                None => !self@.contains_key(key@),
            },
    {
        match self.position(key) {
            Some(i) => Some(&self.entries[i].1),
            None => None,
        }
    }

    /// Puts `value` under `key`, in place of what stood there.
    pub fn insert(&mut self, key: String, value: PairsCache)
        requires
            old(self).wf(),
            all_priced(value@),
        ensures
            final(self).wf(),
            final(self)@ == old(self)@.insert(key@, value@),
    {
        let ghost before = self.entries@;
        match self.position(key.as_str()) {
            Some(i) => {
                proof {
                    lemma_key_index(before, key@);
                }
                self.entries.set(i, (key, value));
                proof {
                    lemma_changed_value(before, self.entries@, i as int);
                }
            },
            None => {
                proof {
                    lemma_added_entry(before, (key, value));
                }
                self.entries.push((key, value));
            },
        }
    }

    /// Adds `observation` to what stands under `key`; leaves the cache as
    /// it is where it does not follow `key`.
    pub fn record(&mut self, key: &str, observation: PricesPairs)
        requires
            old(self).wf(),
            is_float_literal(observation.price@),
        ensures
            final(self).wf(),
            final(self)@ == recorded(old(self)@, key@, observation@),
    {
        let ghost before = self.entries@;
        match self.position(key) {
            Some(i) => {
                let (name, mut value) = self.entries.remove(i);
                value.prices.push(observation);
                self.entries.insert(i, (name, value));
                proof {
                    let after = self.entries@;
                    lemma_key_index(before, key@);
                    assert(after[i as int].1@ == before[i as int].1@.push(observation@));
                    lemma_changed_value(before, after, i as int);
                }
            },
            None => {},
        }
    }
}

/// The cache after one observation of `key`: added to the observations of
/// a key that the cache follows, dropped for any other.
pub open spec fn recorded(
    cache: Map<Seq<char>, Seq<PricesPairsView>>,
    key: Seq<char>,
    observation: PricesPairsView,
) -> Map<Seq<char>, Seq<PricesPairsView>> {
    if cache.contains_key(key) {
        cache.insert(key, cache[key].push(observation))
    } else {
        cache
    }
}

} // verus!
