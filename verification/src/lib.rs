//! Ticker prices of trading pairs, sampled from three exchanges over one
//! window: the requests that subscribe to the feeds, the decoding of their
//! frames, the cache of observations and the steps of the sampling loop.

use crate::cache::{recorded, PriceCache};
use crate::helpers::{canonical_key, key_of};
use crate::text::{lemma_split_len, split, split_fields, str_equal, strings};
use crate::types::{Args, PairsCache, PricesPairsView};
use vstd::prelude::*;
use vstd::string::*;

pub mod cache;
pub mod errors;
pub mod helpers;
pub mod json;
pub mod number;
pub mod parser;
pub mod request;
pub mod sampling;
pub mod session;
pub mod text;
pub mod types;

verus! {

/// A requested pair: two symbols around one underscore, neither empty.
pub open spec fn is_pair(token: Seq<char>) -> bool {
    let coin = split(token, '_');
    coin.len() == 2 && coin[0].len() > 0 && coin[1].len() > 0
}

/// Every one of `tokens` is a requested pair.
pub open spec fn all_pairs(tokens: Seq<Seq<char>>) -> bool {
    forall|i: int| 0 <= i < tokens.len() ==> is_pair(#[trigger] tokens[i])
}

/// Whether `token` is a requested pair.
pub fn check_pair(token: &str) -> (r: bool)
    ensures
        r == is_pair(token@),
{
    let coin = split_fields(token, '_');
    coin.len() == 2 && coin[0].unicode_len() > 0 && coin[1].unicode_len() > 0
}

/// Whether `pairs` is a list of requested pairs with a comma between each
/// two. One token that is no pair refuses the whole list.
pub fn check_pairs(pairs: &str) -> (r: bool)
    ensures
        r == all_pairs(split(pairs@, ',')),
{
    let pairs_split = split_fields(pairs, ',');
    let mut count: usize = 0;
    let mut i: usize = 0;
    while i < pairs_split.len()
        invariant
            i <= pairs_split@.len(),
            count <= i,
            pairs_split@.len() == split(pairs@, ',').len(),
            forall|k: int|
                0 <= k < pairs_split@.len() ==> (#[trigger] pairs_split@[k])@ == split(
                    pairs@,
                    ',',
                )[k],
            count == i <==> forall|k: int| 0 <= k < i ==> is_pair(#[trigger] split(pairs@, ',')[k]),
        decreases pairs_split@.len() - i,
    {
        if check_pair(pairs_split[i]) {
            count += 1;
        } else {
            assert(!is_pair(split(pairs@, ',')[i as int]));
        }
        i += 1;
    }
    count == pairs_split.len()
}

/// Whether a requested key is among those of `pairs`.
pub open spec fn is_requested(pairs: Seq<Seq<char>>, key: Seq<char>) -> bool {
    exists|i: int| 0 <= i < pairs.len() && canonical_key(#[trigger] pairs[i], '_') == key
}

/// The cache after `pairs` were requested: the key of each pair stands in
/// it with no observation, and what stood under other keys is as before.
pub open spec fn seeded(
    cache: Map<Seq<char>, Seq<PricesPairsView>>,
    pairs: Seq<Seq<char>>,
) -> Map<Seq<char>, Seq<PricesPairsView>> {
    Map::new(
        |k: Seq<char>| cache.contains_key(k) || is_requested(pairs, k),
        |k: Seq<char>|
            if is_requested(pairs, k) {
                Seq::empty()
            } else {
                cache[k]
            },
    )
}

/// After `pairs` were requested, the key of each of them stands in the
/// cache with no observation, and a key of none of them is as before.
pub proof fn lemma_seeded(cache: Map<Seq<char>, Seq<PricesPairsView>>, pairs: Seq<Seq<char>>)
    ensures
        forall|i: int|
            0 <= i < pairs.len() ==> seeded(cache, pairs).contains_key(
                canonical_key(#[trigger] pairs[i], '_'),
            ) && seeded(cache, pairs)[canonical_key(pairs[i], '_')] == Seq::<
                PricesPairsView,
            >::empty(),
        forall|key: Seq<char>|
            !is_requested(pairs, key) ==> seeded(cache, pairs).contains_key(key)
                == cache.contains_key(key) && (cache.contains_key(key) ==> #[trigger] seeded(
                cache,
                pairs,
            )[key] == cache[key]),
{
}

/// The first observation of a requested pair is all that stands under its
/// key.
pub proof fn lemma_first_observation(
    pairs: Seq<Seq<char>>,
    i: int,
    observation: PricesPairsView,
)
    requires
        0 <= i < pairs.len(),
    ensures
        recorded(
            seeded(Map::empty(), pairs),
            canonical_key(pairs[i], '_'),
            observation,
        )[canonical_key(pairs[i], '_')] == seq![observation],
{
    lemma_seeded(Map::empty(), pairs);
}

/// An observation of a pair that was not requested leaves the cache as it
/// is.
pub proof fn lemma_unrequested_is_dropped(
    pairs: Seq<Seq<char>>,
    key: Seq<char>,
    observation: PricesPairsView,
)
    requires
        !is_requested(pairs, key),
    ensures
        recorded(seeded(Map::empty(), pairs), key, observation) == seeded(Map::empty(), pairs),
{
}

/// Whether each of `pairs` holds the underscore that parts its symbols.
pub open spec fn all_parted(pairs: Seq<Seq<char>>) -> bool {
    forall|i: int| 0 <= i < pairs.len() ==> (#[trigger] pairs[i]).contains('_')
}

/// Requested pairs hold the underscore that parts their symbols.
pub proof fn lemma_pairs_are_parted(tokens: Seq<Seq<char>>)
    requires
        all_pairs(tokens),
    ensures
        all_parted(tokens),
{
    assert forall|i: int| 0 <= i < tokens.len() implies (#[trigger] tokens[i]).contains('_') by {
        lemma_split_len(tokens[i], '_');
    }
}

/// Puts the key of each requested pair into the cache, with no observation.
pub fn insert_pairs(pairs: Vec<String>, pairs_cache: &mut PriceCache)
    requires
        old(pairs_cache).wf(),
        all_parted(strings(pairs@)),
    ensures
        final(pairs_cache).wf(),
        final(pairs_cache)@ == seeded(old(pairs_cache)@, strings(pairs@)),
{
    let ghost all = strings(pairs@);
    let ghost start = pairs_cache@;
    let mut i: usize = 0;
    while i < pairs.len()
        invariant
            i <= pairs@.len(),
            all == strings(pairs@),
            all_parted(all),
            pairs_cache.wf(),
            pairs_cache@ == seeded(start, all.subrange(0, i as int)),
        decreases pairs@.len() - i,
    {
        assert(all[i as int].contains('_'));
        let key = key_of(pairs[i].as_str(), '_');
        let fresh = PairsCache { prices: Vec::new() };
        assert(fresh@ =~= Seq::<PricesPairsView>::empty());
        pairs_cache.insert(key, fresh);
        proof {
            let done = all.subrange(0, i as int);
            let next = all.subrange(0, i + 1);
            let added = canonical_key(all[i as int], '_');
            assert forall|k: Seq<char>| is_requested(next, k) == (is_requested(done, k) || k
                == added) by {
                if is_requested(done, k) {
                    let j = choose|j: int|
                        0 <= j < done.len() && canonical_key(#[trigger] done[j], '_') == k;
                    assert(next[j] == done[j]);
                }
                if k == added {
                    assert(next[i as int] == all[i as int]);
                }
                if is_requested(next, k) {
                    let j = choose|j: int|
                        0 <= j < next.len() && canonical_key(#[trigger] next[j], '_') == k;
                    if j < i {
                        assert(done[j] == next[j]);
                    }
                }
            }
        }
        i += 1;
    }
    assert(all.subrange(0, i as int) == all);
}

/// What a command line asks for.
#[derive(Debug)]
pub enum Command {
    /// Sample the prices of these pairs and write the snapshot.
    Cache(Vec<String>),
    /// The mode asks for pairs and none was given.
    PairsRequired,
    /// One of the tokens given is no pair.
    InvalidPairs,
    /// Show the snapshot that was written last.
    Read,
    /// The mode is neither `cache` nor `read`.
    InvalidMode,
}

/// Reads the command line. In the mode `cache` the pairs must be given,
/// with a comma between each two, and each must be a pair; the command then
/// holds them in their order. The mode `read` takes no pairs.
pub fn start(args: &Args) -> (command: Command)
    ensures
        match command {
            Command::Cache(pairs) => args.mode@ == "cache"@ && args.pairs@.len() > 0 && all_pairs(
                split(args.pairs@, ','),
            ) && strings(pairs@) == split(args.pairs@, ','),
            Command::PairsRequired => args.mode@ == "cache"@ && args.pairs@.len() == 0,
            Command::InvalidPairs => args.mode@ == "cache"@ && args.pairs@.len() > 0 && !all_pairs(
                split(args.pairs@, ','),
            ),
            Command::Read => args.mode@ == "read"@,
            Command::InvalidMode => args.mode@ != "cache"@ && args.mode@ != "read"@,
        },
{
    if str_equal(args.mode.as_str(), "cache") {
        if args.pairs.as_str().unicode_len() == 0 {
            Command::PairsRequired
        } else if check_pairs(args.pairs.as_str()) {
            let tokens = split_fields(args.pairs.as_str(), ',');
            let mut pairs: Vec<String> = Vec::new();
            let mut i: usize = 0;
            while i < tokens.len()
                invariant
                    i <= tokens@.len(),
                    pairs@.len() == i,
                    forall|k: int| 0 <= k < i ==> (#[trigger] pairs@[k])@ == tokens@[k]@,
                decreases tokens@.len() - i,
            {
                pairs.push(String::from_str(tokens[i]));
                i += 1;
            }
            Command::Cache(pairs)
        } else {
            Command::InvalidPairs
        }
    } else if str_equal(args.mode.as_str(), "read") {
        Command::Read
    } else {
        Command::InvalidMode
    }
}

} // verus!
