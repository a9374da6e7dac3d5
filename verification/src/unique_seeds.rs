//! The minimal seed of every reachable first state word.

use crate::rng::{first_state_word, lcg_raw, step_15bit, step_signed, RNG};
use std::collections::HashSet;
use vstd::prelude::*;
use vstd::set_lib::{lemma_int_range, lemma_len_subset, lemma_map_size, set_int_range};
use vstd::std_specs::hash::group_hash_axioms;

verus! {

/// The number of distinct first state words that the seeds of a mode give.
pub open spec fn unique_state_count(seeds_15bit: bool) -> nat {
    if seeds_15bit {
        32768
    } else {
        65536
    }
}

/// Whether `word` has the shape of a first state word of the mode: fifteen bits in
/// 15-bit mode; otherwise fifteen bits, or fifteen bits under a sign fill.
pub open spec fn is_first_word(word: u32, seeds_15bit: bool) -> bool {
    if seeds_15bit {
        word < 0x8000
    } else {
        word < 0x8000 || 0x7fff_8000 <= word < 0x8000_0000
    }
}

/// Whether no smaller seed gives the first state word that `seed` gives.
pub open spec fn is_minimal_seed(seed: u32, seeds_15bit: bool) -> bool {
    forall|smaller: u32|
        smaller < seed ==> #[trigger] first_state_word(smaller, seeds_15bit) != first_state_word(
            seed,
            seeds_15bit,
        )
}

/// The first state words of the seeds below `limit`.
pub open spec fn seen_words(limit: int, seeds_15bit: bool) -> Set<u32> {
    Set::new(
        |word: u32|
            exists|seed: u32|
                (seed as int) < limit && #[trigger] first_state_word(seed, seeds_15bit) == word,
    )
}

/// All words of the shape of a first state word.
pub open spec fn word_space(seeds_15bit: bool) -> Set<u32> {
    Set::new(|word: u32| is_first_word(word, seeds_15bit))
}

/// The upper half of the recurrence that a first state word stands for.
pub open spec fn word_key(word: u32) -> u32 {
    if word >= 0x7fff_8000 {
        (word - 0x7fff_0000) as u32
    } else {
        word
    }
}

/// A seed whose recurrence has `key` as its upper half and a lower half of zero.
pub open spec fn seed_for_key(key: u32) -> u32 {
    ((0xb9b3_3155u32 * (((key as int * 0x1_0000 - 0x269ec3) % 0x1_0000_0000) as u32)) % 0x1_0000_0000) as u32
}

/// Every first state word has the shape of its mode.
pub proof fn lemma_first_word_shape(seed: u32, seeds_15bit: bool)
    ensures
        is_first_word(first_state_word(seed, seeds_15bit), seeds_15bit),
{
}

proof fn lemma_seed_for_key(key: u32)
    requires
        key < 0x1_0000,
    ensures
        lcg_raw(seed_for_key(key)) == key * 0x1_0000,
        seed_for_key(key) < 0xffff_ffff,
{
    let seed = seed_for_key(key);
    assert(key < 0x1_0000 ==> {
        let s = ((0xb9b3_3155u32 * (((key as int * 0x1_0000 - 0x269ec3) % 0x1_0000_0000) as u32))
            % 0x1_0000_0000) as u32;
        &&& ((s as int * 0x343fd + 0x269ec3) % 0x1_0000_0000) as u32 == key * 0x1_0000
        &&& s < 0xffff_ffffu32
    }) by (bit_vector);
}

/// Every word of the mode's shape is the first state word of some seed below the
/// largest one.
pub proof fn lemma_word_reached(word: u32, seeds_15bit: bool)
    requires
        is_first_word(word, seeds_15bit),
    ensures
        first_state_word(seed_for_key(word_key(word)), seeds_15bit) == word,
        seed_for_key(word_key(word)) < 0xffff_ffff,
{
    lemma_seed_for_key(word_key(word));
}


/// The word that stands for an upper half of the recurrence.
pub open spec fn key_word(key: int, seeds_15bit: bool) -> u32 {
    if !seeds_15bit && key >= 0x8000 {
        (key + 0x7fff_0000) as u32
    } else {
        key as u32
    }
}

/// The words of a mode's shape are finitely many: as many as the mode's count says.
pub proof fn lemma_word_space_size(seeds_15bit: bool)
    ensures
        word_space(seeds_15bit).finite(),
        word_space(seeds_15bit).len() == unique_state_count(seeds_15bit),
{
    let count = unique_state_count(seeds_15bit) as int;
    let keys = set_int_range(0, count);
    let to_word = |key: int| key_word(key, seeds_15bit);
    lemma_int_range(0, count);
    assert(keys.map(to_word) =~= word_space(seeds_15bit)) by {
        assert forall|word: u32| word_space(seeds_15bit).contains(word) implies keys.map(
            to_word,
        ).contains(word) by {
            let key = word_key(word) as int;
            assert(keys.contains(key));
            assert(to_word(key) == word);
        }
    }
    assert(vstd::relations::injective_on(to_word, keys));
    lemma_map_size(keys, word_space(seeds_15bit), to_word);
}

/// While fewer words were seen than the mode has, the seeds are not used up: the
/// limit lies below the largest seed.
proof fn lemma_seeds_left(limit: int, seeds_15bit: bool)
    requires
        0 <= limit,
        seen_words(limit, seeds_15bit).finite(),
        seen_words(limit, seeds_15bit).len() < unique_state_count(seeds_15bit),
    ensures
        limit < 0xffff_ffff,
{
    let seen = seen_words(limit, seeds_15bit);
    let space = word_space(seeds_15bit);
    lemma_word_space_size(seeds_15bit);
    if space.subset_of(seen) {
        lemma_len_subset(space, seen);
    }
    let missing = choose|word: u32| space.contains(word) && !seen.contains(word);
    lemma_word_reached(missing, seeds_15bit);
    let seed = seed_for_key(word_key(missing));
    if (seed as int) < limit {
        assert(seen.contains(first_state_word(seed, seeds_15bit)));
    }
}

/// Once as many words were seen as the mode has, no seed at or above the limit is
/// minimal.
proof fn lemma_all_seen(limit: int, seeds_15bit: bool, seed: u32)
    requires
        seen_words(limit, seeds_15bit).finite(),
        seen_words(limit, seeds_15bit).len() >= unique_state_count(seeds_15bit),
        limit <= seed,
    ensures
        !is_minimal_seed(seed, seeds_15bit),
        seen_words(limit, seeds_15bit).len() == unique_state_count(seeds_15bit),
{
    let seen = seen_words(limit, seeds_15bit);
    let space = word_space(seeds_15bit);
    lemma_word_space_size(seeds_15bit);
    assert(seen.subset_of(space)) by {
        assert forall|word: u32| seen.contains(word) implies space.contains(word) by {
            let from = choose|from: u32|
                (from as int) < limit && #[trigger] first_state_word(from, seeds_15bit) == word;
            lemma_first_word_shape(from, seeds_15bit);
        }
    }
    lemma_len_subset(seen, space);
    vstd::set_lib::lemma_subset_equality(seen, space);
    lemma_first_word_shape(seed, seeds_15bit);
    assert(seen.contains(first_state_word(seed, seeds_15bit)));
    let earlier = choose|earlier: u32|
        (earlier as int) < limit && #[trigger] first_state_word(earlier, seeds_15bit)
            == first_state_word(seed, seeds_15bit);
    assert(earlier < seed);
}

/// The words seen below `limit + 1` are those seen below `limit` and the word of
/// the seed `limit`; that word is new exactly if the seed is minimal.
proof fn lemma_seen_next(limit: u32, seeds_15bit: bool)
    ensures
        seen_words(limit + 1, seeds_15bit) == seen_words(limit as int, seeds_15bit).insert(
            first_state_word(limit, seeds_15bit),
        ),
        seen_words(limit as int, seeds_15bit).contains(first_state_word(limit, seeds_15bit))
            <==> !is_minimal_seed(limit, seeds_15bit),
{
    let word = first_state_word(limit, seeds_15bit);
    let before = seen_words(limit as int, seeds_15bit);
    let after = seen_words(limit + 1, seeds_15bit);
    assert forall|w: u32| after.contains(w) <==> before.insert(word).contains(w) by {
        if after.contains(w) {
            let from = choose|from: u32|
                (from as int) < limit + 1 && #[trigger] first_state_word(from, seeds_15bit) == w;
            if from < limit {
                assert(before.contains(w));
            }
        }
        if before.contains(w) {
            let from = choose|from: u32|
                (from as int) < limit && #[trigger] first_state_word(from, seeds_15bit) == w;
            assert((from as int) < limit + 1);
        }
        if w == word {
            assert((limit as int) < limit + 1 && first_state_word(limit, seeds_15bit) == w);
        }
    }
    assert(after =~= before.insert(word));
    if before.contains(word) {
        let from = choose|from: u32|
            (from as int) < limit && #[trigger] first_state_word(from, seeds_15bit) == word;
        assert(from < limit);
    }
    if !is_minimal_seed(limit, seeds_15bit) {
        let smaller = choose|smaller: u32|
            smaller < limit && #[trigger] first_state_word(smaller, seeds_15bit) == word;
        assert(before.contains(word));
    }
}

/// Whether `seeds` lists, in rising order, exactly the minimal seeds below `limit`.
pub open spec fn lists_minimal_seeds(seeds: Seq<u32>, limit: int, seeds_15bit: bool) -> bool {
    &&& forall|i: int, j: int| 0 <= i < j < seeds.len() ==> seeds[i] < seeds[j]
    &&& forall|seed: u32|
        seeds.contains(seed) <==> (seed as int) < limit && is_minimal_seed(seed, seeds_15bit)
}

/// Two minimal seeds that give the same first state word are one seed.
pub proof fn lemma_minimal_seed_unique(a: u32, b: u32, seeds_15bit: bool)
    requires
        is_minimal_seed(a, seeds_15bit),
        is_minimal_seed(b, seeds_15bit),
        first_state_word(a, seeds_15bit) == first_state_word(b, seeds_15bit),
    ensures
        a == b,
{
}

/// Below every seed lies a minimal seed with the same first state word, or the
/// seed is minimal itself.
pub proof fn lemma_minimal_seed_exists(seed: u32, seeds_15bit: bool) -> (minimal: u32)
    ensures
        minimal <= seed,
        is_minimal_seed(minimal, seeds_15bit),
        first_state_word(minimal, seeds_15bit) == first_state_word(seed, seeds_15bit),
    decreases seed,
{
    if is_minimal_seed(seed, seeds_15bit) {
        seed
    } else {
        let smaller = choose|smaller: u32|
            smaller < seed && #[trigger] first_state_word(smaller, seeds_15bit) == first_state_word(
                seed,
                seeds_15bit,
            );
        lemma_minimal_seed_exists(smaller, seeds_15bit)
    }
}

impl RNG {
    /// The seeds to try in place of all 2^32: for every first state word that some
    /// seed gives, the smallest seed that gives it, in rising order.
    pub fn calculate_unique_seeds(seeds_15bit: bool, seeds_signed: bool) -> (seeds: Vec<u32>)
        ensures
            seeds@.len() == unique_state_count(seeds_15bit),
            lists_minimal_seeds(seeds@, 0x1_0000_0000, seeds_15bit),
            forall|i: int, j: int|
                0 <= i < j < seeds@.len() ==> first_state_word(seeds@[i], seeds_15bit)
                    != first_state_word(seeds@[j], seeds_15bit),
            forall|seed: u32|
                exists|i: int|
                    0 <= i < seeds@.len() && first_state_word(seeds@[i], seeds_15bit)
                        == #[trigger] first_state_word(seed, seeds_15bit),
    {
        broadcast use group_hash_axioms;

        let unique_state_count: usize = if seeds_15bit {
            32768
        } else {
            65536
        };
        let mut unique_seeds_list: Vec<u32> = Vec::with_capacity(unique_state_count);
        let mut unique_states: HashSet<u32> = HashSet::with_capacity(unique_state_count);
        let mut curr_seed: u32 = 0;
        assert(seen_words(0, seeds_15bit) =~= Set::<u32>::empty());
        while unique_states.len() < unique_state_count
            invariant
                unique_state_count == self::unique_state_count(seeds_15bit),
                unique_states@ == seen_words(curr_seed as int, seeds_15bit),
                unique_states@.finite(),
                unique_seeds_list@.len() == unique_states@.len(),
                lists_minimal_seeds(unique_seeds_list@, curr_seed as int, seeds_15bit),
            decreases 0xffff_ffff - curr_seed,
        {
            proof {
                lemma_seeds_left(curr_seed as int, seeds_15bit);
                lemma_seen_next(curr_seed, seeds_15bit);
            }
            let state: u32 = if seeds_15bit {
                step_15bit(curr_seed)
            } else {
                let signed_seed: i32 = #[verifier::truncate] (curr_seed as i32);
                assert(signed_seed as u32 == curr_seed) by (bit_vector)
                    requires
                        signed_seed == curr_seed as i32,
                ;
                step_signed(signed_seed) as u32
            };
            let ghost before = unique_seeds_list@;
            if unique_states.insert(state) {
                unique_seeds_list.push(curr_seed);
                proof {
                    let after = unique_seeds_list@;
                    assert forall|seed: u32| after.contains(seed) <==> (seed as int) < curr_seed
                        + 1 && is_minimal_seed(seed, seeds_15bit) by {
                        if after.contains(seed) {
                            let i = choose|i: int| 0 <= i < after.len() && after[i] == seed;
                            if i < before.len() {
                                assert(before[i] == seed);
                                assert(before.contains(seed));
                            }
                        }
                        if (seed as int) < curr_seed + 1 && is_minimal_seed(seed, seeds_15bit) {
                            if seed == curr_seed {
                                assert(after[before.len() as int] == seed);
                            } else {
                                assert(before.contains(seed));
                                let i = choose|i: int| 0 <= i < before.len() && before[i] == seed;
                                assert(after[i] == seed);
                            }
                        }
                    }
                    assert forall|i: int, j: int| 0 <= i < j < after.len() implies after[i]
                        < after[j] by {
                        if j == before.len() {
                            assert(before.contains(before[i]));
                        }
                    }
                }
            }
            curr_seed += 1;
        }
        proof {
            let seeds = unique_seeds_list@;
            lemma_all_seen(curr_seed as int, seeds_15bit, 0xffff_ffff);
            assert forall|seed: u32| seeds.contains(seed) <==> is_minimal_seed(
                seed,
                seeds_15bit,
            ) by {
                if seed >= curr_seed {
                    lemma_all_seen(curr_seed as int, seeds_15bit, seed);
                }
            }
            assert forall|i: int, j: int| 0 <= i < j < seeds.len() implies first_state_word(
                seeds[i],
                seeds_15bit,
            ) != first_state_word(seeds[j], seeds_15bit) by {
                assert(seeds.contains(seeds[i]));
                assert(seeds.contains(seeds[j]));
            }
            assert forall|seed: u32|
                exists|i: int|
                    0 <= i < seeds.len() && first_state_word(seeds[i], seeds_15bit)
                        == #[trigger] first_state_word(seed, seeds_15bit) by {
                let minimal = lemma_minimal_seed_exists(seed, seeds_15bit);
                assert(seeds.contains(minimal));
                let i = choose|i: int| 0 <= i < seeds.len() && seeds[i] == minimal;
                assert(first_state_word(seeds[i], seeds_15bit) == first_state_word(
                    seed,
                    seeds_15bit,
                ));
            }
        }
        unique_seeds_list
    }
}

} // verus!
