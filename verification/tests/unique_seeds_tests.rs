use dust_manip::rng::{LinearRNG, RNG};
use std::collections::HashSet;

fn first_word(seed: u32, m15: bool) -> u32 {
    let raw = seed.wrapping_mul(0x343fd).wrapping_add(0x269ec3);
    if m15 {
        (raw >> 16) & 0x7fff
    } else {
        (((raw as i32) >> 16) & 0x7fff_ffff) as u32
    }
}

#[test]
fn unique_seeds_of_the_fifteen_bit_mode() {
    let seeds = RNG::calculate_unique_seeds(true, false);
    assert_eq!(seeds.len(), 32768);
    assert_eq!(&seeds[..8], &[0, 1, 2, 3, 4, 5, 6, 7]);
    assert_eq!(&seeds[32764..], &[50148, 50155, 50159, 50163]);
    let words: HashSet<u32> = seeds.iter().map(|&s| first_word(s, true)).collect();
    assert_eq!(words.len(), 32768);
    assert!(seeds.windows(2).all(|w| w[0] < w[1]));
    assert_eq!(seeds.iter().map(|&s| s as u64).sum::<u64>() % 1000000007, 573728646);
}

#[test]
fn unique_seeds_of_the_signed_mode() {
    let seeds = RNG::calculate_unique_seeds(false, true);
    assert_eq!(seeds.len(), 65536);
    assert_eq!(&seeds[65532..], &[80266, 80267, 80270, 80274]);
    let words: HashSet<u32> = seeds.iter().map(|&s| first_word(s, false)).collect();
    assert_eq!(words.len(), 65536);
    assert!(seeds.windows(2).all(|w| w[0] < w[1]));
    assert_eq!(seeds.iter().map(|&s| s as u64).sum::<u64>() % 1000000007, 296170385);
}

#[test]
fn unique_seeds_of_the_default_mode_are_those_of_the_signed_mode() {
    assert_eq!(RNG::calculate_unique_seeds(false, false), RNG::calculate_unique_seeds(false, true));
}

#[test]
fn every_listed_seed_is_the_first_with_its_word() {
    let seeds = RNG::calculate_unique_seeds(true, true);
    let listed: HashSet<u32> = seeds.iter().copied().collect();
    let mut seen = HashSet::new();
    for seed in 0..60000u32 {
        let fresh = seen.insert(first_word(seed, true));
        assert_eq!(fresh, listed.contains(&seed));
    }
}

#[test]
fn first_state_word_is_what_the_generator_starts_from() {
    // Two seeds with the same first state word draw the same values in 15-bit mode.
    let seeds = RNG::calculate_unique_seeds(true, false);
    let listed: HashSet<u32> = seeds.iter().copied().collect();
    let other = (0..60000u32).find(|s| !listed.contains(s)).unwrap();
    let twin = seeds.iter().copied().find(|&s| first_word(s, true) == first_word(other, true)).unwrap();
    assert!(twin < other);
    let mut a = RNG::new(other, true, false, false);
    let mut b = RNG::new(twin, true, false, false);
    for _ in 0..16 {
        assert_eq!(a.next_u32(), b.next_u32());
    }
}
