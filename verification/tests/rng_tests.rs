use dust_manip::rng::{LinearPrecomputedRNG, LinearRNG, RNG};

fn draws(seed: u32, m15: bool, ms: bool, old: bool, n: usize) -> Vec<u32> {
    let mut rng = RNG::new(seed, m15, ms, old);
    (0..n).map(|_| rng.next_u32()).collect()
}

#[test]
fn generator_replays_identically() {
    for &(m15, ms) in &[(true, false), (false, true), (false, false)] {
        for &seed in &[0u32, 1, 12345, 0x8000_0000, 0xffff_ffff] {
            for &old in &[false, true] {
                assert_eq!(draws(seed, m15, ms, old, 16), draws(seed, m15, ms, old, 16));
            }
        }
    }
}

#[test]
fn default_mode_known_values() {
    assert_eq!(
        draws(0, false, false, false, 8),
        vec![3473694700, 3873705934, 1301109006, 3997463045, 2359719656, 1407885186, 2011538702, 2704849725]
    );
    assert_eq!(
        draws(12345, false, false, false, 8),
        vec![2388659064, 3629959730, 991367868, 1503998454, 3950007018, 2286949405, 2193092512, 3749579187]
    );
}

#[test]
fn fifteen_bit_mode_known_values() {
    assert_eq!(
        draws(12345, true, false, false, 8),
        vec![3527472578, 1874148488, 3885052726, 1091570812, 4129870459, 3228062243, 1802299158, 3138703388]
    );
}

#[test]
fn fifteen_bit_mode_wins_over_signed() {
    assert_eq!(draws(12345, true, true, false, 8), draws(12345, true, false, false, 8));
}

#[test]
fn signed_mode_known_values() {
    assert_eq!(
        draws(12345, false, true, false, 8),
        vec![1715860630, 540338984, 2181573377, 2053762291, 1826726686, 179941711, 2790819496, 3290034816]
    );
}

#[test]
fn legacy_polynomial_known_values() {
    assert_eq!(
        draws(0xdeadbeef, false, true, true, 8),
        vec![3046130610, 43008052, 3121668586, 3889526631, 3022018140, 5595459, 66350588, 1962496819]
    );
    assert_eq!(
        draws(0xffff_ffff, true, false, true, 8),
        vec![589101529, 1826095846, 145776647, 2531842098, 355489507, 3501986474, 1365078128, 1006401098]
    );
    assert_eq!(
        draws(1, false, false, true, 8),
        vec![2919988226, 2546849733, 2232964317, 3524868171, 3653090644, 2168842126, 4254708313, 3461507129]
    );
}

#[test]
fn default_and_signed_modes_differ_after_the_first_word() {
    assert_ne!(draws(12345, false, false, false, 4), draws(12345, false, true, false, 4));
}

#[test]
fn precompute_equals_sequential_draws() {
    for &n in &[0usize, 1, 2, 17, 100] {
        let mut rng = RNG::new(777, false, true, false);
        let sequence = rng.precompute(n);
        assert_eq!(sequence.raw().len(), n);
        for i in 0..n {
            let mut fresh = RNG::new(777, false, true, false);
            let mut last = 0;
            for _ in 0..(i + 1) {
                last = fresh.next_u32();
            }
            assert_eq!(sequence.get_u32(i), last);
        }
    }
}

#[test]
fn precompute_advances_the_generator() {
    let mut a = RNG::new(5, true, false, false);
    let mut b = RNG::new(5, true, false, false);
    let _ = a.precompute(10);
    b.skip(10);
    assert_eq!(a.next_u32(), b.next_u32());
}

#[test]
fn skip_equals_drawing() {
    let mut a = RNG::new(99, false, false, false);
    let mut b = RNG::new(99, false, false, false);
    a.skip(37);
    for _ in 0..37 {
        b.next_u32();
    }
    assert_eq!(a.next_u32(), b.next_u32());
    a.skip(0);
    assert_eq!(a.next_u32(), b.next_u32());
}

#[test]
fn clone_continues_the_same_stream() {
    let mut a = RNG::new(4242, false, true, true);
    a.skip(5);
    let mut b = a.clone();
    for _ in 0..20 {
        assert_eq!(a.next_u32(), b.next_u32());
    }
}

#[test]
fn cursor_reads_forward_from_its_position() {
    let mut rng = RNG::new(12345, false, false, false);
    let sequence = rng.precompute(8);
    let mut cursor = LinearPrecomputedRNG::new(&sequence, 2);
    assert_eq!(cursor.next_u32(), 991367868);
    assert_eq!(cursor.next_u32(), 1503998454);
    cursor.skip(2);
    assert_eq!(cursor.next_u32(), 2193092512);
    let mut copy = cursor.clone();
    assert_eq!(copy.next_u32(), 3749579187);
    assert_eq!(cursor.next_u32(), 3749579187);
}

#[test]
fn cursor_matches_an_advanced_generator() {
    let mut rng = RNG::new(31337, true, false, false);
    let sequence = rng.precompute(64);
    let mut generator = RNG::new(31337, true, false, false);
    generator.skip(20);
    let mut cursor = LinearPrecomputedRNG::new(&sequence, 20);
    for _ in 0..44 {
        assert_eq!(cursor.next_u32(), generator.next_u32());
    }
}

#[test]
fn scaled_floor_matches_the_fraction() {
    let mut rng = RNG::new(12345, false, false, false);
    let sequence = rng.precompute(64);
    for position in 0..64 {
        let value = sequence.get_u32(position);
        for &range in &[0u32, 1, 4, 15, 1000, u32::MAX] {
            let expected = ((value as u64 * range as u64) >> 32) as u32;
            assert_eq!(sequence.get_scaled_floor(range, position), expected);
            let as_fraction = (value as f64) * 2.3283064365386963e-10 * (range as f64);
            assert_eq!(sequence.get_scaled_floor(range, position), f64::floor(as_fraction) as u32);
        }
    }
    assert_eq!(sequence.get_scaled_floor(15, 0), 8);
}
