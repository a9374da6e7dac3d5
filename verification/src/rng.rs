//! The generator core: a sixteen-word shift-register generator seeded through a
//! linear congruential recurrence, its precomputed output sequences and the
//! cursor that reads them back.

use vstd::prelude::*;

verus! {

/// Number of 32-bit words in the generator's shift register.
pub const RNG_STATE_SIZE: usize = 16;

/// Feedback polynomial of current generators.
pub const RANDOM_POLY: u32 = 0xda442d24;

/// Feedback polynomial of legacy generators.
pub const RANDOM_POLY_OLD: u32 = 0xda442d20;

/// One step of the linear congruential recurrence on 32-bit words:
/// `seed * 0x343fd + 0x269ec3`, reduced modulo 2^32.
pub open spec fn lcg_raw(seed: u32) -> u32 {
    ((seed as int * 0x343fd + 0x269ec3) % 0x1_0000_0000) as u32
}

/// The word derived from `seed` in 15-bit mode: bits 16 to 30 of the recurrence.
pub open spec fn lcg_15bit(seed: u32) -> u32 {
    (lcg_raw(seed) / 0x1_0000) % 0x8000
}

/// The word derived from `seed` in signed mode. The recurrence is read as a signed
/// 32-bit value, shifted right arithmetically by 16 and masked to 31 bits: a value
/// with the top bit clear gives its upper half, one with the top bit set gives its
/// upper half with bits 16 to 30 filled by the sign.
pub open spec fn lcg_signed(seed: u32) -> u32 {
    let upper = lcg_raw(seed) / 0x1_0000;
    if upper >= 0x8000 {
        (upper + 0x7fff_0000) as u32
    } else {
        upper
    }
}

/// The word derived from `seed` by the unsigned variant: the upper half of the
/// recurrence, with no sign fill and no mask.
pub open spec fn lcg_unsigned(seed: u32) -> u32 {
    lcg_raw(seed) / 0x1_0000
}

/// The first state word that a seed gives. The signed and the default mode derive
/// it in the same way.
pub open spec fn first_state_word(seed: u32, seeds_15bit: bool) -> u32 {
    if seeds_15bit {
        lcg_15bit(seed)
    } else {
        lcg_signed(seed)
    }
}

/// State word `i` of a generator seeded with `seed`. In 15-bit and in signed mode
/// every word comes from the one before it by the mode's own step. In the default
/// mode only the first word is derived by the signed step; the others follow by the
/// unsigned one.
pub open spec fn seed_word(seed: u32, seeds_15bit: bool, seeds_signed: bool, i: nat) -> u32
    decreases i,
{
    if i == 0 {
        first_state_word(seed, seeds_15bit)
    } else {
        let prev = seed_word(seed, seeds_15bit, seeds_signed, (i - 1) as nat);
        if seeds_15bit {
            lcg_15bit(prev)
        } else if seeds_signed {
            lcg_signed(prev)
        } else {
            lcg_unsigned(prev)
        }
    }
}

/// The mathematical state of a generator.
pub struct GeneratorState {
    /// The feedback polynomial, fixed at construction.
    pub polynomial: u32,
    /// The rotating index into `words`.
    pub index: int,
    /// The sixteen words of the shift register.
    pub words: Seq<u32>,
}

impl GeneratorState {
    /// The index is in range, the register has its sixteen words, and the polynomial
    /// is one of the two that generators have.
    pub open spec fn wf(self) -> bool {
        &&& 0 <= self.index < 16
        &&& self.words.len() == 16
        &&& self.polynomial == RANDOM_POLY || self.polynomial == RANDOM_POLY_OLD
    }

    /// The state after one draw, and the value drawn.
    pub open spec fn step(self) -> (GeneratorState, u32) {
        let a = self.words[self.index];
        let b = self.words[(self.index + 13) % 16];
        let c = a ^ b ^ (a << 16u32) ^ (b << 15u32);
        let b9 = self.words[(self.index + 9) % 16];
        let b2 = b9 ^ (b9 >> 11u32);
        let a2 = c ^ b2;
        let d = a2 ^ ((a2 << 5u32) & self.polynomial);
        let index2 = (self.index + 15) % 16;
        let words2 = self.words.update(self.index, a2);
        let a3 = words2[index2];
        let out = a3 ^ c ^ d ^ (a3 << 2u32) ^ (c << 18u32) ^ (b2 << 28u32);
        (
            GeneratorState {
                polynomial: self.polynomial,
                index: index2,
                words: words2.update(index2, out),
            },
            out,
        )
    }

    /// The state after `n` draws.
    pub open spec fn advance(self, n: nat) -> GeneratorState
        decreases n,
    {
        if n == 0 {
            self
        } else {
            self.advance((n - 1) as nat).step().0
        }
    }

    /// The value of draw number `i`, counted from zero: the last of `i + 1` draws.
    pub open spec fn output_at(self, i: nat) -> u32 {
        self.advance(i).step().1
    }

    /// The first `n` values drawn, in order.
    pub open spec fn outputs(self, n: nat) -> Seq<u32> {
        Seq::new(n, |i: int| self.output_at(i as nat))
    }
}

/// The state of a freshly seeded generator.
pub open spec fn initial_state(
    seed: u32,
    seeds_15bit: bool,
    seeds_signed: bool,
    use_old_random_poly: bool,
) -> GeneratorState {
    GeneratorState {
        polynomial: if use_old_random_poly {
            RANDOM_POLY_OLD
        } else {
            RANDOM_POLY
        },
        index: 0,
        words: Seq::new(16, |i: int| seed_word(seed, seeds_15bit, seeds_signed, i as nat)),
    }
}

/// A step keeps a state well formed.
pub proof fn lemma_step_wf(s: GeneratorState)
    requires
        s.wf(),
    ensures
        s.step().0.wf(),
        s.step().0.polynomial == s.polynomial,
{
}

/// Any number of steps keeps a state well formed.
pub proof fn lemma_advance_wf(s: GeneratorState, n: nat)
    requires
        s.wf(),
    ensures
        s.advance(n).wf(),
        s.advance(n).polynomial == s.polynomial,
    decreases n,
{
    if n > 0 {
        lemma_advance_wf(s, (n - 1) as nat);
        lemma_step_wf(s.advance((n - 1) as nat));
    }
}

/// Advancing by `a` and then by `b` draws is advancing by `a + b`.
pub proof fn lemma_advance_add(s: GeneratorState, a: nat, b: nat)
    ensures
        s.advance(a).advance(b) == s.advance(a + b),
    decreases b,
{
    if b > 0 {
        lemma_advance_add(s, a, (b - 1) as nat);
        assert(s.advance(a + b) == s.advance((a + b - 1) as nat).step().0);
    }
}

/// Draw `i` of a state that was advanced by `a` is draw `a + i` of the state itself.
pub proof fn lemma_output_after_advance(s: GeneratorState, a: nat, i: nat)
    ensures
        s.advance(a).output_at(i) == s.output_at(a + i),
{
    lemma_advance_add(s, a, i);
}

/// A source of generator outputs that is read strictly forward.
pub trait LinearRNG: Sized {
    /// The value that the draw after `i` further draws returns.
    spec fn upcoming(&self, i: nat) -> u32;

    /// Whether `n` more values can be drawn.
    spec fn can_draw(&self, n: nat) -> bool;

    /// Whether the source can be moved `n` draws forward without reading them.
    spec fn can_skip(&self, n: nat) -> bool;

    /// Whether a value can be drawn.
    fn has_next(&self) -> (available: bool)
        ensures
            available == self.can_draw(1),
    ;

    /// Whether the source can be moved `amount` draws forward.
    fn can_skip_by(&self, amount: usize) -> (possible: bool)
        ensures
            possible == self.can_skip(amount as nat),
    ;

    /// Draws the next value.
    fn next_u32(&mut self) -> (value: u32)
        requires
            old(self).can_draw(1),
        ensures
            value == old(self).upcoming(0),
            forall|i: nat| #[trigger] final(self).upcoming(i) == old(self).upcoming(i + 1),
            forall|n: nat| #[trigger] final(self).can_draw(n) == old(self).can_draw(n + 1),
            forall|n: nat| #[trigger] final(self).can_skip(n) == old(self).can_skip(n + 1),
    ;

    /// Moves `amount` draws forward.
    fn skip(&mut self, amount: usize)
        requires
            old(self).can_skip(amount as nat),
        ensures
            forall|i: nat| #[trigger] final(self).upcoming(i) == old(self).upcoming(i + amount as nat),
            forall|n: nat| #[trigger] final(self).can_draw(n) == old(self).can_draw(n + amount as nat),
            forall|n: nat| #[trigger] final(self).can_skip(n) == old(self).can_skip(n + amount as nat),
    ;
}

/// The generator: sixteen state words, a rotating index and the feedback polynomial.
pub struct RNG {
    random_poly: u32,
    index: usize,
    state: [u32; 16],
}

impl View for RNG {
    type V = GeneratorState;

    closed spec fn view(&self) -> GeneratorState {
        GeneratorState {
            polynomial: self.random_poly,
            index: self.index as int,
            words: self.state@,
        }
    }
}

impl Clone for RNG {
    fn clone(&self) -> (copy: Self)
        ensures
            copy@ == self@,
    {
        proof {
            use_type_invariant(self);
        }
        RNG { random_poly: self.random_poly, index: self.index, state: self.state }
    }
}

/// The recurrence on unsigned words, as the 15-bit mode applies it.
pub(crate) fn step_15bit(seed: u32) -> (word: u32)
    ensures
        word == lcg_15bit(seed),
{
    let product = seed.wrapping_mul(0x343fd);
    let raw = product.wrapping_add(0x269ec3);
    assert(raw == lcg_raw(seed)) by (nonlinear_arith)
        requires
            product == ((seed as nat * 0x343fd as nat) % 0x1_0000_0000 as nat) as u32,
            raw == (if product + 0x269ec3 > u32::MAX {
                (product + 0x269ec3 - 0x1_0000_0000) as u32
            } else {
                (product + 0x269ec3) as u32
            }),
    ;
    let word = (raw >> 16) & 0x7fff;
    assert((raw >> 16u32) & 0x7fff == (raw / 0x1_0000) % 0x8000) by (bit_vector);
    word
}

/// The recurrence on signed words, before the shift: the same bits as `lcg_raw`.
fn step_raw_signed(seed: i32) -> (raw: i32)
    ensures
        raw as u32 == lcg_raw(seed as u32),
{
    let product = seed.wrapping_mul(0x343fd);
    let raw = product.wrapping_add(0x269ec3);
    let ghost useed = seed as u32;
    let ghost uraw = raw as u32;
    assert(useed as int == seed as int || useed as int == seed as int + 0x1_0000_0000)
        by (bit_vector)
        requires
            useed == seed as u32,
    ;
    assert(uraw as int == raw as int || uraw as int == raw as int + 0x1_0000_0000)
        by (bit_vector)
        requires
            uraw == raw as u32,
    ;
    assert(uraw == lcg_raw(useed)) by (nonlinear_arith)
        requires
            useed as int == seed as int || useed as int == seed as int + 0x1_0000_0000,
            uraw as int == raw as int || uraw as int == raw as int + 0x1_0000_0000,
            product == vstd::wrapping::i32_specs::signed_crop(seed * 0x343fd),
            raw == vstd::wrapping::i32_specs::wrapping_add(product, 0x269ec3),
    ;
    raw
}

/// The recurrence as the signed mode applies it.
pub(crate) fn step_signed(seed: i32) -> (word: i32)
    ensures
        word as u32 == lcg_signed(seed as u32),
        0 <= word,
{
    let raw = step_raw_signed(seed);
    let word = (raw >> 16) & 0x7fff_ffff;
    let ghost uraw = raw as u32;
    assert({
        let upper = uraw / 0x1_0000;
        &&& 0 <= word
        &&& word as u32 == (if upper >= 0x8000 {
            (upper + 0x7fff_0000) as u32
        } else {
            upper
        })
    }) by (bit_vector)
        requires
            uraw == raw as u32,
            word == (raw >> 16u32) & 0x7fff_ffff,
    ;
    word
}

/// The recurrence as the default mode applies it after the first word.
fn step_unsigned(seed: i32) -> (word: i32)
    ensures
        word as u32 == lcg_unsigned(seed as u32),
        0 <= word,
{
    let raw = step_raw_signed(seed);
    let upper = (#[verifier::truncate] (raw as u32)) >> 16;
    assert(upper == (raw as u32) / 0x1_0000 && upper < 0x1_0000) by (bit_vector)
        requires
            upper == (raw as u32) >> 16u32,
    ;
    let word = upper as i32;
    assert(word as u32 == upper) by (bit_vector)
        requires
            upper < 0x1_0000,
            word == upper as i32,
    ;
    word
}

impl RNG {
    #[verifier::type_invariant]
    spec fn inv(&self) -> bool {
        &&& self.index < 16
        &&& self.random_poly == RANDOM_POLY || self.random_poly == RANDOM_POLY_OLD
    }

    /// Seeds a generator. `seeds_15bit` selects the 15-bit mode and wins over
    /// `seeds_signed`, which selects the signed mode; with neither, the default mode
    /// applies. `use_old_random_poly` selects the legacy feedback polynomial.
    pub fn new(seed: u32, seeds_15bit: bool, seeds_signed: bool, use_old_random_poly: bool) -> (rng:
        RNG)
        ensures
            rng@ == initial_state(seed, seeds_15bit, seeds_signed, use_old_random_poly),
            rng@.wf(),
    {
        let mut state: [u32; 16] = [0;16];
        if seeds_15bit {
            let mut curr: u32 = seed;
            for i in 0..RNG_STATE_SIZE
                invariant
                    seeds_15bit,
                    forall|j: int|
                        0 <= j < i ==> state@[j] == #[trigger] seed_word(
                            seed,
                            seeds_15bit,
                            seeds_signed,
                            j as nat,
                        ),
                    i == 0 ==> curr == seed,
                    i > 0 ==> curr == seed_word(seed, seeds_15bit, seeds_signed, (i - 1) as nat),
            {
                curr = step_15bit(curr);
                state[i] = curr;
            }
        } else if seeds_signed {
            let mut curr: i32 = #[verifier::truncate] (seed as i32);
            assert(curr as u32 == seed) by (bit_vector)
                requires
                    curr == seed as i32,
            ;
            for i in 0..RNG_STATE_SIZE
                invariant
                    !seeds_15bit,
                    seeds_signed,
                    forall|j: int|
                        0 <= j < i ==> state@[j] == #[trigger] seed_word(
                            seed,
                            seeds_15bit,
                            seeds_signed,
                            j as nat,
                        ),
                    i == 0 ==> curr as u32 == seed,
                    i > 0 ==> curr as u32 == seed_word(
                        seed,
                        seeds_15bit,
                        seeds_signed,
                        (i - 1) as nat,
                    ),
            {
                curr = step_signed(curr);
                state[i] = curr as u32;
            }
        } else {
            let mut curr: i32 = #[verifier::truncate] (seed as i32);
            assert(curr as u32 == seed) by (bit_vector)
                requires
                    curr == seed as i32,
            ;
            curr = step_signed(curr);
            state[0] = curr as u32;
            for i in 1..RNG_STATE_SIZE
                invariant
                    !seeds_15bit,
                    !seeds_signed,
                    forall|j: int|
                        0 <= j < i ==> state@[j] == #[trigger] seed_word(
                            seed,
                            seeds_15bit,
                            seeds_signed,
                            j as nat,
                        ),
                    0 <= curr,
                    curr as u32 == seed_word(seed, seeds_15bit, seeds_signed, (i - 1) as nat),
            {
                curr = step_unsigned(curr);
                state[i] = curr as u32;
            }
        }
        assert(state@ =~= initial_state(
            seed,
            seeds_15bit,
            seeds_signed,
            use_old_random_poly,
        ).words);
        let rng = RNG {
            random_poly: if use_old_random_poly {
                RANDOM_POLY_OLD
            } else {
                RANDOM_POLY
            },
            index: 0,
            state,
        };
        rng
    }

    /// Draws `num` values and returns them as a precomputed sequence.
    pub fn precompute(&mut self, num: usize) -> (sequence: PrecomputedRNG)
        ensures
            sequence@ == old(self)@.outputs(num as nat),
            sequence.source() == old(self)@,
            final(self)@ == old(self)@.advance(num as nat),
            final(self)@.wf(),
    {
        proof {
            use_type_invariant(&*self);
        }
        let ghost start = self@;
        let mut values: Vec<u32> = Vec::with_capacity(num);
        for i in 0..num
            invariant
                self@ == start.advance(i as nat),
                self@.wf(),
                values@.len() == i,
                forall|j: int| 0 <= j < i ==> values@[j] == start.output_at(j as nat),
        {
            let value = self.next_u32();
            values.push(value);
        }
        assert(values@ =~= start.outputs(num as nat));
        PrecomputedRNG { values, source: Ghost(start) }
    }
}

impl LinearRNG for RNG {
    open spec fn upcoming(&self, i: nat) -> u32 {
        self@.output_at(i)
    }

    open spec fn can_draw(&self, n: nat) -> bool {
        true
    }

    open spec fn can_skip(&self, n: nat) -> bool {
        true
    }

    fn has_next(&self) -> (available: bool) {
        true
    }

    fn can_skip_by(&self, amount: usize) -> (possible: bool) {
        true
    }

    fn next_u32(&mut self) -> (value: u32)
        ensures
            value == old(self)@.step().1,
            final(self)@ == old(self)@.step().0,
            final(self)@.wf(),
    {
        proof {
            use_type_invariant(&*self);
        }
        let index = self.index;
        let index13 = (index + 13) & 15;
        let index9 = (index + 9) & 15;
        let index15 = (index + 15) & 15;
        assert(index13 == (index + 13) % 16 && index9 == (index + 9) % 16 && index15 == (index
            + 15) % 16) by (bit_vector)
            requires
                index < 16,
                index13 == ((index + 13) as usize) & 15,
                index9 == ((index + 9) as usize) & 15,
                index15 == ((index + 15) as usize) & 15,
        ;
        let mut a: u32 = self.state[index];
        let mut b: u32 = self.state[index13];
        let c: u32 = a ^ b ^ (a << 16) ^ (b << 15);
        b = self.state[index9];
        b ^= b >> 11;
        a = c ^ b;
        self.state[index] = a;
        let d: u32 = a ^ ((a << 5) & self.random_poly);
        self.index = index15;
        a = self.state[index15];
        let value = a ^ c ^ d ^ (a << 2) ^ (c << 18) ^ (b << 28);
        self.state[index15] = value;
        proof {
            let ghost before = old(self)@;
            assert(self@.words =~= before.step().0.words);
            lemma_output_after_advance(before, 1, 0);
            assert forall|i: nat| #[trigger] self.upcoming(i) == old(self).upcoming(i + 1) by {
                lemma_output_after_advance(before, 1, i);
                assert(before.advance(1) == before.advance(0).step().0);
            }
        }
        value
    }

    fn skip(&mut self, amount: usize)
        ensures
            final(self)@ == old(self)@.advance(amount as nat),
            final(self)@.wf(),
    {
        proof {
            use_type_invariant(&*self);
        }
        let ghost start = self@;
        for i in 0..amount
            invariant
                self@ == start.advance(i as nat),
                self@.wf(),
        {
            let _ = self.next_u32();
        }
        proof {
            assert forall|i: nat| #[trigger]
                self.upcoming(i) == old(self).upcoming(i + amount as nat) by {
                lemma_output_after_advance(start, amount as nat, i);
            }
        }
    }
}

/// An immutable sequence of generator outputs, drawn once from one generator.
pub struct PrecomputedRNG {
    values: Vec<u32>,
    source: Ghost<GeneratorState>,
}

impl View for PrecomputedRNG {
    type V = Seq<u32>;

    closed spec fn view(&self) -> Seq<u32> {
        self.values@
    }
}

impl PrecomputedRNG {
    #[verifier::type_invariant]
    spec fn inv(&self) -> bool {
        self.values@ == self.source@.outputs(self.values@.len())
    }

    /// The state of the generator that the sequence was drawn from.
    pub closed spec fn source(&self) -> GeneratorState {
        self.source@
    }

    /// The value at `position`: draw number `position` of the source generator.
    pub fn get_u32(&self, position: usize) -> (value: u32)
        requires
            position < self@.len(),
        ensures
            value == self@[position as int],
            value == self.source().output_at(position as nat),
    {
        proof {
            use_type_invariant(self);
        }
        self.values[position]
    }

    /// The whole part of `value * range / 2^32`: a value read as a fraction of 2^32,
    /// scaled by a whole `range` and rounded down.
    pub open spec fn scaled_floor(value: u32, range: u32) -> u32 {
        ((value as int * range as int) / 0x1_0000_0000) as u32
    }

    /// The value at `position`, scaled by `range` and rounded down.
    pub fn get_scaled_floor(&self, range: u32, position: usize) -> (scaled: u32)
        requires
            position < self@.len(),
        ensures
            scaled == Self::scaled_floor(self@[position as int], range),
            range > 0 ==> scaled < range,
            range == 0 ==> scaled == 0,
    {
        let value = self.get_u32(position);
        assert(value as int * range as int <= 0xffff_ffff * 0xffff_ffff) by (nonlinear_arith)
            requires
                0 <= value <= 0xffff_ffff,
                0 <= range <= 0xffff_ffff,
        ;
        let product: u64 = (value as u64) * (range as u64);
        let upper: u64 = product >> 32;
        assert(upper == product / 0x1_0000_0000) by (bit_vector)
            requires
                upper == product >> 32u64,
        ;
        assert((product / 0x1_0000_0000 < range || range == 0) && (range == 0 ==> product == 0))
            by (nonlinear_arith)
            requires
                product == value as int * range as int,
                value < 0x1_0000_0000,
        ;
        let scaled = upper as u32;
        scaled
    }

    /// The whole sequence.
    pub fn raw(&self) -> (values: &Vec<u32>)
        ensures
            values@ == self@,
            values@ == self.source().outputs(self@.len()),
    {
        proof {
            use_type_invariant(self);
        }
        &self.values
    }
}

/// A cursor that reads a precomputed sequence forward from a position.
pub struct LinearPrecomputedRNG<'a> {
    precomputed_rng: &'a PrecomputedRNG,
    position: usize,
}

impl<'a> Clone for LinearPrecomputedRNG<'a> {
    fn clone(&self) -> (copy: Self)
        ensures
            copy == *self,
    {
        LinearPrecomputedRNG { precomputed_rng: self.precomputed_rng, position: self.position }
    }
}

impl<'a> LinearPrecomputedRNG<'a> {
    /// A cursor on `precomputed_rng` whose next draw reads `position`.
    pub fn new(precomputed_rng: &'a PrecomputedRNG, position: usize) -> (cursor:
        LinearPrecomputedRNG<'a>)
        ensures
            cursor.sequence() == precomputed_rng@,
            cursor.source() == precomputed_rng.source(),
            cursor.position() == position,
            cursor.sequence() == cursor.source().outputs(cursor.sequence().len()),
    {
        let _ = precomputed_rng.raw();
        LinearPrecomputedRNG { precomputed_rng, position }
    }

    /// The sequence that the cursor reads.
    pub closed spec fn sequence(&self) -> Seq<u32> {
        self.precomputed_rng@
    }

    /// The state of the generator that the sequence was drawn from.
    pub closed spec fn source(&self) -> GeneratorState {
        self.precomputed_rng.source()
    }

    /// The position that the next draw reads.
    pub closed spec fn position(&self) -> nat {
        self.position as nat
    }

    /// The position that the next draw reads.
    pub fn get_position(&self) -> (position: usize)
        ensures
            position == self.position(),
    {
        self.position
    }
}

impl<'a> LinearRNG for LinearPrecomputedRNG<'a> {
    open spec fn upcoming(&self, i: nat) -> u32 {
        self.source().output_at(self.position() + i)
    }

    open spec fn can_draw(&self, n: nat) -> bool {
        self.position() + n <= self.sequence().len()
    }

    open spec fn can_skip(&self, n: nat) -> bool {
        self.position() + n <= usize::MAX
    }

    fn has_next(&self) -> (available: bool) {
        self.position < self.precomputed_rng.raw().len()
    }

    fn can_skip_by(&self, amount: usize) -> (possible: bool) {
        amount <= usize::MAX - self.position
    }

    fn next_u32(&mut self) -> (value: u32)
        ensures
            value == old(self).sequence()[old(self).position() as int],
            final(self).position() == old(self).position() + 1,
            final(self).sequence() == old(self).sequence(),
            final(self).source() == old(self).source(),
    {
        let value = self.precomputed_rng.get_u32(self.position);
        assert(self.position < self.precomputed_rng.values.len());
        self.position += 1;
        value
    }

    fn skip(&mut self, amount: usize)
        ensures
            final(self).position() == old(self).position() + amount,
            final(self).sequence() == old(self).sequence(),
            final(self).source() == old(self).source(),
    {
        self.position += amount;
    }
}


/// Two generators seeded with the same seed, in the same mode and with the same
/// polynomial draw the same values: their first sixteen, and as many more as wanted.
pub proof fn lemma_replay_deterministic(
    first: RNG,
    second: RNG,
    seed: u32,
    seeds_15bit: bool,
    seeds_signed: bool,
    use_old_random_poly: bool,
    n: nat,
)
    requires
        first@ == initial_state(seed, seeds_15bit, seeds_signed, use_old_random_poly),
        second@ == initial_state(seed, seeds_15bit, seeds_signed, use_old_random_poly),
    ensures
        first@.outputs(16) == second@.outputs(16),
        first@.outputs(n) == second@.outputs(n),
        first@.advance(n) == second@.advance(n),
{
}

/// Position `i` of a sequence of `n` precomputed values holds what the last of
/// `i + 1` draws from the same state returns.
pub proof fn lemma_precomputed_is_sequential(state: GeneratorState, n: nat, i: nat)
    requires
        i < n,
    ensures
        state.outputs(n).len() == n,
        state.outputs(n)[i as int] == state.advance(i).step().1,
        state.outputs(n)[i as int] == state.output_at(i),
{
}

/// A longer precomputed sequence starts with every shorter one from the same state.
pub proof fn lemma_outputs_prefix(state: GeneratorState, shorter: nat, longer: nat)
    requires
        shorter <= longer,
    ensures
        state.outputs(longer).subrange(0, shorter as int) == state.outputs(shorter),
{
    assert(state.outputs(longer).subrange(0, shorter as int) =~= state.outputs(shorter));
}

/// Reading a sequence from position `p` gives what a generator draws after `p`
/// draws: value `p + i` of the sequence is draw `i` of the advanced state.
pub proof fn lemma_cursor_matches_generator(state: GeneratorState, n: nat, p: nat, i: nat)
    requires
        p + i < n,
    ensures
        state.outputs(n)[(p + i) as int] == state.advance(p).output_at(i),
{
    lemma_output_after_advance(state, p, i);
}

} // verus!
