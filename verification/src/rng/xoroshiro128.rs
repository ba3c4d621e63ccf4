//! Xoroshiro128++: a shift-rotate-xor generator with 128 bits of state. Fast
//! and small; not cryptographic.

use super::linear::{jump_sum, lemma_jump_commutes_with_draws, lemma_jumps_commute, LinearRng};
use super::splitmix64::{lemma_no_two_zeros_in_a_row, SplitMix64};
use super::{nth_output, rotl64, state_after, RngCore};
use vstd::prelude::*;

verus! {

/// The two state words of the generator.
pub type Xoroshiro128State = (u64, u64);

/// The first state word after a draw.
pub open spec fn next_word0(s0: u64, s1: u64) -> u64 {
    let x: u64 = s1 ^ s0;
    rotl64(s0, 49) ^ x ^ (x << 21)
}

/// The second state word after a draw.
pub open spec fn next_word1(s0: u64, s1: u64) -> u64 {
    rotl64(s1 ^ s0, 28)
}

/// The state that a seed expands to: two successive SplitMix64 outputs.
pub open spec fn seeded_state(seed: u64) -> Xoroshiro128State {
    (nth_output::<SplitMix64>(seed, 0), nth_output::<SplitMix64>(seed, 1))
}

/// Coefficients of the polynomial that `jump` applies.
pub open spec fn jump_poly() -> Seq<u64> {
    seq![0xbeac_0467_eba5_facbu64, 0xd86b_048b_86aa_9922u64]
}

/// Coefficients of the polynomial that `long_jump` applies.
pub open spec fn long_jump_poly() -> Seq<u64> {
    seq![0xd2a9_8b26_625e_ee7bu64, 0xdddf_9b10_90aa_7ac1u64]
}

/// The state that `jump` leaves a generator in.
pub open spec fn jumped(state: Xoroshiro128State) -> Xoroshiro128State {
    jump_sum::<Xoroshiro128PlusPlus>(state, jump_poly(), 128)
}

/// The state that `long_jump` leaves a generator in.
pub open spec fn long_jumped(state: Xoroshiro128State) -> Xoroshiro128State {
    jump_sum::<Xoroshiro128PlusPlus>(state, long_jump_poly(), 128)
}

/// The Xoroshiro128++ generator. Its view is the pair of its state words.
#[derive(Debug)]
pub struct Xoroshiro128PlusPlus {
    s0: u64,
    s1: u64,
}

impl View for Xoroshiro128PlusPlus {
    type V = Xoroshiro128State;

    closed spec fn view(&self) -> Xoroshiro128State {
        (self.s0, self.s1)
    }
}

impl Clone for Xoroshiro128PlusPlus {
    /// A second generator in the same state: it will draw the same values.
    fn clone(&self) -> (r: Self)
        ensures
            r@ == self@,
    {
        Self { s0: self.s0, s1: self.s1 }
    }
}

impl Xoroshiro128PlusPlus {
    /// Expands `seed` into 128 bits of state with SplitMix64. The result is
    /// never the all-zero state, which the generator could not leave.
    pub fn seed_from_u64(seed: u64) -> (r: Self)
        ensures
            r@ == seeded_state(seed),
            r@ != (0u64, 0u64),
    {
        let mut sm = SplitMix64::seed_from_u64(seed);
        let mut s0: u64 = sm.next_u64();
        let s1: u64 = sm.next_u64();
        proof {
            reveal_with_fuel(state_after, 2);
            lemma_seeded_state_nonzero(seed);
        }
        // Guard against the all-zero state. SplitMix64 cannot produce it,
        // so the branch is never taken.
        if s0 == 0 && s1 == 0 {
            s0 = 1;
        }
        Self { s0, s1 }
    }

    fn rotl(x: u64, k: u32) -> (r: u64)
        requires
            0 < k < 64,
        ensures
            r == rotl64(x, k),
    {
        (x << k) | (x >> (64 - k))
    }

    /// Exclusive-ors together the states met while drawing 128 times, keeping
    /// those whose bit is set in `poly`, and makes the result the new state.
    /// Every bit of every word is stepped over, set or not.
    fn jump_by(&mut self, poly: &[u64; 2])
        ensures
            final(self)@ == jump_sum::<Self>(old(self)@, poly@, 128),
    {
        let mut t0: u64 = 0;
        let mut t1: u64 = 0;
        let mut w: usize = 0;
        while w < 2
            invariant
                w <= 2,
                self@ == state_after::<Self>(old(self)@, (64 * w) as nat),
                (t0, t1) == jump_sum::<Self>(old(self)@, poly@, (64 * w) as nat),
            decreases 2 - w,
        {
            let word: u64 = poly[w];
            let mut b: u32 = 0;
            while b < 64
                invariant
                    w < 2,
                    b <= 64,
                    word == poly@[w as int],
                    self@ == state_after::<Self>(old(self)@, (64 * w + b) as nat),
                    (t0, t1) == jump_sum::<Self>(old(self)@, poly@, (64 * w + b) as nat),
                decreases 64 - b,
            {
                if (word >> b) & 1 == 1 {
                    t0 ^= self.s0;
                    t1 ^= self.s1;
                }
                let _ = self.next_u64();
                b += 1;
            }
            w += 1;
        }
        self.s0 = t0;
        self.s1 = t1;
    }

    /// Jumps to the start of a separate stream: replaces the state by the
    /// combination of the next 128 states that the jump polynomial selects.
    /// How far along the sequence that is depends on the coefficients alone;
    /// the contract states the combination and claims no distance.
    pub fn jump(&mut self)
        ensures
            final(self)@ == jumped(old(self)@),
    {
        let poly: [u64; 2] = [0xbeac_0467_eba5_facb, 0xd86b_048b_86aa_9922];
        assert(poly@ =~= jump_poly());
        self.jump_by(&poly);
    }

    /// As `jump`, with the long-jump polynomial.
    pub fn long_jump(&mut self)
        ensures
            final(self)@ == long_jumped(old(self)@),
    {
        let poly: [u64; 2] = [0xd2a9_8b26_625e_ee7b, 0xdddf_9b10_90aa_7ac1];
        assert(poly@ =~= long_jump_poly());
        self.jump_by(&poly);
    }
}

impl RngCore for Xoroshiro128PlusPlus {
    open spec fn output(state: Xoroshiro128State) -> u64 {
        rotl64(state.0.wrapping_add(state.1), 17).wrapping_add(state.0)
    }

    open spec fn advance(state: Xoroshiro128State) -> Xoroshiro128State {
        (next_word0(state.0, state.1), next_word1(state.0, state.1))
    }

    fn next_u64(&mut self) -> (r: u64)
        ensures
            old(self)@ != (0u64, 0u64) ==> final(self)@ != (0u64, 0u64),
    {
        proof {
            if old(self)@ != (0u64, 0u64) {
                Self::lemma_advance_keeps_nonzero(old(self)@);
            }
        }
        let s0: u64 = self.s0;
        let mut s1: u64 = self.s1;
        let result: u64 = Self::rotl(s0.wrapping_add(s1), 17).wrapping_add(s0);
        s1 ^= s0;
        self.s0 = Self::rotl(s0, 49) ^ s1 ^ (s1 << 21);
        self.s1 = Self::rotl(s1, 28);
        result
    }
}

impl LinearRng for Xoroshiro128PlusPlus {
    open spec fn zero() -> Xoroshiro128State {
        (0, 0)
    }

    open spec fn xor(a: Xoroshiro128State, b: Xoroshiro128State) -> Xoroshiro128State {
        (a.0 ^ b.0, a.1 ^ b.1)
    }

    proof fn lemma_xor_zero(a: Xoroshiro128State) {
        lemma_xor_words(a.0, 0, 0, 0);
        lemma_xor_words(a.1, 0, 0, 0);
    }

    proof fn lemma_xor_interchange(
        a: Xoroshiro128State,
        b: Xoroshiro128State,
        c: Xoroshiro128State,
        d: Xoroshiro128State,
    ) {
        lemma_xor_words(a.0, b.0, c.0, d.0);
        lemma_xor_words(a.1, b.1, c.1, d.1);
    }

    proof fn lemma_advance_linear(a: Xoroshiro128State, b: Xoroshiro128State) {
        lemma_words_linear(a.0, a.1, b.0, b.1);
    }

    proof fn lemma_zero_is_fixed() {
        lemma_words_of_zero();
    }

    proof fn lemma_advance_keeps_nonzero(state: Xoroshiro128State) {
        if Self::advance(state) == Self::zero() {
            lemma_words_nonzero(state.0, state.1);
        }
    }
}

/// No seed expands to the all-zero state.
pub proof fn lemma_seeded_state_nonzero(seed: u64)
    ensures
        seeded_state(seed) != (0u64, 0u64),
{
    reveal_with_fuel(state_after, 2);
    lemma_no_two_zeros_in_a_row(seed);
}

/// Jumps commute with draws: jumping and then drawing `n` times leaves the
/// generator where drawing `n` times and then jumping leaves it. The stream
/// after a jump is the stream before it, moved by a fixed distance.
pub proof fn lemma_jumps_commute_with_draws(state: Xoroshiro128State, n: nat)
    ensures
        state_after::<Xoroshiro128PlusPlus>(jumped(state), n) == jumped(
            state_after::<Xoroshiro128PlusPlus>(state, n),
        ),
        state_after::<Xoroshiro128PlusPlus>(long_jumped(state), n) == long_jumped(
            state_after::<Xoroshiro128PlusPlus>(state, n),
        ),
{
    lemma_jump_commutes_with_draws::<Xoroshiro128PlusPlus>(state, jump_poly(), 128, n);
    lemma_jump_commutes_with_draws::<Xoroshiro128PlusPlus>(state, long_jump_poly(), 128, n);
}

/// A jump and a long jump may be made in either order.
pub proof fn lemma_jump_and_long_jump_commute(state: Xoroshiro128State)
    ensures
        long_jumped(jumped(state)) == jumped(long_jumped(state)),
{
    lemma_jumps_commute::<Xoroshiro128PlusPlus>(state, jump_poly(), 128, long_jump_poly(), 128);
}

proof fn lemma_xor_words(a: u64, b: u64, c: u64, d: u64)
    by (bit_vector)
    ensures
        0u64 ^ a == a,
        a ^ 0u64 == a,
        (a ^ b) ^ (c ^ d) == (a ^ c) ^ (b ^ d),
{
}

proof fn lemma_words_of_zero()
    by (bit_vector)
    ensures
        next_word0(0, 0) == 0,
        next_word1(0, 0) == 0,
        rotl64(0, 17) == 0,
{
}

proof fn lemma_words_nonzero(s0: u64, s1: u64)
    by (bit_vector)
    requires
        next_word0(s0, s1) == 0,
        next_word1(s0, s1) == 0,
    ensures
        s0 == 0 && s1 == 0,
{
}

proof fn lemma_words_linear(a0: u64, a1: u64, b0: u64, b1: u64)
    by (bit_vector)
    ensures
        next_word0(a0 ^ b0, a1 ^ b1) == next_word0(a0, a1) ^ next_word0(b0, b1),
        next_word1(a0 ^ b0, a1 ^ b1) == next_word1(a0, a1) ^ next_word1(b0, b1),
{
}

} // verus!
