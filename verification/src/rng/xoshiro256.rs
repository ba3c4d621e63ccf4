//! Xoshiro256**: a shift-rotate-xor generator with 256 bits of state. Fast and
//! of high statistical quality; not cryptographic.

use super::linear::{jump_sum, lemma_jump_commutes_with_draws, lemma_jumps_commute, LinearRng};
use super::splitmix64::{lemma_no_two_zeros_in_a_row, SplitMix64};
use super::{nth_output, rotl64, state_after, RngCore};
use vstd::prelude::*;

verus! {

/// The four state words of the generator.
pub type Xoshiro256State = (u64, u64, u64, u64);

/// The first state word after a draw.
pub open spec fn next_word0(s0: u64, s1: u64, s2: u64, s3: u64) -> u64 {
    s0 ^ (s3 ^ s1)
}

/// The second state word after a draw.
pub open spec fn next_word1(s0: u64, s1: u64, s2: u64, s3: u64) -> u64 {
    s1 ^ (s2 ^ s0)
}

/// The third state word after a draw.
pub open spec fn next_word2(s0: u64, s1: u64, s2: u64, s3: u64) -> u64 {
    (s2 ^ s0) ^ (s1 << 17)
}

/// The fourth state word after a draw.
pub open spec fn next_word3(s0: u64, s1: u64, s2: u64, s3: u64) -> u64 {
    rotl64(s3 ^ s1, 45)
}

/// The state that a seed expands to: four successive SplitMix64 outputs.
pub open spec fn seeded_state(seed: u64) -> Xoshiro256State {
    (
        nth_output::<SplitMix64>(seed, 0),
        nth_output::<SplitMix64>(seed, 1),
        nth_output::<SplitMix64>(seed, 2),
        nth_output::<SplitMix64>(seed, 3),
    )
}

/// Coefficients of the polynomial that `jump` applies.
pub open spec fn jump_poly() -> Seq<u64> {
    seq![
        0x180e_c6d3_3cfd_0abau64,
        0xd5a6_1266_f0c9_392cu64,
        0xa958_2618_e03f_c9aau64,
        0x39ab_dc45_29b1_661cu64,
    ]
}

/// Coefficients of the polynomial that `long_jump` applies.
pub open spec fn long_jump_poly() -> Seq<u64> {
    seq![
        0x76e1_5d3e_fefd_cbbfu64,
        0xc500_4e44_1c52_2fb3u64,
        0x7771_0069_854e_e241u64,
        0x3910_9bb0_2acb_e635u64,
    ]
}

/// The state that `jump` leaves a generator in.
pub open spec fn jumped(state: Xoshiro256State) -> Xoshiro256State {
    jump_sum::<Xoshiro256StarStar>(state, jump_poly(), 256)
}

/// The state that `long_jump` leaves a generator in.
pub open spec fn long_jumped(state: Xoshiro256State) -> Xoshiro256State {
    jump_sum::<Xoshiro256StarStar>(state, long_jump_poly(), 256)
}

/// The Xoshiro256** generator. Its view is the tuple of its state words.
#[derive(Debug)]
pub struct Xoshiro256StarStar {
    s: [u64; 4],
}

impl View for Xoshiro256StarStar {
    type V = Xoshiro256State;

    closed spec fn view(&self) -> Xoshiro256State {
        (self.s[0], self.s[1], self.s[2], self.s[3])
    }
}

impl Clone for Xoshiro256StarStar {
    /// A second generator in the same state: it will draw the same values.
    fn clone(&self) -> (r: Self)
        ensures
            r@ == self@,
    {
        Self { s: [self.s[0], self.s[1], self.s[2], self.s[3]] }
    }
}

impl Xoshiro256StarStar {
    /// Expands `seed` into 256 bits of state with SplitMix64. The result is
    /// never the all-zero state, which the generator could not leave.
    pub fn seed_from_u64(seed: u64) -> (r: Self)
        ensures
            r@ == seeded_state(seed),
            r@ != (0u64, 0u64, 0u64, 0u64),
    {
        let mut sm = SplitMix64::seed_from_u64(seed);
        let mut s: [u64; 4] = [0, 0, 0, 0];
        let mut i: usize = 0;
        while i < 4
            invariant
                i <= 4,
                sm@ == state_after::<SplitMix64>(seed, i as nat),
                forall|j: int| 0 <= j < i ==> s[j] == nth_output::<SplitMix64>(seed, j as nat),
            decreases 4 - i,
        {
            let w: u64 = sm.next_u64();
            s[i] = w;
            i += 1;
        }
        proof {
            lemma_seeded_state_nonzero(seed);
        }
        // Guard against the all-zero state. SplitMix64 cannot produce it,
        // so the branch is never taken.
        if s[0] == 0 && s[1] == 0 && s[2] == 0 && s[3] == 0 {
            s[0] = 1;
        }
        Self { s }
    }

    fn rotl(x: u64, k: u32) -> (r: u64)
        requires
            0 < k < 64,
        ensures
            r == rotl64(x, k),
    {
        (x << k) | (x >> (64 - k))
    }

    /// Exclusive-ors together the states met while drawing 256 times, keeping
    /// those whose bit is set in `poly`, and makes the result the new state.
    /// Every bit of every word is stepped over, set or not.
    fn jump_by(&mut self, poly: &[u64; 4])
        ensures
            final(self)@ == jump_sum::<Self>(old(self)@, poly@, 256),
    {
        let mut t0: u64 = 0;
        let mut t1: u64 = 0;
        let mut t2: u64 = 0;
        let mut t3: u64 = 0;
        let mut w: usize = 0;
        while w < 4
            invariant
                w <= 4,
                self@ == state_after::<Self>(old(self)@, (64 * w) as nat),
                (t0, t1, t2, t3) == jump_sum::<Self>(old(self)@, poly@, (64 * w) as nat),
            decreases 4 - w,
        {
            let word: u64 = poly[w];
            let mut b: u32 = 0;
            while b < 64
                invariant
                    w < 4,
                    b <= 64,
                    word == poly@[w as int],
                    self@ == state_after::<Self>(old(self)@, (64 * w + b) as nat),
                    (t0, t1, t2, t3) == jump_sum::<Self>(
                        old(self)@,
                        poly@,
                        (64 * w + b) as nat,
                    ),
                decreases 64 - b,
            {
                if (word >> b) & 1 == 1 {
                    t0 ^= self.s[0];
                    t1 ^= self.s[1];
                    t2 ^= self.s[2];
                    t3 ^= self.s[3];
                }
                let _ = self.next_u64();
                b += 1;
            }
            w += 1;
        }
        self.s = [t0, t1, t2, t3];
    }

    /// Jumps ahead, to start a separate stream: replaces the state by the
    /// combination of the next 256 states that the jump polynomial selects.
    ///
    /// The polynomial is the residue of `x^(2^128)` modulo the characteristic
    /// polynomial of the transition, which makes the new state the one that
    /// `2^128` draws would reach, and successive jumps the starting points of
    /// non-overlapping subsequences. The contract pins the new state down as
    /// the combination; that the coefficients are that residue is checked by
    /// the tests against a power of the transition matrix and is not proved
    /// here.
    pub fn jump(&mut self)
        ensures
            final(self)@ == jumped(old(self)@),
    {
        let poly: [u64; 4] = [
            0x180e_c6d3_3cfd_0aba,
            0xd5a6_1266_f0c9_392c,
            0xa958_2618_e03f_c9aa,
            0x39ab_dc45_29b1_661c,
        ];
        assert(poly@ =~= jump_poly());
        self.jump_by(&poly);
    }

    /// Jumps far ahead: as `jump`, with the polynomial that is the residue
    /// of `x^(2^192)`, so that each long jump leaves room for `2^64` jumps.
    /// As for `jump`, the contract states the combination of states.
    pub fn long_jump(&mut self)
        ensures
            final(self)@ == long_jumped(old(self)@),
    {
        let poly: [u64; 4] = [
            0x76e1_5d3e_fefd_cbbf,
            0xc500_4e44_1c52_2fb3,
            0x7771_0069_854e_e241,
            0x3910_9bb0_2acb_e635,
        ];
        assert(poly@ =~= long_jump_poly());
        self.jump_by(&poly);
    }
}

impl RngCore for Xoshiro256StarStar {
    open spec fn output(state: Xoshiro256State) -> u64 {
        rotl64(state.1.wrapping_mul(5), 7).wrapping_mul(9)
    }

    open spec fn advance(state: Xoshiro256State) -> Xoshiro256State {
        let (s0, s1, s2, s3) = state;
        (
            next_word0(s0, s1, s2, s3),
            next_word1(s0, s1, s2, s3),
            next_word2(s0, s1, s2, s3),
            next_word3(s0, s1, s2, s3),
        )
    }

    fn next_u64(&mut self) -> (r: u64)
        ensures
            old(self)@ != (0u64, 0u64, 0u64, 0u64) ==> final(self)@ != (0u64, 0u64, 0u64, 0u64),
    {
        proof {
            if old(self)@ != (0u64, 0u64, 0u64, 0u64) {
                Self::lemma_advance_keeps_nonzero(old(self)@);
            }
        }
        let s0: u64 = self.s[0];
        let s1: u64 = self.s[1];
        let s2: u64 = self.s[2];
        let s3: u64 = self.s[3];
        let result: u64 = Self::rotl(s1.wrapping_mul(5), 7).wrapping_mul(9);

        let t: u64 = s1 << 17;

        let n2: u64 = s2 ^ s0;
        let n3: u64 = s3 ^ s1;
        let n1: u64 = s1 ^ n2;
        let n0: u64 = s0 ^ n3;

        self.s = [n0, n1, n2 ^ t, Self::rotl(n3, 45)];

        result
    }
}

impl LinearRng for Xoshiro256StarStar {
    open spec fn zero() -> Xoshiro256State {
        (0, 0, 0, 0)
    }

    open spec fn xor(a: Xoshiro256State, b: Xoshiro256State) -> Xoshiro256State {
        (a.0 ^ b.0, a.1 ^ b.1, a.2 ^ b.2, a.3 ^ b.3)
    }

    proof fn lemma_xor_zero(a: Xoshiro256State) {
        lemma_xor_words(a.0, 0, 0, 0);
        lemma_xor_words(a.1, 0, 0, 0);
        lemma_xor_words(a.2, 0, 0, 0);
        lemma_xor_words(a.3, 0, 0, 0);
    }

    proof fn lemma_xor_interchange(
        a: Xoshiro256State,
        b: Xoshiro256State,
        c: Xoshiro256State,
        d: Xoshiro256State,
    ) {
        lemma_xor_words(a.0, b.0, c.0, d.0);
        lemma_xor_words(a.1, b.1, c.1, d.1);
        lemma_xor_words(a.2, b.2, c.2, d.2);
        lemma_xor_words(a.3, b.3, c.3, d.3);
    }

    proof fn lemma_advance_linear(a: Xoshiro256State, b: Xoshiro256State) {
        lemma_words_linear(a.0, a.1, a.2, a.3, b.0, b.1, b.2, b.3);
    }

    proof fn lemma_zero_is_fixed() {
        lemma_words_of_zero();
    }

    proof fn lemma_advance_keeps_nonzero(state: Xoshiro256State) {
        if Self::advance(state) == Self::zero() {
            lemma_words_nonzero(state.0, state.1, state.2, state.3);
        }
    }
}

/// No seed expands to the all-zero state.
pub proof fn lemma_seeded_state_nonzero(seed: u64)
    ensures
        seeded_state(seed) != (0u64, 0u64, 0u64, 0u64),
{
    reveal_with_fuel(state_after, 2);
    lemma_no_two_zeros_in_a_row(seed);
}

/// Jumps commute with draws: jumping and then drawing `n` times leaves the
/// generator where drawing `n` times and then jumping leaves it. The stream
/// after a jump is the stream before it, moved by a fixed distance.
pub proof fn lemma_jumps_commute_with_draws(state: Xoshiro256State, n: nat)
    ensures
        state_after::<Xoshiro256StarStar>(jumped(state), n) == jumped(
            state_after::<Xoshiro256StarStar>(state, n),
        ),
        state_after::<Xoshiro256StarStar>(long_jumped(state), n) == long_jumped(
            state_after::<Xoshiro256StarStar>(state, n),
        ),
{
    lemma_jump_commutes_with_draws::<Xoshiro256StarStar>(state, jump_poly(), 256, n);
    lemma_jump_commutes_with_draws::<Xoshiro256StarStar>(state, long_jump_poly(), 256, n);
}

/// A jump and a long jump may be made in either order.
pub proof fn lemma_jump_and_long_jump_commute(state: Xoshiro256State)
    ensures
        long_jumped(jumped(state)) == jumped(long_jumped(state)),
{
    lemma_jumps_commute::<Xoshiro256StarStar>(state, jump_poly(), 256, long_jump_poly(), 256);
}

proof fn lemma_xor_words(a: u64, b: u64, c: u64, d: u64)
    by (bit_vector)
    ensures
        0u64 ^ a == a,
        a ^ 0u64 == a,
        (a ^ b) ^ (c ^ d) == (a ^ c) ^ (b ^ d),
{
}

proof fn lemma_words_of_zero()
    by (bit_vector)
    ensures
        next_word0(0, 0, 0, 0) == 0,
        next_word1(0, 0, 0, 0) == 0,
        next_word2(0, 0, 0, 0) == 0,
        next_word3(0, 0, 0, 0) == 0,
        rotl64(0, 7) == 0,
{
}

proof fn lemma_words_nonzero(s0: u64, s1: u64, s2: u64, s3: u64)
    by (bit_vector)
    requires
        next_word0(s0, s1, s2, s3) == 0,
        next_word1(s0, s1, s2, s3) == 0,
        next_word2(s0, s1, s2, s3) == 0,
        next_word3(s0, s1, s2, s3) == 0,
    ensures
        s0 == 0 && s1 == 0 && s2 == 0 && s3 == 0,
{
}

proof fn lemma_words_linear(a0: u64, a1: u64, a2: u64, a3: u64, b0: u64, b1: u64, b2: u64, b3: u64)
    by (bit_vector)
    ensures
        next_word0(a0 ^ b0, a1 ^ b1, a2 ^ b2, a3 ^ b3)
            == next_word0(a0, a1, a2, a3) ^ next_word0(b0, b1, b2, b3),
        next_word1(a0 ^ b0, a1 ^ b1, a2 ^ b2, a3 ^ b3)
            == next_word1(a0, a1, a2, a3) ^ next_word1(b0, b1, b2, b3),
        next_word2(a0 ^ b0, a1 ^ b1, a2 ^ b2, a3 ^ b3)
            == next_word2(a0, a1, a2, a3) ^ next_word2(b0, b1, b2, b3),
        next_word3(a0 ^ b0, a1 ^ b1, a2 ^ b2, a3 ^ b3)
            == next_word3(a0, a1, a2, a3) ^ next_word3(b0, b1, b2, b3),
{
}

} // verus!
