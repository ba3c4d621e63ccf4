//! PCG32 (PCG XSH RR 64/32): a linear congruential generator whose 64-bit
//! state is permuted into 32 output bits. Small state with a selectable
//! stream; not cryptographic.

use super::splitmix64::SplitMix64;
use super::{nth_output, state_after, RngCore};
use vstd::prelude::*;

verus! {

/// The state of the generator: the congruential state, then the increment
/// that selects the stream.
pub type Pcg32State = (u64, u64);

/// The multiplier of the congruential step.
pub const PCG_MULTIPLIER: u64 = 6364136223846793005;

/// `x` rotated right by `k` bits, for `k < 32`.
pub open spec fn rotr32(x: u32, k: u32) -> u32 {
    if k == 0 {
        x
    } else {
        (x >> k) | (x << ((32 - k) as u32))
    }
}

/// One congruential step: `state * PCG_MULTIPLIER + increment` modulo `2^64`.
pub open spec fn lcg_step(state: Pcg32State) -> Pcg32State {
    (state.0.wrapping_mul(PCG_MULTIPLIER).wrapping_add(state.1), state.1)
}

/// The 32 bits drawn from a congruential state: an xor-shift of the high
/// bits, rotated right by the amount held in the top five bits.
pub open spec fn xsh_rr(state: u64) -> u32 {
    rotr32((((state >> 18) ^ state) >> 27) as u32, (state >> 59) as u32)
}

/// The increment of stream number `stream`: always odd.
pub open spec fn stream_increment(stream: u64) -> u64 {
    (stream << 1) | 1
}

/// The state that `seed` and `stream` start a generator in.
pub open spec fn seeded_with_stream(seed: u64, stream: u64) -> Pcg32State {
    let warm: Pcg32State = Pcg32::advance((0, stream_increment(stream)));
    Pcg32::advance((warm.0.wrapping_add(seed), warm.1))
}

/// The state that a single seed starts a generator in: the first SplitMix64
/// output seeds the state, the second selects the stream.
pub open spec fn seeded_state(seed: u64) -> Pcg32State {
    seeded_with_stream(nth_output::<SplitMix64>(seed, 0), nth_output::<SplitMix64>(seed, 1))
}

/// The PCG32 generator. Its view is the pair of state and increment; the
/// increment is odd in every generator.
#[derive(Debug)]
pub struct Pcg32 {
    state: u64,
    inc: u64,
}

impl View for Pcg32 {
    type V = Pcg32State;

    closed spec fn view(&self) -> Pcg32State {
        (self.state, self.inc)
    }
}

impl Clone for Pcg32 {
    /// A second generator in the same state: it will draw the same values.
    fn clone(&self) -> (r: Self)
        ensures
            r@ == self@,
    {
        proof {
            use_type_invariant(self);
        }
        Self { state: self.state, inc: self.inc }
    }
}

impl Pcg32 {
    #[verifier::type_invariant]
    spec fn inv(self) -> bool {
        self.inc & 1 == 1
    }

    /// The increment is odd, as the congruential step needs for its full
    /// period. It holds of every generator: the constructors establish it
    /// and no method changes the increment.
    pub open spec fn increment_is_odd(&self) -> bool {
        self@.1 % 2 == 1
    }

    /// Seeds the generator with a 64-bit seed on stream number `stream`.
    pub fn from_seed_and_stream(seed: u64, stream: u64) -> (r: Self)
        ensures
            r@ == seeded_with_stream(seed, stream),
            r@.1 == stream_increment(stream),
            r.increment_is_odd(),
    {
        assert(((stream << 1) | 1) & 1 == 1 && ((stream << 1) | 1) % 2 == 1) by (bit_vector);
        let mut pcg = Self { state: 0, inc: (stream << 1) | 1 };
        let _ = pcg.next_u64();
        pcg.state = pcg.state.wrapping_add(seed);
        let _ = pcg.next_u64();
        pcg
    }

    /// Seeds the generator from a single value, which SplitMix64 expands into
    /// the seed and the stream number.
    pub fn seed_from_u64(seed: u64) -> (r: Self)
        ensures
            r@ == seeded_state(seed),
            r.increment_is_odd(),
    {
        let mut sm = SplitMix64::seed_from_u64(seed);
        let init_state: u64 = sm.next_u64();
        let stream: u64 = sm.next_u64();
        proof {
            reveal_with_fuel(state_after, 2);
        }
        Self::from_seed_and_stream(init_state, stream)
    }

    fn step(&mut self)
        ensures
            final(self)@ == lcg_step(old(self)@),
    {
        proof {
            use_type_invariant(&*self);
        }
        self.state = self.state.wrapping_mul(PCG_MULTIPLIER).wrapping_add(self.inc);
    }

    fn rotr(x: u32, k: u32) -> (r: u32)
        requires
            k < 32,
        ensures
            r == rotr32(x, k),
    {
        if k == 0 {
            x
        } else {
            (x >> k) | (x << (32 - k))
        }
    }

    fn output32(state: u64) -> (r: u32)
        ensures
            r == xsh_rr(state),
    {
        let xorshifted: u32 = #[verifier::truncate] ((((state >> 18) ^ state) >> 27) as u32);
        assert(state >> 59 < 32) by (bit_vector);
        let rot: u32 = (state >> 59) as u32;
        Self::rotr(xorshifted, rot)
    }

    /// Draws the next 32-bit value.
    pub fn next_u32(&mut self) -> (r: u32)
        ensures
            r == xsh_rr(old(self)@.0),
            final(self)@ == lcg_step(old(self)@),
            final(self).increment_is_odd(),
    {
        let prior: u64 = self.state;
        self.step();
        proof {
            use_type_invariant(&*self);
            let inc = self.inc;
            assert(inc & 1 == 1 ==> inc % 2 == 1) by (bit_vector);
        }
        Self::output32(prior)
    }
}

impl RngCore for Pcg32 {
    open spec fn output(state: Pcg32State) -> u64 {
        ((xsh_rr(state.0) as u64) << 32) | (xsh_rr(lcg_step(state).0) as u64)
    }

    open spec fn advance(state: Pcg32State) -> Pcg32State {
        lcg_step(lcg_step(state))
    }

    fn next_u64(&mut self) -> (r: u64)
        ensures
            final(self).increment_is_odd(),
    {
        let hi: u64 = self.next_u32() as u64;
        let lo: u64 = self.next_u32() as u64;
        (hi << 32) | lo
    }
}

/// A 64-bit draw is two 32-bit draws side by side: the first fills the high
/// half, the second the low half.
pub proof fn lemma_output_halves(state: Pcg32State)
    ensures
        Pcg32::output(state) >> 32 == xsh_rr(state.0) as u64,
        Pcg32::output(state) & 0xffff_ffff == xsh_rr(lcg_step(state).0) as u64,
{
    lemma_concatenation(xsh_rr(state.0), xsh_rr(lcg_step(state).0));
}

proof fn lemma_concatenation(hi: u32, lo: u32)
    by (bit_vector)
    ensures
        (((hi as u64) << 32) | (lo as u64)) >> 32 == hi as u64,
        (((hi as u64) << 32) | (lo as u64)) & 0xffff_ffff == lo as u64,
{
}

} // verus!
