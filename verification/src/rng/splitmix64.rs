//! SplitMix64: a 64-bit counter followed by a bit mixer. Fast, with good
//! diffusion, and not cryptographic. It also expands one 64-bit seed into the
//! wider states of the other generators.

use super::{state_after, RngCore};
use vstd::arithmetic::div_mod::{lemma_add_mod_noop, lemma_mod_twice, lemma_small_mod};
use vstd::prelude::*;

verus! {

/// The odd constant added to the counter at every step.
pub const GOLDEN_GAMMA: u64 = 0x9E37_79B9_7F4A_7C15;

/// The bit mixer applied to the counter: two rounds of xor-shift and
/// multiplication, then a last xor-shift.
pub open spec fn mix64(z: u64) -> u64 {
    let a: u64 = (z ^ (z >> 30)).wrapping_mul(0xBF58_476D_1CE4_E5B9);
    let b: u64 = (a ^ (a >> 27)).wrapping_mul(0x94D0_49BB_1331_11EB);
    b ^ (b >> 31)
}

/// The SplitMix64 generator. Its view is the counter.
#[derive(Debug)]
pub struct SplitMix64 {
    state: u64,
}

impl View for SplitMix64 {
    type V = u64;

    closed spec fn view(&self) -> u64 {
        self.state
    }
}

impl Clone for SplitMix64 {
    /// A second generator in the same state: it will draw the same values.
    fn clone(&self) -> (r: Self)
        ensures
            r@ == self@,
    {
        Self { state: self.state }
    }
}

impl SplitMix64 {
    /// A generator whose counter starts at `seed`.
    pub fn seed_from_u64(seed: u64) -> (r: Self)
        ensures
            r@ == seed,
    {
        Self { state: seed }
    }
}

impl RngCore for SplitMix64 {
    open spec fn output(state: u64) -> u64 {
        mix64(state.wrapping_add(GOLDEN_GAMMA))
    }

    open spec fn advance(state: u64) -> u64 {
        state.wrapping_add(GOLDEN_GAMMA)
    }

    fn next_u64(&mut self) -> (r: u64) {
        self.state = self.state.wrapping_add(GOLDEN_GAMMA);
        let mut z: u64 = self.state;
        z = (z ^ (z >> 30)).wrapping_mul(0xBF58_476D_1CE4_E5B9);
        z = (z ^ (z >> 27)).wrapping_mul(0x94D0_49BB_1331_11EB);
        z ^ (z >> 31)
    }
}

/// The mixer sends no value but zero to zero.
pub proof fn lemma_mix64_zero(z: u64)
    by (bit_vector)
    requires
        mix64(z) == 0,
    ensures
        z == 0,
{
}

/// The counter in closed form: after `n` draws it is the seed plus `n` times
/// the constant, modulo `2^64`.
pub proof fn lemma_counter_closed_form(seed: u64, n: nat)
    ensures
        state_after::<SplitMix64>(seed, n) == (seed + n * GOLDEN_GAMMA) % 0x1_0000_0000_0000_0000,
    decreases n,
{
    let m: int = 0x1_0000_0000_0000_0000;
    if n == 0 {
        lemma_small_mod(seed as nat, m as nat);
    } else {
        let k = (n - 1) as nat;
        lemma_counter_closed_form(seed, k);
        let prev: u64 = state_after::<SplitMix64>(seed, k);
        assert(prev.wrapping_add(GOLDEN_GAMMA) == (prev + GOLDEN_GAMMA) % m);
        assert(seed + n * GOLDEN_GAMMA == (seed + k * GOLDEN_GAMMA) + GOLDEN_GAMMA)
            by (nonlinear_arith)
            requires
                n == k + 1,
        ;
        lemma_add_mod_noop(seed + k * GOLDEN_GAMMA, GOLDEN_GAMMA as int, m);
        lemma_mod_twice(seed + k * GOLDEN_GAMMA, m);
        lemma_small_mod(GOLDEN_GAMMA as nat, m as nat);
    }
}

/// Two successive draws are never both zero. A state made of two or more
/// successive draws is therefore never all zero.
pub proof fn lemma_no_two_zeros_in_a_row(state: u64)
    ensures
        !(SplitMix64::output(state) == 0 && SplitMix64::output(SplitMix64::advance(state)) == 0),
{
    let a: u64 = state.wrapping_add(GOLDEN_GAMMA);
    let b: u64 = a.wrapping_add(GOLDEN_GAMMA);
    if mix64(a) == 0 && mix64(b) == 0 {
        lemma_mix64_zero(a);
        lemma_mix64_zero(b);
    }
}

} // verus!
