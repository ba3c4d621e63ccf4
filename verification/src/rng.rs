//! Pseudo-random bit generators.
//!
//! A generator is a small state machine. Its view is the state as plain
//! integers; `RngCore::advance` is the transition function on that state and
//! `RngCore::output` the value a draw returns. Everything a generator ever
//! produces is therefore a function of its initial state alone.
//!
//! A generator belongs to one caller at a time: every draw takes it by
//! `&mut`, and nothing inside it is shared or synchronised.

use vstd::prelude::*;

pub mod linear;
pub mod pcg32;
pub mod splitmix64;
pub mod xoroshiro128;
pub mod xoshiro256;

pub use linear::LinearRng;
pub use pcg32::Pcg32;
pub use splitmix64::SplitMix64;
pub use xoroshiro128::Xoroshiro128PlusPlus;
pub use xoshiro256::Xoshiro256StarStar;

verus! {

/// Number of distinct values a 53-bit draw can take: `2^53`.
pub const UNIT_DENOMINATOR: u64 = 0x20_0000_0000_0000;

/// A deterministic source of uniform 64-bit values.
pub trait RngCore: View {
    /// The value returned by a draw made in `state`.
    spec fn output(state: Self::V) -> u64;

    /// The state that a draw made in `state` leaves behind.
    spec fn advance(state: Self::V) -> Self::V;

    /// Draws the next 64-bit value.
    fn next_u64(&mut self) -> (r: u64)
        ensures
            r == Self::output(old(self)@),
            final(self)@ == Self::advance(old(self)@),
    ;

    /// Draws the next value as a 53-bit integer: the top 53 bits of the next
    /// 64-bit draw. Divided by `UNIT_DENOMINATOR` it is a uniform real in
    /// `[0, 1)` that a double represents exactly.
    fn next_u53(&mut self) -> (r: u64)
        ensures
            r == Self::output(old(self)@) >> 11,
            r == Self::output(old(self)@) / 2048,
            r < UNIT_DENOMINATOR,
            final(self)@ == Self::advance(old(self)@),
    {
        let x: u64 = self.next_u64();
        assert(x >> 11 < 0x20_0000_0000_0000u64 && x >> 11 == x / 2048) by (bit_vector);
        x >> 11
    }
}

/// `x` rotated left by `k` bits, for `0 < k < 64`.
pub open spec fn rotl64(x: u64, k: u32) -> u64 {
    (x << k) | (x >> ((64 - k) as u32))
}

/// The state of a generator of type `R` after `n` draws from `state`.
pub open spec fn state_after<R: RngCore>(state: R::V, n: nat) -> R::V
    decreases n,
{
    if n == 0 {
        state
    } else {
        R::advance(state_after::<R>(state, (n - 1) as nat))
    }
}

/// The value of draw number `n` (counting from zero) made from `state`.
pub open spec fn nth_output<R: RngCore>(state: R::V, n: nat) -> u64 {
    R::output(state_after::<R>(state, n))
}

/// The first `n` values drawn from `state`, in order.
pub open spec fn stream<R: RngCore>(state: R::V, n: nat) -> Seq<u64> {
    Seq::new(n, |i: int| nth_output::<R>(state, i as nat))
}

/// Drawing once and then `n` times reaches the same state as drawing `n`
/// times and then once.
pub proof fn lemma_state_after_shift<R: RngCore>(state: R::V, n: nat)
    ensures
        state_after::<R>(R::advance(state), n) == state_after::<R>(state, n + 1),
    decreases n,
{
    if n == 0 {
        assert(state_after::<R>(state, 0) == state);
        assert(state_after::<R>(state, 1) == R::advance(state_after::<R>(state, 0)));
    } else {
        lemma_state_after_shift::<R>(state, (n - 1) as nat);
        assert(state_after::<R>(state, n + 1) == R::advance(state_after::<R>(state, n)));
    }
}

/// A stream is its first value followed by the stream of the state that the
/// first draw leaves behind. So the values that successive calls of
/// `next_u64` return are, in order, the entries of `stream`.
pub proof fn lemma_stream_unfold<R: RngCore>(state: R::V, n: nat)
    requires
        n > 0,
    ensures
        stream::<R>(state, n) == seq![R::output(state)] + stream::<R>(
            R::advance(state),
            (n - 1) as nat,
        ),
{
    let rest = stream::<R>(R::advance(state), (n - 1) as nat);
    assert forall|i: int| 0 <= i < n implies stream::<R>(state, n)[i] == (seq![R::output(state)]
        + rest)[i] by {
        if i > 0 {
            lemma_state_after_shift::<R>(state, (i - 1) as nat);
        }
    }
    assert(stream::<R>(state, n) =~= seq![R::output(state)] + rest);
}

/// Determinism: two generators of one type that are in the same state draw
/// the same values, draw for draw, and are in the same state after any number
/// of draws.
///
/// Every constructor states the state it builds as a function of the seed,
/// and `next_u64` states its result and the state it leaves as functions of
/// the state it found. Two generators seeded alike therefore start here, and
/// nothing but the state ever enters a draw.
pub proof fn lemma_same_state_same_stream<R: RngCore>(a: R, b: R, n: nat)
    requires
        a@ == b@,
    ensures
        stream::<R>(a@, n) == stream::<R>(b@, n),
        state_after::<R>(a@, n) == state_after::<R>(b@, n),
{
}

} // verus!
