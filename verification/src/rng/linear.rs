//! Generators whose transition is linear over GF(2), and the jumps that this
//! linearity makes possible.
//!
//! The state of such a generator is a vector of bits, and a draw multiplies
//! it by a fixed invertible matrix `T`. A polynomial `p` over GF(2) then
//! names the map `p(T)`: the exclusive or of the powers of `T` whose
//! coefficient in `p` is one. A jump applies such a map. Because every `p(T)`
//! commutes with `T` and with every other `q(T)`, jumps commute with draws
//! and with each other.

use super::{lemma_state_after_shift, state_after, RngCore};
use vstd::prelude::*;

verus! {

/// A generator whose states can be added bit by bit, with a transition that
/// respects the addition and sends nothing but the all-zero state to the
/// all-zero state.
pub trait LinearRng: RngCore {
    /// The all-zero state.
    spec fn zero() -> Self::V;

    /// Word-by-word exclusive or of two states.
    spec fn xor(a: Self::V, b: Self::V) -> Self::V;

    /// Exclusive or with the all-zero state changes nothing.
    proof fn lemma_xor_zero(a: Self::V)
        ensures
            Self::xor(Self::zero(), a) == a,
            Self::xor(a, Self::zero()) == a,
    ;

    /// Exclusive or is associative and commutative: in the sum of four
    /// states the middle two may change places.
    proof fn lemma_xor_interchange(a: Self::V, b: Self::V, c: Self::V, d: Self::V)
        ensures
            Self::xor(Self::xor(a, b), Self::xor(c, d)) == Self::xor(
                Self::xor(a, c),
                Self::xor(b, d),
            ),
    ;

    /// The transition is linear: the state that follows the exclusive or of
    /// two states is the exclusive or of the states that follow them.
    proof fn lemma_advance_linear(a: Self::V, b: Self::V)
        ensures
            Self::advance(Self::xor(a, b)) == Self::xor(Self::advance(a), Self::advance(b)),
    ;

    /// The all-zero state is a trap: a draw made in it returns zero and
    /// leaves it unchanged. This is why no generator is ever constructed in
    /// it.
    proof fn lemma_zero_is_fixed()
        ensures
            Self::advance(Self::zero()) == Self::zero(),
            Self::output(Self::zero()) == 0,
    ;

    /// The all-zero state is the only state that a draw leaves all zero.
    proof fn lemma_advance_keeps_nonzero(state: Self::V)
        requires
            state != Self::zero(),
        ensures
            Self::advance(state) != Self::zero(),
    ;
}

/// Whether the coefficient of `x^i` is one in a polynomial over GF(2) that is
/// stored as 64-bit words, lowest coefficients first.
pub open spec fn poly_bit(poly: Seq<u64>, i: nat) -> bool {
    (poly[(i / 64) as int] >> ((i % 64) as u32)) & 1 == 1
}

/// The exclusive or of the states reached after `i` draws from `state`, over
/// all `i < n` whose coefficient in `poly` is one: the polynomial, cut off
/// below `x^n`, applied to the transition and then to `state`.
pub open spec fn jump_sum<R: LinearRng>(state: R::V, poly: Seq<u64>, n: nat) -> R::V
    decreases n,
{
    if n == 0 {
        R::zero()
    } else {
        let sum = jump_sum::<R>(state, poly, (n - 1) as nat);
        if poly_bit(poly, (n - 1) as nat) {
            R::xor(sum, state_after::<R>(state, (n - 1) as nat))
        } else {
            sum
        }
    }
}

/// No number of draws takes a generator from a state that is not all zero to
/// the all-zero state.
pub proof fn lemma_never_zero<R: LinearRng>(state: R::V, n: nat)
    requires
        state != R::zero(),
    ensures
        state_after::<R>(state, n) != R::zero(),
    decreases n,
{
    if n > 0 {
        lemma_never_zero::<R>(state, (n - 1) as nat);
        R::lemma_advance_keeps_nonzero(state_after::<R>(state, (n - 1) as nat));
    }
}

/// Any number of draws is linear, as one draw is.
pub proof fn lemma_state_after_linear<R: LinearRng>(a: R::V, b: R::V, n: nat)
    ensures
        state_after::<R>(R::xor(a, b), n) == R::xor(
            state_after::<R>(a, n),
            state_after::<R>(b, n),
        ),
    decreases n,
{
    if n > 0 {
        let m = (n - 1) as nat;
        lemma_state_after_linear::<R>(a, b, m);
        R::lemma_advance_linear(state_after::<R>(a, m), state_after::<R>(b, m));
    }
}

/// A polynomial applied to the all-zero state gives the all-zero state.
pub proof fn lemma_jump_sum_of_zero<R: LinearRng>(poly: Seq<u64>, n: nat)
    ensures
        jump_sum::<R>(R::zero(), poly, n) == R::zero(),
    decreases n,
{
    if n > 0 {
        let m = (n - 1) as nat;
        lemma_jump_sum_of_zero::<R>(poly, m);
        lemma_state_after_of_zero::<R>(m);
        R::lemma_xor_zero(R::zero());
    }
}

/// The all-zero state stays all zero through any number of draws.
pub proof fn lemma_state_after_of_zero<R: LinearRng>(n: nat)
    ensures
        state_after::<R>(R::zero(), n) == R::zero(),
    decreases n,
{
    if n > 0 {
        lemma_state_after_of_zero::<R>((n - 1) as nat);
        R::lemma_zero_is_fixed();
    }
}

/// A polynomial applied to the transition is linear.
pub proof fn lemma_jump_sum_linear<R: LinearRng>(a: R::V, b: R::V, poly: Seq<u64>, n: nat)
    ensures
        jump_sum::<R>(R::xor(a, b), poly, n) == R::xor(
            jump_sum::<R>(a, poly, n),
            jump_sum::<R>(b, poly, n),
        ),
    decreases n,
{
    if n == 0 {
        R::lemma_xor_zero(R::zero());
    } else {
        let m = (n - 1) as nat;
        lemma_jump_sum_linear::<R>(a, b, poly, m);
        if poly_bit(poly, m) {
            lemma_state_after_linear::<R>(a, b, m);
            R::lemma_xor_interchange(
                jump_sum::<R>(a, poly, m),
                jump_sum::<R>(b, poly, m),
                state_after::<R>(a, m),
                state_after::<R>(b, m),
            );
        }
    }
}

/// A polynomial applied to the transition commutes with one draw.
pub proof fn lemma_jump_sum_advance<R: LinearRng>(state: R::V, poly: Seq<u64>, n: nat)
    ensures
        jump_sum::<R>(R::advance(state), poly, n) == R::advance(jump_sum::<R>(state, poly, n)),
    decreases n,
{
    if n == 0 {
        R::lemma_zero_is_fixed();
    } else {
        let m = (n - 1) as nat;
        lemma_jump_sum_advance::<R>(state, poly, m);
        lemma_state_after_shift::<R>(state, m);
        R::lemma_advance_linear(jump_sum::<R>(state, poly, m), state_after::<R>(state, m));
    }
}

/// A jump commutes with drawing. Jumping and then drawing `k` times leaves a
/// generator where drawing `k` times and then jumping leaves it, so the
/// stream after a jump is the stream before it moved by a fixed distance.
pub proof fn lemma_jump_commutes_with_draws<R: LinearRng>(
    state: R::V,
    poly: Seq<u64>,
    n: nat,
    k: nat,
)
    ensures
        state_after::<R>(jump_sum::<R>(state, poly, n), k) == jump_sum::<R>(
            state_after::<R>(state, k),
            poly,
            n,
        ),
    decreases k,
{
    if k > 0 {
        let j = (k - 1) as nat;
        lemma_jump_commutes_with_draws::<R>(state, poly, n, j);
        lemma_jump_sum_advance::<R>(state_after::<R>(state, j), poly, n);
    }
}

/// Jumps commute with each other: two polynomials applied one after the
/// other give the same state in either order.
pub proof fn lemma_jumps_commute<R: LinearRng>(
    state: R::V,
    p: Seq<u64>,
    n: nat,
    q: Seq<u64>,
    m: nat,
)
    ensures
        jump_sum::<R>(jump_sum::<R>(state, p, n), q, m) == jump_sum::<R>(
            jump_sum::<R>(state, q, m),
            p,
            n,
        ),
    decreases m,
{
    if m == 0 {
        lemma_jump_sum_of_zero::<R>(p, n);
    } else {
        let k = (m - 1) as nat;
        lemma_jumps_commute::<R>(state, p, n, q, k);
        if poly_bit(q, k) {
            lemma_jump_sum_linear::<R>(
                jump_sum::<R>(state, q, k),
                state_after::<R>(state, k),
                p,
                n,
            );
            lemma_jump_commutes_with_draws::<R>(state, p, n, k);
        }
    }
}

} // verus!
