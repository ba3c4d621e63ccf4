//! The order in which an anchored inversion sweeps the non-negative integers.
//!
//! Inversion sampling adds up the mass of one support point after another
//! until the sum reaches a uniform draw. Started at an anchor near the mode
//! it ends after a few points: it visits the points next to the anchor
//! first, then those two away, and so on, left before right, and to the right
//! alone once the left has reached zero. The sampler is exact because this
//! order reaches every point except the anchor exactly once, which is what
//! the lemmas of this module state.

use super::DistError;
use vstd::prelude::*;

verus! {

/// The side of the anchor on which a visited point lies.
#[derive(Debug, Clone, Copy, PartialEq, Eq, Structural)]
pub enum Side {
    Left,
    Right,
}

/// One point of the sweep.
#[derive(Debug, Clone, Copy)]
pub struct Visit {
    /// The point visited.
    pub index: i64,
    /// The side of the anchor on which it lies.
    pub side: Side,
}

/// The distance from the anchor of visit number `step`, counted from one,
/// while both sides are still being visited.
pub open spec fn radius_at(step: nat) -> nat {
    (step + 1) / 2
}

/// The point that visit number `step`, counted from one, reaches.
pub open spec fn index_at(anchor: nat, step: nat) -> nat {
    if step > 2 * anchor {
        step
    } else if step % 2 == 1 {
        (anchor - radius_at(step)) as nat
    } else {
        anchor + radius_at(step)
    }
}

/// The side of the anchor that visit number `step`, counted from one, is on.
pub open spec fn side_at(anchor: nat, step: nat) -> Side {
    if step <= 2 * anchor && step % 2 == 1 {
        Side::Left
    } else {
        Side::Right
    }
}

/// The number of the visit that reaches the point `index`.
pub open spec fn step_of(anchor: nat, index: nat) -> nat {
    if index < anchor {
        (2 * (anchor - index) - 1) as nat
    } else if index <= 2 * anchor {
        (2 * (index - anchor)) as nat
    } else {
        index
    }
}

/// A sweep over the non-negative integers, outward from an anchor. Its view
/// is the anchor and the number of visits made so far.
#[derive(Debug, Clone, Copy)]
pub struct SymmetricExpansion {
    anchor: i64,
    step: i64,
}

impl View for SymmetricExpansion {
    type V = (nat, nat);

    closed spec fn view(&self) -> (nat, nat) {
        (self.anchor as nat, self.step as nat)
    }
}

impl SymmetricExpansion {
    #[verifier::type_invariant]
    spec fn inv(self) -> bool {
        0 <= self.anchor && 0 <= self.step
    }

    /// The point that the next visit reaches.
    pub open spec fn next_index(&self) -> nat {
        index_at(self@.0, self@.1 + 1)
    }

    /// The side of the anchor that the next visit is on.
    pub open spec fn next_side(&self) -> Side {
        side_at(self@.0, self@.1 + 1)
    }

    /// A sweep around `anchor` that has visited nothing yet. The anchor has
    /// to be a point of the support: a negative one is an invalid parameter.
    pub fn new(anchor: i64) -> (r: Result<Self, DistError>)
        ensures
            r is Ok <==> anchor >= 0,
            r matches Ok(sweep) ==> sweep@ == (anchor as nat, 0nat),
            r matches Err(e) ==> e == DistError::InvalidParameter,
    {
        if anchor < 0 {
            return Err(DistError::InvalidParameter);
        }
        Ok(Self { anchor, step: 0 })
    }

    /// The next point of the sweep, or `None` once that point is too large
    /// for an `i64`. A sweep that has returned `None` stays where it is.
    pub fn next_visit(&mut self) -> (r: Option<Visit>)
        ensures
            r is Some <==> old(self).next_index() <= i64::MAX,
            r matches Some(v) ==> {
                &&& v.index == old(self).next_index()
                &&& v.side == old(self).next_side()
                &&& final(self)@ == (old(self)@.0, old(self)@.1 + 1)
            },
            r is None ==> final(self)@ == old(self)@,
    {
        proof {
            use_type_invariant(&*self);
        }
        if self.step == i64::MAX {
            return None;
        }
        let s: i64 = self.step + 1;
        let radius: i64 = s / 2 + s % 2;
        if radius > self.anchor {
            self.step = s;
            Some(Visit { index: s, side: Side::Right })
        } else if s % 2 == 1 {
            self.step = s;
            Some(Visit { index: self.anchor - radius, side: Side::Left })
        } else if radius > i64::MAX - self.anchor {
            None
        } else {
            self.step = s;
            Some(Visit { index: self.anchor + radius, side: Side::Right })
        }
    }
}

/// No visit returns to the anchor, left visits lie below it and right visits
/// above it.
pub proof fn lemma_visit_sides(anchor: nat, step: nat)
    requires
        step >= 1,
    ensures
        side_at(anchor, step) == Side::Left ==> index_at(anchor, step) < anchor,
        side_at(anchor, step) == Side::Right ==> index_at(anchor, step) > anchor,
{
}

/// While both sides are being visited, the sweep is symmetric: visit number
/// `step` lies `radius_at(step)` away from the anchor, so after `2 * r`
/// visits the points within `r` of the anchor are the ones visited.
pub proof fn lemma_visit_distance(anchor: nat, step: nat)
    requires
        1 <= step <= 2 * anchor,
    ensures
        1 <= radius_at(step) <= anchor,
        side_at(anchor, step) == Side::Left ==> index_at(anchor, step) == anchor - radius_at(step),
        side_at(anchor, step) == Side::Right ==> index_at(anchor, step) == anchor + radius_at(
            step,
        ),
{
}

/// Every point but the anchor is visited: the point `index` by visit number
/// `step_of(anchor, index)`.
pub proof fn lemma_every_point_is_visited(anchor: nat, index: nat)
    requires
        index != anchor,
    ensures
        step_of(anchor, index) >= 1,
        index_at(anchor, step_of(anchor, index)) == index,
{
}

/// No point is visited twice: different visits reach different points.
pub proof fn lemma_no_point_is_visited_twice(anchor: nat, first: nat, second: nat)
    requires
        first >= 1,
        second >= 1,
        first != second,
    ensures
        index_at(anchor, first) != index_at(anchor, second),
{
    assert(step_of(anchor, index_at(anchor, first)) == first);
    assert(step_of(anchor, index_at(anchor, second)) == second);
}

} // verus!
