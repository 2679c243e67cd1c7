//! Two-lane vectors: `[x, y]`.
use vstd::prelude::*;

use crate::lane::{SIGN32, SIGN64, Lane, eq_lanes, lane_eq, lane_max, lane_min, max_lanes, min_lanes};

verus! {

/// Lanes of `a` and `b` are IEEE-equal, lane by lane.
pub open spec fn lanes_eq2<S: Lane>(a: Seq<S>, b: Seq<S>) -> bool {
    lane_eq(a[0], b[0]) && lane_eq(a[1], b[1])
}

/// Methods on two-lane vectors whose lanes are of type `S`.
///
/// `lanes` is the vector as the sequence `[x, y]`.
pub trait Vec2<S: Lane>: Sized + Copy {
    spec fn lanes(&self) -> Seq<S>;

    /// A vector has two lanes.
    proof fn lemma_two_lanes(&self)
        ensures
            self.lanes().len() == 2,
    ;

    /// A vector from its two lanes.
    fn new(x: S, y: S) -> (r: Self)
        ensures
            r.lanes() == seq![x, y],
    ;

    /// The lanes as an array, in lane order.
    fn as_array(&self) -> (r: &[S; 2])
        ensures
            r@ == self.lanes(),
    ;

    /// Replaces lane `i`.
    fn set_lane(&mut self, i: usize, value: S)
        requires
            i < 2,
        ensures
            final(self).lanes() == old(self).lanes().update(i as int, value),
    ;

    /// Lane `i`.
    fn lane(&self, i: usize) -> (r: S)
        requires
            i < 2,
        ensures
            r == self.lanes()[i as int],
    {
        self.as_array()[i]
    }

    /// Both lanes equal to `value`.
    fn splat(value: S) -> (r: Self)
        ensures
            r.lanes() == seq![value, value],
    {
        Self::new(value, value)
    }

    /// IEEE-754 equality on both lanes.
    fn eq_reduce(&self, rhs: Self) -> (r: bool)
        ensures
            r == lanes_eq2(self.lanes(), rhs.lanes()),
    {
        let a = self.as_array();
        let b = rhs.as_array();
        eq_lanes(&a[0], &b[0]) && eq_lanes(&a[1], &b[1])
    }

    /// Lane-wise minimum.
    fn min_componentwise(&self, rhs: Self) -> (r: Self)
        ensures
            r.lanes() == seq![
                lane_min(self.lanes()[0], rhs.lanes()[0]),
                lane_min(self.lanes()[1], rhs.lanes()[1]),
            ],
    {
        let a = self.as_array();
        let b = rhs.as_array();
        Self::new(min_lanes(&a[0], &b[0]), min_lanes(&a[1], &b[1]))
    }

    /// Lane-wise maximum.
    fn max_componentwise(&self, rhs: Self) -> (r: Self)
        ensures
            r.lanes() == seq![
                lane_max(self.lanes()[0], rhs.lanes()[0]),
                lane_max(self.lanes()[1], rhs.lanes()[1]),
            ],
    {
        let a = self.as_array();
        let b = rhs.as_array();
        Self::new(max_lanes(&a[0], &b[0]), max_lanes(&a[1], &b[1]))
    }

    /// The smaller lane, `min(x, y)`.
    fn min_reduce(&self) -> (r: S)
        ensures
            r == lane_min(self.lanes()[0], self.lanes()[1]),
    {
        let a = self.as_array();
        min_lanes(&a[0], &a[1])
    }

    /// The larger lane, `max(x, y)`.
    fn max_reduce(&self) -> (r: S)
        ensures
            r == lane_max(self.lanes()[0], self.lanes()[1]),
    {
        let a = self.as_array();
        max_lanes(&a[0], &a[1])
    }

    /// `splat(0.0) - self`, lane by lane.
    fn negate(&self) -> (r: Self)
        ensures
            r.lanes() == seq![self.lanes()[0].neg_spec(), self.lanes()[1].neg_spec()],
    {
        let a = self.as_array();
        Self::new(a[0].neg(), a[1].neg())
    }
}

/// A vector with a NaN lane is not equal to itself.
pub proof fn lemma_nan_not_equal2<S: Lane>(v: Seq<S>, i: int)
    requires
        0 <= i < 2,
        v[i].is_nan(),
    ensures
        !lanes_eq2(v, v),
{
}

/// Vectors whose binary64 lanes are all `+0.0` or `-0.0` are equal, whatever
/// the signs: `(0.0, -0.0) == (0.0, 0.0)`.
pub proof fn lemma_signed_zeros_equal2_binary64(a: Seq<u64>, b: Seq<u64>)
    requires
        a.len() == 2,
        b.len() == 2,
        forall|i: int| 0 <= i < 2 ==> (#[trigger] a[i] == 0 || a[i] == SIGN64),
        forall|i: int| 0 <= i < 2 ==> (#[trigger] b[i] == 0 || b[i] == SIGN64),
    ensures
        lanes_eq2(a, b),
{
}

/// Vectors whose binary32 lanes are all `+0.0` or `-0.0` are equal, whatever
/// the signs.
pub proof fn lemma_signed_zeros_equal2_binary32(a: Seq<u32>, b: Seq<u32>)
    requires
        a.len() == 2,
        b.len() == 2,
        forall|i: int| 0 <= i < 2 ==> (#[trigger] a[i] == 0 || a[i] == SIGN32),
        forall|i: int| 0 <= i < 2 ==> (#[trigger] b[i] == 0 || b[i] == SIGN32),
    ensures
        lanes_eq2(a, b),
{
}

} // verus!
