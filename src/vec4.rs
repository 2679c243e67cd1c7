//! Four-lane vectors: `[x, y, z, w]`.
use vstd::prelude::*;

use crate::lane::{SIGN32, SIGN64, Lane, eq_lanes, lane_eq, lane_max, lane_min, max_lanes, min_lanes};

verus! {

/// Lanes of `a` and `b` are IEEE-equal, lane by lane.
pub open spec fn lanes_eq4<S: Lane>(a: Seq<S>, b: Seq<S>) -> bool {
    forall|i: int| 0 <= i < 4 ==> #[trigger] lane_eq(a[i], b[i])
}

/// Methods on four-lane vectors whose lanes are of type `S`.
///
/// `lanes` is the vector as the sequence `[x, y, z, w]`.
pub trait Vec4<S: Lane>: Sized + Copy {
    spec fn lanes(&self) -> Seq<S>;

    /// A vector has four lanes.
    proof fn lemma_four_lanes(&self)
        ensures
            self.lanes().len() == 4,
    ;

    /// A vector from its four lanes.
    fn new(x: S, y: S, z: S, w: S) -> (r: Self)
        ensures
            r.lanes() == seq![x, y, z, w],
    ;

    /// The lanes as an array, in lane order.
    fn as_array(&self) -> (r: &[S; 4])
        ensures
            r@ == self.lanes(),
    ;

    /// Replaces lane `i`.
    fn set_lane(&mut self, i: usize, value: S)
        requires
            i < 4,
        ensures
            final(self).lanes() == old(self).lanes().update(i as int, value),
    ;

    /// Lane `i`.
    fn lane(&self, i: usize) -> (r: S)
        requires
            i < 4,
        ensures
            r == self.lanes()[i as int],
    {
        self.as_array()[i]
    }

    /// All four lanes equal to `value`.
    fn splat(value: S) -> (r: Self)
        ensures
            r.lanes() == seq![value, value, value, value],
    {
        Self::new(value, value, value, value)
    }

    /// A point in 3D space: the fourth lane is `1.0`.
    fn point(x: S, y: S, z: S) -> (r: Self)
        ensures
            r.lanes() == seq![x, y, z, S::one_spec()],
    {
        Self::new(x, y, z, S::one())
    }

    /// A direction in 3D space: the fourth lane is `+0.0`.
    fn direction(x: S, y: S, z: S) -> (r: Self)
        ensures
            r.lanes() == seq![x, y, z, S::zero_spec()],
    {
        Self::new(x, y, z, S::zero())
    }

    /// IEEE-754 equality on every lane.
    fn eq_reduce(&self, rhs: Self) -> (r: bool)
        ensures
            r == lanes_eq4(self.lanes(), rhs.lanes()),
    {
        let a = self.as_array();
        let b = rhs.as_array();
        eq_lanes(&a[0], &b[0]) && eq_lanes(&a[1], &b[1]) && eq_lanes(&a[2], &b[2]) && eq_lanes(
            &a[3],
            &b[3],
        )
    }

    /// Lane-wise minimum.
    fn min_componentwise(&self, rhs: Self) -> (r: Self)
        ensures
            r.lanes() == seq![
                lane_min(self.lanes()[0], rhs.lanes()[0]),
                lane_min(self.lanes()[1], rhs.lanes()[1]),
                lane_min(self.lanes()[2], rhs.lanes()[2]),
                lane_min(self.lanes()[3], rhs.lanes()[3]),
            ],
    {
        let a = self.as_array();
        let b = rhs.as_array();
        Self::new(
            min_lanes(&a[0], &b[0]),
            min_lanes(&a[1], &b[1]),
            min_lanes(&a[2], &b[2]),
            min_lanes(&a[3], &b[3]),
        )
    }

    /// Lane-wise maximum.
    fn max_componentwise(&self, rhs: Self) -> (r: Self)
        ensures
            r.lanes() == seq![
                lane_max(self.lanes()[0], rhs.lanes()[0]),
                lane_max(self.lanes()[1], rhs.lanes()[1]),
                lane_max(self.lanes()[2], rhs.lanes()[2]),
                lane_max(self.lanes()[3], rhs.lanes()[3]),
            ],
    {
        let a = self.as_array();
        let b = rhs.as_array();
        Self::new(
            max_lanes(&a[0], &b[0]),
            max_lanes(&a[1], &b[1]),
            max_lanes(&a[2], &b[2]),
            max_lanes(&a[3], &b[3]),
        )
    }

    /// Smallest lane, folded as `min(min(x, z), min(y, w))`.
    fn min_reduce(&self) -> (r: S)
        ensures
            r == lane_min(
                lane_min(self.lanes()[0], self.lanes()[2]),
                lane_min(self.lanes()[1], self.lanes()[3]),
            ),
    {
        let a = self.as_array();
        min_lanes(&min_lanes(&a[0], &a[2]), &min_lanes(&a[1], &a[3]))
    }

    /// Largest lane, folded as `max(max(x, z), max(y, w))`.
    fn max_reduce(&self) -> (r: S)
        ensures
            r == lane_max(
                lane_max(self.lanes()[0], self.lanes()[2]),
                lane_max(self.lanes()[1], self.lanes()[3]),
            ),
    {
        let a = self.as_array();
        max_lanes(&max_lanes(&a[0], &a[2]), &max_lanes(&a[1], &a[3]))
    }

    /// `splat(0.0) - self`, lane by lane.
    fn negate(&self) -> (r: Self)
        ensures
            r.lanes() == seq![
                self.lanes()[0].neg_spec(),
                self.lanes()[1].neg_spec(),
                self.lanes()[2].neg_spec(),
                self.lanes()[3].neg_spec(),
            ],
    {
        let a = self.as_array();
        Self::new(a[0].neg(), a[1].neg(), a[2].neg(), a[3].neg())
    }

    /// The lanes `(y, z, x, w)`: the rotation that the cross product applies
    /// to its operands and to their difference.
    fn rotate_xyz(&self) -> (r: Self)
        ensures
            r.lanes() == seq![self.lanes()[1], self.lanes()[2], self.lanes()[0], self.lanes()[3]],
    {
        let a = self.as_array();
        Self::new(a[1], a[2], a[0], a[3])
    }
}

/// A vector with a NaN lane is not equal to itself.
pub proof fn lemma_nan_not_equal4<S: Lane>(v: Seq<S>, i: int)
    requires
        0 <= i < 4,
        v[i].is_nan(),
    ensures
        !lanes_eq4(v, v),
{
    assert(!lane_eq(v[i], v[i]));
}

/// Vectors whose binary64 lanes are all `+0.0` or `-0.0` are equal, whatever
/// the signs: `(0.0, -0.0, 0.0, -0.0) == (0.0, 0.0, -0.0, -0.0)`.
pub proof fn lemma_signed_zeros_equal4_binary64(a: Seq<u64>, b: Seq<u64>)
    requires
        a.len() == 4,
        b.len() == 4,
        forall|i: int| 0 <= i < 4 ==> (#[trigger] a[i] == 0 || a[i] == SIGN64),
        forall|i: int| 0 <= i < 4 ==> (#[trigger] b[i] == 0 || b[i] == SIGN64),
    ensures
        lanes_eq4(a, b),
{
}

/// Vectors whose binary32 lanes are all `+0.0` or `-0.0` are equal, whatever
/// the signs.
pub proof fn lemma_signed_zeros_equal4_binary32(a: Seq<u32>, b: Seq<u32>)
    requires
        a.len() == 4,
        b.len() == 4,
        forall|i: int| 0 <= i < 4 ==> (#[trigger] a[i] == 0 || a[i] == SIGN32),
        forall|i: int| 0 <= i < 4 ==> (#[trigger] b[i] == 0 || b[i] == SIGN32),
    ensures
        lanes_eq4(a, b),
{
}

} // verus!
