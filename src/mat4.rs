//! 4x4 matrices stored as four column vectors.
use vstd::prelude::*;

use crate::lane::Lane;
use crate::vec4::{Vec4, lanes_eq4};

verus! {

/// A 4x4 shape: four columns of four lanes each.
pub open spec fn is_mat4<S>(m: Seq<Seq<S>>) -> bool {
    m.len() == 4 && forall|j: int| 0 <= j < 4 ==> (#[trigger] m[j]).len() == 4
}

/// Transpose of column-major entries: column `j` of the result holds
/// row `j` of `m`.
pub open spec fn transpose_spec<S>(m: Seq<Seq<S>>) -> Seq<Seq<S>> {
    Seq::new(4, |j: int| Seq::new(4, |i: int| m[i][j]))
}

/// Every entry equal to `value`.
pub open spec fn splat_spec<S>(value: S) -> Seq<Seq<S>> {
    Seq::new(4, |j: int| Seq::new(4, |i: int| value))
}

/// Ones on the diagonal, `+0.0` elsewhere.
pub open spec fn identity_spec<S: Lane>() -> Seq<Seq<S>> {
    Seq::new(
        4,
        |j: int| Seq::new(4, |i: int| if i == j { S::one_spec() } else { S::zero_spec() }),
    )
}

/// Entries of `a` and `b` are IEEE-equal, column by column.
pub open spec fn entries_eq<S: Lane>(a: Seq<Seq<S>>, b: Seq<Seq<S>>) -> bool {
    forall|j: int| 0 <= j < 4 ==> #[trigger] lanes_eq4(a[j], b[j])
}

/// `+0.0 - m`, entry by entry.
pub open spec fn negate_spec<S: Lane>(m: Seq<Seq<S>>) -> Seq<Seq<S>> {
    Seq::new(4, |j: int| Seq::new(4, |i: int| m[j][i].neg_spec()))
}

/// The homogeneous origin `(0, 0, 0, 1)`.
pub open spec fn origin_spec<S: Lane>() -> Seq<S> {
    seq![S::zero_spec(), S::zero_spec(), S::zero_spec(), S::one_spec()]
}

/// Methods on 4x4 matrices with lanes of type `S` and columns of type `V`.
///
/// `entries` is the matrix in column-major order: `entries()[j][i]` is
/// row `i` of column `j`.
pub trait Mat4<S: Lane, V: Vec4<S>>: Sized + Copy {
    spec fn entries(&self) -> Seq<Seq<S>>;

    /// A matrix has four columns of four lanes.
    proof fn lemma_shape(&self)
        ensures
            is_mat4(self.entries()),
    ;

    /// A matrix from its four columns.
    fn from_columns(x: V, y: V, z: V, w: V) -> (r: Self)
        ensures
            r.entries() == seq![x.lanes(), y.lanes(), z.lanes(), w.lanes()],
    ;

    /// The columns as an array, in column order.
    fn as_array(&self) -> (r: &[V; 4])
        ensures
            forall|j: int| 0 <= j < 4 ==> (#[trigger] r@[j]).lanes() == self.entries()[j],
    ;

    /// Replaces column `j`.
    fn set_column(&mut self, j: usize, column: V)
        requires
            j < 4,
        ensures
            final(self).entries() == old(self).entries().update(j as int, column.lanes()),
    ;

    /// Column `j`.
    fn column(&self, j: usize) -> (r: V)
        requires
            j < 4,
        ensures
            r.lanes() == self.entries()[j as int],
    {
        self.as_array()[j]
    }

    /// Every entry equal to `value`.
    fn splat(value: S) -> (r: Self)
        ensures
            r.entries() == splat_spec(value),
    {
        let r = Self::from_columns(V::splat(value), V::splat(value), V::splat(value), V::splat(value));
        assert(r.entries() =~~= splat_spec(value));
        r
    }

    /// A matrix from its four rows; stored by columns.
    fn from_rows(r0: [S; 4], r1: [S; 4], r2: [S; 4], r3: [S; 4]) -> (r: Self)
        ensures
            r.entries() == transpose_spec(seq![r0@, r1@, r2@, r3@]),
    {
        let r = Self::from_columns(
            V::new(r0[0], r1[0], r2[0], r3[0]),
            V::new(r0[1], r1[1], r2[1], r3[1]),
            V::new(r0[2], r1[2], r2[2], r3[2]),
            V::new(r0[3], r1[3], r2[3], r3[3]),
        );
        assert(r.entries() =~~= transpose_spec(seq![r0@, r1@, r2@, r3@]));
        r
    }

    /// The identity matrix.
    fn identity() -> (r: Self)
        ensures
            r.entries() == identity_spec::<S>(),
    {
        let r = Self::from_columns(
            V::new(S::one(), S::zero(), S::zero(), S::zero()),
            V::new(S::zero(), S::one(), S::zero(), S::zero()),
            V::new(S::zero(), S::zero(), S::one(), S::zero()),
            V::new(S::zero(), S::zero(), S::zero(), S::one()),
        );
        assert(r.entries() =~~= identity_spec::<S>());
        r
    }

    /// Swaps rows and columns.
    fn transpose(&self) -> (r: Self)
        ensures
            r.entries() == transpose_spec(self.entries()),
    {
        let c = self.as_array();
        let r = Self::from_columns(
            V::new(c[0].lane(0), c[1].lane(0), c[2].lane(0), c[3].lane(0)),
            V::new(c[0].lane(1), c[1].lane(1), c[2].lane(1), c[3].lane(1)),
            V::new(c[0].lane(2), c[1].lane(2), c[2].lane(2), c[3].lane(2)),
            V::new(c[0].lane(3), c[1].lane(3), c[2].lane(3), c[3].lane(3)),
        );
        assert(r.entries() =~~= transpose_spec(self.entries()));
        r
    }

    /// IEEE-754 equality on every entry.
    fn eq_reduce(&self, rhs: Self) -> (r: bool)
        ensures
            r == entries_eq(self.entries(), rhs.entries()),
    {
        let a = self.as_array();
        let b = rhs.as_array();
        let e0 = a[0].eq_reduce(b[0]);
        let e1 = a[1].eq_reduce(b[1]);
        let e2 = a[2].eq_reduce(b[2]);
        let e3 = a[3].eq_reduce(b[3]);
        let r = e0 && e1 && e2 && e3;
        assert(r == entries_eq(self.entries(), rhs.entries())) by {
            if !e0 {
                assert(!lanes_eq4(self.entries()[0], rhs.entries()[0]));
            } else if !e1 {
                assert(!lanes_eq4(self.entries()[1], rhs.entries()[1]));
            } else if !e2 {
                assert(!lanes_eq4(self.entries()[2], rhs.entries()[2]));
            } else if !e3 {
                assert(!lanes_eq4(self.entries()[3], rhs.entries()[3]));
            }
        }
        r
    }

    /// `splat(0.0) - self`, entry by entry.
    fn negate(&self) -> (r: Self)
        ensures
            r.entries() == negate_spec(self.entries()),
    {
        let c = self.as_array();
        let r = Self::from_columns(c[0].negate(), c[1].negate(), c[2].negate(), c[3].negate());
        assert(r.entries() =~~= negate_spec(self.entries()));
        r
    }

    /// First step of inverting a rigid transform: column 3 replaced by the
    /// origin `(0, 0, 0, 1)`, then the whole transposed. For an orthonormal
    /// rotation block this is the inverse rotation.
    fn rotation_inverse(&self) -> (r: Self)
        ensures
            r.entries() == transpose_spec(self.entries().update(3, origin_spec::<S>())),
    {
        let mut m = *self;
        m.set_column(3, V::new(S::zero(), S::zero(), S::zero(), S::one()));
        m.transpose()
    }

    /// Last step of inverting a rigid transform: column 3 becomes
    /// `translation` with its fourth lane set to `1.0`.
    fn with_translation(&self, translation: V) -> (r: Self)
        ensures
            r.entries() == self.entries().update(3, translation.lanes().update(3, S::one_spec())),
    {
        let mut t = translation;
        t.set_lane(3, S::one());
        let mut m = *self;
        m.set_column(3, t);
        m
    }
}

/// Transposing twice gives the matrix back.
pub proof fn lemma_transpose_involution<S>(m: Seq<Seq<S>>)
    requires
        is_mat4(m),
    ensures
        transpose_spec(transpose_spec(m)) == m,
{
    assert(transpose_spec(transpose_spec(m)) =~~= m);
}

/// For a rotation-only matrix (column 3 is the origin `(0, 0, 0, 1)`), the
/// rotation step of the rigid-transform inverse is the transpose.
pub proof fn lemma_rotation_inverse_is_transpose<S: Lane>(m: Seq<Seq<S>>)
    requires
        is_mat4(m),
        m[3] == origin_spec::<S>(),
    ensures
        transpose_spec(m.update(3, origin_spec::<S>())) == transpose_spec(m),
{
    assert(m.update(3, origin_spec::<S>()) =~= m);
}

} // verus!
