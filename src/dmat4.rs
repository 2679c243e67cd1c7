//! 4x4 matrix of binary64 values.
use vstd::prelude::*;

use crate::dvec4::Dvec4;
use crate::mat4::{Mat4, entries_eq, splat_spec};
use crate::vec4::Vec4;

verus! {

/// 4x4 matrix with double precision, stored as four `Dvec4` columns.
#[derive(Copy, Clone, Debug)]
pub struct Dmat4 {
    pub(crate) inner: [Dvec4; 4],
}

impl Mat4<u64, Dvec4> for Dmat4 {
    closed spec fn entries(&self) -> Seq<Seq<u64>> {
        self.inner@.map_values(|c: Dvec4| c.lanes())
    }

    proof fn lemma_shape(&self) {
        assert forall|j: int| 0 <= j < 4 implies (#[trigger] self.entries()[j]).len() == 4 by {
            self.inner@[j].lemma_four_lanes();
        }
    }

    fn from_columns(x: Dvec4, y: Dvec4, z: Dvec4, w: Dvec4) -> (r: Dmat4) {
        let r = Dmat4 { inner: [x, y, z, w] };
        assert(r.entries() =~= seq![x.lanes(), y.lanes(), z.lanes(), w.lanes()]);
        r
    }

    fn as_array(&self) -> (r: &[Dvec4; 4]) {
        &self.inner
    }

    fn set_column(&mut self, j: usize, column: Dvec4) {
        self.inner[j] = column;
        assert(final(self).entries() =~= old(self).entries().update(j as int, column.lanes()));
    }
}

/// The zero matrix: every entry `+0.0`, whose bytes are all zero.
impl Default for Dmat4 {
    fn default() -> (r: Dmat4)
        ensures
            r.entries() == splat_spec(0u64),
    {
        Dmat4::splat(0)
    }
}

impl PartialEq for Dmat4 {
    fn eq(&self, rhs: &Dmat4) -> (r: bool) {
        self.eq_reduce(*rhs)
    }
}

impl vstd::std_specs::cmp::PartialEqSpecImpl for Dmat4 {
    open spec fn obeys_eq_spec() -> bool {
        true
    }

    open spec fn eq_spec(&self, rhs: &Dmat4) -> bool {
        entries_eq(self.entries(), rhs.entries())
    }
}

} // verus!
