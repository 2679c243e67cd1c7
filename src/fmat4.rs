//! 4x4 matrix of binary32 values.
use vstd::prelude::*;

use crate::fvec4::Fvec4;
use crate::mat4::{Mat4, entries_eq, splat_spec};
use crate::vec4::Vec4;

verus! {

/// 4x4 matrix with single precision, stored as four `Fvec4` columns.
#[derive(Copy, Clone, Debug)]
pub struct Fmat4 {
    pub(crate) inner: [Fvec4; 4],
}

impl Mat4<u32, Fvec4> for Fmat4 {
    closed spec fn entries(&self) -> Seq<Seq<u32>> {
        self.inner@.map_values(|c: Fvec4| c.lanes())
    }

    proof fn lemma_shape(&self) {
        assert forall|j: int| 0 <= j < 4 implies (#[trigger] self.entries()[j]).len() == 4 by {
            self.inner@[j].lemma_four_lanes();
        }
    }

    fn from_columns(x: Fvec4, y: Fvec4, z: Fvec4, w: Fvec4) -> (r: Fmat4) {
        let r = Fmat4 { inner: [x, y, z, w] };
        assert(r.entries() =~= seq![x.lanes(), y.lanes(), z.lanes(), w.lanes()]);
        r
    }

    fn as_array(&self) -> (r: &[Fvec4; 4]) {
        &self.inner
    }

    fn set_column(&mut self, j: usize, column: Fvec4) {
        self.inner[j] = column;
        assert(final(self).entries() =~= old(self).entries().update(j as int, column.lanes()));
    }
}

/// The zero matrix: every entry `+0.0`, whose bytes are all zero.
impl Default for Fmat4 {
    fn default() -> (r: Fmat4)
        ensures
            r.entries() == splat_spec(0u32),
    {
        Fmat4::splat(0)
    }
}

impl PartialEq for Fmat4 {
    fn eq(&self, rhs: &Fmat4) -> (r: bool) {
        self.eq_reduce(*rhs)
    }
}

impl vstd::std_specs::cmp::PartialEqSpecImpl for Fmat4 {
    open spec fn obeys_eq_spec() -> bool {
        true
    }

    open spec fn eq_spec(&self, rhs: &Fmat4) -> bool {
        entries_eq(self.entries(), rhs.entries())
    }
}

} // verus!
