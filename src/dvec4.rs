//! Four-lane vector of binary64 values.
use vstd::prelude::*;

use crate::vec4::{Vec4, lanes_eq4};

verus! {

/// 4D vector with double precision, lanes `[x, y, z, w]`, each the bit
/// pattern of a binary64 value.
#[derive(Copy, Clone, Debug)]
pub struct Dvec4 {
    pub(crate) inner: [u64; 4],
}

impl Vec4<u64> for Dvec4 {
    closed spec fn lanes(&self) -> Seq<u64> {
        self.inner@
    }

    proof fn lemma_four_lanes(&self) {
    }

    fn new(x: u64, y: u64, z: u64, w: u64) -> (r: Dvec4) {
        let r = Dvec4 { inner: [x, y, z, w] };
        assert(r.inner@ =~= seq![x, y, z, w]);
        r
    }

    fn as_array(&self) -> (r: &[u64; 4]) {
        &self.inner
    }

    fn set_lane(&mut self, i: usize, value: u64) {
        self.inner[i] = value;
    }
}

/// The zero vector: every lane `+0.0`, whose bytes are all zero.
impl Default for Dvec4 {
    fn default() -> (r: Dvec4)
        ensures
            r.lanes() == seq![0u64, 0u64, 0u64, 0u64],
    {
        let r = Dvec4 { inner: [0, 0, 0, 0] };
        assert(r.inner@ =~= seq![0u64, 0u64, 0u64, 0u64]);
        r
    }
}

impl PartialEq for Dvec4 {
    fn eq(&self, rhs: &Dvec4) -> (r: bool) {
        self.eq_reduce(*rhs)
    }
}

impl vstd::std_specs::cmp::PartialEqSpecImpl for Dvec4 {
    open spec fn obeys_eq_spec() -> bool {
        true
    }

    open spec fn eq_spec(&self, rhs: &Dvec4) -> bool {
        lanes_eq4(self.lanes(), rhs.lanes())
    }
}

} // verus!
