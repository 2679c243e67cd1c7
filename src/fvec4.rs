//! Four-lane vector of binary32 values.
use vstd::prelude::*;

use crate::vec4::{Vec4, lanes_eq4};

verus! {

/// 4D vector with single precision, lanes `[x, y, z, w]`, each the bit
/// pattern of a binary32 value.
#[derive(Copy, Clone, Debug)]
pub struct Fvec4 {
    pub(crate) inner: [u32; 4],
}

impl Vec4<u32> for Fvec4 {
    closed spec fn lanes(&self) -> Seq<u32> {
        self.inner@
    }

    proof fn lemma_four_lanes(&self) {
    }

    fn new(x: u32, y: u32, z: u32, w: u32) -> (r: Fvec4) {
        let r = Fvec4 { inner: [x, y, z, w] };
        assert(r.inner@ =~= seq![x, y, z, w]);
        r
    }

    fn as_array(&self) -> (r: &[u32; 4]) {
        &self.inner
    }

    fn set_lane(&mut self, i: usize, value: u32) {
        self.inner[i] = value;
    }
}

/// The zero vector: every lane `+0.0`, whose bytes are all zero.
impl Default for Fvec4 {
    fn default() -> (r: Fvec4)
        ensures
            r.lanes() == seq![0u32, 0u32, 0u32, 0u32],
    {
        let r = Fvec4 { inner: [0, 0, 0, 0] };
        assert(r.inner@ =~= seq![0u32, 0u32, 0u32, 0u32]);
        r
    }
}

impl PartialEq for Fvec4 {
    fn eq(&self, rhs: &Fvec4) -> (r: bool) {
        self.eq_reduce(*rhs)
    }
}

impl vstd::std_specs::cmp::PartialEqSpecImpl for Fvec4 {
    open spec fn obeys_eq_spec() -> bool {
        true
    }

    open spec fn eq_spec(&self, rhs: &Fvec4) -> bool {
        lanes_eq4(self.lanes(), rhs.lanes())
    }
}

} // verus!
