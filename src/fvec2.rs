//! Two-lane vector of binary32 values.
use vstd::prelude::*;

use crate::vec2::{Vec2, lanes_eq2};

verus! {

/// 2D vector with single precision, lanes `[x, y]`, each the bit
/// pattern of a binary32 value.
#[derive(Copy, Clone, Debug)]
pub struct Fvec2 {
    pub(crate) inner: [u32; 2],
}

impl Vec2<u32> for Fvec2 {
    closed spec fn lanes(&self) -> Seq<u32> {
        self.inner@
    }

    proof fn lemma_two_lanes(&self) {
    }

    fn new(x: u32, y: u32) -> (r: Fvec2) {
        let r = Fvec2 { inner: [x, y] };
        assert(r.inner@ =~= seq![x, y]);
        r
    }

    fn as_array(&self) -> (r: &[u32; 2]) {
        &self.inner
    }

    fn set_lane(&mut self, i: usize, value: u32) {
        self.inner[i] = value;
    }
}

/// The zero vector: every lane `+0.0`, whose bytes are all zero.
impl Default for Fvec2 {
    fn default() -> (r: Fvec2)
        ensures
            r.lanes() == seq![0u32, 0u32],
    {
        let r = Fvec2 { inner: [0, 0] };
        assert(r.inner@ =~= seq![0u32, 0u32]);
        r
    }
}

impl PartialEq for Fvec2 {
    fn eq(&self, rhs: &Fvec2) -> (r: bool) {
        self.eq_reduce(*rhs)
    }
}

impl vstd::std_specs::cmp::PartialEqSpecImpl for Fvec2 {
    open spec fn obeys_eq_spec() -> bool {
        true
    }

    open spec fn eq_spec(&self, rhs: &Fvec2) -> bool {
        lanes_eq2(self.lanes(), rhs.lanes())
    }
}

} // verus!
