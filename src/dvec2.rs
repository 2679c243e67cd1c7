//! Two-lane vector of binary64 values.
use vstd::prelude::*;

use crate::vec2::{Vec2, lanes_eq2};

verus! {

/// 2D vector with double precision, lanes `[x, y]`, each the bit
/// pattern of a binary64 value.
#[derive(Copy, Clone, Debug)]
pub struct Dvec2 {
    pub(crate) inner: [u64; 2],
}

impl Vec2<u64> for Dvec2 {
    closed spec fn lanes(&self) -> Seq<u64> {
        self.inner@
    }

    proof fn lemma_two_lanes(&self) {
    }

    fn new(x: u64, y: u64) -> (r: Dvec2) {
        let r = Dvec2 { inner: [x, y] };
        assert(r.inner@ =~= seq![x, y]);
        r
    }

    fn as_array(&self) -> (r: &[u64; 2]) {
        &self.inner
    }

    fn set_lane(&mut self, i: usize, value: u64) {
        self.inner[i] = value;
    }
}

/// The zero vector: every lane `+0.0`, whose bytes are all zero.
impl Default for Dvec2 {
    fn default() -> (r: Dvec2)
        ensures
            r.lanes() == seq![0u64, 0u64],
    {
        let r = Dvec2 { inner: [0, 0] };
        assert(r.inner@ =~= seq![0u64, 0u64]);
        r
    }
}

impl PartialEq for Dvec2 {
    fn eq(&self, rhs: &Dvec2) -> (r: bool) {
        self.eq_reduce(*rhs)
    }
}

impl vstd::std_specs::cmp::PartialEqSpecImpl for Dvec2 {
    open spec fn obeys_eq_spec() -> bool {
        true
    }

    open spec fn eq_spec(&self, rhs: &Dvec2) -> bool {
        lanes_eq2(self.lanes(), rhs.lanes())
    }
}

} // verus!
