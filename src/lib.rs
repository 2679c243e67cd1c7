//! Small fixed-size vectors and 4x4 matrices over IEEE-754 lanes.
//!
//! Every lane is held as the raw bit pattern of its binary64 (`u64`) or
//! binary32 (`u32`) value. What this library computes is exact on those
//! patterns: lane layout and order, construction, equality and ordering under
//! IEEE-754 rules, horizontal reductions, negation, and the lane permutations
//! behind transposition, the cross product and the rigid-transform inverse.
use vstd::prelude::*;

pub mod lane;
pub mod vec2;
pub mod vec4;
pub mod dvec2;
pub mod fvec2;
pub mod dvec4;
pub mod fvec4;
pub mod mat4;
pub mod dmat4;
pub mod fmat4;

pub use lane::{Lane, lane_eq, lane_lt, lane_max, lane_min};
pub use vec2::Vec2;
pub use vec4::Vec4;
pub use dvec2::Dvec2;
pub use fvec2::Fvec2;
pub use dvec4::Dvec4;
pub use fvec4::Fvec4;
pub use mat4::Mat4;
pub use dmat4::Dmat4;
pub use fmat4::Fmat4;
