//! Lanes: IEEE-754 values held as their bit patterns.
use vstd::prelude::*;

verus! {

/// Sign bit of a binary64 pattern.
pub const SIGN64: u64 = 0x8000_0000_0000_0000;

/// Exponent field of a binary64 pattern; magnitudes above it are NaN.
pub const EXP64: u64 = 0x7FF0_0000_0000_0000;

/// Quiet bit of a binary64 NaN.
pub const QUIET64: u64 = 0x0008_0000_0000_0000;

/// The binary64 pattern of `1.0`.
pub const ONE64: u64 = 0x3FF0_0000_0000_0000;

/// Sign bit of a binary32 pattern.
pub const SIGN32: u32 = 0x8000_0000;

/// Exponent field of a binary32 pattern; magnitudes above it are NaN.
pub const EXP32: u32 = 0x7F80_0000;

/// Quiet bit of a binary32 NaN.
pub const QUIET32: u32 = 0x0040_0000;

/// The binary32 pattern of `1.0`.
pub const ONE32: u32 = 0x3F80_0000;

/// A scalar lane: the bit pattern of an IEEE-754 value.
///
/// `order_key` places every non-NaN value on the integers in the order of
/// the values it stands for, with `+0.0` and `-0.0` both at zero.
pub trait Lane: Copy + Sized {
    /// The pattern is a NaN.
    spec fn is_nan(self) -> bool;

    /// Position of a non-NaN value in the IEEE-754 order.
    spec fn order_key(self) -> int;

    /// The pattern of `1.0`.
    spec fn one_spec() -> Self;

    /// The pattern of `+0.0`.
    spec fn zero_spec() -> Self;

    /// `+0.0 - self` under IEEE-754 rules (a NaN comes back quieted).
    spec fn neg_spec(self) -> Self;

    fn one() -> (r: Self)
        ensures
            r == Self::one_spec(),
    ;

    fn zero() -> (r: Self)
        ensures
            r == Self::zero_spec(),
    ;

    fn nan(&self) -> (r: bool)
        ensures
            r == self.is_nan(),
    ;

    fn key_lt(&self, rhs: &Self) -> (r: bool)
        ensures
            r == (self.order_key() < rhs.order_key()),
    ;

    fn key_eq(&self, rhs: &Self) -> (r: bool)
        ensures
            r == (self.order_key() == rhs.order_key()),
    ;

    fn neg(&self) -> (r: Self)
        ensures
            r == self.neg_spec(),
    ;
}

/// IEEE-754 equality: no NaN on either side, and the same value (`+0.0 == -0.0`).
pub open spec fn lane_eq<S: Lane>(a: S, b: S) -> bool {
    !a.is_nan() && !b.is_nan() && a.order_key() == b.order_key()
}

/// IEEE-754 `<`: false whenever a NaN takes part.
pub open spec fn lane_lt<S: Lane>(a: S, b: S) -> bool {
    !a.is_nan() && !b.is_nan() && a.order_key() < b.order_key()
}

/// Lane minimum: a NaN loses to the other operand; otherwise `a` where
/// `a < b`, else `b`.
pub open spec fn lane_min<S: Lane>(a: S, b: S) -> S {
    if a.is_nan() {
        b
    } else if b.is_nan() {
        a
    } else if lane_lt(a, b) {
        a
    } else {
        b
    }
}

/// Lane maximum: a NaN loses to the other operand; otherwise `a` where
/// `a > b`, else `b`.
pub open spec fn lane_max<S: Lane>(a: S, b: S) -> S {
    if a.is_nan() {
        b
    } else if b.is_nan() {
        a
    } else if lane_lt(b, a) {
        a
    } else {
        b
    }
}

/// Computes `lane_eq`.
pub fn eq_lanes<S: Lane>(a: &S, b: &S) -> (r: bool)
    ensures
        r == lane_eq(*a, *b),
{
    !a.nan() && !b.nan() && a.key_eq(b)
}

/// Computes `lane_min`.
pub fn min_lanes<S: Lane>(a: &S, b: &S) -> (r: S)
    ensures
        r == lane_min(*a, *b),
{
    if a.nan() {
        *b
    } else if b.nan() {
        *a
    } else if a.key_lt(b) {
        *a
    } else {
        *b
    }
}

/// Computes `lane_max`.
pub fn max_lanes<S: Lane>(a: &S, b: &S) -> (r: S)
    ensures
        r == lane_max(*a, *b),
{
    if a.nan() {
        *b
    } else if b.nan() {
        *a
    } else if b.key_lt(a) {
        *a
    } else {
        *b
    }
}

/// Magnitude of a binary64 pattern: everything but the sign bit.
pub open spec fn magnitude64(b: u64) -> int {
    if b >= SIGN64 {
        b - SIGN64
    } else {
        b as int
    }
}

/// The quiet bit of a binary64 pattern is set.
pub open spec fn quiet64(b: u64) -> bool {
    (b / QUIET64) % 2 == 1
}

impl Lane for u64 {
    open spec fn is_nan(self) -> bool {
        magnitude64(self) > EXP64
    }

    open spec fn order_key(self) -> int {
        if self >= SIGN64 {
            -magnitude64(self)
        } else {
            self as int
        }
    }

    open spec fn one_spec() -> u64 {
        ONE64
    }

    open spec fn zero_spec() -> u64 {
        0
    }

    open spec fn neg_spec(self) -> u64 {
        if self.is_nan() {
            if quiet64(self) {
                self
            } else {
                (self + QUIET64) as u64
            }
        } else if magnitude64(self) == 0 {
            0
        } else if self >= SIGN64 {
            (self - SIGN64) as u64
        } else {
            (self + SIGN64) as u64
        }
    }

    fn one() -> (r: u64) {
        ONE64
    }

    fn zero() -> (r: u64) {
        0
    }

    fn nan(&self) -> (r: bool) {
        let m: u64 = if *self >= SIGN64 { *self - SIGN64 } else { *self };
        m > EXP64
    }

    fn key_lt(&self, rhs: &u64) -> (r: bool) {
        let a: u64 = *self;
        let b: u64 = *rhs;
        if a >= SIGN64 {
            if b >= SIGN64 {
                a > b
            } else {
                a != SIGN64 || b != 0
            }
        } else {
            b < SIGN64 && a < b
        }
    }

    fn key_eq(&self, rhs: &u64) -> (r: bool) {
        let a: u64 = *self;
        let b: u64 = *rhs;
        a == b || ((a == 0 || a == SIGN64) && (b == 0 || b == SIGN64))
    }

    fn neg(&self) -> (r: u64) {
        let b: u64 = *self;
        let m: u64 = if b >= SIGN64 { b - SIGN64 } else { b };
        if m > EXP64 {
            if (b / QUIET64) % 2 == 1 {
                b
            } else {
                b + QUIET64
            }
        } else if m == 0 {
            0
        } else if b >= SIGN64 {
            b - SIGN64
        } else {
            b + SIGN64
        }
    }
}

/// Magnitude of a binary32 pattern: everything but the sign bit.
pub open spec fn magnitude32(b: u32) -> int {
    if b >= SIGN32 {
        b - SIGN32
    } else {
        b as int
    }
}

/// The quiet bit of a binary32 pattern is set.
pub open spec fn quiet32(b: u32) -> bool {
    (b / QUIET32) % 2 == 1
}

impl Lane for u32 {
    open spec fn is_nan(self) -> bool {
        magnitude32(self) > EXP32
    }

    open spec fn order_key(self) -> int {
        if self >= SIGN32 {
            -magnitude32(self)
        } else {
            self as int
        }
    }

    open spec fn one_spec() -> u32 {
        ONE32
    }

    open spec fn zero_spec() -> u32 {
        0
    }

    open spec fn neg_spec(self) -> u32 {
        if self.is_nan() {
            if quiet32(self) {
                self
            } else {
                (self + QUIET32) as u32
            }
        } else if magnitude32(self) == 0 {
            0
        } else if self >= SIGN32 {
            (self - SIGN32) as u32
        } else {
            (self + SIGN32) as u32
        }
    }

    fn one() -> (r: u32) {
        ONE32
    }

    fn zero() -> (r: u32) {
        0
    }

    fn nan(&self) -> (r: bool) {
        let m: u32 = if *self >= SIGN32 { *self - SIGN32 } else { *self };
        m > EXP32
    }

    fn key_lt(&self, rhs: &u32) -> (r: bool) {
        let a: u32 = *self;
        let b: u32 = *rhs;
        if a >= SIGN32 {
            if b >= SIGN32 {
                a > b
            } else {
                a != SIGN32 || b != 0
            }
        } else {
            b < SIGN32 && a < b
        }
    }

    fn key_eq(&self, rhs: &u32) -> (r: bool) {
        let a: u32 = *self;
        let b: u32 = *rhs;
        a == b || ((a == 0 || a == SIGN32) && (b == 0 || b == SIGN32))
    }

    fn neg(&self) -> (r: u32) {
        let b: u32 = *self;
        let m: u32 = if b >= SIGN32 { b - SIGN32 } else { b };
        if m > EXP32 {
            if (b / QUIET32) % 2 == 1 {
                b
            } else {
                b + QUIET32
            }
        } else if m == 0 {
            0
        } else if b >= SIGN32 {
            b - SIGN32
        } else {
            b + SIGN32
        }
    }
}

} // verus!
