//! Integer types that a random value can be bounded into.
use vstd::prelude::*;

verus! {

/// A fixed-width integer type whose values the bounding arithmetic can take
/// through `i128` and back.
pub trait BoundInt: Sized {
    /// The mathematical value of `self`.
    spec fn as_int(&self) -> int;

    /// `self` as an `i128`, where it fits.
    fn widen(&self) -> (r: i128)
        requires
            i128::MIN <= self.as_int() <= i128::MAX,
        ensures
            r as int == self.as_int(),
    ;

    /// The value `v`, which lies between two values of this type.
    fn narrow(v: i128, lo: &Self, hi: &Self) -> (r: Self)
        requires
            lo.as_int() <= v as int <= hi.as_int(),
        ensures
            r.as_int() == v as int,
    ;
}

impl BoundInt for u8 {
    open spec fn as_int(&self) -> int {
        *self as int
    }

    fn widen(&self) -> (r: i128) {
        *self as i128
    }

    fn narrow(v: i128, lo: &Self, hi: &Self) -> (r: Self) {
        v as u8
    }
}

impl BoundInt for u16 {
    open spec fn as_int(&self) -> int {
        *self as int
    }

    fn widen(&self) -> (r: i128) {
        *self as i128
    }

    fn narrow(v: i128, lo: &Self, hi: &Self) -> (r: Self) {
        v as u16
    }
}

impl BoundInt for u32 {
    open spec fn as_int(&self) -> int {
        *self as int
    }

    fn widen(&self) -> (r: i128) {
        *self as i128
    }

    fn narrow(v: i128, lo: &Self, hi: &Self) -> (r: Self) {
        v as u32
    }
}

impl BoundInt for u64 {
    open spec fn as_int(&self) -> int {
        *self as int
    }

    fn widen(&self) -> (r: i128) {
        *self as i128
    }

    fn narrow(v: i128, lo: &Self, hi: &Self) -> (r: Self) {
        v as u64
    }
}

impl BoundInt for u128 {
    open spec fn as_int(&self) -> int {
        *self as int
    }

    fn widen(&self) -> (r: i128) {
        *self as i128
    }

    fn narrow(v: i128, lo: &Self, hi: &Self) -> (r: Self) {
        v as u128
    }
}

impl BoundInt for usize {
    open spec fn as_int(&self) -> int {
        *self as int
    }

    fn widen(&self) -> (r: i128) {
        *self as i128
    }

    fn narrow(v: i128, lo: &Self, hi: &Self) -> (r: Self) {
        v as usize
    }
}

impl BoundInt for i8 {
    open spec fn as_int(&self) -> int {
        *self as int
    }

    fn widen(&self) -> (r: i128) {
        *self as i128
    }

    fn narrow(v: i128, lo: &Self, hi: &Self) -> (r: Self) {
        v as i8
    }
}

impl BoundInt for i16 {
    open spec fn as_int(&self) -> int {
        *self as int
    }

    fn widen(&self) -> (r: i128) {
        *self as i128
    }

    fn narrow(v: i128, lo: &Self, hi: &Self) -> (r: Self) {
        v as i16
    }
}

impl BoundInt for i32 {
    open spec fn as_int(&self) -> int {
        *self as int
    }

    fn widen(&self) -> (r: i128) {
        *self as i128
    }

    fn narrow(v: i128, lo: &Self, hi: &Self) -> (r: Self) {
        v as i32
    }
}

impl BoundInt for i64 {
    open spec fn as_int(&self) -> int {
        *self as int
    }

    fn widen(&self) -> (r: i128) {
        *self as i128
    }

    fn narrow(v: i128, lo: &Self, hi: &Self) -> (r: Self) {
        v as i64
    }
}

impl BoundInt for i128 {
    open spec fn as_int(&self) -> int {
        *self as int
    }

    fn widen(&self) -> (r: i128) {
        *self as i128
    }

    fn narrow(v: i128, lo: &Self, hi: &Self) -> (r: Self) {
        v as i128
    }
}

impl BoundInt for isize {
    open spec fn as_int(&self) -> int {
        *self as int
    }

    fn widen(&self) -> (r: i128) {
        *self as i128
    }

    fn narrow(v: i128, lo: &Self, hi: &Self) -> (r: Self) {
        v as isize
    }
}

} // verus!
