//! Arithmetic that stops at the ends of a type's range.
use vstd::prelude::*;

verus! {

/// The value of the range from `least` to `most` that lies nearest to `value`.
pub open spec fn saturate(value: int, least: int, most: int) -> int {
    if value < least {
        least
    } else if value > most {
        most
    } else {
        value
    }
}

/// A trait for types that can add without overflowing
pub trait SaturatingAdd<Rhs = Self> {
    /// The resulting type after applying addition
    type Output;

    /// What `saturating_add` returns.
    spec fn saturating_add_spec(self, rhs: Rhs) -> Self::Output where Self: Sized;

    /// Add `rhs` to `self`, without overflowing
    fn saturating_add(self, rhs: Rhs) -> (sum: Self::Output)
        ensures
            sum == self.saturating_add_spec(rhs),
    ;
}

/// A trait for types that can be multiplied without overflowing
pub trait SaturatingMul<Rhs = Self> {
    /// The resulting type after applying multiplication
    type Output;

    /// What `saturating_mul` returns.
    spec fn saturating_mul_spec(self, rhs: Rhs) -> Self::Output where Self: Sized;

    /// Multiply `self` by `rhs`, without overflowing
    fn saturating_mul(self, rhs: Rhs) -> (product: Self::Output)
        ensures
            product == self.saturating_mul_spec(rhs),
    ;
}

/// A product of two factors of one sign is not negative, and one of two
/// factors of different signs is not positive.
proof fn lemma_product_sign(a: int, b: int)
    ensures
        (a < 0) == (b < 0) ==> a * b >= 0,
        (a < 0) != (b < 0) ==> a * b <= 0,
{
    assert((a < 0) == (b < 0) ==> a * b >= 0) by (nonlinear_arith);
    assert((a < 0) != (b < 0) ==> a * b <= 0) by (nonlinear_arith);
}

impl SaturatingAdd<u8> for u8 {
    type Output = u8;

    open spec fn saturating_add_spec(self, rhs: u8) -> u8 {
        saturate(self + rhs, u8::MIN as int, u8::MAX as int) as u8
    }

    fn saturating_add(self, rhs: u8) -> (sum: u8)
        ensures
            sum == saturate(self + rhs, u8::MIN as int, u8::MAX as int),
    {
        <u8>::saturating_add(self, rhs)
    }
}

impl SaturatingMul<u8> for u8 {
    type Output = u8;

    open spec fn saturating_mul_spec(self, rhs: u8) -> u8 {
        saturate(self * rhs, u8::MIN as int, u8::MAX as int) as u8
    }

    fn saturating_mul(self, rhs: u8) -> (product: u8)
        ensures
            product == saturate(self * rhs, u8::MIN as int, u8::MAX as int),
    {
        proof {
            lemma_product_sign(self as int, rhs as int);
        }
        match self.checked_mul(rhs) {
            Some(product) => product,
            None => u8::MAX,
        }
    }
}

impl SaturatingAdd<u16> for u16 {
    type Output = u16;

    open spec fn saturating_add_spec(self, rhs: u16) -> u16 {
        saturate(self + rhs, u16::MIN as int, u16::MAX as int) as u16
    }

    fn saturating_add(self, rhs: u16) -> (sum: u16)
        ensures
            sum == saturate(self + rhs, u16::MIN as int, u16::MAX as int),
    {
        <u16>::saturating_add(self, rhs)
    }
}

impl SaturatingMul<u16> for u16 {
    type Output = u16;

    open spec fn saturating_mul_spec(self, rhs: u16) -> u16 {
        saturate(self * rhs, u16::MIN as int, u16::MAX as int) as u16
    }

    fn saturating_mul(self, rhs: u16) -> (product: u16)
        ensures
            product == saturate(self * rhs, u16::MIN as int, u16::MAX as int),
    {
        proof {
            lemma_product_sign(self as int, rhs as int);
        }
        match self.checked_mul(rhs) {
            Some(product) => product,
            None => u16::MAX,
        }
    }
}

impl SaturatingAdd<u32> for u32 {
    type Output = u32;

    open spec fn saturating_add_spec(self, rhs: u32) -> u32 {
        saturate(self + rhs, u32::MIN as int, u32::MAX as int) as u32
    }

    fn saturating_add(self, rhs: u32) -> (sum: u32)
        ensures
            sum == saturate(self + rhs, u32::MIN as int, u32::MAX as int),
    {
        <u32>::saturating_add(self, rhs)
    }
}

impl SaturatingMul<u32> for u32 {
    type Output = u32;

    open spec fn saturating_mul_spec(self, rhs: u32) -> u32 {
        saturate(self * rhs, u32::MIN as int, u32::MAX as int) as u32
    }

    fn saturating_mul(self, rhs: u32) -> (product: u32)
        ensures
            product == saturate(self * rhs, u32::MIN as int, u32::MAX as int),
    {
        proof {
            lemma_product_sign(self as int, rhs as int);
        }
        match self.checked_mul(rhs) {
            Some(product) => product,
            None => u32::MAX,
        }
    }
}

impl SaturatingAdd<u64> for u64 {
    type Output = u64;

    open spec fn saturating_add_spec(self, rhs: u64) -> u64 {
        saturate(self + rhs, u64::MIN as int, u64::MAX as int) as u64
    }

    fn saturating_add(self, rhs: u64) -> (sum: u64)
        ensures
            sum == saturate(self + rhs, u64::MIN as int, u64::MAX as int),
    {
        <u64>::saturating_add(self, rhs)
    }
}

impl SaturatingMul<u64> for u64 {
    type Output = u64;

    open spec fn saturating_mul_spec(self, rhs: u64) -> u64 {
        saturate(self * rhs, u64::MIN as int, u64::MAX as int) as u64
    }

    fn saturating_mul(self, rhs: u64) -> (product: u64)
        ensures
            product == saturate(self * rhs, u64::MIN as int, u64::MAX as int),
    {
        proof {
            lemma_product_sign(self as int, rhs as int);
        }
        match self.checked_mul(rhs) {
            Some(product) => product,
            None => u64::MAX,
        }
    }
}

impl SaturatingAdd<u128> for u128 {
    type Output = u128;

    open spec fn saturating_add_spec(self, rhs: u128) -> u128 {
        saturate(self + rhs, u128::MIN as int, u128::MAX as int) as u128
    }

    fn saturating_add(self, rhs: u128) -> (sum: u128)
        ensures
            sum == saturate(self + rhs, u128::MIN as int, u128::MAX as int),
    {
        <u128>::saturating_add(self, rhs)
    }
}

impl SaturatingMul<u128> for u128 {
    type Output = u128;

    open spec fn saturating_mul_spec(self, rhs: u128) -> u128 {
        saturate(self * rhs, u128::MIN as int, u128::MAX as int) as u128
    }

    fn saturating_mul(self, rhs: u128) -> (product: u128)
        ensures
            product == saturate(self * rhs, u128::MIN as int, u128::MAX as int),
    {
        proof {
            lemma_product_sign(self as int, rhs as int);
        }
        match self.checked_mul(rhs) {
            Some(product) => product,
            None => u128::MAX,
        }
    }
}

impl SaturatingAdd<usize> for usize {
    type Output = usize;

    open spec fn saturating_add_spec(self, rhs: usize) -> usize {
        saturate(self + rhs, usize::MIN as int, usize::MAX as int) as usize
    }

    fn saturating_add(self, rhs: usize) -> (sum: usize)
        ensures
            sum == saturate(self + rhs, usize::MIN as int, usize::MAX as int),
    {
        <usize>::saturating_add(self, rhs)
    }
}

impl SaturatingMul<usize> for usize {
    type Output = usize;

    open spec fn saturating_mul_spec(self, rhs: usize) -> usize {
        saturate(self * rhs, usize::MIN as int, usize::MAX as int) as usize
    }

    fn saturating_mul(self, rhs: usize) -> (product: usize)
        ensures
            product == saturate(self * rhs, usize::MIN as int, usize::MAX as int),
    {
        proof {
            lemma_product_sign(self as int, rhs as int);
        }
        match self.checked_mul(rhs) {
            Some(product) => product,
            None => usize::MAX,
        }
    }
}

impl SaturatingAdd<i8> for i8 {
    type Output = i8;

    open spec fn saturating_add_spec(self, rhs: i8) -> i8 {
        saturate(self + rhs, i8::MIN as int, i8::MAX as int) as i8
    }

    fn saturating_add(self, rhs: i8) -> (sum: i8)
        ensures
            sum == saturate(self + rhs, i8::MIN as int, i8::MAX as int),
    {
        match self.checked_add(rhs) {
            Some(sum) => sum,
            None => if rhs < 0 {
                i8::MIN
            } else {
                i8::MAX
            },
        }
    }
}

impl SaturatingMul<i8> for i8 {
    type Output = i8;

    open spec fn saturating_mul_spec(self, rhs: i8) -> i8 {
        saturate(self * rhs, i8::MIN as int, i8::MAX as int) as i8
    }

    fn saturating_mul(self, rhs: i8) -> (product: i8)
        ensures
            product == saturate(self * rhs, i8::MIN as int, i8::MAX as int),
    {
        proof {
            lemma_product_sign(self as int, rhs as int);
        }
        match self.checked_mul(rhs) {
            Some(product) => product,
            None => if (self < 0) == (rhs < 0) {
                i8::MAX
            } else {
                i8::MIN
            },
        }
    }
}

impl SaturatingAdd<i16> for i16 {
    type Output = i16;

    open spec fn saturating_add_spec(self, rhs: i16) -> i16 {
        saturate(self + rhs, i16::MIN as int, i16::MAX as int) as i16
    }

    fn saturating_add(self, rhs: i16) -> (sum: i16)
        ensures
            sum == saturate(self + rhs, i16::MIN as int, i16::MAX as int),
    {
        match self.checked_add(rhs) {
            Some(sum) => sum,
            None => if rhs < 0 {
                i16::MIN
            } else {
                i16::MAX
            },
        }
    }
}

impl SaturatingMul<i16> for i16 {
    type Output = i16;

    open spec fn saturating_mul_spec(self, rhs: i16) -> i16 {
        saturate(self * rhs, i16::MIN as int, i16::MAX as int) as i16
    }

    fn saturating_mul(self, rhs: i16) -> (product: i16)
        ensures
            product == saturate(self * rhs, i16::MIN as int, i16::MAX as int),
    {
        proof {
            lemma_product_sign(self as int, rhs as int);
        }
        match self.checked_mul(rhs) {
            Some(product) => product,
            None => if (self < 0) == (rhs < 0) {
                i16::MAX
            } else {
                i16::MIN
            },
        }
    }
}

impl SaturatingAdd<i32> for i32 {
    type Output = i32;

    open spec fn saturating_add_spec(self, rhs: i32) -> i32 {
        saturate(self + rhs, i32::MIN as int, i32::MAX as int) as i32
    }

    fn saturating_add(self, rhs: i32) -> (sum: i32)
        ensures
            sum == saturate(self + rhs, i32::MIN as int, i32::MAX as int),
    {
        match self.checked_add(rhs) {
            Some(sum) => sum,
            None => if rhs < 0 {
                i32::MIN
            } else {
                i32::MAX
            },
        }
    }
}

impl SaturatingMul<i32> for i32 {
    type Output = i32;

    open spec fn saturating_mul_spec(self, rhs: i32) -> i32 {
        saturate(self * rhs, i32::MIN as int, i32::MAX as int) as i32
    }

    fn saturating_mul(self, rhs: i32) -> (product: i32)
        ensures
            product == saturate(self * rhs, i32::MIN as int, i32::MAX as int),
    {
        proof {
            lemma_product_sign(self as int, rhs as int);
        }
        match self.checked_mul(rhs) {
            Some(product) => product,
            None => if (self < 0) == (rhs < 0) {
                i32::MAX
            } else {
                i32::MIN
            },
        }
    }
}

impl SaturatingAdd<i64> for i64 {
    type Output = i64;

    open spec fn saturating_add_spec(self, rhs: i64) -> i64 {
        saturate(self + rhs, i64::MIN as int, i64::MAX as int) as i64
    }

    fn saturating_add(self, rhs: i64) -> (sum: i64)
        ensures
            sum == saturate(self + rhs, i64::MIN as int, i64::MAX as int),
    {
        match self.checked_add(rhs) {
            Some(sum) => sum,
            None => if rhs < 0 {
                i64::MIN
            } else {
                i64::MAX
            },
        }
    }
}

impl SaturatingMul<i64> for i64 {
    type Output = i64;

    open spec fn saturating_mul_spec(self, rhs: i64) -> i64 {
        saturate(self * rhs, i64::MIN as int, i64::MAX as int) as i64
    }

    fn saturating_mul(self, rhs: i64) -> (product: i64)
        ensures
            product == saturate(self * rhs, i64::MIN as int, i64::MAX as int),
    {
        proof {
            lemma_product_sign(self as int, rhs as int);
        }
        match self.checked_mul(rhs) {
            Some(product) => product,
            None => if (self < 0) == (rhs < 0) {
                i64::MAX
            } else {
                i64::MIN
            },
        }
    }
}

impl SaturatingAdd<i128> for i128 {
    type Output = i128;

    open spec fn saturating_add_spec(self, rhs: i128) -> i128 {
        saturate(self + rhs, i128::MIN as int, i128::MAX as int) as i128
    }

    fn saturating_add(self, rhs: i128) -> (sum: i128)
        ensures
            sum == saturate(self + rhs, i128::MIN as int, i128::MAX as int),
    {
        match self.checked_add(rhs) {
            Some(sum) => sum,
            None => if rhs < 0 {
                i128::MIN
            } else {
                i128::MAX
            },
        }
    }
}

impl SaturatingMul<i128> for i128 {
    type Output = i128;

    open spec fn saturating_mul_spec(self, rhs: i128) -> i128 {
        saturate(self * rhs, i128::MIN as int, i128::MAX as int) as i128
    }

    fn saturating_mul(self, rhs: i128) -> (product: i128)
        ensures
            product == saturate(self * rhs, i128::MIN as int, i128::MAX as int),
    {
        proof {
            lemma_product_sign(self as int, rhs as int);
        }
        match self.checked_mul(rhs) {
            Some(product) => product,
            None => if (self < 0) == (rhs < 0) {
                i128::MAX
            } else {
                i128::MIN
            },
        }
    }
}

impl SaturatingAdd<isize> for isize {
    type Output = isize;

    open spec fn saturating_add_spec(self, rhs: isize) -> isize {
        saturate(self + rhs, isize::MIN as int, isize::MAX as int) as isize
    }

    fn saturating_add(self, rhs: isize) -> (sum: isize)
        ensures
            sum == saturate(self + rhs, isize::MIN as int, isize::MAX as int),
    {
        match self.checked_add(rhs) {
            Some(sum) => sum,
            None => if rhs < 0 {
                isize::MIN
            } else {
                isize::MAX
            },
        }
    }
}

impl SaturatingMul<isize> for isize {
    type Output = isize;

    open spec fn saturating_mul_spec(self, rhs: isize) -> isize {
        saturate(self * rhs, isize::MIN as int, isize::MAX as int) as isize
    }

    fn saturating_mul(self, rhs: isize) -> (product: isize)
        ensures
            product == saturate(self * rhs, isize::MIN as int, isize::MAX as int),
    {
        proof {
            lemma_product_sign(self as int, rhs as int);
        }
        match self.checked_mul(rhs) {
            Some(product) => product,
            None => if (self < 0) == (rhs < 0) {
                isize::MAX
            } else {
                isize::MIN
            },
        }
    }
}

} // verus!
