use vstd::prelude::*;

verus! {

/// Rust's `/` on integers: the quotient rounded toward zero.
pub open spec fn trunc_div(a: int, b: int) -> int
    recommends
        b != 0,
{
    if (a >= 0) == (b >= 0) {
        abs_int(a) / abs_int(b)
    } else {
        -(abs_int(a) / abs_int(b))
    }
}

/// Rust's `%` on integers: the remainder that takes the sign of the dividend.
pub open spec fn trunc_rem(a: int, b: int) -> int
    recommends
        b != 0,
{
    a - b * trunc_div(a, b)
}

/// Absolute value of a mathematical integer.
pub open spec fn abs_int(a: int) -> int {
    if a < 0 {
        -a
    } else {
        a
    }
}

/// Integer types that can be stored in a reading and combined arithmetically.
///
/// Each operation behaves as Rust's operator on the type and requires that
/// the exact result fits the type, which is when Rust's operator does not panic.
pub trait Numeric: Copy + Sized {
    /// The mathematical value of the integer.
    spec fn value(self) -> int;

    /// Whether a mathematical integer is representable in the type.
    spec fn fits(v: int) -> bool;

    /// `self + other`
    fn plus(self, other: Self) -> (r: Self)
        requires
            Self::fits(self.value() + other.value()),
        ensures
            r.value() == self.value() + other.value(),
    ;

    /// `self - other`
    fn minus(self, other: Self) -> (r: Self)
        requires
            Self::fits(self.value() - other.value()),
        ensures
            r.value() == self.value() - other.value(),
    ;

    /// `self * other`
    fn times(self, other: Self) -> (r: Self)
        requires
            Self::fits(self.value() * other.value()),
        ensures
            r.value() == self.value() * other.value(),
    ;

    /// `self / other`
    fn quotient(self, other: Self) -> (r: Self)
        requires
            other.value() != 0,
            Self::fits(trunc_div(self.value(), other.value())),
        ensures
            r.value() == trunc_div(self.value(), other.value()),
    ;

    /// `self % other`
    fn remainder(self, other: Self) -> (r: Self)
        requires
            other.value() != 0,
            Self::fits(trunc_div(self.value(), other.value())),
        ensures
            r.value() == trunc_rem(self.value(), other.value()),
    ;
}

/// Signed integer types, which can be negated.
pub trait SignedNumeric: Numeric {
    /// `-self`
    fn negated(self) -> (r: Self)
        requires
            Self::fits(-self.value()),
        ensures
            r.value() == -self.value(),
    ;
}

/// Quotient of two unsigned 32-bit magnitudes; helper for the signed types.
fn magnitude_div(a: u32, b: u32) -> (q: u32)
    requires
        b != 0,
    ensures
        q == a as int / b as int,
{
    a / b
}

impl Numeric for u8 {
    open spec fn value(self) -> int {
        self as int
    }

    open spec fn fits(v: int) -> bool {
        0 <= v <= u8::MAX
    }

    fn plus(self, other: u8) -> (r: u8) {
        self + other
    }

    fn minus(self, other: u8) -> (r: u8) {
        self - other
    }

    fn times(self, other: u8) -> (r: u8) {
        self * other
    }

    fn quotient(self, other: u8) -> (r: u8) {
        self / other
    }

    fn remainder(self, other: u8) -> (r: u8) {
        proof {
            vstd::arithmetic::div_mod::lemma_fundamental_div_mod(self as int, other as int);
        }
        self % other
    }
}

impl Numeric for u32 {
    open spec fn value(self) -> int {
        self as int
    }

    open spec fn fits(v: int) -> bool {
        0 <= v <= u32::MAX
    }

    fn plus(self, other: u32) -> (r: u32) {
        self + other
    }

    fn minus(self, other: u32) -> (r: u32) {
        self - other
    }

    fn times(self, other: u32) -> (r: u32) {
        self * other
    }

    fn quotient(self, other: u32) -> (r: u32) {
        self / other
    }

    fn remainder(self, other: u32) -> (r: u32) {
        proof {
            vstd::arithmetic::div_mod::lemma_fundamental_div_mod(self as int, other as int);
        }
        self % other
    }
}

/// Magnitude of a signed 32-bit value, which always fits in 32 unsigned bits.
fn magnitude_i32(a: i32) -> (m: u32)
    ensures
        m as int == abs_int(a as int),
{
    if a < 0 {
        (-(a as i64)) as u32
    } else {
        a as u32
    }
}

/// Signed quotient rounded toward zero, computed from magnitudes.
fn signed_quotient(a: i32, b: i32) -> (q: i64)
    requires
        b != 0,
    ensures
        q == trunc_div(a as int, b as int),
{
    let ma = magnitude_i32(a);
    let mb = magnitude_i32(b);
    let m = magnitude_div(ma, mb);
    if (a >= 0) == (b >= 0) {
        m as i64
    } else {
        -(m as i64)
    }
}

impl Numeric for i32 {
    open spec fn value(self) -> int {
        self as int
    }

    open spec fn fits(v: int) -> bool {
        i32::MIN <= v <= i32::MAX
    }

    fn plus(self, other: i32) -> (r: i32) {
        self + other
    }

    fn minus(self, other: i32) -> (r: i32) {
        self - other
    }

    fn times(self, other: i32) -> (r: i32) {
        self * other
    }

    fn quotient(self, other: i32) -> (r: i32) {
        signed_quotient(self, other) as i32
    }

    fn remainder(self, other: i32) -> (r: i32) {
        let q = signed_quotient(self, other);
        assert(trunc_rem(self as int, other as int) == self as int - other as int * q);
        proof {
            lemma_trunc_rem_bounded(self as int, other as int);
        }
        (self as i64 - other as i64 * q) as i32
    }
}

impl SignedNumeric for i32 {
    fn negated(self) -> (r: i32) {
        -self
    }
}

impl Numeric for i8 {
    open spec fn value(self) -> int {
        self as int
    }

    open spec fn fits(v: int) -> bool {
        i8::MIN <= v <= i8::MAX
    }

    fn plus(self, other: i8) -> (r: i8) {
        self + other
    }

    fn minus(self, other: i8) -> (r: i8) {
        self - other
    }

    fn times(self, other: i8) -> (r: i8) {
        self * other
    }

    fn quotient(self, other: i8) -> (r: i8) {
        signed_quotient(self as i32, other as i32) as i8
    }

    fn remainder(self, other: i8) -> (r: i8) {
        let q = signed_quotient(self as i32, other as i32);
        proof {
            lemma_trunc_rem_bounded(self as int, other as int);
        }
        (self as i64 - other as i64 * q) as i8
    }
}

impl SignedNumeric for i8 {
    fn negated(self) -> (r: i8) {
        -self
    }
}

/// A truncating quotient of integers in `lo..=hi` (a two's complement range)
/// stays in the range unless the most negative value is divided by -1.
pub proof fn lemma_trunc_div_fits(a: int, b: int, lo: int, hi: int)
    requires
        lo == -(hi + 1),
        hi >= 1,
        lo <= a <= hi,
        lo <= b <= hi,
        b != 0,
        !(a == lo && b == -1),
    ensures
        lo <= trunc_div(a, b) <= hi,
{
    let ma = abs_int(a);
    let mb = abs_int(b);
    vstd::arithmetic::div_mod::lemma_div_is_ordered_by_denominator(ma, 1, mb);
    assert(ma / 1 == ma);
    vstd::arithmetic::div_mod::lemma_div_pos_is_pos(ma, mb);
    if mb >= 2 {
        vstd::arithmetic::div_mod::lemma_div_is_ordered_by_denominator(ma, 2, mb);
    }
}

/// A truncating quotient of non-negative integers is between zero and the dividend.
pub proof fn lemma_trunc_div_unsigned(a: int, b: int)
    requires
        0 <= a,
        0 < b,
    ensures
        0 <= trunc_div(a, b) <= a,
{
    vstd::arithmetic::div_mod::lemma_div_is_ordered_by_denominator(a, 1, b);
    assert(a / 1 == a);
    vstd::arithmetic::div_mod::lemma_div_pos_is_pos(a, b);
}

/// The remainder of a truncating division is smaller in magnitude than the divisor.
pub proof fn lemma_trunc_rem_bounded(a: int, b: int)
    requires
        b != 0,
    ensures
        abs_int(trunc_rem(a, b)) < abs_int(b),
        trunc_rem(a, b) == 0 || (trunc_rem(a, b) < 0) == (a < 0),
{
    let ma = abs_int(a);
    let mb = abs_int(b);
    vstd::arithmetic::div_mod::lemma_fundamental_div_mod(ma, mb);
    let q = ma / mb;
    let r = ma % mb;
    assert(ma == mb * q + r);
    assert(0 <= r < mb);
    if (a >= 0) == (b >= 0) {
        if a >= 0 {
            assert(trunc_rem(a, b) == a - b * q);
            assert(b * q == mb * q);
        } else {
            assert(b * q == -(mb * q)) by (nonlinear_arith)
                requires b == -mb;
        }
    } else {
        if a >= 0 {
            assert(b * (-q) == mb * q) by (nonlinear_arith)
                requires b == -mb;
        } else {
            assert(b * (-q) == -(mb * q)) by (nonlinear_arith)
                requires b == mb;
        }
    }
}

} // verus!
