//! Readings that may be missing.
use vstd::prelude::*;
use vstd::std_specs::cmp::PartialEqSpec;
use crate::io::numeric::{
    Numeric, SignedNumeric, trunc_div, trunc_rem, lemma_trunc_div_fits, lemma_trunc_div_unsigned,
};
use crate::io::order::{
    Relation, int_relation, float_relation, float_close, float_negated, relate_i64, relate_float,
    close_float, negate_float, flipped, float_is_nan, law_float_relation_flips,
    law_float_close_symmetric, law_float_negated_involutive,
};
use crate::io::text::{decimal, signed_decimal, unsigned_text, signed_text};
use crate::io::raw::RawValue;

verus! {

/// Value passed between I/O abstractions; each variant may hold no value.
///
/// `Float` holds the IEEE-754 single-precision bit pattern of the number.
#[derive(Debug, Clone, Copy)]
pub enum Datum {
    Binary(Option<bool>),
    PosInt8(Option<u8>),
    Int8(Option<i8>),
    PosInt(Option<u32>),
    Int(Option<i32>),
    Float(Option<u32>),
}

/// Combine two optional values: `Some` of the combination when both are
/// `Some`, otherwise `None`.
pub open spec fn combine<T>(l: Option<T>, r: Option<T>, f: spec_fn(T, T) -> T) -> Option<T> {
    match (l, r) {
        (Some(a), Some(b)) => Some(f(a, b)),
        _ => None,
    }
}

/// A condition on two optional values that only constrains the case where both are `Some`.
pub open spec fn both_some_then<T>(l: Option<T>, r: Option<T>, ok: spec_fn(T, T) -> bool) -> bool {
    match (l, r) {
        (Some(a), Some(b)) => ok(a, b),
        _ => true,
    }
}

/// What `inner` reports of an optional pair under an integer operation:
/// `Some` with the exact result when both are `Some`, `None` otherwise.
pub open spec fn inner_result<T: Numeric>(
    l: Option<T>,
    r: Option<T>,
    res: Option<T>,
    f: spec_fn(int, int) -> int,
) -> bool {
    match (l, r) {
        (Some(a), Some(b)) => res is Some && res->0.value() == f(a.value(), b.value()),
        _ => res is None,
    }
}

/// Add two optional values: the sum when both are `Some`, otherwise `None`.
pub fn add_inner<T: Numeric>(l: Option<T>, r: Option<T>) -> (res: Option<T>)
    requires
        both_some_then(l, r, |a: T, b: T| T::fits(a.value() + b.value())),
    ensures
        inner_result(l, r, res, |a: int, b: int| a + b),
{
    match (l, r) {
        (Some(a), Some(b)) => Some(a.plus(b)),
        _ => None,
    }
}

/// Subtract two optional values: the difference when both are `Some`, otherwise `None`.
pub fn sub_inner<T: Numeric>(l: Option<T>, r: Option<T>) -> (res: Option<T>)
    requires
        both_some_then(l, r, |a: T, b: T| T::fits(a.value() - b.value())),
    ensures
        inner_result(l, r, res, |a: int, b: int| a - b),
{
    match (l, r) {
        (Some(a), Some(b)) => Some(a.minus(b)),
        _ => None,
    }
}

/// Multiply two optional values: the product when both are `Some`, otherwise `None`.
pub fn mul_inner<T: Numeric>(l: Option<T>, r: Option<T>) -> (res: Option<T>)
    requires
        both_some_then(l, r, |a: T, b: T| T::fits(a.value() * b.value())),
    ensures
        inner_result(l, r, res, |a: int, b: int| a * b),
{
    match (l, r) {
        (Some(a), Some(b)) => Some(a.times(b)),
        _ => None,
    }
}

/// Divide two optional values: the quotient, rounded toward zero, when both
/// are `Some`, otherwise `None`.
pub fn div_inner<T: Numeric>(l: Option<T>, r: Option<T>) -> (res: Option<T>)
    requires
        both_some_then(
            l,
            r,
            |a: T, b: T| b.value() != 0 && T::fits(trunc_div(a.value(), b.value())),
        ),
    ensures
        inner_result(l, r, res, |a: int, b: int| trunc_div(a, b)),
{
    match (l, r) {
        (Some(a), Some(b)) => Some(a.quotient(b)),
        _ => None,
    }
}

/// Remainder of two optional values, with the sign of the dividend, when
/// both are `Some`, otherwise `None`.
pub fn rem_inner<T: Numeric>(l: Option<T>, r: Option<T>) -> (res: Option<T>)
    requires
        both_some_then(
            l,
            r,
            |a: T, b: T| b.value() != 0 && T::fits(trunc_div(a.value(), b.value())),
        ),
    ensures
        inner_result(l, r, res, |a: int, b: int| trunc_rem(a, b)),
{
    match (l, r) {
        (Some(a), Some(b)) => Some(a.remainder(b)),
        _ => None,
    }
}

/// Negate an optional value: `Some` of the negation, or `None`.
pub fn neg_inner<T: SignedNumeric>(x: Option<T>) -> (res: Option<T>)
    requires
        x matches Some(a) ==> T::fits(-a.value()),
    ensures
        match x {
            Some(a) => res is Some && res->0.value() == -a.value(),
            None => res is None,
        },
{
    match x {
        Some(a) => Some(a.negated()),
        None => None,
    }
}

/// Check if two optional values are equal: when both are `Some`, whether
/// their values are equal; when either is `None`, `true`.
pub fn eq_inner<T: PartialEq>(l: &Option<T>, r: &Option<T>) -> (res: bool)
    ensures
        T::obeys_eq_spec() ==> res == match (l, r) {
            (Some(a), Some(b)) => a.eq_spec(b),
            _ => true,
        },
{
    if let Some(a) = l {
        if let Some(b) = r {
            return a == b;
        }
    }
    true
}

} // verus!

verus! {

/// Whether the datum holds a value.
pub open spec fn datum_is_some(d: Datum) -> bool {
    match d {
        Datum::Binary(x) => x is Some,
        Datum::PosInt8(x) => x is Some,
        Datum::Int8(x) => x is Some,
        Datum::PosInt(x) => x is Some,
        Datum::Int(x) => x is Some,
        Datum::Float(x) => x is Some,
    }
}

/// Position of the variant in declaration order; variants order by it.
pub open spec fn datum_rank(d: Datum) -> int {
    match d {
        Datum::Binary(_) => 0,
        Datum::PosInt8(_) => 1,
        Datum::Int8(_) => 2,
        Datum::PosInt(_) => 3,
        Datum::Int(_) => 4,
        Datum::Float(_) => 5,
    }
}

/// Ordering of optional values: `None` before `Some`, and `Some` values by `inner`.
pub open spec fn option_relation<T>(
    x: Option<T>,
    y: Option<T>,
    inner: spec_fn(T, T) -> Option<Relation>,
) -> Option<Relation> {
    match (x, y) {
        (None, None) => Some(Relation::Equal),
        (None, Some(_)) => Some(Relation::Less),
        (Some(_), None) => Some(Relation::Greater),
        (Some(a), Some(b)) => inner(a, b),
    }
}

/// Ordering of two data: by variant, then by the held optional value;
/// `None` when two numbers are compared and either is NaN.
pub open spec fn datum_relation(a: Datum, b: Datum) -> Option<Relation> {
    match (a, b) {
        (Datum::Binary(x), Datum::Binary(y)) => option_relation(
            x,
            y,
            |p: bool, q: bool|
                Some(int_relation(if p { 1int } else { 0int }, if q { 1int } else { 0int })),
        ),
        (Datum::PosInt8(x), Datum::PosInt8(y)) => option_relation(
            x,
            y,
            |p: u8, q: u8| Some(int_relation(p as int, q as int)),
        ),
        (Datum::Int8(x), Datum::Int8(y)) => option_relation(
            x,
            y,
            |p: i8, q: i8| Some(int_relation(p as int, q as int)),
        ),
        (Datum::PosInt(x), Datum::PosInt(y)) => option_relation(
            x,
            y,
            |p: u32, q: u32| Some(int_relation(p as int, q as int)),
        ),
        (Datum::Int(x), Datum::Int(y)) => option_relation(
            x,
            y,
            |p: i32, q: i32| Some(int_relation(p as int, q as int)),
        ),
        (Datum::Float(x), Datum::Float(y)) => option_relation(
            x,
            y,
            |p: u32, q: u32| float_relation(p, q),
        ),
        _ => Some(int_relation(datum_rank(a), datum_rank(b))),
    }
}

/// Equality of two data: the same variant and both missing, or both holding
/// equal values; numbers are equal when at most two representable values apart.
pub open spec fn datum_equal(a: Datum, b: Datum) -> bool {
    match (a, b) {
        (Datum::Binary(x), Datum::Binary(y)) => x == y,
        (Datum::PosInt8(x), Datum::PosInt8(y)) => x == y,
        (Datum::Int8(x), Datum::Int8(y)) => x == y,
        (Datum::PosInt(x), Datum::PosInt(y)) => x == y,
        (Datum::Int(x), Datum::Int(y)) => x == y,
        (Datum::Float(x), Datum::Float(y)) => match (x, y) {
            (Some(p), Some(q)) => float_close(p, q),
            (None, None) => true,
            _ => false,
        },
        _ => false,
    }
}

/// Whether both are numbers that hold values: their sum, difference, product
/// and quotient need single-precision arithmetic, which this crate does not perform.
pub open spec fn float_values(a: Datum, b: Datum) -> bool {
    a matches Datum::Float(Some(_)) && b matches Datum::Float(Some(_))
}

/// Inputs on which `+` returns: matching variants, where integers that are
/// both present have a sum that fits the type, and two numbers are not both present.
pub open spec fn datum_add_ok(a: Datum, b: Datum) -> bool {
    match (a, b) {
        (Datum::Binary(_), Datum::Binary(_)) => true,
        (Datum::PosInt8(x), Datum::PosInt8(y)) => both_some_then(x, y, |p: u8, q: u8| p + q <= u8::MAX),
        (Datum::Int8(x), Datum::Int8(y)) => both_some_then(
            x,
            y,
            |p: i8, q: i8| i8::MIN <= p + q <= i8::MAX,
        ),
        (Datum::PosInt(x), Datum::PosInt(y)) => both_some_then(x, y, |p: u32, q: u32| p + q <= u32::MAX),
        (Datum::Int(x), Datum::Int(y)) => both_some_then(
            x,
            y,
            |p: i32, q: i32| i32::MIN <= p + q <= i32::MAX,
        ),
        (Datum::Float(_), Datum::Float(_)) => !float_values(a, b),
        _ => false,
    }
}

/// Sum of two data; binary values combine with logical or; a missing
/// operand gives a missing result.
pub open spec fn datum_add(a: Datum, b: Datum) -> Datum {
    match (a, b) {
        (Datum::Binary(x), Datum::Binary(y)) => Datum::Binary(combine(x, y, |p: bool, q: bool| p || q)),
        (Datum::PosInt8(x), Datum::PosInt8(y)) => Datum::PosInt8(combine(x, y, |p: u8, q: u8| (p + q) as u8)),
        (Datum::Int8(x), Datum::Int8(y)) => Datum::Int8(combine(x, y, |p: i8, q: i8| (p + q) as i8)),
        (Datum::PosInt(x), Datum::PosInt(y)) => Datum::PosInt(combine(x, y, |p: u32, q: u32| (p + q) as u32)),
        (Datum::Int(x), Datum::Int(y)) => Datum::Int(combine(x, y, |p: i32, q: i32| (p + q) as i32)),
        (Datum::Float(_), Datum::Float(_)) => Datum::Float(None),
        _ => a,
    }
}

/// Inputs on which `-` returns: matching variants other than `Binary`, where
/// integers that are both present have a difference that fits the type, and
/// two numbers are not both present.
pub open spec fn datum_sub_ok(a: Datum, b: Datum) -> bool {
    match (a, b) {
        (Datum::PosInt8(x), Datum::PosInt8(y)) => both_some_then(x, y, |p: u8, q: u8| q <= p),
        (Datum::Int8(x), Datum::Int8(y)) => both_some_then(
            x,
            y,
            |p: i8, q: i8| i8::MIN <= p - q <= i8::MAX,
        ),
        (Datum::PosInt(x), Datum::PosInt(y)) => both_some_then(x, y, |p: u32, q: u32| q <= p),
        (Datum::Int(x), Datum::Int(y)) => both_some_then(
            x,
            y,
            |p: i32, q: i32| i32::MIN <= p - q <= i32::MAX,
        ),
        (Datum::Float(_), Datum::Float(_)) => !float_values(a, b),
        _ => false,
    }
}

/// Difference of two data; a missing operand gives a missing result.
pub open spec fn datum_sub(a: Datum, b: Datum) -> Datum {
    match (a, b) {
        (Datum::PosInt8(x), Datum::PosInt8(y)) => Datum::PosInt8(combine(x, y, |p: u8, q: u8| (p - q) as u8)),
        (Datum::Int8(x), Datum::Int8(y)) => Datum::Int8(combine(x, y, |p: i8, q: i8| (p - q) as i8)),
        (Datum::PosInt(x), Datum::PosInt(y)) => Datum::PosInt(combine(x, y, |p: u32, q: u32| (p - q) as u32)),
        (Datum::Int(x), Datum::Int(y)) => Datum::Int(combine(x, y, |p: i32, q: i32| (p - q) as i32)),
        (Datum::Float(_), Datum::Float(_)) => Datum::Float(None),
        _ => a,
    }
}

/// Inputs on which `*` returns: matching variants other than `Binary`, where
/// integers that are both present have a product that fits the type, and
/// two numbers are not both present.
pub open spec fn datum_mul_ok(a: Datum, b: Datum) -> bool {
    match (a, b) {
        (Datum::PosInt8(x), Datum::PosInt8(y)) => both_some_then(x, y, |p: u8, q: u8| p * q <= u8::MAX),
        (Datum::Int8(x), Datum::Int8(y)) => both_some_then(
            x,
            y,
            |p: i8, q: i8| i8::MIN <= p * q <= i8::MAX,
        ),
        (Datum::PosInt(x), Datum::PosInt(y)) => both_some_then(x, y, |p: u32, q: u32| p * q <= u32::MAX),
        (Datum::Int(x), Datum::Int(y)) => both_some_then(
            x,
            y,
            |p: i32, q: i32| i32::MIN <= p * q <= i32::MAX,
        ),
        (Datum::Float(_), Datum::Float(_)) => !float_values(a, b),
        _ => false,
    }
}

/// Product of two data; a missing operand gives a missing result.
pub open spec fn datum_mul(a: Datum, b: Datum) -> Datum {
    match (a, b) {
        (Datum::PosInt8(x), Datum::PosInt8(y)) => Datum::PosInt8(combine(x, y, |p: u8, q: u8| (p * q) as u8)),
        (Datum::Int8(x), Datum::Int8(y)) => Datum::Int8(combine(x, y, |p: i8, q: i8| (p * q) as i8)),
        (Datum::PosInt(x), Datum::PosInt(y)) => Datum::PosInt(combine(x, y, |p: u32, q: u32| (p * q) as u32)),
        (Datum::Int(x), Datum::Int(y)) => Datum::Int(combine(x, y, |p: i32, q: i32| (p * q) as i32)),
        (Datum::Float(_), Datum::Float(_)) => Datum::Float(None),
        _ => a,
    }
}

/// Inputs on which `/` returns: matching variants other than `Binary`, where
/// integers that are both present have a non-zero divisor and a quotient that
/// fits the type, and two numbers are not both present.
pub open spec fn datum_div_ok(a: Datum, b: Datum) -> bool {
    match (a, b) {
        (Datum::PosInt8(x), Datum::PosInt8(y)) => both_some_then(x, y, |p: u8, q: u8| q != 0),
        (Datum::Int8(x), Datum::Int8(y)) => both_some_then(
            x,
            y,
            |p: i8, q: i8| q != 0 && !(p == i8::MIN && q == -1),
        ),
        (Datum::PosInt(x), Datum::PosInt(y)) => both_some_then(x, y, |p: u32, q: u32| q != 0),
        (Datum::Int(x), Datum::Int(y)) => both_some_then(
            x,
            y,
            |p: i32, q: i32| q != 0 && !(p == i32::MIN && q == -1),
        ),
        (Datum::Float(_), Datum::Float(_)) => !float_values(a, b),
        _ => false,
    }
}

/// Quotient of two data, rounded toward zero; a missing operand gives a
/// missing result.
pub open spec fn datum_div(a: Datum, b: Datum) -> Datum {
    match (a, b) {
        (Datum::PosInt8(x), Datum::PosInt8(y)) => Datum::PosInt8(
            combine(x, y, |p: u8, q: u8| trunc_div(p as int, q as int) as u8),
        ),
        (Datum::Int8(x), Datum::Int8(y)) => Datum::Int8(
            combine(x, y, |p: i8, q: i8| trunc_div(p as int, q as int) as i8),
        ),
        (Datum::PosInt(x), Datum::PosInt(y)) => Datum::PosInt(
            combine(x, y, |p: u32, q: u32| trunc_div(p as int, q as int) as u32),
        ),
        (Datum::Int(x), Datum::Int(y)) => Datum::Int(
            combine(x, y, |p: i32, q: i32| trunc_div(p as int, q as int) as i32),
        ),
        (Datum::Float(_), Datum::Float(_)) => Datum::Float(None),
        _ => a,
    }
}

/// Inputs on which `%` returns: matching `Int`, `Int8` or `PosInt` data,
/// where values that are both present have a non-zero divisor and a quotient
/// that fits the type.
pub open spec fn datum_rem_ok(a: Datum, b: Datum) -> bool {
    match (a, b) {
        (Datum::Int(x), Datum::Int(y)) => both_some_then(
            x,
            y,
            |p: i32, q: i32| q != 0 && !(p == i32::MIN && q == -1),
        ),
        (Datum::Int8(x), Datum::Int8(y)) => both_some_then(
            x,
            y,
            |p: i8, q: i8| q != 0 && !(p == i8::MIN && q == -1),
        ),
        (Datum::PosInt(x), Datum::PosInt(y)) => both_some_then(x, y, |p: u32, q: u32| q != 0),
        _ => false,
    }
}

/// Remainder of two data, with the sign of the dividend; a missing operand
/// gives a missing result.
pub open spec fn datum_rem(a: Datum, b: Datum) -> Datum {
    match (a, b) {
        (Datum::Int(x), Datum::Int(y)) => Datum::Int(
            combine(x, y, |p: i32, q: i32| trunc_rem(p as int, q as int) as i32),
        ),
        (Datum::Int8(x), Datum::Int8(y)) => Datum::Int8(
            combine(x, y, |p: i8, q: i8| trunc_rem(p as int, q as int) as i8),
        ),
        (Datum::PosInt(x), Datum::PosInt(y)) => Datum::PosInt(
            combine(x, y, |p: u32, q: u32| trunc_rem(p as int, q as int) as u32),
        ),
        _ => a,
    }
}

/// Inputs on which unary `-` returns: `Binary`, `Int`, `Int8` and `Float`
/// data, other than the most negative integers.
pub open spec fn datum_neg_ok(a: Datum) -> bool {
    match a {
        Datum::Int(x) => x != Some(i32::MIN),
        Datum::Int8(x) => x != Some(i8::MIN),
        Datum::Float(_) => true,
        Datum::Binary(_) => true,
        _ => false,
    }
}

/// Negation of a datum: integers negated, a number with its sign flipped, a
/// binary value inverted; a missing value stays missing.
pub open spec fn datum_neg(a: Datum) -> Datum {
    match a {
        Datum::Int(x) => Datum::Int(
            match x {
                Some(v) => Some((-v) as i32),
                None => None,
            },
        ),
        Datum::Int8(x) => Datum::Int8(
            match x {
                Some(v) => Some((-v) as i8),
                None => None,
            },
        ),
        Datum::Float(x) => Datum::Float(
            match x {
                Some(v) => Some(float_negated(v)),
                None => None,
            },
        ),
        Datum::Binary(x) => Datum::Binary(
            match x {
                Some(v) => Some(!v),
                None => None,
            },
        ),
        _ => a,
    }
}

/// The text a datum is displayed as; a present number is not covered.
pub open spec fn datum_text(d: Datum) -> Seq<char> {
    match d {
        Datum::Binary(Some(true)) => "true"@,
        Datum::Binary(Some(false)) => "false"@,
        Datum::PosInt8(Some(v)) => decimal(v as nat),
        Datum::Int8(Some(v)) => signed_decimal(v as int),
        Datum::PosInt(Some(v)) => decimal(v as nat),
        Datum::Int(Some(v)) => signed_decimal(v as int),
        _ => "none"@,
    }
}

/// A plain value as a present datum of the same variant.
pub open spec fn datum_of(v: RawValue) -> Datum {
    match v {
        RawValue::Binary(x) => Datum::Binary(Some(x)),
        RawValue::PosInt8(x) => Datum::PosInt8(Some(x)),
        RawValue::Int8(x) => Datum::Int8(Some(x)),
        RawValue::PosInt(x) => Datum::PosInt(Some(x)),
        RawValue::Int(x) => Datum::Int(Some(x)),
        RawValue::Float(x) => Datum::Float(Some(x)),
    }
}

/// The quotient of two matching present integers fits their type whenever
/// `/` or `%` is defined on them.
proof fn lemma_datum_quotients_fit(a: Datum, b: Datum)
    requires
        datum_div_ok(a, b) || datum_rem_ok(a, b),
    ensures
        match (a, b) {
            (Datum::PosInt8(Some(x)), Datum::PosInt8(Some(y))) => 0 <= trunc_div(x as int, y as int) <= x,
            (Datum::Int8(Some(x)), Datum::Int8(Some(y))) => i8::MIN <= trunc_div(x as int, y as int) <= i8::MAX,
            (Datum::PosInt(Some(x)), Datum::PosInt(Some(y))) => 0 <= trunc_div(x as int, y as int) <= x,
            (Datum::Int(Some(x)), Datum::Int(Some(y))) => i32::MIN <= trunc_div(x as int, y as int) <= i32::MAX,
            _ => true,
        },
{
    match (a, b) {
        (Datum::PosInt8(Some(x)), Datum::PosInt8(Some(y))) => lemma_trunc_div_unsigned(x as int, y as int),
        (Datum::Int8(Some(x)), Datum::Int8(Some(y))) => lemma_trunc_div_fits(x as int, y as int, -128, 127),
        (Datum::PosInt(Some(x)), Datum::PosInt(Some(y))) => lemma_trunc_div_unsigned(x as int, y as int),
        (Datum::Int(Some(x)), Datum::Int(Some(y))) => lemma_trunc_div_fits(
            x as int,
            y as int,
            -0x8000_0000,
            0x7FFF_FFFF,
        ),
        _ => {},
    }
}

impl Datum {
    /// A plain value as a present datum of the same variant.
    pub fn from_raw(v: RawValue) -> (d: Datum)
        ensures
            d == datum_of(v),
    {
        match v {
            RawValue::Binary(x) => Datum::Binary(Some(x)),
            RawValue::PosInt8(x) => Datum::PosInt8(Some(x)),
            RawValue::Int8(x) => Datum::Int8(Some(x)),
            RawValue::PosInt(x) => Datum::PosInt(Some(x)),
            RawValue::Int(x) => Datum::Int(Some(x)),
            RawValue::Float(x) => Datum::Float(Some(x)),
        }
    }

    /// The plain value the datum holds, if it holds one.
    pub fn present(&self) -> (v: Option<RawValue>)
        ensures
            match v {
                Some(x) => datum_of(x) == *self,
                None => !datum_is_some(*self),
            },
    {
        match *self {
            Datum::Binary(Some(x)) => Some(RawValue::Binary(x)),
            Datum::PosInt8(Some(x)) => Some(RawValue::PosInt8(x)),
            Datum::Int8(Some(x)) => Some(RawValue::Int8(x)),
            Datum::PosInt(Some(x)) => Some(RawValue::PosInt(x)),
            Datum::Int(Some(x)) => Some(RawValue::Int(x)),
            Datum::Float(Some(x)) => Some(RawValue::Float(x)),
            _ => None,
        }
    }

    /// `true` if the datum holds a value.
    pub fn is_some(&self) -> (r: bool)
        ensures
            r == datum_is_some(*self),
    {
        match self {
            Self::Binary(inner) => inner.is_some(),
            Self::PosInt8(inner) => inner.is_some(),
            Self::Int8(inner) => inner.is_some(),
            Self::PosInt(inner) => inner.is_some(),
            Self::Int(inner) => inner.is_some(),
            Self::Float(inner) => inner.is_some(),
        }
    }

    /// `true` if the datum holds no value.
    pub fn is_none(&self) -> (r: bool)
        ensures
            r == !datum_is_some(*self),
    {
        match self {
            Self::Binary(inner) => inner.is_none(),
            Self::PosInt8(inner) => inner.is_none(),
            Self::Int8(inner) => inner.is_none(),
            Self::PosInt(inner) => inner.is_none(),
            Self::Int(inner) => inner.is_none(),
            Self::Float(inner) => inner.is_none(),
        }
    }

    /// `true` unless the variant is `Binary`.
    pub fn is_numeric(&self) -> (r: bool)
        ensures
            r == !(*self is Binary),
    {
        match self {
            Self::Binary(_) => false,
            _ => true,
        }
    }

    /// A `Binary` datum.
    pub fn binary(val: Option<bool>) -> (d: Datum)
        ensures
            d == Datum::Binary(val),
    {
        Self::Binary(val)
    }

    /// A `PosInt8` datum.
    pub fn uint8(num: Option<u8>) -> (d: Datum)
        ensures
            d == Datum::PosInt8(num),
    {
        Self::PosInt8(num)
    }

    /// An `Int8` datum.
    pub fn int8(num: Option<i8>) -> (d: Datum)
        ensures
            d == Datum::Int8(num),
    {
        Self::Int8(num)
    }

    /// A `PosInt` datum.
    pub fn uint(num: Option<u32>) -> (d: Datum)
        ensures
            d == Datum::PosInt(num),
    {
        Self::PosInt(num)
    }

    /// An `Int` datum.
    pub fn int32(num: Option<i32>) -> (d: Datum)
        ensures
            d == Datum::Int(num),
    {
        Self::Int(num)
    }

    /// A `Float` datum from the bit pattern of a single-precision number.
    pub fn float(bits: Option<u32>) -> (d: Datum)
        ensures
            d == Datum::Float(bits),
    {
        Self::Float(bits)
    }

    /// `self + other`; binary values combine with logical or.
    ///
    /// Mismatched variants and overflow are outside this function, as is the
    /// sum of two present numbers (single-precision arithmetic).
    pub fn add(self, other: Datum) -> (r: Datum)
        requires
            datum_add_ok(self, other),
        ensures
            r == datum_add(self, other),
    {
        match (self, other) {
            (Datum::Binary(x), Datum::Binary(y)) => Datum::Binary(
                if let Some(x) = x {
                    if let Some(y) = y {
                        Some(x || y)
                    } else {
                        None
                    }
                } else {
                    None
                },
            ),
            (Datum::Int8(x), Datum::Int8(y)) => Datum::Int8(add_inner(x, y)),
            (Datum::PosInt8(x), Datum::PosInt8(y)) => Datum::PosInt8(add_inner(x, y)),
            (Datum::Int(x), Datum::Int(y)) => Datum::Int(add_inner(x, y)),
            (Datum::PosInt(x), Datum::PosInt(y)) => Datum::PosInt(add_inner(x, y)),
            _ => Datum::Float(None),
        }
    }

    /// `self - other`.
    pub fn sub(self, other: Datum) -> (r: Datum)
        requires
            datum_sub_ok(self, other),
        ensures
            r == datum_sub(self, other),
    {
        match (self, other) {
            (Datum::Int8(x), Datum::Int8(y)) => Datum::Int8(sub_inner(x, y)),
            (Datum::PosInt8(x), Datum::PosInt8(y)) => Datum::PosInt8(sub_inner(x, y)),
            (Datum::Int(x), Datum::Int(y)) => Datum::Int(sub_inner(x, y)),
            (Datum::PosInt(x), Datum::PosInt(y)) => Datum::PosInt(sub_inner(x, y)),
            _ => Datum::Float(None),
        }
    }

    /// `self * other`.
    pub fn mul(self, other: Datum) -> (r: Datum)
        requires
            datum_mul_ok(self, other),
        ensures
            r == datum_mul(self, other),
    {
        match (self, other) {
            (Datum::Int8(x), Datum::Int8(y)) => Datum::Int8(mul_inner(x, y)),
            (Datum::PosInt8(x), Datum::PosInt8(y)) => Datum::PosInt8(mul_inner(x, y)),
            (Datum::Int(x), Datum::Int(y)) => Datum::Int(mul_inner(x, y)),
            (Datum::PosInt(x), Datum::PosInt(y)) => Datum::PosInt(mul_inner(x, y)),
            _ => Datum::Float(None),
        }
    }

    /// `self / other`, rounded toward zero.
    pub fn div(self, other: Datum) -> (r: Datum)
        requires
            datum_div_ok(self, other),
        ensures
            r == datum_div(self, other),
    {
        proof {
            lemma_datum_quotients_fit(self, other);
        }
        match (self, other) {
            (Datum::Int8(x), Datum::Int8(y)) => Datum::Int8(div_inner(x, y)),
            (Datum::PosInt8(x), Datum::PosInt8(y)) => Datum::PosInt8(div_inner(x, y)),
            (Datum::Int(x), Datum::Int(y)) => Datum::Int(div_inner(x, y)),
            (Datum::PosInt(x), Datum::PosInt(y)) => Datum::PosInt(div_inner(x, y)),
            _ => Datum::Float(None),
        }
    }

    /// `self % other`, with the sign of `self`.
    pub fn rem(self, other: Datum) -> (r: Datum)
        requires
            datum_rem_ok(self, other),
        ensures
            r == datum_rem(self, other),
    {
        proof {
            lemma_datum_quotients_fit(self, other);
        }
        match (self, other) {
            (Datum::Int(x), Datum::Int(y)) => Datum::Int(rem_inner(x, y)),
            (Datum::Int8(x), Datum::Int8(y)) => Datum::Int8(rem_inner(x, y)),
            (Datum::PosInt(x), Datum::PosInt(y)) => Datum::PosInt(rem_inner(x, y)),
            _ => self,
        }
    }

    /// `-self`: binary values are inverted.
    pub fn neg(self) -> (r: Datum)
        requires
            datum_neg_ok(self),
        ensures
            r == datum_neg(self),
    {
        match self {
            Datum::Int(x) => Datum::Int(neg_inner(x)),
            Datum::Float(x) => Datum::Float(
                match x {
                    Some(v) => Some(negate_float(v)),
                    None => None,
                },
            ),
            Datum::Int8(x) => Datum::Int8(neg_inner(x)),
            Datum::Binary(x) => Datum::Binary(
                if let Some(inner) = x {
                    Some(!inner)
                } else {
                    None
                },
            ),
            _ => self,
        }
    }

    /// Partial ordering of `self` against `other`, as `<`, `<=`, `>` and `>=`
    /// compare two data.
    pub fn relation(&self, other: &Datum) -> (r: Option<Relation>)
        ensures
            r == datum_relation(*self, *other),
    {
        match (self, other) {
            (Datum::Binary(x), Datum::Binary(y)) => match (x, y) {
                (Some(p), Some(q)) => Some(relate_i64(if *p { 1 } else { 0 }, if *q { 1 } else { 0 })),
                _ => Some(relate_presence(x.is_some(), y.is_some())),
            },
            (Datum::PosInt8(x), Datum::PosInt8(y)) => match (x, y) {
                (Some(p), Some(q)) => Some(relate_i64(*p as i64, *q as i64)),
                _ => Some(relate_presence(x.is_some(), y.is_some())),
            },
            (Datum::Int8(x), Datum::Int8(y)) => match (x, y) {
                (Some(p), Some(q)) => Some(relate_i64(*p as i64, *q as i64)),
                _ => Some(relate_presence(x.is_some(), y.is_some())),
            },
            (Datum::PosInt(x), Datum::PosInt(y)) => match (x, y) {
                (Some(p), Some(q)) => Some(relate_i64(*p as i64, *q as i64)),
                _ => Some(relate_presence(x.is_some(), y.is_some())),
            },
            (Datum::Int(x), Datum::Int(y)) => match (x, y) {
                (Some(p), Some(q)) => Some(relate_i64(*p as i64, *q as i64)),
                _ => Some(relate_presence(x.is_some(), y.is_some())),
            },
            (Datum::Float(x), Datum::Float(y)) => match (x, y) {
                (Some(p), Some(q)) => relate_float(*p, *q),
                _ => Some(relate_presence(x.is_some(), y.is_some())),
            },
            _ => Some(relate_i64(self.rank(), other.rank())),
        }
    }

    /// Position of the variant in declaration order.
    fn rank(&self) -> (r: i64)
        ensures
            r == datum_rank(*self),
    {
        match self {
            Datum::Binary(_) => 0,
            Datum::PosInt8(_) => 1,
            Datum::Int8(_) => 2,
            Datum::PosInt(_) => 3,
            Datum::Int(_) => 4,
            Datum::Float(_) => 5,
        }
    }

    /// The text the datum is displayed as: `true`/`false`, decimal digits, or
    /// `none` for a missing value. A present number is rendered elsewhere.
    pub fn text(&self) -> (s: String)
        requires
            !(*self matches Datum::Float(Some(_))),
        ensures
            s@ == datum_text(*self),
    {
        match self {
            Datum::Binary(Some(v)) => {
                if *v {
                    proof { reveal_strlit("true"); }
                    String::from_str("true")
                } else {
                    proof { reveal_strlit("false"); }
                    String::from_str("false")
                }
            },
            Datum::PosInt8(Some(v)) => unsigned_text(*v as u64),
            Datum::Int8(Some(v)) => signed_text(*v as i64),
            Datum::PosInt(Some(v)) => unsigned_text(*v as u64),
            Datum::Int(Some(v)) => signed_text(*v as i64),
            _ => {
                proof { reveal_strlit("none"); }
                String::from_str("none")
            },
        }
    }
}

/// Relation of two optional values of which at most one is present.
fn relate_presence(x: bool, y: bool) -> (r: Relation)
    requires
        !(x && y),
    ensures
        r == (if !x && !y {
            Relation::Equal
        } else if !x {
            Relation::Less
        } else {
            Relation::Greater
        }),
{
    if !x && !y {
        Relation::Equal
    } else if !x {
        Relation::Less
    } else {
        Relation::Greater
    }
}

impl Default for Datum {
    fn default() -> (d: Datum)
        ensures
            d == Datum::PosInt8(None),
    {
        Datum::PosInt8(None)
    }
}

impl PartialEq for Datum {
    fn eq(&self, other: &Datum) -> (r: bool) {
        match (self, other) {
            (Datum::Binary(x), Datum::Binary(y)) => x.is_some() == y.is_some() && eq_inner(x, y),
            (Datum::Float(x), Datum::Float(y)) => {
                if let Some(x) = x {
                    if let Some(y) = y {
                        return close_float(*x, *y);
                    }
                }
                x.is_none() && y.is_none()
            },
            (Datum::Int8(x), Datum::Int8(y)) => x.is_some() == y.is_some() && eq_inner(x, y),
            (Datum::PosInt8(x), Datum::PosInt8(y)) => x.is_some() == y.is_some() && eq_inner(x, y),
            (Datum::Int(x), Datum::Int(y)) => x.is_some() == y.is_some() && eq_inner(x, y),
            (Datum::PosInt(x), Datum::PosInt(y)) => x.is_some() == y.is_some() && eq_inner(x, y),
            _ => false,
        }
    }
}

impl vstd::std_specs::cmp::PartialEqSpecImpl for Datum {
    open spec fn obeys_eq_spec() -> bool {
        true
    }

    open spec fn eq_spec(&self, other: &Datum) -> bool {
        datum_equal(*self, *other)
    }
}

/// Comparing two data the other way round gives the flipped relation.
pub proof fn law_datum_relation_flips(a: Datum, b: Datum)
    ensures
        datum_relation(b, a) == flipped(datum_relation(a, b)),
{
    if let (Datum::Float(Some(x)), Datum::Float(Some(y))) = (a, b) {
        law_float_relation_flips(x, y);
    }
}

/// A datum that does not hold NaN is equal to itself in the ordering.
pub proof fn law_datum_relation_reflexive(a: Datum)
    requires
        !(a matches Datum::Float(Some(x)) && float_is_nan(x)),
    ensures
        datum_relation(a, a) == Some(Relation::Equal),
{
}

/// `==` on data is reflexive and symmetric; in particular two missing
/// values of one variant are equal.
pub proof fn law_datum_equal_reflexive_symmetric(a: Datum, b: Datum)
    ensures
        datum_equal(a, a),
        datum_equal(a, b) == datum_equal(b, a),
{
    if let (Datum::Float(Some(x)), Datum::Float(Some(y))) = (a, b) {
        law_float_close_symmetric(x, y);
    }
}

/// Negating a datum twice gives it back, wherever negation is defined.
pub proof fn law_datum_neg_involutive(a: Datum)
    requires
        datum_neg_ok(a),
    ensures
        datum_neg_ok(datum_neg(a)),
        datum_neg(datum_neg(a)) == a,
{
    if let Datum::Float(Some(x)) = a {
        law_float_negated_involutive(x);
    }
}

/// A missing operand makes the result of an arithmetic operation missing.
pub proof fn law_missing_operand_propagates(a: Datum, b: Datum)
    requires
        !datum_is_some(a) || !datum_is_some(b),
    ensures
        datum_add_ok(a, b) ==> !datum_is_some(datum_add(a, b)),
        datum_sub_ok(a, b) ==> !datum_is_some(datum_sub(a, b)),
        datum_mul_ok(a, b) ==> !datum_is_some(datum_mul(a, b)),
        datum_div_ok(a, b) ==> !datum_is_some(datum_div(a, b)),
{
}

} // verus!
