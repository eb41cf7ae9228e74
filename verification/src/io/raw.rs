//! Plain readings without a missing state.
use vstd::prelude::*;
use crate::io::numeric::{
    Numeric, SignedNumeric, trunc_div, trunc_rem, lemma_trunc_div_fits, lemma_trunc_div_unsigned,
};
use crate::io::order::{
    Relation, int_relation, float_relation, float_close, float_negated, relate_i64, relate_float,
    close_float, negate_float, flipped, float_is_nan, law_float_relation_flips,
    law_float_close_symmetric, law_float_negated_involutive,
};

use crate::io::text::{decimal, signed_decimal, unsigned_text, signed_text};

verus! {

/// Value passed between I/O abstractions.
///
/// `Float` holds the IEEE-754 single-precision bit pattern of the number.
#[derive(Debug, Clone, Copy)]
pub enum RawValue {
    Binary(bool),
    PosInt8(u8),
    Int8(i8),
    PosInt(u32),
    Int(i32),
    Float(u32),
}

/// Position of the variant in declaration order; variants order by it.
pub open spec fn raw_rank(v: RawValue) -> int {
    match v {
        RawValue::Binary(_) => 0,
        RawValue::PosInt8(_) => 1,
        RawValue::Int8(_) => 2,
        RawValue::PosInt(_) => 3,
        RawValue::Int(_) => 4,
        RawValue::Float(_) => 5,
    }
}

/// `false` orders before `true`.
pub open spec fn bool_rank(b: bool) -> int {
    if b {
        1
    } else {
        0
    }
}

/// Ordering of two values: by variant, then by the held value;
/// `None` when two numbers are compared and either is NaN.
pub open spec fn raw_relation(a: RawValue, b: RawValue) -> Option<Relation> {
    match (a, b) {
        (RawValue::Binary(x), RawValue::Binary(y)) => Some(int_relation(bool_rank(x), bool_rank(y))),
        (RawValue::PosInt8(x), RawValue::PosInt8(y)) => Some(int_relation(x as int, y as int)),
        (RawValue::Int8(x), RawValue::Int8(y)) => Some(int_relation(x as int, y as int)),
        (RawValue::PosInt(x), RawValue::PosInt(y)) => Some(int_relation(x as int, y as int)),
        (RawValue::Int(x), RawValue::Int(y)) => Some(int_relation(x as int, y as int)),
        (RawValue::Float(x), RawValue::Float(y)) => float_relation(x, y),
        _ => Some(int_relation(raw_rank(a), raw_rank(b))),
    }
}

/// Equality of two values: same variant and equal held values; numbers are
/// equal when at most two representable values apart.
pub open spec fn raw_equal(a: RawValue, b: RawValue) -> bool {
    match (a, b) {
        (RawValue::Binary(x), RawValue::Binary(y)) => x == y,
        (RawValue::PosInt8(x), RawValue::PosInt8(y)) => x == y,
        (RawValue::Int8(x), RawValue::Int8(y)) => x == y,
        (RawValue::PosInt(x), RawValue::PosInt(y)) => x == y,
        (RawValue::Int(x), RawValue::Int(y)) => x == y,
        (RawValue::Float(x), RawValue::Float(y)) => float_close(x, y),
        _ => false,
    }
}

/// Inputs on which `+` returns: matching integer or binary variants whose
/// exact sum fits the type.
pub open spec fn raw_add_ok(a: RawValue, b: RawValue) -> bool {
    match (a, b) {
        (RawValue::Binary(_), RawValue::Binary(_)) => true,
        (RawValue::PosInt8(x), RawValue::PosInt8(y)) => x + y <= u8::MAX,
        (RawValue::Int8(x), RawValue::Int8(y)) => i8::MIN <= x + y <= i8::MAX,
        (RawValue::PosInt(x), RawValue::PosInt(y)) => x + y <= u32::MAX,
        (RawValue::Int(x), RawValue::Int(y)) => i32::MIN <= x + y <= i32::MAX,
        _ => false,
    }
}

/// Sum of two values; binary values combine with logical or.
pub open spec fn raw_add(a: RawValue, b: RawValue) -> RawValue {
    match (a, b) {
        (RawValue::Binary(x), RawValue::Binary(y)) => RawValue::Binary(x || y),
        (RawValue::PosInt8(x), RawValue::PosInt8(y)) => RawValue::PosInt8((x + y) as u8),
        (RawValue::Int8(x), RawValue::Int8(y)) => RawValue::Int8((x + y) as i8),
        (RawValue::PosInt(x), RawValue::PosInt(y)) => RawValue::PosInt((x + y) as u32),
        (RawValue::Int(x), RawValue::Int(y)) => RawValue::Int((x + y) as i32),
        _ => a,
    }
}

/// Inputs on which `-` returns: matching integer variants whose exact
/// difference fits the type.
pub open spec fn raw_sub_ok(a: RawValue, b: RawValue) -> bool {
    match (a, b) {
        (RawValue::PosInt8(x), RawValue::PosInt8(y)) => 0 <= x - y,
        (RawValue::Int8(x), RawValue::Int8(y)) => i8::MIN <= x - y <= i8::MAX,
        (RawValue::PosInt(x), RawValue::PosInt(y)) => 0 <= x - y,
        (RawValue::Int(x), RawValue::Int(y)) => i32::MIN <= x - y <= i32::MAX,
        _ => false,
    }
}

/// Difference of two values.
pub open spec fn raw_sub(a: RawValue, b: RawValue) -> RawValue {
    match (a, b) {
        (RawValue::PosInt8(x), RawValue::PosInt8(y)) => RawValue::PosInt8((x - y) as u8),
        (RawValue::Int8(x), RawValue::Int8(y)) => RawValue::Int8((x - y) as i8),
        (RawValue::PosInt(x), RawValue::PosInt(y)) => RawValue::PosInt((x - y) as u32),
        (RawValue::Int(x), RawValue::Int(y)) => RawValue::Int((x - y) as i32),
        _ => a,
    }
}

/// Inputs on which `*` returns: matching integer variants whose exact
/// product fits the type.
pub open spec fn raw_mul_ok(a: RawValue, b: RawValue) -> bool {
    match (a, b) {
        (RawValue::PosInt8(x), RawValue::PosInt8(y)) => x * y <= u8::MAX,
        (RawValue::Int8(x), RawValue::Int8(y)) => i8::MIN <= x * y <= i8::MAX,
        (RawValue::PosInt(x), RawValue::PosInt(y)) => x * y <= u32::MAX,
        (RawValue::Int(x), RawValue::Int(y)) => i32::MIN <= x * y <= i32::MAX,
        _ => false,
    }
}

/// Product of two values.
pub open spec fn raw_mul(a: RawValue, b: RawValue) -> RawValue {
    match (a, b) {
        (RawValue::PosInt8(x), RawValue::PosInt8(y)) => RawValue::PosInt8((x * y) as u8),
        (RawValue::Int8(x), RawValue::Int8(y)) => RawValue::Int8((x * y) as i8),
        (RawValue::PosInt(x), RawValue::PosInt(y)) => RawValue::PosInt((x * y) as u32),
        (RawValue::Int(x), RawValue::Int(y)) => RawValue::Int((x * y) as i32),
        _ => a,
    }
}

/// Inputs on which `/` returns: matching integer variants, a non-zero
/// divisor, and a quotient that fits the type.
pub open spec fn raw_div_ok(a: RawValue, b: RawValue) -> bool {
    match (a, b) {
        (RawValue::PosInt8(x), RawValue::PosInt8(y)) => y != 0,
        (RawValue::Int8(x), RawValue::Int8(y)) => y != 0 && !(x == i8::MIN && y == -1),
        (RawValue::PosInt(x), RawValue::PosInt(y)) => y != 0,
        (RawValue::Int(x), RawValue::Int(y)) => y != 0 && !(x == i32::MIN && y == -1),
        _ => false,
    }
}

/// Quotient of two values, rounded toward zero.
pub open spec fn raw_div(a: RawValue, b: RawValue) -> RawValue {
    match (a, b) {
        (RawValue::PosInt8(x), RawValue::PosInt8(y)) => RawValue::PosInt8(
            trunc_div(x as int, y as int) as u8,
        ),
        (RawValue::Int8(x), RawValue::Int8(y)) => RawValue::Int8(trunc_div(x as int, y as int) as i8),
        (RawValue::PosInt(x), RawValue::PosInt(y)) => RawValue::PosInt(
            trunc_div(x as int, y as int) as u32,
        ),
        (RawValue::Int(x), RawValue::Int(y)) => RawValue::Int(trunc_div(x as int, y as int) as i32),
        _ => a,
    }
}

/// Inputs on which `%` returns: matching `Int`, `Int8` or `PosInt` values,
/// a non-zero divisor and a quotient that fits the type.
pub open spec fn raw_rem_ok(a: RawValue, b: RawValue) -> bool {
    match (a, b) {
        (RawValue::Int(x), RawValue::Int(y)) => y != 0 && !(x == i32::MIN && y == -1),
        (RawValue::Int8(x), RawValue::Int8(y)) => y != 0 && !(x == i8::MIN && y == -1),
        (RawValue::PosInt(x), RawValue::PosInt(y)) => y != 0,
        _ => false,
    }
}

/// Remainder of two values, with the sign of the dividend.
pub open spec fn raw_rem(a: RawValue, b: RawValue) -> RawValue {
    match (a, b) {
        (RawValue::Int(x), RawValue::Int(y)) => RawValue::Int(trunc_rem(x as int, y as int) as i32),
        (RawValue::Int8(x), RawValue::Int8(y)) => RawValue::Int8(trunc_rem(x as int, y as int) as i8),
        (RawValue::PosInt(x), RawValue::PosInt(y)) => RawValue::PosInt(
            trunc_rem(x as int, y as int) as u32,
        ),
        _ => a,
    }
}

/// Inputs on which unary `-` returns: `Int`, `Int8` and `Float` values,
/// other than the most negative integers.
pub open spec fn raw_neg_ok(a: RawValue) -> bool {
    match a {
        RawValue::Int(x) => x != i32::MIN,
        RawValue::Int8(x) => x != i8::MIN,
        RawValue::Float(_) => true,
        _ => false,
    }
}

/// Negation of a value; a number has its sign flipped.
pub open spec fn raw_neg(a: RawValue) -> RawValue {
    match a {
        RawValue::Int(x) => RawValue::Int((-x) as i32),
        RawValue::Int8(x) => RawValue::Int8((-x) as i8),
        RawValue::Float(x) => RawValue::Float(float_negated(x)),
        _ => a,
    }
}

/// The quotient of two matching integer values fits their type whenever `/`
/// or `%` is defined on them.
proof fn lemma_quotients_fit(a: RawValue, b: RawValue)
    requires
        raw_div_ok(a, b) || raw_rem_ok(a, b),
    ensures
        match (a, b) {
            (RawValue::PosInt8(x), RawValue::PosInt8(y)) => 0 <= trunc_div(x as int, y as int) <= x,
            (RawValue::Int8(x), RawValue::Int8(y)) => i8::MIN <= trunc_div(x as int, y as int) <= i8::MAX,
            (RawValue::PosInt(x), RawValue::PosInt(y)) => 0 <= trunc_div(x as int, y as int) <= x,
            (RawValue::Int(x), RawValue::Int(y)) => i32::MIN <= trunc_div(x as int, y as int) <= i32::MAX,
            _ => true,
        },
{
    match (a, b) {
        (RawValue::PosInt8(x), RawValue::PosInt8(y)) => lemma_trunc_div_unsigned(x as int, y as int),
        (RawValue::Int8(x), RawValue::Int8(y)) => lemma_trunc_div_fits(x as int, y as int, -128, 127),
        (RawValue::PosInt(x), RawValue::PosInt(y)) => lemma_trunc_div_unsigned(x as int, y as int),
        (RawValue::Int(x), RawValue::Int(y)) => lemma_trunc_div_fits(
            x as int,
            y as int,
            -0x8000_0000,
            0x7FFF_FFFF,
        ),
        _ => {},
    }
}

/// The text a value is displayed as: `true`/`false` or decimal digits; a
/// number is not covered.
pub open spec fn raw_text(v: RawValue) -> Seq<char> {
    match v {
        RawValue::Binary(true) => "true"@,
        RawValue::Binary(false) => "false"@,
        RawValue::PosInt8(x) => decimal(x as nat),
        RawValue::Int8(x) => signed_decimal(x as int),
        RawValue::PosInt(x) => decimal(x as nat),
        RawValue::Int(x) => signed_decimal(x as int),
        RawValue::Float(_) => Seq::empty(),
    }
}

impl RawValue {
    /// The text the value is displayed as: `true`/`false` or decimal digits.
    /// A number is rendered elsewhere.
    pub fn text(&self) -> (s: String)
        requires
            !(*self is Float),
        ensures
            s@ == raw_text(*self),
    {
        match self {
            RawValue::Binary(v) => {
                if *v {
                    proof { reveal_strlit("true"); }
                    String::from_str("true")
                } else {
                    proof { reveal_strlit("false"); }
                    String::from_str("false")
                }
            },
            RawValue::PosInt8(v) => unsigned_text(*v as u64),
            RawValue::Int8(v) => signed_text(*v as i64),
            RawValue::PosInt(v) => unsigned_text(*v as u64),
            RawValue::Int(v) => signed_text(*v as i64),
            RawValue::Float(_) => String::new(),
        }
    }

    /// `true` unless the value is `Binary`.
    pub fn is_numeric(&self) -> (r: bool)
        ensures
            r == !(*self is Binary),
    {
        match self {
            Self::Binary(_) => false,
            _ => true,
        }
    }

    /// `self + other`.
    ///
    /// Mismatched variants, overflow, and two numbers (single-precision
    /// arithmetic) are outside this function.
    pub fn add(self, other: RawValue) -> (r: RawValue)
        requires
            raw_add_ok(self, other),
        ensures
            r == raw_add(self, other),
    {
        match (self, other) {
            (RawValue::Binary(x), RawValue::Binary(y)) => RawValue::Binary(x || y),
            (RawValue::Int8(x), RawValue::Int8(y)) => RawValue::Int8(x.plus(y)),
            (RawValue::PosInt8(x), RawValue::PosInt8(y)) => RawValue::PosInt8(x.plus(y)),
            (RawValue::Int(x), RawValue::Int(y)) => RawValue::Int(x.plus(y)),
            (RawValue::PosInt(x), RawValue::PosInt(y)) => RawValue::PosInt(x.plus(y)),
            _ => self,
        }
    }

    /// `self - other`.
    pub fn sub(self, other: RawValue) -> (r: RawValue)
        requires
            raw_sub_ok(self, other),
        ensures
            r == raw_sub(self, other),
    {
        match (self, other) {
            (RawValue::Int8(x), RawValue::Int8(y)) => RawValue::Int8(x.minus(y)),
            (RawValue::PosInt8(x), RawValue::PosInt8(y)) => RawValue::PosInt8(x.minus(y)),
            (RawValue::Int(x), RawValue::Int(y)) => RawValue::Int(x.minus(y)),
            (RawValue::PosInt(x), RawValue::PosInt(y)) => RawValue::PosInt(x.minus(y)),
            _ => self,
        }
    }

    /// `self * other`.
    pub fn mul(self, other: RawValue) -> (r: RawValue)
        requires
            raw_mul_ok(self, other),
        ensures
            r == raw_mul(self, other),
    {
        match (self, other) {
            (RawValue::Int8(x), RawValue::Int8(y)) => RawValue::Int8(x.times(y)),
            (RawValue::PosInt8(x), RawValue::PosInt8(y)) => RawValue::PosInt8(x.times(y)),
            (RawValue::Int(x), RawValue::Int(y)) => RawValue::Int(x.times(y)),
            (RawValue::PosInt(x), RawValue::PosInt(y)) => RawValue::PosInt(x.times(y)),
            _ => self,
        }
    }

    /// `self / other`, rounded toward zero.
    pub fn div(self, other: RawValue) -> (r: RawValue)
        requires
            raw_div_ok(self, other),
        ensures
            r == raw_div(self, other),
    {
        proof {
            lemma_quotients_fit(self, other);
        }
        match (self, other) {
            (RawValue::Int8(x), RawValue::Int8(y)) => RawValue::Int8(x.quotient(y)),
            (RawValue::PosInt8(x), RawValue::PosInt8(y)) => RawValue::PosInt8(x.quotient(y)),
            (RawValue::Int(x), RawValue::Int(y)) => RawValue::Int(x.quotient(y)),
            (RawValue::PosInt(x), RawValue::PosInt(y)) => RawValue::PosInt(x.quotient(y)),
            _ => self,
        }
    }

    /// `self % other`, with the sign of `self`.
    pub fn rem(self, other: RawValue) -> (r: RawValue)
        requires
            raw_rem_ok(self, other),
        ensures
            r == raw_rem(self, other),
    {
        proof {
            lemma_quotients_fit(self, other);
        }
        match (self, other) {
            (RawValue::Int(x), RawValue::Int(y)) => RawValue::Int(x.remainder(y)),
            (RawValue::Int8(x), RawValue::Int8(y)) => RawValue::Int8(x.remainder(y)),
            (RawValue::PosInt(x), RawValue::PosInt(y)) => RawValue::PosInt(x.remainder(y)),
            _ => self,
        }
    }

    /// `-self`.
    pub fn neg(self) -> (r: RawValue)
        requires
            raw_neg_ok(self),
        ensures
            r == raw_neg(self),
    {
        match self {
            RawValue::Int(x) => RawValue::Int(x.negated()),
            RawValue::Int8(x) => RawValue::Int8(x.negated()),
            RawValue::Float(x) => RawValue::Float(negate_float(x)),
            _ => self,
        }
    }

    /// Partial ordering of `self` against `other`, as `<`, `<=`, `>` and `>=`
    /// compare two values.
    pub fn relation(&self, other: &RawValue) -> (r: Option<Relation>)
        ensures
            r == raw_relation(*self, *other),
    {
        match (self, other) {
            (RawValue::Binary(x), RawValue::Binary(y)) => Some(
                relate_i64(if *x { 1 } else { 0 }, if *y { 1 } else { 0 }),
            ),
            (RawValue::PosInt8(x), RawValue::PosInt8(y)) => Some(relate_i64(*x as i64, *y as i64)),
            (RawValue::Int8(x), RawValue::Int8(y)) => Some(relate_i64(*x as i64, *y as i64)),
            (RawValue::PosInt(x), RawValue::PosInt(y)) => Some(relate_i64(*x as i64, *y as i64)),
            (RawValue::Int(x), RawValue::Int(y)) => Some(relate_i64(*x as i64, *y as i64)),
            (RawValue::Float(x), RawValue::Float(y)) => relate_float(*x, *y),
            _ => Some(relate_i64(self.rank(), other.rank())),
        }
    }

    /// Position of the variant in declaration order.
    fn rank(&self) -> (r: i64)
        ensures
            r == raw_rank(*self),
    {
        match self {
            RawValue::Binary(_) => 0,
            RawValue::PosInt8(_) => 1,
            RawValue::Int8(_) => 2,
            RawValue::PosInt(_) => 3,
            RawValue::Int(_) => 4,
            RawValue::Float(_) => 5,
        }
    }
}

impl Default for RawValue {
    fn default() -> (r: RawValue)
        ensures
            r == RawValue::PosInt8(0),
    {
        RawValue::PosInt8(0)
    }
}

impl PartialEq for RawValue {
    fn eq(&self, other: &RawValue) -> (r: bool) {
        match (self, other) {
            (RawValue::Binary(x), RawValue::Binary(y)) => *x == *y,
            (RawValue::Float(x), RawValue::Float(y)) => close_float(*x, *y),
            (RawValue::Int8(x), RawValue::Int8(y)) => *x == *y,
            (RawValue::PosInt8(x), RawValue::PosInt8(y)) => *x == *y,
            (RawValue::Int(x), RawValue::Int(y)) => *x == *y,
            (RawValue::PosInt(x), RawValue::PosInt(y)) => *x == *y,
            _ => false,
        }
    }
}

impl vstd::std_specs::cmp::PartialEqSpecImpl for RawValue {
    open spec fn obeys_eq_spec() -> bool {
        true
    }

    open spec fn eq_spec(&self, other: &RawValue) -> bool {
        raw_equal(*self, *other)
    }
}

/// Comparing two values the other way round gives the flipped relation.
pub proof fn law_raw_relation_flips(a: RawValue, b: RawValue)
    ensures
        raw_relation(b, a) == flipped(raw_relation(a, b)),
{
    if let (RawValue::Float(x), RawValue::Float(y)) = (a, b) {
        law_float_relation_flips(x, y);
    }
}

/// A value that is not NaN is equal to itself in the ordering.
pub proof fn law_raw_relation_reflexive(a: RawValue)
    requires
        !(a matches RawValue::Float(x) && float_is_nan(x)),
    ensures
        raw_relation(a, a) == Some(Relation::Equal),
{
}

/// `==` on values is reflexive and symmetric.
pub proof fn law_raw_equal_reflexive_symmetric(a: RawValue, b: RawValue)
    ensures
        raw_equal(a, a),
        raw_equal(a, b) == raw_equal(b, a),
{
    if let (RawValue::Float(x), RawValue::Float(y)) = (a, b) {
        law_float_close_symmetric(x, y);
    }
}

/// Negating a value twice gives it back, wherever negation is defined.
pub proof fn law_raw_neg_involutive(a: RawValue)
    requires
        raw_neg_ok(a),
    ensures
        raw_neg_ok(raw_neg(a)),
        raw_neg(raw_neg(a)) == a,
{
    if let RawValue::Float(x) = a {
        law_float_negated_involutive(x);
    }
}

} // verus!
