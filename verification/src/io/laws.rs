//! What the operations on readings mean, stated over the numbers they hold.
//!
//! Each law speaks of the integer a reading holds and of ordinary integer
//! arithmetic and order, so that it pins the operations down independently
//! of how they are written.
use vstd::prelude::*;
use crate::io::datum::{
    Datum, datum_relation, datum_rank, datum_is_some, datum_add, datum_add_ok, datum_sub,
    datum_sub_ok, datum_mul, datum_mul_ok, datum_div, datum_div_ok, datum_rem, datum_rem_ok,
    datum_neg, datum_neg_ok, datum_equal,
};
use crate::io::numeric::{
    abs_int, trunc_div, lemma_trunc_rem_bounded, lemma_trunc_div_fits, lemma_trunc_div_unsigned,
};
use crate::io::order::{Relation, float_is_nan};
use crate::io::raw::{
    RawValue, raw_relation, raw_rank, raw_add, raw_add_ok, raw_sub, raw_sub_ok, raw_mul, raw_mul_ok,
    raw_div, raw_div_ok, raw_rem, raw_rem_ok, raw_neg, raw_neg_ok, raw_equal,
};

verus! {

/// The integer held by a present integer datum.
pub open spec fn held_int(d: Datum) -> Option<int> {
    match d {
        Datum::PosInt8(Some(x)) => Some(x as int),
        Datum::Int8(Some(x)) => Some(x as int),
        Datum::PosInt(Some(x)) => Some(x as int),
        Datum::Int(Some(x)) => Some(x as int),
        _ => None,
    }
}

/// The integer held by an integer value.
pub open spec fn raw_int(v: RawValue) -> Option<int> {
    match v {
        RawValue::PosInt8(x) => Some(x as int),
        RawValue::Int8(x) => Some(x as int),
        RawValue::PosInt(x) => Some(x as int),
        RawValue::Int(x) => Some(x as int),
        _ => None,
    }
}

/// Whether `r` is the relation that `<` and `==` give for `x` and `y`.
pub open spec fn orders_as(r: Option<Relation>, x: int, y: int) -> bool {
    &&& (r == Some(Relation::Less) <==> x < y)
    &&& (r == Some(Relation::Equal) <==> x == y)
    &&& (r == Some(Relation::Greater) <==> x > y)
}

/// Whether `q` is the quotient of `x` by `y` rounded toward zero: what is
/// left, `x - y * q`, is smaller than `y` in magnitude and is zero or has
/// the sign of `x`.
pub open spec fn is_truncated_quotient(x: int, y: int, q: int) -> bool {
    &&& abs_int(x - y * q) < abs_int(y)
    &&& (x - y * q == 0 || (x - y * q < 0) == (x < 0))
}

/// Two integer data of one variant order as the integers they hold.
pub proof fn law_datum_order_integers(a: Datum, b: Datum)
    requires
        held_int(a) is Some,
        held_int(b) is Some,
        datum_rank(a) == datum_rank(b),
    ensures
        orders_as(datum_relation(a, b), held_int(a)->0, held_int(b)->0),
{
}

/// A missing value orders before a present one of the same variant, and
/// two missing values of one variant are equal.
pub proof fn law_datum_order_missing(a: Datum, b: Datum)
    requires
        datum_rank(a) == datum_rank(b),
        !datum_is_some(a),
    ensures
        datum_is_some(b) ==> datum_relation(a, b) == Some(Relation::Less),
        !datum_is_some(b) ==> datum_relation(a, b) == Some(Relation::Equal),
{
}

/// `false` orders before `true`.
pub proof fn law_binary_order()
    ensures
        datum_relation(Datum::Binary(Some(false)), Datum::Binary(Some(true))) == Some(Relation::Less),
        raw_relation(RawValue::Binary(false), RawValue::Binary(true)) == Some(Relation::Less),
        raw_relation(RawValue::Binary(true), RawValue::Binary(true)) == Some(Relation::Equal),
{
}

/// Two integer values of one variant order as the integers they hold.
pub proof fn law_raw_order_integers(a: RawValue, b: RawValue)
    requires
        raw_int(a) is Some,
        raw_int(b) is Some,
        raw_rank(a) == raw_rank(b),
    ensures
        orders_as(raw_relation(a, b), raw_int(a)->0, raw_int(b)->0),
{
}

/// Numbers order by value, read from their sign bit and the rest of the
/// bits: a NaN is unordered; any negative number is below any non-negative
/// one; among non-negative numbers larger bits are larger numbers, among
/// negative ones larger bits are smaller numbers; and the two zeros are equal.
pub proof fn law_float_order(a: u32, b: u32)
    ensures
        float_is_nan(a) || float_is_nan(b) ==> raw_relation(RawValue::Float(a), RawValue::Float(b))
            is None,
        !float_is_nan(a) && !float_is_nan(b) ==> {
            let r = raw_relation(RawValue::Float(a), RawValue::Float(b));
            &&& (a < 0x8000_0000 && b < 0x8000_0000 ==> orders_as(r, a as int, b as int))
            &&& (a >= 0x8000_0000 && b >= 0x8000_0000 ==> orders_as(r, b as int, a as int))
            &&& (a > 0x8000_0000 && b < 0x8000_0000 ==> r == Some(Relation::Less))
            &&& (a == 0x8000_0000 && b == 0 ==> r == Some(Relation::Equal))
            &&& (a == 0x8000_0000 && 0 < b < 0x8000_0000 ==> r == Some(Relation::Less))
        },
        raw_relation(RawValue::Float(a), RawValue::Float(b)) == datum_relation(
            Datum::Float(Some(a)),
            Datum::Float(Some(b)),
        ),
{
}

/// The sum of two present integers of one variant is their sum, held in
/// the same variant.
pub proof fn law_add_is_sum(a: Datum, b: Datum)
    requires
        held_int(a) is Some,
        held_int(b) is Some,
        datum_rank(a) == datum_rank(b),
        datum_add_ok(a, b),
    ensures
        held_int(datum_add(a, b)) == Some(held_int(a)->0 + held_int(b)->0),
        datum_rank(datum_add(a, b)) == datum_rank(a),
{
}

/// The difference of two present integers of one variant.
pub proof fn law_sub_is_difference(a: Datum, b: Datum)
    requires
        held_int(a) is Some,
        held_int(b) is Some,
        datum_rank(a) == datum_rank(b),
        datum_sub_ok(a, b),
    ensures
        held_int(datum_sub(a, b)) == Some(held_int(a)->0 - held_int(b)->0),
        datum_rank(datum_sub(a, b)) == datum_rank(a),
{
}

/// The product of two present integers of one variant.
pub proof fn law_mul_is_product(a: Datum, b: Datum)
    requires
        held_int(a) is Some,
        held_int(b) is Some,
        datum_rank(a) == datum_rank(b),
        datum_mul_ok(a, b),
    ensures
        held_int(datum_mul(a, b)) == Some(held_int(a)->0 * held_int(b)->0),
        datum_rank(datum_mul(a, b)) == datum_rank(a),
{
}

/// Subtracting what was added gives the first operand back.
pub proof fn law_sub_undoes_add(a: Datum, b: Datum)
    requires
        held_int(a) is Some,
        held_int(b) is Some,
        datum_rank(a) == datum_rank(b),
        datum_add_ok(a, b),
    ensures
        datum_sub_ok(datum_add(a, b), b),
        datum_sub(datum_add(a, b), b) == a,
{
}

/// Division of present integers rounds toward zero.
pub proof fn law_div_is_truncated_quotient(a: Datum, b: Datum)
    requires
        held_int(a) is Some,
        held_int(b) is Some,
        datum_rank(a) == datum_rank(b),
        datum_div_ok(a, b),
    ensures
        held_int(datum_div(a, b)) matches Some(q) && is_truncated_quotient(
            held_int(a)->0,
            held_int(b)->0,
            q,
        ),
        datum_rank(datum_div(a, b)) == datum_rank(a),
{
    let x = held_int(a)->0;
    let y = held_int(b)->0;
    lemma_trunc_rem_bounded(x, y);
    match (a, b) {
        (Datum::PosInt8(_), Datum::PosInt8(_)) => lemma_trunc_div_unsigned(x, y),
        (Datum::PosInt(_), Datum::PosInt(_)) => lemma_trunc_div_unsigned(x, y),
        (Datum::Int8(_), Datum::Int8(_)) => lemma_trunc_div_fits(x, y, -128, 127),
        (Datum::Int(_), Datum::Int(_)) => lemma_trunc_div_fits(x, y, -0x8000_0000, 0x7FFF_FFFF),
        _ => {},
    }
}

/// The remainder is what division leaves: `x == y * (x / y) + x % y`.
pub proof fn law_rem_is_what_div_leaves(a: Datum, b: Datum)
    requires
        held_int(a) is Some,
        held_int(b) is Some,
        datum_rank(a) == datum_rank(b),
        datum_rem_ok(a, b),
    ensures
        datum_div_ok(a, b),
        held_int(datum_div(a, b)) matches Some(q) && held_int(datum_rem(a, b)) == Some(
            held_int(a)->0 - held_int(b)->0 * q,
        ),
{
    let x = held_int(a)->0;
    let y = held_int(b)->0;
    lemma_trunc_rem_bounded(x, y);
    match (a, b) {
        (Datum::PosInt(_), Datum::PosInt(_)) => lemma_trunc_div_unsigned(x, y),
        (Datum::Int8(_), Datum::Int8(_)) => lemma_trunc_div_fits(x, y, -128, 127),
        (Datum::Int(_), Datum::Int(_)) => lemma_trunc_div_fits(x, y, -0x8000_0000, 0x7FFF_FFFF),
        _ => {},
    }
}

/// Negation of a present signed integer is its negative.
pub proof fn law_neg_is_negative(a: Datum)
    requires
        held_int(a) is Some,
        datum_neg_ok(a),
    ensures
        held_int(datum_neg(a)) == Some(-held_int(a)->0),
        datum_rank(datum_neg(a)) == datum_rank(a),
{
}

/// The sum of two integer values of one variant.
pub proof fn law_raw_add_is_sum(a: RawValue, b: RawValue)
    requires
        raw_int(a) is Some,
        raw_int(b) is Some,
        raw_rank(a) == raw_rank(b),
        raw_add_ok(a, b),
    ensures
        raw_int(raw_add(a, b)) == Some(raw_int(a)->0 + raw_int(b)->0),
        raw_rank(raw_add(a, b)) == raw_rank(a),
{
}

/// The difference of two integer values of one variant.
pub proof fn law_raw_sub_is_difference(a: RawValue, b: RawValue)
    requires
        raw_int(a) is Some,
        raw_int(b) is Some,
        raw_rank(a) == raw_rank(b),
        raw_sub_ok(a, b),
    ensures
        raw_int(raw_sub(a, b)) == Some(raw_int(a)->0 - raw_int(b)->0),
        raw_rank(raw_sub(a, b)) == raw_rank(a),
{
}

/// The product of two integer values of one variant.
pub proof fn law_raw_mul_is_product(a: RawValue, b: RawValue)
    requires
        raw_int(a) is Some,
        raw_int(b) is Some,
        raw_rank(a) == raw_rank(b),
        raw_mul_ok(a, b),
    ensures
        raw_int(raw_mul(a, b)) == Some(raw_int(a)->0 * raw_int(b)->0),
        raw_rank(raw_mul(a, b)) == raw_rank(a),
{
}

/// Binary values add as logical or.
pub proof fn law_raw_binary_add_is_or(x: bool, y: bool)
    ensures
        raw_add(RawValue::Binary(x), RawValue::Binary(y)) == RawValue::Binary(x || y),
        datum_add(Datum::Binary(Some(x)), Datum::Binary(Some(y))) == Datum::Binary(Some(x || y)),
{
}

/// Division of integer values rounds toward zero.
pub proof fn law_raw_div_is_truncated_quotient(a: RawValue, b: RawValue)
    requires
        raw_int(a) is Some,
        raw_int(b) is Some,
        raw_rank(a) == raw_rank(b),
        raw_div_ok(a, b),
    ensures
        raw_int(raw_div(a, b)) matches Some(q) && is_truncated_quotient(
            raw_int(a)->0,
            raw_int(b)->0,
            q,
        ),
        raw_rank(raw_div(a, b)) == raw_rank(a),
{
    let x = raw_int(a)->0;
    let y = raw_int(b)->0;
    lemma_trunc_rem_bounded(x, y);
    match (a, b) {
        (RawValue::PosInt8(_), RawValue::PosInt8(_)) => lemma_trunc_div_unsigned(x, y),
        (RawValue::PosInt(_), RawValue::PosInt(_)) => lemma_trunc_div_unsigned(x, y),
        (RawValue::Int8(_), RawValue::Int8(_)) => lemma_trunc_div_fits(x, y, -128, 127),
        (RawValue::Int(_), RawValue::Int(_)) => lemma_trunc_div_fits(
            x,
            y,
            -0x8000_0000,
            0x7FFF_FFFF,
        ),
        _ => {},
    }
}

/// The remainder of integer values is what division leaves.
pub proof fn law_raw_rem_is_what_div_leaves(a: RawValue, b: RawValue)
    requires
        raw_int(a) is Some,
        raw_int(b) is Some,
        raw_rank(a) == raw_rank(b),
        raw_rem_ok(a, b),
    ensures
        raw_div_ok(a, b),
        raw_int(raw_div(a, b)) matches Some(q) && raw_int(raw_rem(a, b)) == Some(
            raw_int(a)->0 - raw_int(b)->0 * q,
        ),
{
    let x = raw_int(a)->0;
    let y = raw_int(b)->0;
    lemma_trunc_rem_bounded(x, y);
    match (a, b) {
        (RawValue::PosInt(_), RawValue::PosInt(_)) => lemma_trunc_div_unsigned(x, y),
        (RawValue::Int8(_), RawValue::Int8(_)) => lemma_trunc_div_fits(x, y, -128, 127),
        (RawValue::Int(_), RawValue::Int(_)) => lemma_trunc_div_fits(
            x,
            y,
            -0x8000_0000,
            0x7FFF_FFFF,
        ),
        _ => {},
    }
}

/// Negation of a signed integer value is its negative.
pub proof fn law_raw_neg_is_negative(a: RawValue)
    requires
        raw_int(a) is Some,
        raw_neg_ok(a),
    ensures
        raw_int(raw_neg(a)) == Some(-raw_int(a)->0),
        raw_rank(raw_neg(a)) == raw_rank(a),
{
}

/// Integer readings of one variant are equal exactly when they hold the
/// same integer, which is when they order as equal; readings of different
/// variants are never equal.
pub proof fn law_equality_on_integers(a: Datum, b: Datum, v: RawValue, w: RawValue)
    ensures
        held_int(a) is Some && held_int(b) is Some && datum_rank(a) == datum_rank(b) ==> (
        datum_equal(a, b) == (held_int(a)->0 == held_int(b)->0) && datum_equal(a, b) == (
        datum_relation(a, b) == Some(Relation::Equal))),
        datum_rank(a) != datum_rank(b) ==> !datum_equal(a, b),
        raw_int(v) is Some && raw_int(w) is Some && raw_rank(v) == raw_rank(w) ==> (raw_equal(v, w)
            == (raw_int(v)->0 == raw_int(w)->0) && raw_equal(v, w) == (raw_relation(v, w) == Some(
            Relation::Equal,
        ))),
        raw_rank(v) != raw_rank(w) ==> !raw_equal(v, w),
{
}

} // verus!
