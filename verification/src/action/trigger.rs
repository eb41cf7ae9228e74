//! When an external value counts as exceeding a threshold.
use vstd::prelude::*;
use crate::io::order::{Relation, flipped, float_is_nan};
use crate::io::raw::{RawValue, raw_relation, law_raw_relation_flips};
use crate::io::datum::{Datum, datum_relation, datum_of, law_datum_relation_flips};
use crate::io::raw::raw_rank;
use crate::io::laws::{raw_int, law_raw_order_integers, law_datum_order_integers};

verus! {

/// Values that can be partially ordered against each other.
pub trait Comparable: Sized + Copy {
    /// The ordering of `self` against `other`; `None` when unordered.
    spec fn relation_spec(self, other: Self) -> Option<Relation>;

    /// Compute the ordering of `self` against `other`.
    fn relation_to(&self, other: &Self) -> (r: Option<Relation>)
        ensures
            r == self.relation_spec(*other),
    ;
}

impl Comparable for RawValue {
    open spec fn relation_spec(self, other: RawValue) -> Option<Relation> {
        raw_relation(self, other)
    }

    fn relation_to(&self, other: &RawValue) -> (r: Option<Relation>) {
        self.relation(other)
    }
}

impl Comparable for Datum {
    open spec fn relation_spec(self, other: Datum) -> Option<Relation> {
        datum_relation(self, other)
    }

    fn relation_to(&self, other: &Datum) -> (r: Option<Relation>) {
        self.relation(other)
    }
}

/// Discrete variants that abstract comparison of external and threshold values.
#[derive(Debug, Clone, Copy, PartialEq, Eq, Structural)]
pub enum Trigger {
    GT,
    LT,
    GTE,
    LTE,
}

/// Whether an ordering result satisfies the trigger: `GT` is `>`, `GTE` is
/// `>=`, `LT` is `<`, `LTE` is `<=`; unordered values satisfy none.
pub open spec fn trigger_holds(t: Trigger, r: Option<Relation>) -> bool {
    match t {
        Trigger::GT => r == Some(Relation::Greater),
        Trigger::GTE => r == Some(Relation::Greater) || r == Some(Relation::Equal),
        Trigger::LT => r == Some(Relation::Less),
        Trigger::LTE => r == Some(Relation::Less) || r == Some(Relation::Equal),
    }
}

/// Symbol shown for a trigger.
pub open spec fn trigger_symbol(t: Trigger) -> Seq<char> {
    match t {
        Trigger::GT => ">"@,
        Trigger::LT => "<"@,
        Trigger::GTE => "≥"@,
        Trigger::LTE => "≤"@,
    }
}

impl Trigger {
    /// Whether an ordering result satisfies the trigger.
    pub fn holds(&self, r: Option<Relation>) -> (b: bool)
        ensures
            b == trigger_holds(*self, r),
    {
        match self {
            Trigger::GT => r == Some(Relation::Greater),
            Trigger::GTE => r == Some(Relation::Greater) || r == Some(Relation::Equal),
            Trigger::LT => r == Some(Relation::Less),
            Trigger::LTE => r == Some(Relation::Less) || r == Some(Relation::Equal),
        }
    }

    /// Check whether the external `value` has exceeded `threshold` in the
    /// sense of the variant.
    pub fn exceeded<V: Comparable>(&self, value: V, threshold: V) -> (b: bool)
        ensures
            b == trigger_holds(*self, value.relation_spec(threshold)),
    {
        self.holds(value.relation_to(&threshold))
    }

    /// Symbol of the trigger.
    pub fn symbol(&self) -> (s: &'static str)
        ensures
            s@ == trigger_symbol(*self),
    {
        match self {
            Trigger::GT => ">",
            Trigger::LT => "<",
            Trigger::GTE => "≥",
            Trigger::LTE => "≤",
        }
    }
}

/// Discrete variants that abstract comparison of external and threshold
/// values; the external value is on the left.
#[derive(Debug, Clone, Copy, PartialEq, Eq, Structural)]
pub enum Comparison {
    GT,
    LT,
    GTE,
    LTE,
}

/// Symbol shown for a comparison.
pub open spec fn comparison_symbol(c: Comparison) -> Seq<char> {
    match c {
        Comparison::GT => ">"@,
        Comparison::LT => "<"@,
        Comparison::GTE => "≥"@,
        Comparison::LTE => "≤"@,
    }
}

impl Comparison {
    /// Symbol of the comparison.
    pub fn symbol(&self) -> (s: &'static str)
        ensures
            s@ == comparison_symbol(*self),
    {
        match self {
            Comparison::GT => ">",
            Comparison::LT => "<",
            Comparison::GTE => "≥",
            Comparison::LTE => "≤",
        }
    }
}

/// Seen from the other side, `>` is `<` and `>=` is `<=`.
pub proof fn law_trigger_flip(r: Option<Relation>)
    ensures
        trigger_holds(Trigger::GT, r) == trigger_holds(Trigger::LT, flipped(r)),
        trigger_holds(Trigger::GTE, r) == trigger_holds(Trigger::LTE, flipped(r)),
        trigger_holds(Trigger::LT, r) == trigger_holds(Trigger::GT, flipped(r)),
        trigger_holds(Trigger::LTE, r) == trigger_holds(Trigger::GTE, flipped(r)),
{
}

/// On comparable values exactly one of `>` and `<=` holds, and exactly one
/// of `<` and `>=`; on unordered values none of the four holds.
pub proof fn law_trigger_complement(r: Option<Relation>)
    ensures
        r is Some ==> trigger_holds(Trigger::GT, r) != trigger_holds(Trigger::LTE, r),
        r is Some ==> trigger_holds(Trigger::LT, r) != trigger_holds(Trigger::GTE, r),
        r is None ==> !trigger_holds(Trigger::GT, r) && !trigger_holds(Trigger::GTE, r)
            && !trigger_holds(Trigger::LT, r) && !trigger_holds(Trigger::LTE, r),
{
    if let Some(x) = r {
        match x {
            Relation::Less => {},
            Relation::Equal => {},
            Relation::Greater => {},
        }
    }
}

/// A value exceeds a threshold with `>` exactly when the threshold exceeds
/// the value with `<`; likewise for `>=` and `<=`.
pub proof fn law_exceeded_swap_raw(value: RawValue, threshold: RawValue)
    ensures
        trigger_holds(Trigger::GT, raw_relation(value, threshold)) == trigger_holds(
            Trigger::LT,
            raw_relation(threshold, value),
        ),
        trigger_holds(Trigger::GTE, raw_relation(value, threshold)) == trigger_holds(
            Trigger::LTE,
            raw_relation(threshold, value),
        ),
{
    law_raw_relation_flips(value, threshold);
}

/// The same swap for data.
pub proof fn law_exceeded_swap_datum(value: Datum, threshold: Datum)
    ensures
        trigger_holds(Trigger::GT, datum_relation(value, threshold)) == trigger_holds(
            Trigger::LT,
            datum_relation(threshold, value),
        ),
        trigger_holds(Trigger::GTE, datum_relation(value, threshold)) == trigger_holds(
            Trigger::LTE,
            datum_relation(threshold, value),
        ),
{
    law_datum_relation_flips(value, threshold);
}

/// A value that is not NaN meets its own value as threshold with `>=` and
/// `<=`, and never with `>` or `<`.
pub proof fn law_threshold_at_value(value: RawValue)
    requires
        !(value matches RawValue::Float(x) && float_is_nan(x)),
    ensures
        trigger_holds(Trigger::GTE, raw_relation(value, value)),
        trigger_holds(Trigger::LTE, raw_relation(value, value)),
        !trigger_holds(Trigger::GT, raw_relation(value, value)),
        !trigger_holds(Trigger::LT, raw_relation(value, value)),
{
}

/// On integer values of one variant the triggers are the integer
/// comparisons of value against threshold: `GT` is `>`, `GTE` is `>=`, `LT`
/// is `<`, `LTE` is `<=`; present integer data compare the same way.
pub proof fn law_trigger_on_integers(value: RawValue, threshold: RawValue)
    requires
        raw_int(value) is Some,
        raw_int(threshold) is Some,
        raw_rank(value) == raw_rank(threshold),
    ensures
        trigger_holds(Trigger::GT, raw_relation(value, threshold)) == (raw_int(value)->0 > raw_int(
            threshold,
        )->0),
        trigger_holds(Trigger::GTE, raw_relation(value, threshold)) == (raw_int(value)->0
            >= raw_int(threshold)->0),
        trigger_holds(Trigger::LT, raw_relation(value, threshold)) == (raw_int(value)->0 < raw_int(
            threshold,
        )->0),
        trigger_holds(Trigger::LTE, raw_relation(value, threshold)) == (raw_int(value)->0
            <= raw_int(threshold)->0),
        datum_relation(datum_of(value), datum_of(threshold)) == raw_relation(value, threshold),
{
    law_raw_order_integers(value, threshold);
    law_datum_order_integers(datum_of(value), datum_of(threshold));
}

} // verus!
