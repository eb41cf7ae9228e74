//! Notification when a value passes a threshold in a given direction.
use vstd::prelude::*;
use crate::errors::Error;
use crate::io::order::Relation;
use crate::io::raw::{RawValue, raw_relation, raw_rank};
use crate::io::laws::{raw_int, law_raw_order_integers};

verus! {

/// Routines that carry a name.
pub trait NamedRoutine {
    /// The routine's name.
    fn name(&self) -> String;
}

/// Sending a notification message.
pub trait Notifier {
    /// Deliver `msg`.
    fn send_notification(&mut self, msg: String) -> Result<(), Error>;
}

/// Which side of the threshold counts as exceeding it.
#[derive(Debug, Clone, Copy, PartialEq, Eq, Structural)]
pub enum Direction {
    Above,
    Below,
}

/// Whether `value` exceeds `threshold` in `direction`: `Above` is `>=`,
/// `Below` is `<=`; unordered values exceed nothing.
pub open spec fn passes(direction: Direction, value: RawValue, threshold: RawValue) -> bool {
    match direction {
        Direction::Above => raw_relation(value, threshold) == Some(Relation::Greater)
            || raw_relation(value, threshold) == Some(Relation::Equal),
        Direction::Below => raw_relation(value, threshold) == Some(Relation::Less)
            || raw_relation(value, threshold) == Some(Relation::Equal),
    }
}

/// Notify when a threshold is exceeded; `P` is the publisher it listens to.
pub struct ThresholdNotifier<P> {
    name: String,
    threshold: RawValue,
    publisher: P,
    direction: Direction,
}

impl<P> ThresholdNotifier<P> {
    /// Name, threshold and direction.
    pub closed spec fn spec_settings(&self) -> (String, RawValue, Direction) {
        (self.name, self.threshold, self.direction)
    }

    /// The publisher.
    pub closed spec fn spec_publisher(&self) -> P {
        self.publisher
    }

    /// A notifier holding exactly the given values.
    pub fn new(name: String, threshold: RawValue, publisher: P, direction: Direction) -> (n: Self)
        ensures
            n.spec_settings() == (name, threshold, direction),
            n.spec_publisher() == publisher,
    {
        ThresholdNotifier { name, threshold, publisher, direction }
    }

    /// The threshold.
    pub fn threshold(&self) -> (t: RawValue)
        ensures
            t == self.spec_settings().1,
    {
        self.threshold
    }

    /// The direction.
    pub fn direction(&self) -> (d: Direction)
        ensures
            d == self.spec_settings().2,
    {
        self.direction
    }

    /// The publisher.
    pub fn publisher(&self) -> (p: &P)
        ensures
            *p == self.spec_publisher(),
    {
        &self.publisher
    }

    /// Whether `value` exceeds the threshold in the notifier's direction.
    pub fn exceeded(&self, value: RawValue) -> (b: bool)
        ensures
            b == passes(self.spec_settings().2, value, self.spec_settings().1),
    {
        let r = value.relation(&self.threshold);
        match self.direction {
            Direction::Above => r == Some(Relation::Greater) || r == Some(Relation::Equal),
            Direction::Below => r == Some(Relation::Less) || r == Some(Relation::Equal),
        }
    }

    /// The message to send for `value`: `"Value exceeded"` when the threshold
    /// is exceeded, nothing otherwise.
    pub fn evaluate(&self, value: RawValue) -> (msg: Option<String>)
        ensures
            passes(self.spec_settings().2, value, self.spec_settings().1) <==> msg is Some,
            msg matches Some(m) ==> m@ == "Value exceeded"@,
    {
        if self.exceeded(value) {
            Some(String::from_str("Value exceeded"))
        } else {
            None
        }
    }
}

impl<P> NamedRoutine for ThresholdNotifier<P> {
    fn name(&self) -> (n: String)
        ensures
            n@ == self.spec_settings().0@,
    {
        self.name.clone()
    }
}

/// On integer values of one variant, `Above` is `>=` and `Below` is `<=`;
/// swapping value and threshold swaps the directions.
pub proof fn law_passes_on_integers(value: RawValue, threshold: RawValue)
    requires
        raw_int(value) is Some,
        raw_int(threshold) is Some,
        raw_rank(value) == raw_rank(threshold),
    ensures
        passes(Direction::Above, value, threshold) == (raw_int(value)->0 >= raw_int(threshold)->0),
        passes(Direction::Below, value, threshold) == (raw_int(value)->0 <= raw_int(threshold)->0),
        passes(Direction::Above, value, threshold) == passes(Direction::Below, threshold, value),
{
    law_raw_order_integers(value, threshold);
    law_raw_order_integers(threshold, value);
}

} // verus!
