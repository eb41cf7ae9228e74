//! Subscribers that react to readings handed on by a publisher.
use vstd::prelude::*;
use crate::action::trigger::Comparison;
use crate::errors::{Error, ErrorKind};
use crate::io::order::Relation;
use crate::io::raw::{RawValue, raw_relation, raw_rank, law_raw_relation_flips};
use crate::io::laws::{raw_int, law_raw_order_integers};

verus! {

/// Whether the external value satisfies the comparison against the threshold:
/// `GT` is `>`, `GTE` is `>=`, `LT` is `<`, `LTE` is `<=`.
pub open spec fn comparison_holds(c: Comparison, value: RawValue, threshold: RawValue) -> bool {
    let r = raw_relation(value, threshold);
    match c {
        Comparison::GT => r == Some(Relation::Greater),
        Comparison::GTE => r == Some(Relation::Greater) || r == Some(Relation::Equal),
        Comparison::LT => r == Some(Relation::Less),
        Comparison::LTE => r == Some(Relation::Less) || r == Some(Relation::Equal),
    }
}

/// What a subscriber does with one reading.
#[derive(Debug, Clone, Copy)]
pub struct Reaction {
    /// Print a notification that the threshold was exceeded.
    pub notify: bool,
    /// Value to send to the output device, when one is attached.
    pub write: Option<RawValue>,
}

/// Subscriber that reacts in a binary fashion when a threshold is exceeded:
/// it notifies, and actuates its output (if any) while the threshold is
/// exceeded and de-actuates it otherwise.
///
/// `P` is the publisher handle and `D` the output device handle.
pub struct ThresholdAction<P, D> {
    name: String,
    threshold: RawValue,
    publisher: Option<P>,
    trigger: Comparison,
    output: Option<D>,
}

impl<P, D> ThresholdAction<P, D> {
    /// Name of the subscriber.
    pub closed spec fn spec_name(&self) -> Seq<char> {
        self.name@
    }

    /// Threshold value.
    pub closed spec fn spec_threshold(&self) -> RawValue {
        self.threshold
    }

    /// Publisher, if one is associated.
    pub closed spec fn spec_publisher(&self) -> Option<P> {
        self.publisher
    }

    /// Comparison of external value and threshold.
    pub closed spec fn spec_trigger(&self) -> Comparison {
        self.trigger
    }

    /// Output device, if one is associated.
    pub closed spec fn spec_output(&self) -> Option<D> {
        self.output
    }

    /// A subscriber without a publisher.
    pub fn new(name: String, threshold: RawValue, trigger: Comparison, output: Option<D>) -> (t: Self)
        ensures
            t.spec_name() == name@,
            t.spec_threshold() == threshold,
            t.spec_publisher() is None,
            t.spec_trigger() == trigger,
            t.spec_output() == output,
    {
        Self { name, threshold, publisher: None, trigger, output }
    }

    /// Copy of the threshold value.
    pub fn threshold(&self) -> (v: RawValue)
        ensures
            v == self.spec_threshold(),
    {
        self.threshold
    }

    /// Name of the subscriber.
    pub fn name(&self) -> (n: &String)
        ensures
            n@ == self.spec_name(),
    {
        &self.name
    }

    /// Comparison of external value and threshold.
    pub fn trigger(&self) -> (c: Comparison)
        ensures
            c == self.spec_trigger(),
    {
        self.trigger
    }

    /// The associated publisher.
    pub fn publisher(&self) -> (p: &Option<P>)
        ensures
            *p == self.spec_publisher(),
    {
        &self.publisher
    }

    /// The associated output device.
    pub fn output(&self) -> (o: &Option<D>)
        ensures
            *o == self.spec_output(),
    {
        &self.output
    }

    /// `true` while no publisher is associated, as during building.
    pub fn orphan(&self) -> (b: bool)
        ensures
            b == self.spec_publisher() is None,
    {
        match self.publisher {
            Some(_) => false,
            None => true,
        }
    }

    /// Associate a publisher if none is; an existing one is kept.
    pub fn add_publisher(&mut self, publisher: P)
        ensures
            old(self).spec_publisher() is None ==> final(self).spec_publisher() == Some(publisher),
            old(self).spec_publisher() is Some ==> final(self).spec_publisher() == old(self).spec_publisher(),
            final(self).spec_name() == old(self).spec_name(),
            final(self).spec_threshold() == old(self).spec_threshold(),
            final(self).spec_trigger() == old(self).spec_trigger(),
            final(self).spec_output() == old(self).spec_output(),
    {
        if self.publisher.is_none() {
            self.publisher = Some(publisher);
        }
    }

    /// Check before passing `value` to the output device, given whether the
    /// attached device is an output: without a device, or with one that is
    /// not an output, the device error; otherwise the value to write.
    pub fn write(&self, value: RawValue, device_is_output: bool) -> (r: Result<RawValue, Error>)
        ensures
            self.spec_output() is None ==> (r matches Err(e) && e.kind == ErrorKind::DeviceError
                && e.message@ == "ThresholdAction has no device associated as output."@),
            self.spec_output() is Some && !device_is_output ==> (r matches Err(e) && e.kind
                == ErrorKind::DeviceError && e.message@
                == "Associated output device is misconfigured."@),
            self.spec_output() is Some && device_is_output ==> r == Ok::<RawValue, Error>(value),
    {
        if self.output.is_some() {
            if device_is_output {
                Ok(value)
            } else {
                Err(Error::new(ErrorKind::DeviceError, "Associated output device is misconfigured."))
            }
        } else {
            Err(Error::new(ErrorKind::DeviceError, "ThresholdAction has no device associated as output."))
        }
    }

    /// React to an incoming value: notify when the threshold is exceeded,
    /// and send `true` to an attached output while exceeded, `false` otherwise.
    /// An attached device must be an output.
    pub fn evaluate(&self, input: RawValue, device_is_output: bool) -> (r: Reaction)
        requires
            self.spec_output() is Some ==> device_is_output,
        ensures
            r.notify == comparison_holds(self.spec_trigger(), input, self.spec_threshold()),
            self.spec_output() is Some ==> r.write == Some(RawValue::Binary(r.notify)),
            self.spec_output() is None ==> r.write is None,
    {
        let rel = input.relation(&self.threshold);
        let exceeded = match &self.trigger {
            Comparison::GT => rel == Some(Relation::Greater),
            Comparison::GTE => rel == Some(Relation::Greater) || rel == Some(Relation::Equal),
            Comparison::LT => rel == Some(Relation::Less),
            Comparison::LTE => rel == Some(Relation::Less) || rel == Some(Relation::Equal),
        };
        let write = if self.output.is_some() {
            match self.write(RawValue::Binary(exceeded), device_is_output) {
                Ok(v) => Some(v),
                Err(_) => None,
            }
        } else {
            None
        };
        Reaction { notify: exceeded, write }
    }
}

/// Subscriber abstracting a PID controller over an output device.
pub struct PIDMonitor<P, D> {
    name: String,
    threshold: RawValue,
    publisher: Option<P>,
    output: D,
}

impl<P, D> PIDMonitor<P, D> {
    /// Name of the subscriber.
    pub closed spec fn spec_name(&self) -> Seq<char> {
        self.name@
    }

    /// Publisher, if one is associated.
    pub closed spec fn spec_publisher(&self) -> Option<P> {
        self.publisher
    }

    /// Threshold value to maintain.
    pub closed spec fn spec_threshold(&self) -> RawValue {
        self.threshold
    }

    /// Output device that is driven.
    pub closed spec fn spec_output(&self) -> D {
        self.output
    }

    /// A monitor without a publisher.
    pub fn new(name: String, threshold: RawValue, output: D) -> (m: Self)
        ensures
            m.spec_name() == name@,
            m.spec_publisher() is None,
            m.spec_threshold() == threshold,
            m.spec_output() == output,
    {
        Self { name, threshold, publisher: None, output }
    }

    /// Threshold value to maintain.
    pub fn threshold(&self) -> (v: RawValue)
        ensures
            v == self.spec_threshold(),
    {
        self.threshold
    }

    /// Name of the subscriber.
    pub fn name(&self) -> (n: &String)
        ensures
            n@ == self.spec_name(),
    {
        &self.name
    }

    /// The associated publisher.
    pub fn publisher(&self) -> (p: &Option<P>)
        ensures
            *p == self.spec_publisher(),
    {
        &self.publisher
    }

    /// Associate a publisher if none is; an existing one is kept.
    pub fn add_publisher(&mut self, publisher: P)
        ensures
            old(self).spec_publisher() is None ==> final(self).spec_publisher() == Some(publisher),
            old(self).spec_publisher() is Some ==> final(self).spec_publisher() == old(self).spec_publisher(),
            final(self).spec_name() == old(self).spec_name(),
            final(self).spec_threshold() == old(self).spec_threshold(),
            final(self).spec_output() == old(self).spec_output(),
    {
        match self.publisher {
            None => self.publisher = Some(publisher),
            Some(_) => (),
        }
    }
}

/// On integer values of one variant the comparisons are the integer ones:
/// `GT` is `>`, `GTE` is `>=`, `LT` is `<`, `LTE` is `<=`.
pub proof fn law_comparison_on_integers(value: RawValue, threshold: RawValue)
    requires
        raw_int(value) is Some,
        raw_int(threshold) is Some,
        raw_rank(value) == raw_rank(threshold),
    ensures
        comparison_holds(Comparison::GT, value, threshold) == (raw_int(value)->0 > raw_int(
            threshold,
        )->0),
        comparison_holds(Comparison::GTE, value, threshold) == (raw_int(value)->0 >= raw_int(
            threshold,
        )->0),
        comparison_holds(Comparison::LT, value, threshold) == (raw_int(value)->0 < raw_int(
            threshold,
        )->0),
        comparison_holds(Comparison::LTE, value, threshold) == (raw_int(value)->0 <= raw_int(
            threshold,
        )->0),
{
    law_raw_order_integers(value, threshold);
}

/// Swapping value and threshold swaps `<=` with `>=` and `<` with `>`; on
/// ordered values `<=` is the negation of `>` and `<` that of `>=`.
pub proof fn law_comparison_swap_and_complement(value: RawValue, threshold: RawValue)
    ensures
        comparison_holds(Comparison::LTE, value, threshold) == comparison_holds(
            Comparison::GTE,
            threshold,
            value,
        ),
        comparison_holds(Comparison::LT, value, threshold) == comparison_holds(
            Comparison::GT,
            threshold,
            value,
        ),
        raw_relation(value, threshold) is Some ==> comparison_holds(
            Comparison::LTE,
            value,
            threshold,
        ) == !comparison_holds(Comparison::GT, value, threshold),
        raw_relation(value, threshold) is Some ==> comparison_holds(
            Comparison::LT,
            value,
            threshold,
        ) == !comparison_holds(Comparison::GTE, value, threshold),
{
    law_raw_relation_flips(value, threshold);
    if let Some(x) = raw_relation(value, threshold) {
        match x {
            Relation::Less => {},
            Relation::Equal => {},
            Relation::Greater => {},
        }
    }
}

} // verus!
