//! Bang-bang (on-off) control of an output from an input reading.
use vstd::prelude::*;
use crate::io::datum::{Datum, datum_relation, datum_of};
use crate::io::raw::RawValue;
use crate::io::event::IOEvent;
use crate::io::metadata::IntoText;
use crate::action::trigger::{Trigger, Comparable, trigger_holds};

verus! {

/// Bang-bang (on-off) controller.
///
/// When the incoming value exceeds the threshold in the sense of `trigger`,
/// the output device `O` is actuated (sent `true`); otherwise it is
/// de-actuated (sent `false`).
pub struct Threshold<O> {
    name: String,
    threshold: RawValue,
    trigger: Trigger,
    output: Option<O>,
}

/// Whether an incoming value exceeds the threshold under the trigger; the
/// threshold is compared as a present datum of its variant.
pub open spec fn threshold_exceeded(trigger: Trigger, value: Datum, threshold: RawValue) -> bool {
    trigger_holds(trigger, datum_relation(value, datum_of(threshold)))
}

impl<O> Threshold<O> {
    /// Name of the action.
    pub closed spec fn spec_name(&self) -> Seq<char> {
        self.name@
    }

    /// Threshold value.
    pub closed spec fn spec_threshold(&self) -> RawValue {
        self.threshold
    }

    /// Relationship between the incoming value and the threshold.
    pub closed spec fn spec_trigger(&self) -> Trigger {
        self.trigger
    }

    /// Output device, if one is set.
    pub closed spec fn spec_output(&self) -> Option<O> {
        self.output
    }

    /// An action without an output device.
    pub fn new<N: IntoText>(name: N, threshold: RawValue, trigger: Trigger) -> (t: Self)
        ensures
            t.spec_name() == name.text_view(),
            t.spec_threshold() == threshold,
            t.spec_trigger() == trigger,
            t.spec_output() is None,
    {
        Threshold { name: name.into_text(), threshold, trigger, output: None }
    }

    /// An action with an output device.
    pub fn with_output<N: IntoText>(name: N, threshold: RawValue, trigger: Trigger, output: O) -> (t:
        Self)
        ensures
            t.spec_name() == name.text_view(),
            t.spec_threshold() == threshold,
            t.spec_trigger() == trigger,
            t.spec_output() == Some(output),
    {
        Self::new(name, threshold, trigger).set_output(output)
    }

    /// Builder method setting the output device; the rest is kept.
    pub fn set_output(self, device: O) -> (t: Self)
        ensures
            t.spec_name() == self.spec_name(),
            t.spec_threshold() == self.spec_threshold(),
            t.spec_trigger() == self.spec_trigger(),
            t.spec_output() == Some(device),
    {
        let mut t = self;
        t.output = Some(device);
        t
    }

    /// Copy of the threshold value.
    pub fn threshold(&self) -> (v: RawValue)
        ensures
            v == self.spec_threshold(),
    {
        self.threshold
    }

    /// The trigger.
    pub fn trigger(&self) -> (t: Trigger)
        ensures
            t == self.spec_trigger(),
    {
        self.trigger
    }

    /// Name of the action.
    pub fn name(&self) -> (n: &String)
        ensures
            n@ == self.spec_name(),
    {
        &self.name
    }

    /// The output device, if one is set.
    pub fn output(&self) -> (o: &Option<O>)
        ensures
            *o == self.spec_output(),
    {
        &self.output
    }

    /// Evaluate incoming data: the value to send to the output device,
    /// `true` when the incoming value exceeds the threshold and `false`
    /// otherwise. Without an output device the value is not sent anywhere.
    pub fn evaluate(&self, data: &IOEvent) -> (v: Datum)
        ensures
            v == Datum::Binary(
                Some(threshold_exceeded(self.spec_trigger(), data.value, self.spec_threshold())),
            ),
    {
        let exceeded = self.trigger.exceeded(data.value, Datum::from_raw(self.threshold));
        Datum::Binary(Some(exceeded))
    }
}

} // verus!
