//! Sensor description records with a numeric range.
use vstd::prelude::*;
use crate::io::kind::IOKind;

verus! {

/// Devices that need calibration before use.
pub trait Calibrated {
    /// Start the calibration procedure; `true` once it succeeded.
    fn calibrate(&self) -> bool;
}

/// Description of a sensor: its name, driver version id, sensor id, kind,
/// and the minimum, maximum and resolution of what it measures, in the
/// sensor's own number type `T`.
#[derive(Debug)]
pub struct DeviceMetadata<T> {
    pub name: String,
    pub version_id: i32,
    pub sensor_id: i32,
    pub kind: IOKind,
    min_value: T,
    max_value: T,
    resolution: T,
}

impl<T> DeviceMetadata<T> {
    /// Name, driver version id, sensor id and kind.
    pub closed spec fn spec_head(&self) -> (String, i32, i32, IOKind) {
        (self.name, self.version_id, self.sensor_id, self.kind)
    }

    /// Measurable or theoretical minimum value.
    pub closed spec fn spec_min_value(&self) -> T {
        self.min_value
    }

    /// Measurable or theoretical maximum value.
    pub closed spec fn spec_max_value(&self) -> T {
        self.max_value
    }

    /// Measurable resolution.
    pub closed spec fn spec_resolution(&self) -> T {
        self.resolution
    }

    /// A record holding exactly the given values.
    pub fn new(
        name: String,
        version_id: i32,
        sensor_id: i32,
        kind: IOKind,
        min_value: T,
        max_value: T,
        resolution: T,
    ) -> (m: Self)
        ensures
            m.spec_head() == (name, version_id, sensor_id, kind),
            m.spec_min_value() == min_value,
            m.spec_max_value() == max_value,
            m.spec_resolution() == resolution,
    {
        DeviceMetadata { name, version_id, sensor_id, kind, min_value, max_value, resolution }
    }

    /// The minimum value.
    pub fn min_value(&self) -> (v: &T)
        ensures
            *v == self.spec_min_value(),
    {
        &self.min_value
    }

    /// The maximum value.
    pub fn max_value(&self) -> (v: &T)
        ensures
            *v == self.spec_max_value(),
    {
        &self.max_value
    }

    /// The resolution.
    pub fn resolution(&self) -> (v: &T)
        ensures
            *v == self.spec_resolution(),
    {
        &self.resolution
    }
}

} // verus!
