//! Sensors that stand in for hardware.
use vstd::prelude::*;
use crate::io::datum::Datum;
use crate::io::direction::IODirection;
use crate::io::kind::IOKind;
use crate::io::metadata::{DeviceMetadata, IdType};

verus! {

/// Bit pattern of the single-precision number 1.2.
pub const MOCK_PH_BITS: u32 = 0x3F99_999A;

/// A pH sensor that always reads 1.2; `L` is the handle of its log.
pub struct MockPhSensor<L> {
    metadata: DeviceMetadata,
    pub log: L,
}

impl<L> MockPhSensor<L> {
    /// The sensor's metadata.
    pub closed spec fn spec_metadata(&self) -> DeviceMetadata {
        self.metadata
    }

    /// The sensor's log handle.
    pub closed spec fn spec_log(&self) -> L {
        self.log
    }

    /// A pH input named `name` with id `sensor_id`, logging to `log`.
    pub fn new(name: String, sensor_id: IdType, log: L) -> (s: Self)
        ensures
            s.spec_metadata().name@ == name@,
            s.spec_metadata().id == sensor_id,
            s.spec_metadata().kind == IOKind::PH,
            s.spec_metadata().direction == IODirection::In,
            s.spec_log() == log,
    {
        let metadata = DeviceMetadata::with_name(name, sensor_id, IODirection::In).kind(IOKind::PH);
        MockPhSensor { metadata, log }
    }

    /// The sensor's metadata.
    pub fn metadata(&self) -> (m: &DeviceMetadata)
        ensures
            *m == self.spec_metadata(),
    {
        &self.metadata
    }

    /// The reading: always 1.2.
    pub fn read(&self) -> (d: Datum)
        ensures
            d == Datum::Float(Some(MOCK_PH_BITS)),
    {
        Datum::Float(Some(MOCK_PH_BITS))
    }
}

} // verus!
